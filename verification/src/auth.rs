//! Credential storage. The trait is the interface that storage backends
//! implement; the in-memory store is the library's own backend, verified
//! against a lookup model. An OS-keychain backend lives outside the
//! library.

use vstd::prelude::*;
use vstd::string::StringExecFns;

use crate::error::GitrError;
use crate::text::str_eq;

verus! {

/// Interface of a credential storage backend.
pub trait CredentialStore {
    /// Store a token under the given key.
    fn store(&mut self, key: &str, token: &str) -> Result<(), GitrError>;

    /// Retrieve a token by key.
    fn get(&self, key: &str) -> Result<Option<String>, GitrError>;

    /// Delete a stored token.
    fn delete(&mut self, key: &str) -> Result<(), GitrError>;
}

/// The token the entry list holds under `k`: the value of the first entry
/// whose key reads `k`.
pub open spec fn entries_lookup(es: Seq<(String, String)>, k: Seq<char>) -> Option<Seq<char>>
    decreases es.len(),
{
    if es.len() == 0 {
        None
    } else if es[0].0@ == k {
        Some(es[0].1@)
    } else {
        entries_lookup(es.drop_first(), k)
    }
}

/// Appending an entry only affects keys the list does not yet hold.
proof fn lemma_lookup_push(es: Seq<(String, String)>, p: (String, String), k: Seq<char>)
    ensures
        entries_lookup(es.push(p), k) == (if entries_lookup(es, k) is Some {
            entries_lookup(es, k)
        } else if p.0@ == k {
            Some(p.1@)
        } else {
            None
        }),
    decreases es.len(),
{
    if es.len() == 0 {
        assert(es.push(p)[0] == p);
        assert(es.push(p).drop_first() =~= Seq::<(String, String)>::empty());
        assert(entries_lookup(es.push(p).drop_first(), k) is None);
    } else {
        assert(es.push(p)[0] == es[0]);
        assert(es.push(p).drop_first() =~= es.drop_first().push(p));
        lemma_lookup_push(es.drop_first(), p, k);
    }
}

/// In-memory credential store.
pub struct MemoryStore {
    entries: Vec<(String, String)>,
}

impl MemoryStore {
    /// The token stored under a key, if any.
    pub closed spec fn lookup(&self, k: Seq<char>) -> Option<Seq<char>> {
        entries_lookup(self.entries@, k)
    }

    /// An empty store.
    pub fn new() -> (r: MemoryStore)
        ensures
            forall|k: Seq<char>| r.lookup(k) is None,
    {
        MemoryStore { entries: Vec::new() }
    }

    /// The entries with key `k` removed, in order.
    fn entries_without(&self, key: &str) -> (r: Vec<(String, String)>)
        ensures
            forall|k: Seq<char>|
                #[trigger] entries_lookup(r@, k) == (if k == key@ {
                    None
                } else {
                    self.lookup(k)
                }),
    {
        let mut out: Vec<(String, String)> = Vec::new();
        let mut i: usize = 0;
        proof {
            assert(self.entries@.take(0) =~= Seq::<(String, String)>::empty());
        }
        while i < self.entries.len()
            invariant
                i <= self.entries@.len(),
                forall|k: Seq<char>|
                    #[trigger] entries_lookup(out@, k) == (if k == key@ {
                        None
                    } else {
                        entries_lookup(self.entries@.take(i as int), k)
                    }),
            decreases self.entries@.len() - i,
        {
            let ghost pre_out = out@;
            let keep = !str_eq(self.entries[i].0.as_str(), key);
            if keep {
                let pair = (self.entries[i].0.clone(), self.entries[i].1.clone());
                out.push(pair);
            }
            i = i + 1;
            proof {
                let cur = self.entries@[i - 1];
                assert forall|k: Seq<char>| #[trigger] entries_lookup(out@, k) == (if k == key@ {
                    None
                } else {
                    entries_lookup(self.entries@.take(i as int), k)
                }) by {
                    lemma_lookup_take_snoc(self.entries@, i - 1, k);
                    if keep {
                        lemma_lookup_push(
                            pre_out,
                            (out@[out@.len() - 1].0, out@[out@.len() - 1].1),
                            k,
                        );
                        assert(out@ =~= pre_out.push(out@[out@.len() - 1]));
                        assert(out@[out@.len() - 1].0@ == cur.0@);
                        assert(out@[out@.len() - 1].1@ == cur.1@);
                    }
                }
            }
        }
        proof {
            assert(self.entries@.take(i as int) =~= self.entries@);
        }
        out
    }

    /// Store a token under a key, replacing any earlier token there.
    pub fn store(&mut self, key: &str, token: &str) -> (r: Result<(), GitrError>)
        ensures
            r is Ok,
            forall|k: Seq<char>|
                #[trigger] final(self).lookup(k) == (if k == key@ {
                    Some(token@)
                } else {
                    old(self).lookup(k)
                }),
    {
        let mut kept = self.entries_without(key);
        let ghost kept_view = kept@;
        let pair = (String::from_str(key), String::from_str(token));
        kept.push(pair);
        proof {
            assert forall|k: Seq<char>| #[trigger] entries_lookup(kept@, k) == (if k == key@ {
                Some(token@)
            } else {
                entries_lookup(kept_view, k)
            }) by {
                lemma_lookup_push(kept_view, kept@[kept@.len() - 1], k);
                assert(kept@ =~= kept_view.push(kept@[kept@.len() - 1]));
            }
        }
        self.entries = kept;
        Ok(())
    }

    /// The token stored under a key.
    pub fn get(&self, key: &str) -> (r: Result<Option<String>, GitrError>)
        ensures
            r matches Ok(v) && (match self.lookup(key@) {
                Some(t) => v matches Some(s) && s@ == t,
                None => v is None,
            }),
    {
        let mut i: usize = 0;
        proof {
            assert(self.entries@.skip(0) =~= self.entries@);
        }
        while i < self.entries.len()
            invariant
                i <= self.entries@.len(),
                entries_lookup(self.entries@, key@) == entries_lookup(
                    self.entries@.skip(i as int),
                    key@,
                ),
            decreases self.entries@.len() - i,
        {
            proof {
                assert(self.entries@.skip(i as int)[0] == self.entries@[i as int]);
                assert(self.entries@.skip(i as int).drop_first() =~= self.entries@.skip(i + 1));
            }
            if str_eq(self.entries[i].0.as_str(), key) {
                return Ok(Some(self.entries[i].1.clone()));
            }
            i = i + 1;
        }
        proof {
            assert(self.entries@.skip(i as int) =~= Seq::<(String, String)>::empty());
        }
        Ok(None)
    }

    /// Delete the token stored under a key; deleting an absent key is not
    /// an error.
    pub fn delete(&mut self, key: &str) -> (r: Result<(), GitrError>)
        ensures
            r is Ok,
            forall|k: Seq<char>|
                #[trigger] final(self).lookup(k) == (if k == key@ {
                    None
                } else {
                    old(self).lookup(k)
                }),
    {
        let kept = self.entries_without(key);
        self.entries = kept;
        Ok(())
    }
}

/// Extending a prefix by its next entry extends the lookup accordingly.
proof fn lemma_lookup_take_snoc(es: Seq<(String, String)>, i: int, k: Seq<char>)
    requires
        0 <= i < es.len(),
    ensures
        entries_lookup(es.take(i + 1), k) == (if entries_lookup(es.take(i), k) is Some {
            entries_lookup(es.take(i), k)
        } else if es[i].0@ == k {
            Some(es[i].1@)
        } else {
            None
        }),
{
    assert(es.take(i + 1) =~= es.take(i).push(es[i]));
    lemma_lookup_push(es.take(i), es[i], k);
}

impl CredentialStore for MemoryStore {
    fn store(&mut self, key: &str, token: &str) -> Result<(), GitrError> {
        MemoryStore::store(self, key, token)
    }

    fn get(&self, key: &str) -> Result<Option<String>, GitrError> {
        MemoryStore::get(self, key)
    }

    fn delete(&mut self, key: &str) -> Result<(), GitrError> {
        MemoryStore::delete(self, key)
    }
}

} // verus!
