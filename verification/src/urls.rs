//! URL-identity normalization: two repository URLs denote the same
//! repository exactly when their normalized forms are equal.
//!
//! Normalization lower-cases the URL, strips one leading scheme, strips a
//! user specifier standing before the first slash, rewrites scp-style
//! `host:path` to `host/path`, and strips a trailing `.git` suffix and
//! trailing slashes.
//!
//! Case folding is ASCII-only: letters outside `A`..`Z` are kept as they
//! are. Host names and repository paths in clone URLs are ASCII in
//! practice, and the restriction is what lets the idempotence and
//! case-insensitivity laws below be stated and proved instead of resting
//! on an opaque name for Unicode folding.

use vstd::prelude::*;

use crate::text::{
    chars_to_string, ends_with, ends_with_str, find_char, lemma_lower_char_idempotent, lower_char,
    lower_seq, starts_with, starts_with_str, str_to_chars, vec_range, vec_skip,
};

verus! {

/// Step 1: ASCII lower-casing (see `lower_seq`).
///
/// Step 2: strip one leading scheme, trying the four schemes in order.
pub open spec fn scheme_stripped(s: Seq<char>) -> Seq<char> {
    if starts_with(s, "https://"@) {
        s.skip("https://"@.len() as int)
    } else if starts_with(s, "http://"@) {
        s.skip("http://"@.len() as int)
    } else if starts_with(s, "ssh://"@) {
        s.skip("ssh://"@.len() as int)
    } else if starts_with(s, "git://"@) {
        s.skip("git://"@.len() as int)
    } else {
        s
    }
}

/// The position of the first slash, or the length when there is none.
pub open spec fn slash_limit(s: Seq<char>) -> int {
    match s.index_of_first('/') {
        Some(i) => i,
        None => s.len() as int,
    }
}

/// Step 3: strip everything up to and including the first `@` when that `@`
/// stands strictly before the first slash (a user specifier such as `git@`).
pub open spec fn user_stripped(s: Seq<char>) -> Seq<char> {
    match s.index_of_first('@') {
        Some(at) => {
            if at < slash_limit(s) {
                s.skip(at + 1)
            } else {
                s
            }
        },
        None => s,
    }
}

/// Step 4: rewrite scp-style `host:path` to `host/path` when the text before
/// the first colon contains no slash.
pub open spec fn scp_rewritten(s: Seq<char>) -> Seq<char> {
    match s.index_of_first(':') {
        Some(cp) => {
            if !s.subrange(0, cp).contains('/') {
                s.subrange(0, cp) + seq!['/'] + s.skip(cp + 1)
            } else {
                s
            }
        },
        None => s,
    }
}

/// Step 5: strip one trailing `.git` suffix.
pub open spec fn dot_git_stripped(s: Seq<char>) -> Seq<char> {
    if ends_with(s, ".git"@) {
        s.take(s.len() - ".git"@.len())
    } else {
        s
    }
}

/// Step 6: strip all trailing slashes.
pub open spec fn slash_trimmed(s: Seq<char>) -> Seq<char>
    decreases s.len(),
{
    if s.len() > 0 && s.last() == '/' {
        slash_trimmed(s.drop_last())
    } else {
        s
    }
}

/// The normalized form of a URL: the six steps in order.
pub open spec fn normalize_spec(s: Seq<char>) -> Seq<char> {
    slash_trimmed(dot_git_stripped(scp_rewritten(user_stripped(scheme_stripped(lower_seq(s))))))
}

/// The lower-cased characters of a string slice.
fn lowered_chars(s: &str) -> (r: Vec<char>)
    ensures
        r@ == lower_seq(s@),
{
    let cs = str_to_chars(s);
    let mut r: Vec<char> = Vec::new();
    let mut i: usize = 0;
    while i < cs.len()
        invariant
            cs@ == s@,
            i <= cs@.len(),
            r@.len() == i,
            forall|j: int| 0 <= j < i ==> r@[j] == lower_char(cs@[j]),
        decreases cs@.len() - i,
    {
        r.push(crate::text::lower_char_exec(cs[i]));
        i = i + 1;
    }
    proof {
        assert(r@ =~= lower_seq(s@));
    }
    r
}

/// Normalize a git URL for identity comparison. Two URLs refer to the same
/// repository exactly when their normalized forms are equal as strings.
pub fn normalize_url(url: &str) -> (r: String)
    ensures
        r@ == normalize_spec(url@),
{
    let mut cs = lowered_chars(url);

    // Step 2: strip one leading scheme.
    if starts_with_str(&cs, "https://") {
        cs = vec_skip(&cs, "https://".unicode_len());
    } else if starts_with_str(&cs, "http://") {
        cs = vec_skip(&cs, "http://".unicode_len());
    } else if starts_with_str(&cs, "ssh://") {
        cs = vec_skip(&cs, "ssh://".unicode_len());
    } else if starts_with_str(&cs, "git://") {
        cs = vec_skip(&cs, "git://".unicode_len());
    }
    proof {
        assert(cs@ == scheme_stripped(lower_seq(url@)));
    }

    // Step 3: strip a user specifier standing before the first slash.
    let ghost after_scheme = cs@;
    if let Some(at) = find_char(&cs, '@') {
        proof {
            cs@.index_of_first_ensures('@');
        }
        let before_slash = match find_char(&cs, '/') {
            Some(sl) => at < sl,
            None => true,
        };
        proof {
            assert(before_slash == (at < slash_limit(cs@)));
        }
        if before_slash {
            let n = cs.len();
            proof {
                assert(at < n);
            }
            cs = vec_skip(&cs, at + 1);
        }
    }
    proof {
        assert(cs@ == user_stripped(after_scheme));
    }

    // Step 4: rewrite scp-style host:path to host/path.
    let ghost after_user = cs@;
    if let Some(cp) = find_char(&cs, ':') {
        proof {
            cs@.index_of_first_ensures(':');
            cs@.index_of_first_ensures('/');
        }
        let slash_free = match find_char(&cs, '/') {
            Some(sl) => cp < sl,
            None => true,
        };
        proof {
            assert(slash_free == !cs@.subrange(0, cp as int).contains('/')) by {
                cs@.index_of_first_ensures(':');
                cs@.index_of_first_ensures('/');
                if cs@.subrange(0, cp as int).contains('/') {
                    let w = choose|w: int|
                        0 <= w < cp && cs@.subrange(0, cp as int)[w] == '/';
                    assert(cs@[w] == '/');
                    assert(cs@.contains('/'));
                    assert(cs@.index_of_first('/') is Some);
                    assert(cs@.index_of_first('/')->Some_0 <= w < cp);
                    assert(!slash_free);
                }
                if !slash_free {
                    let sl = cs@.index_of_first('/')->Some_0;
                    assert(cs@[sl] == '/' && cs@[cp as int] == ':');
                    assert(sl != cp);
                    assert(sl < cp);
                    assert(cs@.subrange(0, cp as int)[sl] == '/');
                    assert(cs@.subrange(0, cp as int).contains('/'));
                }
            }
        }
        if slash_free {
            let n = cs.len();
            proof {
                assert(cp < n);
            }
            let mut out = vec_range(&cs, 0, cp);
            out.push('/');
            let mut rest = vec_skip(&cs, cp + 1);
            out.append(&mut rest);
            proof {
                assert(out@ =~= cs@.subrange(0, cp as int) + seq!['/'] + cs@.skip(cp + 1));
            }
            cs = out;
        }
    }
    proof {
        assert(cs@ == scp_rewritten(after_user));
    }

    // Step 5: strip one trailing .git suffix.
    let ghost after_scp = cs@;
    if ends_with_str(&cs, ".git") {
        let keep = cs.len() - ".git".unicode_len();
        cs.truncate(keep);
        proof {
            assert(cs@ =~= after_scp.take(after_scp.len() - ".git"@.len()));
        }
    }
    proof {
        assert(cs@ == dot_git_stripped(after_scp));
    }

    // Step 6: strip trailing slashes.
    let ghost after_git = cs@;
    while cs.len() > 0 && cs[cs.len() - 1] == '/'
        invariant
            slash_trimmed(cs@) == slash_trimmed(after_git),
        decreases cs@.len(),
    {
        let ghost pre = cs@;
        proof {
            assert(pre.last() == '/');
            assert(slash_trimmed(pre) == slash_trimmed(pre.drop_last()));
        }
        cs.pop();
        proof {
            assert(cs@ =~= pre.drop_last());
        }
    }
    proof {
        assert(slash_trimmed(cs@) == cs@);
    }

    chars_to_string(&cs)
}

/// Every character of `s` is fixed under ASCII lower-casing.
pub open spec fn is_lowered(s: Seq<char>) -> bool {
    forall|i: int| 0 <= i < s.len() ==> lower_char(#[trigger] s[i]) == s[i]
}

/// There is an `@` strictly before the first slash (a user specifier that
/// step 3 would strip).
pub open spec fn has_user_at(s: Seq<char>) -> bool {
    match s.index_of_first('@') {
        Some(at) => at < slash_limit(s),
        None => false,
    }
}

/// The first colon, if any, has a slash somewhere before it, so step 4
/// leaves the string unchanged.
pub open spec fn no_scp_colon(s: Seq<char>) -> bool {
    match s.index_of_first(':') {
        Some(cp) => s.subrange(0, cp).contains('/'),
        None => true,
    }
}

/// The scp rewrite leaves no colon with a slash-free prefix behind.
proof fn lemma_scp_no_colon(t: Seq<char>)
    ensures
        no_scp_colon(scp_rewritten(t)),
{
    t.index_of_first_ensures(':');
    let u = scp_rewritten(t);
    u.index_of_first_ensures(':');
    match t.index_of_first(':') {
        Some(cp) => {
            if !t.subrange(0, cp).contains('/') {
                // u is t with its first colon replaced by a slash
                assert(u == t.subrange(0, cp) + seq!['/'] + t.skip(cp + 1));
                assert(u[cp] == '/');
                if u.index_of_first(':') is Some {
                    let q = u.index_of_first(':')->Some_0;
                    assert(u[q] == ':');
                    if q < cp {
                        assert(u[q] == t.subrange(0, cp)[q]);
                        assert(t[q] != ':');
                        assert(false);
                    }
                    assert(q > cp);
                    assert(u.subrange(0, q)[cp] == '/');
                    assert(u.subrange(0, q).contains('/'));
                }
            } else {
                assert(u == t);
            }
        },
        None => {
            assert(u == t);
            if u.index_of_first(':') is Some {
                let q = u.index_of_first(':')->Some_0;
                assert(t.contains(':'));
            }
        },
    }
}

/// Taking a prefix preserves the absence of a slash-free-prefixed colon.
proof fn lemma_no_scp_colon_prefix(s: Seq<char>, m: int)
    requires
        no_scp_colon(s),
        0 <= m <= s.len(),
    ensures
        no_scp_colon(s.take(m)),
{
    s.index_of_first_ensures(':');
    let p = s.take(m);
    p.index_of_first_ensures(':');
    if p.index_of_first(':') is Some {
        let cp = p.index_of_first(':')->Some_0;
        assert(s[cp] == ':');
        assert(s.contains(':'));
        let q = s.index_of_first(':')->Some_0;
        if q < cp {
            assert(p[q] == ':');
            assert(false);
        }
        assert(q == cp);
        assert(s.subrange(0, cp).contains('/'));
        let w = choose|w: int| 0 <= w < cp && s.subrange(0, cp)[w] == '/';
        assert(p.subrange(0, cp)[w] == '/');
        assert(p.subrange(0, cp).contains('/'));
    }
}

/// Trimming trailing slashes yields a prefix with no trailing slash.
proof fn lemma_slash_trimmed_props(s: Seq<char>)
    ensures
        slash_trimmed(s).len() <= s.len(),
        slash_trimmed(s) == s.take(slash_trimmed(s).len() as int),
        slash_trimmed(s).len() > 0 ==> slash_trimmed(s).last() != '/',
    decreases s.len(),
{
    if s.len() > 0 && s.last() == '/' {
        lemma_slash_trimmed_props(s.drop_last());
        assert(slash_trimmed(s) == slash_trimmed(s.drop_last()));
        assert(s.drop_last().take(slash_trimmed(s).len() as int) =~= s.take(
            slash_trimmed(s).len() as int,
        ));
    } else {
        assert(slash_trimmed(s) == s);
        assert(s.take(s.len() as int) =~= s);
    }
}

/// A string with no trailing slash is fixed by the trimming step.
proof fn lemma_slash_trimmed_fixed(s: Seq<char>)
    requires
        s.len() == 0 || s.last() != '/',
    ensures
        slash_trimmed(s) == s,
{
}

/// Normalization is case-insensitive: two URLs that differ only in ASCII
/// letter case normalize to the same form.
pub proof fn lemma_normalize_case_insensitive(a: Seq<char>, b: Seq<char>)
    requires
        lower_seq(a) == lower_seq(b),
    ensures
        normalize_spec(a) == normalize_spec(b),
{
}

/// Normalization is idempotent. The two premises name the inputs on which a
/// second pass would still find work: a normalized form that ends in `.git`
/// (the input carried a doubled suffix) or that still holds an `@` before
/// its first slash (the input carried a doubled user specifier).
pub proof fn lemma_normalize_idempotent(s: Seq<char>)
    requires
        !has_user_at(normalize_spec(s)),
        !ends_with(normalize_spec(s), ".git"@),
    ensures
        normalize_spec(normalize_spec(s)) == normalize_spec(s),
{
    let l0 = lower_seq(s);
    let l1 = scheme_stripped(l0);
    let l2 = user_stripped(l1);
    let l3 = scp_rewritten(l2);
    let l4 = dot_git_stripped(l3);
    let r = normalize_spec(s);
    assert(r == slash_trimmed(l4));
    lemma_slash_trimmed_props(l4);

    // Every stage output consists of characters of the previous stage,
    // possibly with inserted slashes, so the result is still lower-cased.
    assert(is_lowered(l0)) by {
        assert forall|i: int| 0 <= i < l0.len() implies lower_char(#[trigger] l0[i]) == l0[i] by {
            lemma_lower_char_idempotent(s[i]);
        }
    }
    assert(is_lowered(l1)) by {
        if starts_with(l0, "https://"@) {
            lemma_is_lowered_subrange(l0, "https://"@.len() as int, l0.len() as int);
        } else if starts_with(l0, "http://"@) {
            lemma_is_lowered_subrange(l0, "http://"@.len() as int, l0.len() as int);
        } else if starts_with(l0, "ssh://"@) {
            lemma_is_lowered_subrange(l0, "ssh://"@.len() as int, l0.len() as int);
        } else if starts_with(l0, "git://"@) {
            lemma_is_lowered_subrange(l0, "git://"@.len() as int, l0.len() as int);
        }
    }
    assert(is_lowered(l2)) by {
        l1.index_of_first_ensures('@');
        if l1.index_of_first('@') is Some {
            let at = l1.index_of_first('@')->Some_0;
            if at < slash_limit(l1) {
                lemma_is_lowered_subrange(l1, at + 1, l1.len() as int);
            }
        }
    }
    assert(is_lowered(l3)) by {
        l2.index_of_first_ensures(':');
        assert forall|i: int| 0 <= i < l3.len() implies lower_char(#[trigger] l3[i]) == l3[i] by {
            if l2.index_of_first(':') is Some {
                let cp = l2.index_of_first(':')->Some_0;
                if !l2.subrange(0, cp).contains('/') {
                    if i < cp {
                        assert(l3[i] == l2[i]);
                    } else if i == cp {
                        assert(l3[i] == '/');
                    } else {
                        assert(l3[i] == l2[i]);
                    }
                }
            }
        }
    }
    assert(is_lowered(l4)) by {
        if ends_with(l3, ".git"@) {
            lemma_is_lowered_subrange(l3, 0, l3.len() - ".git"@.len());
        }
    }
    assert(is_lowered(r)) by {
        lemma_is_lowered_subrange(l4, 0, slash_trimmed(l4).len() as int);
    }

    // No colon in the result has a slash-free prefix.
    lemma_scp_no_colon(l2);
    assert(no_scp_colon(l4)) by {
        if ends_with(l3, ".git"@) {
            lemma_no_scp_colon_prefix(l3, l3.len() - ".git"@.len());
        }
    }
    assert(no_scp_colon(r)) by {
        lemma_no_scp_colon_prefix(l4, slash_trimmed(l4).len() as int);
    }

    // A second pass changes nothing, stage by stage.
    assert(lower_seq(r) =~= r);

    assert(scheme_stripped(r) == r) by {
        reveal_strlit("https://");
        reveal_strlit("http://");
        reveal_strlit("ssh://");
        reveal_strlit("git://");
        if starts_with(r, "https://"@) {
            assert(r.subrange(0, 8) == "https://"@);
            assert forall|j: int| 0 <= j < 5 implies #[trigger] r[j] != ':' && r[j] != '/' by {
                assert(r[j] == r.subrange(0, 8)[j]);
                assert(r[j] == "https://"@[j]);
            }
            assert(r[5] == r.subrange(0, 8)[5]);
            assert(r[5] == ':');
            lemma_first_colon_prefix_slash_free(r, 5);
            assert(false);
        }
        if starts_with(r, "http://"@) {
            assert(r.subrange(0, 7) == "http://"@);
            assert forall|j: int| 0 <= j < 4 implies #[trigger] r[j] != ':' && r[j] != '/' by {
                assert(r[j] == r.subrange(0, 7)[j]);
                assert(r[j] == "http://"@[j]);
            }
            assert(r[4] == r.subrange(0, 7)[4]);
            assert(r[4] == ':');
            lemma_first_colon_prefix_slash_free(r, 4);
            assert(false);
        }
        if starts_with(r, "ssh://"@) {
            assert(r.subrange(0, 6) == "ssh://"@);
            assert forall|j: int| 0 <= j < 3 implies #[trigger] r[j] != ':' && r[j] != '/' by {
                assert(r[j] == r.subrange(0, 6)[j]);
                assert(r[j] == "ssh://"@[j]);
            }
            assert(r[3] == r.subrange(0, 6)[3]);
            assert(r[3] == ':');
            lemma_first_colon_prefix_slash_free(r, 3);
            assert(false);
        }
        if starts_with(r, "git://"@) {
            assert(r.subrange(0, 6) == "git://"@);
            assert forall|j: int| 0 <= j < 3 implies #[trigger] r[j] != ':' && r[j] != '/' by {
                assert(r[j] == r.subrange(0, 6)[j]);
                assert(r[j] == "git://"@[j]);
            }
            assert(r[3] == r.subrange(0, 6)[3]);
            assert(r[3] == ':');
            lemma_first_colon_prefix_slash_free(r, 3);
            assert(false);
        }
    }
    assert(user_stripped(r) == r);
    assert(scp_rewritten(r) == r) by {
        r.index_of_first_ensures(':');
    }
    assert(dot_git_stripped(r) == r);
    lemma_slash_trimmed_fixed(r);
    assert(normalize_spec(r) == r);
}

/// A subrange of a lower-cased sequence is lower-cased.
proof fn lemma_is_lowered_subrange(s: Seq<char>, a: int, b: int)
    requires
        is_lowered(s),
        0 <= a <= b <= s.len(),
    ensures
        is_lowered(s.subrange(a, b)),
{
    assert forall|i: int| 0 <= i < b - a implies lower_char(#[trigger] s.subrange(a, b)[i])
        == s.subrange(a, b)[i] by {
        assert(s.subrange(a, b)[i] == s[a + i]);
    }
}

/// A colon whose prefix holds neither colons nor slashes (as at the head of
/// a scheme such as `https://`) is exactly what `no_scp_colon` rules out.
proof fn lemma_first_colon_prefix_slash_free(r: Seq<char>, cp: int)
    requires
        0 <= cp < r.len(),
        r[cp] == ':',
        forall|j: int| 0 <= j < cp ==> #[trigger] r[j] != ':' && r[j] != '/',
    ensures
        !no_scp_colon(r),
{
    r.index_of_first_ensures(':');
    assert(r.contains(':'));
    let q = r.index_of_first(':')->Some_0;
    assert(q == cp);
    if r.subrange(0, cp).contains('/') {
        let w = choose|w: int| 0 <= w < cp && r.subrange(0, cp)[w] == '/';
        assert(r[w] == '/');
    }
}

} // verus!
