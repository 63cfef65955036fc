//! Reconciliation of locally scanned repositories against the repositories
//! a hosting account lists, by normalized URL identity.
//!
//! Each local repository yields exactly one classification: `Matched` with
//! the first listed repository whose clone or ssh URL normalizes to one of
//! the local remotes' URLs, else `LocalOnly`. Every listed repository that
//! no local repository matched yields one `RemoteOnly`. A listed repository
//! is only excluded from `RemoteOnly` once consumed; it stays eligible as a
//! match for further local repositories (first-match policy, not a
//! one-to-one matching).

use vstd::prelude::*;
use vstd::pervasive::VecAdditionalExecFns;
use vstd::string::StringExecFns;

use crate::remote::{RemoteRepo, RemoteRepoView};
use crate::scanner::{ScannedRepo, ScannedRepoView};
use crate::urls::{normalize_spec, normalize_url};

verus! {

/// Classification of a repository during reconciliation.
#[derive(Debug, Clone)]
pub enum RepoMatch {
    /// Found both locally and on the remote host.
    Matched { local: ScannedRepo, remote: RemoteRepo },
    /// Found locally but not on the remote host.
    LocalOnly(ScannedRepo),
    /// Found on the remote host but not locally.
    RemoteOnly(RemoteRepo),
}

/// The mathematical content of a `RepoMatch`.
pub enum RepoMatchView {
    Matched { local: ScannedRepoView, remote: RemoteRepoView },
    LocalOnly { local: ScannedRepoView },
    RemoteOnly { remote: RemoteRepoView },
}

impl View for RepoMatch {
    type V = RepoMatchView;

    open spec fn view(&self) -> RepoMatchView {
        match self {
            RepoMatch::Matched { local, remote } => RepoMatchView::Matched {
                local: local@,
                remote: remote@,
            },
            RepoMatch::LocalOnly(local) => RepoMatchView::LocalOnly { local: local@ },
            RepoMatch::RemoteOnly(remote) => RepoMatchView::RemoteOnly { remote: remote@ },
        }
    }
}

/// The views of a classification list.
pub open spec fn match_views(s: Seq<RepoMatch>) -> Seq<RepoMatchView> {
    s.map_values(|m: RepoMatch| m@)
}

/// The views of a scanned-repository list.
pub open spec fn scanned_views(s: Seq<ScannedRepo>) -> Seq<ScannedRepoView> {
    s.map_values(|x: ScannedRepo| x@)
}

/// The views of a listed-repository list.
pub open spec fn remote_views(s: Seq<RemoteRepo>) -> Seq<RemoteRepoView> {
    s.map_values(|x: RemoteRepo| x@)
}

/// One of the local repository's remote URLs normalizes to the listed
/// repository's clone URL or ssh URL.
pub open spec fn urls_match_spec(l: ScannedRepoView, r: RemoteRepoView) -> bool {
    exists|i: int|
        0 <= i < l.remotes.len() && {
            let n = normalize_spec((#[trigger] l.remotes[i]).url);
            n == normalize_spec(r.clone_url) || n == normalize_spec(r.ssh_url)
        }
}

/// The first index at or after `i` of a listed repository that `l` matches.
pub open spec fn first_match_from(
    l: ScannedRepoView,
    remotes: Seq<RemoteRepoView>,
    i: int,
) -> Option<int>
    decreases remotes.len() - i,
{
    if i < 0 || i >= remotes.len() {
        None
    } else if urls_match_spec(l, remotes[i]) {
        Some(i)
    } else {
        first_match_from(l, remotes, i + 1)
    }
}

/// The first listed repository that `l` matches, if any.
pub open spec fn first_match(l: ScannedRepoView, remotes: Seq<RemoteRepoView>) -> Option<int> {
    first_match_from(l, remotes, 0)
}

/// The classification of local repository `k`.
pub open spec fn local_entry(
    locals: Seq<ScannedRepoView>,
    remotes: Seq<RemoteRepoView>,
    k: int,
) -> RepoMatchView {
    match first_match(locals[k], remotes) {
        Some(i) => RepoMatchView::Matched { local: locals[k], remote: remotes[i] },
        None => RepoMatchView::LocalOnly { local: locals[k] },
    }
}

/// Listed repository `i` is the first match of some local repository.
pub open spec fn remote_consumed(
    locals: Seq<ScannedRepoView>,
    remotes: Seq<RemoteRepoView>,
    i: int,
) -> bool {
    exists|k: int| 0 <= k < locals.len() && first_match(#[trigger] locals[k], remotes) == Some(i)
}

/// The `RemoteOnly` entries for the listed repositories from `i` on, in
/// input order, skipping consumed ones.
pub open spec fn remote_only_from(
    locals: Seq<ScannedRepoView>,
    remotes: Seq<RemoteRepoView>,
    i: int,
) -> Seq<RepoMatchView>
    decreases remotes.len() - i,
{
    if i < 0 || i >= remotes.len() {
        Seq::empty()
    } else if remote_consumed(locals, remotes, i) {
        remote_only_from(locals, remotes, i + 1)
    } else {
        seq![RepoMatchView::RemoteOnly { remote: remotes[i] }] + remote_only_from(
            locals,
            remotes,
            i + 1,
        )
    }
}

/// The full classification: one entry per local repository in input order,
/// followed by the unconsumed listed repositories in input order.
pub open spec fn reconcile_matches(
    locals: Seq<ScannedRepoView>,
    remotes: Seq<RemoteRepoView>,
) -> Seq<RepoMatchView> {
    Seq::new(locals.len(), |k: int| local_entry(locals, remotes, k)) + remote_only_from(
        locals,
        remotes,
        0,
    )
}

/// Result of reconciling local and listed repositories.
#[derive(Debug)]
pub struct ReconcileResult {
    pub host_label: String,
    pub matches: Vec<RepoMatch>,
}

/// The number of `Matched` entries.
pub open spec fn count_matched(s: Seq<RepoMatchView>) -> int
    decreases s.len(),
{
    if s.len() == 0 {
        0
    } else {
        count_matched(s.drop_last()) + if s.last() is Matched {
            1int
        } else {
            0int
        }
    }
}

/// The number of `LocalOnly` entries.
pub open spec fn count_local_only(s: Seq<RepoMatchView>) -> int
    decreases s.len(),
{
    if s.len() == 0 {
        0
    } else {
        count_local_only(s.drop_last()) + if s.last() is LocalOnly {
            1int
        } else {
            0int
        }
    }
}

/// The number of `RemoteOnly` entries.
pub open spec fn count_remote_only(s: Seq<RepoMatchView>) -> int
    decreases s.len(),
{
    if s.len() == 0 {
        0
    } else {
        count_remote_only(s.drop_last()) + if s.last() is RemoteOnly {
            1int
        } else {
            0int
        }
    }
}

impl ReconcileResult {
    /// How many local repositories matched a listed one.
    pub fn matched_count(&self) -> (r: usize)
        ensures
            r == count_matched(match_views(self.matches@)),
    {
        let mut cnt: usize = 0;
        let mut i: usize = 0;
        proof {
            assert(match_views(self.matches@).take(0) =~= Seq::<RepoMatchView>::empty());
        }
        while i < self.matches.len()
            invariant
                i <= self.matches@.len(),
                cnt <= i,
                cnt == count_matched(match_views(self.matches@).take(i as int)),
            decreases self.matches@.len() - i,
        {
            proof {
                assert(match_views(self.matches@).take(i + 1).drop_last() =~= match_views(
                    self.matches@,
                ).take(i as int));
                assert(match_views(self.matches@).take(i + 1).last() == self.matches@[i as int]@);
            }
            if let RepoMatch::Matched { .. } = &self.matches[i] {
                cnt = cnt + 1;
            }
            i = i + 1;
        }
        proof {
            assert(match_views(self.matches@).take(i as int) =~= match_views(self.matches@));
        }
        cnt
    }

    /// How many local repositories matched nothing.
    pub fn local_only_count(&self) -> (r: usize)
        ensures
            r == count_local_only(match_views(self.matches@)),
    {
        let mut cnt: usize = 0;
        let mut i: usize = 0;
        proof {
            assert(match_views(self.matches@).take(0) =~= Seq::<RepoMatchView>::empty());
        }
        while i < self.matches.len()
            invariant
                i <= self.matches@.len(),
                cnt <= i,
                cnt == count_local_only(match_views(self.matches@).take(i as int)),
            decreases self.matches@.len() - i,
        {
            proof {
                assert(match_views(self.matches@).take(i + 1).drop_last() =~= match_views(
                    self.matches@,
                ).take(i as int));
                assert(match_views(self.matches@).take(i + 1).last() == self.matches@[i as int]@);
            }
            if let RepoMatch::LocalOnly(..) = &self.matches[i] {
                cnt = cnt + 1;
            }
            i = i + 1;
        }
        proof {
            assert(match_views(self.matches@).take(i as int) =~= match_views(self.matches@));
        }
        cnt
    }

    /// How many listed repositories no local repository matched.
    pub fn remote_only_count(&self) -> (r: usize)
        ensures
            r == count_remote_only(match_views(self.matches@)),
    {
        let mut cnt: usize = 0;
        let mut i: usize = 0;
        proof {
            assert(match_views(self.matches@).take(0) =~= Seq::<RepoMatchView>::empty());
        }
        while i < self.matches.len()
            invariant
                i <= self.matches@.len(),
                cnt <= i,
                cnt == count_remote_only(match_views(self.matches@).take(i as int)),
            decreases self.matches@.len() - i,
        {
            proof {
                assert(match_views(self.matches@).take(i + 1).drop_last() =~= match_views(
                    self.matches@,
                ).take(i as int));
                assert(match_views(self.matches@).take(i + 1).last() == self.matches@[i as int]@);
            }
            if let RepoMatch::RemoteOnly(..) = &self.matches[i] {
                cnt = cnt + 1;
            }
            i = i + 1;
        }
        proof {
            assert(match_views(self.matches@).take(i as int) =~= match_views(self.matches@));
        }
        cnt
    }
}

/// Whether any of the local repository's remote URLs matches the listed
/// repository's clone or ssh URL after normalization.
pub fn urls_match(local: &ScannedRepo, remote: &RemoteRepo) -> (r: bool)
    ensures
        r == urls_match_spec(local@, remote@),
{
    let clone_n = normalize_url(remote.clone_url.as_str());
    let ssh_n = normalize_url(remote.ssh_url.as_str());
    let mut i: usize = 0;
    while i < local.remotes.len()
        invariant
            clone_n@ == normalize_spec(remote@.clone_url),
            ssh_n@ == normalize_spec(remote@.ssh_url),
            i <= local.remotes@.len(),
            forall|j: int|
                0 <= j < i ==> {
                    let n = normalize_spec((#[trigger] local@.remotes[j]).url);
                    n != normalize_spec(remote@.clone_url) && n != normalize_spec(remote@.ssh_url)
                },
        decreases local.remotes@.len() - i,
    {
        let n = normalize_url(local.remotes[i].url.as_str());
        proof {
            assert(local@.remotes[i as int] == local.remotes@[i as int]@);
        }
        if n == clone_n || n == ssh_n {
            return true;
        }
        i = i + 1;
    }
    false
}

/// Matching is unchanged from index `m` to `idx` when nothing in between
/// matches.
proof fn lemma_first_match_from_skip(
    l: ScannedRepoView,
    remotes: Seq<RemoteRepoView>,
    m: int,
    idx: int,
)
    requires
        0 <= m <= idx <= remotes.len(),
        forall|j: int| m <= j < idx ==> !urls_match_spec(l, #[trigger] remotes[j]),
    ensures
        first_match_from(l, remotes, m) == first_match_from(l, remotes, idx),
    decreases idx - m,
{
    if m < idx {
        lemma_first_match_from_skip(l, remotes, m + 1, idx);
    }
}

/// Reconcile scanned local repositories with the repositories a host lists.
pub fn reconcile(local: &Vec<ScannedRepo>, remote: &Vec<RemoteRepo>, host_label: &str) -> (r:
    ReconcileResult)
    ensures
        r.host_label@ == host_label@,
        match_views(r.matches@) == reconcile_matches(
            scanned_views(local@),
            remote_views(remote@),
        ),
{
    let ghost lv = scanned_views(local@);
    let ghost rv = remote_views(remote@);
    let mut matches: Vec<RepoMatch> = Vec::new();
    let mut consumed: Vec<bool> = Vec::new();
    let mut ci: usize = 0;
    while ci < remote.len()
        invariant
            ci <= remote@.len(),
            consumed@.len() == ci,
            forall|j: int| 0 <= j < ci ==> !(#[trigger] consumed@[j]),
        decreases remote@.len() - ci,
    {
        consumed.push(false);
        ci = ci + 1;
    }

    proof {
        assert(match_views(matches@) =~= Seq::<RepoMatchView>::empty());
        assert(match_views(matches@) =~= Seq::new(0, |k: int| local_entry(lv, rv, k)));
    }
    let mut k: usize = 0;
    while k < local.len()
        invariant
            lv == scanned_views(local@),
            rv == remote_views(remote@),
            lv.len() == local@.len(),
            rv.len() == remote@.len(),
            k <= local@.len(),
            consumed@.len() == rv.len(),
            match_views(matches@) == Seq::new(k as nat, |k2: int| local_entry(lv, rv, k2)),
            forall|i: int|
                0 <= i < rv.len() ==> #[trigger] consumed@[i] == exists|k2: int|
                    0 <= k2 < k && first_match(#[trigger] lv[k2], rv) == Some(i),
        decreases local@.len() - k,
    {
        let ghost pre_matches = matches@;
        let ghost pre_consumed = consumed@;
        let mut found = false;
        let mut idx: usize = 0;
        while idx < remote.len() && !found
            invariant
                lv == scanned_views(local@),
                rv == remote_views(remote@),
                lv.len() == local@.len(),
                rv.len() == remote@.len(),
                k < local@.len(),
                idx <= rv.len(),
                consumed@.len() == rv.len(),
                !found ==> forall|j: int|
                    0 <= j < idx ==> !urls_match_spec(lv[k as int], #[trigger] rv[j]),
                !found ==> matches@ == pre_matches && consumed@ == pre_consumed,
                found ==> {
                    &&& 0 < idx <= rv.len()
                    &&& first_match(lv[k as int], rv) == Some(idx - 1)
                    &&& match_views(matches@) == match_views(pre_matches) + seq![
                        local_entry(lv, rv, k as int),
                    ]
                    &&& consumed@ == pre_consumed.update(idx - 1, true)
                },
            decreases rv.len() - idx,
        {
            proof {
                assert(lv[k as int] == local@[k as int]@);
                assert(rv[idx as int] == remote@[idx as int]@);
            }
            if urls_match(&local[k], &remote[idx]) {
                proof {
                    lemma_first_match_from_skip(lv[k as int], rv, 0, idx as int);
                }
                matches.push(
                    RepoMatch::Matched { local: local[k].clone(), remote: remote[idx].clone() },
                );
                consumed.set(idx, true);
                found = true;
                proof {
                    assert(match_views(matches@) =~= match_views(pre_matches) + seq![
                        local_entry(lv, rv, k as int),
                    ]);
                }
            }
            idx = idx + 1;
        }
        if !found {
            proof {
                lemma_first_match_from_skip(lv[k as int], rv, 0, rv.len() as int);
                assert(lv[k as int] == local@[k as int]@);
            }
            matches.push(RepoMatch::LocalOnly(local[k].clone()));
            proof {
                assert(match_views(matches@) =~= match_views(pre_matches) + seq![
                    local_entry(lv, rv, k as int),
                ]);
            }
        }
        k = k + 1;
        proof {
            assert(match_views(matches@) =~= Seq::new(k as nat, |k2: int| local_entry(lv, rv, k2)));
            assert forall|i: int| 0 <= i < rv.len() implies #[trigger] consumed@[i] == exists|
                k2: int,
            |
                0 <= k2 < k && first_match(#[trigger] lv[k2], rv) == Some(i) by {
                if found {
                    assert(consumed@ == pre_consumed.update(idx - 1, true));
                    if i == idx - 1 {
                        assert(consumed@[i]);
                        assert(first_match(lv[k - 1], rv) == Some(i));
                    } else {
                        assert(consumed@[i] == pre_consumed[i]);
                        if consumed@[i] {
                            let w = choose|k2: int|
                                0 <= k2 < k - 1 && first_match(#[trigger] lv[k2], rv) == Some(i);
                            assert(first_match(lv[w], rv) == Some(i));
                        } else if exists|k2: int|
                            0 <= k2 < k && first_match(#[trigger] lv[k2], rv) == Some(i) {
                            let w = choose|k2: int|
                                0 <= k2 < k && first_match(#[trigger] lv[k2], rv) == Some(i);
                            if w < k - 1 {
                                assert(pre_consumed[i]);
                            } else {
                                assert(first_match(lv[k - 1], rv) == Some(idx - 1));
                            }
                            assert(false);
                        }
                    }
                } else {
                    assert(consumed@ == pre_consumed);
                    assert(first_match(lv[k - 1], rv) is None);
                    if consumed@[i] {
                        let w = choose|k2: int|
                            0 <= k2 < k - 1 && first_match(#[trigger] lv[k2], rv) == Some(i);
                        assert(first_match(lv[w], rv) == Some(i));
                    } else if exists|k2: int|
                        0 <= k2 < k && first_match(#[trigger] lv[k2], rv) == Some(i) {
                        let w = choose|k2: int|
                            0 <= k2 < k && first_match(#[trigger] lv[k2], rv) == Some(i);
                        if w < k - 1 {
                            assert(pre_consumed[i]);
                        }
                        assert(false);
                    }
                }
            }
        }
    }

    // Unconsumed listed repositories become RemoteOnly entries.
    let ghost local_part = matches@;
    let mut i: usize = 0;
    while i < remote.len()
        invariant
            lv == scanned_views(local@),
            rv == remote_views(remote@),
            rv.len() == remote@.len(),
            i <= rv.len(),
            consumed@.len() == rv.len(),
            forall|j: int|
                0 <= j < rv.len() ==> #[trigger] consumed@[j] == remote_consumed(lv, rv, j),
            matches@.len() >= local_part.len(),
            remote_only_from(lv, rv, 0) == match_views(matches@).skip(local_part.len() as int)
                + remote_only_from(lv, rv, i as int),
            match_views(matches@).take(local_part.len() as int) == match_views(local_part),
        decreases rv.len() - i,
    {
        proof {
            assert(rv[i as int] == remote@[i as int]@);
        }
        if !consumed[i] {
            let ghost pre = matches@;
            matches.push(RepoMatch::RemoteOnly(remote[i].clone()));
            proof {
                assert(match_views(matches@) =~= match_views(pre) + seq![
                    RepoMatchView::RemoteOnly { remote: rv[i as int] },
                ]);
                assert(match_views(matches@).take(match_views(local_part).len() as int)
                    =~= match_views(local_part));
                assert(match_views(matches@).skip(match_views(local_part).len() as int)
                    =~= match_views(pre).skip(match_views(local_part).len() as int) + seq![
                    RepoMatchView::RemoteOnly { remote: rv[i as int] },
                ]);
            }
        }
        i = i + 1;
    }
    proof {
        assert(remote_only_from(lv, rv, rv.len() as int) =~= Seq::<RepoMatchView>::empty());
        assert(remote_only_from(lv, rv, 0) =~= match_views(matches@).skip(
            match_views(local_part).len() as int,
        ));
        assert(match_views(local_part) == Seq::new(local@.len(), |k2: int| local_entry(lv, rv, k2)));
        assert(match_views(matches@) =~= match_views(local_part) + match_views(matches@).skip(
            match_views(local_part).len() as int,
        ));
        assert(match_views(matches@) =~= reconcile_matches(lv, rv));
    }
    ReconcileResult { host_label: String::from_str(host_label), matches }
}

proof fn lemma_first_match_from_none(l: ScannedRepoView, remotes: Seq<RemoteRepoView>, i: int)
    requires
        forall|j: int| 0 <= j < remotes.len() ==> !urls_match_spec(l, #[trigger] remotes[j]),
        0 <= i,
    ensures
        first_match_from(l, remotes, i) is None,
    decreases remotes.len() - i,
{
    if i < remotes.len() {
        lemma_first_match_from_none(l, remotes, i + 1)
    }
}

/// The three counts distribute over concatenation.
proof fn lemma_counts_concat(a: Seq<RepoMatchView>, b: Seq<RepoMatchView>)
    ensures
        count_matched(a + b) == count_matched(a) + count_matched(b),
        count_local_only(a + b) == count_local_only(a) + count_local_only(b),
        count_remote_only(a + b) == count_remote_only(a) + count_remote_only(b),
    decreases b.len(),
{
    if b.len() == 0 {
        assert(a + b =~= a);
    } else {
        lemma_counts_concat(a, b.drop_last());
        assert((a + b).drop_last() =~= a + b.drop_last());
        assert((a + b).last() == b.last());
    }
}

/// Counting a sequence of `LocalOnly` entries.
proof fn lemma_counts_all_local(s: Seq<RepoMatchView>)
    requires
        forall|i: int| 0 <= i < s.len() ==> (#[trigger] s[i]) is LocalOnly,
    ensures
        count_matched(s) == 0,
        count_local_only(s) == s.len(),
        count_remote_only(s) == 0,
    decreases s.len(),
{
    if s.len() > 0 {
        lemma_counts_all_local(s.drop_last());
    }
}

/// Counting a sequence of `RemoteOnly` entries.
proof fn lemma_counts_all_remote(s: Seq<RepoMatchView>)
    requires
        forall|i: int| 0 <= i < s.len() ==> (#[trigger] s[i]) is RemoteOnly,
    ensures
        count_matched(s) == 0,
        count_local_only(s) == 0,
        count_remote_only(s) == s.len(),
    decreases s.len(),
{
    if s.len() > 0 {
        lemma_counts_all_remote(s.drop_last());
    }
}

/// When no listed repository is consumed, every one from `i` on yields a
/// `RemoteOnly` entry.
proof fn lemma_remote_only_unconsumed(
    locals: Seq<ScannedRepoView>,
    remotes: Seq<RemoteRepoView>,
    i: int,
)
    requires
        forall|j: int| 0 <= j < remotes.len() ==> !remote_consumed(locals, remotes, j),
        0 <= i,
    ensures
        remote_only_from(locals, remotes, i).len() == if i <= remotes.len() {
            remotes.len() - i
        } else {
            0int
        },
        forall|j: int|
            0 <= j < remote_only_from(locals, remotes, i).len() ==> (#[trigger] remote_only_from(
                locals,
                remotes,
                i,
            )[j]) is RemoteOnly,
    decreases remotes.len() - i,
{
    if i < remotes.len() {
        lemma_remote_only_unconsumed(locals, remotes, i + 1);
    }
}

/// Counting a sequence of local classifications: each is `Matched` or
/// `LocalOnly`, never `RemoteOnly`.
proof fn lemma_counts_local_part(s: Seq<RepoMatchView>)
    requires
        forall|i: int|
            0 <= i < s.len() ==> (#[trigger] s[i]) is Matched || s[i] is LocalOnly,
    ensures
        count_matched(s) + count_local_only(s) == s.len(),
        count_remote_only(s) == 0,
    decreases s.len(),
{
    if s.len() > 0 {
        lemma_counts_local_part(s.drop_last());
    }
}

/// Every listed repository from `i` on yields at most one entry, and each
/// of those entries is `RemoteOnly`.
proof fn lemma_remote_only_shape(
    locals: Seq<ScannedRepoView>,
    remotes: Seq<RemoteRepoView>,
    i: int,
)
    requires
        0 <= i,
    ensures
        remote_only_from(locals, remotes, i).len() <= if i <= remotes.len() {
            remotes.len() - i
        } else {
            0int
        },
        forall|j: int|
            0 <= j < remote_only_from(locals, remotes, i).len() ==> (#[trigger] remote_only_from(
                locals,
                remotes,
                i,
            )[j]) is RemoteOnly,
    decreases remotes.len() - i,
{
    if i < remotes.len() {
        lemma_remote_only_shape(locals, remotes, i + 1);
    }
}

/// The classification invariant: every local repository yields exactly one
/// entry, `Matched` or `LocalOnly`, and every further entry is one
/// `RemoteOnly` per unconsumed listed repository.
pub proof fn lemma_reconcile_counts(locals: Seq<ScannedRepoView>, remotes: Seq<RemoteRepoView>)
    ensures
        count_matched(reconcile_matches(locals, remotes)) + count_local_only(
            reconcile_matches(locals, remotes),
        ) == locals.len(),
        count_remote_only(reconcile_matches(locals, remotes)) == reconcile_matches(
            locals,
            remotes,
        ).len() - locals.len(),
        count_remote_only(reconcile_matches(locals, remotes)) <= remotes.len(),
{
    let a = Seq::new(locals.len(), |k: int| local_entry(locals, remotes, k));
    let b = remote_only_from(locals, remotes, 0);
    assert forall|k: int| 0 <= k < a.len() implies (#[trigger] a[k]) is Matched
        || a[k] is LocalOnly by {
        assert(a[k] == local_entry(locals, remotes, k));
    }
    lemma_counts_local_part(a);
    lemma_remote_only_shape(locals, remotes, 0);
    lemma_counts_all_remote(b);
    lemma_counts_concat(a, b);
}

/// For disjoint local and listed URL sets, reconciliation matches nothing:
/// every local repository is `LocalOnly` and every listed repository is
/// `RemoteOnly`.
pub proof fn lemma_reconcile_disjoint(locals: Seq<ScannedRepoView>, remotes: Seq<RemoteRepoView>)
    requires
        forall|k: int, i: int|
            0 <= k < locals.len() && 0 <= i < remotes.len() ==> !urls_match_spec(
                #[trigger] locals[k],
                #[trigger] remotes[i],
            ),
    ensures
        count_matched(reconcile_matches(locals, remotes)) == 0,
        count_local_only(reconcile_matches(locals, remotes)) == locals.len(),
        count_remote_only(reconcile_matches(locals, remotes)) == remotes.len(),
{
    let a = Seq::new(locals.len(), |k: int| local_entry(locals, remotes, k));
    let b = remote_only_from(locals, remotes, 0);
    assert forall|k: int| 0 <= k < locals.len() implies first_match(
        #[trigger] locals[k],
        remotes,
    ) is None by {
        lemma_first_match_from_none(locals[k], remotes, 0);
    }
    assert forall|k: int| 0 <= k < a.len() implies (#[trigger] a[k]) is LocalOnly by {
        assert(a[k] == local_entry(locals, remotes, k));
    }
    assert forall|j: int| 0 <= j < remotes.len() implies !remote_consumed(locals, remotes, j) by {
        if remote_consumed(locals, remotes, j) {
            let w = choose|k: int|
                0 <= k < locals.len() && first_match(#[trigger] locals[k], remotes) == Some(j);
            assert(first_match(locals[w], remotes) is None);
        }
    }
    lemma_remote_only_unconsumed(locals, remotes, 0);
    lemma_counts_all_local(a);
    lemma_counts_all_remote(b);
    lemma_counts_concat(a, b);
}

} // verus!
