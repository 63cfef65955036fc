//! Interpretation of git command outcomes. The git toolchain runs as an
//! external process outside the library; these functions take the captured
//! output of one command and decide, exactly as the synchronizer requires,
//! whether it succeeded and which error it denotes. The exact text of every
//! failure message is pinned.

use vstd::prelude::*;
use vstd::string::StringExecFns;

use crate::error::GitrError;
use crate::text::{
    contains_seq, contains_str, parse_u32, parse_u32_spec, split_lines, split_lines_spec,
    str_to_chars, trim_chars, trim_spec, trim_string, chars_to_string,
};

verus! {

/// Captured result of one git command execution.
#[derive(Debug, Clone)]
pub struct GitOutput {
    pub stdout: String,
    pub stderr: String,
    pub success: bool,
}

/// The failure message of a git command: the command's arguments and its
/// trimmed standard error.
pub open spec fn git_failed_text(args: Seq<char>, stderr: Seq<char>) -> Seq<char> {
    "git "@ + args + " failed: "@ + trim_spec(stderr)
}

/// Accept a command's output, or report its failure under the given
/// argument text.
pub fn git_ok(args: &str, out: &GitOutput) -> (r: Result<String, GitrError>)
    ensures
        out.success ==> (r matches Ok(s) && s@ == out.stdout@),
        !out.success ==> (r matches Err(e) && e matches GitrError::GitError { message } && message@
            == git_failed_text(args@, out.stderr@)),
{
    if out.success {
        Ok(out.stdout.clone())
    } else {
        let mut m = String::from_str("git ");
        m.append(args);
        m.append(" failed: ");
        let t = trim_string(out.stderr.as_str());
        m.append(t.as_str());
        Err(GitrError::GitError { message: m })
    }
}

/// Outcome of cloning a repository.
pub fn clone(out: &GitOutput) -> (r: Result<(), GitrError>)
    ensures
        out.success ==> r is Ok,
        !out.success ==> (r matches Err(e) && e matches GitrError::GitError { message } && message@
            == "git clone failed: "@ + trim_spec(out.stderr@)),
{
    if out.success {
        Ok(())
    } else {
        let mut m = String::from_str("git clone failed: ");
        let t = trim_string(out.stderr.as_str());
        m.append(t.as_str());
        Err(GitrError::GitError { message: m })
    }
}

/// Outcome of fetching a remote with pruning.
pub fn fetch(remote: &str, out: &GitOutput) -> (r: Result<(), GitrError>)
    ensures
        out.success ==> r is Ok,
        !out.success ==> (r matches Err(e) && e matches GitrError::GitError { message } && message@
            == git_failed_text("fetch "@ + remote@ + " --prune"@, out.stderr@)),
{
    let mut args = String::from_str("fetch ");
    args.append(remote);
    args.append(" --prune");
    match git_ok(args.as_str(), out) {
        Ok(_) => Ok(()),
        Err(e) => Err(e),
    }
}

/// Outcome of checking out a branch.
pub fn checkout(branch: &str, out: &GitOutput) -> (r: Result<(), GitrError>)
    ensures
        out.success ==> r is Ok,
        !out.success ==> (r matches Err(e) && e matches GitrError::GitError { message } && message@
            == git_failed_text("checkout "@ + branch@, out.stderr@)),
{
    let mut args = String::from_str("checkout ");
    args.append(branch);
    match git_ok(args.as_str(), out) {
        Ok(_) => Ok(()),
        Err(e) => Err(e),
    }
}

/// Outcome of a fast-forward-only merge of a remote branch.
pub fn merge_ff(remote_branch: &str, out: &GitOutput) -> (r: Result<(), GitrError>)
    ensures
        out.success ==> r is Ok,
        !out.success ==> (r matches Err(e) && e matches GitrError::FastForwardFailed {
            branch,
            message,
        } && branch@ == remote_branch@ && message@ == trim_spec(out.stderr@)),
{
    if out.success {
        Ok(())
    } else {
        Err(
            GitrError::FastForwardFailed {
                branch: String::from_str(remote_branch),
                message: trim_string(out.stderr.as_str()),
            },
        )
    }
}

/// Outcome of a three-way merge of a remote branch.
pub fn merge(remote_branch: &str, out: &GitOutput) -> (r: Result<(), GitrError>)
    ensures
        out.success ==> r is Ok,
        !out.success ==> (r matches Err(e) && e matches GitrError::MergeConflict {
            branch,
            message,
        } && branch@ == remote_branch@ && message@ == trim_spec(out.stderr@)),
{
    if out.success {
        Ok(())
    } else {
        Err(
            GitrError::MergeConflict {
                branch: String::from_str(remote_branch),
                message: trim_string(out.stderr.as_str()),
            },
        )
    }
}

/// Outcome of rebasing onto a remote branch. On failure the synchronizer
/// additionally aborts the rebase before reporting this error.
pub fn rebase(remote_branch: &str, out: &GitOutput) -> (r: Result<(), GitrError>)
    ensures
        out.success ==> r is Ok,
        !out.success ==> (r matches Err(e) && e matches GitrError::MergeConflict {
            branch,
            message,
        } && branch@ == remote_branch@ && message@ == trim_spec(out.stderr@)),
{
    if out.success {
        Ok(())
    } else {
        Err(
            GitrError::MergeConflict {
                branch: String::from_str(remote_branch),
                message: trim_string(out.stderr.as_str()),
            },
        )
    }
}

/// Outcome of a hard reset to a remote ref.
pub fn reset_hard(out: &GitOutput) -> (r: Result<(), GitrError>)
    ensures
        out.success ==> r is Ok,
        !out.success ==> (r matches Err(e) && e matches GitrError::GitError { message } && message@
            == "git reset --hard failed: "@ + trim_spec(out.stderr@)),
{
    if out.success {
        Ok(())
    } else {
        let mut m = String::from_str("git reset --hard failed: ");
        let t = trim_string(out.stderr.as_str());
        m.append(t.as_str());
        Err(GitrError::GitError { message: m })
    }
}

/// Outcome of pushing a branch to a remote.
pub fn push(remote: &str, branch: &str, out: &GitOutput) -> (r: Result<(), GitrError>)
    ensures
        out.success ==> r is Ok,
        !out.success ==> (r matches Err(e) && e matches GitrError::GitError { message } && message@
            == git_failed_text("push "@ + remote@ + " "@ + branch@, out.stderr@)),
{
    let mut args = String::from_str("push ");
    args.append(remote);
    args.append(" ");
    args.append(branch);
    match git_ok(args.as_str(), out) {
        Ok(_) => Ok(()),
        Err(e) => Err(e),
    }
}

/// Outcome of adding a remote: a failure whose error text says the remote
/// already exists counts as success.
pub fn remote_add(name: &str, out: &GitOutput) -> (r: Result<(), GitrError>)
    ensures
        out.success ==> r is Ok,
        !out.success && contains_seq(out.stderr@, "already exists"@) ==> r is Ok,
        !out.success && !contains_seq(out.stderr@, "already exists"@) ==> (r matches Err(e)
            && e matches GitrError::GitError { message } && message@ == "failed to add remote "@
            + name@ + ": "@ + trim_spec(out.stderr@)),
{
    if out.success {
        return Ok(());
    }
    let stderr_chars = str_to_chars(out.stderr.as_str());
    if contains_str(&stderr_chars, "already exists") {
        return Ok(());
    }
    let mut m = String::from_str("failed to add remote ");
    m.append(name);
    m.append(": ");
    let t = trim_string(out.stderr.as_str());
    m.append(t.as_str());
    Err(GitrError::GitError { message: m })
}

/// The non-empty trimmed lines from `git remote`'s standard output.
pub open spec fn remote_names_from(lines: Seq<Seq<char>>, i: int) -> Seq<Seq<char>>
    decreases lines.len() - i,
{
    if i < 0 || i >= lines.len() {
        Seq::empty()
    } else {
        let t = trim_spec(lines[i]);
        (if t.len() > 0 {
            seq![t]
        } else {
            Seq::empty()
        }) + remote_names_from(lines, i + 1)
    }
}

/// The configured remote names that a successful `git remote` reports.
pub open spec fn remote_names_spec(stdout: Seq<char>) -> Seq<Seq<char>> {
    remote_names_from(split_lines_spec(stdout), 0)
}

/// Outcome of listing the configured remotes.
pub fn remote_list(out: &GitOutput) -> (r: Result<Vec<String>, GitrError>)
    ensures
        out.success ==> (r matches Ok(v) && v@.len() == remote_names_spec(out.stdout@).len()
            && forall|i: int|
            0 <= i < v@.len() ==> #[trigger] v@[i]@ == remote_names_spec(out.stdout@)[i]),
        !out.success ==> (r matches Err(e) && e matches GitrError::GitError { message } && message@
            == git_failed_text("remote"@, out.stderr@)),
{
    if !out.success {
        match git_ok("remote", out) {
            Ok(_) => {},
            Err(e) => {
                return Err(e);
            },
        }
    }
    let lines = split_lines(out.stdout.as_str());
    let ghost lseq = split_lines_spec(out.stdout@);
    let mut names: Vec<String> = Vec::new();
    proof {
        assert(names@.map_values(|x: String| x@) =~= Seq::<Seq<char>>::empty());
        assert(Seq::<Seq<char>>::empty() + remote_names_from(lseq, 0) =~= remote_names_from(
            lseq,
            0,
        ));
    }
    let mut i: usize = 0;
    while i < lines.len()
        invariant
            lines@.len() == lseq.len(),
            forall|j: int| 0 <= j < lseq.len() ==> #[trigger] lines@[j]@ == lseq[j],
            i <= lseq.len(),
            remote_names_from(lseq, 0) == names@.map_values(|x: String| x@) + remote_names_from(
                lseq,
                i as int,
            ),
        decreases lseq.len() - i,
    {
        let cs = str_to_chars(lines[i].as_str());
        let t = trim_chars(&cs);
        let ghost pre_names = names@;
        if t.len() > 0 {
            names.push(chars_to_string(&t));
            proof {
                assert(names@.map_values(|x: String| x@) =~= pre_names.map_values(|x: String| x@)
                    + seq![trim_spec(lseq[i as int])]);
            }
        }
        i = i + 1;
    }
    proof {
        assert(remote_names_from(lseq, i as int) =~= Seq::<Seq<char>>::empty());
        assert(names@.map_values(|x: String| x@) =~= remote_names_spec(out.stdout@));
        assert(forall|k: int|
            0 <= k < names@.len() ==> #[trigger] names@[k]@ == names@.map_values(
                |x: String| x@,
            )[k]);
    }
    Ok(names)
}

/// The behind count a successful `rev-list --count` output denotes: its
/// trimmed text parsed as a number, zero when it does not parse.
pub open spec fn count_or_zero(stdout: Seq<char>) -> u32 {
    match parse_u32_spec(trim_spec(stdout)) {
        Some(v) => v,
        None => 0,
    }
}

/// The commit count a `rev-list --count` outcome denotes: the parsed
/// standard output on success, and zero on any failure — counting between
/// refs is best effort and never an error.
pub open spec fn behind_count_of(out: GitOutput) -> u32 {
    if out.success {
        count_or_zero(out.stdout@)
    } else {
        0
    }
}

/// Outcome of counting commits between two refs (`rev-list --count a..b`):
/// a non-numeric output or a failed command both count as zero.
pub fn rev_list_count(out: &GitOutput) -> (r: Result<u32, GitrError>)
    ensures
        r matches Ok(v) && v == behind_count_of(*out),
{
    if !out.success {
        return Ok(0);
    }
    let cs = str_to_chars(out.stdout.as_str());
    let t = trim_chars(&cs);
    match parse_u32(&t) {
        Some(v) => Ok(v),
        None => Ok(0),
    }
}

/// Outcome of asking for the current branch name.
pub fn current_branch(out: &GitOutput) -> (r: Result<String, GitrError>)
    ensures
        out.success ==> (r matches Ok(s) && s@ == trim_spec(out.stdout@)),
        !out.success ==> (r matches Err(e) && e matches GitrError::GitError { message } && message@
            == git_failed_text("rev-parse --abbrev-ref HEAD"@, out.stderr@)),
{
    match git_ok("rev-parse --abbrev-ref HEAD", out) {
        Ok(s) => Ok(trim_string(s.as_str())),
        Err(e) => Err(e),
    }
}

/// Outcome of resolving a ref to an object name: absent when the ref does
/// not resolve.
pub fn rev_parse(out: &GitOutput) -> (r: Result<Option<String>, GitrError>)
    ensures
        out.success ==> (r matches Ok(v) && v matches Some(s) && s@ == trim_spec(out.stdout@)),
        !out.success ==> (r matches Ok(v) && v is None),
{
    if out.success {
        Ok(Some(trim_string(out.stdout.as_str())))
    } else {
        Ok(None)
    }
}

} // verus!
