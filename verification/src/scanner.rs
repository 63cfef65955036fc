//! Local repository scanning: the verified part is the parsing of a git
//! configuration text into its remote definitions, and the denylist of
//! directory names that a filesystem walk skips. The walk itself reads the
//! filesystem and stays outside the library; it hands each discovered
//! configuration text in as a plain string.

use vstd::prelude::*;

use crate::text::{
    ends_with, ends_with_str, split_lines, split_lines_spec, starts_with, starts_with_str,
    str_eq, str_to_chars, trim_chars, trim_spec, vec_range, vec_skip, chars_to_string,
};

verus! {

/// A git remote parsed from a local repository's configuration.
#[derive(Debug)]
pub struct ScannedRemote {
    pub name: String,
    pub url: String,
}

/// A repository found on the local filesystem.
#[derive(Debug)]
pub struct ScannedRepo {
    pub path: String,
    pub remotes: Vec<ScannedRemote>,
}

/// The mathematical content of a `ScannedRemote`.
pub struct ScannedRemoteView {
    pub name: Seq<char>,
    pub url: Seq<char>,
}

/// The mathematical content of a `ScannedRepo`.
pub struct ScannedRepoView {
    pub path: Seq<char>,
    pub remotes: Seq<ScannedRemoteView>,
}

impl View for ScannedRemote {
    type V = ScannedRemoteView;

    open spec fn view(&self) -> ScannedRemoteView {
        ScannedRemoteView { name: self.name@, url: self.url@ }
    }
}

impl View for ScannedRepo {
    type V = ScannedRepoView;

    open spec fn view(&self) -> ScannedRepoView {
        ScannedRepoView {
            path: self.path@,
            remotes: self.remotes@.map_values(|x: ScannedRemote| x@),
        }
    }
}

impl Clone for ScannedRemote {
    fn clone(&self) -> (res: Self)
        ensures
            res@ == self@,
    {
        ScannedRemote { name: self.name.clone(), url: self.url.clone() }
    }
}

impl Clone for ScannedRepo {
    fn clone(&self) -> (res: Self)
        ensures
            res@ == self@,
    {
        let res = ScannedRepo { path: self.path.clone(), remotes: self.remotes.clone() };
        proof {
            assert forall|i: int| 0 <= i < self.remotes@.len() implies #[trigger] res.remotes@[i]@
                == self.remotes@[i]@ by {
            }
            assert(res.remotes@.map_values(|x: ScannedRemote| x@) =~= self.remotes@.map_values(
                |x: ScannedRemote| x@,
            ));
        }
        res
    }
}

/// A trimmed line that opens a remote section: `[remote "<name>"]`.
pub open spec fn is_remote_header(t: Seq<char>) -> bool {
    starts_with(t, "[remote \""@) && ends_with(t, "\"]"@)
}

/// The remote name carried by a remote section header; empty when the
/// header is too short to hold both delimiters.
pub open spec fn remote_header_name(t: Seq<char>) -> Seq<char> {
    if t.len() >= "[remote \""@.len() + "\"]"@.len() {
        t.subrange("[remote \""@.len() as int, t.len() - "\"]"@.len())
    } else {
        Seq::empty()
    }
}

/// The `(name, url)` pairs that the configuration lines yield, in file
/// order, starting in the context of `current` (the remote section that is
/// open, if any). A section header opens a new context, any other bracketed
/// header closes it, and each `url = ` line within a remote's context
/// appends one pair with the value trimmed.
pub open spec fn config_pairs(lines: Seq<Seq<char>>, current: Option<Seq<char>>) -> Seq<
    (Seq<char>, Seq<char>),
>
    decreases lines.len(),
{
    if lines.len() == 0 {
        Seq::empty()
    } else {
        let t = trim_spec(lines[0]);
        if is_remote_header(t) {
            config_pairs(lines.drop_first(), Some(remote_header_name(t)))
        } else if t.len() > 0 && t[0] == '[' {
            config_pairs(lines.drop_first(), None)
        } else if current is Some && starts_with(t, "url = "@) {
            seq![(current->Some_0, trim_spec(t.skip("url = "@.len() as int)))] + config_pairs(
                lines.drop_first(),
                current,
            )
        } else {
            config_pairs(lines.drop_first(), current)
        }
    }
}

/// The remote definitions of a full configuration text.
pub open spec fn config_remotes_spec(content: Seq<char>) -> Seq<(Seq<char>, Seq<char>)> {
    config_pairs(split_lines_spec(content), None)
}

/// Parse remote URLs from the text of a `.git/config` file.
pub fn parse_git_config(content: &str) -> (r: Vec<ScannedRemote>)
    ensures
        r@.len() == config_remotes_spec(content@).len(),
        forall|i: int|
            0 <= i < r@.len() ==> #[trigger] r@[i].name@ == config_remotes_spec(content@)[i].0
                && r@[i].url@ == config_remotes_spec(content@)[i].1,
{
    let lines = split_lines(content);
    let ghost lseq = split_lines_spec(content@);
    let mut remotes: Vec<ScannedRemote> = Vec::new();
    let mut current_name: String = String::new();
    let mut in_remote: bool = false;
    proof {
        assert(lseq.skip(0) =~= lseq);
        assert(remotes@.map_values(|x: ScannedRemote| (x.name@, x.url@)) =~= Seq::<
            (Seq<char>, Seq<char>),
        >::empty());
        assert(Seq::<(Seq<char>, Seq<char>)>::empty() + config_pairs(lseq, None) =~= config_pairs(
            lseq,
            None,
        ));
    }
    let mut i: usize = 0;
    while i < lines.len()
        invariant
            lines@.len() == lseq.len(),
            forall|j: int| 0 <= j < lseq.len() ==> #[trigger] lines@[j]@ == lseq[j],
            i <= lseq.len(),
            config_pairs(lseq, None) == remotes@.map_values(|x: ScannedRemote| (x.name@, x.url@))
                + config_pairs(
                lseq.skip(i as int),
                if in_remote {
                    Some(current_name@)
                } else {
                    None
                },
            ),
        decreases lseq.len() - i,
    {
        let ghost pre_remotes = remotes@;
        let ghost pre_name = current_name@;
        let line_chars = str_to_chars(lines[i].as_str());
        let t = trim_chars(&line_chars);
        proof {
            assert(t@ == trim_spec(lseq[i as int]));
            assert(lseq.skip(i as int)[0] == lseq[i as int]);
            assert(lseq.skip(i as int).drop_first() =~= lseq.skip(i + 1));
        }
        if starts_with_str(&t, "[remote \"") && ends_with_str(&t, "\"]") {
            let plen = "[remote \"".unicode_len();
            let slen = "\"]".unicode_len();
            let name = if t.len() >= plen && t.len() - plen >= slen {
                vec_range(&t, plen, t.len() - slen)
            } else {
                Vec::new()
            };
            proof {
                assert(name@ == remote_header_name(t@));
            }
            current_name = chars_to_string(&name);
            in_remote = true;
        } else if t.len() > 0 && t[0] == '[' {
            in_remote = false;
        } else if in_remote && starts_with_str(&t, "url = ") {
            let rest = vec_skip(&t, "url = ".unicode_len());
            let url_chars = trim_chars(&rest);
            remotes.push(
                ScannedRemote { name: current_name.clone(), url: chars_to_string(&url_chars) },
            );
            proof {
                assert(rest@ =~= trim_spec(lseq[i as int]).skip("url = "@.len() as int));
                assert(remotes@.map_values(|x: ScannedRemote| (x.name@, x.url@)) =~= pre_remotes
                    .map_values(|x: ScannedRemote| (x.name@, x.url@)) + seq![
                    (pre_name, trim_spec(trim_spec(lseq[i as int]).skip(
                        "url = "@.len() as int,
                    ))),
                ]);
            }
        }
        i = i + 1;
    }
    proof {
        assert(lseq.skip(i as int) =~= Seq::<Seq<char>>::empty());
        assert(config_pairs(lseq, None) =~= remotes@.map_values(
            |x: ScannedRemote| (x.name@, x.url@),
        ));
        assert forall|k: int| 0 <= k < remotes@.len() implies #[trigger] remotes@[k].name@
            == config_remotes_spec(content@)[k].0 && remotes@[k].url@ == config_remotes_spec(
            content@,
        )[k].1 by {
            assert(config_remotes_spec(content@)[k] == remotes@.map_values(
                |x: ScannedRemote| (x.name@, x.url@),
            )[k]);
        }
    }
    remotes
}

/// Directory names that the filesystem walk does not descend into:
/// dependency, build, virtual-environment and version-control artifacts.
pub open spec fn is_skip_dir_spec(name: Seq<char>) -> bool {
    ||| name == "node_modules"@
    ||| name == "target"@
    ||| name == "vendor"@
    ||| name == ".git"@
    ||| name == "__pycache__"@
    ||| name == ".venv"@
    ||| name == "venv"@
}

/// Whether a directory of this name is skipped during scanning.
pub fn is_skip_dir(name: &str) -> (r: bool)
    ensures
        r == is_skip_dir_spec(name@),
{
    str_eq(name, "node_modules") || str_eq(name, "target") || str_eq(name, "vendor") || str_eq(
        name,
        ".git",
    ) || str_eq(name, "__pycache__") || str_eq(name, ".venv") || str_eq(name, "venv")
}

} // verus!
