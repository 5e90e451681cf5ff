//! Naming the repository, and the default scope of a search.
//!
//! Both go by what the version-control program answered, with the working
//! directory to fall back on.

use crate::render::{last_segment, last_segment_chars};
use crate::text::{chars_of, chars_range, matches_at, string_view, text_of, trim, trimmed};
use vstd::prelude::*;

verus! {

/// What became of a question to the version-control program.
#[derive(Clone, Debug, PartialEq, Eq)]
pub enum GitReply {
    /// The program could not be started.
    NotRun,
    /// The program ran and reported failure.
    Failed,
    /// The program ran and printed this.
    Output(String),
}

/// A `GitReply` with its text as a character sequence.
pub enum GitReplyView {
    NotRun,
    Failed,
    Output(Seq<char>),
}

impl View for GitReply {
    type V = GitReplyView;

    open spec fn view(&self) -> GitReplyView {
        match self {
            GitReply::NotRun => GitReplyView::NotRun,
            GitReply::Failed => GitReplyView::Failed,
            GitReply::Output(text) => GitReplyView::Output(text@),
        }
    }
}

/// The ending that a repository's address may carry.
pub const GIT_SUFFIX: &'static str = ".git";

/// `s` without `suffix` at its end, as often as it stands there.
pub open spec fn without_suffix(s: Seq<char>, suffix: Seq<char>) -> Seq<char>
    decreases s.len(),
{
    if suffix.len() > 0 && suffix.is_suffix_of(s) {
        without_suffix(s.take(s.len() - suffix.len()), suffix)
    } else {
        s
    }
}

/// The repository's name in the address of its remote: the address without
/// white space around it and without `.git` at its end, from the last `/`
/// on.
pub open spec fn name_in_url(url: Seq<char>) -> Seq<char> {
    last_segment(without_suffix(trimmed(url), GIT_SUFFIX@), '/')
}

/// The repository's name: the name in the remote's address where the
/// program printed one; else, whether the program failed or could not be
/// started at all, the name of the working directory, where that is known.
pub open spec fn repo_name(remote: GitReplyView, dir_name: Option<Seq<char>>) -> Option<
    Seq<char>,
> {
    match remote {
        GitReplyView::Output(url) => Some(name_in_url(url)),
        GitReplyView::Failed => dir_name,
        GitReplyView::NotRun => dir_name,
    }
}

/// The default scope of a search: the root of the working tree where the
/// program printed one; else, whether the program printed nothing, failed
/// or could not be started at all, the working directory, where that is
/// known.
pub open spec fn default_workspace(toplevel: GitReplyView, dir: Option<Seq<char>>) -> Option<
    Seq<char>,
> {
    match toplevel {
        GitReplyView::Output(path) => if trimmed(path).len() > 0 {
            Some(trimmed(path))
        } else {
            dir
        },
        GitReplyView::Failed => dir,
        GitReplyView::NotRun => dir,
    }
}

/// Where the program gave no answer, the working directory decides alone;
/// and with a working directory at hand a search always has a default
/// scope.
pub proof fn lemma_directory_is_the_fallback(remote: GitReplyView, dir: Option<Seq<char>>)
    ensures
        !(remote is Output) ==> repo_name(remote, dir) == dir,
        !(remote is Output) ==> default_workspace(remote, dir) == dir,
        dir is Some ==> default_workspace(remote, dir) is Some,
        dir is Some ==> repo_name(remote, dir) is Some,
{
}

/// The repository's name in the address `url` of its remote.
pub fn repo_name_from_url(url: &str) -> (name: String)
    ensures
        name@ == name_in_url(url@),
{
    let t = trim(url);
    let suffix = chars_of(GIT_SUFFIX);
    proof {
        reveal_strlit(".git");
    }
    let mut n: usize = t.len();
    assert(t@.take(n as int) == t@);
    while n >= 4 && matches_at(&t, &suffix, n - 4)
        invariant
            n <= t.len(),
            suffix@ == GIT_SUFFIX@,
            suffix@.len() == 4,
            without_suffix(t@.take(n as int), suffix@) == without_suffix(t@, suffix@),
        decreases n,
    {
        assert(t@.take(n as int).subrange(n - 4, n as int) == t@.subrange(n - 4, n as int));
        assert(t@.take(n as int).take(n - 4) == t@.take(n - 4));
        n -= 4;
    }
    assert(!suffix@.is_suffix_of(t@.take(n as int))) by {
        if n >= 4 {
            assert(t@.take(n as int).subrange(n - 4, n as int) == t@.subrange(n - 4, n as int));
        }
    }
    let stem = chars_range(&t, 0, n);
    assert(stem@ == t@.take(n as int));
    last_segment_chars(&stem, '/')
}

/// The repository's name, from the answer to the question for the remote's
/// address and from the name of the working directory.
pub fn get_repo_name(remote: GitReply, dir_name: Option<String>) -> (name: Option<String>)
    ensures
        string_view(name) == repo_name(remote@, string_view(dir_name)),
{
    match remote {
        GitReply::Output(url) => Some(repo_name_from_url(url.as_str())),
        GitReply::Failed => dir_name,
        GitReply::NotRun => dir_name,
    }
}

/// The default scope of a search, from the answer to the question for the
/// root of the working tree and from the working directory.
pub fn resolve_default_workspace(toplevel: GitReply, dir: Option<String>) -> (scope: Option<
    String,
>)
    ensures
        string_view(scope) == default_workspace(toplevel@, string_view(dir)),
{
    match toplevel {
        GitReply::Output(path) => {
            let t = trim(path.as_str());
            if t.len() > 0 {
                Some(text_of(&t))
            } else {
                dir
            }
        },
        GitReply::Failed => dir,
        GitReply::NotRun => dir,
    }
}

} // verus!
