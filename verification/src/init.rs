//! Setting the toolkit up for a repository: the command lines that make the
//! repository's memory store and its issue list.

use crate::argv::{one_word, push_switch, push_word, switch};
use vstd::prelude::*;

verus! {

/// The arguments that make the memory store of the repository `repo`,
/// anew where `force` holds.
pub open spec fn store_init_arguments(repo: Seq<char>, force: bool) -> Seq<Seq<char>> {
    seq!["init"@, "--store"@, repo] + switch("--force"@, force)
}

/// The arguments that make the issue list of the repository `repo`, whose
/// name becomes the prefix of its issues.
pub open spec fn tracker_init_arguments(repo: Seq<char>) -> Seq<Seq<char>> {
    seq!["init"@, "--prefix"@, repo]
}

/// The arguments that the memory program is run with to make the store.
pub fn store_init_args(repo: &str, force: bool) -> (args: Vec<String>)
    ensures
        args.deep_view() == store_init_arguments(repo@, force),
{
    let mut args = one_word("init");
    push_word(&mut args, "--store");
    push_word(&mut args, repo);
    assert(args.deep_view() =~= seq!["init"@, "--store"@, repo@]);
    push_switch(&mut args, "--force", force);
    args
}

/// The arguments that the tracker is run with to make the issue list.
pub fn tracker_init_args(repo: &str) -> (args: Vec<String>)
    ensures
        args.deep_view() == tracker_init_arguments(repo@),
{
    let mut args = one_word("init");
    push_word(&mut args, "--prefix");
    push_word(&mut args, repo);
    assert(args.deep_view() =~= seq!["init"@, "--prefix"@, repo@]);
    args
}

} // verus!
