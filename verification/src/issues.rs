//! Task tracking: the commands and the command line of the tracker for each.

use crate::argv::{
    one_word,
    optional,
    optional_number,
    push_arg,
    push_number,
    push_optional,
    push_word,
    word_and_arg,
};
use crate::text::{decimal, string_view};
use vstd::prelude::*;

verus! {

/// The program that keeps the issues.
pub const TRACKER: &'static str = "trx";

/// A command on the issues.
#[derive(Clone, Debug, PartialEq, Eq)]
pub enum IssuesCommand {
    /// List all issues.
    List { status: Option<String>, kind: Option<String> },
    /// Create a new issue.
    Create { title: String, kind: String, priority: u8, description: Option<String> },
    /// Update an issue.
    Update { id: String, status: Option<String>, priority: Option<u8> },
    /// Close an issue.
    Close { id: String, reason: Option<String> },
    /// Show the details of an issue.
    Show { id: String },
}

/// A priority as a number, where there is one.
pub open spec fn priority_view(priority: Option<u8>) -> Option<nat> {
    match priority {
        Some(p) => Some(p as nat),
        None => None,
    }
}

/// The arguments that the tracker is run with for `command`; without a
/// command it lists.
pub open spec fn tracker_args(command: Option<IssuesCommand>) -> Seq<Seq<char>> {
    match command {
        None => seq!["list"@],
        Some(IssuesCommand::List { status, kind }) => seq!["list"@] + optional(
            "--status"@,
            string_view(status),
        ) + optional("--issue-type"@, string_view(kind)),
        Some(IssuesCommand::Create { title, kind, priority, description }) => seq![
            "create"@,
            title@,
            "-t"@,
            kind@,
            "-p"@,
            decimal(priority as nat),
        ] + optional("-d"@, string_view(description)),
        Some(IssuesCommand::Update { id, status, priority }) => seq!["update"@, id@] + optional(
            "--status"@,
            string_view(status),
        ) + optional_number("--priority"@, priority_view(priority)),
        Some(IssuesCommand::Close { id, reason }) => seq!["close"@, id@] + optional(
            "-r"@,
            string_view(reason),
        ),
        Some(IssuesCommand::Show { id }) => seq!["show"@, id@],
    }
}

/// The arguments that the tracker is to be run with for `command`.
pub fn handle(command: Option<IssuesCommand>) -> (args: Vec<String>)
    ensures
        args.deep_view() == tracker_args(command),
{
    match command {
        None => one_word("list"),
        Some(IssuesCommand::List { status, kind }) => {
            let mut args = one_word("list");
            push_optional(&mut args, "--status", status);
            push_optional(&mut args, "--issue-type", kind);
            args
        },
        Some(IssuesCommand::Create { title, kind, priority, description }) => {
            let mut args = word_and_arg("create", title);
            push_word(&mut args, "-t");
            push_arg(&mut args, kind);
            push_word(&mut args, "-p");
            push_number(&mut args, priority as u128);
            assert(args.deep_view() =~= seq![
                "create"@,
                title@,
                "-t"@,
                kind@,
                "-p"@,
                decimal(priority as nat),
            ]);
            push_optional(&mut args, "-d", description);
            args
        },
        Some(IssuesCommand::Update { id, status, priority }) => {
            let mut args = word_and_arg("update", id);
            push_optional(&mut args, "--status", status);
            match priority {
                Some(p) => {
                    let ghost before = args.deep_view();
                    push_word(&mut args, "--priority");
                    push_number(&mut args, p as u128);
                    assert(args.deep_view() =~= before + seq!["--priority"@, decimal(p as nat)]);
                },
                None => {
                    assert(args.deep_view() =~= args.deep_view() + Seq::<Seq<char>>::empty());
                },
            }
            args
        },
        Some(IssuesCommand::Close { id, reason }) => {
            let mut args = word_and_arg("close", id);
            push_optional(&mut args, "-r", reason);
            args
        },
        Some(IssuesCommand::Show { id }) => word_and_arg("show", id),
    }
}

} // verus!
