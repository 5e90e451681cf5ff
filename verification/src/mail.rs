//! Mail between agents: the commands and the command line of the mail
//! program for each.

use crate::argv::{one_word, optional, push_arg, push_optional, word_and_arg};
use crate::text::string_view;
use vstd::prelude::*;

verus! {

/// The program that carries the mail.
pub const MAILER: &'static str = "mailz-cli";

/// A command on the mail.
#[derive(Clone, Debug, PartialEq, Eq)]
pub enum MailCommand {
    /// Check the inbox.
    Inbox,
    /// Send a message.
    Send { to: String, subject: String, body: Option<String> },
    /// Read a message.
    Read { id: String },
    /// Acknowledge a message.
    Ack { id: String },
    /// Search the messages.
    Search { query: String },
}

/// The arguments that the mail program is run with for `command`.
pub open spec fn mailer_args(command: MailCommand) -> Seq<Seq<char>> {
    match command {
        MailCommand::Inbox => seq!["inbox"@],
        MailCommand::Send { to, subject, body } => seq!["send"@, to@, subject@] + optional(
            "--body"@,
            string_view(body),
        ),
        MailCommand::Read { id } => seq!["read"@, id@],
        MailCommand::Ack { id } => seq!["ack"@, id@],
        MailCommand::Search { query } => seq!["search"@, query@],
    }
}

/// The arguments that the mail program is to be run with for `command`.
pub fn handle(command: MailCommand) -> (args: Vec<String>)
    ensures
        args.deep_view() == mailer_args(command),
{
    match command {
        MailCommand::Inbox => one_word("inbox"),
        MailCommand::Send { to, subject, body } => {
            let mut args = word_and_arg("send", to);
            push_arg(&mut args, subject);
            assert(args.deep_view() =~= seq!["send"@, to@, subject@]);
            push_optional(&mut args, "--body", body);
            args
        },
        MailCommand::Read { id } => word_and_arg("read", id),
        MailCommand::Ack { id } => word_and_arg("ack", id),
        MailCommand::Search { query } => word_and_arg("search", query),
    }
}

} // verus!
