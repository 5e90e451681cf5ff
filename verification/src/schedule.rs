//! Scheduled tasks: the commands and the command line of the scheduler for
//! each.

use crate::argv::{
    one_word,
    optional,
    push_arg,
    push_number,
    push_optional,
    push_switch,
    push_word,
    switch,
    word_and_arg,
};
use crate::text::{decimal, string_view};
use vstd::prelude::*;

verus! {

/// The program that keeps the schedules.
pub const SCHEDULER: &'static str = "skdlr";

/// A command on the schedules.
#[derive(Clone, Debug, PartialEq, Eq)]
pub enum ScheduleCommand {
    /// Add a new scheduled task.
    Add {
        name: String,
        schedule: String,
        command: String,
        workdir: Option<String>,
        description: Option<String>,
        disabled: bool,
    },
    /// List all schedules.
    List { status: Option<String> },
    /// Show the details of a schedule.
    Show { name: String },
    /// Edit an existing schedule.
    Edit {
        name: String,
        schedule: Option<String>,
        command: Option<String>,
        workdir: Option<String>,
        description: Option<String>,
    },
    /// Remove a schedule.
    Remove { name: String, yes: bool },
    /// Enable a schedule.
    Enable { name: String },
    /// Disable a schedule.
    Disable { name: String },
    /// Trigger an immediate run.
    Run { name: String, dry_run: bool },
    /// View the history of runs.
    Logs { name: String, last: usize },
    /// Show an overview.
    Status,
    /// Show the upcoming runs.
    Next,
    /// Show the active backend.
    Backend,
    /// Check the scheduler's health.
    Doctor,
}

/// The two arguments that make a new schedule start disabled, or nothing.
pub open spec fn start_disabled(disabled: bool) -> Seq<Seq<char>> {
    if disabled {
        seq!["--enabled"@, "false"@]
    } else {
        Seq::empty()
    }
}

/// The arguments that the scheduler is run with for `command`.
pub open spec fn scheduler_args(command: ScheduleCommand) -> Seq<Seq<char>> {
    match command {
        ScheduleCommand::Add { name, schedule, command, workdir, description, disabled } => seq![
            "add"@,
            name@,
            "--schedule"@,
            schedule@,
            "--command"@,
            command@,
        ] + optional("--workdir"@, string_view(workdir)) + optional(
            "--description"@,
            string_view(description),
        ) + start_disabled(disabled),
        ScheduleCommand::List { status } => seq!["list"@] + optional(
            "--status"@,
            string_view(status),
        ),
        ScheduleCommand::Show { name } => seq!["show"@, name@],
        ScheduleCommand::Edit { name, schedule, command, workdir, description } => seq![
            "edit"@,
            name@,
        ] + optional("--schedule"@, string_view(schedule)) + optional(
            "--command"@,
            string_view(command),
        ) + optional("--workdir"@, string_view(workdir)) + optional(
            "--description"@,
            string_view(description),
        ),
        ScheduleCommand::Remove { name, yes } => seq!["remove"@, name@] + switch("--yes"@, yes),
        ScheduleCommand::Enable { name } => seq!["enable"@, name@],
        ScheduleCommand::Disable { name } => seq!["disable"@, name@],
        ScheduleCommand::Run { name, dry_run } => seq!["run"@, name@] + switch(
            "--dry-run"@,
            dry_run,
        ),
        ScheduleCommand::Logs { name, last } => seq![
            "logs"@,
            name@,
            "--last"@,
            decimal(last as nat),
        ],
        ScheduleCommand::Status => seq!["status"@],
        ScheduleCommand::Next => seq!["next"@],
        ScheduleCommand::Backend => seq!["backend"@],
        ScheduleCommand::Doctor => seq!["doctor"@],
    }
}

/// The arguments that the scheduler is to be run with for `command`.
pub fn handle(command: ScheduleCommand) -> (args: Vec<String>)
    ensures
        args.deep_view() == scheduler_args(command),
{
    match command {
        ScheduleCommand::Add { name, schedule, command, workdir, description, disabled } => {
            let mut args = word_and_arg("add", name);
            push_word(&mut args, "--schedule");
            push_arg(&mut args, schedule);
            push_word(&mut args, "--command");
            push_arg(&mut args, command);
            assert(args.deep_view() =~= seq![
                "add"@,
                name@,
                "--schedule"@,
                schedule@,
                "--command"@,
                command@,
            ]);
            push_optional(&mut args, "--workdir", workdir);
            push_optional(&mut args, "--description", description);
            let ghost before = args.deep_view();
            if disabled {
                push_word(&mut args, "--enabled");
                push_word(&mut args, "false");
            }
            assert(args.deep_view() =~= before + start_disabled(disabled));
            args
        },
        ScheduleCommand::List { status } => {
            let mut args = one_word("list");
            push_optional(&mut args, "--status", status);
            args
        },
        ScheduleCommand::Show { name } => word_and_arg("show", name),
        ScheduleCommand::Edit { name, schedule, command, workdir, description } => {
            let mut args = word_and_arg("edit", name);
            push_optional(&mut args, "--schedule", schedule);
            push_optional(&mut args, "--command", command);
            push_optional(&mut args, "--workdir", workdir);
            push_optional(&mut args, "--description", description);
            args
        },
        ScheduleCommand::Remove { name, yes } => {
            let mut args = word_and_arg("remove", name);
            push_switch(&mut args, "--yes", yes);
            args
        },
        ScheduleCommand::Enable { name } => word_and_arg("enable", name),
        ScheduleCommand::Disable { name } => word_and_arg("disable", name),
        ScheduleCommand::Run { name, dry_run } => {
            let mut args = word_and_arg("run", name);
            push_switch(&mut args, "--dry-run", dry_run);
            args
        },
        ScheduleCommand::Logs { name, last } => {
            let mut args = word_and_arg("logs", name);
            push_word(&mut args, "--last");
            push_number(&mut args, last as u128);
            assert(args.deep_view() =~= seq!["logs"@, name@, "--last"@, decimal(last as nat)]);
            args
        },
        ScheduleCommand::Status => one_word("status"),
        ScheduleCommand::Next => one_word("next"),
        ScheduleCommand::Backend => one_word("backend"),
        ScheduleCommand::Doctor => one_word("doctor"),
    }
}

} // verus!
