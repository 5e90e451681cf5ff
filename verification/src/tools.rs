//! The tools that the toolkit can install: the table of them, and the steps
//! that each command on them takes.

use crate::text::{push_text, same_text, split_words, text2, text3, words};
use vstd::prelude::*;

verus! {

/// A command on the tools.
#[derive(Clone, Debug, PartialEq, Eq)]
pub enum ToolsCommand {
    /// List the tools.
    List,
    /// Install a tool, or all of them.
    Install { tool: String },
    /// Update a tool, or all that are installed.
    Update { tool: String },
    /// Check which tools are there.
    Doctor,
}

/// One tool: its name, what it is for, the program it installs, and the
/// command line that installs it.
#[derive(Clone, Copy, Debug, PartialEq, Eq)]
pub struct ToolInfo {
    pub name: &'static str,
    pub description: &'static str,
    pub binary: &'static str,
    pub install_cmd: &'static str,
}

/// The name that stands for every tool.
pub const ALL_TOOLS: &'static str = "all";

/// What is added to an install command to make it an update.
pub const FORCE: &'static str = "--force";

/// The table of tools.
pub open spec fn tool_table() -> Seq<ToolInfo> {
    seq![
        (ToolInfo {
            name: "mmry",
            description: "Memory storage and search",
            binary: "mmry",
            install_cmd: "cargo install mmry-cli",
        }),
        (ToolInfo {
            name: "mailz",
            description: "Agent coordination and messaging",
            binary: "mailz-cli",
            install_cmd: "cargo install mailz",
        }),
        (ToolInfo {
            name: "bd",
            description: "Issue tracking (beads)",
            binary: "bd",
            install_cmd: "cargo install beads",
        }),
        (ToolInfo {
            name: "bv",
            description: "Issue triage and analytics",
            binary: "bv",
            install_cmd: "cargo install beads-viewer",
        }),
        (ToolInfo {
            name: "cass",
            description: "Agent session history search",
            binary: "cass",
            install_cmd: "cargo install coding-agent-session-search",
        }),
    ]
}

/// The table of tools.
pub fn tools() -> (table: Vec<ToolInfo>)
    ensures
        table@ == tool_table(),
{
    let mut table: Vec<ToolInfo> = Vec::new();
    table.push(
        ToolInfo {
            name: "mmry",
            description: "Memory storage and search",
            binary: "mmry",
            install_cmd: "cargo install mmry-cli",
        },
    );
    table.push(
        ToolInfo {
            name: "mailz",
            description: "Agent coordination and messaging",
            binary: "mailz-cli",
            install_cmd: "cargo install mailz",
        },
    );
    table.push(
        ToolInfo {
            name: "bd",
            description: "Issue tracking (beads)",
            binary: "bd",
            install_cmd: "cargo install beads",
        },
    );
    table.push(
        ToolInfo {
            name: "bv",
            description: "Issue triage and analytics",
            binary: "bv",
            install_cmd: "cargo install beads-viewer",
        },
    );
    table.push(
        ToolInfo {
            name: "cass",
            description: "Agent session history search",
            binary: "cass",
            install_cmd: "cargo install coding-agent-session-search",
        },
    );
    assert(table@ =~= tool_table());
    table
}

/// One step of a command on the tools.
#[derive(Clone, Debug, PartialEq, Eq)]
pub enum ToolStep {
    /// Print this line.
    Print(String),
    /// Run this command line, its first word being the program, and print
    /// `succeeded` or `failed` as it ends. Where it cannot be started the
    /// whole command ends at once with the error `not_started`.
    Run { command: Vec<String>, succeeded: String, failed: String, not_started: String },
}

/// A `ToolStep` with its texts as character sequences.
pub enum ToolStepView {
    Print(Seq<char>),
    Run {
        command: Seq<Seq<char>>,
        succeeded: Seq<char>,
        failed: Seq<char>,
        not_started: Seq<char>,
    },
}

impl View for ToolStep {
    type V = ToolStepView;

    open spec fn view(&self) -> ToolStepView {
        match self {
            ToolStep::Print(line) => ToolStepView::Print(line@),
            ToolStep::Run { command, succeeded, failed, not_started } => ToolStepView::Run {
                command: command.deep_view(),
                succeeded: succeeded@,
                failed: failed@,
                not_started: not_started@,
            },
        }
    }
}

/// The steps as their views.
pub open spec fn step_views(steps: Seq<ToolStep>) -> Seq<ToolStepView> {
    steps.map_values(|step: ToolStep| step@)
}

/// Whether the tool at `position` of the table is installed, going by the
/// findings `installed`, one for each tool in the table's order. A tool
/// without a finding counts as not installed.
pub open spec fn installed_at(installed: Seq<bool>, position: int) -> bool {
    0 <= position < installed.len() && installed[position]
}

/// The position of the first tool named `name`, or -1 where none is.
pub open spec fn tool_position(table: Seq<ToolInfo>, name: Seq<char>) -> int
    decreases table.len(),
{
    if table.len() == 0 {
        -1
    } else {
        let before = tool_position(table.drop_last(), name);
        if before >= 0 {
            before
        } else if table.last().name@ == name {
            table.len() - 1
        } else {
            -1
        }
    }
}

/// The steps that install one tool: a word that it is there already, or
/// the announcement and the run of its install command.
pub open spec fn install_steps(tool: ToolInfo, installed: bool) -> Seq<ToolStepView> {
    if installed {
        seq![ToolStepView::Print(tool.name@ + " is already installed"@)]
    } else {
        seq![
            ToolStepView::Print("Installing "@ + tool.name@ + "..."@),
            (ToolStepView::Run {
                command: words(tool.install_cmd@),
                succeeded: tool.name@ + " installed successfully"@,
                failed: tool.name@ + " installation failed"@,
                not_started: "failed to run: "@ + tool.install_cmd@,
            }),
        ]
    }
}

/// The steps that update one tool: the announcement and the run of its
/// install command with `--force` after it.
pub open spec fn update_steps(tool: ToolInfo) -> Seq<ToolStepView> {
    seq![
        ToolStepView::Print("Updating "@ + tool.name@ + "..."@),
        (ToolStepView::Run {
            command: words(tool.install_cmd@).push(FORCE@),
            succeeded: tool.name@ + " updated successfully"@,
            failed: tool.name@ + " update failed"@,
            not_started: "failed to update "@ + tool.name@,
        }),
    ]
}

/// The steps that install every tool of the table, in its order.
pub open spec fn install_all_steps(table: Seq<ToolInfo>, installed: Seq<bool>) -> Seq<
    ToolStepView,
>
    decreases table.len(),
{
    if table.len() == 0 {
        Seq::empty()
    } else {
        install_all_steps(table.drop_last(), installed) + install_steps(
            table.last(),
            installed_at(installed, table.len() - 1),
        )
    }
}

/// The steps that update every installed tool of the table, in its order.
pub open spec fn update_all_steps(table: Seq<ToolInfo>, installed: Seq<bool>) -> Seq<
    ToolStepView,
>
    decreases table.len(),
{
    if table.len() == 0 {
        Seq::empty()
    } else if installed_at(installed, table.len() - 1) {
        update_all_steps(table.drop_last(), installed) + update_steps(table.last())
    } else {
        update_all_steps(table.drop_last(), installed)
    }
}

/// The line of the list for one tool.
pub open spec fn list_line(tool: ToolInfo, installed: bool) -> Seq<char> {
    "  "@ + tool.name@ + (if installed {
        " [installed] - "@
    } else {
        " [not installed] - "@
    }) + tool.description@
}

/// The line of the health check for one tool.
pub open spec fn doctor_line(tool: ToolInfo, installed: bool) -> Seq<char> {
    (if installed {
        "  [+] "@
    } else {
        "  [x] "@
    }) + tool.name@ + (if installed {
        ": OK"@
    } else {
        ": MISSING"@
    })
}

/// One printed line for each tool of the table, in its order.
pub open spec fn tool_lines(
    table: Seq<ToolInfo>,
    installed: Seq<bool>,
    line: spec_fn(ToolInfo, bool) -> Seq<char>,
) -> Seq<ToolStepView> {
    Seq::new(table.len(), |i: int| ToolStepView::Print(line(table[i], installed_at(installed, i))))
}

/// Every tool of the table is installed.
pub open spec fn all_installed(table: Seq<ToolInfo>, installed: Seq<bool>) -> bool {
    forall|i: int| 0 <= i < table.len() ==> installed_at(installed, i)
}

/// The names of the tools with a comma and a space between each two.
pub open spec fn names_listed(table: Seq<ToolInfo>) -> Seq<char>
    decreases table.len(),
{
    if table.len() == 0 {
        Seq::empty()
    } else if table.len() == 1 {
        table[0].name@
    } else {
        names_listed(table.drop_last()) + ", "@ + table.last().name@
    }
}

/// The steps of the list: a heading, a line for each tool, and how to
/// install.
pub open spec fn list_steps(table: Seq<ToolInfo>, installed: Seq<bool>) -> Seq<ToolStepView> {
    seq![ToolStepView::Print("Available tools:"@), ToolStepView::Print(""@)] + tool_lines(
        table,
        installed,
        |t: ToolInfo, i: bool| list_line(t, i),
    ) + seq![
        ToolStepView::Print(""@),
        ToolStepView::Print("Install with: agntz tools install <name>"@),
        ToolStepView::Print("Install all:  agntz tools install all"@),
    ]
}

/// The steps of the health check: a heading, a line for each tool, and the
/// verdict.
pub open spec fn doctor_steps(table: Seq<ToolInfo>, installed: Seq<bool>) -> Seq<ToolStepView> {
    seq![ToolStepView::Print("Checking tool health..."@), ToolStepView::Print(""@)] + tool_lines(
        table,
        installed,
        |t: ToolInfo, i: bool| doctor_line(t, i),
    ) + seq![
        ToolStepView::Print(""@),
        ToolStepView::Print(
            if all_installed(table, installed) {
                "All tools are installed and ready."@
            } else {
                "Some tools are missing. Install with: agntz tools install all"@
            },
        ),
    ]
}

/// The steps of a command on the tools of `table`, given which of them are
/// installed.
pub open spec fn tool_steps(
    table: Seq<ToolInfo>,
    command: ToolsCommand,
    installed: Seq<bool>,
) -> Seq<ToolStepView> {
    match command {
        ToolsCommand::List => list_steps(table, installed),
        ToolsCommand::Doctor => doctor_steps(table, installed),
        ToolsCommand::Install { tool } => if tool@ == ALL_TOOLS@ {
            install_all_steps(table, installed)
        } else if tool_position(table, tool@) >= 0 {
            install_steps(
                table[tool_position(table, tool@)],
                installed_at(installed, tool_position(table, tool@)),
            )
        } else {
            seq![
                ToolStepView::Print("Unknown tool: "@ + tool@),
                ToolStepView::Print("Available: "@ + names_listed(table)),
            ]
        },
        ToolsCommand::Update { tool } => if tool@ == ALL_TOOLS@ {
            update_all_steps(table, installed)
        } else if tool_position(table, tool@) >= 0 {
            update_steps(table[tool_position(table, tool@)])
        } else {
            seq![ToolStepView::Print("Unknown tool: "@ + tool@)]
        },
    }
}

/// Appends one step.
fn push_step(steps: &mut Vec<ToolStep>, step: ToolStep)
    ensures
        step_views(final(steps)@) == step_views(old(steps)@).push(step@),
{
    steps.push(step);
    assert(step_views(steps@) =~= step_views(old(steps)@).push(step@));
}

/// Appends the printing of one line.
fn push_print(steps: &mut Vec<ToolStep>, line: String)
    ensures
        step_views(final(steps)@) == step_views(old(steps)@).push(ToolStepView::Print(line@)),
{
    push_step(steps, ToolStep::Print(line));
}

/// Whether the tool at `position` counts as installed.
pub fn is_installed(installed: &Vec<bool>, position: usize) -> (r: bool)
    ensures
        r == installed_at(installed@, position as int),
{
    position < installed.len() && installed[position]
}

/// The position in `table` of the first tool named `name`.
pub fn find_tool(table: &Vec<ToolInfo>, name: &str) -> (found: Option<usize>)
    ensures
        match found {
            Some(i) => i == tool_position(table@, name@) && i < table.len(),
            None => tool_position(table@, name@) == -1,
        },
{
    let mut i: usize = 0;
    assert(table@.take(0).len() == 0);
    while i < table.len()
        invariant
            i <= table.len(),
            tool_position(table@.take(i as int), name@) == -1,
        decreases table.len() - i,
    {
        if same_text(table[i].name, name) {
            proof {
                lemma_position_stays(table@, name@, i as int);
            }
            return Some(i);
        }
        assert(table@.take(i + 1).drop_last() == table@.take(i as int));
        i += 1;
    }
    assert(table@.take(table@.len() as int) == table@);
    None
}

/// The first tool named `name` keeps its position as the table grows
/// behind it.
proof fn lemma_position_stays(table: Seq<ToolInfo>, name: Seq<char>, i: int)
    requires
        0 <= i < table.len(),
        tool_position(table.take(i), name) == -1,
        table[i].name@ == name,
    ensures
        tool_position(table, name) == i,
    decreases table.len(),
{
    if table.len() == i + 1 {
        assert(table.drop_last() == table.take(i));
    } else {
        assert(table.drop_last().take(i) == table.take(i));
        lemma_position_stays(table.drop_last(), name, i);
    }
}

/// Appends the steps that install `tool`.
fn push_install(steps: &mut Vec<ToolStep>, tool: &ToolInfo, installed: bool)
    ensures
        step_views(final(steps)@) == step_views(old(steps)@) + install_steps(*tool, installed),
{
    if installed {
        push_print(steps, text2(tool.name, " is already installed"));
        assert(step_views(steps@) =~= step_views(old(steps)@) + install_steps(*tool, installed));
    } else {
        push_print(steps, text3("Installing ", tool.name, "..."));
        let command = split_words(tool.install_cmd);
        push_step(
            steps,
            ToolStep::Run {
                command,
                succeeded: text2(tool.name, " installed successfully"),
                failed: text2(tool.name, " installation failed"),
                not_started: text2("failed to run: ", tool.install_cmd),
            },
        );
        assert(step_views(steps@) =~= step_views(old(steps)@) + install_steps(*tool, installed));
    }
}

/// Appends the steps that update `tool`.
fn push_update(steps: &mut Vec<ToolStep>, tool: &ToolInfo)
    ensures
        step_views(final(steps)@) == step_views(old(steps)@) + update_steps(*tool),
{
    push_print(steps, text3("Updating ", tool.name, "..."));
    let mut command = split_words(tool.install_cmd);
    let ghost before = command.deep_view();
    command.push(FORCE.to_string());
    assert(command.deep_view() =~= before.push(FORCE@));
    push_step(
        steps,
        ToolStep::Run {
            command,
            succeeded: text2(tool.name, " updated successfully"),
            failed: text2(tool.name, " update failed"),
            not_started: text2("failed to update ", tool.name),
        },
    );
    assert(step_views(steps@) =~= step_views(old(steps)@) + update_steps(*tool));
}

/// The names of the tools with a comma and a space between each two.
pub fn list_names(table: &Vec<ToolInfo>) -> (names: String)
    ensures
        names@ == names_listed(table@),
{
    let mut names = String::new();
    let mut i: usize = 0;
    assert(table@.take(0).len() == 0);
    while i < table.len()
        invariant
            i <= table.len(),
            names@ == names_listed(table@.take(i as int)),
        decreases table.len() - i,
    {
        assert(table@.take(i + 1).drop_last() == table@.take(i as int));
        if i > 0 {
            push_text(&mut names, ", ");
        } else {
            assert(Seq::<char>::empty() + table@[0].name@ == table@[0].name@);
        }
        push_text(&mut names, table[i].name);
        i += 1;
    }
    assert(table@.take(table@.len() as int) == table@);
    names
}

/// The line of the list for one tool.
fn list_line_of(tool: &ToolInfo, installed: bool) -> (line: String)
    ensures
        line@ == list_line(*tool, installed),
{
    let mut line = text2("  ", tool.name);
    if installed {
        push_text(&mut line, " [installed] - ");
    } else {
        push_text(&mut line, " [not installed] - ");
    }
    push_text(&mut line, tool.description);
    line
}

/// The line of the health check for one tool.
fn doctor_line_of(tool: &ToolInfo, installed: bool) -> (line: String)
    ensures
        line@ == doctor_line(*tool, installed),
{
    if installed {
        text3("  [+] ", tool.name, ": OK")
    } else {
        text3("  [x] ", tool.name, ": MISSING")
    }
}

/// The steps of the list.
fn list_of(table: &Vec<ToolInfo>, installed: &Vec<bool>) -> (steps: Vec<ToolStep>)
    ensures
        step_views(steps@) == list_steps(table@, installed@),
{
    let mut steps: Vec<ToolStep> = Vec::new();
    push_print(&mut steps, "Available tools:".to_string());
    push_print(&mut steps, "".to_string());
    let ghost line = |t: ToolInfo, i: bool| list_line(t, i);
    let mut i: usize = 0;
    while i < table.len()
        invariant
            i <= table.len(),
            line == (|t: ToolInfo, i: bool| list_line(t, i)),
            step_views(steps@).len() == i + 2,
            step_views(steps@)[0] == ToolStepView::Print("Available tools:"@),
            step_views(steps@)[1] == ToolStepView::Print(""@),
            forall|k: int|
                0 <= k < i ==> #[trigger] step_views(steps@)[k + 2] == tool_lines(
                    table@,
                    installed@,
                    line,
                )[k],
        decreases table.len() - i,
    {
        let ghost before = step_views(steps@);
        push_print(&mut steps, list_line_of(&table[i], is_installed(installed, i)));
        assert forall|k: int| 0 <= k < i + 1 implies #[trigger] step_views(steps@)[k + 2]
            == tool_lines(table@, installed@, line)[k] by {
            if k < i {
                assert(step_views(steps@)[k + 2] == before[k + 2]);
            }
        }
        i += 1;
    }
    let ghost lines = step_views(steps@);
    push_print(&mut steps, "".to_string());
    push_print(&mut steps, "Install with: agntz tools install <name>".to_string());
    push_print(&mut steps, "Install all:  agntz tools install all".to_string());
    assert(step_views(steps@) =~= list_steps(table@, installed@)) by {
        let want = list_steps(table@, installed@);
        assert(want.len() == table@.len() + 5);
        assert forall|k: int| 0 <= k < want.len() implies step_views(steps@)[k] == want[k] by {
            if 2 <= k < table@.len() + 2 {
                assert(step_views(steps@)[k] == lines[(k - 2) + 2]);
            }
        }
    }
    steps
}

/// The steps of the health check.
fn check_of(table: &Vec<ToolInfo>, installed: &Vec<bool>) -> (steps: Vec<ToolStep>)
    ensures
        step_views(steps@) == doctor_steps(table@, installed@),
{
    let mut steps: Vec<ToolStep> = Vec::new();
    push_print(&mut steps, "Checking tool health...".to_string());
    push_print(&mut steps, "".to_string());
    let ghost line = |t: ToolInfo, i: bool| doctor_line(t, i);
    let mut all_ok = true;
    let mut i: usize = 0;
    while i < table.len()
        invariant
            i <= table.len(),
            line == (|t: ToolInfo, i: bool| doctor_line(t, i)),
            all_ok == all_installed(table@.take(i as int), installed@),
            step_views(steps@).len() == i + 2,
            step_views(steps@)[0] == ToolStepView::Print("Checking tool health..."@),
            step_views(steps@)[1] == ToolStepView::Print(""@),
            forall|k: int|
                0 <= k < i ==> #[trigger] step_views(steps@)[k + 2] == tool_lines(
                    table@,
                    installed@,
                    line,
                )[k],
        decreases table.len() - i,
    {
        let ghost before = step_views(steps@);
        let there = is_installed(installed, i);
        push_print(&mut steps, doctor_line_of(&table[i], there));
        assert forall|k: int| 0 <= k < i + 1 implies #[trigger] step_views(steps@)[k + 2]
            == tool_lines(table@, installed@, line)[k] by {
            if k < i {
                assert(step_views(steps@)[k + 2] == before[k + 2]);
            }
        }
        if !there {
            all_ok = false;
        }
        i += 1;
    }
    assert(table@.take(table@.len() as int) == table@);
    let ghost lines = step_views(steps@);
    push_print(&mut steps, "".to_string());
    if all_ok {
        push_print(&mut steps, "All tools are installed and ready.".to_string());
    } else {
        push_print(
            &mut steps,
            "Some tools are missing. Install with: agntz tools install all".to_string(),
        );
    }
    assert(step_views(steps@) =~= doctor_steps(table@, installed@)) by {
        let want = doctor_steps(table@, installed@);
        assert(want.len() == table@.len() + 4);
        assert forall|k: int| 0 <= k < want.len() implies step_views(steps@)[k] == want[k] by {
            if 2 <= k < table@.len() + 2 {
                assert(step_views(steps@)[k] == lines[(k - 2) + 2]);
            }
        }
    }
    steps
}

/// The steps of `command` on the tools of `table`; `installed` tells for
/// each tool, in the table's order, whether its program was found.
pub fn plan(table: &Vec<ToolInfo>, command: ToolsCommand, installed: &Vec<bool>) -> (steps: Vec<
    ToolStep,
>)
    ensures
        step_views(steps@) == tool_steps(table@, command, installed@),
{
    match command {
        ToolsCommand::List => list_of(table, installed),
        ToolsCommand::Doctor => check_of(table, installed),
        ToolsCommand::Install { tool } => {
            let mut steps: Vec<ToolStep> = Vec::new();
            assert(step_views(steps@) =~= Seq::<ToolStepView>::empty());
            if same_text(tool.as_str(), ALL_TOOLS) {
                let mut i: usize = 0;
                assert(table@.take(0).len() == 0);
                while i < table.len()
                    invariant
                        i <= table.len(),
                        step_views(steps@) == install_all_steps(
                            table@.take(i as int),
                            installed@,
                        ),
                    decreases table.len() - i,
                {
                    assert(table@.take(i + 1).drop_last() == table@.take(i as int));
                    push_install(&mut steps, &table[i], is_installed(installed, i));
                    i += 1;
                }
                assert(table@.take(table@.len() as int) == table@);
            } else {
                match find_tool(table, tool.as_str()) {
                    Some(i) => {
                        push_install(&mut steps, &table[i], is_installed(installed, i));
                        assert(step_views(steps@) =~= install_steps(
                            table@[i as int],
                            installed_at(installed@, i as int),
                        ));
                    },
                    None => {
                        push_print(&mut steps, text2("Unknown tool: ", tool.as_str()));
                        let names = list_names(table);
                        push_print(&mut steps, text2("Available: ", names.as_str()));
                        assert(step_views(steps@) =~= seq![
                            ToolStepView::Print("Unknown tool: "@ + tool@),
                            ToolStepView::Print("Available: "@ + names_listed(table@)),
                        ]);
                    },
                }
            }
            steps
        },
        ToolsCommand::Update { tool } => {
            let mut steps: Vec<ToolStep> = Vec::new();
            assert(step_views(steps@) =~= Seq::<ToolStepView>::empty());
            if same_text(tool.as_str(), ALL_TOOLS) {
                let mut i: usize = 0;
                assert(table@.take(0).len() == 0);
                while i < table.len()
                    invariant
                        i <= table.len(),
                        step_views(steps@) == update_all_steps(table@.take(i as int), installed@),
                    decreases table.len() - i,
                {
                    assert(table@.take(i + 1).drop_last() == table@.take(i as int));
                    if is_installed(installed, i) {
                        push_update(&mut steps, &table[i]);
                    }
                    i += 1;
                }
                assert(table@.take(table@.len() as int) == table@);
            } else {
                match find_tool(table, tool.as_str()) {
                    Some(i) => {
                        push_update(&mut steps, &table[i]);
                        assert(step_views(steps@) =~= update_steps(table@[i as int]));
                    },
                    None => {
                        push_print(&mut steps, text2("Unknown tool: ", tool.as_str()));
                        assert(step_views(steps@) =~= seq![
                            ToolStepView::Print("Unknown tool: "@ + tool@),
                        ]);
                    },
                }
            }
            steps
        },
    }
}

/// The positions below `n`, in rising order.
pub open spec fn all_positions(n: nat) -> Seq<int> {
    Seq::new(n, |i: int| i)
}

/// The positions of the tools whose programs have to be looked for before
/// the steps of `command` can be told: all of them for the list, the
/// health check and a command on every tool; the one tool for its
/// install; none for the update of one tool or for a name that no tool
/// has.
pub open spec fn probed(table: Seq<ToolInfo>, command: ToolsCommand) -> Seq<int> {
    match command {
        ToolsCommand::List => all_positions(table.len()),
        ToolsCommand::Doctor => all_positions(table.len()),
        ToolsCommand::Install { tool } => if tool@ == ALL_TOOLS@ {
            all_positions(table.len())
        } else if tool_position(table, tool@) >= 0 {
            seq![tool_position(table, tool@)]
        } else {
            Seq::empty()
        },
        ToolsCommand::Update { tool } => if tool@ == ALL_TOOLS@ {
            all_positions(table.len())
        } else {
            Seq::empty()
        },
    }
}

/// The positions as mathematical integers.
pub open spec fn position_views(positions: Seq<usize>) -> Seq<int> {
    positions.map_values(|p: usize| p as int)
}

/// The two findings agree on the tools at the positions named.
pub open spec fn agree_at(a: Seq<bool>, b: Seq<bool>, positions: Seq<int>) -> bool {
    forall|k: int|
        0 <= k < positions.len() ==> installed_at(a, #[trigger] positions[k]) == installed_at(
            b,
            positions[k],
        )
}

/// Every position below `n`.
fn every_position(n: usize) -> (positions: Vec<usize>)
    ensures
        position_views(positions@) == all_positions(n as nat),
        positions@.len() == n,
        forall|k: int| 0 <= k < n ==> positions@[k] == k,
{
    let mut positions: Vec<usize> = Vec::new();
    let mut i: usize = 0;
    while i < n
        invariant
            i <= n,
            positions@.len() == i,
            forall|k: int| 0 <= k < i ==> positions@[k] == k,
        decreases n - i,
    {
        positions.push(i);
        i += 1;
    }
    assert(position_views(positions@) =~= all_positions(n as nat));
    positions
}

/// The positions in `table` of the tools whose programs have to be looked
/// for before the steps of `command` can be told. Each lies in the table.
pub fn positions_to_probe(table: &Vec<ToolInfo>, command: &ToolsCommand) -> (positions: Vec<
    usize,
>)
    ensures
        position_views(positions@) == probed(table@, *command),
        forall|k: int| 0 <= k < positions@.len() ==> positions@[k] < table@.len(),
{
    match command {
        ToolsCommand::List => every_position(table.len()),
        ToolsCommand::Doctor => every_position(table.len()),
        ToolsCommand::Install { tool } => {
            if same_text(tool.as_str(), ALL_TOOLS) {
                every_position(table.len())
            } else {
                let mut positions: Vec<usize> = Vec::new();
                match find_tool(table, tool.as_str()) {
                    Some(i) => {
                        positions.push(i);
                        assert(position_views(positions@) =~= seq![i as int]);
                    },
                    None => {
                        assert(position_views(positions@) =~= Seq::<int>::empty());
                    },
                }
                positions
            }
        },
        ToolsCommand::Update { tool } => {
            if same_text(tool.as_str(), ALL_TOOLS) {
                every_position(table.len())
            } else {
                let positions: Vec<usize> = Vec::new();
                assert(position_views(positions@) =~= Seq::<int>::empty());
                positions
            }
        },
    }
}

/// The first tool of a name lies in the table and has that name.
pub proof fn lemma_tool_position(table: Seq<ToolInfo>, name: Seq<char>)
    ensures
        -1 <= tool_position(table, name) < table.len(),
        tool_position(table, name) >= 0 ==> table[tool_position(table, name)].name@ == name,
    decreases table.len(),
{
    if table.len() > 0 {
        lemma_tool_position(table.drop_last(), name);
    }
}

/// The steps that install every tool go by the findings on the tools of
/// the table alone.
proof fn lemma_install_all_agree(table: Seq<ToolInfo>, a: Seq<bool>, b: Seq<bool>)
    requires
        forall|i: int| 0 <= i < table.len() ==> installed_at(a, i) == installed_at(b, i),
    ensures
        install_all_steps(table, a) == install_all_steps(table, b),
        update_all_steps(table, a) == update_all_steps(table, b),
    decreases table.len(),
{
    if table.len() > 0 {
        lemma_install_all_agree(table.drop_last(), a, b);
    }
}

/// The steps of a command depend on the findings only at the positions
/// that `probed` names: two findings that agree there give the same steps.
pub proof fn lemma_steps_need_only_probed(
    table: Seq<ToolInfo>,
    command: ToolsCommand,
    a: Seq<bool>,
    b: Seq<bool>,
)
    requires
        agree_at(a, b, probed(table, command)),
    ensures
        tool_steps(table, command, a) == tool_steps(table, command, b),
{
    let positions = probed(table, command);
    if positions == all_positions(table.len()) {
        assert forall|i: int| 0 <= i < table.len() implies installed_at(a, i) == installed_at(
            b,
            i,
        ) by {
            assert(positions[i] == i);
        }
        lemma_install_all_agree(table, a, b);
        assert(all_installed(table, a) == all_installed(table, b));
        assert(tool_lines(table, a, |t: ToolInfo, i: bool| list_line(t, i)) =~= tool_lines(
            table,
            b,
            |t: ToolInfo, i: bool| list_line(t, i),
        ));
        assert(tool_lines(table, a, |t: ToolInfo, i: bool| doctor_line(t, i)) =~= tool_lines(
            table,
            b,
            |t: ToolInfo, i: bool| doctor_line(t, i),
        ));
    }
    match command {
        ToolsCommand::Install { tool } => {
            lemma_tool_position(table, tool@);
            if tool@ != ALL_TOOLS@ && tool_position(table, tool@) >= 0 {
                assert(positions[0] == tool_position(table, tool@));
            }
        },
        _ => {},
    }
}

/// The steps of `command` on the toolkit's own table of tools.
pub fn handle(command: ToolsCommand, installed: &Vec<bool>) -> (steps: Vec<ToolStep>)
    ensures
        step_views(steps@) == tool_steps(tool_table(), command, installed@),
{
    let table = tools();
    plan(&table, command, installed)
}

} // verus!
