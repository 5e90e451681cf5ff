use agntz::init::{store_init_args, tracker_init_args};
use agntz::issues::IssuesCommand;
use agntz::mail::MailCommand;
use agntz::memory::{
    add_args, agent_environment, agent_variables_with, detect_agent, export_args, origin,
    export_file_name, is_markdown, store_args, AgentEnv, AgentIdentity, MemoryAction,
    MemoryCommand,
};
use agntz::schedule::ScheduleCommand;
use agntz::tools::{find_tool, list_names, positions_to_probe, tools, ToolStep, ToolsCommand};

fn s(text: &str) -> String {
    text.to_string()
}

fn some(text: &str) -> Option<String> {
    Some(text.to_string())
}

#[test]
fn tracker_lists_without_a_command() {
    assert_eq!(agntz::issues::handle(None), vec!["list"]);
    assert_eq!(agntz::issues::TRACKER, "trx");
}

#[test]
fn tracker_arguments() {
    let list = IssuesCommand::List { status: some("open"), kind: some("bug") };
    assert_eq!(
        agntz::issues::handle(Some(list)),
        vec!["list", "--status", "open", "--issue-type", "bug"]
    );
    let list = IssuesCommand::List { status: None, kind: some("bug") };
    assert_eq!(agntz::issues::handle(Some(list)), vec!["list", "--issue-type", "bug"]);
    let list = IssuesCommand::List { status: None, kind: None };
    assert_eq!(agntz::issues::handle(Some(list)), vec!["list"]);
    let create = IssuesCommand::Create {
        title: s("Fix it"),
        kind: s("task"),
        priority: 2,
        description: some("now"),
    };
    assert_eq!(
        agntz::issues::handle(Some(create)),
        vec!["create", "Fix it", "-t", "task", "-p", "2", "-d", "now"]
    );
    let create =
        IssuesCommand::Create { title: s("T"), kind: s("bug"), priority: 255, description: None };
    assert_eq!(agntz::issues::handle(Some(create)), vec!["create", "T", "-t", "bug", "-p", "255"]);
    let update = IssuesCommand::Update { id: s("i-1"), status: some("done"), priority: Some(0) };
    assert_eq!(
        agntz::issues::handle(Some(update)),
        vec!["update", "i-1", "--status", "done", "--priority", "0"]
    );
    let update = IssuesCommand::Update { id: s("i-1"), status: None, priority: None };
    assert_eq!(agntz::issues::handle(Some(update)), vec!["update", "i-1"]);
    let close = IssuesCommand::Close { id: s("i-2"), reason: some("dup") };
    assert_eq!(agntz::issues::handle(Some(close)), vec!["close", "i-2", "-r", "dup"]);
    let close = IssuesCommand::Close { id: s("i-2"), reason: None };
    assert_eq!(agntz::issues::handle(Some(close)), vec!["close", "i-2"]);
    let show = IssuesCommand::Show { id: s("i-3") };
    assert_eq!(agntz::issues::handle(Some(show)), vec!["show", "i-3"]);
}

#[test]
fn mailer_arguments() {
    assert_eq!(agntz::mail::MAILER, "mailz-cli");
    assert_eq!(agntz::mail::handle(MailCommand::Inbox), vec!["inbox"]);
    let send = MailCommand::Send { to: s("bob"), subject: s("hi"), body: some("text") };
    assert_eq!(agntz::mail::handle(send), vec!["send", "bob", "hi", "--body", "text"]);
    let send = MailCommand::Send { to: s("bob"), subject: s("hi"), body: None };
    assert_eq!(agntz::mail::handle(send), vec!["send", "bob", "hi"]);
    assert_eq!(agntz::mail::handle(MailCommand::Read { id: s("7") }), vec!["read", "7"]);
    assert_eq!(agntz::mail::handle(MailCommand::Ack { id: s("7") }), vec!["ack", "7"]);
    assert_eq!(agntz::mail::handle(MailCommand::Search { query: s("q") }), vec!["search", "q"]);
}

#[test]
fn scheduler_arguments() {
    assert_eq!(agntz::schedule::SCHEDULER, "skdlr");
    let add = ScheduleCommand::Add {
        name: s("nightly"),
        schedule: s("0 8 * * *"),
        command: s("make"),
        workdir: some("/w"),
        description: some("build"),
        disabled: true,
    };
    assert_eq!(
        agntz::schedule::handle(add),
        vec![
            "add",
            "nightly",
            "--schedule",
            "0 8 * * *",
            "--command",
            "make",
            "--workdir",
            "/w",
            "--description",
            "build",
            "--enabled",
            "false"
        ]
    );
    let add = ScheduleCommand::Add {
        name: s("n"),
        schedule: s("* * * * *"),
        command: s("c"),
        workdir: None,
        description: None,
        disabled: false,
    };
    assert_eq!(
        agntz::schedule::handle(add),
        vec!["add", "n", "--schedule", "* * * * *", "--command", "c"]
    );
    let list = ScheduleCommand::List { status: some("enabled") };
    assert_eq!(agntz::schedule::handle(list), vec!["list", "--status", "enabled"]);
    assert_eq!(agntz::schedule::handle(ScheduleCommand::List { status: None }), vec!["list"]);
    assert_eq!(agntz::schedule::handle(ScheduleCommand::Show { name: s("n") }), vec!["show", "n"]);
    let edit = ScheduleCommand::Edit {
        name: s("n"),
        schedule: None,
        command: some("c2"),
        workdir: None,
        description: some("d"),
    };
    assert_eq!(
        agntz::schedule::handle(edit),
        vec!["edit", "n", "--command", "c2", "--description", "d"]
    );
    let edit = ScheduleCommand::Edit {
        name: s("n"),
        schedule: some("s"),
        command: None,
        workdir: some("w"),
        description: None,
    };
    assert_eq!(
        agntz::schedule::handle(edit),
        vec!["edit", "n", "--schedule", "s", "--workdir", "w"]
    );
    let remove = ScheduleCommand::Remove { name: s("n"), yes: true };
    assert_eq!(agntz::schedule::handle(remove), vec!["remove", "n", "--yes"]);
    let remove = ScheduleCommand::Remove { name: s("n"), yes: false };
    assert_eq!(agntz::schedule::handle(remove), vec!["remove", "n"]);
    assert_eq!(
        agntz::schedule::handle(ScheduleCommand::Enable { name: s("n") }),
        vec!["enable", "n"]
    );
    assert_eq!(
        agntz::schedule::handle(ScheduleCommand::Disable { name: s("n") }),
        vec!["disable", "n"]
    );
    let run = ScheduleCommand::Run { name: s("n"), dry_run: true };
    assert_eq!(agntz::schedule::handle(run), vec!["run", "n", "--dry-run"]);
    let run = ScheduleCommand::Run { name: s("n"), dry_run: false };
    assert_eq!(agntz::schedule::handle(run), vec!["run", "n"]);
    let logs = ScheduleCommand::Logs { name: s("n"), last: 10 };
    assert_eq!(agntz::schedule::handle(logs), vec!["logs", "n", "--last", "10"]);
    assert_eq!(agntz::schedule::handle(ScheduleCommand::Status), vec!["status"]);
    assert_eq!(agntz::schedule::handle(ScheduleCommand::Next), vec!["next"]);
    assert_eq!(agntz::schedule::handle(ScheduleCommand::Backend), vec!["backend"]);
    assert_eq!(agntz::schedule::handle(ScheduleCommand::Doctor), vec!["doctor"]);
}

#[test]
fn memory_actions() {
    assert_eq!(agntz::memory::MEMORY, "mmry");
    let add = MemoryCommand::Add {
        content: s("remember"),
        category: some("notes"),
        tags: some("a,b"),
        importance: Some(7),
    };
    assert_eq!(
        agntz::memory::handle(add),
        MemoryAction::Run(vec![
            s("add"),
            s("remember"),
            s("-c"),
            s("notes"),
            s("-t"),
            s("a,b"),
            s("-i"),
            s("7")
        ])
    );
    let add = MemoryCommand::Add {
        content: s("-"),
        category: some("notes"),
        tags: None,
        importance: Some(1),
    };
    assert_eq!(
        agntz::memory::handle(add),
        MemoryAction::AddFromInput { category: some("notes"), tags: None, importance: Some(1) }
    );
    let search = MemoryCommand::Search { query: s("q"), mode: s("hybrid"), limit: 10, json: true };
    assert_eq!(
        agntz::memory::handle(search),
        MemoryAction::Run(vec![
            s("search"),
            s("q"),
            s("--mode"),
            s("hybrid"),
            s("--limit"),
            s("10"),
            s("--json")
        ])
    );
    let search = MemoryCommand::Search { query: s("q"), mode: s("m"), limit: 0, json: false };
    assert_eq!(
        agntz::memory::handle(search),
        MemoryAction::Run(vec![s("search"), s("q"), s("--mode"), s("m"), s("--limit"), s("0")])
    );
    let export = MemoryCommand::Export { output: some("out.md"), format: s("md"), all: true };
    assert_eq!(
        agntz::memory::handle(export),
        MemoryAction::Export { markdown: true, output: some("out.md"), all: true }
    );
    let export = MemoryCommand::Export { output: None, format: s("markdown"), all: false };
    assert_eq!(
        agntz::memory::handle(export),
        MemoryAction::Export { markdown: true, output: None, all: false }
    );
    let export = MemoryCommand::Export { output: None, format: s("json"), all: false };
    assert_eq!(
        agntz::memory::handle(export),
        MemoryAction::Export { markdown: false, output: None, all: false }
    );
    let export = MemoryCommand::Export { output: None, format: s("MD"), all: false };
    assert_eq!(
        agntz::memory::handle(export),
        MemoryAction::Export { markdown: false, output: None, all: false }
    );
    assert_eq!(
        agntz::memory::handle(MemoryCommand::Import { file: s("in.json") }),
        MemoryAction::Run(vec![s("import"), s("in.json")])
    );
    assert_eq!(agntz::memory::handle(MemoryCommand::Stats), MemoryAction::Run(vec![s("stats")]));
    assert_eq!(
        agntz::memory::handle(MemoryCommand::Stores),
        MemoryAction::RunPlain(vec![s("stores"), s("list")])
    );
    let list =
        MemoryCommand::List { limit: Some(5), category: some("c"), json: true, full: true };
    assert_eq!(
        agntz::memory::handle(list),
        MemoryAction::Run(vec![
            s("ls"),
            s("--limit"),
            s("5"),
            s("--category"),
            s("c"),
            s("--json"),
            s("--full")
        ])
    );
    let list = MemoryCommand::List { limit: None, category: None, json: false, full: false };
    assert_eq!(agntz::memory::handle(list), MemoryAction::Run(vec![s("ls")]));
    assert_eq!(
        agntz::memory::handle(MemoryCommand::Remove { id: s("m1") }),
        MemoryAction::Run(vec![s("rm"), s("m1")])
    );
}

#[test]
fn memory_argument_lists() {
    assert_eq!(add_args(s("x"), None, None, None), vec!["add", "x"]);
    assert_eq!(add_args(s("x"), None, some("t"), Some(10)), vec!["add", "x", "-t", "t", "-i", "10"]);
    assert_eq!(export_args(s("/tmp/e.json"), false), vec!["export", "-o", "/tmp/e.json"]);
    assert_eq!(export_args(s("/tmp/e.json"), true), vec!["export", "-o", "/tmp/e.json", "--all"]);
    assert!(is_markdown("md"));
    assert!(is_markdown("markdown"));
    assert!(!is_markdown("json"));
    assert!(!is_markdown(""));
    assert_eq!(export_file_name(true), "export.md");
    assert_eq!(export_file_name(false), "export.json");
    assert_eq!(
        store_args(some("repo"), vec![s("ls"), s("--json")]),
        vec!["--store", "repo", "ls", "--json"]
    );
    assert_eq!(store_args(None, vec![s("ls")]), vec!["ls"]);
    assert_eq!(store_args(some("repo"), Vec::new()), vec!["--store", "repo"]);
}

fn no_env() -> AgentEnv {
    AgentEnv {
        pi_harness: None,
        pi_session_id: None,
        pi_model: None,
        opencode: false,
        agent_harness: None,
        agent_session_id: None,
        agent_model: None,
    }
}

#[test]
fn agent_is_detected_in_order() {
    assert_eq!(detect_agent(no_env()), None);
    let mut env = no_env();
    env.pi_harness = some("pi");
    env.pi_session_id = some("sess");
    env.pi_model = some("");
    env.opencode = true;
    env.agent_harness = some("generic");
    assert_eq!(
        detect_agent(env),
        Some(AgentIdentity { harness: s("pi"), session: some("sess"), model: None })
    );
    let mut env = no_env();
    env.pi_session_id = some("ignored");
    env.opencode = true;
    env.agent_harness = some("generic");
    env.agent_session_id = some("ignored");
    assert_eq!(
        detect_agent(env),
        Some(AgentIdentity { harness: s("opencode"), session: None, model: None })
    );
    let mut env = no_env();
    env.agent_harness = some("generic");
    env.agent_session_id = some("");
    env.agent_model = some("m");
    assert_eq!(
        detect_agent(env),
        Some(AgentIdentity { harness: s("generic"), session: some(""), model: some("m") })
    );
    let mut env = no_env();
    env.agent_session_id = some("s");
    env.agent_model = some("m");
    assert_eq!(detect_agent(env), None);
}

fn pair(name: &str, value: &str) -> (String, String) {
    (name.to_string(), value.to_string())
}

#[test]
fn agent_variables_carry_the_origin_as_json() {
    let identity = AgentIdentity { harness: s("pi"), session: some("s-1"), model: some("m/x") };
    let variables = agent_environment(&identity, &some("repo"));
    assert_eq!(
        variables,
        vec![
            pair("MMRY_AGENT", "pi"),
            pair("MMRY_AGENT_KIND", "coding_agent"),
            pair("MMRY_AGENT_META", "{\"model\":\"m/x\",\"repo\":\"repo\",\"session\":\"s-1\"}"),
        ]
    );
    let identity = AgentIdentity { harness: s("pi"), session: None, model: None };
    assert_eq!(
        agent_environment(&identity, &some("a \"b\"\n")),
        vec![
            pair("MMRY_AGENT", "pi"),
            pair("MMRY_AGENT_KIND", "coding_agent"),
            pair("MMRY_AGENT_META", "{\"repo\":\"a \\\"b\\\"\\n\"}"),
        ]
    );
    assert_eq!(
        agent_environment(&identity, &None),
        vec![pair("MMRY_AGENT", "pi"), pair("MMRY_AGENT_KIND", "coding_agent")]
    );
    let identity = AgentIdentity { harness: s("h"), session: some("only"), model: None };
    let variables = agent_environment(&identity, &None);
    assert_eq!(variables[2], pair("MMRY_AGENT_META", "{\"session\":\"only\"}"));
    let parsed: serde_json::Value = serde_json::from_str(&variables[2].1).unwrap();
    assert_eq!(parsed.get("session").and_then(|v| v.as_str()), Some("only"));
}

#[test]
fn agent_variables_for_a_given_origin() {
    assert_eq!(
        agent_variables_with("h", None),
        vec![pair("MMRY_AGENT", "h"), pair("MMRY_AGENT_KIND", "coding_agent")]
    );
    assert_eq!(
        agent_variables_with("h", some("{}")),
        vec![
            pair("MMRY_AGENT", "h"),
            pair("MMRY_AGENT_KIND", "coding_agent"),
            pair("MMRY_AGENT_META", "{}")
        ]
    );
}

#[test]
fn setup_arguments() {
    assert_eq!(store_init_args("repo", false), vec!["init", "--store", "repo"]);
    assert_eq!(store_init_args("repo", true), vec!["init", "--store", "repo", "--force"]);
    assert_eq!(tracker_init_args("repo"), vec!["init", "--prefix", "repo"]);
}

fn print(line: &str) -> ToolStep {
    ToolStep::Print(line.to_string())
}

fn run(words: &[&str], succeeded: &str, failed: &str, not_started: &str) -> ToolStep {
    ToolStep::Run {
        command: words.iter().map(|w| w.to_string()).collect(),
        succeeded: succeeded.to_string(),
        failed: failed.to_string(),
        not_started: not_started.to_string(),
    }
}

#[test]
fn tool_table() {
    let table = tools();
    assert_eq!(table.len(), 5);
    assert_eq!(list_names(&table), "mmry, mailz, bd, bv, cass");
    assert_eq!(table[1].binary, "mailz-cli");
    assert_eq!(table[4].install_cmd, "cargo install coding-agent-session-search");
    assert_eq!(find_tool(&table, "mmry"), Some(0));
    assert_eq!(find_tool(&table, "cass"), Some(4));
    assert_eq!(find_tool(&table, "all"), None);
    assert_eq!(find_tool(&table, "mailz-cli"), None);
    assert_eq!(list_names(&Vec::new()), "");
}

#[test]
fn tool_list_and_health_check() {
    let installed = vec![true, false, true, false, false];
    assert_eq!(
        agntz::tools::handle(ToolsCommand::List, &installed),
        vec![
            print("Available tools:"),
            print(""),
            print("  mmry [installed] - Memory storage and search"),
            print("  mailz [not installed] - Agent coordination and messaging"),
            print("  bd [installed] - Issue tracking (beads)"),
            print("  bv [not installed] - Issue triage and analytics"),
            print("  cass [not installed] - Agent session history search"),
            print(""),
            print("Install with: agntz tools install <name>"),
            print("Install all:  agntz tools install all"),
        ]
    );
    assert_eq!(
        agntz::tools::handle(ToolsCommand::Doctor, &installed),
        vec![
            print("Checking tool health..."),
            print(""),
            print("  [+] mmry: OK"),
            print("  [x] mailz: MISSING"),
            print("  [+] bd: OK"),
            print("  [x] bv: MISSING"),
            print("  [x] cass: MISSING"),
            print(""),
            print("Some tools are missing. Install with: agntz tools install all"),
        ]
    );
    let all = vec![true; 5];
    let steps = agntz::tools::handle(ToolsCommand::Doctor, &all);
    assert_eq!(steps[8], print("All tools are installed and ready."));
    let short = vec![true, true];
    let steps = agntz::tools::handle(ToolsCommand::Doctor, &short);
    assert_eq!(steps[4], print("  [x] bd: MISSING"));
    assert_eq!(steps[8], print("Some tools are missing. Install with: agntz tools install all"));
}

#[test]
fn tool_install_and_update() {
    let installed = vec![true, false, true, false, false];
    let install_mailz = run(
        &["cargo", "install", "mailz"],
        "mailz installed successfully",
        "mailz installation failed",
        "failed to run: cargo install mailz",
    );
    assert_eq!(
        agntz::tools::handle(ToolsCommand::Install { tool: s("mailz") }, &installed),
        vec![print("Installing mailz..."), install_mailz.clone()]
    );
    assert_eq!(
        agntz::tools::handle(ToolsCommand::Install { tool: s("mmry") }, &installed),
        vec![print("mmry is already installed")]
    );
    assert_eq!(
        agntz::tools::handle(ToolsCommand::Install { tool: s("nope") }, &installed),
        vec![print("Unknown tool: nope"), print("Available: mmry, mailz, bd, bv, cass")]
    );
    let steps = agntz::tools::handle(ToolsCommand::Install { tool: s("all") }, &installed);
    assert_eq!(steps.len(), 8);
    assert_eq!(steps[0], print("mmry is already installed"));
    assert_eq!(steps[1], print("Installing mailz..."));
    assert_eq!(steps[2], install_mailz);
    assert_eq!(steps[3], print("bd is already installed"));
    assert_eq!(steps[4], print("Installing bv..."));
    assert_eq!(steps[6], print("Installing cass..."));
    let update_bd = run(
        &["cargo", "install", "beads", "--force"],
        "bd updated successfully",
        "bd update failed",
        "failed to update bd",
    );
    assert_eq!(
        agntz::tools::handle(ToolsCommand::Update { tool: s("bd") }, &installed),
        vec![print("Updating bd..."), update_bd.clone()]
    );
    let steps = agntz::tools::handle(ToolsCommand::Update { tool: s("bv") }, &installed);
    assert_eq!(steps[0], print("Updating bv..."));
    assert_eq!(steps.len(), 2);
    assert_eq!(
        agntz::tools::handle(ToolsCommand::Update { tool: s("nope") }, &installed),
        vec![print("Unknown tool: nope")]
    );
    let steps = agntz::tools::handle(ToolsCommand::Update { tool: s("all") }, &installed);
    assert_eq!(steps.len(), 4);
    assert_eq!(steps[0], print("Updating mmry..."));
    assert_eq!(steps[2], print("Updating bd..."));
    assert_eq!(steps[3], update_bd);
    assert_eq!(
        agntz::tools::handle(ToolsCommand::Update { tool: s("all") }, &Vec::new()),
        Vec::<ToolStep>::new()
    );
}

#[test]
fn origin_is_told_where_anything_is_known() {
    let nothing = AgentIdentity { harness: s("h"), session: None, model: None };
    assert_eq!(origin(&nothing, &None), None);
    assert_eq!(origin(&nothing, &some("r")), some("{\"repo\":\"r\"}"));
    let model = AgentIdentity { harness: s("h"), session: None, model: some("m") };
    assert_eq!(origin(&model, &None), some("{\"model\":\"m\"}"));
    assert_eq!(agent_environment(&model, &None).len(), 3);
    let session = AgentIdentity { harness: s("h"), session: some(""), model: None };
    assert_eq!(origin(&session, &None), some("{\"session\":\"\"}"));
    assert_eq!(agent_environment(&session, &None).len(), 3);
    assert_eq!(agent_environment(&nothing, &None).len(), 2);
}

#[test]
fn programs_looked_for() {
    let table = tools();
    let all: Vec<usize> = vec![0, 1, 2, 3, 4];
    assert_eq!(positions_to_probe(&table, &ToolsCommand::List), all);
    assert_eq!(positions_to_probe(&table, &ToolsCommand::Doctor), all);
    assert_eq!(positions_to_probe(&table, &ToolsCommand::Install { tool: s("all") }), all);
    assert_eq!(positions_to_probe(&table, &ToolsCommand::Update { tool: s("all") }), all);
    assert_eq!(positions_to_probe(&table, &ToolsCommand::Install { tool: s("bd") }), vec![2]);
    assert_eq!(
        positions_to_probe(&table, &ToolsCommand::Install { tool: s("nope") }),
        Vec::<usize>::new()
    );
    assert_eq!(
        positions_to_probe(&table, &ToolsCommand::Update { tool: s("bd") }),
        Vec::<usize>::new()
    );
    let only_bd = vec![false, false, true, false, false];
    let everything = vec![true, true, true, true, true];
    assert_eq!(
        agntz::tools::handle(ToolsCommand::Install { tool: s("bd") }, &only_bd),
        agntz::tools::handle(ToolsCommand::Install { tool: s("bd") }, &everything)
    );
}
