//! The memory store: the commands, the command line of the memory program
//! for each, who is asking, and the notes written out as Markdown.

use crate::argv::{
    one_word,
    optional,
    optional_number,
    push_arg,
    push_number,
    push_optional,
    push_switch,
    push_word,
    switch,
    word_and_arg,
};
use crate::json::{
    insert_text,
    json_entries,
    json_text,
    new_object,
    no_entries,
    object_is_empty,
    object_text,
    TextObject,
};
use crate::text::{decimal, same_text, string_view};
use vstd::prelude::*;

verus! {

/// The program that keeps the memories.
pub const MEMORY: &'static str = "mmry";

/// The content that stands for "read it from standard input".
pub const FROM_INPUT: &'static str = "-";

/// The file that an export goes to where none is named, as JSON.
pub const EXPORT_JSON: &'static str = "export.json";

/// The file that an export goes to where none is named, as Markdown.
pub const EXPORT_MARKDOWN: &'static str = "export.md";

/// The directory of the files that an export goes to where none is named.
pub const EXPORT_DIR: &'static str = ".memories";

/// A command on the memories. A file is held by its path as text.
#[derive(Clone, Debug, PartialEq, Eq)]
pub enum MemoryCommand {
    /// Add a memory.
    Add { content: String, category: Option<String>, tags: Option<String>, importance: Option<u8> },
    /// Search the memories.
    Search { query: String, mode: String, limit: usize, json: bool },
    /// Export the memories.
    Export { output: Option<String>, format: String, all: bool },
    /// Import memories.
    Import { file: String },
    /// Show statistics.
    Stats,
    /// List the stores.
    Stores,
    /// List the memories.
    List { limit: Option<usize>, category: Option<String>, json: bool, full: bool },
    /// Remove a memory.
    Remove { id: String },
}

/// What is to be done for a command on the memories.
#[derive(Clone, Debug, PartialEq, Eq)]
pub enum MemoryAction {
    /// Run the memory program with these arguments, for the repository's
    /// store and in the asking agent's name.
    Run(Vec<String>),
    /// Run the memory program with these arguments and nothing added.
    RunPlain(Vec<String>),
    /// Read the content from standard input, then add it with `add_args`.
    AddFromInput { category: Option<String>, tags: Option<String>, importance: Option<u8> },
    /// Export to `output`, or to the default file of the format: as
    /// Markdown where `markdown` holds, else as JSON.
    Export { markdown: bool, output: Option<String>, all: bool },
}

/// A `MemoryAction` with its texts as character sequences.
pub enum MemoryActionView {
    Run(Seq<Seq<char>>),
    RunPlain(Seq<Seq<char>>),
    AddFromInput { category: Option<Seq<char>>, tags: Option<Seq<char>>, importance: Option<nat> },
    Export { markdown: bool, output: Option<Seq<char>>, all: bool },
}

/// A small number as a natural number, where there is one.
pub open spec fn small_view(n: Option<u8>) -> Option<nat> {
    match n {
        Some(v) => Some(v as nat),
        None => None,
    }
}

/// A count as a natural number, where there is one.
pub open spec fn count_view(n: Option<usize>) -> Option<nat> {
    match n {
        Some(v) => Some(v as nat),
        None => None,
    }
}

impl View for MemoryAction {
    type V = MemoryActionView;

    open spec fn view(&self) -> MemoryActionView {
        match self {
            MemoryAction::Run(args) => MemoryActionView::Run(args.deep_view()),
            MemoryAction::RunPlain(args) => MemoryActionView::RunPlain(args.deep_view()),
            MemoryAction::AddFromInput { category, tags, importance } => {
                MemoryActionView::AddFromInput {
                    category: string_view(*category),
                    tags: string_view(*tags),
                    importance: small_view(*importance),
                }
            },
            MemoryAction::Export { markdown, output, all } => MemoryActionView::Export {
                markdown: *markdown,
                output: string_view(*output),
                all: *all,
            },
        }
    }
}

/// The format names Markdown.
pub open spec fn names_markdown(format: Seq<char>) -> bool {
    format == "md"@ || format == "markdown"@
}

/// The arguments that add a memory.
pub open spec fn add_arguments(
    content: Seq<char>,
    category: Option<Seq<char>>,
    tags: Option<Seq<char>>,
    importance: Option<nat>,
) -> Seq<Seq<char>> {
    seq!["add"@, content] + optional("-c"@, category) + optional("-t"@, tags) + optional_number(
        "-i"@,
        importance,
    )
}

/// The arguments that export the memories to the file at `path`.
pub open spec fn export_arguments(path: Seq<char>, all: bool) -> Seq<Seq<char>> {
    seq!["export"@, "-o"@, path] + switch("--all"@, all)
}

/// What is to be done for `command`.
pub open spec fn memory_action(command: MemoryCommand) -> MemoryActionView {
    match command {
        MemoryCommand::Add { content, category, tags, importance } => if content@ == FROM_INPUT@ {
            MemoryActionView::AddFromInput {
                category: string_view(category),
                tags: string_view(tags),
                importance: small_view(importance),
            }
        } else {
            MemoryActionView::Run(
                add_arguments(
                    content@,
                    string_view(category),
                    string_view(tags),
                    small_view(importance),
                ),
            )
        },
        MemoryCommand::Search { query, mode, limit, json } => MemoryActionView::Run(
            seq!["search"@, query@, "--mode"@, mode@, "--limit"@, decimal(limit as nat)] + switch(
                "--json"@,
                json,
            ),
        ),
        MemoryCommand::Export { output, format, all } => MemoryActionView::Export {
            markdown: names_markdown(format@),
            output: string_view(output),
            all,
        },
        MemoryCommand::Import { file } => MemoryActionView::Run(seq!["import"@, file@]),
        MemoryCommand::Stats => MemoryActionView::Run(seq!["stats"@]),
        MemoryCommand::Stores => MemoryActionView::RunPlain(seq!["stores"@, "list"@]),
        MemoryCommand::List { limit, category, json, full } => MemoryActionView::Run(
            seq!["ls"@] + optional_number("--limit"@, count_view(limit)) + optional(
                "--category"@,
                string_view(category),
            ) + switch("--json"@, json) + switch("--full"@, full),
        ),
        MemoryCommand::Remove { id } => MemoryActionView::Run(seq!["rm"@, id@]),
    }
}

/// Appends `flag` and the number, where there is a number.
fn push_optional_number(args: &mut Vec<String>, flag: &str, value: Option<u128>)
    ensures
        final(args).deep_view() == old(args).deep_view() + optional_number(
            flag@,
            match value {
                Some(n) => Some(n as nat),
                None => None,
            },
        ),
{
    match value {
        Some(n) => {
            push_word(args, flag);
            push_number(args, n);
            assert(args.deep_view() =~= old(args).deep_view() + seq![flag@, decimal(n as nat)]);
        },
        None => {
            assert(args.deep_view() =~= old(args).deep_view() + Seq::<Seq<char>>::empty());
        },
    }
}

/// The arguments that add the memory `content`.
pub fn add_args(
    content: String,
    category: Option<String>,
    tags: Option<String>,
    importance: Option<u8>,
) -> (args: Vec<String>)
    ensures
        args.deep_view() == add_arguments(
            content@,
            string_view(category),
            string_view(tags),
            small_view(importance),
        ),
{
    let mut args = word_and_arg("add", content);
    push_optional(&mut args, "-c", category);
    push_optional(&mut args, "-t", tags);
    let wide: Option<u128> = match importance {
        Some(i) => Some(i as u128),
        None => None,
    };
    push_optional_number(&mut args, "-i", wide);
    args
}

/// The arguments that export the memories to the file at `path`.
pub fn export_args(path: String, all: bool) -> (args: Vec<String>)
    ensures
        args.deep_view() == export_arguments(path@, all),
{
    let mut args = one_word("export");
    push_word(&mut args, "-o");
    push_arg(&mut args, path);
    assert(args.deep_view() =~= seq!["export"@, "-o"@, path@]);
    push_switch(&mut args, "--all", all);
    args
}

/// Whether the format names Markdown.
pub fn is_markdown(format: &str) -> (r: bool)
    ensures
        r == names_markdown(format@),
{
    same_text(format, "md") || same_text(format, "markdown")
}

/// The name of the file that an export goes to where none is named.
pub fn export_file_name(markdown: bool) -> (name: &'static str)
    ensures
        name@ == if markdown {
            EXPORT_MARKDOWN@
        } else {
            EXPORT_JSON@
        },
{
    if markdown {
        EXPORT_MARKDOWN
    } else {
        EXPORT_JSON
    }
}

/// What is to be done for `command`.
pub fn handle(command: MemoryCommand) -> (action: MemoryAction)
    ensures
        action@ == memory_action(command),
{
    match command {
        MemoryCommand::Add { content, category, tags, importance } => {
            if same_text(content.as_str(), FROM_INPUT) {
                MemoryAction::AddFromInput { category, tags, importance }
            } else {
                MemoryAction::Run(add_args(content, category, tags, importance))
            }
        },
        MemoryCommand::Search { query, mode, limit, json } => {
            let mut args = word_and_arg("search", query);
            push_word(&mut args, "--mode");
            push_arg(&mut args, mode);
            push_word(&mut args, "--limit");
            push_number(&mut args, limit as u128);
            assert(args.deep_view() =~= seq![
                "search"@,
                query@,
                "--mode"@,
                mode@,
                "--limit"@,
                decimal(limit as nat),
            ]);
            push_switch(&mut args, "--json", json);
            MemoryAction::Run(args)
        },
        MemoryCommand::Export { output, format, all } => {
            MemoryAction::Export { markdown: is_markdown(format.as_str()), output, all }
        },
        MemoryCommand::Import { file } => MemoryAction::Run(word_and_arg("import", file)),
        MemoryCommand::Stats => MemoryAction::Run(one_word("stats")),
        MemoryCommand::Stores => {
            let mut args = one_word("stores");
            push_word(&mut args, "list");
            assert(args.deep_view() =~= seq!["stores"@, "list"@]);
            MemoryAction::RunPlain(args)
        },
        MemoryCommand::List { limit, category, json, full } => {
            let mut args = one_word("ls");
            let wide: Option<u128> = match limit {
                Some(n) => Some(n as u128),
                None => None,
            };
            push_optional_number(&mut args, "--limit", wide);
            push_optional(&mut args, "--category", category);
            push_switch(&mut args, "--json", json);
            push_switch(&mut args, "--full", full);
            MemoryAction::Run(args)
        },
        MemoryCommand::Remove { id } => MemoryAction::Run(word_and_arg("rm", id)),
    }
}

/// The arguments of a run for the repository's store: the store first,
/// where the repository has a name, then the arguments of the command.
pub open spec fn store_arguments(repo: Option<Seq<char>>, args: Seq<Seq<char>>) -> Seq<Seq<char>> {
    optional("--store"@, repo) + args
}

/// The arguments of a run for the repository's store.
pub fn store_args(repo: Option<String>, args: Vec<String>) -> (full: Vec<String>)
    ensures
        full.deep_view() == store_arguments(string_view(repo), args.deep_view()),
{
    let mut full: Vec<String> = Vec::new();
    assert(full.deep_view() =~= Seq::<Seq<char>>::empty());
    push_optional(&mut full, "--store", repo);
    let ghost head = full.deep_view();
    assert(head =~= optional("--store"@, string_view(repo)));
    let ghost all = args.deep_view();
    for arg in it: args
        invariant
            it.seq().len() == all.len(),
            forall|k: int| 0 <= k < all.len() ==> (#[trigger] it.seq()[k])@ == all[k],
            full.deep_view() == head + all.take(it.index() as int),
    {
        push_arg(&mut full, arg);
        assert(full.deep_view() =~= head + all.take(it.index() + 1));
    }
    assert(all.take(all.len() as int) == all);
    full
}

/// What the environment says of the asking agent: the variables that the
/// harnesses set, each with its value where it is set and readable, and
/// whether the one that marks `opencode` is set at all.
#[derive(Clone, Debug, PartialEq, Eq)]
pub struct AgentEnv {
    pub pi_harness: Option<String>,
    pub pi_session_id: Option<String>,
    pub pi_model: Option<String>,
    pub opencode: bool,
    pub agent_harness: Option<String>,
    pub agent_session_id: Option<String>,
    pub agent_model: Option<String>,
}

/// The asking agent: its harness, and its session and model where known.
#[derive(Clone, Debug, PartialEq, Eq)]
pub struct AgentIdentity {
    pub harness: String,
    pub session: Option<String>,
    pub model: Option<String>,
}

/// An `AgentIdentity` with its texts as character sequences.
pub struct AgentIdentityView {
    pub harness: Seq<char>,
    pub session: Option<Seq<char>>,
    pub model: Option<Seq<char>>,
}

impl View for AgentIdentity {
    type V = AgentIdentityView;

    open spec fn view(&self) -> AgentIdentityView {
        AgentIdentityView {
            harness: self.harness@,
            session: string_view(self.session),
            model: string_view(self.model),
        }
    }
}

/// An optional identity with its texts as character sequences.
pub open spec fn identity_view(identity: Option<AgentIdentity>) -> Option<AgentIdentityView> {
    match identity {
        Some(i) => Some(i@),
        None => None,
    }
}

/// The text where there is one and it is not empty.
pub open spec fn non_empty(text: Option<Seq<char>>) -> Option<Seq<char>> {
    match text {
        Some(t) => if t.len() > 0 {
            Some(t)
        } else {
            None
        },
        None => None,
    }
}

/// The asking agent as the environment tells it: the first harness of
/// three that has set its mark. The first gives session and model where
/// they are not empty, the second gives neither, the third gives them as
/// they are.
pub open spec fn detected(env: AgentEnv) -> Option<AgentIdentityView> {
    if env.pi_harness is Some {
        Some(
            AgentIdentityView {
                harness: env.pi_harness->0@,
                session: non_empty(string_view(env.pi_session_id)),
                model: non_empty(string_view(env.pi_model)),
            },
        )
    } else if env.opencode {
        Some(AgentIdentityView { harness: "opencode"@, session: None, model: None })
    } else if env.agent_harness is Some {
        Some(
            AgentIdentityView {
                harness: env.agent_harness->0@,
                session: string_view(env.agent_session_id),
                model: string_view(env.agent_model),
            },
        )
    } else {
        None
    }
}

/// The text where there is one and it is not empty.
fn keep_non_empty(text: Option<String>) -> (kept: Option<String>)
    ensures
        string_view(kept) == non_empty(string_view(text)),
{
    match text {
        Some(t) => {
            if t.as_str().is_empty() {
                None
            } else {
                Some(t)
            }
        },
        None => None,
    }
}

/// The asking agent as the environment tells it.
pub fn detect_agent(env: AgentEnv) -> (identity: Option<AgentIdentity>)
    ensures
        identity_view(identity) == detected(env),
{
    match env.pi_harness {
        Some(harness) => {
            return Some(
                AgentIdentity {
                    harness,
                    session: keep_non_empty(env.pi_session_id),
                    model: keep_non_empty(env.pi_model),
                },
            );
        },
        None => {},
    }
    if env.opencode {
        return Some(AgentIdentity { harness: "opencode".to_string(), session: None, model: None });
    }
    match env.agent_harness {
        Some(harness) => Some(
            AgentIdentity { harness, session: env.agent_session_id, model: env.agent_model },
        ),
        None => None,
    }
}

/// `entries` with `key` set to the text, where there is a text.
pub open spec fn with_entry(
    entries: Map<Seq<char>, Seq<char>>,
    key: Seq<char>,
    value: Option<Seq<char>>,
) -> Map<Seq<char>, Seq<char>> {
    match value {
        Some(v) => entries.insert(key, v),
        None => entries,
    }
}

/// What is told of a memory's origin: the repository, the session and the
/// model, each where it is known.
pub open spec fn metadata_entries(repo: Option<Seq<char>>, identity: AgentIdentityView) -> Map<
    Seq<char>,
    Seq<char>,
> {
    with_entry(
        with_entry(with_entry(no_entries(), "repo"@, repo), "session"@, identity.session),
        "model"@,
        identity.model,
    )
}

/// Sets `key` in `object` to the text, where there is a text.
fn insert_optional(object: &mut TextObject, key: &str, value: &Option<String>)
    ensures
        json_entries(*final(object)) == with_entry(
            json_entries(*old(object)),
            key@,
            string_view(*value),
        ),
{
    match value {
        Some(v) => {
            insert_text(object, key.to_string(), v.clone());
        },
        None => {},
    }
}

/// The JSON object that tells a memory's origin.
pub fn metadata_object(repo: &Option<String>, identity: &AgentIdentity) -> (object: TextObject)
    ensures
        json_entries(object) == metadata_entries(string_view(*repo), identity@),
{
    let mut object = new_object();
    insert_optional(&mut object, "repo", repo);
    insert_optional(&mut object, "session", &identity.session);
    insert_optional(&mut object, "model", &identity.model);
    object
}

/// The variables that a run in the agent's name is given: the agent, its
/// kind, and the origin of its memories where one was written.
pub open spec fn agent_variables(harness: Seq<char>, origin: Option<Seq<char>>) -> Seq<
    (Seq<char>, Seq<char>),
> {
    match origin {
        Some(text) => seq![
            ("MMRY_AGENT"@, harness),
            ("MMRY_AGENT_KIND"@, "coding_agent"@),
            ("MMRY_AGENT_META"@, text),
        ],
        None => seq![("MMRY_AGENT"@, harness), ("MMRY_AGENT_KIND"@, "coding_agent"@)],
    }
}

/// The names and values as pairs of character sequences.
pub open spec fn variable_views(variables: Seq<(String, String)>) -> Seq<(Seq<char>, Seq<char>)> {
    variables.map_values(|v: (String, String)| (v.0@, v.1@))
}

/// The variables that a run in the agent's name is given, `origin` being
/// the origin of its memories as JSON text, where one was written.
pub fn agent_variables_with(harness: &str, origin: Option<String>) -> (variables: Vec<
    (String, String),
>)
    ensures
        variable_views(variables@) == agent_variables(harness@, string_view(origin)),
{
    let mut variables: Vec<(String, String)> = Vec::new();
    variables.push(("MMRY_AGENT".to_string(), harness.to_string()));
    variables.push(("MMRY_AGENT_KIND".to_string(), "coding_agent".to_string()));
    match origin {
        Some(text) => {
            variables.push(("MMRY_AGENT_META".to_string(), text));
            assert(variable_views(variables@) =~= agent_variables(harness@, Some(text@)));
        },
        None => {
            assert(variable_views(variables@) =~= agent_variables(harness@, None));
        },
    }
    variables
}

/// The origin of an agent's memories as it is told: nothing where nothing
/// is known of it, else the JSON text of what is known.
pub open spec fn origin_text(repo: Option<Seq<char>>, identity: AgentIdentityView) -> Option<
    Seq<char>,
> {
    if metadata_entries(repo, identity) == no_entries() {
        None
    } else {
        Some(json_text(metadata_entries(repo, identity)))
    }
}

/// The origin of an agent's memories as JSON text, where anything is known
/// of it.
pub fn origin(identity: &AgentIdentity, repo: &Option<String>) -> (text: Option<String>)
    ensures
        string_view(text) == origin_text(string_view(*repo), identity@),
{
    let object = metadata_object(repo, identity);
    if object_is_empty(&object) {
        None
    } else {
        match object_text(&object) {
            Ok(text) => Some(text),
            Err(_) => None,
        }
    }
}

/// The variables that a run in the agent's name is given: the agent, its
/// kind, and the origin of its memories exactly where the repository, the
/// session or the model is known.
pub fn agent_environment(identity: &AgentIdentity, repo: &Option<String>) -> (variables: Vec<
    (String, String),
>)
    ensures
        variable_views(variables@) == agent_variables(
            identity.harness@,
            origin_text(string_view(*repo), identity@),
        ),
{
    let told = origin(identity, repo);
    agent_variables_with(identity.harness.as_str(), told)
}

/// The origin is told exactly where the repository, the session or the
/// model is known, and then the variables are three.
pub proof fn lemma_origin_is_told(repo: Option<Seq<char>>, identity: AgentIdentityView)
    ensures
        origin_text(repo, identity) is Some <==> (repo is Some || identity.session is Some
            || identity.model is Some),
        agent_variables(identity.harness, origin_text(repo, identity)).len() == if repo is Some
            || identity.session is Some || identity.model is Some {
            3nat
        } else {
            2nat
        },
{
    let entries = metadata_entries(repo, identity);
    if repo is Some {
        assert(entries.dom().contains("repo"@) || entries.dom().contains("session"@)
            || entries.dom().contains("model"@));
    }
    if identity.session is Some {
        assert(entries.dom().contains("session"@) || entries.dom().contains("model"@));
    }
    if identity.model is Some {
        assert(entries.dom().contains("model"@));
    }
    if !(repo is Some || identity.session is Some || identity.model is Some) {
        assert(entries == no_entries());
    } else {
        assert(entries != no_entries()) by {
            if entries == no_entries() {
                assert(!no_entries().dom().contains("repo"@));
                assert(!no_entries().dom().contains("session"@));
                assert(!no_entries().dom().contains("model"@));
            }
        }
    }
}

} // verus!
