//! A search of the session history: what the history program is asked, how
//! its answer is read, and what is kept of the hits.

use crate::argv::{
    optional,
    push_number,
    push_optional,
    push_switch,
    push_word,
    switch,
    word_and_arg,
};
use crate::filter::{filter_hits, filter_hits_at, filtered, session_matches, truncate, truncated};
use crate::hit::SearchHit;
use crate::text::{decimal, push_text, string_view, text_view};
use crate::time::Timestamp;
use vstd::prelude::*;

verus! {

/// The program that searches the session history.
pub const HISTORY: &'static str = "hstry";

/// What a failed search says where the program gave no reason.
pub const SEARCH_FAILED: &'static str = "hstry search failed";

/// What a failed search says before the program's own words.
pub const SEARCH_FAILED_WITH: &'static str = "hstry search failed: ";

/// What is said of an answer that cannot be read.
pub const UNREADABLE_ANSWER: &'static str = "failed to parse hstry search output";

/// The largest number of rows ever asked for on account of a session
/// filter.
pub const MOST_ROWS: usize = 1000;

/// The smallest number of rows asked for where a session filter is set.
pub const FEWEST_ROWS: usize = 20;

/// `x` held down to `hi`, then up to `lo`: a number between the two bounds
/// where they leave room, and the lower bound where it lies above the
/// upper one.
pub open spec fn clamped(x: nat, lo: nat, hi: nat) -> nat {
    let held_down = if x > hi {
        hi
    } else {
        x
    };
    if held_down < lo {
        lo
    } else {
        held_down
    }
}

/// The lower bound of the rows asked for with a session filter: the limit,
/// and at least `FEWEST_ROWS`.
pub open spec fn least_rows(limit: nat) -> nat {
    if limit > FEWEST_ROWS {
        limit
    } else {
        FEWEST_ROWS as nat
    }
}

/// The number of rows to ask the history program for. With a session
/// filter it is ten times the limit, held between `least_rows` below and
/// `MOST_ROWS` above, since the session filter is applied only to what was
/// fetched; a limit above `MOST_ROWS` is itself the number. Without a
/// session filter it is the limit.
pub open spec fn rows_to_fetch(limit: nat, with_session: bool) -> nat {
    if with_session {
        clamped(limit * 10, least_rows(limit), MOST_ROWS as nat)
    } else {
        limit
    }
}

/// The number of rows to ask the history program for, for every limit.
pub fn fetch_limit(limit: usize, with_session: bool) -> (rows: usize)
    ensures
        rows == rows_to_fetch(limit as nat, with_session),
{
    if !with_session || limit > MOST_ROWS {
        limit
    } else {
        let wanted: usize = limit * 10;
        let held_down: usize = if wanted > MOST_ROWS {
            MOST_ROWS
        } else {
            wanted
        };
        if held_down < FEWEST_ROWS {
            FEWEST_ROWS
        } else {
            held_down
        }
    }
}

/// With a session filter the rows asked for are never fewer than the limit
/// and never fewer than twenty. Up to a limit of a thousand they are at
/// most a thousand, and they are ten times the limit or one of the two
/// bounds; above it they are the limit.
pub proof fn lemma_rows_to_fetch_bounds(limit: nat)
    ensures
        limit <= rows_to_fetch(limit, true),
        FEWEST_ROWS <= rows_to_fetch(limit, true),
        limit <= MOST_ROWS ==> rows_to_fetch(limit, true) <= MOST_ROWS,
        limit <= MOST_ROWS ==> (rows_to_fetch(limit, true) == limit * 10 || rows_to_fetch(
            limit,
            true,
        ) == FEWEST_ROWS || rows_to_fetch(limit, true) == MOST_ROWS),
        limit > MOST_ROWS ==> rows_to_fetch(limit, true) == limit,
        rows_to_fetch(limit, false) == limit,
{
}

/// The scope that a search is narrowed to: none where all workspaces are
/// asked for; else the workspace given, else the default.
pub open spec fn search_scope(
    all_workspaces: bool,
    workspace: Option<Seq<char>>,
    default: Option<Seq<char>>,
) -> Option<Seq<char>> {
    if all_workspaces {
        None
    } else if workspace is Some {
        workspace
    } else {
        default
    }
}

/// The scope that a search is narrowed to.
pub fn workspace_filter(all_workspaces: bool, workspace: Option<String>, default: Option<String>) -> (scope:
    Option<String>)
    ensures
        string_view(scope) == search_scope(
            all_workspaces,
            string_view(workspace),
            string_view(default),
        ),
{
    if all_workspaces {
        None
    } else {
        match workspace {
            Some(w) => Some(w),
            None => default,
        }
    }
}

/// The arguments that the history program is run with: the query, the
/// request for a machine-readable answer, the scope, the three toggles,
/// and the number of rows.
pub open spec fn history_args(
    query: Seq<char>,
    scope: Option<Seq<char>>,
    no_dedup: bool,
    include_tools: bool,
    include_system: bool,
    rows: nat,
) -> Seq<Seq<char>> {
    seq!["search"@, query, "--json"@] + optional("--workspace"@, scope) + switch(
        "--dedup"@,
        !no_dedup,
    ) + switch("--no-tools"@, !include_tools) + switch("--include-system"@, include_system)
        + seq!["--limit"@, decimal(rows)]
}

/// The arguments that the history program is to be run with.
pub fn search_args(
    query: String,
    scope: Option<String>,
    no_dedup: bool,
    include_tools: bool,
    include_system: bool,
    rows: usize,
) -> (args: Vec<String>)
    ensures
        args.deep_view() == history_args(
            query@,
            string_view(scope),
            no_dedup,
            include_tools,
            include_system,
            rows as nat,
        ),
{
    let mut args = word_and_arg("search", query);
    push_word(&mut args, "--json");
    assert(args.deep_view() =~= seq!["search"@, query@, "--json"@]);
    push_optional(&mut args, "--workspace", scope);
    push_switch(&mut args, "--dedup", !no_dedup);
    push_switch(&mut args, "--no-tools", !include_tools);
    push_switch(&mut args, "--include-system", include_system);
    let ghost before = args.deep_view();
    push_word(&mut args, "--limit");
    push_number(&mut args, rows as u128);
    assert(args.deep_view() =~= before + seq!["--limit"@, decimal(rows as nat)]);
    args
}

/// The answer of the history program, once parsed.
#[derive(Clone, Debug, PartialEq, Eq)]
pub struct SearchResponse {
    pub ok: bool,
    pub result: Option<Vec<SearchHit>>,
    pub error: Option<String>,
}

/// Why a search came to nothing.
#[derive(Clone, Debug, PartialEq, Eq)]
pub enum SearchError {
    /// The history program failed; the text is its own account of it.
    ToolFailed(String),
    /// The history program's answer has not the expected form.
    InvalidResponse,
}

impl SearchError {
    /// The failure as a sequence of characters.
    pub open spec fn describe(self) -> Seq<char> {
        match self {
            SearchError::ToolFailed(text) => text@,
            SearchError::InvalidResponse => UNREADABLE_ANSWER@,
        }
    }

    /// The failure in words.
    pub fn message(&self) -> (text: String)
        ensures
            text@ == self.describe(),
    {
        match self {
            SearchError::ToolFailed(text) => text.clone(),
            SearchError::InvalidResponse => UNREADABLE_ANSWER.to_string(),
        }
    }
}

/// What a run of the history program amounts to.
pub enum Outcome {
    /// These hits, in this order.
    Hits(Seq<SearchHit>),
    /// A failure of the program, in these words.
    ToolFailed(Seq<char>),
    /// An answer that has not the expected form.
    InvalidResponse,
}

/// What a run of the history program amounts to: a failure with the
/// program's error output where it exited with failure, whatever it
/// printed; an invalid response where what it printed could not be parsed;
/// a failure in the answer's own words, or in general ones, where the
/// answer says that it is not in order; else the answer's hits, none where
/// it names none.
pub open spec fn outcome_of(
    exited_ok: bool,
    stderr: Seq<char>,
    parsed: Option<SearchResponse>,
) -> Outcome {
    if !exited_ok {
        Outcome::ToolFailed(SEARCH_FAILED_WITH@ + stderr)
    } else {
        match parsed {
            None => Outcome::InvalidResponse,
            Some(response) => if !response.ok {
                match response.error {
                    Some(text) => Outcome::ToolFailed(text@),
                    None => Outcome::ToolFailed(SEARCH_FAILED@),
                }
            } else {
                match response.result {
                    Some(hits) => Outcome::Hits(hits@),
                    None => Outcome::Hits(Seq::empty()),
                }
            },
        }
    }
}

/// A result of `read_response` as an `Outcome`.
pub open spec fn outcome_view(r: Result<Vec<SearchHit>, SearchError>) -> Outcome {
    match r {
        Ok(hits) => Outcome::Hits(hits@),
        Err(SearchError::ToolFailed(text)) => Outcome::ToolFailed(text@),
        Err(SearchError::InvalidResponse) => Outcome::InvalidResponse,
    }
}

/// Reads a run of the history program: `exited_ok` tells whether it exited
/// with success, `stderr` holds its error output, and `parsed` its
/// standard output as parsed, or nothing where that could not be parsed.
pub fn read_response(exited_ok: bool, stderr: &str, parsed: Option<SearchResponse>) -> (r: Result<
    Vec<SearchHit>,
    SearchError,
>)
    ensures
        outcome_view(r) == outcome_of(exited_ok, stderr@, parsed),
{
    if !exited_ok {
        let mut text = SEARCH_FAILED_WITH.to_string();
        push_text(&mut text, stderr);
        return Err(SearchError::ToolFailed(text));
    }
    match parsed {
        None => Err(SearchError::InvalidResponse),
        Some(response) => {
            if !response.ok {
                match response.error {
                    Some(text) => Err(SearchError::ToolFailed(text)),
                    None => Err(SearchError::ToolFailed(SEARCH_FAILED.to_string())),
                }
            } else {
                match response.result {
                    Some(hits) => Ok(hits),
                    None => Ok(Vec::new()),
                }
            }
        },
    }
}

/// What is kept of the hits: those that pass the session test and the
/// recency test, and of these the first `limit`.
pub open spec fn selected(
    hits: Seq<SearchHit>,
    session: Option<Seq<char>>,
    days: Option<u32>,
    limit: nat,
    now: Timestamp,
) -> Seq<SearchHit> {
    truncated(filtered(hits, session, days, now), limit)
}

/// Filters the hits against the clock reading `now`, then keeps the first
/// `limit` of the survivors.
pub fn select_hits_at(
    hits: Vec<SearchHit>,
    session: Option<&str>,
    days: Option<u32>,
    limit: usize,
    now: Timestamp,
) -> (kept: Vec<SearchHit>)
    ensures
        kept@ == selected(hits@, text_view(session), days, limit as nat, now),
{
    truncate(filter_hits_at(hits, session, days, now), limit)
}

/// Filters the hits against the clock as this call reads it, then keeps
/// the first `limit` of the survivors.
pub fn select_hits(hits: Vec<SearchHit>, session: Option<&str>, days: Option<u32>, limit: usize) -> (kept:
    Vec<SearchHit>)
    ensures
        exists|now: Timestamp|
            kept@ == #[trigger] selected(hits@, text_view(session), days, limit as nat, now),
        days is None ==> kept@ == truncated(
            hits@.filter(|h: SearchHit| session_matches(h, text_view(session))),
            limit as nat,
        ),
        kept@.len() <= limit,
{
    let ghost all = hits@;
    let survivors = filter_hits(hits, session, days);
    proof {
        let now = choose|now: Timestamp|
            survivors@ == #[trigger] filtered(all, text_view(session), days, now);
        assert(truncated(survivors@, limit as nat) == selected(
            all,
            text_view(session),
            days,
            limit as nat,
            now,
        ));
    }
    truncate(survivors, limit)
}

/// The arguments that the history program is to be run with for a
/// search: the scope is the workspace given, else `default`, unless all
/// workspaces are asked for; the rows are those of `fetch_limit`.
pub fn request_args(
    query: String,
    workspace: Option<String>,
    default: Option<String>,
    with_session: bool,
    limit: usize,
    all_workspaces: bool,
    include_tools: bool,
    include_system: bool,
    no_dedup: bool,
) -> (args: Vec<String>)
    ensures
        args.deep_view() == history_args(
            query@,
            search_scope(all_workspaces, string_view(workspace), string_view(default)),
            no_dedup,
            include_tools,
            include_system,
            rows_to_fetch(limit as nat, with_session),
        ),
{
    let scope = workspace_filter(all_workspaces, workspace, default);
    let rows = fetch_limit(limit, with_session);
    search_args(query, scope, no_dedup, include_tools, include_system, rows)
}

/// What a search comes to, `now` being the clock reading that the hits are
/// judged against: the failure of the run, or the hits of the answer,
/// filtered and then cut to the limit.
pub open spec fn search_result(
    exited_ok: bool,
    stderr: Seq<char>,
    parsed: Option<SearchResponse>,
    session: Option<Seq<char>>,
    days: Option<u32>,
    limit: nat,
    now: Timestamp,
) -> Outcome {
    match outcome_of(exited_ok, stderr, parsed) {
        Outcome::Hits(hits) => Outcome::Hits(selected(hits, session, days, limit, now)),
        failure => failure,
    }
}

/// Reads a run of the history program and keeps what the filters and the
/// limit leave of its hits, judged against the clock reading `now`.
pub fn search_hits_at(
    exited_ok: bool,
    stderr: &str,
    parsed: Option<SearchResponse>,
    session: Option<&str>,
    days: Option<u32>,
    limit: usize,
    now: Timestamp,
) -> (r: Result<Vec<SearchHit>, SearchError>)
    ensures
        outcome_view(r) == search_result(
            exited_ok,
            stderr@,
            parsed,
            text_view(session),
            days,
            limit as nat,
            now,
        ),
{
    match read_response(exited_ok, stderr, parsed) {
        Ok(hits) => Ok(select_hits_at(hits, session, days, limit, now)),
        Err(failure) => Err(failure),
    }
}

/// Reads a run of the history program and keeps what the filters and the
/// limit leave of its hits, judged against the clock as this call reads
/// it. A failure does not depend on the clock.
pub fn search_hits(
    exited_ok: bool,
    stderr: &str,
    parsed: Option<SearchResponse>,
    session: Option<&str>,
    days: Option<u32>,
    limit: usize,
) -> (r: Result<Vec<SearchHit>, SearchError>)
    ensures
        exists|now: Timestamp|
            outcome_view(r) == #[trigger] search_result(
                exited_ok,
                stderr@,
                parsed,
                text_view(session),
                days,
                limit as nat,
                now,
            ),
        r is Ok <==> outcome_of(exited_ok, stderr@, parsed) is Hits,
        r is Err ==> outcome_view(r) == outcome_of(exited_ok, stderr@, parsed),
        r matches Ok(kept) ==> kept@.len() <= limit,
{
    match read_response(exited_ok, stderr, parsed) {
        Ok(hits) => {
            let ghost all = hits@;
            let kept = select_hits(hits, session, days, limit);
            proof {
                let now = choose|now: Timestamp|
                    kept@ == #[trigger] selected(
                        all,
                        text_view(session),
                        days,
                        limit as nat,
                        now,
                    );
                assert(outcome_view(Ok(kept)) == search_result(
                    exited_ok,
                    stderr@,
                    parsed,
                    text_view(session),
                    days,
                    limit as nat,
                    now,
                ));
            }
            Ok(kept)
        },
        Err(failure) => {
            proof {
                let now = Timestamp { secs: 0, nanos: 0 };
                assert(outcome_view(Err(failure)) == search_result(
                    exited_ok,
                    stderr@,
                    parsed,
                    text_view(session),
                    days,
                    limit as nat,
                    now,
                ));
            }
            Err(failure)
        },
    }
}

} // verus!
