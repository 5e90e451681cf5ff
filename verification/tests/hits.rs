use agntz::filter::{filter_hits, filter_hits_at, hit_in_session, hit_passes, truncate};
use agntz::hit::SearchHit;
use agntz::render::{
    collapse_whitespace, compact_label, compact_snippet, last_segment_of, render_compact,
    render_line,
};
use agntz::search::{select_hits, select_hits_at};
use agntz::text::text_of;
use agntz::time::Timestamp;

fn at(secs: i64) -> Timestamp {
    Timestamp { secs, nanos: 0 }
}

fn hit(id: &str, conversation: &str) -> SearchHit {
    SearchHit {
        message_id: id.to_string(),
        conversation_id: conversation.to_string(),
        message_idx: 0,
        role: "user".to_string(),
        content: "content".to_string(),
        snippet: "snippet".to_string(),
        created_at: None,
        conv_created_at: at(1_000_000),
        conv_updated_at: None,
        score_bits: 0.5f32.to_bits(),
        source_id: "s1".to_string(),
        external_id: None,
        title: None,
        workspace: None,
        source_adapter: "adapter".to_string(),
        source_path: None,
        host: None,
    }
}

fn ids(hits: &Vec<SearchHit>) -> Vec<String> {
    hits.iter().map(|h| h.message_id.clone()).collect()
}

const DAY: i64 = 86_400;

#[test]
fn truncate_to_zero_is_empty() {
    let hits = vec![hit("a", "c1"), hit("b", "c1"), hit("c", "c2")];
    assert_eq!(truncate(hits, 0), Vec::<SearchHit>::new());
    assert_eq!(truncate(Vec::new(), 0), Vec::<SearchHit>::new());
}

#[test]
fn truncate_keeps_the_first() {
    let hits = vec![hit("a", "c1"), hit("b", "c1"), hit("c", "c2")];
    assert_eq!(ids(&truncate(hits.clone(), 2)), vec!["a", "b"]);
    assert_eq!(ids(&truncate(hits.clone(), 3)), vec!["a", "b", "c"]);
    assert_eq!(ids(&truncate(hits.clone(), 10)), vec!["a", "b", "c"]);
    assert_eq!(ids(&truncate(hits, usize::MAX)), vec!["a", "b", "c"]);
}

#[test]
fn filtered_and_truncated_is_within_the_limit() {
    let mut hits = Vec::new();
    let mut i = 0;
    while i < 30 {
        hits.push(hit(&format!("m{}", i), if i % 3 == 0 { "keep" } else { "drop" }));
        i += 1;
    }
    let mut limit = 0;
    while limit < 15 {
        let kept = select_hits_at(hits.clone(), Some("keep"), None, limit, at(0));
        assert!(kept.len() <= limit);
        assert_eq!(kept.len(), if limit < 10 { limit } else { 10 });
        limit += 1;
    }
}

#[test]
fn filter_is_stable() {
    let mut hits = Vec::new();
    let order = ["m5", "m1", "m9", "m3", "m7", "m2", "m8"];
    for (i, id) in order.iter().enumerate() {
        hits.push(hit(id, if i % 2 == 0 { "even" } else { "odd" }));
    }
    let kept = filter_hits_at(hits.clone(), Some("even"), None, at(0));
    assert_eq!(ids(&kept), vec!["m5", "m9", "m7", "m8"]);
    let kept = filter_hits_at(hits.clone(), Some("odd"), None, at(0));
    assert_eq!(ids(&kept), vec!["m1", "m3", "m2"]);
    let kept = filter_hits_at(hits.clone(), None, None, at(0));
    assert_eq!(kept, hits);
}

#[test]
fn session_filter_by_external_id() {
    let mut h = hit("a", "some-other-conversation");
    h.external_id = Some("X".to_string());
    assert!(hit_in_session(&h, "X"));
    let kept = filter_hits_at(vec![h.clone()], Some("X"), None, at(0));
    assert_eq!(kept, vec![h]);
}

#[test]
fn session_filter_by_conversation_id() {
    let h = hit("a", "Y");
    assert!(h.external_id.is_none());
    assert!(hit_in_session(&h, "Y"));
    let kept = filter_hits_at(vec![h.clone()], Some("Y"), None, at(0));
    assert_eq!(kept, vec![h]);
}

#[test]
fn session_filter_by_source_path() {
    let mut h = hit("a", "c1");
    h.source_path = Some("/var/sessions/run-42/log.jsonl".to_string());
    assert!(hit_in_session(&h, "run-42"));
    assert!(!hit_in_session(&h, "run-43"));
    let mut other = hit("b", "c1");
    other.external_id = Some("e9".to_string());
    assert!(!hit_in_session(&other, "e"));
    assert!(!hit_in_session(&other, "c"));
    let kept = filter_hits_at(vec![h.clone(), other], Some("run-42"), None, at(0));
    assert_eq!(kept, vec![h]);
}

#[test]
fn session_filter_drops_what_does_not_match() {
    let mut a = hit("a", "c1");
    a.external_id = Some("other".to_string());
    a.source_path = Some("/nowhere".to_string());
    let kept = filter_hits_at(vec![a], Some("c2"), None, at(0));
    assert_eq!(kept, Vec::<SearchHit>::new());
}

#[test]
fn zero_days_against_a_fixed_clock() {
    let now = Timestamp { secs: 1_700_000_000, nanos: 500 };
    let mut exactly = hit("now", "c");
    exactly.created_at = Some(now);
    let mut just_before = hit("before", "c");
    just_before.created_at = Some(Timestamp { secs: 1_700_000_000, nanos: 499 });
    let mut just_after = hit("after", "c");
    just_after.created_at = Some(Timestamp { secs: 1_700_000_000, nanos: 501 });
    let mut second_before = hit("second", "c");
    second_before.created_at = Some(Timestamp { secs: 1_699_999_999, nanos: 999_999_999 });
    let hits = vec![exactly, just_before, just_after, second_before];
    let kept = filter_hits_at(hits.clone(), None, Some(0), now);
    assert_eq!(ids(&kept), vec!["now", "after"]);
    let again = filter_hits_at(hits, None, Some(0), now);
    assert_eq!(kept, again);
}

#[test]
fn recency_goes_by_the_effective_timestamp() {
    let now = at(100 * DAY);
    let mut by_created = hit("created", "c");
    by_created.created_at = Some(at(99 * DAY));
    by_created.conv_updated_at = Some(at(1));
    by_created.conv_created_at = at(1);
    let mut by_updated = hit("updated", "c");
    by_updated.created_at = None;
    by_updated.conv_updated_at = Some(at(99 * DAY));
    by_updated.conv_created_at = at(1);
    let mut by_conversation = hit("conversation", "c");
    by_conversation.conv_created_at = at(99 * DAY);
    let mut old_created = hit("old-created", "c");
    old_created.created_at = Some(at(1));
    old_created.conv_updated_at = Some(at(99 * DAY));
    old_created.conv_created_at = at(99 * DAY);
    let mut old_updated = hit("old-updated", "c");
    old_updated.conv_updated_at = Some(at(1));
    old_updated.conv_created_at = at(99 * DAY);
    let hits = vec![by_created, by_updated, by_conversation, old_created, old_updated];
    let kept = filter_hits_at(hits, None, Some(2), now);
    assert_eq!(ids(&kept), vec!["created", "updated", "conversation"]);
}

#[test]
fn cutoff_is_whole_days_before_now() {
    let now = Timestamp { secs: 10 * DAY + 5, nanos: 7 };
    let mut on_cutoff = hit("on", "c");
    on_cutoff.created_at = Some(Timestamp { secs: 7 * DAY + 5, nanos: 7 });
    let mut under = hit("under", "c");
    under.created_at = Some(Timestamp { secs: 7 * DAY + 5, nanos: 6 });
    assert!(hit_passes(&on_cutoff, None, Some(3), &now));
    assert!(!hit_passes(&under, None, Some(3), &now));
    assert!(hit_passes(&under, None, Some(4), &now));
    assert!(hit_passes(&under, None, None, &now));
    assert!(hit_passes(&under, None, Some(u32::MAX), &now));
    let far = Timestamp { secs: i64::MIN, nanos: 0 };
    let mut oldest = hit("oldest", "c");
    oldest.created_at = Some(far);
    assert!(!hit_passes(&oldest, None, Some(u32::MAX), &now));
    assert!(hit_passes(&oldest, None, Some(0), &far));
}

#[test]
fn filter_reads_the_clock() {
    let mut long_ago = hit("1970", "c");
    long_ago.conv_created_at = at(0);
    let mut far_ahead = hit("ahead", "c");
    far_ahead.conv_created_at = at(40_000_000_000);
    let hits = vec![long_ago.clone(), far_ahead.clone()];
    assert_eq!(ids(&filter_hits(hits.clone(), None, Some(1))), vec!["ahead"]);
    assert_eq!(ids(&filter_hits(hits.clone(), None, Some(0))), vec!["ahead"]);
    assert_eq!(ids(&filter_hits(hits.clone(), None, None)), vec!["1970", "ahead"]);
    assert_eq!(ids(&filter_hits(hits.clone(), Some("c"), None)), vec!["1970", "ahead"]);
    assert_eq!(ids(&filter_hits(hits.clone(), Some("d"), None)), Vec::<String>::new());
    assert_eq!(ids(&select_hits(hits.clone(), None, None, 1)), vec!["1970"]);
    assert_eq!(ids(&select_hits(hits, None, Some(1), 5)), vec!["ahead"]);
}

#[test]
fn the_limit_applies_after_the_filter() {
    let hits = vec![hit("a", "x"), hit("b", "y"), hit("c", "x"), hit("d", "y"), hit("e", "y")];
    let kept = select_hits_at(hits, Some("y"), None, 2, at(0));
    assert_eq!(ids(&kept), vec!["b", "d"]);
}

#[test]
fn no_hits_render_as_one_line() {
    assert_eq!(render_compact(&Vec::new()), vec!["No results found."]);
}

#[test]
fn long_snippet_is_cut_to_160() {
    let snippet: String = (0..200).map(|i| char::from(b'a' + (i % 26) as u8)).collect();
    let shown = compact_snippet(&snippet, 160);
    assert_eq!(shown.chars().count(), 160);
    assert_eq!(shown, format!("{}...", &snippet[..157]));
}

#[test]
fn title_at_the_limit() {
    let forty: String = (0..40).map(|i| char::from(b'A' + (i % 26) as u8)).collect();
    let forty_one: String = (0..41).map(|i| char::from(b'A' + (i % 26) as u8)).collect();
    assert_eq!(compact_label(&forty, 40), forty);
    assert_eq!(compact_label(&forty_one, 40), format!("{}...", &forty_one[..37]));
    let mut h = hit("a", "c1");
    h.title = Some(forty.clone());
    assert!(render_line(&h).contains(&format!(" {} - ", forty)));
    h.title = Some(forty_one.clone());
    assert!(render_line(&h).contains(&format!(" {}... - ", &forty_one[..37])));
}

#[test]
fn labels_of_small_limits() {
    assert_eq!(compact_label("abcdef", 6), "abcdef");
    assert_eq!(compact_label("abcdef", 5), "ab...");
    assert_eq!(compact_label("abcdef", 3), "...");
    assert_eq!(compact_label("abcdef", 2), "...");
    assert_eq!(compact_label("abcdef", 0), "...");
    assert_eq!(compact_label("", 0), "");
    assert_eq!(compact_label("äöüßéè", 5), "äö...");
}

#[test]
fn snippet_white_space_is_collapsed() {
    assert_eq!(compact_snippet("  multiple   spaces   here  ", 160), "multiple spaces here");
    assert_eq!(compact_snippet("a\n\tb\r\nc", 160), "a b c");
    assert_eq!(compact_snippet("   ", 160), "");
    assert_eq!(compact_snippet("", 160), "");
    assert_eq!(compact_snippet("one two three", 9), "one tw...");
}

#[test]
fn collapsing_agrees_with_split_and_join() {
    let samples = [
        "",
        " ",
        "a",
        " a",
        "a ",
        "a b",
        "a  b",
        "\ta\nb\r\nc ",
        "x\u{a0}y\u{2003}z",
        "  leading and trailing  ",
        "ab  cd   ef g",
    ];
    for s in samples.iter() {
        let want = s.split_whitespace().collect::<Vec<_>>().join(" ");
        assert_eq!(text_of(&collapse_whitespace(s)), want, "{:?}", s);
    }
}

#[test]
fn last_segment_of_a_path() {
    assert_eq!(last_segment_of("/home/u/myrepo", '/'), "myrepo");
    assert_eq!(last_segment_of("myrepo", '/'), "myrepo");
    assert_eq!(last_segment_of("/home/u/myrepo/", '/'), "");
    assert_eq!(last_segment_of("", '/'), "");
    assert_eq!(last_segment_of("/", '/'), "");
    for s in ["a/b/c", "/x", "x/", "//", "plain", ""].iter() {
        assert_eq!(last_segment_of(s, '/'), s.split('/').last().unwrap());
    }
}

#[test]
fn scenario_one_compact_line() {
    let h = SearchHit {
        message_id: "m1".to_string(),
        conversation_id: "c1".to_string(),
        message_idx: 3,
        role: "user".to_string(),
        content: "the whole message".to_string(),
        snippet: "  multiple   spaces   here  ".to_string(),
        created_at: None,
        conv_created_at: at(1_700_000_000),
        conv_updated_at: None,
        score_bits: 0.8732f32.to_bits(),
        source_id: "s1".to_string(),
        external_id: None,
        title: Some("A very long title that goes on and on and on".to_string()),
        workspace: Some("/home/u/myrepo".to_string()),
        source_adapter: "adapter".to_string(),
        source_path: None,
        host: None,
    };
    let kept = select_hits_at(vec![h], None, None, 10, at(1_700_000_000));
    let lines = render_compact(&kept);
    assert_eq!(lines.len(), 1);
    assert!(lines[0].starts_with(" 0.87 s1 user c1 #3 myrepo A very long title that goes on and on..."));
    assert!(lines[0].ends_with(" - multiple spaces here"));
    assert_eq!(
        lines[0],
        " 0.87 s1 user c1 #3 myrepo A very long title that goes on and on... - multiple spaces here"
    );
}

#[test]
fn lines_show_the_effective_session_and_defaults() {
    let mut h = hit("m", "conv");
    h.external_id = Some("ext".to_string());
    h.message_idx = -2;
    h.score_bits = 12.5f32.to_bits();
    assert_eq!(render_line(&h), "12.50 s1 user ext #-2 - Untitled - snippet");
    h.external_id = None;
    h.workspace = Some("repo".to_string());
    h.title = Some("T".to_string());
    assert_eq!(render_line(&h), "12.50 s1 user conv #-2 repo T - snippet");
    let lines = render_compact(&vec![h.clone(), h.clone()]);
    assert_eq!(lines.len(), 2);
    assert_eq!(lines[0], lines[1]);
}

#[test]
fn effective_timestamp_and_session() {
    let mut h = hit("m", "conv");
    assert_eq!(h.timestamp(), at(1_000_000));
    assert_eq!(h.session(), "conv");
    h.conv_updated_at = Some(at(2));
    assert_eq!(h.timestamp(), at(2));
    h.created_at = Some(at(3));
    assert_eq!(h.timestamp(), at(3));
    h.external_id = Some("ext".to_string());
    assert_eq!(h.session(), "ext");
}
