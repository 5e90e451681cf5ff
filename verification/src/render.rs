//! The compact one-line form of a hit.

use crate::hit::SearchHit;
use crate::score::{render_score, score_field};
use crate::text::{
    chars_of,
    is_space,
    is_whitespace,
    lemma_words,
    push_text,
    signed_decimal,
    signed_decimal_text,
    spaced,
    text_of,
    text_of_range,
    words,
};
use vstd::prelude::*;

verus! {

/// Three full stops, which mark a text as cut short.
pub open spec fn ellipsis() -> Seq<char> {
    seq!['.', '.', '.']
}

/// `s` fitted to `max_len` characters: `s` itself where it is short enough,
/// else its first `max_len - 3` characters (none where `max_len` is below
/// three) and the ellipsis.
pub open spec fn compacted(s: Seq<char>, max_len: nat) -> Seq<char> {
    if s.len() <= max_len {
        s
    } else if max_len >= 3 {
        s.take(max_len - 3) + ellipsis()
    } else {
        ellipsis()
    }
}

/// `s` with every run of white space between two words replaced by one
/// space, and the white space before the first word and after the last
/// removed. Said of `s` with one more character `c` at its end: a white
/// space adds nothing; a `c` that opens the first word or goes on with a
/// word is appended; a `c` that opens a later word is appended after one
/// space.
pub open spec fn collapsed(s: Seq<char>) -> Seq<char>
    decreases s.len(),
{
    if s.len() == 0 {
        s
    } else {
        let before = collapsed(s.drop_last());
        let c = s.last();
        if is_space(c) {
            before
        } else if before.len() == 0 || (s.len() >= 2 && !is_space(s[s.len() - 2])) {
            before.push(c)
        } else {
            before.push(' ').push(c)
        }
    }
}

/// The position of the last `c` in `s`, or -1 where `s` holds none.
pub open spec fn last_index_of(s: Seq<char>, c: char) -> int
    decreases s.len(),
{
    if s.len() == 0 {
        -1
    } else if s.last() == c {
        s.len() - 1
    } else {
        last_index_of(s.drop_last(), c)
    }
}

/// What follows the last `sep` in `s`; all of `s` where it holds none.
pub open spec fn last_segment(s: Seq<char>, sep: char) -> Seq<char> {
    s.skip(last_index_of(s, sep) + 1)
}

/// The title as shown: `Untitled` where the hit has none, fitted to forty
/// characters.
pub open spec fn title_field(title: Option<String>) -> Seq<char> {
    match title {
        Some(t) => compacted(t@, 40),
        None => compacted("Untitled"@, 40),
    }
}

/// The snippet as shown: white space collapsed, then fitted to one hundred
/// and sixty characters.
pub open spec fn snippet_field(snippet: Seq<char>) -> Seq<char> {
    compacted(collapsed(snippet), 160)
}

/// The workspace as shown: the last segment of its path, `-` where the hit
/// has none.
pub open spec fn workspace_field(workspace: Option<String>) -> Seq<char> {
    match workspace {
        Some(w) => last_segment(w@, '/'),
        None => "-"@,
    }
}

/// The line for one hit: score, source, role, session, `#` and the message's
/// position, workspace, title, ` - `, snippet; one space between two
/// fields.
pub open spec fn compact_line(hit: SearchHit) -> Seq<char> {
    score_field(hit.score_bits) + seq![' '] + hit.source_id@ + seq![' '] + hit.role@ + seq![' ']
        + hit.effective_session() + seq![' ', '#'] + signed_decimal(hit.message_idx as int)
        + seq![' '] + workspace_field(hit.workspace) + seq![' '] + title_field(hit.title) + seq![
        ' ',
        '-',
        ' ',
    ] + snippet_field(hit.snippet@)
}

/// The lines for a list of hits: one for each hit, in order; for no hit at
/// all the one line `No results found.`.
pub open spec fn compact_lines(hits: Seq<SearchHit>) -> Seq<Seq<char>> {
    if hits.len() == 0 {
        seq!["No results found."@]
    } else {
        Seq::new(hits.len(), |i: int| compact_line(hits[i]))
    }
}

/// `i` is the position after the last `c` of `s`, or 0 where `s` holds
/// none.
proof fn lemma_last_index(s: Seq<char>, c: char, i: int)
    requires
        0 <= i <= s.len(),
        forall|j: int| i <= j < s.len() ==> s[j] != c,
        i == 0 || s[i - 1] == c,
    ensures
        last_index_of(s, c) == i - 1,
    decreases s.len() - i,
{
    if i < s.len() {
        lemma_last_index(s.drop_last(), c, i);
    }
}

/// The collapsed form of a text is its words with one space between each
/// two.
pub proof fn lemma_collapsed_is_spaced_words(s: Seq<char>)
    ensures
        collapsed(s) == spaced(words(s)),
        collapsed(s).len() == 0 <==> words(s).len() == 0,
    decreases s.len(),
{
    if s.len() > 0 {
        let front = s.drop_last();
        lemma_collapsed_is_spaced_words(front);
        lemma_words(front);
        lemma_words(s);
        let c = s.last();
        let before = words(front);
        if !is_space(c) {
            if s.len() >= 2 && !is_space(s[s.len() - 2]) {
                assert(front.last() == s[s.len() - 2]);
                let longer = before.drop_last().push(before.last().push(c));
                assert(longer.drop_last() == before.drop_last());
                if before.len() > 1 {
                    assert(spaced(longer) == (spaced(before.drop_last()) + seq![' ']
                        + before.last()).push(c));
                }
            } else {
                let more = before.push(seq![c]);
                assert(more.drop_last() == before);
                if before.len() > 0 {
                    assert(spaced(more) == spaced(before).push(' ').push(c));
                } else {
                    assert(collapsed(front).len() == 0);
                }
            }
        }
    }
}

/// For no hit at all there is the one line `No results found.`; else there
/// are as many lines as hits.
pub proof fn lemma_line_count(hits: Seq<SearchHit>)
    ensures
        hits.len() == 0 ==> compact_lines(hits) == seq!["No results found."@],
        hits.len() > 0 ==> compact_lines(hits).len() == hits.len(),
{
}

/// A text without white space is its own collapsed form.
pub proof fn lemma_collapsed_without_space(s: Seq<char>)
    requires
        forall|i: int| 0 <= i < s.len() ==> !is_space(s[i]),
    ensures
        collapsed(s) == s,
    decreases s.len(),
{
    if s.len() > 0 {
        lemma_collapsed_without_space(s.drop_last());
        assert(s.drop_last().push(s.last()) == s);
    }
}

/// A fitted text is no longer than the limit, for a limit of three or more.
pub proof fn lemma_compacted_fits(s: Seq<char>, max_len: nat)
    requires
        max_len >= 3,
    ensures
        compacted(s, max_len).len() <= max_len,
{
}

/// A text of exactly `max_len` characters is left as it is; one of
/// `max_len + 1` characters becomes its first `max_len - 3` characters and
/// the ellipsis.
pub proof fn lemma_compacted_at_the_limit(s: Seq<char>, max_len: nat)
    requires
        max_len >= 3,
    ensures
        s.len() == max_len ==> compacted(s, max_len) == s,
        s.len() == max_len + 1 ==> compacted(s, max_len) == s.take(max_len - 3) + ellipsis(),
{
}

/// A title of forty characters is shown as it is; one of forty-one as its
/// first thirty-seven characters and the ellipsis.
pub proof fn lemma_title_at_the_limit(title: String)
    ensures
        title@.len() == 40 ==> title_field(Some(title)) == title@,
        title@.len() == 41 ==> title_field(Some(title)) == title@.take(37) + ellipsis(),
{
}

/// A snippet of two hundred characters, none of them white space, is shown
/// as its first 157 characters and the ellipsis: 160 characters in all.
pub proof fn lemma_long_snippet(snippet: Seq<char>)
    requires
        snippet.len() == 200,
        forall|i: int| 0 <= i < snippet.len() ==> !is_space(snippet[i]),
    ensures
        snippet_field(snippet) == snippet.take(157) + ellipsis(),
        snippet_field(snippet).len() == 160,
{
    lemma_collapsed_without_space(snippet);
}

/// The characters of `s` with white space collapsed.
pub fn collapse_whitespace(s: &str) -> (out: Vec<char>)
    ensures
        out@ == collapsed(s@),
{
    let v = chars_of(s);
    let mut out: Vec<char> = Vec::new();
    let mut i: usize = 0;
    while i < v.len()
        invariant
            i <= v.len(),
            out@ == collapsed(v@.take(i as int)),
        decreases v.len() - i,
    {
        let c = v[i];
        proof {
            assert(v@.take(i + 1).drop_last() == v@.take(i as int));
        }
        if !is_whitespace(c) {
            if out.len() > 0 && i > 0 && is_whitespace(v[i - 1]) {
                out.push(' ');
            }
            out.push(c);
        }
        i += 1;
    }
    assert(v@.take(v@.len() as int) == v@);
    out
}

/// The text of `v` fitted to `max_len` characters.
pub fn compact_chars(v: &Vec<char>, max_len: usize) -> (r: String)
    ensures
        r@ == compacted(v@, max_len as nat),
{
    if v.len() <= max_len {
        text_of(v)
    } else {
        let keep: usize = if max_len >= 3 {
            max_len - 3
        } else {
            0
        };
        let mut r = text_of_range(v, 0, keep);
        r.push('.');
        r.push('.');
        r.push('.');
        assert(r@ == v@.take(keep as int) + ellipsis());
        assert(v@.take(0) + ellipsis() == ellipsis());
        r
    }
}

/// `value` fitted to `max_len` characters: unchanged where it is no longer
/// than that, else cut to `max_len - 3` characters with `...` appended.
pub fn compact_label(value: &str, max_len: usize) -> (r: String)
    ensures
        r@ == compacted(value@, max_len as nat),
{
    let v = chars_of(value);
    compact_chars(&v, max_len)
}

/// `snippet` with its white space collapsed, then fitted to `max_len`
/// characters.
pub fn compact_snippet(snippet: &str, max_len: usize) -> (r: String)
    ensures
        r@ == compacted(collapsed(snippet@), max_len as nat),
{
    let v = collapse_whitespace(snippet);
    compact_chars(&v, max_len)
}

/// What follows the last `sep` in `v`; all of `v` where it holds none.
pub fn last_segment_chars(v: &Vec<char>, sep: char) -> (r: String)
    ensures
        r@ == last_segment(v@, sep),
{
    let mut i: usize = v.len();
    while i > 0 && v[i - 1] != sep
        invariant
            i <= v.len(),
            forall|j: int| i <= j < v.len() ==> v@[j] != sep,
        decreases i,
    {
        i -= 1;
    }
    proof {
        lemma_last_index(v@, sep, i as int);
    }
    text_of_range(v, i, v.len())
}

/// What follows the last `sep` in `s`; all of `s` where it holds none.
pub fn last_segment_of(s: &str, sep: char) -> (r: String)
    ensures
        r@ == last_segment(s@, sep),
{
    let v = chars_of(s);
    last_segment_chars(&v, sep)
}

/// The line for one hit.
pub fn render_line(hit: &SearchHit) -> (line: String)
    ensures
        line@ == compact_line(*hit),
{
    let mut line = render_score(hit.score_bits);
    line.push(' ');
    push_text(&mut line, hit.source_id.as_str());
    line.push(' ');
    push_text(&mut line, hit.role.as_str());
    line.push(' ');
    push_text(&mut line, hit.session());
    line.push(' ');
    line.push('#');
    let idx = signed_decimal_text(hit.message_idx as i64);
    push_text(&mut line, idx.as_str());
    line.push(' ');
    let workspace = match &hit.workspace {
        Some(w) => last_segment_of(w.as_str(), '/'),
        None => "-".to_string(),
    };
    push_text(&mut line, workspace.as_str());
    line.push(' ');
    let title = match &hit.title {
        Some(t) => compact_label(t.as_str(), 40),
        None => compact_label("Untitled", 40),
    };
    push_text(&mut line, title.as_str());
    line.push(' ');
    line.push('-');
    line.push(' ');
    let snippet = compact_snippet(hit.snippet.as_str(), 160);
    push_text(&mut line, snippet.as_str());
    proof {
        let a = score_field(hit.score_bits) + seq![' '] + hit.source_id@ + seq![' '] + hit.role@
            + seq![' '] + hit.effective_session();
        assert(a.push(' ').push('#') == a + seq![' ', '#']);
        let b = a + seq![' ', '#'] + signed_decimal(hit.message_idx as int) + seq![' ']
            + workspace_field(hit.workspace) + seq![' '] + title_field(hit.title);
        assert(b.push(' ').push('-').push(' ') == b + seq![' ', '-', ' ']);
        assert(forall|s: Seq<char>, c: char| #[trigger] s.push(c) == s + seq![c]);
    }
    line
}

/// The lines for a list of hits: one for each hit, in order; for no hit at
/// all the one line `No results found.`.
pub fn render_compact(hits: &Vec<SearchHit>) -> (lines: Vec<String>)
    ensures
        lines.deep_view() == compact_lines(hits@),
        lines@.len() == compact_lines(hits@).len(),
{
    let mut lines: Vec<String> = Vec::new();
    if hits.len() == 0 {
        lines.push("No results found.".to_string());
        assert(lines.deep_view() == compact_lines(hits@));
        return lines;
    }
    let mut i: usize = 0;
    while i < hits.len()
        invariant
            i <= hits.len(),
            lines@.len() == i,
            forall|j: int| 0 <= j < i ==> (#[trigger] lines@[j])@ == compact_line(hits@[j]),
        decreases hits.len() - i,
    {
        lines.push(render_line(&hits[i]));
        i += 1;
    }
    assert(lines.deep_view() == compact_lines(hits@));
    lines
}

} // verus!
