//! The toolkit's own section in the agents' instruction file: finding it,
//! taking it out, and putting it in once.

use crate::text::{
    chars_of,
    chars_range,
    contains,
    occurs_in,
    push_range,
    push_text,
    starts_with,
    text_view,
    trimmed_end,
    trimmed_end_len,
};
use vstd::prelude::*;

verus! {

/// The heading that opens the toolkit's section.
pub const SECTION_HEADING: &'static str = "## agntz";

/// What every heading of the second level begins with.
pub const HEADING_MARK: &'static str = "## ";

/// The first line of a new instruction file.
pub const FILE_TITLE: &'static str = "# Agent Instructions\n";

/// The toolkit's section, from the empty line before its heading to the end
/// of its last line.
pub const SECTION_TEXT: &'static str =
    "\n## agntz\n\nUse agntz for memory:\n\n```bash\nagntz memory search \"topic\"    # Find relevant context\nagntz memory add \"insight\" -c category\nagntz memory list\n```\n";

/// `line` without one carriage return at its end.
pub open spec fn without_carriage_return(line: Seq<char>) -> Seq<char> {
    if line.len() > 0 && line.last() == '\r' {
        line.drop_last()
    } else {
        line
    }
}

/// What follows the last line feed of `s`: the line that no line feed has
/// closed yet.
pub open spec fn open_line(s: Seq<char>) -> Seq<char>
    decreases s.len(),
{
    if s.len() == 0 || s.last() == '\n' {
        Seq::empty()
    } else {
        open_line(s.drop_last()).push(s.last())
    }
}

/// The lines of `s` that a line feed closes, each without the line feed and
/// without a carriage return before it.
pub open spec fn closed_lines(s: Seq<char>) -> Seq<Seq<char>>
    decreases s.len(),
{
    if s.len() == 0 {
        Seq::empty()
    } else if s.last() == '\n' {
        closed_lines(s.drop_last()).push(without_carriage_return(open_line(s.drop_last())))
    } else {
        closed_lines(s.drop_last())
    }
}

/// The lines of `s`: those that a line feed closes, and what follows the
/// last line feed where that is not empty.
pub open spec fn lines_of(s: Seq<char>) -> Seq<Seq<char>> {
    if open_line(s).len() == 0 {
        closed_lines(s)
    } else {
        closed_lines(s).push(open_line(s))
    }
}

/// The line opens the toolkit's section.
pub open spec fn opens_section(line: Seq<char>) -> bool {
    SECTION_HEADING@.is_prefix_of(line)
}

/// The line is a heading of the second level.
pub open spec fn is_heading(line: Seq<char>) -> bool {
    HEADING_MARK@.is_prefix_of(line)
}

/// The last of `lines` belongs to the toolkit's section: it opens the
/// section, or it is no heading of the second level and the line before it
/// belongs to the section.
pub open spec fn in_section(lines: Seq<Seq<char>>) -> bool
    decreases lines.len(),
{
    if lines.len() == 0 {
        false
    } else if opens_section(lines.last()) {
        true
    } else if is_heading(lines.last()) {
        false
    } else {
        in_section(lines.drop_last())
    }
}

/// The lines that do not belong to the toolkit's section, in order.
pub open spec fn outside_section(lines: Seq<Seq<char>>) -> Seq<Seq<char>>
    decreases lines.len(),
{
    if lines.len() == 0 {
        Seq::empty()
    } else if in_section(lines) {
        outside_section(lines.drop_last())
    } else {
        outside_section(lines.drop_last()).push(lines.last())
    }
}

/// The lines as one text, a line feed after each.
pub open spec fn joined_lines(lines: Seq<Seq<char>>) -> Seq<char>
    decreases lines.len(),
{
    if lines.len() == 0 {
        Seq::empty()
    } else {
        joined_lines(lines.drop_last()) + lines.last() + seq!['\n']
    }
}

/// `content` without the toolkit's section: the lines from the one that
/// opens it up to the next heading of the second level are left out, and
/// every line that stays ends in a line feed.
pub open spec fn without_section(content: Seq<char>) -> Seq<char> {
    joined_lines(outside_section(lines_of(content)))
}

/// What becomes of the instruction file.
#[derive(Clone, Debug, PartialEq, Eq)]
pub enum SectionUpdate {
    /// There was no file: it is written with these contents.
    Created(String),
    /// The file had no such section: it is written with these contents,
    /// which end in the section.
    Appended(String),
    /// The file had the section and a fresh one was asked for: it is
    /// written with these contents, the old section out and the new one at
    /// the end.
    Replaced(String),
    /// The file has the section and stays as it is.
    Unchanged,
}

/// What becomes of an instruction file with the contents `existing`, or of
/// none.
pub open spec fn section_update(existing: Option<Seq<char>>, force: bool) -> SectionUpdateView {
    match existing {
        None => SectionUpdateView::Created(FILE_TITLE@ + SECTION_TEXT@),
        Some(content) => if !occurs_in(content, SECTION_HEADING@) {
            SectionUpdateView::Appended(trimmed_end(content) + SECTION_TEXT@)
        } else if force {
            SectionUpdateView::Replaced(trimmed_end(without_section(content)) + SECTION_TEXT@)
        } else {
            SectionUpdateView::Unchanged
        },
    }
}

/// A `SectionUpdate` with its texts as character sequences.
pub enum SectionUpdateView {
    Created(Seq<char>),
    Appended(Seq<char>),
    Replaced(Seq<char>),
    Unchanged,
}

impl View for SectionUpdate {
    type V = SectionUpdateView;

    open spec fn view(&self) -> SectionUpdateView {
        match self {
            SectionUpdate::Created(t) => SectionUpdateView::Created(t@),
            SectionUpdate::Appended(t) => SectionUpdateView::Appended(t@),
            SectionUpdate::Replaced(t) => SectionUpdateView::Replaced(t@),
            SectionUpdate::Unchanged => SectionUpdateView::Unchanged,
        }
    }
}

/// The character sequences that the vectors hold.
pub open spec fn line_views(lines: Seq<Vec<char>>) -> Seq<Seq<char>> {
    lines.map_values(|line: Vec<char>| line@)
}

/// The lines of `content`.
pub fn split_lines(content: &str) -> (lines: Vec<Vec<char>>)
    ensures
        line_views(lines@) == lines_of(content@),
{
    let v = chars_of(content);
    let mut lines: Vec<Vec<char>> = Vec::new();
    let mut start: usize = 0;
    let mut i: usize = 0;
    assert(line_views(lines@) == closed_lines(v@.take(0)));
    assert(v@.subrange(0, 0) == open_line(v@.take(0)));
    while i < v.len()
        invariant
            start <= i <= v.len(),
            line_views(lines@) == closed_lines(v@.take(i as int)),
            v@.subrange(start as int, i as int) == open_line(v@.take(i as int)),
        decreases v.len() - i,
    {
        proof {
            assert(v@.take(i + 1).drop_last() == v@.take(i as int));
        }
        if v[i] == '\n' {
            let end: usize = if i > start && v[i - 1] == '\r' {
                i - 1
            } else {
                i
            };
            let line = chars_range(&v, start, end);
            let ghost before = line_views(lines@);
            assert(line@ == without_carriage_return(open_line(v@.take(i as int)))) by {
                let open = v@.subrange(start as int, i as int);
                if i > start && v@[i - 1] == '\r' {
                    assert(open.last() == '\r');
                    assert(open.drop_last() == v@.subrange(start as int, i - 1));
                }
            }
            lines.push(line);
            assert(line_views(lines@) == before.push(line@));
            start = i + 1;
            assert(v@.subrange(start as int, i + 1) == Seq::<char>::empty());
        } else {
            assert(v@.subrange(start as int, i + 1) == v@.subrange(start as int, i as int).push(
                v@[i as int],
            ));
        }
        i += 1;
    }
    assert(v@.take(v@.len() as int) == v@);
    if start < v.len() {
        let line = chars_range(&v, start, v.len());
        let ghost before = line_views(lines@);
        lines.push(line);
        assert(line_views(lines@) == before.push(line@));
    }
    lines
}

/// Takes the toolkit's section out of `content`.
pub fn remove_agntz_section(content: &str) -> (result: String)
    ensures
        result@ == without_section(content@),
{
    let lines = split_lines(content);
    let heading = chars_of(SECTION_HEADING);
    let mark = chars_of(HEADING_MARK);
    let mut result = String::new();
    let mut inside = false;
    let ghost all = line_views(lines@);
    let mut i: usize = 0;
    assert(all.take(0) == Seq::<Seq<char>>::empty());
    while i < lines.len()
        invariant
            i <= lines.len(),
            all == line_views(lines@),
            heading@ == SECTION_HEADING@,
            mark@ == HEADING_MARK@,
            inside == in_section(all.take(i as int)),
            result@ == joined_lines(outside_section(all.take(i as int))),
        decreases lines.len() - i,
    {
        let line = &lines[i];
        proof {
            assert(all.take(i + 1).drop_last() == all.take(i as int));
            assert(all.take(i + 1).last() == line@);
        }
        if starts_with(line, &heading) {
            inside = true;
        } else {
            if inside && starts_with(line, &mark) {
                inside = false;
            }
            if !inside {
                let ghost before = outside_section(all.take(i as int));
                assert(before.push(line@).drop_last() == before);
                push_range(&mut result, line, 0, line.len());
                assert(line@.subrange(0, line@.len() as int) == line@);
                result.push('\n');
                assert(result@ == joined_lines(before) + line@ + seq!['\n']);
            }
        }
        i += 1;
    }
    assert(all.take(all.len() as int) == all);
    result
}

/// Decides what becomes of the instruction file: `existing` holds its
/// contents, or nothing where there is no file; `force` asks for a fresh
/// section where there is one already.
pub fn update_section(existing: Option<&str>, force: bool) -> (update: SectionUpdate)
    ensures
        update@ == section_update(text_view(existing), force),
{
    match existing {
        None => {
            let mut text = String::new();
            push_text(&mut text, FILE_TITLE);
            push_text(&mut text, SECTION_TEXT);
            assert(Seq::<char>::empty() + FILE_TITLE@ == FILE_TITLE@);
            SectionUpdate::Created(text)
        },
        Some(content) => {
            if !contains(content, SECTION_HEADING) {
                SectionUpdate::Appended(with_section_at_end(content))
            } else if force {
                let cleared = remove_agntz_section(content);
                SectionUpdate::Replaced(with_section_at_end(cleared.as_str()))
            } else {
                SectionUpdate::Unchanged
            }
        },
    }
}

/// `content` without the white space at its end, and the section after it.
pub fn with_section_at_end(content: &str) -> (text: String)
    ensures
        text@ == trimmed_end(content@) + SECTION_TEXT@,
{
    let v = chars_of(content);
    let n = trimmed_end_len(&v, 0);
    assert(v@.skip(0) == v@);
    let mut text = String::new();
    push_range(&mut text, &v, 0, n);
    push_text(&mut text, SECTION_TEXT);
    assert(Seq::<char>::empty() + v@.subrange(0, n as int) == v@.subrange(0, n as int));
    text
}

/// No line opens the section once the section is out, and taking it out a
/// second time changes nothing.
pub proof fn lemma_section_is_gone(lines: Seq<Seq<char>>)
    ensures
        forall|k: int|
            0 <= k < outside_section(lines).len() ==> !opens_section(
                #[trigger] outside_section(lines)[k],
            ),
        outside_section(outside_section(lines)) == outside_section(lines),
        !in_section(outside_section(lines)),
    decreases lines.len(),
{
    if lines.len() > 0 {
        lemma_section_is_gone(lines.drop_last());
        if !in_section(lines) {
            let kept = outside_section(lines.drop_last());
            assert(kept.push(lines.last()).drop_last() == kept);
        }
    }
}

/// A section that ends a list of lines is taken out whole: where the first
/// of its lines opens it and none of the others is another heading of the
/// second level, what is left is what is left of the lines before it.
pub proof fn lemma_section_at_end_is_removed(lines: Seq<Seq<char>>, section: Seq<Seq<char>>)
    requires
        section.len() > 0,
        opens_section(section[0]),
        forall|k: int|
            1 <= k < section.len() ==> !is_heading(#[trigger] section[k]) || opens_section(
                section[k],
            ),
    ensures
        in_section(lines + section),
        outside_section(lines + section) == outside_section(lines),
    decreases section.len(),
{
    let all = lines + section;
    if section.len() == 1 {
        assert(all.drop_last() == lines);
    } else {
        let front = section.drop_last();
        assert(all.drop_last() == lines + front);
        assert(front[0] == section[0]);
        assert forall|k: int| 1 <= k < front.len() implies !is_heading(#[trigger] front[k])
            || opens_section(front[k]) by {
            assert(front[k] == section[k]);
        }
        lemma_section_at_end_is_removed(lines, front);
        assert(all.last() == section[section.len() - 1]);
    }
}

/// A list of lines that holds no opening line is left as it is.
pub proof fn lemma_nothing_to_remove(lines: Seq<Seq<char>>)
    requires
        forall|k: int| 0 <= k < lines.len() ==> !opens_section(#[trigger] lines[k]),
    ensures
        !in_section(lines),
        outside_section(lines) == lines,
    decreases lines.len(),
{
    if lines.len() > 0 {
        lemma_nothing_to_remove(lines.drop_last());
        assert(lines.drop_last().push(lines.last()) == lines);
    }
}

} // verus!
