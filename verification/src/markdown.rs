//! Memories written out as Markdown, a section for each category.

use crate::text::{decimal, push_decimal, push_range, push_text, same_text, trim, trimmed};
use vstd::prelude::*;

verus! {

/// One memory of an export: what it says, the category it is filed under,
/// and how much it matters.
#[derive(Clone, Debug, PartialEq, Eq)]
pub struct Memory {
    pub content: String,
    pub category: Option<String>,
    pub importance: Option<u8>,
}

/// The category of memories that name none.
pub const UNCATEGORIZED: &'static str = "uncategorized";

/// The first line of an export and the empty line after it.
pub const TITLE: &'static str = "# Memories\n\n";

/// The category that a memory is filed under.
pub open spec fn category_of(memory: Memory) -> Seq<char> {
    match memory.category {
        Some(c) => c@,
        None => UNCATEGORIZED@,
    }
}

/// The categories of the memories, each once, in the order in which they
/// first occur.
pub open spec fn categories(memories: Seq<Memory>) -> Seq<Seq<char>>
    decreases memories.len(),
{
    if memories.len() == 0 {
        Seq::empty()
    } else {
        let before = categories(memories.drop_last());
        let c = category_of(memories.last());
        if before.contains(c) {
            before
        } else {
            before.push(c)
        }
    }
}

/// The mark of a memory's importance: nothing where it has none.
pub open spec fn importance_mark(importance: Option<u8>) -> Seq<char> {
    match importance {
        Some(i) => " [i:"@ + decimal(i as nat) + "]"@,
        None => Seq::empty(),
    }
}

/// The line of one memory: a list item with the content, free of white
/// space around it, and the mark of its importance.
pub open spec fn memory_line(memory: Memory) -> Seq<char> {
    "- "@ + trimmed(memory.content@) + importance_mark(memory.importance) + "\n"@
}

/// The lines of the memories filed under `category`, in order.
pub open spec fn category_lines(memories: Seq<Memory>, category: Seq<char>) -> Seq<char>
    decreases memories.len(),
{
    if memories.len() == 0 {
        Seq::empty()
    } else if category_of(memories.last()) == category {
        category_lines(memories.drop_last(), category) + memory_line(memories.last())
    } else {
        category_lines(memories.drop_last(), category)
    }
}

/// The section of one category: its heading, an empty line, the lines of
/// its memories, and an empty line.
pub open spec fn category_section(memories: Seq<Memory>, category: Seq<char>) -> Seq<char> {
    "## "@ + category + "\n\n"@ + category_lines(memories, category) + "\n"@
}

/// The sections of the categories named, in order.
pub open spec fn sections(memories: Seq<Memory>, named: Seq<Seq<char>>) -> Seq<char>
    decreases named.len(),
{
    if named.len() == 0 {
        Seq::empty()
    } else {
        sections(memories, named.drop_last()) + category_section(memories, named.last())
    }
}

/// The memories as Markdown: the title, then a section for each category
/// in the order in which the categories first occur.
pub open spec fn markdown(memories: Seq<Memory>) -> Seq<char> {
    TITLE@ + sections(memories, categories(memories))
}

/// The category that the memory is filed under.
pub fn category(memory: &Memory) -> (name: &str)
    ensures
        name@ == category_of(*memory),
{
    match &memory.category {
        Some(c) => c.as_str(),
        None => UNCATEGORIZED,
    }
}

/// Whether `name` is among `names`.
fn is_among(names: &Vec<String>, name: &str) -> (r: bool)
    ensures
        r == names.deep_view().contains(name@),
{
    let mut i: usize = 0;
    while i < names.len()
        invariant
            i <= names.len(),
            forall|k: int| 0 <= k < i ==> names.deep_view()[k] != name@,
        decreases names.len() - i,
    {
        if same_text(names[i].as_str(), name) {
            assert(names.deep_view()[i as int] == name@);
            return true;
        }
        i += 1;
    }
    false
}

/// The categories of the memories, each once, in the order in which they
/// first occur.
pub fn list_categories(memories: &Vec<Memory>) -> (names: Vec<String>)
    ensures
        names.deep_view() == categories(memories@),
{
    let mut names: Vec<String> = Vec::new();
    let mut i: usize = 0;
    assert(names.deep_view() =~= categories(memories@.take(0)));
    while i < memories.len()
        invariant
            i <= memories.len(),
            names.deep_view() == categories(memories@.take(i as int)),
        decreases memories.len() - i,
    {
        assert(memories@.take(i + 1).drop_last() == memories@.take(i as int));
        let name = category(&memories[i]);
        if !is_among(&names, name) {
            let ghost before = names.deep_view();
            names.push(name.to_string());
            assert(names.deep_view() =~= before.push(name@));
        }
        i += 1;
    }
    assert(memories@.take(memories@.len() as int) == memories@);
    names
}

/// Appends the line of one memory.
fn push_memory_line(out: &mut String, memory: &Memory)
    ensures
        final(out)@ == old(out)@ + memory_line(*memory),
{
    push_text(out, "- ");
    let content = trim(memory.content.as_str());
    push_range(out, &content, 0, content.len());
    assert(content@.subrange(0, content@.len() as int) == content@);
    match memory.importance {
        Some(i) => {
            push_text(out, " [i:");
            push_decimal(out, i as u128);
            push_text(out, "]");
            assert(out@ =~= old(out)@ + "- "@ + trimmed(memory.content@) + (" [i:"@ + decimal(
                i as nat,
            ) + "]"@));
        },
        None => {
            assert(out@ =~= old(out)@ + "- "@ + trimmed(memory.content@) + Seq::<char>::empty());
        },
    }
    push_text(out, "\n");
    assert(out@ =~= old(out)@ + memory_line(*memory));
}

/// Appends the section of one category.
fn push_section(out: &mut String, memories: &Vec<Memory>, name: &str)
    ensures
        final(out)@ == old(out)@ + category_section(memories@, name@),
{
    push_text(out, "## ");
    push_text(out, name);
    push_text(out, "\n\n");
    let ghost head = out@;
    let mut i: usize = 0;
    assert(out@ =~= head + category_lines(memories@.take(0), name@));
    while i < memories.len()
        invariant
            i <= memories.len(),
            out@ == head + category_lines(memories@.take(i as int), name@),
        decreases memories.len() - i,
    {
        assert(memories@.take(i + 1).drop_last() == memories@.take(i as int));
        if same_text(category(&memories[i]), name) {
            push_memory_line(out, &memories[i]);
            assert(out@ =~= head + category_lines(memories@.take(i + 1), name@));
        }
        i += 1;
    }
    assert(memories@.take(memories@.len() as int) == memories@);
    push_text(out, "\n");
    assert(out@ =~= old(out)@ + category_section(memories@, name@));
}

/// The memories as Markdown.
pub fn render_markdown(memories: &Vec<Memory>) -> (text: String)
    ensures
        text@ == markdown(memories@),
{
    let names = list_categories(memories);
    let mut text = TITLE.to_string();
    let mut k: usize = 0;
    assert(text@ =~= TITLE@ + sections(memories@, names.deep_view().take(0)));
    while k < names.len()
        invariant
            k <= names.len(),
            names.deep_view() == categories(memories@),
            text@ == TITLE@ + sections(memories@, names.deep_view().take(k as int)),
        decreases names.len() - k,
    {
        let ghost all = names.deep_view();
        assert(all.take(k + 1).drop_last() == all.take(k as int));
        assert(all.take(k + 1).last() == names@[k as int]@);
        push_section(&mut text, memories, names[k].as_str());
        assert(text@ =~= TITLE@ + sections(memories@, all.take(k + 1)));
        k += 1;
    }
    assert(names.deep_view().take(names.deep_view().len() as int) == names.deep_view());
    text
}

/// Every memory is filed under one of the categories listed, and no
/// category is listed twice.
pub proof fn lemma_categories(memories: Seq<Memory>)
    ensures
        forall|i: int|
            0 <= i < memories.len() ==> categories(memories).contains(
                category_of(#[trigger] memories[i]),
            ),
        categories(memories).no_duplicates(),
    decreases memories.len(),
{
    if memories.len() > 0 {
        let front = memories.drop_last();
        lemma_categories(front);
        let before = categories(front);
        let now = categories(memories);
        let c = category_of(memories.last());
        assert forall|i: int| 0 <= i < memories.len() implies now.contains(
            category_of(#[trigger] memories[i]),
        ) by {
            if i < front.len() {
                assert(front[i] == memories[i]);
                let k = choose|k: int| 0 <= k < before.len() && before[k] == category_of(front[i]);
                assert(now[k] == category_of(memories[i]));
            } else if before.contains(c) {
            } else {
                assert(now[now.len() - 1] == c);
            }
        }
    }
}

} // verus!
