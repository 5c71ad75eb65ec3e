//! Notes: the lines that list and show them.
use vstd::prelude::*;
use vstd::string::*;
use crate::text::{owned, truncated, can_truncate, texts};

verus! {

/// The most bytes of a snippet shown in a listing.
pub const SNIPPET_LEN: usize = 80;

/// A note as listed.
pub struct NoteSummary {
    pub id: String,
    pub title: String,
    pub snippet: String,
    pub updated_at: String,
}

/// The lines that list a note: title and ID, the snippet cut to 80 bytes
/// when there is one, and (when `dated`) the last update; then a blank line.
pub open spec fn note_lines(n: NoteSummary, dated: bool) -> Seq<Seq<char>> {
    let lines = seq![n.title@ + " - "@ + n.id@];
    let lines = if n.snippet@.len() != 0 { lines.push("  "@ + truncated(n.snippet@, 80)) } else { lines };
    let lines = if dated { lines.push("  "@ + n.updated_at@) } else { lines };
    lines.push(Seq::empty())
}

/// A listed note takes its head line, a snippet line when it has a snippet,
/// an update line exactly when the listing is dated, and a blank line; the
/// update line, when there is one, comes right before the blank line.
pub proof fn law_note_lines(n: NoteSummary, dated: bool)
    ensures
        note_lines(n, dated)[0] == n.title@ + " - "@ + n.id@,
        note_lines(n, dated).len() == 2 + (if n.snippet@.len() != 0 { 1int } else { 0int }) + if dated {
            1int
        } else {
            0int
        },
        note_lines(n, dated).last() == Seq::<char>::empty(),
        dated ==> note_lines(n, dated)[note_lines(n, dated).len() - 2] == "  "@ + n.updated_at@,
        n.snippet@.len() != 0 ==> note_lines(n, dated)[1] == "  "@ + truncated(n.snippet@, 80),
{
}

/// The lines that list a note (`notes list` shows the update time,
/// `notes search` does not).
pub fn format_note_summary(n: &NoteSummary, dated: bool) -> (lines: Vec<String>)
    requires
        can_truncate(n.snippet@, 80),
    ensures
        texts(lines@) == note_lines(*n, dated),
{
    let mut lines: Vec<String> = Vec::new();
    let mut head = owned(n.title.as_str());
    head.append(" - ");
    head.append(n.id.as_str());
    lines.push(head);
    if !n.snippet.as_str().is_empty() {
        let mut s = owned("  ");
        let cut = crate::commands::payments::truncate(n.snippet.as_str(), SNIPPET_LEN);
        s.append(cut.as_str());
        lines.push(s);
    }
    if dated {
        let mut u = owned("  ");
        u.append(n.updated_at.as_str());
        lines.push(u);
    }
    lines.push(String::new());
    assert(texts(lines@) =~= note_lines(*n, dated));
    lines
}

/// A note being read.
pub struct Note {
    pub id: String,
    pub title: String,
    pub content: String,
    pub created_at: String,
    pub updated_at: String,
}

/// The lines that show a note.
pub open spec fn note_view_lines(n: Note) -> Seq<Seq<char>> {
    let lines = seq!["# "@ + n.title@, Seq::empty()];
    let lines = if n.content@.len() != 0 { lines.push(n.content@).push(Seq::empty()) } else { lines };
    lines + seq!["ID: "@ + n.id@, "Created: "@ + n.created_at@, "Updated: "@ + n.updated_at@]
}

/// The lines that show a note.
pub fn format_note(n: &Note) -> (lines: Vec<String>)
    ensures
        texts(lines@) == note_view_lines(*n),
{
    let mut lines: Vec<String> = Vec::new();
    let mut t = owned("# ");
    t.append(n.title.as_str());
    lines.push(t);
    lines.push(String::new());
    if !n.content.as_str().is_empty() {
        lines.push(owned(n.content.as_str()));
        lines.push(String::new());
    }
    let mut i = owned("ID: ");
    i.append(n.id.as_str());
    lines.push(i);
    let mut c = owned("Created: ");
    c.append(n.created_at.as_str());
    lines.push(c);
    let mut u = owned("Updated: ");
    u.append(n.updated_at.as_str());
    lines.push(u);
    assert(texts(lines@) =~= note_view_lines(*n));
    lines
}

/// The limit sent with a notes query: none given means no limit (0).
pub fn notes_limit(limit: Option<i32>) -> (l: i32)
    ensures
        l == match limit { Some(x) => x, None => 0 },
{
    match limit {
        Some(x) => x,
        None => 0,
    }
}

/// The lines of the first `n` listed notes.
pub open spec fn note_blocks(notes: Seq<NoteSummary>, dated: bool, n: nat) -> Seq<Seq<char>>
    decreases n,
{
    if n == 0 {
        Seq::empty()
    } else {
        note_blocks(notes, dated, (n - 1) as nat) + note_lines(notes[n - 1], dated)
    }
}

/// What `notes list` shows: a notice when there are no notes, else each note.
pub open spec fn notes_view_lines(notes: Seq<NoteSummary>) -> Seq<Seq<char>> {
    if notes.len() == 0 {
        seq!["No notes yet."@]
    } else {
        note_blocks(notes, true, notes.len())
    }
}

/// What `notes search` shows: a notice naming the query when nothing
/// matches, else a heading naming it and each note found.
pub open spec fn search_view_lines(query: Seq<char>, notes: Seq<NoteSummary>) -> Seq<Seq<char>> {
    if notes.len() == 0 {
        seq!["No notes matching \""@ + query + "\"."@]
    } else {
        seq!["Results for \""@ + query + "\":\n"@] + note_blocks(notes, false, notes.len())
    }
}

/// The lines of `notes` appended after `lines`.
fn append_note_blocks(lines: &mut Vec<String>, notes: &Vec<NoteSummary>, dated: bool)
    requires
        forall|i: int| 0 <= i < notes@.len() ==> can_truncate(#[trigger] notes@[i].snippet@, 80),
    ensures
        texts(final(lines)@) == texts(old(lines)@) + note_blocks(notes@, dated, notes@.len()),
{
    let ghost head = texts(lines@);
    assert(head + note_blocks(notes@, dated, 0) =~= head);
    let mut i: usize = 0;
    while i < notes.len()
        invariant
            i <= notes.len(),
            forall|j: int| 0 <= j < notes@.len() ==> can_truncate(#[trigger] notes@[j].snippet@, 80),
            head == texts(old(lines)@),
            texts(lines@) == head + note_blocks(notes@, dated, i as nat),
        decreases notes.len() - i,
    {
        let block = format_note_summary(&notes[i], dated);
        crate::text::append_lines(lines, block);
        assert(texts(lines@) =~= head + note_blocks(notes@, dated, (i + 1) as nat));
        i = i + 1;
    }
}

/// What `notes list` shows.
pub fn notes_view(notes: &Vec<NoteSummary>) -> (lines: Vec<String>)
    requires
        forall|i: int| 0 <= i < notes@.len() ==> can_truncate(#[trigger] notes@[i].snippet@, 80),
    ensures
        texts(lines@) == notes_view_lines(notes@),
{
    if notes.len() == 0 {
        return crate::text::single_line(owned("No notes yet."));
    }
    let mut lines: Vec<String> = Vec::new();
    append_note_blocks(&mut lines, notes, true);
    assert(texts(lines@) =~= notes_view_lines(notes@));
    lines
}

/// What `notes search` shows.
pub fn search_view(query: &str, notes: &Vec<NoteSummary>) -> (lines: Vec<String>)
    requires
        forall|i: int| 0 <= i < notes@.len() ==> can_truncate(#[trigger] notes@[i].snippet@, 80),
    ensures
        texts(lines@) == search_view_lines(query@, notes@),
{
    if notes.len() == 0 {
        let mut n = owned("No notes matching \"");
        n.append(query);
        n.append("\".");
        return crate::text::single_line(n);
    }
    let mut h = owned("Results for \"");
    h.append(query);
    h.append("\":\n");
    let mut lines = crate::text::single_line(h);
    append_note_blocks(&mut lines, notes, false);
    lines
}

} // verus!
