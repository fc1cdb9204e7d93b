//! The text of the help modal of the remote interface: keyboard shortcuts
//! grouped by category, one per line.
use vstd::prelude::*;

use crate::text::{concat, join_with, joined_with, owned, push_char};

verus! {

broadcast use vstd::string::group_string_axioms;

/// Width the key column is padded to.
pub const KEY_COLUMN_WIDTH: usize = 18;

/// `s` padded with spaces on the right to `w` characters.
pub open spec fn padded(s: Seq<char>, w: nat) -> Seq<char> {
    if s.len() < w {
        s + Seq::new((w - s.len()) as nat, |i: int| ' ')
    } else {
        s
    }
}

/// The line of one shortcut: indented, the key padded, then what it does.
pub open spec fn item_line(key: Seq<char>, description: Seq<char>) -> Seq<char> {
    "  "@ + padded(key, KEY_COLUMN_WIDTH as nat) + " "@ + description
}

/// The line that heads a category.
pub open spec fn heading(category: Seq<char>) -> Seq<char> {
    category + ":"@
}

/// The lines of the help text: each category is a heading followed by its
/// shortcuts, categories separated by a blank line.
pub open spec fn help_lines() -> Seq<Seq<char>> {
    seq![
        heading("Navigation"@),
        item_line("j / ↓"@, "Move down"@),
        item_line("k / ↑"@, "Move up"@),
        item_line("g"@, "Jump to top"@),
        item_line("G"@, "Jump to bottom"@),
        item_line("Tab"@, "Switch Local ↔ Remote view"@),
        Seq::empty(),
        heading("Selection"@),
        item_line("Space"@, "Toggle selection"@),
        item_line("Enter"@, "Toggle detail pane"@),
        Seq::empty(),
        heading("Local Operations"@),
        item_line("p"@, "Push ticket to remote"@),
        item_line("u"@, "Unlink selected ticket(s)"@),
        Seq::empty(),
        heading("Remote Operations"@),
        item_line("a"@, "Adopt issue to local"@),
        Seq::empty(),
        heading("Link & Sync"@),
        item_line("l"@, "Link local ticket to remote issue"@),
        item_line("s"@, "Sync selected linked items"@),
        Seq::empty(),
        heading("Search & Filter"@),
        item_line("/"@, "Focus search box"@),
        Seq::empty(),
        heading("General"@),
        item_line("P"@, "Switch provider (GitHub ↔ Linear)"@),
        item_line("?"@, "Show this help"@),
        item_line("Ctrl+q"@, "Quit"@),
        item_line("Esc"@, "Close modal / cancel"@),
    ]
}

/// `s` padded with spaces to `w` characters.
fn pad_right(s: &str, w: usize) -> (r: String)
    ensures
        r@ == padded(s@, w as nat),
{
    let mut r = owned(s);
    let n = s.unicode_len();
    if n < w {
        let mut k: usize = n;
        while k < w
            invariant
                n <= k <= w,
                n == s@.len(),
                r@ == s@ + Seq::new((k - n) as nat, |i: int| ' '),
            decreases w - k,
        {
            push_char(&mut r, ' ');
            k = k + 1;
            assert(r@ =~= s@ + Seq::new((k - n) as nat, |i: int| ' '));
        }
    }
    r
}

/// Appends the line of one shortcut.
fn push_item(lines: &mut Vec<String>, key: &str, description: &str)
    ensures
        final(lines).deep_view() == old(lines).deep_view().push(item_line(key@, description@)),
        final(lines)@.len() == old(lines)@.len() + 1,
{
    let k = pad_right(key, KEY_COLUMN_WIDTH);
    let a = concat("  ", k.as_str());
    let b = concat(a.as_str(), " ");
    let line = concat(b.as_str(), description);
    let ghost before = lines.deep_view();
    lines.push(line);
    assert(lines.deep_view() =~= before.push(item_line(key@, description@)));
}

/// Appends a blank line and the heading of `category`.
fn push_heading(lines: &mut Vec<String>, category: &str)
    ensures
        final(lines).deep_view() == old(lines).deep_view().push(Seq::empty()).push(heading(category@)),
        final(lines)@.len() == old(lines)@.len() + 2,
{
    let ghost before = lines.deep_view();
    lines.push(String::new());
    lines.push(concat(category, ":"));
    assert(lines.deep_view() =~= before.push(Seq::empty()).push(heading(category@)));
}

/// The lines of the help text (see `help_lines`).
pub fn build_help_lines() -> (r: Vec<String>)
    ensures
        r.deep_view() == help_lines(),
{
    let mut lines: Vec<String> = Vec::new();
    push_heading(&mut lines, "Navigation");
    push_item(&mut lines, "j / ↓", "Move down");
    push_item(&mut lines, "k / ↑", "Move up");
    push_item(&mut lines, "g", "Jump to top");
    push_item(&mut lines, "G", "Jump to bottom");
    push_item(&mut lines, "Tab", "Switch Local ↔ Remote view");
    push_heading(&mut lines, "Selection");
    push_item(&mut lines, "Space", "Toggle selection");
    push_item(&mut lines, "Enter", "Toggle detail pane");
    push_heading(&mut lines, "Local Operations");
    push_item(&mut lines, "p", "Push ticket to remote");
    push_item(&mut lines, "u", "Unlink selected ticket(s)");
    push_heading(&mut lines, "Remote Operations");
    push_item(&mut lines, "a", "Adopt issue to local");
    push_heading(&mut lines, "Link & Sync");
    push_item(&mut lines, "l", "Link local ticket to remote issue");
    push_item(&mut lines, "s", "Sync selected linked items");
    push_heading(&mut lines, "Search & Filter");
    push_item(&mut lines, "/", "Focus search box");
    push_heading(&mut lines, "General");
    push_item(&mut lines, "P", "Switch provider (GitHub ↔ Linear)");
    push_item(&mut lines, "?", "Show this help");
    push_item(&mut lines, "Ctrl+q", "Quit");
    push_item(&mut lines, "Esc", "Close modal / cancel");
    let ghost all = lines.deep_view();
    assert(lines@.len() == 31);
    assert(all =~= seq![Seq::<char>::empty()] + help_lines());
    lines.remove(0);
    assert(lines.deep_view() =~= all.subrange(1, 31));
    assert(lines.deep_view() =~= help_lines());
    lines
}

/// The help text: its lines joined with line breaks.
pub fn build_help_text() -> (r: String)
    ensures
        r@ == joined_with(help_lines(), "\n"@),
{
    let lines = build_help_lines();
    join_with(&lines, "\n")
}

/// Number of lines of the help text, the bound of its scrolling.
pub fn help_content_line_count() -> (r: usize)
    ensures
        r == help_lines().len(),
        r == 30,
{
    let lines = build_help_lines();
    assert(help_lines().len() == 30);
    assert(lines@.len() == lines.deep_view().len());
    lines.len()
}

} // verus!
