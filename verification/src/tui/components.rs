//! Footer shortcuts shown by the user interfaces, and the empty-state rules
//! of ticket lists.
use vstd::prelude::*;

use crate::text::owned;
use crate::tui::repository::InitResult;

verus! {

broadcast use vstd::string::group_string_axioms;

/// A keyboard shortcut shown in the footer: the key and what it does.
#[derive(Debug, Clone)]
pub struct Shortcut {
    pub key: String,
    pub action: String,
}

/// The (key, action) texts of a list of shortcuts.
pub open spec fn shortcut_texts(v: Seq<Shortcut>) -> Seq<(Seq<char>, Seq<char>)> {
    Seq::new(v.len(), |i: int| (v[i].key@, v[i].action@))
}

/// A shortcut given by its texts.
pub open spec fn sc(key: &str, action: &str) -> (Seq<char>, Seq<char>) {
    (key@, action@)
}

impl Shortcut {
    /// A shortcut for `key` that does `action`.
    pub fn new(key: &str, action: &str) -> (r: Shortcut)
        ensures
            r.key@ == key@,
            r.action@ == action@,
    {
        Shortcut { key: owned(key), action: owned(action) }
    }
}

/// Builds a list of shortcuts in order.
pub struct ShortcutsBuilder {
    pub shortcuts: Vec<Shortcut>,
}

impl ShortcutsBuilder {
    /// An empty list.
    pub fn new() -> (r: ShortcutsBuilder)
        ensures
            r.shortcuts@.len() == 0,
    {
        ShortcutsBuilder { shortcuts: Vec::new() }
    }

    /// Appends a shortcut.
    pub fn add(self, key: &str, action: &str) -> (r: ShortcutsBuilder)
        ensures
            shortcut_texts(r.shortcuts@) == shortcut_texts(self.shortcuts@).push((key@, action@)),
    {
        let mut v = self.shortcuts;
        let ghost before = shortcut_texts(v@);
        v.push(Shortcut::new(key, action));
        assert(shortcut_texts(v@) =~= before.push((key@, action@)));
        ShortcutsBuilder { shortcuts: v }
    }

    /// Appends the quit shortcut, `C-q`.
    pub fn with_quit(self) -> (r: ShortcutsBuilder)
        ensures
            shortcut_texts(r.shortcuts@) == shortcut_texts(self.shortcuts@).push(sc("C-q", "Quit")),
    {
        self.add("C-q", "Quit")
    }

    /// The list built.
    pub fn build(self) -> (r: Vec<Shortcut>)
        ensures
            shortcut_texts(r@) == shortcut_texts(self.shortcuts@),
    {
        self.shortcuts
    }
}

/// Shortcuts of the help modal.
pub open spec fn help_modal_keys() -> Seq<(Seq<char>, Seq<char>)> {
    seq![sc("j/k", "Scroll"), sc("g/G", "Top/Bottom"), sc("Esc", "Close")]
}

/// Shortcuts of the help modal.
pub fn help_modal_shortcuts() -> (r: Vec<Shortcut>)
    ensures
        shortcut_texts(r@) == help_modal_keys(),
{
    ShortcutsBuilder::new().add("j/k", "Scroll").add("g/G", "Top/Bottom").add("Esc", "Close").build()
}

/// Shortcuts of an error modal.
pub open spec fn error_modal_keys() -> Seq<(Seq<char>, Seq<char>)> {
    seq![sc("Esc", "Close")]
}

/// Shortcuts of an error modal.
pub fn error_modal_shortcuts() -> (r: Vec<Shortcut>)
    ensures
        shortcut_texts(r@) == error_modal_keys(),
{
    ShortcutsBuilder::new().add("Esc", "Close").build()
}

/// Shortcuts of the sync preview.
pub open spec fn sync_preview_keys() -> Seq<(Seq<char>, Seq<char>)> {
    seq![sc("y", "Accept"), sc("n", "Skip"), sc("a", "Accept All"), sc("c", "Cancel")]
}

/// Shortcuts of the sync preview.
pub fn sync_preview_shortcuts() -> (r: Vec<Shortcut>)
    ensures
        shortcut_texts(r@) == sync_preview_keys(),
{
    ShortcutsBuilder::new().add("y", "Accept").add("n", "Skip").add("a", "Accept All").add(
        "c",
        "Cancel",
    ).build()
}

/// Shortcuts of a confirmation dialog.
pub open spec fn confirm_dialog_keys() -> Seq<(Seq<char>, Seq<char>)> {
    seq![sc("y", "Yes"), sc("n", "No"), sc("c", "Cancel")]
}

/// Shortcuts of a confirmation dialog.
pub fn confirm_dialog_shortcuts() -> (r: Vec<Shortcut>)
    ensures
        shortcut_texts(r@) == confirm_dialog_keys(),
{
    ShortcutsBuilder::new().add("y", "Yes").add("n", "No").add("c", "Cancel").build()
}

/// Shortcuts of link mode.
pub open spec fn link_mode_keys() -> Seq<(Seq<char>, Seq<char>)> {
    seq![sc("j/k", "Navigate"), sc("l", "Link"), sc("Esc", "Cancel")]
}

/// Shortcuts of link mode.
pub fn link_mode_shortcuts() -> (r: Vec<Shortcut>)
    ensures
        shortcut_texts(r@) == link_mode_keys(),
{
    ShortcutsBuilder::new().add("j/k", "Navigate").add("l", "Link").add("Esc", "Cancel").build()
}

/// Shortcuts of the filter modal.
pub open spec fn filter_modal_keys() -> Seq<(Seq<char>, Seq<char>)> {
    seq![sc("+/-", "Adjust"), sc("r", "Reset"), sc("Enter", "Close"), sc("Esc", "Close")]
}

/// Shortcuts of the filter modal.
pub fn filter_modal_shortcuts() -> (r: Vec<Shortcut>)
    ensures
        shortcut_texts(r@) == filter_modal_keys(),
{
    ShortcutsBuilder::new().add("+/-", "Adjust").add("r", "Reset").add("Enter", "Close").add(
        "Esc",
        "Close",
    ).build()
}

/// Shortcuts while the search box is focused.
pub open spec fn search_keys() -> Seq<(Seq<char>, Seq<char>)> {
    seq![sc("Esc", "Clear Search"), sc("Enter", "Apply Search"), sc("C-q", "Quit")]
}

/// Shortcuts while the search box is focused.
pub fn search_shortcuts() -> (r: Vec<Shortcut>)
    ensures
        shortcut_texts(r@) == search_keys(),
{
    ShortcutsBuilder::new().add("Esc", "Clear Search").add("Enter", "Apply Search").with_quit().build()
}

/// Shortcuts while a ticket is being edited.
pub open spec fn edit_keys() -> Seq<(Seq<char>, Seq<char>)> {
    seq![sc("Tab", "Next Field"), sc("C-s", "Save"), sc("Esc", "Cancel")]
}

/// Shortcuts while a ticket is being edited.
pub fn edit_shortcuts() -> (r: Vec<Shortcut>)
    ensures
        shortcut_texts(r@) == edit_keys(),
{
    ShortcutsBuilder::new().add("Tab", "Next Field").add("C-s", "Save").add("Esc", "Cancel").build()
}

/// Shortcuts of an empty ticket list.
pub open spec fn empty_keys() -> Seq<(Seq<char>, Seq<char>)> {
    seq![sc("n", "New Ticket"), sc("C-q", "Quit")]
}

/// Shortcuts of an empty ticket list.
pub fn empty_shortcuts() -> (r: Vec<Shortcut>)
    ensures
        shortcut_texts(r@) == empty_keys(),
{
    ShortcutsBuilder::new().add("n", "New Ticket").with_quit().build()
}

/// Shortcuts of the ticket browser.
pub open spec fn browser_keys() -> Seq<(Seq<char>, Seq<char>)> {
    seq![
        sc("C-q", "Quit"),
        sc("j/k", "Navigate"),
        sc("/", "Search"),
        sc("e", "Edit"),
        sc("n", "New"),
        sc("Tab", "Switch Pane"),
    ]
}

/// Shortcuts of the ticket browser.
pub fn browser_shortcuts() -> (r: Vec<Shortcut>)
    ensures
        shortcut_texts(r@) == browser_keys(),
{
    ShortcutsBuilder::new().with_quit().add("j/k", "Navigate").add("/", "Search").add(
        "e",
        "Edit",
    ).add("n", "New").add("Tab", "Switch Pane").build()
}

/// Shortcuts of triage mode.
pub open spec fn triage_keys() -> Seq<(Seq<char>, Seq<char>)> {
    seq![sc("C-q", "Quit"), sc("j/k", "Navigate"), sc("t", "Mark Triaged"), sc("c", "Cancel Ticket")]
}

/// Shortcuts of triage mode.
pub fn triage_shortcuts() -> (r: Vec<Shortcut>)
    ensures
        shortcut_texts(r@) == triage_keys(),
{
    ShortcutsBuilder::new().with_quit().add("j/k", "Navigate").add("t", "Mark Triaged").add(
        "c",
        "Cancel Ticket",
    ).build()
}


// ---------------------------------------------------------------------------
// Empty states
// ---------------------------------------------------------------------------

/// Why a ticket list shows a placeholder instead of tickets.
#[derive(Debug, Clone, Copy, PartialEq, Eq, Structural)]
pub enum EmptyStateKind {
    /// There is no Janus directory.
    NoJanusDir,
    /// There are no tickets.
    NoTickets,
    /// Tickets are loading.
    Loading,
    /// The search matches no ticket.
    NoSearchResults,
}

/// The placeholder of a ticket list: loading while tickets load; no
/// directory when there is none; no tickets when there are none; no
/// results when tickets exist, a query is typed and nothing matches.
pub open spec fn empty_state_of(
    is_loading: bool,
    init: InitResult,
    total_all: nat,
    total_filtered: nat,
    query: Seq<char>,
) -> Option<EmptyStateKind> {
    if is_loading {
        Some(EmptyStateKind::Loading)
    } else {
        match init {
            InitResult::NoJanusDir => Some(EmptyStateKind::NoJanusDir),
            InitResult::EmptyDir => if total_all == 0 {
                Some(EmptyStateKind::NoTickets)
            } else {
                None
            },
            InitResult::Loaded => if total_all == 0 {
                Some(EmptyStateKind::NoTickets)
            } else if total_filtered == 0 && query.len() > 0 {
                Some(EmptyStateKind::NoSearchResults)
            } else {
                None
            },
        }
    }
}

/// The placeholder of a ticket list (see `empty_state_of`).
pub fn compute_empty_state(
    is_loading: bool,
    init_result: InitResult,
    total_all: usize,
    total_filtered: usize,
    query: &str,
) -> (r: Option<EmptyStateKind>)
    ensures
        r == empty_state_of(is_loading, init_result, total_all as nat, total_filtered as nat, query@),
{
    if is_loading {
        return Some(EmptyStateKind::Loading);
    }
    match init_result {
        InitResult::NoJanusDir => Some(EmptyStateKind::NoJanusDir),
        InitResult::EmptyDir => {
            if total_all == 0 {
                Some(EmptyStateKind::NoTickets)
            } else {
                None
            }
        },
        InitResult::Loaded => {
            if total_all == 0 {
                Some(EmptyStateKind::NoTickets)
            } else if total_filtered == 0 && query.unicode_len() > 0 {
                Some(EmptyStateKind::NoSearchResults)
            } else {
                None
            }
        },
    }
}

/// The note being written for a ticket.
#[derive(Debug, Clone)]
pub struct NoteModalData {
    pub ticket_id: String,
    pub text: String,
}

impl NoteModalData {
    /// An empty note for `ticket_id`.
    pub fn new(ticket_id: String) -> (r: NoteModalData)
        ensures
            r.ticket_id == ticket_id,
            r.text@.len() == 0,
    {
        NoteModalData { ticket_id, text: String::new() }
    }
}

/// A ticket a confirmation is asked about.
#[derive(Debug, Clone)]
pub struct TicketModalData {
    pub ticket_id: String,
    pub title: String,
}

impl TicketModalData {
    /// The confirmation about `ticket_id` titled `title`.
    pub fn new(ticket_id: String, title: String) -> (r: TicketModalData)
        ensures
            r.ticket_id == ticket_id,
            r.title == title,
    {
        TicketModalData { ticket_id, title }
    }
}

/// An error of the ticket cache, shown before the browser closes.
#[derive(Debug, Clone)]
pub struct CacheErrorModalData {
    pub message: String,
}

impl CacheErrorModalData {
    /// The error `message`.
    pub fn new(message: String) -> (r: CacheErrorModalData)
        ensures
            r.message == message,
    {
        CacheErrorModalData { message }
    }
}

} // verus!
