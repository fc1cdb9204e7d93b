//! The issue browser around its key handlers: the dialogs of triage mode,
//! which take keys first, and what is settled before each render.
use vstd::prelude::*;

use crate::text::{all_whitespace, concat, is_blank, starts_with};
use crate::tui::components::{CacheErrorModalData, NoteModalData, TicketModalData};
use crate::tui::keys::{KeyCode, KeyModifiers};
use crate::tui::remote::error_toast::{Toast, ToastLevel};
use crate::tui::screen_base::{should_process_key_event, KeyEventKind};
use crate::tui::search::text_or_empty;
use crate::tui::state::Pane;

use super::handlers::context::{selected_id, BrowserEdit, BrowserEffect, ViewHandlerContext};
use super::handlers::handle_key_event;
use super::handlers::key_handled;
use super::handlers::types::ViewAction;

verus! {

broadcast use vstd::string::group_string_axioms;

/// The dialogs of the issue browser.
#[derive(Debug, Default)]
pub struct BrowserModals {
    /// The note being written, when that dialog is open.
    pub note: Option<NoteModalData>,
    /// The ticket whose cancellation is being confirmed.
    pub cancel_confirm: Option<TicketModalData>,
    /// A cache error shown before closing.
    pub cache_error: Option<CacheErrorModalData>,
}

/// `n`, `nm` and `r` are what a key event comes to from `c` and `m`. While
/// the edit form is open, or for a key release, nothing happens. An open
/// dialog takes the key first: the cache error closes the browser; the
/// note dialog adds its note on Enter (unless blank) and closes on Enter
/// or Esc; the cancel confirmation cancels the ticket on c and closes on
/// any key. Ctrl+t toggles triage mode. In triage mode n and c open the
/// note and cancel dialogs for the selected ticket. Anything else goes to
/// the key handlers.
pub open spec fn browser_key_handled(
    c: ViewHandlerContext,
    m: BrowserModals,
    n: ViewHandlerContext,
    nm: BrowserModals,
    code: KeyCode,
    modifiers: KeyModifiers,
    kind: KeyEventKind,
    r: Option<BrowserEffect>,
) -> bool {
    if !(c.edit is Closed) || kind == KeyEventKind::Release {
        n == c && nm == m && r is None
    } else if m.cache_error is Some {
        n == ViewHandlerContext { should_exit: true, ..c } && nm == BrowserModals {
            cache_error: None,
            ..m
        } && r is None
    } else if m.note is Some {
        let note = m.note->0;
        if code == KeyCode::Esc {
            n == c && nm == BrowserModals { note: None, ..m } && r is None
        } else if code == KeyCode::Enter && modifiers == KeyModifiers::NONE {
            &&& n == c
            &&& nm == BrowserModals { note: None, ..m }
            &&& if all_whitespace(note.text@) {
                r is None
            } else {
                r matches Some(BrowserEffect::Queue(ViewAction::AddNote { id, note: text })) && id@
                    == note.ticket_id@ && text@ == note.text@
            }
        } else {
            n == c && nm == m && r is None
        }
    } else if m.cancel_confirm is Some {
        &&& n == c
        &&& nm == BrowserModals { cancel_confirm: None, ..m }
        &&& if code == KeyCode::Char('c') {
            r matches Some(BrowserEffect::Queue(ViewAction::CancelTicket { id })) && id@
                == m.cancel_confirm->0.ticket_id@
        } else {
            r is None
        }
    } else if code == KeyCode::Char('t') && modifiers == KeyModifiers::CONTROL {
        n == ViewHandlerContext { is_triage_mode: !c.is_triage_mode, ..c } && nm == m && r is None
    } else if c.is_triage_mode && code == KeyCode::Char('n') {
        &&& n == c
        &&& r is None
        &&& match selected_id(c) {
            Some(id) => nm == BrowserModals { note: nm.note, ..m } && (nm.note matches Some(d)
                && d.ticket_id@ == id && d.text@.len() == 0),
            None => nm == m,
        }
    } else if c.is_triage_mode && code == KeyCode::Char('c') {
        &&& n == c
        &&& r is None
        &&& match selected_id(c) {
            Some(id) => nm == BrowserModals { cancel_confirm: nm.cancel_confirm, ..m } && (
            nm.cancel_confirm matches Some(d) && d.ticket_id@ == id && d.title@ == text_or_empty(
                c.filtered_tickets@[c.selected_index as int].ticket.title,
            )),
            None => nm == m,
        }
    } else {
        nm == m && key_handled(c, n, code, modifiers, r)
    }
}

/// Handles a key event of the issue browser (see `browser_key_handled`).
pub fn handle_browser_key(
    ctx: &mut ViewHandlerContext,
    modals: &mut BrowserModals,
    code: KeyCode,
    modifiers: KeyModifiers,
    kind: KeyEventKind,
) -> (r: Option<BrowserEffect>)
    ensures
        browser_key_handled(*old(ctx), *old(modals), *final(ctx), *final(modals), code, modifiers, kind, r),
{
    let editing = match &ctx.edit {
        BrowserEdit::Closed => false,
        _ => true,
    };
    if editing || !should_process_key_event(kind) {
        return None;
    }
    if modals.cache_error.is_some() {
        modals.cache_error = None;
        ctx.should_exit = true;
        return None;
    }
    if modals.note.is_some() {
        if code == KeyCode::Esc {
            modals.note = None;
            return None;
        }
        if code == KeyCode::Enter && modifiers == KeyModifiers::NONE {
            let data = modals.note.take();
            if let Some(d) = data {
                if !is_blank(d.text.as_str()) {
                    return Some(BrowserEffect::Queue(ViewAction::AddNote { id: d.ticket_id, note: d.text }));
                }
            }
            return None;
        }
        return None;
    }
    if modals.cancel_confirm.is_some() {
        let data = modals.cancel_confirm.take();
        if code == KeyCode::Char('c') {
            if let Some(d) = data {
                return Some(BrowserEffect::Queue(ViewAction::CancelTicket { id: d.ticket_id }));
            }
        }
        return None;
    }
    if code == KeyCode::Char('t') && modifiers == KeyModifiers::CONTROL {
        ctx.is_triage_mode = !ctx.is_triage_mode;
        return None;
    }
    if ctx.is_triage_mode && code == KeyCode::Char('n') {
        if let Some(id) = ctx.selected_ticket_id() {
            modals.note = Some(NoteModalData::new(id));
        }
        return None;
    }
    if ctx.is_triage_mode && code == KeyCode::Char('c') {
        if let Some(id) = ctx.selected_ticket_id() {
            let i = ctx.selected_index;
            let title = match &ctx.filtered_tickets[i].ticket.title {
                Some(t) => t.clone(),
                None => String::new(),
            };
            modals.cancel_confirm = Some(TicketModalData::new(id, title));
        }
        return None;
    }
    handle_key_event(ctx, code, modifiers)
}

/// Opens the edit form on `ticket` with `body`, read from its file.
pub fn start_edit(ctx: &mut ViewHandlerContext, ticket: crate::types::TicketMetadata, body: String)
    ensures
        *final(ctx) == (ViewHandlerContext { edit: BrowserEdit::Editing { ticket, body }, ..*old(ctx) }),
{
    ctx.edit = BrowserEdit::Editing { ticket, body };
}

/// Closes the edit form; when it saved, the tickets are loaded again.
pub fn finish_edit(ctx: &mut ViewHandlerContext, saved: bool)
    ensures
        *final(ctx) == (ViewHandlerContext {
            edit: BrowserEdit::Closed,
            needs_reload: old(ctx).needs_reload || saved,
            ..*old(ctx)
        }),
{
    ctx.edit = BrowserEdit::Closed;
    if saved {
        ctx.needs_reload = true;
    }
}

/// The selection after the list was filtered again: kept on the last row
/// when it fell past it.
pub open spec fn settled_index(sel: usize, len: nat) -> usize {
    if sel >= len && len > 0 {
        (len - 1) as usize
    } else {
        sel
    }
}

/// Keeps the selection within the filtered list (see `settled_index`).
/// The scroll offset is left as it is: a selection above the first row
/// shown cannot also lie below the last, so it never has to move here.
pub fn settle_selection(ctx: &mut ViewHandlerContext)
    ensures
        *final(ctx) == (ViewHandlerContext {
            selected_index: settled_index(old(ctx).selected_index, old(ctx).filtered_tickets@.len()),
            ..*old(ctx)
        }),
{
    let len = ctx.filtered_tickets.len();
    if ctx.selected_index >= len && len > 0 {
        ctx.selected_index = len - 1;
    }
}

/// Largest scroll offset of the detail pane for a body of `lines` lines
/// (none when the body could not be read).
pub fn max_detail_scroll_for(lines: Option<usize>) -> (r: usize)
    ensures
        r == match lines {
            Some(n) => if n > 0 {
                (n - 1) as usize
            } else {
                0
            },
            None => 0,
        },
{
    match lines {
        Some(n) => n.saturating_sub(1),
        None => 0,
    }
}

/// Records the detail bound for the selected ticket; when it changed, the
/// pane goes back to its top.
pub fn update_detail_bound(ctx: &mut ViewHandlerContext, max_scroll: usize)
    ensures
        old(ctx).max_detail_scroll == max_scroll ==> *final(ctx) == *old(ctx),
        old(ctx).max_detail_scroll != max_scroll ==> *final(ctx) == (ViewHandlerContext {
            max_detail_scroll: max_scroll,
            detail_scroll_offset: 0,
            ..*old(ctx)
        }),
{
    if ctx.max_detail_scroll != max_scroll {
        ctx.max_detail_scroll = max_scroll;
        ctx.detail_scroll_offset = 0;
    }
}

/// The toast for a failed semantic search, shown only when the query
/// asked for one (starts with `~`).
pub fn semantic_error_toast(query: &str, error: Option<String>) -> (r: Option<Toast>)
    ensures
        (starts_with(query@, "~"@) && error is Some) ==> (r matches Some(t) && t.level
            == ToastLevel::Error && t.message@ == "Semantic search failed: "@ + error->0@),
        !(starts_with(query@, "~"@) && error is Some) ==> r is None,
{
    if crate::text::str_starts_with(query, "~") {
        if let Some(e) = error {
            return Some(Toast::new(concat("Semantic search failed: ", e.as_str()), ToastLevel::Error));
        }
    }
    None
}

/// Scrolls the list view up by 3 rows (the selection stays).
pub fn list_scroll_up(ctx: &mut ViewHandlerContext)
    ensures
        *final(ctx) == (ViewHandlerContext {
            scroll_offset: if old(ctx).scroll_offset >= 3 {
                (old(ctx).scroll_offset - 3) as usize
            } else {
                0
            },
            ..*old(ctx)
        }),
{
    ctx.scroll_offset = ctx.scroll_offset.saturating_sub(3);
}

/// Scrolls the list view down by 3 rows (the selection stays).
pub fn list_scroll_down(ctx: &mut ViewHandlerContext)
    requires
        old(ctx).scroll_offset + 3 <= usize::MAX,
    ensures
        *final(ctx) == (ViewHandlerContext { scroll_offset: (old(ctx).scroll_offset + 3) as usize, ..*old(ctx) }),
{
    ctx.scroll_offset = ctx.scroll_offset + 3;
}

/// Scrolls the detail pane up by 3 lines.
pub fn detail_scroll_up(ctx: &mut ViewHandlerContext)
    ensures
        *final(ctx) == (ViewHandlerContext {
            detail_scroll_offset: if old(ctx).detail_scroll_offset >= 3 {
                (old(ctx).detail_scroll_offset - 3) as usize
            } else {
                0
            },
            ..*old(ctx)
        }),
{
    ctx.detail_scroll_offset = ctx.detail_scroll_offset.saturating_sub(3);
}

/// Scrolls the detail pane down by 3 lines, up to its bound.
pub fn detail_scroll_down(ctx: &mut ViewHandlerContext)
    requires
        old(ctx).detail_scroll_offset + 3 <= usize::MAX,
    ensures
        *final(ctx) == (ViewHandlerContext {
            detail_scroll_offset: if old(ctx).detail_scroll_offset + 3 < old(ctx).max_detail_scroll {
                (old(ctx).detail_scroll_offset + 3) as usize
            } else {
                old(ctx).max_detail_scroll
            },
            ..*old(ctx)
        }),
{
    let next = ctx.detail_scroll_offset + 3;
    ctx.detail_scroll_offset = if next < ctx.max_detail_scroll {
        next
    } else {
        ctx.max_detail_scroll
    };
}

/// Selects the row `index` that was clicked and focuses the list,
/// scrolling up to the row when it is above the view.
pub fn click_row(ctx: &mut ViewHandlerContext, index: usize)
    ensures
        *final(ctx) == (ViewHandlerContext {
            selected_index: index,
            active_pane: Pane::List,
            scroll_offset: if index < old(ctx).scroll_offset {
                index
            } else {
                old(ctx).scroll_offset
            },
            ..*old(ctx)
        }),
{
    ctx.selected_index = index;
    ctx.active_pane = Pane::List;
    if index < ctx.scroll_offset {
        ctx.scroll_offset = index;
    }
}

/// Pressing Ctrl+t twice, with no dialog or form open, leaves the browser
/// as it was: triage mode is toggled back.
pub proof fn lemma_triage_toggle_twice(
    c: ViewHandlerContext,
    m: BrowserModals,
    n: ViewHandlerContext,
    nm: BrowserModals,
    n2: ViewHandlerContext,
    nm2: BrowserModals,
    r: Option<BrowserEffect>,
    r2: Option<BrowserEffect>,
)
    requires
        c.edit is Closed,
        m.note is None,
        m.cancel_confirm is None,
        m.cache_error is None,
        browser_key_handled(c, m, n, nm, KeyCode::Char('t'), KeyModifiers::CONTROL, KeyEventKind::Press, r),
        browser_key_handled(n, nm, n2, nm2, KeyCode::Char('t'), KeyModifiers::CONTROL, KeyEventKind::Press, r2),
    ensures
        n2 == c,
        nm2 == m,
        r is None && r2 is None,
{
}

} // verus!
