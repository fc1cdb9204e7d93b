//! What the key handlers of the remote interface read and change, and the
//! background operations they ask for.
use vstd::prelude::*;

use crate::remote::{Platform, RemoteIssue, RemoteQuery};
use crate::text::{concat, decimal, decimal_string};
use crate::tui::remote::confirm_modal::ConfirmDialogState;
use crate::tui::remote::error_toast::{Toast, ToastLevel};
use crate::tui::remote::filter_modal::FilterState;
use crate::tui::remote::link_mode::{LinkModeState, LinkSource};
use crate::tui::remote::state::{
    DetailScrollData, FilterConfigData, ModalVisibilityData, NavigationData, SearchUiData,
    ViewDisplayData, ViewMode,
};
use crate::tui::remote::sync_preview::SyncPreviewState;
use crate::types::TicketMetadata;

use super::keymap::ModalStateSnapshot;

verus! {

/// The state of the remote interface as its key handlers see it.
#[derive(Debug)]
pub struct HandlerContext {
    /// All local tickets.
    pub local_tickets: Vec<TicketMetadata>,
    /// All remote issues fetched.
    pub remote_issues: Vec<RemoteIssue>,
    /// Navigation of the local list.
    pub local_nav: NavigationData,
    /// Navigation of the remote list.
    pub remote_nav: NavigationData,
    /// Rows of the local list after filtering.
    pub local_count: usize,
    /// Rows of the remote list after filtering.
    pub remote_count: usize,
    /// Rows a list shows at once.
    pub list_height: usize,
    /// Scroll offsets of the detail pane.
    pub detail_scroll: DetailScrollData,
    /// Lines of the body of the selected local ticket, where its file
    /// could be read.
    pub local_body_lines: Option<usize>,
    /// Which list is shown, and what is visible or focused.
    pub display: ViewDisplayData,
    /// The search box.
    pub search: SearchUiData,
    /// The help and error modals.
    pub visibility: ModalVisibilityData,
    /// Notification shown, if any.
    pub toast: Option<Toast>,
    /// Link mode, when a link is being made.
    pub link_mode: Option<LinkModeState>,
    /// Sync preview, when changes are being reviewed.
    pub sync_preview: Option<SyncPreviewState>,
    /// Pending confirmation, if any.
    pub confirm_dialog: Option<ConfirmDialogState>,
    /// Last error, as (title, message).
    pub last_error: Option<(String, String)>,
    /// Filter modal, when open.
    pub filter_modal: Option<FilterState>,
    /// Active query and platform.
    pub config: FilterConfigData,
}

/// A background operation a key handler asks for. The caller runs it and
/// reports back.
#[derive(Debug)]
pub enum HandlerEffect {
    /// List the issues of `provider` that `query` asks for.
    Fetch { provider: Platform, query: RemoteQuery },
    /// Create remote issues for these tickets.
    Push { ticket_ids: Vec<String>, provider: Platform, query: RemoteQuery },
    /// Unlink these tickets from their remote issues.
    Unlink { ticket_ids: Vec<String> },
    /// Link a ticket to an issue.
    Link { source: LinkSource },
    /// Fetch the remote side of these linked tickets to preview a sync.
    SyncFetch { ticket_ids: Vec<String>, provider: Platform },
    /// Apply the changes accepted in a sync preview.
    SyncApply { preview: SyncPreviewState, provider: Platform, query: RemoteQuery },
    /// Create local tickets for these issues.
    Adopt { issues: Vec<RemoteIssue> },
    /// Run the search that was typed.
    TriggerSearch,
}

/// `t` is a toast of `level` with the message `msg`.
pub open spec fn toast_is(t: Option<Toast>, level: ToastLevel, msg: Seq<char>) -> bool {
    t matches Some(toast) && toast.level == level && toast.message@ == msg
}

/// The snapshot of which modals and modes are open in `c`.
pub open spec fn snapshot_of(c: HandlerContext) -> ModalStateSnapshot {
    ModalStateSnapshot {
        show_help_modal: c.visibility.show_help,
        show_error_modal: c.visibility.show_error,
        sync_preview_active: c.sync_preview is Some,
        sync_preview_current_index: match c.sync_preview {
            Some(p) => Some(p.current_change_index),
            None => None,
        },
        link_mode_active: c.link_mode is Some,
        filter_modal_active: c.filter_modal is Some,
        confirm_dialog_active: c.confirm_dialog is Some,
        search_focused: c.search.focused,
        detail_pane_focused: c.display.detail_pane_focused,
    }
}

/// The navigation of the list `view` in `c`.
pub open spec fn nav_of(c: HandlerContext, view: ViewMode) -> NavigationData {
    if view == ViewMode::Local {
        c.local_nav
    } else {
        c.remote_nav
    }
}

/// `c` with the navigation of the list `view` replaced by `nav`.
pub open spec fn with_nav(c: HandlerContext, view: ViewMode, nav: NavigationData) -> HandlerContext {
    if view == ViewMode::Local {
        HandlerContext { local_nav: nav, ..c }
    } else {
        HandlerContext { remote_nav: nav, ..c }
    }
}

/// The filtered row count of the list `view` in `c`.
pub open spec fn count_of(c: HandlerContext, view: ViewMode) -> usize {
    if view == ViewMode::Local {
        c.local_count
    } else {
        c.remote_count
    }
}

/// The id of the item at row `i` of the list `view`: a local ticket's id
/// (if it has one) or a remote issue's id.
pub open spec fn item_id_at(c: HandlerContext, view: ViewMode, i: int) -> Option<Seq<char>> {
    if view == ViewMode::Local {
        if 0 <= i < c.local_tickets@.len() {
            match c.local_tickets@[i].id {
                Some(id) => Some(id@),
                None => None,
            }
        } else {
            None
        }
    } else {
        if 0 <= i < c.remote_issues@.len() {
            Some(c.remote_issues@[i].id@)
        } else {
            None
        }
    }
}

/// `prefix`, the decimal rendering of `n`, then `suffix`.
pub fn counted(prefix: &str, n: usize, suffix: &str) -> (r: String)
    ensures
        r@ == prefix@ + decimal(n as nat) + suffix@,
{
    let d = decimal_string(n as u64);
    let a = concat(prefix, d.as_str());
    concat(a.as_str(), suffix)
}

impl HandlerContext {
    /// Which modals and modes are open, for the key map.
    pub fn modal_state_snapshot(&self) -> (r: ModalStateSnapshot)
        ensures
            r == snapshot_of(*self),
    {
        ModalStateSnapshot {
            show_help_modal: self.visibility.show_help,
            show_error_modal: self.visibility.show_error,
            sync_preview_active: self.sync_preview.is_some(),
            sync_preview_current_index: match &self.sync_preview {
                Some(p) => Some(p.current_change_index),
                None => None,
            },
            link_mode_active: self.link_mode.is_some(),
            filter_modal_active: self.filter_modal.is_some(),
            confirm_dialog_active: self.confirm_dialog.is_some(),
            search_focused: self.search.focused,
            detail_pane_focused: self.display.detail_pane_focused,
        }
    }

    /// The id of the item at row `i` of the list `view`, if there is one.
    pub fn item_id_at(&self, view: ViewMode, i: usize) -> (r: Option<String>)
        ensures
            match r {
                Some(id) => item_id_at(*self, view, i as int) == Some(id@),
                None => item_id_at(*self, view, i as int) is None,
            },
    {
        match view {
            ViewMode::Local => {
                if i < self.local_tickets.len() {
                    match &self.local_tickets[i].id {
                        Some(id) => Some(id.clone()),
                        None => None,
                    }
                } else {
                    None
                }
            },
            ViewMode::Remote => {
                if i < self.remote_issues.len() {
                    Some(self.remote_issues[i].id.clone())
                } else {
                    None
                }
            },
        }
    }
}

} // verus!
