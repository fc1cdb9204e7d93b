//! Footer shortcuts of the remote interface: those of the topmost modal,
//! else those of the list shown.
use vstd::prelude::*;

use crate::tui::components::{
    Shortcut, ShortcutsBuilder, confirm_dialog_keys, confirm_dialog_shortcuts, error_modal_keys,
    error_modal_shortcuts, filter_modal_keys, filter_modal_shortcuts, help_modal_keys,
    help_modal_shortcuts, link_mode_keys, link_mode_shortcuts, sc, search_keys, search_shortcuts,
    shortcut_texts, sync_preview_keys, sync_preview_shortcuts,
};

use super::state::ViewMode;

verus! {

broadcast use vstd::string::group_string_axioms;

/// Which modals and modes are open, for choosing the shortcuts shown.
#[derive(Debug, Clone, Copy, Default)]
pub struct ModalVisibility {
    pub show_help_modal: bool,
    pub show_error_modal: bool,
    pub show_sync_preview: bool,
    pub show_confirm_dialog: bool,
    pub show_link_mode: bool,
    pub show_filter: bool,
    pub search_focused: bool,
}

impl ModalVisibility {
    /// Nothing open.
    pub fn new() -> (r: ModalVisibility)
        ensures
            !r.show_help_modal,
            !r.show_error_modal,
            !r.show_sync_preview,
            !r.show_confirm_dialog,
            !r.show_link_mode,
            !r.show_filter,
            !r.search_focused,
    {
        ModalVisibility {
            show_help_modal: false,
            show_error_modal: false,
            show_sync_preview: false,
            show_confirm_dialog: false,
            show_link_mode: false,
            show_filter: false,
            search_focused: false,
        }
    }
}

/// Shortcuts of the lists when no modal is open.
pub open spec fn list_keys(view: ViewMode) -> Seq<(Seq<char>, Seq<char>)> {
    let base = seq![
        sc("C-q", "Quit"),
        sc("Tab", "Switch View"),
        sc("j/k", "Navigate"),
        sc("Space", "Select"),
        sc("/", "Search"),
        sc("P", "Provider"),
        sc("r", "Refresh"),
        sc("f", "Filter"),
    ];
    let specific = if view == ViewMode::Remote {
        seq![sc("a", "Adopt")]
    } else {
        seq![sc("p", "Push"), sc("u", "Unlink")]
    };
    base + specific + seq![sc("l", "Link"), sc("s", "Sync"), sc("?", "Help")]
}

/// The shortcuts shown: those of the first open modal in the order help,
/// error, sync preview, confirmation, link mode, filter, search; else those
/// of the lists.
pub open spec fn remote_shortcut_keys(m: ModalVisibility, view: ViewMode) -> Seq<(Seq<char>, Seq<char>)> {
    if m.show_help_modal {
        help_modal_keys()
    } else if m.show_error_modal {
        error_modal_keys()
    } else if m.show_sync_preview {
        sync_preview_keys()
    } else if m.show_confirm_dialog {
        confirm_dialog_keys()
    } else if m.show_link_mode {
        link_mode_keys()
    } else if m.show_filter {
        filter_modal_keys()
    } else if m.search_focused {
        search_keys()
    } else {
        list_keys(view)
    }
}

/// The footer shortcuts for the open modals and the list shown.
pub fn compute_shortcuts(modals: &ModalVisibility, current_view: ViewMode) -> (r: Vec<Shortcut>)
    ensures
        shortcut_texts(r@) == remote_shortcut_keys(*modals, current_view),
{
    if modals.show_help_modal {
        return help_modal_shortcuts();
    }
    if modals.show_error_modal {
        return error_modal_shortcuts();
    }
    if modals.show_sync_preview {
        return sync_preview_shortcuts();
    }
    if modals.show_confirm_dialog {
        return confirm_dialog_shortcuts();
    }
    if modals.show_link_mode {
        return link_mode_shortcuts();
    }
    if modals.show_filter {
        return filter_modal_shortcuts();
    }
    if modals.search_focused {
        return search_shortcuts();
    }
    let base = ShortcutsBuilder::new().with_quit().add("Tab", "Switch View").add(
        "j/k",
        "Navigate",
    ).add("Space", "Select").add("/", "Search").add("P", "Provider").add("r", "Refresh").add(
        "f",
        "Filter",
    );
    let view_specific = if current_view == ViewMode::Remote {
        base.add("a", "Adopt")
    } else {
        base.add("p", "Push").add("u", "Unlink")
    };
    let r = view_specific.add("l", "Link").add("s", "Sync").add("?", "Help").build();
    assert(shortcut_texts(r@) =~= list_keys(current_view));
    r
}

} // verus!
