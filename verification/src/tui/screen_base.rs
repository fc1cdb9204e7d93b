//! What every screen shares: its exit and reload flags, which key events
//! it reacts to, and the height left for its list.
use vstd::prelude::*;

verus! {

/// The flags a screen keeps between renders.
#[derive(Debug, Clone, Copy, Default)]
pub struct ScreenState {
    /// Whether the screen should close.
    pub should_exit: bool,
    /// Whether a reload was asked for.
    pub needs_reload: bool,
    /// Whether data is being loaded.
    pub is_loading: bool,
}

impl ScreenState {
    /// A screen that starts by loading its data.
    pub fn new() -> (r: ScreenState)
        ensures
            !r.should_exit,
            !r.needs_reload,
            r.is_loading,
    {
        ScreenState { should_exit: false, needs_reload: false, is_loading: true }
    }

    /// Whether the screen should close.
    pub fn check_exit(&self) -> (r: bool)
        ensures
            r == self.should_exit,
    {
        self.should_exit
    }

    /// Asks for a reload.
    pub fn trigger_reload(&mut self)
        ensures
            final(self).needs_reload,
            final(self).should_exit == old(self).should_exit,
            final(self).is_loading == old(self).is_loading,
    {
        self.needs_reload = true;
    }

    /// Starts the reload that was asked for, unless a load is running:
    /// then the request stays pending. Returns whether a reload started.
    pub fn consume_reload(&mut self) -> (r: bool)
        ensures
            r == (old(self).needs_reload && !old(self).is_loading),
            r ==> !final(self).needs_reload && final(self).is_loading,
            !r ==> *final(self) == *old(self),
            final(self).should_exit == old(self).should_exit,
    {
        if self.needs_reload && !self.is_loading {
            self.needs_reload = false;
            self.is_loading = true;
            true
        } else {
            false
        }
    }
}

/// Whether a key was pressed, held or let go.
#[derive(Debug, Clone, Copy, PartialEq, Eq, Structural)]
pub enum KeyEventKind {
    Press,
    Repeat,
    Release,
}

/// Whether a key event is handled: presses and repeats are, releases are
/// not.
pub fn should_process_key_event(kind: KeyEventKind) -> (r: bool)
    ensures
        r <==> kind != KeyEventKind::Release,
{
    kind != KeyEventKind::Release
}

/// Rows left for a list once the header, the footer and `additional_elements`
/// other rows are taken from `total_height`; none when they do not fit.
pub fn calculate_list_height(total_height: u16, additional_elements: u16) -> (r: usize)
    requires
        additional_elements + 2 <= u16::MAX,
    ensures
        r == (if total_height >= additional_elements + 2 {
            total_height - additional_elements - 2
        } else {
            0
        }),
{
    let taken: u16 = 2 + additional_elements;
    if total_height >= taken {
        (total_height - taken) as usize
    } else {
        0
    }
}

} // verus!
