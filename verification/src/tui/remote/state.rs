//! State types of the remote interface: which list is shown, the
//! navigation and multi-selection of each list, and the visibility of its
//! panes and modals.
use vstd::prelude::*;

use crate::remote::{Platform, RemoteQuery, DEFAULT_QUERY_LIMIT};
use crate::text::str_eq;

verus! {

broadcast use vstd::string::group_string_axioms;

// ---------------------------------------------------------------------------
// Sets of ids
// ---------------------------------------------------------------------------

/// A set of ids (each held once), as the multi-selection of a list.
///
/// The ids are kept in a vector without repeats rather than a `HashSet`:
/// vstd specifies `HashSet` operations only for key types shown to obey its
/// hash-table key model, which it shows for primitive types and not for
/// `String`, so a `HashSet<String>` would leave every operation here
/// without a provable contract.
#[derive(Debug)]
pub struct IdSet {
    ids: Vec<String>,
}

impl IdSet {
    /// The ids, in the order they were added.
    pub closed spec fn texts(&self) -> Seq<Seq<char>> {
        Seq::new(self.ids@.len(), |i: int| self.ids@[i]@)
    }

    #[verifier::type_invariant]
    spec fn wf(&self) -> bool {
        self.texts().no_duplicates()
    }
}

impl View for IdSet {
    type V = Set<Seq<char>>;

    closed spec fn view(&self) -> Set<Seq<char>> {
        self.texts().to_set()
    }
}

proof fn lemma_texts_set_contains(t: Seq<Seq<char>>, x: Seq<char>)
    ensures
        t.to_set().contains(x) <==> exists|i: int| 0 <= i < t.len() && t[i] == x,
{
    broadcast use vstd::seq_lib::group_seq_properties;
    broadcast use vstd::set::group_set_axioms;
}

impl Clone for IdSet {
    fn clone(&self) -> (r: Self)
        ensures
            r@ == self@,
    {
        proof {
            use_type_invariant(self);
        }
        let mut v: Vec<String> = Vec::new();
        let mut i: usize = 0;
        while i < self.ids.len()
            invariant
                i <= self.ids@.len(),
                v@.len() == i,
                forall|j: int| 0 <= j < i ==> #[trigger] v@[j]@ == self.ids@[j]@,
            decreases self.ids@.len() - i,
        {
            v.push(self.ids[i].clone());
            i = i + 1;
        }
        assert(Seq::new(v@.len(), |k: int| v@[k]@) =~= self.texts());
        let r = IdSet { ids: v };
        assert(r.texts() =~= self.texts());
        r
    }
}

impl IdSet {
    /// The ids, each once, in the order they were added.
    pub fn to_vec(&self) -> (r: Vec<String>)
        ensures
            r.deep_view().no_duplicates(),
            r.deep_view().to_set() == self@,
    {
        proof {
            use_type_invariant(self);
        }
        let mut v: Vec<String> = Vec::new();
        let mut i: usize = 0;
        while i < self.ids.len()
            invariant
                i <= self.ids@.len(),
                v@.len() == i,
                forall|j: int| 0 <= j < i ==> #[trigger] v@[j]@ == self.ids@[j]@,
            decreases self.ids@.len() - i,
        {
            v.push(self.ids[i].clone());
            i = i + 1;
        }
        assert(v.deep_view() =~= self.texts());
        v
    }
}

impl IdSet {
    /// The empty set.
    pub fn new() -> (r: IdSet)
        ensures
            r@ == Set::<Seq<char>>::empty(),
    {
        let r = IdSet { ids: Vec::new() };
        assert(r.texts() =~= Seq::<Seq<char>>::empty());
        proof {
            broadcast use vstd::seq_lib::group_seq_properties;
            assert(r@ =~= Set::<Seq<char>>::empty());
        }
        r
    }

    /// Number of ids.
    pub fn len(&self) -> (r: usize)
        ensures
            r == self@.len(),
            self@.finite(),
    {
        proof {
            use_type_invariant(self);
            self.texts().unique_seq_to_set();
            broadcast use vstd::seq_lib::seq_to_set_is_finite;
        }
        self.ids.len()
    }

    /// Whether the set is empty.
    pub fn is_empty(&self) -> (r: bool)
        ensures
            r == (self@.len() == 0),
            r == (self@ == Set::<Seq<char>>::empty()),
    {
        proof {
            use_type_invariant(self);
            self.texts().unique_seq_to_set();
            self.texts().lemma_cardinality_of_empty_set_is_0();
            broadcast use vstd::seq_lib::seq_to_set_is_finite;
            if self@.len() == 0 {
                vstd::set_lib::lemma_set_empty_equivalency_len(self@);
            }
        }
        self.ids.len() == 0
    }

    /// Position of `id`, if present.
    fn position(&self, id: &str) -> (r: Option<usize>)
        ensures
            match r {
                Some(i) => i < self.ids@.len() && self.texts()[i as int] == id@,
                None => forall|j: int| 0 <= j < self.texts().len() ==> self.texts()[j] != id@,
            },
    {
        let mut i: usize = 0;
        while i < self.ids.len()
            invariant
                i <= self.ids@.len(),
                forall|j: int| 0 <= j < i ==> self.texts()[j] != id@,
            decreases self.ids@.len() - i,
        {
            if str_eq(self.ids[i].as_str(), id) {
                return Some(i);
            }
            i = i + 1;
        }
        None
    }

    /// Whether `id` is in the set.
    pub fn contains(&self, id: &str) -> (r: bool)
        ensures
            r == self@.contains(id@),
    {
        proof {
            lemma_texts_set_contains(self.texts(), id@);
        }
        self.position(id).is_some()
    }

    /// Adds `id`; whether it was absent.
    pub fn insert(&mut self, id: String) -> (r: bool)
        ensures
            final(self)@ == old(self)@.insert(id@),
            r == !old(self)@.contains(id@),
    {
        proof {
            use_type_invariant(&*self);
            lemma_texts_set_contains(self.texts(), id@);
        }
        if self.position(id.as_str()).is_some() {
            proof {
                assert(old(self)@.insert(id@) =~= old(self)@);
            }
            return false;
        }
        let ghost old_texts = self.texts();
        let mut v: Vec<String> = Vec::new();
        std::mem::swap(&mut v, &mut self.ids);
        v.push(id);
        let ghost nt = Seq::new(v@.len(), |i: int| v@[i]@);
        proof {
            assert(nt =~= old_texts.push(id@));
            assert forall|a: int, b: int| 0 <= a < b < nt.len() implies nt[a] != nt[b] by {
                if b == nt.len() - 1 {
                    assert(nt[a] == old_texts[a]);
                } else {
                    assert(nt[a] == old_texts[a]);
                    assert(nt[b] == old_texts[b]);
                }
            }
        }
        self.ids = v;
        proof {
            assert(self.texts() == nt);
            broadcast use vstd::seq_lib::group_seq_properties;
            vstd::seq_lib::lemma_seq_contains_after_push(old_texts, id@, id@);
            assert forall|x: Seq<char>| #[trigger] self@.contains(x) <==> old(self)@.insert(id@).contains(x) by {
                lemma_texts_set_contains(nt, x);
                lemma_texts_set_contains(old_texts, x);
                if exists|i: int| 0 <= i < nt.len() && nt[i] == x {
                    let i = choose|i: int| 0 <= i < nt.len() && nt[i] == x;
                    if i < old_texts.len() {
                        assert(old_texts[i] == x);
                    }
                }
                if exists|i: int| 0 <= i < old_texts.len() && old_texts[i] == x {
                    let i = choose|i: int| 0 <= i < old_texts.len() && old_texts[i] == x;
                    assert(nt[i] == x);
                }
                if x == id@ {
                    assert(nt[nt.len() - 1] == x);
                }
            }
            assert(self@ =~= old(self)@.insert(id@));
        }
        true
    }

    /// Removes `id`; whether it was present.
    pub fn remove(&mut self, id: &str) -> (r: bool)
        ensures
            final(self)@ == old(self)@.remove(id@),
            r == old(self)@.contains(id@),
    {
        proof {
            use_type_invariant(&*self);
            lemma_texts_set_contains(self.texts(), id@);
        }
        match self.position(id) {
            None => {
                proof {
                    assert(old(self)@.remove(id@) =~= old(self)@);
                }
                false
            },
            Some(i) => {
                let ghost old_texts = self.texts();
                let mut v: Vec<String> = Vec::new();
                std::mem::swap(&mut v, &mut self.ids);
                v.remove(i);
                let ghost nt = Seq::new(v@.len(), |k: int| v@[k]@);
                proof {
                    assert(nt =~= old_texts.remove(i as int));
                    assert forall|a: int, b: int| 0 <= a < b < nt.len() implies nt[a] != nt[b] by {
                        let oa = if a < i { a } else { a + 1 };
                        let ob = if b < i { b } else { b + 1 };
                        assert(nt[a] == old_texts[oa]);
                        assert(nt[b] == old_texts[ob]);
                    }
                }
                self.ids = v;
                proof {
                    assert(self.texts() == nt);
                    assert forall|x: Seq<char>| #[trigger] self@.contains(x) <==> old(self)@.remove(id@).contains(x) by {
                        lemma_texts_set_contains(nt, x);
                        lemma_texts_set_contains(old_texts, x);
                        if exists|k: int| 0 <= k < nt.len() && nt[k] == x {
                            let k = choose|k: int| 0 <= k < nt.len() && nt[k] == x;
                            let ok = if k < i { k } else { k + 1 };
                            assert(old_texts[ok] == x);
                            assert(ok != i);
                        }
                        if x != id@ && exists|k: int| 0 <= k < old_texts.len() && old_texts[k] == x {
                            let k = choose|k: int| 0 <= k < old_texts.len() && old_texts[k] == x;
                            assert(k != i);
                            let nk = if k < i { k } else { k - 1 };
                            assert(nt[nk] == x);
                        }
                    }
                    assert(self@ =~= old(self)@.remove(id@));
                }
                true
            },
        }
    }

    /// Removes every id.
    pub fn clear(&mut self)
        ensures
            final(self)@ == Set::<Seq<char>>::empty(),
    {
        self.ids = Vec::new();
        proof {
            assert(self.texts() =~= Seq::<Seq<char>>::empty());
            broadcast use vstd::seq_lib::group_seq_properties;
            assert(self@ =~= Set::<Seq<char>>::empty());
        }
    }
}

// ---------------------------------------------------------------------------
// Views and navigation
// ---------------------------------------------------------------------------

/// Which list the remote interface shows.
#[derive(Debug, Clone, Copy, PartialEq, Eq, Default, Structural)]
pub enum ViewMode {
    #[default]
    Local,
    Remote,
}

/// The other list.
pub open spec fn other_view(v: ViewMode) -> ViewMode {
    match v {
        ViewMode::Local => ViewMode::Remote,
        ViewMode::Remote => ViewMode::Local,
    }
}

impl ViewMode {
    /// The other list.
    pub fn toggle(self) -> (r: ViewMode)
        ensures
            r == other_view(self),
            r != self,
    {
        match self {
            ViewMode::Local => ViewMode::Remote,
            ViewMode::Remote => ViewMode::Local,
        }
    }
}

/// Toggling twice shows the list shown before.
pub proof fn lemma_toggle_involution(v: ViewMode)
    ensures
        other_view(other_view(v)) == v,
{
}

/// Navigation of one list: the selected row, the first row shown and the
/// ids selected for bulk operations.
#[derive(Debug, Clone)]
pub struct NavigationData {
    pub selected_index: usize,
    pub scroll_offset: usize,
    pub selected_ids: IdSet,
}

impl NavigationData {
    /// At the top, nothing selected.
    pub fn new() -> (r: NavigationData)
        ensures
            r.selected_index == 0,
            r.scroll_offset == 0,
            r.selected_ids@ == Set::<Seq<char>>::empty(),
    {
        NavigationData { selected_index: 0, scroll_offset: 0, selected_ids: IdSet::new() }
    }

    /// Clears the multi-selection.
    pub fn clear_selection(&mut self)
        ensures
            final(self).selected_index == old(self).selected_index,
            final(self).scroll_offset == old(self).scroll_offset,
            final(self).selected_ids@ == Set::<Seq<char>>::empty(),
    {
        self.selected_ids.clear();
    }

    /// Back to the top with nothing selected.
    pub fn reset(&mut self)
        ensures
            final(self).selected_index == 0,
            final(self).scroll_offset == 0,
            final(self).selected_ids@ == Set::<Seq<char>>::empty(),
    {
        self.selected_index = 0;
        self.scroll_offset = 0;
        self.selected_ids.clear();
    }

    /// Selects the row `index`, scrolling up to it when it is above the
    /// first row shown.
    pub fn select_item(&mut self, index: usize)
        ensures
            final(self).selected_index == index,
            final(self).scroll_offset == if index < old(self).scroll_offset {
                index
            } else {
                old(self).scroll_offset
            },
            final(self).selected_ids@ == old(self).selected_ids@,
    {
        self.selected_index = index;
        if index < self.scroll_offset {
            self.scroll_offset = index;
        }
    }
}

/// Which list is shown, and what is visible or focused.
#[derive(Debug, Clone, Copy, Default)]
pub struct ViewDisplayData {
    pub active_view: ViewMode,
    pub remote_loading: bool,
    pub show_detail: bool,
    pub detail_pane_focused: bool,
    pub should_exit: bool,
}

impl ViewDisplayData {
    /// The local list, with the detail pane shown and remote issues loading.
    pub fn new() -> (r: ViewDisplayData)
        ensures
            r.active_view == ViewMode::Local,
            r.remote_loading,
            r.show_detail,
            !r.detail_pane_focused,
            !r.should_exit,
    {
        ViewDisplayData {
            active_view: ViewMode::Local,
            remote_loading: true,
            show_detail: true,
            detail_pane_focused: false,
            should_exit: false,
        }
    }

    /// Shows the other list.
    pub fn toggle_view(&mut self)
        ensures
            *final(self) == (ViewDisplayData { active_view: other_view(old(self).active_view), ..*old(self) }),
    {
        self.active_view = self.active_view.toggle();
    }

    /// Shows the list `view`.
    pub fn set_view(&mut self, view: ViewMode)
        ensures
            *final(self) == (ViewDisplayData { active_view: view, ..*old(self) }),
    {
        self.active_view = view;
    }
}

/// Scroll offsets of the detail pane, one per list.
#[derive(Debug, Clone, Copy, Default)]
pub struct DetailScrollData {
    pub local_offset: usize,
    pub remote_offset: usize,
}

impl DetailScrollData {
    /// Scrolls the pane of `view` up by `lines`, stopping at the top.
    pub fn scroll_up(&mut self, view: ViewMode, lines: usize)
        ensures
            final(self).local_offset == if view == ViewMode::Local {
                if old(self).local_offset >= lines {
                    (old(self).local_offset - lines) as usize
                } else {
                    0
                }
            } else {
                old(self).local_offset
            },
            final(self).remote_offset == if view == ViewMode::Remote {
                if old(self).remote_offset >= lines {
                    (old(self).remote_offset - lines) as usize
                } else {
                    0
                }
            } else {
                old(self).remote_offset
            },
    {
        match view {
            ViewMode::Local => {
                self.local_offset = self.local_offset.saturating_sub(lines);
            },
            ViewMode::Remote => {
                self.remote_offset = self.remote_offset.saturating_sub(lines);
            },
        }
    }

    /// Scrolls the pane of `view` down by `lines`.
    pub fn scroll_down(&mut self, view: ViewMode, lines: usize)
        requires
            view == ViewMode::Local ==> old(self).local_offset + lines <= usize::MAX,
            view == ViewMode::Remote ==> old(self).remote_offset + lines <= usize::MAX,
        ensures
            final(self).local_offset == if view == ViewMode::Local {
                (old(self).local_offset + lines) as usize
            } else {
                old(self).local_offset
            },
            final(self).remote_offset == if view == ViewMode::Remote {
                (old(self).remote_offset + lines) as usize
            } else {
                old(self).remote_offset
            },
    {
        match view {
            ViewMode::Local => {
                self.local_offset = self.local_offset + lines;
            },
            ViewMode::Remote => {
                self.remote_offset = self.remote_offset + lines;
            },
        }
    }

    /// The scroll offset of the pane of `view`.
    pub fn get_offset(&self, view: ViewMode) -> (r: usize)
        ensures
            r == if view == ViewMode::Local {
                self.local_offset
            } else {
                self.remote_offset
            },
    {
        match view {
            ViewMode::Local => self.local_offset,
            ViewMode::Remote => self.remote_offset,
        }
    }
}

/// The active remote query and the platform it is sent to.
#[derive(Debug, Clone)]
pub struct FilterConfigData {
    pub active_filters: RemoteQuery,
    pub provider: Platform,
}

impl FilterConfigData {
    /// No filters, default page size, GitHub.
    pub fn default() -> (r: FilterConfigData)
        ensures
            r.active_filters.status is None,
            r.active_filters.assignee is None,
            r.active_filters.labels is None,
            r.active_filters.limit == DEFAULT_QUERY_LIMIT,
            r.provider == Platform::GitHub,
    {
        FilterConfigData { active_filters: RemoteQuery::new(), provider: Platform::GitHub }
    }
}

/// The search box: its text and whether it has the focus.
#[derive(Debug, Clone, Default)]
pub struct SearchUiData {
    pub query: String,
    pub focused: bool,
}

/// Visibility of the help and error modals, and the help scroll offset.
#[derive(Debug, Clone, Copy, Default)]
pub struct ModalVisibilityData {
    pub show_help: bool,
    pub help_scroll: usize,
    pub show_error: bool,
}

} // verus!
