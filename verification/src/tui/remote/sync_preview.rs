//! Sync preview: the differences between linked tickets and their remote
//! issues, reviewed one at a time and accepted or skipped.
use vstd::prelude::*;

verus! {

/// One field that differs between a ticket and its remote issue.
#[derive(Debug)]
pub struct SyncChange {
    pub field_name: String,
    pub local_value: String,
    pub remote_value: String,
    pub direction: SyncDirection,
}

/// Which side a change is copied to.
#[derive(Debug, Clone, Copy, PartialEq, Eq, Default, Structural)]
pub enum SyncDirection {
    #[default]
    LocalToRemote,
    RemoteToLocal,
}

/// What the user decided for a change.
#[derive(Debug, Clone, Copy, PartialEq, Eq, Structural)]
pub enum SyncDecision {
    Accept,
    Skip,
}

/// A change with the ticket and remote reference it belongs to, and the
/// decision taken on it so far.
#[derive(Debug)]
pub struct SyncChangeWithContext {
    pub ticket_id: String,
    pub remote_ref: String,
    pub change: SyncChange,
    pub decision: Option<SyncDecision>,
}

/// Two changes hold the same data.
pub open spec fn same_change(a: SyncChange, b: SyncChange) -> bool {
    &&& a.field_name@ == b.field_name@
    &&& a.local_value@ == b.local_value@
    &&& a.remote_value@ == b.remote_value@
    &&& a.direction == b.direction
}

/// Two changes in context hold the same data.
pub open spec fn same_change_in_context(a: SyncChangeWithContext, b: SyncChangeWithContext) -> bool {
    &&& a.ticket_id@ == b.ticket_id@
    &&& a.remote_ref@ == b.remote_ref@
    &&& same_change(a.change, b.change)
    &&& a.decision == b.decision
}

impl Clone for SyncChange {
    fn clone(&self) -> (r: Self)
        ensures
            same_change(r, *self),
    {
        SyncChange {
            field_name: self.field_name.clone(),
            local_value: self.local_value.clone(),
            remote_value: self.remote_value.clone(),
            direction: self.direction,
        }
    }
}

impl Clone for SyncChangeWithContext {
    fn clone(&self) -> (r: Self)
        ensures
            same_change_in_context(r, *self),
    {
        SyncChangeWithContext {
            ticket_id: self.ticket_id.clone(),
            remote_ref: self.remote_ref.clone(),
            change: self.change.clone(),
            decision: self.decision,
        }
    }
}

/// `c` with the decision `d`.
pub open spec fn decided(c: SyncChangeWithContext, d: SyncDecision) -> SyncChangeWithContext {
    SyncChangeWithContext { decision: Some(d), ..c }
}

/// The changes under review and the position of the one shown.
#[derive(Debug, Default)]
pub struct SyncPreviewState {
    pub changes: Vec<SyncChangeWithContext>,
    pub current_change_index: usize,
    /// Scroll offset for long values.
    pub scroll_offset: usize,
}

/// Two previews hold the same changes at the same position.
pub open spec fn same_preview(a: SyncPreviewState, b: SyncPreviewState) -> bool {
    &&& a.changes@.len() == b.changes@.len()
    &&& forall|i: int|
        0 <= i < a.changes@.len() ==> same_change_in_context(#[trigger] a.changes@[i], b.changes@[i])
    &&& a.current_change_index == b.current_change_index
    &&& a.scroll_offset == b.scroll_offset
}

impl Clone for SyncPreviewState {
    fn clone(&self) -> (r: Self)
        ensures
            same_preview(r, *self),
    {
        let mut changes: Vec<SyncChangeWithContext> = Vec::new();
        let mut i: usize = 0;
        while i < self.changes.len()
            invariant
                i <= self.changes@.len(),
                changes@.len() == i,
                forall|j: int|
                    0 <= j < i ==> same_change_in_context(#[trigger] changes@[j], self.changes@[j]),
            decreases self.changes@.len() - i,
        {
            changes.push(self.changes[i].clone());
            i = i + 1;
        }
        SyncPreviewState {
            changes,
            current_change_index: self.current_change_index,
            scroll_offset: self.scroll_offset,
        }
    }
}

/// The changes after deciding `d` for the one at `i`, if there is one.
pub open spec fn decide_at(
    changes: Seq<SyncChangeWithContext>,
    i: usize,
    d: SyncDecision,
) -> Seq<SyncChangeWithContext> {
    if i < changes.len() {
        changes.update(i as int, decided(changes[i as int], d))
    } else {
        changes
    }
}

/// The index after advancing past the change at `i` among `n`.
pub open spec fn advanced(i: usize, n: nat) -> usize {
    if i < n {
        (i + 1) as usize
    } else {
        i
    }
}

impl SyncPreviewState {
    /// Reviews `changes` from the first.
    pub fn new(changes: Vec<SyncChangeWithContext>) -> (r: SyncPreviewState)
        ensures
            r.changes@ == changes@,
            r.current_change_index == 0,
            r.scroll_offset == 0,
    {
        SyncPreviewState { changes, current_change_index: 0, scroll_offset: 0 }
    }

    /// The change shown, if any remain.
    pub fn current_change(&self) -> (r: Option<&SyncChangeWithContext>)
        ensures
            self.current_change_index < self.changes@.len() ==> r == Some(
                &self.changes@[self.current_change_index as int],
            ),
            self.current_change_index >= self.changes@.len() ==> r is None,
    {
        if self.current_change_index < self.changes.len() {
            Some(&self.changes[self.current_change_index])
        } else {
            None
        }
    }

    /// The change shown, to be changed in place, if any remain.
    pub fn current_change_mut(&mut self) -> (r: Option<&mut SyncChangeWithContext>)
        ensures
            old(self).current_change_index >= old(self).changes@.len() ==> r is None && *final(self)
                == *old(self),
            old(self).current_change_index < old(self).changes@.len() ==> r is Some,
            r matches Some(c) ==> {
                &&& *c == old(self).changes@[old(self).current_change_index as int]
                &&& final(self).changes@ == old(self).changes@.update(
                    old(self).current_change_index as int,
                    *final(c),
                )
                &&& final(self).current_change_index == old(self).current_change_index
                &&& final(self).scroll_offset == old(self).scroll_offset
            },
    {
        let i = self.current_change_index;
        if i < self.changes.len() {
            Some(&mut self.changes[i])
        } else {
            None
        }
    }

    /// Records `d` for the change shown, if any.
    fn decide_current(&mut self, d: SyncDecision)
        ensures
            final(self).changes@ == decide_at(old(self).changes@, old(self).current_change_index, d),
            final(self).current_change_index == old(self).current_change_index,
            final(self).scroll_offset == old(self).scroll_offset,
    {
        if let Some(change) = self.current_change_mut() {
            change.decision = Some(d);
        }
    }

    /// Moves to the next change; whether one remains to review.
    pub fn advance(&mut self) -> (r: bool)
        ensures
            final(self).changes@ == old(self).changes@,
            final(self).scroll_offset == old(self).scroll_offset,
            final(self).current_change_index == advanced(
                old(self).current_change_index,
                old(self).changes@.len(),
            ),
            r == (old(self).current_change_index < old(self).changes@.len()
                && final(self).current_change_index < final(self).changes@.len()),
    {
        if self.current_change_index < self.changes.len() {
            self.current_change_index = self.current_change_index + 1;
            self.current_change_index < self.changes.len()
        } else {
            false
        }
    }

    /// Accepts the change shown and moves on; whether one remains.
    pub fn accept_current(&mut self) -> (r: bool)
        ensures
            final(self).changes@ == decide_at(
                old(self).changes@,
                old(self).current_change_index,
                SyncDecision::Accept,
            ),
            final(self).scroll_offset == old(self).scroll_offset,
            final(self).current_change_index == advanced(
                old(self).current_change_index,
                old(self).changes@.len(),
            ),
            r == (final(self).current_change_index < final(self).changes@.len()
                && old(self).current_change_index < old(self).changes@.len()),
    {
        self.decide_current(SyncDecision::Accept);
        self.advance()
    }

    /// Skips the change shown and moves on; whether one remains.
    pub fn skip_current(&mut self) -> (r: bool)
        ensures
            final(self).changes@ == decide_at(
                old(self).changes@,
                old(self).current_change_index,
                SyncDecision::Skip,
            ),
            final(self).scroll_offset == old(self).scroll_offset,
            final(self).current_change_index == advanced(
                old(self).current_change_index,
                old(self).changes@.len(),
            ),
            r == (final(self).current_change_index < final(self).changes@.len()
                && old(self).current_change_index < old(self).changes@.len()),
    {
        self.decide_current(SyncDecision::Skip);
        self.advance()
    }

    /// Accepts every change from the one shown on, and ends the review.
    pub fn accept_all(&mut self)
        ensures
            final(self).changes@.len() == old(self).changes@.len(),
            forall|j: int|
                0 <= j < old(self).current_change_index && j < old(self).changes@.len()
                    ==> #[trigger] final(self).changes@[j] == old(self).changes@[j],
            forall|j: int|
                old(self).current_change_index <= j < old(self).changes@.len()
                    ==> #[trigger] final(self).changes@[j] == decided(old(self).changes@[j], SyncDecision::Accept),
            final(self).current_change_index == old(self).changes@.len(),
    {
        let start = if self.current_change_index < self.changes.len() {
            self.current_change_index
        } else {
            self.changes.len()
        };
        let mut i = start;
        while i < self.changes.len()
            invariant
                start <= i <= self.changes@.len(),
                start == old(self).current_change_index || (start == old(self).changes@.len()
                    && old(self).current_change_index >= old(self).changes@.len()),
                self.changes@.len() == old(self).changes@.len(),
                self.current_change_index == old(self).current_change_index,
                forall|j: int| 0 <= j < start ==> #[trigger] self.changes@[j] == old(self).changes@[j],
                forall|j: int|
                    start <= j < i ==> #[trigger] self.changes@[j] == decided(old(self).changes@[j], SyncDecision::Accept),
                forall|j: int| i <= j < self.changes@.len() ==> #[trigger] self.changes@[j] == old(self).changes@[j],
            decreases self.changes@.len() - i,
        {
            let mut c = self.changes.remove(i);
            c.decision = Some(SyncDecision::Accept);
            self.changes.insert(i, c);
            i = i + 1;
        }
        self.current_change_index = self.changes.len();
    }

    /// Toggles the decision of the change at `index`, if there is one:
    /// accepted becomes skipped, anything else accepted.
    pub fn toggle_decision(&mut self, index: usize)
        ensures
            final(self).changes@ == if index < old(self).changes@.len() {
                old(self).changes@.update(
                    index as int,
                    SyncChangeWithContext {
                        decision: toggled_decision(old(self).changes@[index as int].decision),
                        ..old(self).changes@[index as int]
                    },
                )
            } else {
                old(self).changes@
            },
            final(self).current_change_index == old(self).current_change_index,
            final(self).scroll_offset == old(self).scroll_offset,
    {
        if index < self.changes.len() {
            let mut c = self.changes.remove(index);
            c.decision = match c.decision {
                Some(SyncDecision::Accept) => Some(SyncDecision::Skip),
                _ => Some(SyncDecision::Accept),
            };
            self.changes.insert(index, c);
            assert(self.changes@ =~= old(self).changes@.update(
                index as int,
                SyncChangeWithContext {
                    decision: toggled_decision(old(self).changes@[index as int].decision),
                    ..old(self).changes@[index as int]
                },
            ));
        }
    }

    /// Whether changes remain to review.
    pub fn has_more(&self) -> (r: bool)
        ensures
            r == (self.current_change_index < self.changes@.len()),
    {
        self.current_change_index < self.changes.len()
    }

    /// The accepted changes, in order.
    pub fn accepted_changes(&self) -> (r: Vec<&SyncChangeWithContext>)
        ensures
            r@.map_values(|c: &SyncChangeWithContext| *c) == accepted_of(self.changes@, self.changes@.len()),
            forall|k: int| 0 <= k < r@.len() ==> (#[trigger] r@[k]).decision == Some(SyncDecision::Accept),
    {
        let mut out: Vec<&SyncChangeWithContext> = Vec::new();
        let mut i: usize = 0;
        while i < self.changes.len()
            invariant
                i <= self.changes@.len(),
                out@.map_values(|c: &SyncChangeWithContext| *c) == accepted_of(self.changes@, i as nat),
            decreases self.changes@.len() - i,
        {
            let c = &self.changes[i];
            let ghost before = out@;
            if c.decision == Some(SyncDecision::Accept) {
                out.push(c);
                assert(out@.map_values(|c: &SyncChangeWithContext| *c) =~= before.map_values(
                    |c: &SyncChangeWithContext| *c,
                ).push(*c));
            }
            i = i + 1;
        }
        proof {
            lemma_accepted_only_accepted(self.changes@, self.changes@.len());
            assert forall|k: int| 0 <= k < out@.len() implies (#[trigger] out@[k]).decision == Some(
                SyncDecision::Accept,
            ) by {
                assert(out@.map_values(|c: &SyncChangeWithContext| *c)[k] == *out@[k]);
            }
        }
        out
    }
}

/// The first `n` changes that were accepted, in order.
pub open spec fn accepted_of(changes: Seq<SyncChangeWithContext>, n: nat) -> Seq<SyncChangeWithContext>
    decreases n,
{
    if n == 0 {
        seq![]
    } else {
        let prev = accepted_of(changes, (n - 1) as nat);
        if changes[n - 1].decision == Some(SyncDecision::Accept) {
            prev.push(changes[n - 1])
        } else {
            prev
        }
    }
}

/// Toggles the decision of the change at `index`: accepted becomes
/// skipped, skipped or undecided becomes accepted.
pub open spec fn toggled_decision(d: Option<SyncDecision>) -> Option<SyncDecision> {
    match d {
        Some(SyncDecision::Accept) => Some(SyncDecision::Skip),
        _ => Some(SyncDecision::Accept),
    }
}

/// Toggling a decided change twice restores its decision.
pub proof fn lemma_toggle_decision_twice(d: Option<SyncDecision>)
    requires
        d is Some,
    ensures
        toggled_decision(toggled_decision(d)) == d,
{
}

/// When every change of a review is accepted (as "accept all" leaves a
/// review begun at its first change), every change is applied, in order.
pub proof fn lemma_all_accepted_applied(changes: Seq<SyncChangeWithContext>, n: nat)
    requires
        n <= changes.len(),
        forall|j: int| 0 <= j < n ==> (#[trigger] changes[j]).decision == Some(SyncDecision::Accept),
    ensures
        accepted_of(changes, n) == changes.take(n as int),
    decreases n,
{
    if n > 0 {
        lemma_all_accepted_applied(changes, (n - 1) as nat);
        assert(changes.take(n as int) =~= changes.take(n - 1).push(changes[n - 1]));
    }
}

/// Only accepted changes are applied: every change among the first `n`
/// that were accepted has the decision `Accept`, none skipped or undecided
/// is among them, and every accepted one is, in the order of the review.
pub proof fn lemma_accepted_only_accepted(changes: Seq<SyncChangeWithContext>, n: nat)
    requires
        n <= changes.len(),
    ensures
        forall|k: int|
            0 <= k < accepted_of(changes, n).len() ==> (#[trigger] accepted_of(changes, n)[k]).decision
                == Some(SyncDecision::Accept),
        forall|j: int|
            0 <= j < n && changes[j].decision == Some(SyncDecision::Accept) ==> accepted_of(
                changes,
                n,
            ).contains(#[trigger] changes[j]),
        accepted_of(changes, n).len() <= n,
    decreases n,
{
    if n > 0 {
        lemma_accepted_only_accepted(changes, (n - 1) as nat);
        let prev = accepted_of(changes, (n - 1) as nat);
        assert forall|j: int|
            0 <= j < n && changes[j].decision == Some(SyncDecision::Accept) implies accepted_of(
            changes,
            n,
        ).contains(#[trigger] changes[j]) by {
            if j < n - 1 {
                let k = choose|k: int| 0 <= k < prev.len() && prev[k] == changes[j];
                if changes[n - 1].decision == Some(SyncDecision::Accept) {
                    assert(accepted_of(changes, n)[k] == changes[j]);
                } else {
                    assert(accepted_of(changes, n) == prev);
                }
            } else {
                assert(accepted_of(changes, n)[prev.len() as int] == changes[j]);
            }
        }
        if changes[n - 1].decision == Some(SyncDecision::Accept) {
            assert forall|k: int| 0 <= k < accepted_of(changes, n).len() implies (
            #[trigger] accepted_of(changes, n)[k]).decision == Some(SyncDecision::Accept) by {
                if k < prev.len() {
                    assert(accepted_of(changes, n)[k] == prev[k]);
                }
            }
        }
    }
}

} // verus!
