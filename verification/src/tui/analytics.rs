//! Counting, filtering and ordering of ticket lists.
use vstd::prelude::*;

use crate::text::chars_of;
use crate::types::{TicketMetadata, TicketStatus, ticket_priority_num};

verus! {

broadcast use vstd::string::group_string_axioms;

// ---------------------------------------------------------------------------
// Lexicographic order of texts
// ---------------------------------------------------------------------------

/// `a` comes strictly before `b` in lexicographic order of characters.
pub open spec fn lex_lt(a: Seq<char>, b: Seq<char>) -> bool
    decreases a.len(),
{
    if a.len() == 0 {
        b.len() > 0
    } else if b.len() == 0 {
        false
    } else if a[0] != b[0] {
        a[0] < b[0]
    } else {
        lex_lt(a.drop_first(), b.drop_first())
    }
}

/// `a` comes before `b` or equals it.
pub open spec fn lex_le(a: Seq<char>, b: Seq<char>) -> bool {
    lex_lt(a, b) || a == b
}

/// The lexicographic order is total: of two different texts one comes first.
pub proof fn lemma_lex_total(a: Seq<char>, b: Seq<char>)
    ensures
        lex_lt(a, b) || a == b || lex_lt(b, a),
        !(lex_lt(a, b) && lex_lt(b, a)),
        !lex_lt(a, a),
    decreases a.len(),
{
    if a.len() > 0 && b.len() > 0 && a[0] == b[0] {
        lemma_lex_total(a.drop_first(), b.drop_first());
        if a.drop_first() == b.drop_first() {
            assert(a =~= seq![a[0]] + a.drop_first());
            assert(b =~= seq![b[0]] + b.drop_first());
            assert(a =~= b);
        }
    }
    if a.len() > 0 {
        lemma_lex_total(a.drop_first(), a.drop_first());
    }
    if a.len() == 0 && b.len() == 0 {
        assert(a =~= b);
    }
}

/// The lexicographic order is transitive.
pub proof fn lemma_lex_transitive(a: Seq<char>, b: Seq<char>, c: Seq<char>)
    requires
        lex_lt(a, b),
        lex_lt(b, c),
    ensures
        lex_lt(a, c),
    decreases a.len(),
{
    if a.len() > 0 && b.len() > 0 && c.len() > 0 && a[0] == b[0] && b[0] == c[0] {
        lemma_lex_transitive(a.drop_first(), b.drop_first(), c.drop_first());
    }
}

/// Whether `a` comes strictly before `b`.
pub fn str_lex_lt(a: &str, b: &str) -> (r: bool)
    ensures
        r == lex_lt(a@, b@),
{
    let va = chars_of(a);
    let vb = chars_of(b);
    let mut i: usize = 0;
    assert(a@.skip(0) =~= a@);
    assert(b@.skip(0) =~= b@);
    while i < va.len() && i < vb.len() && va[i] == vb[i]
        invariant
            va@ == a@,
            vb@ == b@,
            i <= va@.len(),
            i <= vb@.len(),
            forall|k: int| 0 <= k < i ==> va@[k] == vb@[k],
            lex_lt(a@, b@) == lex_lt(a@.skip(i as int), b@.skip(i as int)),
        decreases va@.len() - i,
    {
        proof {
            let sa = a@.skip(i as int);
            let sb = b@.skip(i as int);
            assert(sa.drop_first() =~= a@.skip(i + 1));
            assert(sb.drop_first() =~= b@.skip(i + 1));
            assert(sa[0] == va@[i as int]);
            assert(sb[0] == vb@[i as int]);
        }
        i = i + 1;
    }
    proof {
        let sa = a@.skip(i as int);
        let sb = b@.skip(i as int);
        if i < va@.len() && i < vb@.len() {
            assert(sa[0] == va@[i as int]);
            assert(sb[0] == vb@[i as int]);
        }
    }
    if i == va.len() {
        i < vb.len()
    } else if i == vb.len() {
        false
    } else {
        va[i] < vb[i]
    }
}

// ---------------------------------------------------------------------------
// Orders of tickets
// ---------------------------------------------------------------------------

/// The id of a ticket as text, empty when absent.
pub open spec fn id_text(t: TicketMetadata) -> Seq<char> {
    match t.id {
        Some(s) => s@,
        None => Seq::<char>::empty(),
    }
}

/// `a` goes before `b` (or beside it): by id, or by priority then id.
pub open spec fn ticket_le(a: TicketMetadata, b: TicketMetadata, by_priority: bool) -> bool {
    if by_priority && ticket_priority_num(a) != ticket_priority_num(b) {
        ticket_priority_num(a) < ticket_priority_num(b)
    } else {
        lex_le(id_text(a), id_text(b))
    }
}

/// `s` is ordered by `ticket_le`.
pub open spec fn tickets_sorted(s: Seq<TicketMetadata>, by_priority: bool) -> bool {
    forall|i: int, j: int| 0 <= i < j < s.len() ==> ticket_le(s[i], s[j], by_priority)
}

/// Tickets sorted by priority run from the most urgent priority (the
/// lowest number) to the least, and tickets of one priority run in the
/// order of their ids; sorted by id alone, the ids run in order.
pub proof fn lemma_sorted_by_priority_then_id(s: Seq<TicketMetadata>, by_priority: bool, i: int, j: int)
    requires
        tickets_sorted(s, by_priority),
        0 <= i < j < s.len(),
    ensures
        by_priority ==> ticket_priority_num(s[i]) <= ticket_priority_num(s[j]),
        (!by_priority || ticket_priority_num(s[i]) == ticket_priority_num(s[j])) ==> lex_le(
            id_text(s[i]),
            id_text(s[j]),
        ),
{
    assert(ticket_le(s[i], s[j], by_priority));
}


proof fn lemma_ticket_le_total(a: TicketMetadata, b: TicketMetadata, by_priority: bool)
    ensures
        ticket_le(a, b, by_priority) || ticket_le(b, a, by_priority),
{
    lemma_lex_total(id_text(a), id_text(b));
}

proof fn lemma_ticket_le_transitive(a: TicketMetadata, b: TicketMetadata, c: TicketMetadata, by_priority: bool)
    requires
        ticket_le(a, b, by_priority),
        ticket_le(b, c, by_priority),
    ensures
        ticket_le(a, c, by_priority),
{
    if lex_lt(id_text(a), id_text(b)) && lex_lt(id_text(b), id_text(c)) {
        lemma_lex_transitive(id_text(a), id_text(b), id_text(c));
    }
}

fn ticket_le_exec(a: &TicketMetadata, b: &TicketMetadata, by_priority: bool) -> (r: bool)
    ensures
        r == ticket_le(*a, *b, by_priority),
{
    if by_priority {
        let pa = a.priority_num();
        let pb = b.priority_num();
        if pa != pb {
            return pa < pb;
        }
    }
    let ia: &str = match &a.id {
        Some(s) => s.as_str(),
        None => "",
    };
    let ib: &str = match &b.id {
        Some(s) => s.as_str(),
        None => "",
    };
    proof {
        reveal_strlit("");
        assert(ia@ == id_text(*a));
        assert(ib@ == id_text(*b));
    }
    let lt = str_lex_lt(ia, ib);
    let eq = crate::text::str_eq(ia, ib);
    lt || eq
}

/// Sorts tickets by id, or by priority then id, keeping the order of
/// tickets that compare equal.
pub fn sort_tickets(tickets: Vec<TicketMetadata>, by_priority: bool) -> (r: Vec<TicketMetadata>)
    ensures
        tickets_sorted(r@, by_priority),
        forall|i: int, j: int|
            0 <= i < j < r@.len() ==> (by_priority ==> ticket_priority_num(#[trigger] r@[i])
                <= ticket_priority_num(#[trigger] r@[j])) && ((!by_priority || ticket_priority_num(
                r@[i],
            ) == ticket_priority_num(r@[j])) ==> lex_le(id_text(r@[i]), id_text(r@[j]))),
        r@.to_multiset() == tickets@.to_multiset(),
{
    broadcast use vstd::seq_lib::group_to_multiset_ensures;

    let ghost input = tickets@;
    let mut rest = tickets;
    let mut pending: Vec<TicketMetadata> = Vec::new();
    while rest.len() > 0
        invariant
            rest@ + pending@.reverse() == input,
        decreases rest@.len(),
    {
        let ghost before_rest = rest@;
        let ghost before_pending = pending@;
        let x = rest.pop().unwrap();
        pending.push(x);
        assert(rest@ + pending@.reverse() =~= input) by {
            assert(pending@.reverse() =~= seq![x] + before_pending.reverse());
            assert(before_rest =~= rest@.push(x));
        }
    }
    assert(pending@.reverse() == input);
    let mut out: Vec<TicketMetadata> = Vec::new();
    let ghost mut done: Seq<TicketMetadata> = Seq::empty();
    while pending.len() > 0
        invariant
            done + pending@.reverse() == input,
            tickets_sorted(out@, by_priority),
            out@.to_multiset() == done.to_multiset(),
        decreases pending@.len(),
    {
        let ghost before_pending = pending@;
        let x = pending.pop().unwrap();
        proof {
            assert(before_pending.reverse() =~= seq![x] + pending@.reverse());
            assert(done.push(x) + pending@.reverse() =~= input);
        }
        let mut pos: usize = 0;
        while pos < out.len() && ticket_le_exec(&out[pos], &x, by_priority)
            invariant
                pos <= out@.len(),
                forall|k: int| 0 <= k < pos ==> ticket_le(out@[k], x, by_priority),
            decreases out@.len() - pos,
        {
            pos = pos + 1;
        }
        let ghost old_out = out@;
        proof {
            if pos < old_out.len() {
                assert(!ticket_le(old_out[pos as int], x, by_priority));
                lemma_ticket_le_total(old_out[pos as int], x, by_priority);
            }
        }
        out.insert(pos, x);
        proof {
            let n = out@;
            assert(n == old_out.take(pos as int) + seq![x] + old_out.skip(pos as int));
            assert forall|i: int, j: int| 0 <= i < j < n.len() implies ticket_le(n[i], n[j], by_priority) by {
                if j < pos {
                    assert(n[i] == old_out[i] && n[j] == old_out[j]);
                } else if j == pos {
                    assert(n[i] == old_out[i]);
                } else if i < pos {
                    assert(n[i] == old_out[i] && n[j] == old_out[j - 1]);
                } else if i == pos {
                    assert(n[j] == old_out[j - 1]);
                    assert(ticket_le(x, old_out[pos as int], by_priority));
                    if j - 1 > pos {
                        lemma_ticket_le_transitive(x, old_out[pos as int], old_out[j - 1], by_priority);
                    }
                } else {
                    assert(n[i] == old_out[i - 1] && n[j] == old_out[j - 1]);
                }
            }
            vstd::seq_lib::lemma_multiset_commutative(old_out.take(pos as int), seq![x]);
            vstd::seq_lib::lemma_multiset_commutative(
                old_out.take(pos as int) + seq![x],
                old_out.skip(pos as int),
            );
            vstd::seq_lib::lemma_multiset_commutative(old_out.take(pos as int), old_out.skip(pos as int));
            assert(old_out.take(pos as int) + old_out.skip(pos as int) == old_out);
            vstd::seq_lib::lemma_multiset_commutative(done, seq![x]);
            assert(done.push(x) =~= done + seq![x]);
            done = done.push(x);
        }
    }
    assert(pending@.reverse() =~= Seq::<TicketMetadata>::empty());
    assert(done =~= input);
    proof {
        assert forall|i: int, j: int| 0 <= i < j < out@.len() implies (by_priority ==> ticket_priority_num(
            #[trigger] out@[i],
        ) <= ticket_priority_num(#[trigger] out@[j])) && ((!by_priority || ticket_priority_num(out@[i])
            == ticket_priority_num(out@[j])) ==> lex_le(id_text(out@[i]), id_text(out@[j]))) by {
            lemma_sorted_by_priority_then_id(out@, by_priority, i, j);
        }
    }
    out
}

// ---------------------------------------------------------------------------
// Counting
// ---------------------------------------------------------------------------

/// Number of tickets with each status.
#[derive(Debug, Clone, Copy, Default, PartialEq, Eq)]
pub struct StatusCounts {
    pub new: usize,
    pub next: usize,
    pub in_progress: usize,
    pub complete: usize,
    pub cancelled: usize,
}

/// Number of the first `n` tickets with status `st`.
pub open spec fn count_status(ts: Seq<TicketMetadata>, st: TicketStatus, n: nat) -> nat
    decreases n,
{
    if n == 0 {
        0
    } else {
        count_status(ts, st, (n - 1) as nat) + if ts[n - 1].status == Some(st) {
            1nat
        } else {
            0nat
        }
    }
}

proof fn lemma_count_status_bound(ts: Seq<TicketMetadata>, st: TicketStatus, n: nat)
    ensures
        count_status(ts, st, n) <= n,
    decreases n,
{
    if n > 0 {
        lemma_count_status_bound(ts, st, (n - 1) as nat);
    }
}

/// The tickets of `ts` with status `st`, in order.
pub open spec fn with_status(ts: Seq<TicketMetadata>, st: TicketStatus, n: nat) -> Seq<TicketMetadata>
    decreases n,
{
    if n == 0 {
        seq![]
    } else {
        let prev = with_status(ts, st, (n - 1) as nat);
        if ts[n - 1].status == Some(st) {
            prev.push(ts[n - 1])
        } else {
            prev
        }
    }
}

/// Filtering, counting and ordering of ticket lists.
pub struct TicketAnalytics;

impl TicketAnalytics {
    /// The tickets with status `status`, in order.
    pub fn tickets_by_status(tickets: &[TicketMetadata], status: TicketStatus) -> (r: Vec<&TicketMetadata>)
        ensures
            r@.map_values(|t: &TicketMetadata| *t) == with_status(tickets@, status, tickets@.len()),
    {
        let mut out: Vec<&TicketMetadata> = Vec::new();
        let mut i: usize = 0;
        while i < tickets.len()
            invariant
                i <= tickets@.len(),
                out@.map_values(|t: &TicketMetadata| *t) == with_status(tickets@, status, i as nat),
            decreases tickets@.len() - i,
        {
            let t = &tickets[i];
            let ghost before = out@;
            if t.status == Some(status) {
                out.push(t);
                assert(out@.map_values(|t: &TicketMetadata| *t) =~= before.map_values(
                    |t: &TicketMetadata| *t,
                ).push(*t));
            }
            i = i + 1;
        }
        out
    }

    /// Number of tickets.
    pub fn ticket_count(tickets: &[TicketMetadata]) -> (r: usize)
        ensures
            r == tickets@.len(),
    {
        tickets.len()
    }

    /// Number of tickets with each status.
    pub fn status_counts(tickets: &[TicketMetadata]) -> (r: StatusCounts)
        ensures
            r.new == count_status(tickets@, TicketStatus::New, tickets@.len()),
            r.next == count_status(tickets@, TicketStatus::Next, tickets@.len()),
            r.in_progress == count_status(tickets@, TicketStatus::InProgress, tickets@.len()),
            r.complete == count_status(tickets@, TicketStatus::Complete, tickets@.len()),
            r.cancelled == count_status(tickets@, TicketStatus::Cancelled, tickets@.len()),
    {
        let mut c = StatusCounts { new: 0, next: 0, in_progress: 0, complete: 0, cancelled: 0 };
        let mut i: usize = 0;
        while i < tickets.len()
            invariant
                i <= tickets@.len(),
                c.new == count_status(tickets@, TicketStatus::New, i as nat),
                c.next == count_status(tickets@, TicketStatus::Next, i as nat),
                c.in_progress == count_status(tickets@, TicketStatus::InProgress, i as nat),
                c.complete == count_status(tickets@, TicketStatus::Complete, i as nat),
                c.cancelled == count_status(tickets@, TicketStatus::Cancelled, i as nat),
            decreases tickets@.len() - i,
        {
            proof {
                lemma_count_status_bound(tickets@, TicketStatus::New, i as nat);
                lemma_count_status_bound(tickets@, TicketStatus::Next, i as nat);
                lemma_count_status_bound(tickets@, TicketStatus::InProgress, i as nat);
                lemma_count_status_bound(tickets@, TicketStatus::Complete, i as nat);
                lemma_count_status_bound(tickets@, TicketStatus::Cancelled, i as nat);
            }
            match tickets[i].status {
                Some(TicketStatus::New) => c.new = c.new + 1,
                Some(TicketStatus::Next) => c.next = c.next + 1,
                Some(TicketStatus::InProgress) => c.in_progress = c.in_progress + 1,
                Some(TicketStatus::Complete) => c.complete = c.complete + 1,
                Some(TicketStatus::Cancelled) => c.cancelled = c.cancelled + 1,
                None => {},
            }
            i = i + 1;
        }
        c
    }

    /// Sorts tickets by priority (most urgent first), then by id.
    pub fn sort_by_priority(tickets: &mut Vec<TicketMetadata>)
        ensures
            tickets_sorted(final(tickets)@, true),
            final(tickets)@.to_multiset() == old(tickets)@.to_multiset(),
            forall|i: int, j: int|
                0 <= i < j < final(tickets)@.len() ==> ticket_priority_num(#[trigger] final(tickets)@[i])
                    <= ticket_priority_num(#[trigger] final(tickets)@[j]),
    {
        let mut v: Vec<TicketMetadata> = Vec::new();
        std::mem::swap(&mut v, tickets);
        let sorted = sort_tickets(v, true);
        *tickets = sorted;
    }
}

} // verus!
