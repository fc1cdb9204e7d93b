//! Fuzzy filtering of the two lists of the remote interface: local tickets
//! and remote issues.
use vstd::prelude::*;

use crate::remote::{RemoteIssue, remote_status_text, same_issue};
use crate::text::{concat, contains_seq, occurs_at};
use crate::tui::search::{
    filter_items, filter_outcome, lemma_matches_prefix,
    matches_in_order, rank_by_score, text_or_empty, texts_of, ticket_title_info, type_text,
    utf8_len, wrapping_succ,
};
use crate::types::{TicketMetadata, TicketStatus, same_ticket, status_name};

verus! {

broadcast use vstd::string::group_string_axioms;

/// A local ticket with its match score and matched title positions.
#[derive(Debug, Clone, Default)]
pub struct FilteredLocalTicket {
    pub ticket: TicketMetadata,
    pub score: i64,
    pub title_indices: Vec<usize>,
}

/// A remote issue with its match score and matched title positions.
#[derive(Debug, Clone)]
pub struct FilteredRemoteIssue {
    pub issue: RemoteIssue,
    pub score: i64,
    pub title_indices: Vec<usize>,
}

/// How a list is ordered after filtering by `query`: all items in order
/// and unscored for an empty query, else the matches ranked by score.
pub open spec fn ranking(
    n: nat,
    texts: Seq<Seq<char>>,
    infos: Seq<(usize, usize)>,
    query: Seq<char>,
) -> Seq<(int, i64, Seq<usize>)> {
    if query.len() == 0 {
        Seq::new(n, |k: int| (k, 0i64, Seq::<usize>::empty()))
    } else {
        rank_by_score(matches_in_order(texts, infos, query, n))
    }
}

/// The text a local ticket is matched on: id, title, type and status
/// (`new` when absent), separated by spaces.
pub open spec fn local_ticket_text(t: TicketMetadata) -> Seq<char> {
    let status = match t.status {
        Some(s) => s,
        None => TicketStatus::New,
    };
    text_or_empty(t.id) + seq![' '] + text_or_empty(t.title) + seq![' '] + type_text(t.ticket_type)
        + seq![' '] + status_name(status)
}

/// The ranking of local tickets for `query`.
pub open spec fn local_ranking(ts: Seq<TicketMetadata>, query: Seq<char>) -> Seq<(int, i64, Seq<usize>)> {
    ranking(
        ts.len(),
        Seq::new(ts.len(), |k: int| local_ticket_text(ts[k])),
        Seq::new(ts.len(), |k: int| ticket_title_info(ts[k])),
        query,
    )
}

/// `labels` joined with single spaces.
pub open spec fn space_joined(labels: Seq<Seq<char>>) -> Seq<char>
    decreases labels.len(),
{
    if labels.len() == 0 {
        seq![]
    } else if labels.len() == 1 {
        labels[0]
    } else {
        space_joined(labels.drop_last()) + seq![' '] + labels.last()
    }
}

/// The text a remote issue is matched on: id, title, status, labels,
/// assignee and team, separated by spaces.
pub open spec fn remote_issue_text(i: RemoteIssue) -> Seq<char> {
    i.id@ + seq![' '] + i.title@ + seq![' '] + remote_status_text(i.status) + seq![' ']
        + space_joined(i.labels.deep_view()) + seq![' '] + text_or_empty(i.assignee) + seq![' ']
        + text_or_empty(i.team)
}

/// Each of `labels` occurs in their space-joined text, at the position
/// returned.
proof fn lemma_label_in_joined(labels: Seq<Seq<char>>, k: int) -> (pos: int)
    requires
        0 <= k < labels.len(),
    ensures
        occurs_at(space_joined(labels), labels[k], pos),
    decreases labels.len(),
{
    let j = space_joined(labels);
    if labels.len() == 1 {
        assert(j.subrange(0, labels[0].len() as int) =~= labels[0]);
        0
    } else {
        let prev = space_joined(labels.drop_last());
        if k == labels.len() - 1 {
            let p: int = prev.len() as int + 1;
            assert(j.subrange(p, p + labels[k].len()) =~= labels[k]);
            p
        } else {
            let p = lemma_label_in_joined(labels.drop_last(), k);
            assert(j.subrange(p, p + labels[k].len()) =~= prev.subrange(p, p + labels[k].len()));
            p
        }
    }
}

/// Every label of an issue is part of the text the issue is matched on, so
/// a search for a label searches the text that holds it.
pub proof fn lemma_issue_text_holds_labels(i: RemoteIssue, k: int)
    requires
        0 <= k < i.labels@.len(),
    ensures
        contains_seq(remote_issue_text(i), i.labels@[k]@),
{
    let labels = i.labels.deep_view();
    assert(labels[k] == i.labels@[k]@);
    let pos = lemma_label_in_joined(labels, k);
    let head = i.id@ + seq![' '] + i.title@ + seq![' '] + remote_status_text(i.status) + seq![' '];
    let j = space_joined(labels);
    let t = remote_issue_text(i);
    let p: int = head.len() + pos;
    assert(t.subrange(p, p + labels[k].len()) =~= j.subrange(pos, pos + labels[k].len()));
    assert(occurs_at(t, labels[k], p));
}

/// Where the title lies in an issue's search text.
pub open spec fn issue_title_info(i: RemoteIssue) -> (usize, usize) {
    (wrapping_succ(utf8_len(i.id@) as usize), utf8_len(i.title@) as usize)
}

/// The ranking of remote issues for `query`.
pub open spec fn remote_ranking(is: Seq<RemoteIssue>, query: Seq<char>) -> Seq<(int, i64, Seq<usize>)> {
    ranking(
        is.len(),
        Seq::new(is.len(), |k: int| remote_issue_text(is[k])),
        Seq::new(is.len(), |k: int| issue_title_info(is[k])),
        query,
    )
}

/// `out` is the local list for `query`: the tickets of `local_ranking`, in
/// its order, with their scores and title positions.
pub open spec fn local_list_of(out: Seq<FilteredLocalTicket>, ts: Seq<TicketMetadata>, query: Seq<char>) -> bool {
    let rk = local_ranking(ts, query);
    &&& out.len() == rk.len()
    &&& forall|j: int|
        0 <= j < out.len() ==> {
            &&& 0 <= #[trigger] rk[j].0 < ts.len()
            &&& same_ticket(out[j].ticket, ts[rk[j].0])
            &&& out[j].score == rk[j].1
            &&& out[j].title_indices@ == rk[j].2
        }
}

/// `out` is the remote list for `query`: the issues of `remote_ranking`, in
/// its order, with their scores and title positions.
pub open spec fn remote_list_of(out: Seq<FilteredRemoteIssue>, is: Seq<RemoteIssue>, query: Seq<char>) -> bool {
    let rk = remote_ranking(is, query);
    &&& out.len() == rk.len()
    &&& forall|j: int|
        0 <= j < out.len() ==> {
            &&& 0 <= #[trigger] rk[j].0 < is.len()
            &&& same_issue(out[j].issue, is[rk[j].0])
            &&& out[j].score == rk[j].1
            &&& out[j].title_indices@ == rk[j].2
        }
}

fn local_ticket_string(t: &TicketMetadata) -> (r: String)
    ensures
        r@ == local_ticket_text(*t),
{
    let id = match &t.id {
        Some(s) => s.as_str(),
        None => "",
    };
    let title = match &t.title {
        Some(s) => s.as_str(),
        None => "",
    };
    let tt = match t.ticket_type {
        Some(tt) => tt.as_str(),
        None => "",
    };
    let status = match t.status {
        Some(s) => s,
        None => TicketStatus::New,
    };
    proof {
        reveal_strlit("");
        reveal_strlit(" ");
    }
    let a = concat(id, " ");
    let b = concat(a.as_str(), title);
    let c = concat(b.as_str(), " ");
    let d = concat(c.as_str(), tt);
    let e = concat(d.as_str(), " ");
    concat(e.as_str(), status.as_str())
}

fn ticket_extent(t: &TicketMetadata) -> (r: (usize, usize))
    ensures
        r == ticket_title_info(*t),
{
    let id_len = match &t.id {
        Some(s) => s.as_str().len(),
        None => 0,
    };
    let title_len = match &t.title {
        Some(s) => s.as_str().len(),
        None => 0,
    };
    (if id_len == usize::MAX {
        0
    } else {
        id_len + 1
    }, title_len)
}

fn space_join(labels: &Vec<String>) -> (r: String)
    ensures
        r@ == space_joined(labels.deep_view()),
{
    let mut r = String::new();
    let mut i: usize = 0;
    proof {
        reveal_strlit(" ");
    }
    while i < labels.len()
        invariant
            i <= labels@.len(),
            r@ == space_joined(labels.deep_view().take(i as int)),
        decreases labels@.len() - i,
    {
        proof {
            assert(labels.deep_view().take(i + 1).drop_last() =~= labels.deep_view().take(i as int));
        }
        proof {
            reveal_strlit(" ");
        }
        let ghost t = labels.deep_view().take(i + 1);
        assert(t.last() == labels@[i as int]@);
        if i == 0 {
            r = labels[i].clone();
            assert(t =~= seq![labels@[0]@]);
        } else {
            let a = concat(r.as_str(), " ");
            r = concat(a.as_str(), labels[i].as_str());
        }
        i = i + 1;
    }
    assert(labels.deep_view().take(labels@.len() as int) =~= labels.deep_view());
    r
}

fn remote_issue_string(issue: &RemoteIssue) -> (r: String)
    ensures
        r@ == remote_issue_text(*issue),
{
    proof {
        reveal_strlit("");
        reveal_strlit(" ");
    }
    let assignee = match &issue.assignee {
        Some(s) => s.as_str(),
        None => "",
    };
    let team = match &issue.team {
        Some(s) => s.as_str(),
        None => "",
    };
    let status = issue.status.to_string();
    let labels = space_join(&issue.labels);
    let a = concat(issue.id.as_str(), " ");
    let b = concat(a.as_str(), issue.title.as_str());
    let c = concat(b.as_str(), " ");
    let d = concat(c.as_str(), status.as_str());
    let e = concat(d.as_str(), " ");
    let f = concat(e.as_str(), labels.as_str());
    let g = concat(f.as_str(), " ");
    let h = concat(g.as_str(), assignee);
    let k = concat(h.as_str(), " ");
    concat(k.as_str(), team)
}

fn issue_extent(issue: &RemoteIssue) -> (r: (usize, usize))
    ensures
        r == issue_title_info(*issue),
{
    let id_len = issue.id.as_str().len();
    (if id_len == usize::MAX {
        0
    } else {
        id_len + 1
    }, issue.title.as_str().len())
}

/// Filters local tickets by a fuzzy query (on id, title, type and status)
/// and ranks the matches, best first; an empty query keeps all tickets.
pub fn filter_local_tickets(tickets: &[TicketMetadata], query: &str) -> (r: Vec<FilteredLocalTicket>)
    ensures
        local_list_of(r@, tickets@, query@),
{
    let search = |t: &TicketMetadata| -> (s: String)
        ensures
            s@ == local_ticket_text(*t),
        { local_ticket_string(t) };
    let extent = |t: &TicketMetadata| -> (e: (usize, usize))
        ensures
            e == ticket_title_info(*t),
        { ticket_extent(t) };
    let results = filter_items(tickets, query, search, extent);
    let ghost rk = local_ranking(tickets@, query@);
    proof {
        if query@.len() > 0 {
            let (strs, infos) = choose|strs: Seq<String>, infos: Seq<(usize, usize)>|
                #[trigger] filter_outcome(tickets@, query@, search, extent, results@, strs, infos);
            let n = tickets@.len();
            let texts = Seq::new(n, |k: int| local_ticket_text(tickets@[k]));
            let spec_infos = Seq::new(n, |k: int| ticket_title_info(tickets@[k]));
            assert(texts_of(strs) =~= texts);
            lemma_matches_prefix(texts_of(strs), infos, texts, spec_infos, query@, n);
            let ranked = rank_by_score(matches_in_order(texts_of(strs), infos, query@, n));
            assert(ranked == rk);
            assert forall|j: int| 0 <= j < results@.len() implies {
                &&& 0 <= #[trigger] rk[j].0 < tickets@.len()
                &&& cloned(tickets@[rk[j].0], results@[j].item)
                &&& results@[j].score == rk[j].1
                &&& results@[j].title_indices@ == rk[j].2
            } by {
                assert(0 <= ranked[j].0);
            }
        } else {
            assert forall|j: int| 0 <= j < results@.len() implies {
                &&& 0 <= #[trigger] rk[j].0 < tickets@.len()
                &&& cloned(tickets@[rk[j].0], results@[j].item)
                &&& results@[j].score == rk[j].1
                &&& results@[j].title_indices@ == rk[j].2
            } by {
                assert(results@[j].score == 0);
                assert(results@[j].title_indices@ =~= rk[j].2);
            }
        }
    }
    let mut out: Vec<FilteredLocalTicket> = Vec::new();
    let ghost rs = results@;
    for f in it: results
        invariant
            it.seq() == rs,
            rs.len() == rk.len(),
            forall|j: int|
                0 <= j < rs.len() ==> {
                    &&& 0 <= #[trigger] rk[j].0 < tickets@.len()
                    &&& cloned(tickets@[rk[j].0], rs[j].item)
                    &&& rs[j].score == rk[j].1
                    &&& rs[j].title_indices@ == rk[j].2
                },
            out@.len() == it.index(),
            forall|j: int|
                0 <= j < out@.len() ==> {
                    &&& same_ticket(#[trigger] out@[j].ticket, tickets@[rk[j].0])
                    &&& out@[j].score == rk[j].1
                    &&& out@[j].title_indices@ == rk[j].2
                },
    {
        proof {
            assert(0 <= rk[it.index() as int].0);
        }
        out.push(FilteredLocalTicket { ticket: f.item, score: f.score, title_indices: f.title_indices });
    }
    out
}

/// Filters remote issues by a fuzzy query (on id, title, status, labels,
/// assignee and team) and ranks the matches, best first; an empty query
/// keeps all issues.
pub fn filter_remote_issues(issues: &[RemoteIssue], query: &str) -> (r: Vec<FilteredRemoteIssue>)
    ensures
        remote_list_of(r@, issues@, query@),
{
    let search = |i: &RemoteIssue| -> (s: String)
        ensures
            s@ == remote_issue_text(*i),
        { remote_issue_string(i) };
    let extent = |i: &RemoteIssue| -> (e: (usize, usize))
        ensures
            e == issue_title_info(*i),
        { issue_extent(i) };
    let results = filter_items(issues, query, search, extent);
    let ghost rk = remote_ranking(issues@, query@);
    proof {
        if query@.len() > 0 {
            let (strs, infos) = choose|strs: Seq<String>, infos: Seq<(usize, usize)>|
                #[trigger] filter_outcome(issues@, query@, search, extent, results@, strs, infos);
            let n = issues@.len();
            let texts = Seq::new(n, |k: int| remote_issue_text(issues@[k]));
            let spec_infos = Seq::new(n, |k: int| issue_title_info(issues@[k]));
            assert(texts_of(strs) =~= texts);
            lemma_matches_prefix(texts_of(strs), infos, texts, spec_infos, query@, n);
            let ranked = rank_by_score(matches_in_order(texts_of(strs), infos, query@, n));
            assert(ranked == rk);
            assert forall|j: int| 0 <= j < results@.len() implies {
                &&& 0 <= #[trigger] rk[j].0 < issues@.len()
                &&& cloned(issues@[rk[j].0], results@[j].item)
                &&& results@[j].score == rk[j].1
                &&& results@[j].title_indices@ == rk[j].2
            } by {
                assert(0 <= ranked[j].0);
            }
        } else {
            assert forall|j: int| 0 <= j < results@.len() implies {
                &&& 0 <= #[trigger] rk[j].0 < issues@.len()
                &&& cloned(issues@[rk[j].0], results@[j].item)
                &&& results@[j].score == rk[j].1
                &&& results@[j].title_indices@ == rk[j].2
            } by {
                assert(results@[j].score == 0);
                assert(results@[j].title_indices@ =~= rk[j].2);
            }
        }
    }
    let mut out: Vec<FilteredRemoteIssue> = Vec::new();
    let ghost rs = results@;
    for f in it: results
        invariant
            it.seq() == rs,
            rs.len() == rk.len(),
            forall|j: int|
                0 <= j < rs.len() ==> {
                    &&& 0 <= #[trigger] rk[j].0 < issues@.len()
                    &&& cloned(issues@[rk[j].0], rs[j].item)
                    &&& rs[j].score == rk[j].1
                    &&& rs[j].title_indices@ == rk[j].2
                },
            out@.len() == it.index(),
            forall|j: int|
                0 <= j < out@.len() ==> {
                    &&& same_issue(#[trigger] out@[j].issue, issues@[rk[j].0])
                    &&& out@[j].score == rk[j].1
                    &&& out@[j].title_indices@ == rk[j].2
                },
    {
        proof {
            assert(0 <= rk[it.index() as int].0);
        }
        out.push(FilteredRemoteIssue { issue: f.item, score: f.score, title_indices: f.title_indices });
    }
    out
}

} // verus!
