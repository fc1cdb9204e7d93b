//! Fuzzy search over tickets and other items.
//!
//! Items are turned into searchable text and matched against the query with
//! the skim fuzzy matcher (smart case). Matches are ranked by score, best
//! first; items with equal scores keep their input order. A `p0`..`p4` token
//! in a ticket query restricts the search to that priority. A leading `~`
//! marks a semantic query, whose results are merged after the fuzzy ones.
use vstd::prelude::*;

use std::sync::Arc;

use fuzzy_matcher::FuzzyMatcher;
use fuzzy_matcher::skim::SkimMatcherV2;

use crate::text::{chars_of, concat, str_eq, string_from_chars};
use crate::types::{
    TicketMetadata, TicketType, same_ticket, ticket_priority_num, ticket_type_name,
};
use crate::utils::{
    parse_priority_filter, priority_filter_of, priority_stripped, strip_priority_shorthand,
};

verus! {

broadcast use vstd::string::group_string_axioms;

// ---------------------------------------------------------------------------
// The fuzzy matcher
// ---------------------------------------------------------------------------

/// What `SkimMatcherV2::default().smart_case().fuzzy_indices(choice, pattern)`
/// returns for these characters: `None` when the pattern does not match,
/// else the score and the matched character positions of `choice`.
pub uninterp spec fn skim_match(choice: Seq<char>, pattern: Seq<char>) -> Option<(i64, Seq<usize>)>;

/// `SkimMatcherV2::fuzzy_indices` with smart case; its result is named by
/// `skim_match`.
#[verifier::external_body]
fn skim_fuzzy_indices(choice: &str, pattern: &str) -> (r: Option<(i64, Vec<usize>)>)
    ensures
        match r {
            Some((score, indices)) => skim_match(choice@, pattern@) == Some((score, indices@)),
            None => skim_match(choice@, pattern@) is None,
        },
{
    SkimMatcherV2::default().smart_case().fuzzy_indices(choice, pattern)
}

// ---------------------------------------------------------------------------
// Ranking, stated over plain values
// ---------------------------------------------------------------------------

/// The matched positions that fall inside the title, which starts at
/// `id_len` and has `title_len` characters, made relative to the title.
pub open spec fn title_window(idx: Seq<usize>, id_len: usize, title_len: usize) -> Seq<usize>
    decreases idx.len(),
{
    if idx.len() == 0 {
        seq![]
    } else {
        let prev = title_window(idx.drop_last(), id_len, title_len);
        let i = idx.last();
        if id_len <= i && i < id_len + title_len {
            prev.push((i - id_len) as usize)
        } else {
            prev
        }
    }
}

/// The first `n` items that match `query`, in input order, each as
/// (position of the item, score, title positions).
pub open spec fn matches_in_order(
    texts: Seq<Seq<char>>,
    infos: Seq<(usize, usize)>,
    query: Seq<char>,
    n: nat,
) -> Seq<(int, i64, Seq<usize>)>
    decreases n,
{
    if n == 0 {
        seq![]
    } else {
        let prev = matches_in_order(texts, infos, query, (n - 1) as nat);
        match skim_match(texts[n - 1], query) {
            Some(m) => prev.push(
                (n - 1, m.0, title_window(m.1, infos[n - 1].0, infos[n - 1].1)),
            ),
            None => prev,
        }
    }
}

/// Where an entry with `score` goes in `s`: after every entry that scores
/// at least as much.
pub open spec fn insert_pos(s: Seq<(int, i64, Seq<usize>)>, score: i64) -> nat
    decreases s.len(),
{
    if s.len() == 0 {
        0
    } else if s[0].1 < score {
        0
    } else {
        1 + insert_pos(s.drop_first(), score)
    }
}

/// `s` ordered by score, highest first; equal scores keep their order.
pub open spec fn rank_by_score(s: Seq<(int, i64, Seq<usize>)>) -> Seq<(int, i64, Seq<usize>)>
    decreases s.len(),
{
    if s.len() == 0 {
        s
    } else {
        let sorted = rank_by_score(s.drop_last());
        sorted.insert(insert_pos(sorted, s.last().1) as int, s.last())
    }
}

/// The scores of `s` do not increase.
pub open spec fn scores_descending(s: Seq<(int, i64, Seq<usize>)>) -> bool {
    forall|i: int, j: int| 0 <= i < j < s.len() ==> s[i].1 >= s[j].1
}

proof fn lemma_insert_pos_bound(s: Seq<(int, i64, Seq<usize>)>, score: i64)
    ensures
        insert_pos(s, score) <= s.len(),
        forall|i: int| 0 <= i < insert_pos(s, score) ==> s[i].1 >= score,
        insert_pos(s, score) < s.len() ==> s[insert_pos(s, score) as int].1 < score,
    decreases s.len(),
{
    if s.len() > 0 && s[0].1 >= score {
        lemma_insert_pos_bound(s.drop_first(), score);
        assert forall|i: int| 0 <= i < insert_pos(s, score) implies s[i].1 >= score by {
            if i > 0 {
                assert(s[i] == s.drop_first()[i - 1]);
            }
        }
    }
}

/// The first position whose score is below `score` is where it is inserted.
proof fn lemma_insert_pos_is(s: Seq<(int, i64, Seq<usize>)>, score: i64, j: int)
    requires
        0 <= j <= s.len(),
        forall|i: int| 0 <= i < j ==> s[i].1 >= score,
        j < s.len() ==> s[j].1 < score,
    ensures
        insert_pos(s, score) == j,
    decreases j,
{
    if j > 0 {
        assert forall|i: int| 0 <= i < j - 1 implies s.drop_first()[i].1 >= score by {
            assert(s.drop_first()[i] == s[i + 1]);
        }
        if j - 1 < s.drop_first().len() {
            assert(s.drop_first()[j - 1] == s[j]);
        }
        lemma_insert_pos_is(s.drop_first(), score, j - 1);
    }
}

/// Ranking keeps the entries and orders them by descending score.
pub proof fn lemma_rank_by_score_sorted(s: Seq<(int, i64, Seq<usize>)>)
    ensures
        rank_by_score(s).len() == s.len(),
        rank_by_score(s).to_multiset() == s.to_multiset(),
        scores_descending(rank_by_score(s)),
    decreases s.len(),
{
    broadcast use vstd::seq_lib::group_to_multiset_ensures;

    if s.len() > 0 {
        let sorted = rank_by_score(s.drop_last());
        lemma_rank_by_score_sorted(s.drop_last());
        let p = insert_pos(sorted, s.last().1);
        lemma_insert_pos_bound(sorted, s.last().1);
        let r = sorted.insert(p as int, s.last());
        assert(r == sorted.take(p as int) + seq![s.last()] + sorted.skip(p as int));
        assert forall|i: int, j: int| 0 <= i < j < r.len() implies r[i].1 >= r[j].1 by {
            if j < p {
            } else if j == p {
            } else if i < p {
                assert(r[j] == sorted[j - 1]);
            } else if i == p {
                assert(r[j] == sorted[j - 1]);
                assert(sorted[p as int].1 < s.last().1);
                assert(sorted[p as int].1 >= sorted[j - 1].1);
            } else {
                assert(r[i] == sorted[i - 1]);
                assert(r[j] == sorted[j - 1]);
            }
        }
        vstd::seq_lib::lemma_multiset_commutative(sorted.take(p as int), seq![s.last()]);
        vstd::seq_lib::lemma_multiset_commutative(
            sorted.take(p as int) + seq![s.last()],
            sorted.skip(p as int),
        );
        vstd::seq_lib::lemma_multiset_commutative(sorted.take(p as int), sorted.skip(p as int));
        assert(sorted.take(p as int) + sorted.skip(p as int) == sorted);
        assert(s.drop_last().push(s.last()) == s);
    }
}

// ---------------------------------------------------------------------------
// Generic filtering
// ---------------------------------------------------------------------------

/// An item that matched a query, with its score and the matched positions
/// of its title.
#[derive(Debug, Clone)]
pub struct FilteredItem<T> {
    pub item: T,
    pub score: i64,
    pub title_indices: Vec<usize>,
}

/// The texts of the strings in `strs`.
pub open spec fn texts_of(strs: Seq<String>) -> Seq<Seq<char>> {
    Seq::new(strs.len(), |k: int| strs[k]@)
}

/// `out` holds, in order, the ranked entries of `ranked`, each with a clone
/// of the item it names.
pub open spec fn agrees_with<T: Clone>(
    out: Seq<FilteredItem<T>>,
    items: Seq<T>,
    ranked: Seq<(int, i64, Seq<usize>)>,
) -> bool {
    &&& out.len() == ranked.len()
    &&& forall|j: int|
        0 <= j < out.len() ==> {
            &&& 0 <= #[trigger] ranked[j].0 < items.len()
            &&& out[j].score == ranked[j].1
            &&& out[j].title_indices@ == ranked[j].2
            &&& cloned(items[ranked[j].0], out[j].item)
        }
}

/// What `filter_items` returns for a non-empty query, given the searchable
/// strings the first closure gave and the title extents the second gave for
/// the items that matched.
pub open spec fn filter_outcome<T: Clone, F: Fn(&T) -> String, G: Fn(&T) -> (usize, usize)>(
    items: Seq<T>,
    query: Seq<char>,
    make_searchable: F,
    extract_title_info: G,
    out: Seq<FilteredItem<T>>,
    strs: Seq<String>,
    infos: Seq<(usize, usize)>,
) -> bool {
    &&& strs.len() == items.len()
    &&& infos.len() == items.len()
    &&& forall|k: int|
        0 <= k < items.len() ==> call_ensures(make_searchable, (&items[k],), #[trigger] strs[k])
    &&& forall|k: int|
        0 <= k < items.len() && skim_match(strs[k]@, query) is Some ==> call_ensures(
            extract_title_info,
            (&items[k],),
            #[trigger] infos[k],
        )
    &&& agrees_with(
        out,
        items,
        rank_by_score(matches_in_order(texts_of(strs), infos, query, items.len())),
    )
}

/// Every item, unranked, with score 0 and no highlighted positions.
pub open spec fn all_unscored<T: Clone>(out: Seq<FilteredItem<T>>, items: Seq<T>) -> bool {
    &&& out.len() == items.len()
    &&& forall|j: int|
        0 <= j < out.len() ==> {
            &&& #[trigger] out[j].score == 0
            &&& out[j].title_indices@.len() == 0
            &&& cloned(items[j], out[j].item)
        }
}

/// The positions of `idx` that fall in the title, relative to the title.
fn title_positions(idx: &Vec<usize>, id_len: usize, title_len: usize) -> (r: Vec<usize>)
    ensures
        r@ == title_window(idx@, id_len, title_len),
{
    let mut r: Vec<usize> = Vec::new();
    let mut k: usize = 0;
    while k < idx.len()
        invariant
            k <= idx@.len(),
            r@ == title_window(idx@.take(k as int), id_len, title_len),
        decreases idx@.len() - k,
    {
        let i = idx[k];
        proof {
            assert(idx@.take(k + 1).drop_last() == idx@.take(k as int));
        }
        if i >= id_len && i - id_len < title_len {
            r.push(i - id_len);
        }
        k = k + 1;
    }
    assert(idx@.take(idx@.len() as int) == idx@);
    r
}

/// Filters `items` by a fuzzy `query` and ranks the matches by score, best
/// first (equal scores keep their input order).
///
/// `make_searchable` gives the text an item is matched on;
/// `extract_title_info` gives the extent (start, length) of the title in that
/// text, so that the matched title positions can be highlighted. An empty
/// query keeps every item with score 0.
pub fn filter_items<T, F, G>(
    items: &[T],
    query: &str,
    make_searchable: F,
    extract_title_info: G,
) -> (r: Vec<FilteredItem<T>>) where T: Clone, F: Fn(&T) -> String, G: Fn(&T) -> (usize, usize)
    requires
        forall|t: &T| #[trigger] make_searchable.requires((t,)),
        forall|t: &T| #[trigger] extract_title_info.requires((t,)),
    ensures
        query@.len() == 0 ==> all_unscored(r@, items@),
        query@.len() > 0 ==> exists|strs: Seq<String>, infos: Seq<(usize, usize)>|
            #[trigger] filter_outcome(
                items@,
                query@,
                make_searchable,
                extract_title_info,
                r@,
                strs,
                infos,
            ),
{
    if query.unicode_len() == 0 {
        let mut out: Vec<FilteredItem<T>> = Vec::new();
        let mut k: usize = 0;
        while k < items.len()
            invariant
                k <= items@.len(),
                all_unscored(out@, items@.take(k as int)),
            decreases items@.len() - k,
        {
            let c = items[k].clone();
            assert(cloned(items@[k as int], c));
            let ghost prev = out@;
            out.push(FilteredItem { item: c, score: 0, title_indices: Vec::new() });
            k = k + 1;
            assert forall|j: int| 0 <= j < out@.len() implies {
                &&& #[trigger] out@[j].score == 0
                &&& out@[j].title_indices@.len() == 0
                &&& cloned(items@.take(k as int)[j], out@[j].item)
            } by {
                assert(items@.take(k as int)[j] == items@[j]);
                if j < k - 1 {
                    assert(out@[j] == prev[j]);
                    assert(prev[j].score == 0);
                    assert(items@.take(k - 1)[j] == items@[j]);
                }
            }
        }
        assert(items@.take(items@.len() as int) == items@);
        return out;
    }
    let mut results: Vec<FilteredItem<T>> = Vec::new();
    let ghost mut strs: Seq<String> = seq![];
    let ghost mut infos: Seq<(usize, usize)> = seq![];
    let mut k: usize = 0;
    while k < items.len()
        invariant
            forall|t: &T| #[trigger] make_searchable.requires((t,)),
            forall|t: &T| #[trigger] extract_title_info.requires((t,)),
            k <= items@.len(),
            strs.len() == k,
            infos.len() == k,
            forall|i: int|
                0 <= i < k ==> call_ensures(make_searchable, (&items@[i],), #[trigger] strs[i]),
            forall|i: int|
                0 <= i < k && skim_match(strs[i]@, query@) is Some ==> call_ensures(
                    extract_title_info,
                    (&items@[i],),
                    #[trigger] infos[i],
                ),
            agrees_with(
                results@,
                items@,
                rank_by_score(matches_in_order(texts_of(strs), infos, query@, k as nat)),
            ),
        decreases items@.len() - k,
    {
        let text = make_searchable(&items[k]);
        let found = skim_fuzzy_indices(text.as_str(), query);
        let ghost old_strs = strs;
        let ghost old_infos = infos;
        let ghost ranked = rank_by_score(matches_in_order(texts_of(strs), infos, query@, k as nat));
        match found {
            Some((score, indices)) => {
                let info = extract_title_info(&items[k]);
                let title_indices = title_positions(&indices, info.0, info.1);
                let mut pos: usize = 0;
                while pos < results.len() && results[pos].score >= score
                    invariant
                        pos <= results@.len(),
                        results@.len() == ranked.len(),
                        agrees_with(results@, items@, ranked),
                        forall|i: int| 0 <= i < pos ==> ranked[i].1 >= score,
                    decreases results@.len() - pos,
                {
                    assert(0 <= ranked[pos as int].0);
                    pos = pos + 1;
                }
                proof {
                    if pos < results@.len() {
                        assert(0 <= ranked[pos as int].0);
                    }
                    lemma_insert_pos_is(ranked, score, pos as int);
                }
                let entry = FilteredItem { item: items[k].clone(), score, title_indices };
                let ghost new_entry = (k as int, score, title_window(indices@, info.0, info.1));
                let ghost before = results@;
                results.insert(pos, entry);
                proof {
                    strs = strs.push(text);
                    infos = infos.push(info);
                    let m = matches_in_order(texts_of(strs), infos, query@, (k + 1) as nat);
                    lemma_matches_prefix(texts_of(old_strs), old_infos, texts_of(strs), infos, query@, k as nat);
                    assert(texts_of(strs)[k as int] == text@);
                    assert(m == matches_in_order(texts_of(old_strs), old_infos, query@, k as nat).push(new_entry));
                    assert(m.drop_last() == matches_in_order(texts_of(old_strs), old_infos, query@, k as nat));
                    let nr = rank_by_score(m);
                    assert(nr == ranked.insert(pos as int, new_entry));
                    assert forall|j: int| 0 <= j < results@.len() implies {
                        &&& 0 <= #[trigger] nr[j].0 < items@.len()
                        &&& results@[j].score == nr[j].1
                        &&& results@[j].title_indices@ == nr[j].2
                        &&& cloned(items@[nr[j].0], results@[j].item)
                    } by {
                        if j < pos {
                            assert(results@[j] == before[j]);
                            assert(nr[j] == ranked[j]);
                        } else if j == pos {
                        } else {
                            assert(results@[j] == before[j - 1]);
                            assert(nr[j] == ranked[j - 1]);
                        }
                    }
                    assert forall|i: int|
                        0 <= i < k + 1 implies call_ensures(make_searchable, (&items@[i],), #[trigger] strs[i]) by {
                        if i < k {
                            assert(strs[i] == old_strs[i]);
                        }
                    }
                    assert forall|i: int|
                        0 <= i < k + 1 && skim_match(strs[i]@, query@) is Some implies call_ensures(
                            extract_title_info,
                            (&items@[i],),
                            #[trigger] infos[i],
                        ) by {
                        if i < k {
                            assert(strs[i] == old_strs[i]);
                            assert(infos[i] == old_infos[i]);
                        }
                    }
                }
            },
            None => {
                proof {
                    strs = strs.push(text);
                    infos = infos.push((0usize, 0usize));
                    lemma_matches_prefix(texts_of(old_strs), old_infos, texts_of(strs), infos, query@, k as nat);
                    assert(texts_of(strs)[k as int] == text@);
                    assert forall|i: int|
                        0 <= i < k + 1 implies call_ensures(make_searchable, (&items@[i],), #[trigger] strs[i]) by {
                        if i < k {
                            assert(strs[i] == old_strs[i]);
                        }
                    }
                    assert forall|i: int|
                        0 <= i < k + 1 && skim_match(strs[i]@, query@) is Some implies call_ensures(
                            extract_title_info,
                            (&items@[i],),
                            #[trigger] infos[i],
                        ) by {
                        if i < k {
                            assert(strs[i] == old_strs[i]);
                            assert(infos[i] == old_infos[i]);
                        }
                    }
                }
            },
        }
        k = k + 1;
    }
    assert(filter_outcome(
        items@,
        query@,
        make_searchable,
        extract_title_info,
        results@,
        strs,
        infos,
    ));
    results
}

/// `matches_in_order` over the first `n` items depends only on those items.
pub proof fn lemma_matches_prefix(
    t1: Seq<Seq<char>>,
    i1: Seq<(usize, usize)>,
    t2: Seq<Seq<char>>,
    i2: Seq<(usize, usize)>,
    query: Seq<char>,
    n: nat,
)
    requires
        n <= t1.len() <= t2.len(),
        n <= i1.len() <= i2.len(),
        forall|k: int| 0 <= k < n ==> t1[k] == t2[k],
        forall|k: int| 0 <= k < n && skim_match(t1[k], query) is Some ==> i1[k] == i2[k],
    ensures
        matches_in_order(t1, i1, query, n) == matches_in_order(t2, i2, query, n),
    decreases n,
{
    if n > 0 {
        lemma_matches_prefix(t1, i1, t2, i2, query, (n - 1) as nat);
    }
}

// ---------------------------------------------------------------------------
// Tickets
// ---------------------------------------------------------------------------

/// A ticket with its fuzzy match score and the matched positions of its
/// title.
#[derive(Debug, Clone, Default)]
pub struct FilteredTicket {
    /// The ticket (shared, so that results are cheap to copy).
    pub ticket: Arc<TicketMetadata>,
    /// The fuzzy match score (higher is better).
    pub score: i64,
    /// Positions of matched characters in the title, for highlighting.
    pub title_indices: Vec<usize>,
    /// Whether the ticket came from a semantic search.
    pub is_semantic: bool,
}

/// The characters of an optional string, empty when absent.
pub open spec fn text_or_empty(o: Option<String>) -> Seq<char> {
    match o {
        Some(s) => s@,
        None => seq![],
    }
}

/// Number of bytes of the UTF-8 encoding of `s`.
pub open spec fn utf8_len(s: Seq<char>) -> nat {
    vstd::utf8::encode_utf8(s).len()
}

/// The name of an optional ticket type, empty when absent.
pub open spec fn type_text(t: Option<TicketType>) -> Seq<char> {
    match t {
        Some(t) => ticket_type_name(t),
        None => seq![],
    }
}

/// The text a ticket is matched on: its id, title and type, separated by
/// single spaces.
pub open spec fn ticket_search_text(t: TicketMetadata) -> Seq<char> {
    text_or_empty(t.id) + seq![' '] + text_or_empty(t.title) + seq![' '] + type_text(t.ticket_type)
}

/// `n + 1`, wrapping to 0 past the largest `usize`.
pub open spec fn wrapping_succ(n: usize) -> usize {
    if n == usize::MAX {
        0
    } else {
        (n + 1) as usize
    }
}

/// Where the title lies in a ticket's search text: it starts after the id
/// and a space, and is as long as the title. Lengths are counted in bytes.
pub open spec fn ticket_title_info(t: TicketMetadata) -> (usize, usize) {
    let id_len: usize = match t.id {
        Some(s) => utf8_len(s@) as usize,
        None => 0,
    };
    let title_len: usize = match t.title {
        Some(s) => utf8_len(s@) as usize,
        None => 0,
    };
    (wrapping_succ(id_len), title_len)
}

/// The tickets of `ts` whose priority number is `p`, in order.
pub open spec fn with_priority(ts: Seq<TicketMetadata>, p: u8) -> Seq<TicketMetadata>
    decreases ts.len(),
{
    if ts.len() == 0 {
        seq![]
    } else {
        let prev = with_priority(ts.drop_last(), p);
        if ticket_priority_num(ts.last()) == p {
            prev.push(ts.last())
        } else {
            prev
        }
    }
}

/// The tickets a query searches: those of the priority its shorthand names,
/// or all of them.
pub open spec fn priority_prefiltered(ts: Seq<TicketMetadata>, query: Seq<char>) -> Seq<TicketMetadata> {
    match priority_filter_of(query) {
        Some(p) => with_priority(ts, p),
        None => ts,
    }
}

/// The tickets of `ts` that match `query`, in order, with scores and title
/// positions.
pub open spec fn ticket_matches(ts: Seq<TicketMetadata>, query: Seq<char>) -> Seq<(int, i64, Seq<usize>)> {
    matches_in_order(
        Seq::new(ts.len(), |k: int| ticket_search_text(ts[k])),
        Seq::new(ts.len(), |k: int| ticket_title_info(ts[k])),
        query,
        ts.len(),
    )
}

/// `out` is every ticket of `ts`, in order, with score 0, no highlights,
/// not semantic.
pub open spec fn tickets_unscored(out: Seq<FilteredTicket>, ts: Seq<TicketMetadata>) -> bool {
    &&& out.len() == ts.len()
    &&& forall|j: int|
        0 <= j < out.len() ==> {
            &&& same_ticket(*#[trigger] out[j].ticket, ts[j])
            &&& out[j].score == 0
            &&& out[j].title_indices@.len() == 0
            &&& !out[j].is_semantic
        }
}

/// `out` holds, in order, the ranked entries of `ranked` over the tickets `ts`.
pub open spec fn tickets_ranked(
    out: Seq<FilteredTicket>,
    ts: Seq<TicketMetadata>,
    ranked: Seq<(int, i64, Seq<usize>)>,
) -> bool {
    &&& out.len() == ranked.len()
    &&& forall|j: int|
        0 <= j < out.len() ==> {
            &&& 0 <= #[trigger] ranked[j].0 < ts.len()
            &&& same_ticket(*out[j].ticket, ts[ranked[j].0])
            &&& out[j].score == ranked[j].1
            &&& out[j].title_indices@ == ranked[j].2
            &&& !out[j].is_semantic
        }
}

/// The tickets kept for a priority are exactly those of that priority:
/// each has it, and each ticket of `ts` that has it is kept.
proof fn lemma_with_priority_exact(ts: Seq<TicketMetadata>, p: u8)
    ensures
        forall|j: int| 0 <= j < with_priority(ts, p).len() ==> ticket_priority_num(
            #[trigger] with_priority(ts, p)[j],
        ) == p,
        forall|k: int| 0 <= k < ts.len() && ticket_priority_num(ts[k]) == p ==> with_priority(ts, p).contains(
            #[trigger] ts[k],
        ),
    decreases ts.len(),
{
    if ts.len() > 0 {
        let prev = with_priority(ts.drop_last(), p);
        lemma_with_priority_exact(ts.drop_last(), p);
        assert forall|j: int| 0 <= j < with_priority(ts, p).len() implies ticket_priority_num(
            #[trigger] with_priority(ts, p)[j],
        ) == p by {
            if j < prev.len() {
                assert(with_priority(ts, p)[j] == prev[j]);
            }
        }
        assert forall|k: int| 0 <= k < ts.len() && ticket_priority_num(ts[k]) == p implies with_priority(
            ts,
            p,
        ).contains(#[trigger] ts[k]) by {
            if k < ts.len() - 1 {
                assert(ts[k] == ts.drop_last()[k]);
                let j = choose|j: int| 0 <= j < prev.len() && prev[j] == ts.drop_last()[k];
                if ticket_priority_num(ts.last()) == p {
                    assert(with_priority(ts, p)[j] == prev[j]);
                }
            } else {
                assert(with_priority(ts, p)[prev.len() as int] == ts[k]);
            }
        }
    }
}

/// Searching with the shorthand `p0` to `p4` alone (either case, any
/// whitespace around it) lists exactly the tickets of that priority: every
/// ticket listed has it, and every ticket that has it is listed.
pub proof fn lemma_priority_shorthand_lists_priority(
    ts: Seq<TicketMetadata>,
    out: Seq<FilteredTicket>,
    w1: Seq<char>,
    w2: Seq<char>,
    c: char,
    d: nat,
)
    requires
        crate::text::all_whitespace(w1),
        crate::text::all_whitespace(w2),
        c == 'p' || c == 'P',
        d <= 4,
        filter_tickets_result(out, ts, w1 + seq![c, crate::text::digit_char(d)] + w2),
    ensures
        forall|j: int| 0 <= j < out.len() ==> ticket_priority_num(*(#[trigger] out[j]).ticket) == d,
        forall|k: int|
            0 <= k < ts.len() && ticket_priority_num(ts[k]) == d ==> exists|j: int|
                0 <= j < out.len() && same_ticket(*(#[trigger] out[j]).ticket, ts[k]),
{
    let q = w1 + seq![c, crate::text::digit_char(d)] + w2;
    crate::utils::lemma_priority_shorthand_query(w1, w2, c, d);
    assert(q.len() > 0);
    let pref = with_priority(ts, d as u8);
    lemma_with_priority_exact(ts, d as u8);
    assert(tickets_unscored(out, pref));
    assert forall|j: int| 0 <= j < out.len() implies ticket_priority_num(*(#[trigger] out[j]).ticket) == d by {
        assert(same_ticket(*out[j].ticket, pref[j]));
        assert(ticket_priority_num(pref[j]) == d);
    }
    assert forall|k: int| 0 <= k < ts.len() && ticket_priority_num(ts[k]) == d implies exists|j: int|
        0 <= j < out.len() && same_ticket(*(#[trigger] out[j]).ticket, ts[k]) by {
        assert(pref.contains(ts[k]));
        let j = choose|j: int| 0 <= j < pref.len() && pref[j] == ts[k];
        assert(same_ticket(*out[j].ticket, pref[j]));
    }
}

/// What `filter_tickets` returns for `query` over `ts`.
pub open spec fn filter_tickets_result(
    out: Seq<FilteredTicket>,
    ts: Seq<TicketMetadata>,
    query: Seq<char>,
) -> bool {
    let pref = priority_prefiltered(ts, query);
    let fuzzy = priority_stripped(query);
    if query.len() == 0 {
        tickets_unscored(out, ts)
    } else if fuzzy.len() == 0 {
        tickets_unscored(out, pref)
    } else {
        tickets_ranked(out, pref, rank_by_score(ticket_matches(pref, fuzzy)))
    }
}

/// The characters of an optional string, or "" when absent.
fn str_or_empty(o: &Option<String>) -> (r: &str)
    ensures
        r@ == text_or_empty(*o),
{
    proof {
        reveal_strlit("");
    }
    match o {
        Some(s) => s.as_str(),
        None => "",
    }
}

/// The byte length of an optional string, 0 when absent.
fn byte_len_or_zero(o: &Option<String>) -> (r: usize)
    ensures
        r == match *o {
            Some(s) => utf8_len(s@) as usize,
            None => 0usize,
        },
{
    match o {
        Some(s) => s.as_str().len(),
        None => 0,
    }
}

/// The text a ticket is matched on.
fn ticket_search_string(t: &TicketMetadata) -> (r: String)
    ensures
        r@ == ticket_search_text(*t),
{
    let a = concat(str_or_empty(&t.id), " ");
    let b = concat(a.as_str(), str_or_empty(&t.title));
    let c = concat(b.as_str(), " ");
    let r = match t.ticket_type {
        Some(tt) => concat(c.as_str(), tt.as_str()),
        None => c,
    };
    proof {
        reveal_strlit(" ");
    }
    r
}

/// Where the title lies in a ticket's search text.
fn ticket_title_extent(t: &TicketMetadata) -> (r: (usize, usize))
    ensures
        r == ticket_title_info(*t),
{
    let id_len = byte_len_or_zero(&t.id);
    let id_end = if id_len == usize::MAX {
        0
    } else {
        id_len + 1
    };
    (id_end, byte_len_or_zero(&t.title))
}

/// A copy of a list of positions.
fn copy_positions(v: &Vec<usize>) -> (r: Vec<usize>)
    ensures
        r@ == v@,
{
    let mut r: Vec<usize> = Vec::new();
    let mut k: usize = 0;
    while k < v.len()
        invariant
            k <= v@.len(),
            r@ == v@.take(k as int),
        decreases v@.len() - k,
    {
        r.push(v[k]);
        k = k + 1;
        assert(r@ =~= v@.take(k as int));
    }
    assert(v@.take(v@.len() as int) == v@);
    r
}

/// Every ticket, unranked.
fn all_tickets_unscored(ts: &Vec<&TicketMetadata>) -> (r: Vec<FilteredTicket>)
    ensures
        tickets_unscored(r@, derefs(ts@)),
{
    let mut out: Vec<FilteredTicket> = Vec::new();
    let mut k: usize = 0;
    while k < ts.len()
        invariant
            k <= ts@.len(),
            tickets_unscored(out@, derefs(ts@).take(k as int)),
        decreases ts@.len() - k,
    {
        let t: &TicketMetadata = ts[k];
        out.push(
            FilteredTicket {
                ticket: Arc::new(t.clone()),
                score: 0,
                title_indices: Vec::new(),
                is_semantic: false,
            },
        );
        k = k + 1;
    }
    assert(derefs(ts@).take(ts@.len() as int) == derefs(ts@));
    out
}

/// The tickets the references point to.
pub open spec fn derefs(s: Seq<&TicketMetadata>) -> Seq<TicketMetadata> {
    Seq::new(s.len(), |k: int| *s[k])
}

/// References to the tickets whose priority number is `p` (all of them
/// when `p` is `None`).
fn tickets_with_priority<'a>(tickets: &'a [TicketMetadata], p: Option<u8>) -> (r: Vec<&'a TicketMetadata>)
    ensures
        derefs(r@) == match p {
            Some(p) => with_priority(tickets@, p),
            None => tickets@,
        },
{
    let mut out: Vec<&TicketMetadata> = Vec::new();
    let mut k: usize = 0;
    while k < tickets.len()
        invariant
            k <= tickets@.len(),
            derefs(out@) == match p {
                Some(p) => with_priority(tickets@.take(k as int), p),
                None => tickets@.take(k as int),
            },
        decreases tickets@.len() - k,
    {
        let t = &tickets[k];
        proof {
            assert(tickets@.take(k + 1).drop_last() == tickets@.take(k as int));
        }
        let keep = match p {
            Some(p) => t.priority_num() == p,
            None => true,
        };
        if keep {
            out.push(t);
        }
        k = k + 1;
        assert(derefs(out@) =~= match p {
            Some(p) => with_priority(tickets@.take(k as int), p),
            None => tickets@.take(k as int),
        });
    }
    assert(tickets@.take(tickets@.len() as int) == tickets@);
    out
}

/// Filters tickets by a fuzzy query and ranks the matches, best first.
///
/// A `p0`..`p4` token in the query keeps only tickets of that priority and
/// is removed before matching; what remains is matched (smart case) against
/// each ticket's id, title and type. An empty query, or one that is only a
/// priority token, keeps every (remaining) ticket unranked.
pub fn filter_tickets(tickets: &[TicketMetadata], query: &str) -> (r: Vec<FilteredTicket>)
    ensures
        filter_tickets_result(r@, tickets@, query@),
{
    if query.unicode_len() == 0 {
        let all = tickets_with_priority(tickets, None);
        return all_tickets_unscored(&all);
    }
    let priority_filter = parse_priority_filter(query);
    let filtered = tickets_with_priority(tickets, priority_filter);
    let ghost pref = derefs(filtered@);
    assert(pref == priority_prefiltered(tickets@, query@));
    let fuzzy_query = strip_priority_shorthand(query);
    if fuzzy_query.as_str().unicode_len() == 0 {
        return all_tickets_unscored(&filtered);
    }
    let search = |t: &&TicketMetadata| -> (s: String)
        ensures
            s@ == ticket_search_text(**t),
        { ticket_search_string(*t) };
    let extent = |t: &&TicketMetadata| -> (e: (usize, usize))
        ensures
            e == ticket_title_info(**t),
        { ticket_title_extent(*t) };
    let results = filter_items(filtered.as_slice(), fuzzy_query.as_str(), search, extent);
    let ghost fq = fuzzy_query@;
    proof {
        let (strs, infos) = choose|strs: Seq<String>, infos: Seq<(usize, usize)>|
            #[trigger] filter_outcome(filtered@, fq, search, extent, results@, strs, infos);
        let n = filtered@.len();
        let texts = Seq::new(n, |k: int| ticket_search_text(pref[k]));
        let spec_infos = Seq::new(n, |k: int| ticket_title_info(pref[k]));
        assert(texts_of(strs) =~= texts);
        lemma_matches_prefix(texts_of(strs), infos, texts, spec_infos, fq, n);
    }
    let ghost ranked = rank_by_score(ticket_matches(pref, fq));
    let mut out: Vec<FilteredTicket> = Vec::new();
    let mut j: usize = 0;
    while j < results.len()
        invariant
            j <= results@.len(),
            results@.len() == ranked.len(),
            agrees_with(results@, filtered@, ranked),
            pref == derefs(filtered@),
            tickets_ranked(out@, pref, ranked.take(j as int)),
        decreases results@.len() - j,
    {
        assert(0 <= ranked[j as int].0);
        let item: &TicketMetadata = results[j].item;
        out.push(
            FilteredTicket {
                ticket: Arc::new(item.clone()),
                score: results[j].score,
                title_indices: copy_positions(&results[j].title_indices),
                is_semantic: false,
            },
        );
        j = j + 1;
    }
    assert(ranked.take(ranked.len() as int) == ranked);
    out
}

// ---------------------------------------------------------------------------
// Debounce and semantic queries
// ---------------------------------------------------------------------------

/// Search debounce delay in milliseconds for a repository of
/// `ticket_count` tickets: larger repositories wait longer.
pub fn calculate_debounce_ms(ticket_count: usize) -> (r: u64)
    ensures
        r == if ticket_count <= 100 {
            10u64
        } else if ticket_count <= 500 {
            50u64
        } else if ticket_count <= 1000 {
            100u64
        } else {
            150u64
        },
{
    if ticket_count <= 100 {
        10
    } else if ticket_count <= 500 {
        50
    } else if ticket_count <= 1000 {
        100
    } else {
        150
    }
}

/// Whether the query asks for a semantic search: it starts with `~`.
pub fn is_semantic_search(query: &str) -> (r: bool)
    ensures
        r == (query@.len() > 0 && query@[0] == '~'),
{
    query.unicode_len() > 0 && query.get_char(0) == '~'
}

/// `query` without its leading `~` and the whitespace after it; a query
/// without `~` unchanged.
pub open spec fn semantic_stripped(query: Seq<char>) -> Seq<char> {
    if query.len() > 0 && query[0] == '~' {
        crate::text::trim_start(query.drop_first())
    } else {
        query
    }
}

/// The query without its leading `~` and the whitespace after it; a query
/// without `~` is returned unchanged.
pub fn strip_semantic_modifier(query: &str) -> (r: &str)
    ensures
        r@ == semantic_stripped(query@),
{
    let n = query.unicode_len();
    if n > 0 && query.get_char(0) == '~' {
        let rest = query.substring_char(1, n);
        let v = chars_of(rest);
        let start = crate::text::count_leading_whitespace(v.as_slice());
        proof {
            crate::text::lemma_leading_whitespace_bound(rest@);
        }
        query.substring_char(1 + start, n)
    } else {
        query
    }
}

// ---------------------------------------------------------------------------
// Merging with semantic results
// ---------------------------------------------------------------------------

/// A ticket found by semantic search.
#[derive(Debug, Clone)]
pub struct SearchResult {
    pub ticket: TicketMetadata,
}

/// A semantic search result as a filtered ticket: no score, no highlights.
pub fn semantic_ticket(result: SearchResult) -> (r: FilteredTicket)
    ensures
        *r.ticket == result.ticket,
        r.score == 0,
        r.title_indices@.len() == 0,
        r.is_semantic,
{
    FilteredTicket {
        ticket: Arc::new(result.ticket),
        score: 0,
        title_indices: Vec::new(),
        is_semantic: true,
    }
}

/// The ids carried by the tickets of `f`.
pub open spec fn id_set(f: Seq<FilteredTicket>) -> Set<Seq<char>> {
    Set::new(|id: Seq<char>| exists|i: int| 0 <= i < f.len() && has_id(#[trigger] f[i], id))
}

/// The ticket of `t` carries the id `id`.
pub open spec fn has_id(t: FilteredTicket, id: Seq<char>) -> bool {
    t.ticket.id is Some && t.ticket.id->0@ == id
}

/// The first `n` semantic results that carry an id not in `ids`.
pub open spec fn new_semantic(sem: Seq<SearchResult>, ids: Set<Seq<char>>, n: nat) -> Seq<SearchResult>
    decreases n,
{
    if n == 0 {
        seq![]
    } else {
        let prev = new_semantic(sem, ids, (n - 1) as nat);
        let t = sem[n - 1].ticket;
        if t.id is Some && !ids.contains(t.id->0@) {
            prev.push(sem[n - 1])
        } else {
            prev
        }
    }
}


/// Whether some ticket among the first `limit` of `f` carries the id `id`.
fn id_taken(f: &Vec<FilteredTicket>, limit: usize, id: &str) -> (r: bool)
    requires
        limit <= f@.len(),
    ensures
        r == id_set(f@.take(limit as int)).contains(id@),
{
    let mut i: usize = 0;
    while i < limit
        invariant
            limit <= f@.len(),
            i <= limit,
            forall|k: int| 0 <= k < i ==> !has_id(#[trigger] f@[k], id@),
        decreases f@.len() - i,
    {
        match &f[i].ticket.id {
            Some(s) => {
                if str_eq(s.as_str(), id) {
                    assert(has_id(f@.take(limit as int)[i as int], id@));
                    return true;
                }
            },
            None => {},
        }
        i = i + 1;
    }
    assert forall|k: int| 0 <= k < limit implies !has_id(#[trigger] f@.take(limit as int)[k], id@) by {
        assert(f@.take(limit as int)[k] == f@[k]);
    }
    false
}

/// A semantic result kept by the merge never repeats a ticket that the
/// fuzzy results already show: it carries an id, and no fuzzy result
/// carries that id.
pub proof fn lemma_merge_adds_no_duplicate(sem: Seq<SearchResult>, ids: Set<Seq<char>>, n: nat, j: int)
    requires
        n <= sem.len(),
        0 <= j < new_semantic(sem, ids, n).len(),
    ensures
        new_semantic(sem, ids, n)[j].ticket.id is Some,
        !ids.contains(new_semantic(sem, ids, n)[j].ticket.id->0@),
    decreases n,
{
    if n > 0 {
        let prev = new_semantic(sem, ids, (n - 1) as nat);
        if j < prev.len() {
            lemma_merge_adds_no_duplicate(sem, ids, (n - 1) as nat, j);
        }
    }
}

/// `r` is `fuzzy` followed by the semantic results whose ticket carries an
/// id that no fuzzy result carries (see `new_semantic`), each unscored,
/// without highlights and marked semantic.
pub open spec fn merged_results(r: Seq<FilteredTicket>, fuzzy: Seq<FilteredTicket>, semantic: Seq<SearchResult>) -> bool {
    let kept = new_semantic(semantic, id_set(fuzzy), semantic.len());
    &&& r.len() == fuzzy.len() + kept.len()
    &&& r.take(fuzzy.len() as int) == fuzzy
    &&& forall|j: int|
        0 <= j < kept.len() ==> {
            let t = #[trigger] r[fuzzy.len() + j];
            &&& *t.ticket == kept[j].ticket
            &&& t.score == 0
            &&& t.title_indices@.len() == 0
            &&& t.is_semantic
        }
}

/// Appends to the fuzzy results the semantic results whose ticket has an id
/// that no fuzzy result carries. Fuzzy results come first, unchanged.
pub fn merge_search_results(fuzzy: Vec<FilteredTicket>, semantic: Vec<SearchResult>) -> (r: Vec<
    FilteredTicket,
>)
    ensures
        merged_results(r@, fuzzy@, semantic@),
{
    let ghost ids = id_set(fuzzy@);
    let ghost sem = semantic@;
    let total = semantic.len();
    let n0 = fuzzy.len();
    let mut semantic = semantic;
    let mut pending: Vec<SearchResult> = Vec::new();
    while semantic.len() > 0
        invariant
            semantic@ == sem.take(semantic@.len() as int),
            semantic@.len() <= sem.len(),
            pending@.len() == sem.len() - semantic@.len(),
            forall|i: int| 0 <= i < pending@.len() ==> #[trigger] pending@[i] == sem[sem.len() - 1 - i],
        decreases semantic@.len(),
    {
        let last = semantic.pop();
        match last {
            Some(x) => {
                pending.push(x);
            },
            None => {},
        }
        assert(semantic@ =~= sem.take(semantic@.len() as int));
    }
    let mut result = fuzzy;
    let ghost fz = result@;
    let mut k: usize = 0;
    while pending.len() > 0
        invariant
            k <= sem.len(),
            sem.len() == total,
            pending@.len() == sem.len() - k,
            forall|i: int| 0 <= i < pending@.len() ==> #[trigger] pending@[i] == sem[sem.len() - 1 - i],
            n0 == fz.len(),
            result@.take(n0 as int) == fz,
            ids == id_set(fz),
            ({
                let kept = new_semantic(sem, ids, k as nat);
                &&& result@.len() == n0 + kept.len()
                &&& forall|j: int|
                    0 <= j < kept.len() ==> {
                        let t = #[trigger] result@[n0 + j];
                        &&& *t.ticket == kept[j].ticket
                        &&& t.score == 0
                        &&& t.title_indices@.len() == 0
                        &&& t.is_semantic
                    }
            }),
        decreases pending@.len(),
    {
        let next = pending.pop();
        match next {
            Some(x) => {
                assert(x == sem[k as int]);
                let keep = match &x.ticket.id {
                    Some(id) => !id_taken(&result, n0, id.as_str()),
                    None => false,
                };
                if keep {
                    result.push(semantic_ticket(x));
                }
            },
            None => {},
        }
        k = k + 1;
    }
    result
}


// ---------------------------------------------------------------------------
// Title highlights for store search results
// ---------------------------------------------------------------------------

/// The text part of a query: priority tokens removed, trimmed.
pub open spec fn highlight_query(query: Seq<char>) -> Seq<char> {
    crate::utils::trimmed(priority_stripped(query))
}

/// The title positions of `t` matched by `q`, none when it does not match.
pub open spec fn title_highlight(t: TicketMetadata, q: Seq<char>) -> Seq<usize> {
    match skim_match(text_or_empty(t.title), q) {
        Some(m) => m.1,
        None => seq![],
    }
}

/// `t` shows `ticket` unscored, not from a semantic search, with the
/// title positions that match `query` (after its priority shorthand is
/// taken out and it is trimmed) highlighted; none for an empty query.
pub open spec fn highlighted_row(t: FilteredTicket, ticket: TicketMetadata, query: Seq<char>) -> bool {
    &&& same_ticket(*t.ticket, ticket)
    &&& t.score == 0
    &&& !t.is_semantic
    &&& t.title_indices@ == if highlight_query(query).len() == 0 {
        seq![]
    } else {
        title_highlight(ticket, highlight_query(query))
    }
}

/// Highlights for tickets found by a text search: each ticket keeps its
/// place, with the title positions its title matches the text part of the
/// query (none when that text is empty).
pub fn compute_title_highlights(tickets: &[TicketMetadata], query: &str) -> (r: Vec<FilteredTicket>)
    ensures
        r@.len() == tickets@.len(),
        forall|j: int| 0 <= j < r@.len() ==> highlighted_row(#[trigger] r@[j], tickets@[j], query@),
{
    let stripped = strip_priority_shorthand(query);
    let text_chars = chars_of(stripped.as_str());
    let trimmed_chars = crate::utils::trim_chars(text_chars.as_slice());
    let text_query = string_from_chars(trimmed_chars.as_slice());
    let ghost hq = highlight_query(query@);
    assert(text_query@ == hq);
    let empty = text_query.as_str().unicode_len() == 0;
    let mut out: Vec<FilteredTicket> = Vec::new();
    let mut k: usize = 0;
    while k < tickets.len()
        invariant
            k <= tickets@.len(),
            text_query@ == hq,
            empty == (hq.len() == 0),
            out@.len() == k,
            forall|j: int|
                0 <= j < k ==> {
                    &&& same_ticket(*#[trigger] out@[j].ticket, tickets@[j])
                    &&& out@[j].score == 0
                    &&& !out@[j].is_semantic
                    &&& out@[j].title_indices@ == if hq.len() == 0 {
                        seq![]
                    } else {
                        title_highlight(tickets@[j], hq)
                    }
                },
        decreases tickets@.len() - k,
    {
        let t = &tickets[k];
        let indices: Vec<usize> = if empty {
            Vec::new()
        } else {
            match skim_fuzzy_indices(str_or_empty(&t.title), text_query.as_str()) {
                Some((_, idx)) => idx,
                None => Vec::new(),
            }
        };
        out.push(
            FilteredTicket {
                ticket: Arc::new(t.clone()),
                score: 0,
                title_indices: indices,
                is_semantic: false,
            },
        );
        k = k + 1;
    }
    out
}

} // verus!
