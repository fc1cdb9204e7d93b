//! Operations between local tickets and remote issues: references, links,
//! adoption, pushing and syncing.
use vstd::prelude::*;

use regex::Regex;
use url::Url;

use crate::error::{JanusError, error_text};
use crate::remote::{RemoteIssue, RemoteRef, RemoteStatus, remote_ref_text, ticket_status_of};
use crate::text::{
    chars_of, concat, contains_seq, decimal, decimal_string, occurs_at, owned, str_eq,
    string_from_chars,
};
use crate::types::{
    TicketMetadata, TicketStatus, TicketType, opt_text, status_name, ticket_priority_num,
};

use super::state::IdSet;
use super::sync_preview::{SyncChange, SyncDirection};
use crate::tui::search::text_or_empty;

verus! {

broadcast use vstd::string::group_string_axioms;

// ---------------------------------------------------------------------------
// YAML sanitizing
// ---------------------------------------------------------------------------

/// The YAML front-matter delimiter.
pub open spec fn yaml_delimiter() -> Seq<char> {
    seq!['-', '-', '-']
}

/// What a delimiter is replaced with: three `&#45;` entities.
pub open spec fn escaped_delimiter() -> Seq<char> {
    seq!['&', '#', '4', '5', ';', '&', '#', '4', '5', ';', '&', '#', '4', '5', ';']
}

/// `s` with each delimiter replaced, scanning from the left without
/// overlaps (as `str::replace` does).
pub open spec fn sanitized(s: Seq<char>) -> Seq<char>
    decreases s.len(),
{
    if s.len() < 3 {
        s
    } else if s.take(3) == yaml_delimiter() {
        escaped_delimiter() + sanitized(s.skip(3))
    } else {
        seq![s[0]] + sanitized(s.skip(1))
    }
}

/// Replaces every "---" with "&#45;&#45;&#45;", so that a title or body
/// taken from a remote issue cannot close the YAML front matter.
pub fn sanitize_for_yaml(input: &str) -> (r: String)
    ensures
        r@ == sanitized(input@),
{
    let v = chars_of(input);
    let ghost s = input@;
    let esc: Vec<char> = vec!['&', '#', '4', '5', ';', '&', '#', '4', '5', ';', '&', '#', '4', '5', ';'];
    let mut out: Vec<char> = Vec::new();
    let mut i: usize = 0;
    assert(s.skip(0) == s);
    while i < v.len()
        invariant
            v@ == s,
            esc@ == escaped_delimiter(),
            i <= s.len(),
            out@ + sanitized(s.skip(i as int)) == sanitized(s),
        decreases s.len() - i,
    {
        let ghost rest = s.skip(i as int);
        if v.len() - i >= 3 && v[i] == '-' && v[i + 1] == '-' && v[i + 2] == '-' {
            proof {
                assert(rest.take(3) =~= yaml_delimiter());
                assert(rest.skip(3) =~= s.skip(i + 3));
            }
            let mut k: usize = 0;
            let ghost before = out@;
            while k < 15
                invariant
                    esc@ == escaped_delimiter(),
                    k <= 15,
                    out@ == before + esc@.take(k as int),
                decreases 15 - k,
            {
                out.push(esc[k]);
                k = k + 1;
                assert(out@ =~= before + esc@.take(k as int));
            }
            assert(esc@.take(15) =~= esc@);
            assert(out@ + sanitized(s.skip(i + 3)) =~= before + sanitized(rest));
            i = i + 3;
        } else {
            proof {
                if rest.len() >= 3 {
                    assert(rest.take(3) != yaml_delimiter()) by {
                        if rest.take(3) == yaml_delimiter() {
                            assert(rest.take(3)[0] == v@[i as int]);
                            assert(rest.take(3)[1] == v@[i + 1]);
                            assert(rest.take(3)[2] == v@[i + 2]);
                        }
                    }
                }
                assert(rest.skip(1) =~= s.skip(i + 1));
            }
            let ghost before = out@;
            out.push(v[i]);
            proof {
                if rest.len() < 3 {
                    assert(sanitized(rest) == rest);
                    assert(sanitized(rest.skip(1)) == rest.skip(1));
                    assert(rest =~= seq![rest[0]] + rest.skip(1));
                }
                assert(out@ + sanitized(s.skip(i + 1)) =~= before + sanitized(rest));
            }
            i = i + 1;
        }
    }
    assert(s.skip(s.len() as int) =~= Seq::<char>::empty());
    assert(out@ =~= sanitized(s));
    string_from_chars(out.as_slice())
}

/// Whether `t` starts with `n` dashes.
pub open spec fn dash_prefix(t: Seq<char>, n: int) -> bool {
    n <= t.len() && forall|k: int| 0 <= k < n ==> t[k] == '-'
}

/// A sanitized text starts with as many dashes as the text (fewer than
/// three) it came from.
proof fn lemma_sanitized_leading_dashes(t: Seq<char>, n: int)
    requires
        1 <= n <= 2,
        dash_prefix(sanitized(t), n),
    ensures
        dash_prefix(t, n),
        !(t.len() >= 3 && t.take(3) == yaml_delimiter()),
    decreases t.len(),
{
    if t.len() < 3 {
    } else if t.take(3) == yaml_delimiter() {
        assert(sanitized(t)[0] == '&');
    } else {
        assert(sanitized(t)[0] == t[0]);
        if n == 2 {
            let u = t.skip(1);
            assert(sanitized(t)[1] == sanitized(u)[0]);
            lemma_sanitized_leading_dashes(u, 1);
            assert(t[1] == u[0]);
        }
    }
}

/// No "---" is left in a sanitized text.
pub proof fn lemma_sanitized_has_no_delimiter(s: Seq<char>)
    ensures
        !contains_seq(sanitized(s), yaml_delimiter()),
    decreases s.len(),
{
    let r = sanitized(s);
    if s.len() < 3 {
        assert forall|i: int| !occurs_at(r, yaml_delimiter(), i) by {
        }
    } else if s.take(3) == yaml_delimiter() {
        let t = sanitized(s.skip(3));
        lemma_sanitized_has_no_delimiter(s.skip(3));
        let e = escaped_delimiter();
        assert forall|i: int| !occurs_at(r, yaml_delimiter(), i) by {
            if occurs_at(r, yaml_delimiter(), i) {
                assert(r.subrange(i, i + 3)[0] == r[i]);
                assert(r.subrange(i, i + 3)[1] == r[i + 1]);
                assert(r.subrange(i, i + 3)[2] == r[i + 2]);
                if i >= 15 {
                    assert(r.subrange(i, i + 3) =~= t.subrange(i - 15, i - 12));
                    assert(occurs_at(t, yaml_delimiter(), i - 15));
                } else if i == 14 || i == 13 {
                    assert(r[14] == ';');
                } else {
                    assert(r[i] == e[i]);
                    assert(r[i + 1] == e[i + 1]);
                }
            }
        }
    } else {
        let u = s.skip(1);
        let t = sanitized(u);
        lemma_sanitized_has_no_delimiter(u);
        assert forall|i: int| !occurs_at(r, yaml_delimiter(), i) by {
            if occurs_at(r, yaml_delimiter(), i) {
                assert(r.subrange(i, i + 3)[0] == r[i]);
                assert(r.subrange(i, i + 3)[1] == r[i + 1]);
                assert(r.subrange(i, i + 3)[2] == r[i + 2]);
                if i >= 1 {
                    assert(r.subrange(i, i + 3) =~= t.subrange(i - 1, i + 2));
                    assert(occurs_at(t, yaml_delimiter(), i - 1));
                } else {
                    assert(r[1] == t[0]);
                    assert(r[2] == t[1]);
                    assert(dash_prefix(t, 2));
                    lemma_sanitized_leading_dashes(u, 2);
                    assert(s[0] == '-');
                    assert(s[1] == u[0]);
                    assert(s[2] == u[1]);
                    assert(s.take(3) =~= yaml_delimiter());
                }
            }
        }
    }
}

// ---------------------------------------------------------------------------
// Remote reference strings
// ---------------------------------------------------------------------------

/// The pieces of `s` between occurrences of `sep` (as `str::split` gives
/// them: one more piece than separators).
pub open spec fn split_on(s: Seq<char>, sep: char) -> Seq<Seq<char>>
    decreases s.len(),
{
    if s.len() == 0 {
        seq![Seq::<char>::empty()]
    } else {
        let prev = split_on(s.drop_last(), sep);
        if s.last() == sep {
            prev.push(Seq::<char>::empty())
        } else {
            prev.update(prev.len() - 1, prev.last().push(s.last()))
        }
    }
}

proof fn lemma_split_nonempty(s: Seq<char>, sep: char)
    ensures
        split_on(s, sep).len() >= 1,
    decreases s.len(),
{
    if s.len() > 0 {
        lemma_split_nonempty(s.drop_last(), sep);
    }
}

/// Splitting at a separator that stands between `a` and `b` gives the
/// pieces of `a` followed by those of `b`.
proof fn lemma_split_concat(a: Seq<char>, b: Seq<char>, sep: char)
    ensures
        split_on(a + seq![sep] + b, sep) == split_on(a, sep) + split_on(b, sep),
    decreases b.len(),
{
    let s = a + seq![sep] + b;
    if b.len() == 0 {
        assert(s =~= a.push(sep));
        assert(s.drop_last() =~= a);
        assert(split_on(s, sep) =~= split_on(a, sep) + split_on(b, sep));
    } else {
        lemma_split_concat(a, b.drop_last(), sep);
        lemma_split_nonempty(b.drop_last(), sep);
        lemma_split_nonempty(a, sep);
        assert(s.drop_last() =~= a + seq![sep] + b.drop_last());
        assert(s.last() == b.last());
        let pa = split_on(a, sep);
        let pb = split_on(b.drop_last(), sep);
        if b.last() == sep {
            assert(split_on(s, sep) =~= pa + pb.push(Seq::<char>::empty()));
        } else {
            assert(split_on(s, sep) =~= pa + pb.update(pb.len() - 1, pb.last().push(b.last())));
        }
    }
}

/// A text without the separator is a single piece.
proof fn lemma_split_whole(x: Seq<char>, sep: char)
    requires
        !x.contains(sep),
    ensures
        split_on(x, sep) == seq![x],
    decreases x.len(),
{
    if x.len() > 0 {
        assert(!x.drop_last().contains(sep)) by {
            if x.drop_last().contains(sep) {
                let k = choose|k: int| 0 <= k < x.drop_last().len() && x.drop_last()[k] == sep;
                assert(x[k] == sep);
            }
        }
        lemma_split_whole(x.drop_last(), sep);
        assert(x[x.len() - 1] != sep);
        assert(split_on(x, sep) =~= seq![x.drop_last().push(x.last())]);
        assert(x.drop_last().push(x.last()) =~= x);
    } else {
        assert(x =~= Seq::<char>::empty());
    }
}

/// The decimal rendering of a number holds digits only.
proof fn lemma_decimal_digits(n: nat)
    ensures
        forall|k: int| 0 <= k < decimal(n).len() ==> '0' <= #[trigger] decimal(n)[k] <= '9',
    decreases n,
{
    if n >= 10 {
        lemma_decimal_digits(n / 10);
        assert forall|k: int| 0 <= k < decimal(n).len() implies '0' <= #[trigger] decimal(n)[k] <= '9' by {
            if k < decimal(n / 10).len() {
                assert(decimal(n)[k] == decimal(n / 10)[k]);
            }
        }
    }
}

/// A piece of a remote reference: no `:` and no `/` in it.
pub open spec fn plain_piece(x: Seq<char>) -> bool {
    !x.contains(':') && !x.contains('/')
}

/// The issue id that the text of a remote reference names is the issue
/// the reference was made for: the issue number in decimal for GitHub,
/// the issue id for Linear; so a ticket linked to an issue is found again
/// from its reference. This holds when owner, repository, organization
/// and issue id hold no `:` or `/`.
pub proof fn lemma_ref_text_names_issue(r: RemoteRef)
    requires
        match r {
            RemoteRef::GitHub { owner, repo, .. } => plain_piece(owner@) && plain_piece(repo@),
            RemoteRef::Linear { org, issue_id } => plain_piece(org@) && plain_piece(issue_id@),
        },
    ensures
        issue_id_of_ref(remote_ref_text(r)) == Some(
            match r {
                RemoteRef::GitHub { issue_number, .. } => decimal(issue_number as nat),
                RemoteRef::Linear { issue_id, .. } => issue_id@,
            },
        ),
{
    reveal_strlit("github:");
    reveal_strlit("linear:");
    reveal_strlit("github");
    reveal_strlit("linear");
    reveal_strlit("/");
    let slash: Seq<char> = seq!['/'];
    assert("/"@ =~= slash);
    match r {
        RemoteRef::GitHub { owner, repo, issue_number } => {
            let d = decimal(issue_number as nat);
            lemma_decimal_digits(issue_number as nat);
            assert(!d.contains(':') && !d.contains('/')) by {
                if d.contains(':') {
                    let k = choose|k: int| 0 <= k < d.len() && d[k] == ':';
                    assert('0' <= d[k] <= '9');
                }
                if d.contains('/') {
                    let k = choose|k: int| 0 <= k < d.len() && d[k] == '/';
                    assert('0' <= d[k] <= '9');
                }
            }
            let tail = repo@ + seq!['/'] + d;
            let rest = owner@ + seq!['/'] + tail;
            assert(!rest.contains(':')) by {
                if rest.contains(':') {
                    let k = choose|k: int| 0 <= k < rest.len() && rest[k] == ':';
                    if k < owner@.len() {
                        assert(owner@[k] == ':');
                    } else if k > owner@.len() && k < owner@.len() + 1 + repo@.len() {
                        assert(repo@[k - owner@.len() - 1] == ':');
                    } else if k > owner@.len() + 1 + repo@.len() {
                        assert(d[k - owner@.len() - 2 - repo@.len()] == ':');
                    }
                }
            }
            let gh: Seq<char> = seq!['g', 'i', 't', 'h', 'u', 'b'];
            assert("github"@ =~= gh);
            assert(remote_ref_text(r) =~= gh + seq![':'] + rest);
            lemma_split_concat(gh, rest, ':');
            lemma_split_whole(gh, ':');
            lemma_split_whole(rest, ':');
            assert(split_on(remote_ref_text(r), ':') =~= seq![gh, rest]);
            lemma_split_concat(owner@, tail, '/');
            lemma_split_concat(repo@, d, '/');
            lemma_split_whole(owner@, '/');
            lemma_split_whole(repo@, '/');
            lemma_split_whole(d, '/');
            assert(split_on(rest, '/') =~= seq![owner@, repo@, d]);
        },
        RemoteRef::Linear { org, issue_id } => {
            let rest = org@ + seq!['/'] + issue_id@;
            assert(!rest.contains(':')) by {
                if rest.contains(':') {
                    let k = choose|k: int| 0 <= k < rest.len() && rest[k] == ':';
                    if k < org@.len() {
                        assert(org@[k] == ':');
                    } else if k > org@.len() {
                        assert(issue_id@[k - org@.len() - 1] == ':');
                    }
                }
            }
            let ln: Seq<char> = seq!['l', 'i', 'n', 'e', 'a', 'r'];
            assert("linear"@ =~= ln);
            assert(remote_ref_text(r) =~= ln + seq![':'] + rest);
            lemma_split_concat(ln, rest, ':');
            lemma_split_whole(ln, ':');
            lemma_split_whole(rest, ':');
            assert(split_on(remote_ref_text(r), ':') =~= seq![ln, rest]);
            lemma_split_concat(org@, issue_id@, '/');
            lemma_split_whole(org@, '/');
            lemma_split_whole(issue_id@, '/');
            assert(split_on(rest, '/') =~= seq![org@, issue_id@]);
        },
    }
}

/// The texts of a list of strings.
pub open spec fn string_texts(v: Seq<String>) -> Seq<Seq<char>> {
    Seq::new(v.len(), |i: int| v[i]@)
}

/// The pieces of `s` between occurrences of `sep`.
pub fn split_by(s: &str, sep: char) -> (r: Vec<String>)
    ensures
        string_texts(r@) == split_on(s@, sep),
{
    let v = chars_of(s);
    let mut pieces: Vec<String> = Vec::new();
    let mut cur: Vec<char> = Vec::new();
    let mut i: usize = 0;
    while i < v.len()
        invariant
            v@ == s@,
            i <= v@.len(),
            string_texts(pieces@).push(cur@) == split_on(s@.take(i as int), sep),
        decreases v@.len() - i,
    {
        let ghost prev = split_on(s@.take(i as int), sep);
        proof {
            lemma_split_nonempty(s@.take(i as int), sep);
            assert(s@.take(i + 1).drop_last() =~= s@.take(i as int));
        }
        if v[i] == sep {
            let piece = string_from_chars(cur.as_slice());
            pieces.push(piece);
            cur = Vec::new();
            assert(string_texts(pieces@).push(cur@) =~= prev.push(Seq::<char>::empty()));
        } else {
            let ghost before = string_texts(pieces@);
            cur.push(v[i]);
            assert(string_texts(pieces@).push(cur@) =~= prev.update(
                prev.len() - 1,
                prev.last().push(v@[i as int]),
            ));
        }
        i = i + 1;
    }
    let last = string_from_chars(cur.as_slice());
    pieces.push(last);
    assert(s@.take(v@.len() as int) =~= s@);
    assert(string_texts(pieces@) =~= split_on(s@, sep));
    pieces
}

/// The issue id a remote reference string names: the third `/` piece of
/// `github:<owner>/<repo>/<id>`, or the second of `linear:<org>/<id>`.
/// `None` unless the string has exactly one `:` and enough pieces.
pub open spec fn issue_id_of_ref(r: Seq<char>) -> Option<Seq<char>> {
    let parts = split_on(r, ':');
    if parts.len() != 2 {
        None
    } else if parts[0] == "github"@ {
        let ids = split_on(parts[1], '/');
        if ids.len() >= 3 {
            Some(ids[2])
        } else {
            None
        }
    } else if parts[0] == "linear"@ {
        let ids = split_on(parts[1], '/');
        if ids.len() >= 2 {
            Some(ids[1])
        } else {
            None
        }
    } else {
        None
    }
}

/// The issue id named by a remote reference string (see `issue_id_of_ref`).
pub fn extract_issue_id_from_remote_ref(remote_ref: &str) -> (r: Option<String>)
    ensures
        match r {
            Some(id) => issue_id_of_ref(remote_ref@) == Some(id@),
            None => issue_id_of_ref(remote_ref@) is None,
        },
{
    let parts = split_by(remote_ref, ':');
    if parts.len() != 2 {
        return None;
    }
    assert(string_texts(parts@)[0] == parts@[0]@);
    assert(string_texts(parts@)[1] == parts@[1]@);
    if str_eq(parts[0].as_str(), "github") {
        let id_parts = split_by(parts[1].as_str(), '/');
        if id_parts.len() >= 3 {
            assert(string_texts(id_parts@)[2] == id_parts@[2]@);
            Some(id_parts[2].clone())
        } else {
            None
        }
    } else if str_eq(parts[0].as_str(), "linear") {
        let id_parts = split_by(parts[1].as_str(), '/');
        if id_parts.len() >= 2 {
            assert(string_texts(id_parts@)[1] == id_parts@[1]@);
            Some(id_parts[1].clone())
        } else {
            None
        }
    } else {
        None
    }
}


// ---------------------------------------------------------------------------
// Links
// ---------------------------------------------------------------------------

/// The ids of `ids` that are already linked (in `local_ids`), in order.
pub open spec fn conflicting(ids: Seq<&str>, local_ids: Set<Seq<char>>, n: nat) -> Seq<Seq<char>>
    decreases n,
{
    if n == 0 {
        seq![]
    } else {
        let prev = conflicting(ids, local_ids, (n - 1) as nat);
        if local_ids.contains(ids[n - 1]@) {
            prev.push(ids[n - 1]@)
        } else {
            prev
        }
    }
}

/// The issue ids that are already linked to a local ticket.
pub fn check_link_conflicts<'a>(issue_ids: &[&'a str], local_ids: &IdSet) -> (r: Vec<&'a str>)
    ensures
        Seq::new(r@.len(), |i: int| r@[i]@) == conflicting(issue_ids@, local_ids@, issue_ids@.len()),
{
    let mut out: Vec<&'a str> = Vec::new();
    let mut i: usize = 0;
    while i < issue_ids.len()
        invariant
            i <= issue_ids@.len(),
            Seq::new(out@.len(), |k: int| out@[k]@) == conflicting(issue_ids@, local_ids@, i as nat),
        decreases issue_ids@.len() - i,
    {
        let id: &'a str = issue_ids[i];
        let ghost before = Seq::new(out@.len(), |k: int| out@[k]@);
        if local_ids.contains(id) {
            out.push(id);
            assert(Seq::new(out@.len(), |k: int| out@[k]@) =~= before.push(id@));
        }
        i = i + 1;
    }
    out
}

/// The ids of the tickets that are linked to a remote issue.
pub open spec fn linked_ids(ts: Seq<TicketMetadata>) -> Set<Seq<char>> {
    Set::new(
        |id: Seq<char>|
            exists|k: int|
                0 <= k < ts.len() && ts[k].remote is Some && #[trigger] opt_text(ts[k].id) == Some(id),
    )
}

/// The ids of the tickets that are linked to a remote issue.
pub fn get_linked_ticket_ids(tickets: &[TicketMetadata]) -> (r: IdSet)
    ensures
        r@ == linked_ids(tickets@),
{
    let mut ids = IdSet::new();
    let mut i: usize = 0;
    while i < tickets.len()
        invariant
            i <= tickets@.len(),
            ids@ == linked_ids(tickets@.take(i as int)),
        decreases tickets@.len() - i,
    {
        let ghost before = ids@;
        let t = &tickets[i];
        if t.remote.is_some() {
            match &t.id {
                Some(id) => {
                    ids.insert(id.clone());
                },
                None => {},
            }
        }
        proof {
            let prev = tickets@.take(i as int);
            let next = tickets@.take(i + 1);
            assert forall|x: Seq<char>| #[trigger] linked_ids(next).contains(x) <==> (linked_ids(
                prev,
            ).contains(x) || (t.remote is Some && opt_text(t.id) == Some(x))) by {
                if linked_ids(next).contains(x) {
                    let k = choose|k: int|
                        0 <= k < next.len() && next[k].remote is Some && #[trigger] opt_text(next[k].id)
                            == Some(x);
                    if k < i {
                        assert(prev[k] == next[k]);
                    }
                }
                if linked_ids(prev).contains(x) {
                    let k = choose|k: int|
                        0 <= k < prev.len() && prev[k].remote is Some && #[trigger] opt_text(prev[k].id)
                            == Some(x);
                    assert(next[k] == prev[k]);
                }
                if t.remote is Some && opt_text(t.id) == Some(x) {
                    assert(next[i as int] == *t);
                }
            }
            assert(ids@ =~= linked_ids(next));
        }
        i = i + 1;
    }
    assert(tickets@.take(tickets@.len() as int) =~= tickets@);
    ids
}

// ---------------------------------------------------------------------------
// Remote references of issues
// ---------------------------------------------------------------------------

/// What `Url::parse` makes of a text: the host (`host_str`) and the path
/// segments (`path_segments`) of the URL, or the parse error's message.
pub uninterp spec fn url_parts(s: Seq<char>) -> Result<(Option<Seq<char>>, Option<Seq<Seq<char>>>), Seq<char>>;

/// The texts of a parsed URL's parts.
pub open spec fn url_parts_view(r: Result<(Option<String>, Option<Vec<String>>), String>) -> Result<
    (Option<Seq<char>>, Option<Seq<Seq<char>>>),
    Seq<char>,
> {
    match r {
        Ok(p) => Ok(
            (
                opt_text(p.0),
                match p.1 {
                    Some(v) => Some(string_texts(v@)),
                    None => None,
                },
            ),
        ),
        Err(e) => Err(e@),
    }
}

/// `Url::parse`, with the URL's `host_str` and `path_segments` as plain
/// values; the result is named by `url_parts`.
#[verifier::external_body]
fn parse_url(s: &str) -> (r: Result<(Option<String>, Option<Vec<String>>), String>)
    ensures
        url_parts_view(r) == url_parts(s@),
{
    match Url::parse(s) {
        Ok(u) => Ok(
            (
                u.host_str().map(|h| h.to_string()),
                u.path_segments().map(|p| p.map(|x| x.to_string()).collect()),
            ),
        ),
        Err(e) => Err(e.to_string()),
    }
}

/// `s` ends with `suffix`.
pub open spec fn ends_with(s: Seq<char>, suffix: Seq<char>) -> bool {
    s.len() >= suffix.len() && s.skip(s.len() - suffix.len()) == suffix
}

fn str_ends_with(s: &str, suffix: &str) -> (r: bool)
    ensures
        r == ends_with(s@, suffix@),
{
    let n = s.unicode_len();
    let m = suffix.unicode_len();
    if m > n {
        return false;
    }
    let tail = s.substring_char(n - m, n);
    str_eq(tail, suffix)
}

/// All characters of `s` are decimal digits.
pub open spec fn all_digits(s: Seq<char>) -> bool {
    forall|i: int| 0 <= i < s.len() ==> '0' <= #[trigger] s[i] <= '9'
}

/// The value of a string of decimal digits.
pub open spec fn digits_value(s: Seq<char>) -> nat
    decreases s.len(),
{
    if s.len() == 0 {
        0
    } else {
        digits_value(s.drop_last()) * 10 + (s.last() as nat - '0' as nat) as nat
    }
}

/// What `u64::from_str` gives for `s`: an optional `+` then at least one
/// digit, with a value that fits.
pub open spec fn parsed_u64(s: Seq<char>) -> Option<u64> {
    let d = if s.len() > 0 && s[0] == '+' {
        s.skip(1)
    } else {
        s
    };
    if d.len() > 0 && all_digits(d) && digits_value(d) <= u64::MAX {
        Some(digits_value(d) as u64)
    } else {
        None
    }
}

proof fn lemma_digits_value_monotone(s: Seq<char>, i: int, j: int)
    requires
        0 <= i <= j <= s.len(),
        all_digits(s),
    ensures
        digits_value(s.take(i)) <= digits_value(s.take(j)),
    decreases j - i,
{
    if i < j {
        lemma_digits_value_monotone(s, i, j - 1);
        assert(s.take(j).drop_last() =~= s.take(j - 1));
    }
}

/// Parses a decimal `u64` as `u64::from_str` does (see `parsed_u64`).
pub fn parse_u64(s: &str) -> (r: Option<u64>)
    ensures
        r == parsed_u64(s@),
{
    let v = chars_of(s);
    let start: usize = if v.len() > 0 && v[0] == '+' {
        1
    } else {
        0
    };
    let ghost d = if s@.len() > 0 && s@[0] == '+' {
        s@.skip(1)
    } else {
        s@
    };
    assert(d =~= v@.skip(start as int));
    assert(parsed_u64(s@) == (if d.len() > 0 && all_digits(d) && digits_value(d) <= u64::MAX {
        Some(digits_value(d) as u64)
    } else {
        None
    }));
    if v.len() == start {
        return None;
    }
    let mut value: u64 = 0;
    let mut i: usize = start;
    while i < v.len()
        invariant
            v@ == s@,
            d == v@.skip(start as int),
            start <= i <= v@.len(),
            parsed_u64(s@) == (if d.len() > 0 && all_digits(d) && digits_value(d) <= u64::MAX {
                Some(digits_value(d) as u64)
            } else {
                None
            }),
            all_digits(d.take(i - start)),
            value == digits_value(d.take(i - start)),
        decreases v@.len() - i,
    {
        let c = v[i];
        proof {
            assert(d.take(i - start + 1).drop_last() =~= d.take(i - start));
            assert(d.take(i - start + 1).last() == c);
        }
        if !('0' <= c && c <= '9') {
            proof {
                assert(d[i - start] == c);
                assert(!all_digits(d));
                assert(parsed_u64(s@) is None);
            }
            return None;
        }
        let digit: u64 = (c as u32 - '0' as u32) as u64;
        if value > (u64::MAX - digit) / 10 {
            proof {
                assert(value * 10 + digit > u64::MAX) by (nonlinear_arith)
                    requires
                        value > (u64::MAX - digit) / 10,
                        digit <= 9,
                ;
                assert(digits_value(d.take(i - start + 1)) == value * 10 + digit);
                if all_digits(d) {
                    lemma_digits_value_monotone(d, i - start + 1, d.len() as int);
                    assert(d.take(d.len() as int) =~= d);
                    assert(digits_value(d) > u64::MAX);
                }
                assert(parsed_u64(s@) is None);
            }
            return None;
        }
        value = value * 10 + digit;
        i = i + 1;
        proof {
            assert forall|k: int| 0 <= k < d.take(i - start).len() implies '0' <= #[trigger] d.take(
                i - start,
            )[k] <= '9' by {
                if k < i - start - 1 {
                    assert(d.take(i - start)[k] == d.take(i - start - 1)[k]);
                }
            }
        }
    }
    assert(d.take(d.len() as int) =~= d);
    Some(value)
}


/// The parts of a remote reference: whether it is GitHub's, the owner (or
/// organization), the repository (or the Linear issue id), and the GitHub
/// issue number (0 for Linear).
pub open spec fn ref_parts(r: RemoteRef) -> (bool, Seq<char>, Seq<char>, u64) {
    match r {
        RemoteRef::GitHub { owner, repo, issue_number } => (true, owner@, repo@, issue_number),
        RemoteRef::Linear { org, issue_id } => (false, org@, issue_id@, 0),
    }
}

/// The remote reference of the issue with id `id` at `url`, or why there is
/// none. A GitHub URL gives owner and repository from its first two path
/// segments (a third, the `issues` segment, must be present) and the
/// number from the id; a Linear URL gives the organization from its first
/// segment (a second, the `issue` segment, must be present).
pub open spec fn ref_from_issue(id: Seq<char>, url: Seq<char>) -> Result<(bool, Seq<char>, Seq<char>, u64), Seq<char>> {
    ref_from_parts(id, url_parts(url))
}

/// The remote reference of the issue with id `id` whose URL parsed to
/// `parsed` (host and path segments, or the parse error), or why there is
/// none (see `ref_from_issue`).
pub open spec fn ref_from_parts(
    id: Seq<char>,
    parsed: Result<(Option<Seq<char>>, Option<Seq<Seq<char>>>), Seq<char>>,
) -> Result<(bool, Seq<char>, Seq<char>, u64), Seq<char>> {
    match parsed {
        Err(e) => Err("invalid URL: "@ + e),
        Ok(parts) => match parts.0 {
            None => Err("URL has no host"@),
            Some(host) => if ends_with(host, "github.com"@) {
                match parts.1 {
                    None => Err("invalid GitHub URL path"@),
                    Some(segs) => if segs.len() < 1 {
                        Err("missing owner in GitHub URL"@)
                    } else if segs.len() < 2 {
                        Err("missing repo in GitHub URL"@)
                    } else if segs.len() < 3 {
                        Err("missing 'issues' segment in GitHub URL"@)
                    } else {
                        match parsed_u64(id) {
                            Some(n) => Ok((true, segs[0], segs[1], n)),
                            None => Err("invalid issue number"@),
                        }
                    },
                }
            } else if ends_with(host, "linear.app"@) {
                match parts.1 {
                    None => Err("invalid Linear URL path"@),
                    Some(segs) => if segs.len() < 1 {
                        Err("missing org in Linear URL"@)
                    } else if segs.len() < 2 {
                        Err("missing 'issue' segment in Linear URL"@)
                    } else {
                        Ok((false, segs[0], id, 0))
                    },
                }
            } else {
                Err("unsupported URL host"@)
            },
        },
    }
}

/// `r` is what `build_remote_ref_from_issue` returns for `issue`.
pub open spec fn ref_result_matches(r: Result<RemoteRef, JanusError>, issue: RemoteIssue) -> bool {
    parts_ref_matches(r, issue.id@, url_parts(issue.url@))
}

/// `r` is the reference `ref_from_parts` gives for the issue `id` with its
/// URL parsed to `parsed`, or the `InvalidRemoteRef` error for `id` with
/// the reason it gives.
pub open spec fn parts_ref_matches(
    r: Result<RemoteRef, JanusError>,
    id: Seq<char>,
    parsed: Result<(Option<Seq<char>>, Option<Seq<Seq<char>>>), Seq<char>>,
) -> bool {
    match r {
        Ok(rr) => ref_from_parts(id, parsed) == Ok::<(bool, Seq<char>, Seq<char>, u64), Seq<char>>(
            ref_parts(rr),
        ),
        Err(e) => match e {
            JanusError::InvalidRemoteRef(eid, reason) => eid@ == id && ref_from_parts(id, parsed)
                == Err::<(bool, Seq<char>, Seq<char>, u64), Seq<char>>(reason@),
            _ => false,
        },
    }
}

fn ref_error(id: &str, reason: &str) -> (e: JanusError)
    ensures
        e matches JanusError::InvalidRemoteRef(eid, r) && eid@ == id@ && r@ == reason@,
{
    JanusError::InvalidRemoteRef(owned(id), owned(reason))
}

/// The remote reference of the issue `issue_id` whose URL parsed to
/// `parsed` (its host and path segments, or the parse error's message):
/// see `ref_from_parts`.
pub fn remote_ref_from_url_parts(
    issue_id: &str,
    parsed: Result<(Option<String>, Option<Vec<String>>), String>,
) -> (r: Result<RemoteRef, JanusError>)
    ensures
        parts_ref_matches(r, issue_id@, url_parts_view(parsed)),
{
    let parsed = match parsed {
        Ok(p) => p,
        Err(e) => {
            let reason = concat("invalid URL: ", e.as_str());
            return Err(JanusError::InvalidRemoteRef(owned(issue_id), reason));
        },
    };
    let (host, segments) = parsed;
    let host = match host {
        Some(h) => h,
        None => {
            return Err(ref_error(issue_id, "URL has no host"));
        },
    };
    if str_ends_with(host.as_str(), "github.com") {
        let segs = match segments {
            Some(s) => s,
            None => {
                return Err(ref_error(issue_id, "invalid GitHub URL path"));
            },
        };
        if segs.len() < 1 {
            return Err(ref_error(issue_id, "missing owner in GitHub URL"));
        }
        if segs.len() < 2 {
            return Err(ref_error(issue_id, "missing repo in GitHub URL"));
        }
        if segs.len() < 3 {
            return Err(ref_error(issue_id, "missing 'issues' segment in GitHub URL"));
        }
        let issue_number = match parse_u64(issue_id) {
            Some(n) => n,
            None => {
                return Err(ref_error(issue_id, "invalid issue number"));
            },
        };
        assert(string_texts(segs@)[0] == segs@[0]@);
        assert(string_texts(segs@)[1] == segs@[1]@);
        return Ok(
            RemoteRef::GitHub { owner: segs[0].clone(), repo: segs[1].clone(), issue_number },
        );
    }
    if str_ends_with(host.as_str(), "linear.app") {
        let segs = match segments {
            Some(s) => s,
            None => {
                return Err(ref_error(issue_id, "invalid Linear URL path"));
            },
        };
        if segs.len() < 1 {
            return Err(ref_error(issue_id, "missing org in Linear URL"));
        }
        if segs.len() < 2 {
            return Err(ref_error(issue_id, "missing 'issue' segment in Linear URL"));
        }
        assert(string_texts(segs@)[0] == segs@[0]@);
        return Ok(RemoteRef::Linear { org: segs[0].clone(), issue_id: owned(issue_id) });
    }
    Err(ref_error(issue_id, "unsupported URL host"))
}

/// The remote reference of an issue, from its URL and id (see
/// `ref_from_issue`): the URL is parsed, then its parts make the reference
/// (see `remote_ref_from_url_parts`).
pub fn build_remote_ref_from_issue(issue: &RemoteIssue) -> (r: Result<RemoteRef, JanusError>)
    ensures
        ref_result_matches(r, *issue),
{
    let parsed = parse_url(issue.url.as_str());
    remote_ref_from_url_parts(issue.id.as_str(), parsed)
}

// ---------------------------------------------------------------------------
// Adopting remote issues
// ---------------------------------------------------------------------------

/// A local ticket to create for a remote issue.
#[derive(Debug, Clone)]
pub struct AdoptedTicket {
    pub title: String,
    pub description: Option<String>,
    pub status: TicketStatus,
    pub ticket_type: TicketType,
    /// Priority number (0-4 on the remote side; 2 when it has none).
    pub priority: u8,
    /// The remote reference to record.
    pub remote: String,
}

/// `d` is the ticket to create for `issue` linked by a reference with text
/// `remote`: sanitized title and body (no body when empty), the status the
/// issue's corresponds to, type task, the issue's priority or 2.
pub open spec fn draft_for(d: AdoptedTicket, issue: RemoteIssue, remote: Seq<char>) -> bool {
    &&& d.title@ == sanitized(issue.title@)
    &&& d.description is None <==> sanitized(issue.body@).len() == 0
    &&& d.description is Some ==> d.description->0@ == sanitized(issue.body@)
    &&& d.status == ticket_status_of(issue.status)
    &&& d.ticket_type == TicketType::Task
    &&& d.priority == match issue.priority {
        Some(p) => p,
        None => 2u8,
    }
    &&& d.remote@ == remote
}

/// The ticket to create for `issue`, linked by `remote_ref`; an issue whose
/// sanitized title is empty cannot be adopted.
pub fn remote_ticket_draft(issue: &RemoteIssue, remote_ref: &RemoteRef) -> (r: Result<
    AdoptedTicket,
    JanusError,
>)
    ensures
        r is Err <==> sanitized(issue.title@).len() == 0,
        r matches Err(e) ==> e is EmptyTitle,
        r matches Ok(d) ==> draft_for(d, *issue, remote_ref_text(*remote_ref)),
{
    let status = issue.status.to_ticket_status();
    let priority: u8 = match issue.priority {
        Some(p) => p,
        None => 2,
    };
    let title = sanitize_for_yaml(issue.title.as_str());
    let body = sanitize_for_yaml(issue.body.as_str());
    if title.as_str().unicode_len() == 0 {
        return Err(JanusError::EmptyTitle);
    }
    let description = if body.as_str().unicode_len() == 0 {
        None
    } else {
        Some(body)
    };
    Ok(
        AdoptedTicket {
            title,
            description,
            status,
            ticket_type: TicketType::Task,
            priority,
            remote: remote_ref.to_string(),
        },
    )
}

/// Whether `issue` can be adopted: it has a remote reference and a title.
pub open spec fn adoptable(issue: RemoteIssue) -> bool {
    &&& ref_from_issue(issue.id@, issue.url@) is Ok
    &&& sanitized(issue.title@).len() > 0
}

/// The error adopting `issue` stops at when it cannot be adopted: its
/// remote reference's `InvalidRemoteRef` when none can be built, else
/// `EmptyTitle`.
pub open spec fn adopt_error_of(e: JanusError, issue: RemoteIssue) -> bool {
    match ref_from_issue(issue.id@, issue.url@) {
        Err(reason) => e matches JanusError::InvalidRemoteRef(eid, rsn) && eid@ == issue.id@ && rsn@
            == reason,
        Ok(_) => e is EmptyTitle,
    }
}

/// A step of adopting remote issues, for the caller to carry out.
#[derive(Debug)]
pub enum AdoptStep {
    /// Create this ticket and report its id, or the error that stopped it.
    Create(AdoptedTicket),
    /// Adopting is over: the ids of the tickets created, one per issue in
    /// order, or the error it stopped at.
    Done(Result<Vec<String>, JanusError>),
}

/// `d` is the ticket drafted for `issue`, linked by the reference built
/// from it.
pub open spec fn drafted_for(d: AdoptedTicket, issue: RemoteIssue) -> bool {
    exists|rr: RemoteRef| #[trigger] ref_result_matches(Ok(rr), issue) && draft_for(d, issue, remote_ref_text(rr))
}

/// With `ids` the tickets created so far for the first issues, `step` and
/// `after` are what comes next: when every issue has its ticket, adopting
/// is over with `ids` (and they are handed out); the next issue, when it
/// cannot be adopted, ends adopting with its error; otherwise its ticket
/// is to be created.
pub open spec fn adopt_next(ids: Seq<String>, issues: Seq<RemoteIssue>, step: AdoptStep, after: Seq<String>) -> bool {
    let k = ids.len() as int;
    if k >= issues.len() {
        (step matches AdoptStep::Done(Ok(v)) && v@ == ids) && after.len() == 0
    } else if !adoptable(issues[k]) {
        (step matches AdoptStep::Done(Err(e)) && adopt_error_of(e, issues[k])) && after == ids
    } else {
        (step matches AdoptStep::Create(d) && drafted_for(d, issues[k])) && after == ids
    }
}

/// Adopting a list of remote issues as local tickets, one at a time and in
/// order. The caller creates each ticket asked for and reports the result;
/// adopting stops at the first issue that cannot be adopted or whose ticket
/// could not be created, and the tickets created before it stay.
#[derive(Debug)]
pub struct AdoptRun {
    /// Ids of the tickets created so far, one per issue from the first.
    pub adopted: Vec<String>,
}

impl AdoptRun {
    /// Nothing adopted yet.
    pub fn new() -> (r: AdoptRun)
        ensures
            r.adopted@.len() == 0,
    {
        AdoptRun { adopted: Vec::new() }
    }

    /// The step for the first issue without a ticket (see `adopt_next`).
    pub fn next(&mut self, issues: &[RemoteIssue]) -> (step: AdoptStep)
        ensures
            adopt_next(old(self).adopted@, issues@, step, final(self).adopted@),
    {
        let k = self.adopted.len();
        if k >= issues.len() {
            let mut ids: Vec<String> = Vec::new();
            std::mem::swap(&mut ids, &mut self.adopted);
            return AdoptStep::Done(Ok(ids));
        }
        let issue = &issues[k];
        let remote_ref = match build_remote_ref_from_issue(issue) {
            Ok(rr) => rr,
            Err(e) => {
                return AdoptStep::Done(Err(e));
            },
        };
        match remote_ticket_draft(issue, &remote_ref) {
            Ok(d) => {
                proof {
                    assert(ref_result_matches(Ok(remote_ref), issues@[k as int]));
                    assert(adoptable(issues@[k as int]));
                    assert(drafted_for(d, issues@[k as int]));
                }
                AdoptStep::Create(d)
            },
            Err(e) => AdoptStep::Done(Err(e)),
        }
    }

    /// Takes what creating the ticket asked for last gave: its id is kept
    /// and the next issue taken (see `adopt_next`); an error ends adopting
    /// with that error.
    pub fn created(&mut self, issues: &[RemoteIssue], created: Result<String, JanusError>) -> (step: AdoptStep)
        ensures
            match created {
                Ok(id) => adopt_next(old(self).adopted@.push(id), issues@, step, final(self).adopted@),
                Err(e) => (step matches AdoptStep::Done(Err(x)) && x == e) && final(self).adopted@
                    == old(self).adopted@,
            },
    {
        match created {
            Ok(id) => {
                self.adopted.push(id);
                self.next(issues)
            },
            Err(e) => AdoptStep::Done(Err(e)),
        }
    }
}


// ---------------------------------------------------------------------------
// Sync changes
// ---------------------------------------------------------------------------

/// The texts of a change: field name, local value, remote value, direction.
pub open spec fn change_view(c: SyncChange) -> (Seq<char>, Seq<char>, Seq<char>, SyncDirection) {
    (c.field_name@, c.local_value@, c.remote_value@, c.direction)
}

/// The message for a ticket whose status is missing.
pub open spec fn missing_status_message(t: TicketMetadata) -> Seq<char> {
    let id = match t.id {
        Some(s) => s@,
        None => "unknown"@,
    };
    "Ticket '"@ + id + "' is missing status field and may be corrupted"@
}

/// The differences between a ticket and its remote issue, all copied in
/// `dir`: the title (no title counts as empty), the status (as the issue's
/// status corresponds to a ticket's) and, when `with_priority` and the issue
/// has a priority, the priority (2 for a ticket without one). A ticket
/// without status has no differences but the missing-status error.
pub open spec fn sync_changes_of(
    t: TicketMetadata,
    i: RemoteIssue,
    dir: SyncDirection,
    with_priority: bool,
) -> Result<Seq<(Seq<char>, Seq<char>, Seq<char>, SyncDirection)>, Seq<char>> {
    let local_title = match t.title {
        Some(s) => s@,
        None => Seq::<char>::empty(),
    };
    let title_changes = if local_title != i.title@ {
        seq![("Title"@, local_title, i.title@, dir)]
    } else {
        seq![]
    };
    match t.status {
        None => Err(missing_status_message(t)),
        Some(local) => {
            let remote = ticket_status_of(i.status);
            let status_changes = if local != remote {
                seq![("Status"@, status_name(local), status_name(remote), dir)]
            } else {
                seq![]
            };
            let priority_changes = match i.priority {
                Some(rp) => if with_priority && ticket_priority_num(t) != rp {
                    seq![
                        ("Priority"@, decimal(ticket_priority_num(t) as nat), decimal(rp as nat), dir),
                    ]
                } else {
                    seq![]
                },
                None => seq![],
            };
            Ok(title_changes + status_changes + priority_changes)
        },
    }
}

/// `r` holds exactly the changes or the error of `expected`.
pub open spec fn changes_match(
    r: Result<Vec<SyncChange>, JanusError>,
    expected: Result<Seq<(Seq<char>, Seq<char>, Seq<char>, SyncDirection)>, Seq<char>>,
) -> bool {
    match r {
        Ok(v) => expected == Ok::<
            Seq<(Seq<char>, Seq<char>, Seq<char>, SyncDirection)>,
            Seq<char>,
        >(Seq::new(v@.len(), |k: int| change_view(v@[k]))),
        Err(e) => match e {
            JanusError::Other(msg) => expected == Err::<
                Seq<(Seq<char>, Seq<char>, Seq<char>, SyncDirection)>,
                Seq<char>,
            >(msg@),
            _ => false,
        },
    }
}

fn sync_changes(ticket: &TicketMetadata, issue: &RemoteIssue, dir: SyncDirection, with_priority: bool) -> (r:
    Result<Vec<SyncChange>, JanusError>)
    ensures
        changes_match(r, sync_changes_of(*ticket, *issue, dir, with_priority)),
{
    proof {
        reveal_strlit("");
    }
    let mut changes: Vec<SyncChange> = Vec::new();
    let local_title: &str = match &ticket.title {
        Some(s) => s.as_str(),
        None => "",
    };
    if !str_eq(local_title, issue.title.as_str()) {
        changes.push(
            SyncChange {
                field_name: owned("Title"),
                local_value: owned(local_title),
                remote_value: issue.title.clone(),
                direction: dir,
            },
        );
    }
    let ghost local_title_v = crate::tui::search::text_or_empty(ticket.title);
    let ghost title_part = Seq::new(changes@.len(), |k: int| change_view(changes@[k]));
    assert(local_title@ == local_title_v);
    assert(title_part =~= (if local_title_v != issue.title@ {
        seq![("Title"@, local_title_v, issue.title@, dir)]
    } else {
        seq![]
    }));
    let local_status = match ticket.status {
        Some(st) => st,
        None => {
            let id: &str = match &ticket.id {
                Some(s) => s.as_str(),
                None => "unknown",
            };
            let a = concat("Ticket '", id);
            let msg = concat(a.as_str(), "' is missing status field and may be corrupted");
            return Err(JanusError::Other(msg));
        },
    };
    let remote_status = issue.status.to_ticket_status();
    if local_status != remote_status {
        changes.push(
            SyncChange {
                field_name: owned("Status"),
                local_value: local_status.to_string(),
                remote_value: remote_status.to_string(),
                direction: dir,
            },
        );
    }
    let ghost status_part = Seq::new(changes@.len(), |k: int| change_view(changes@[k]));
    assert(status_part =~= title_part + (if local_status != remote_status {
        seq![("Status"@, status_name(local_status), status_name(remote_status), dir)]
    } else {
        seq![]
    }));
    if with_priority {
        match issue.priority {
            Some(remote_priority) => {
                let local_priority = ticket.priority_num();
                if local_priority != remote_priority {
                    changes.push(
                        SyncChange {
                            field_name: owned("Priority"),
                            local_value: decimal_string(local_priority as u64),
                            remote_value: decimal_string(remote_priority as u64),
                            direction: dir,
                        },
                    );
                }
            },
            None => {},
        }
    }
    proof {
        let expected = sync_changes_of(*ticket, *issue, dir, with_priority);
        let v = Seq::new(changes@.len(), |k: int| change_view(changes@[k]));
        let priority_part: Seq<(Seq<char>, Seq<char>, Seq<char>, SyncDirection)> = match issue.priority {
            Some(rp) => if with_priority && ticket_priority_num(*ticket) != rp {
                seq![
                    ("Priority"@, decimal(ticket_priority_num(*ticket) as nat), decimal(rp as nat), dir),
                ]
            } else {
                seq![]
            },
            None => seq![],
        };
        assert(v =~= status_part + priority_part);
        assert(expected is Ok);
        assert(v =~= expected->Ok_0);
    }
    Ok(changes)
}

/// Each change of `v` carries the value of `t` as its local value and that
/// of `i` as its remote value, for its field (title, status or priority),
/// and is copied in `dir`.
pub open spec fn changes_carry_values(v: Seq<SyncChange>, t: TicketMetadata, i: RemoteIssue, dir: SyncDirection) -> bool {
    forall|k: int| 0 <= k < v.len() ==> {
        let c = #[trigger] v[k];
        &&& c.direction == dir
        &&& c.field_name@ == "Title"@ ==> c.local_value@ == text_or_empty(t.title)
            && c.remote_value@ == i.title@
        &&& c.field_name@ == "Status"@ ==> c.local_value@ == status_name(t.status->0)
            && c.remote_value@ == status_name(ticket_status_of(i.status))
        &&& c.field_name@ == "Priority"@ ==> c.local_value@ == decimal(
            ticket_priority_num(t) as nat,
        ) && c.remote_value@ == decimal(i.priority->0 as nat)
        &&& c.field_name@ == "Title"@ || c.field_name@ == "Status"@ || c.field_name@
            == "Priority"@
    }
}

/// Each difference a sync finds carries the ticket's value as its local
/// value and the issue's as its remote value: for the title, the ticket's
/// title (empty when it has none) and the issue's title, found exactly when
/// they differ; for the status, the ticket's status and the status the
/// issue's corresponds to; for the priority, the ticket's number (2 when it
/// has none) and the issue's. Every change is copied in `dir`.
pub proof fn lemma_sync_change_values(
    t: TicketMetadata,
    i: RemoteIssue,
    dir: SyncDirection,
    with_priority: bool,
    r: Result<Vec<SyncChange>, JanusError>,
)
    requires
        changes_match(r, sync_changes_of(t, i, dir, with_priority)),
    ensures
        r matches Ok(v) ==> {
            &&& changes_carry_values(v@, t, i, dir)
            &&& (exists|k: int| 0 <= k < v@.len() && (#[trigger] v@[k]).field_name@ == "Title"@)
                <==> text_or_empty(t.title) != i.title@
        },
{
    reveal_strlit("Title");
    reveal_strlit("Status");
    reveal_strlit("Priority");
    assert("Title"@[0] == 'T' && "Status"@[0] == 'S' && "Priority"@[0] == 'P');
    if let Ok(v) = r {
        let exp = sync_changes_of(t, i, dir, with_priority)->Ok_0;
        assert(exp == Seq::new(v@.len(), |k: int| change_view(v@[k])));
        assert forall|k: int| 0 <= k < v@.len() implies {
            let c = #[trigger] v@[k];
            &&& c.direction == dir
            &&& c.field_name@ == "Title"@ ==> c.local_value@ == text_or_empty(t.title)
                && c.remote_value@ == i.title@
            &&& c.field_name@ == "Status"@ ==> c.local_value@ == status_name(t.status->0)
                && c.remote_value@ == status_name(ticket_status_of(i.status))
            &&& c.field_name@ == "Priority"@ ==> c.local_value@ == decimal(
                ticket_priority_num(t) as nat,
            ) && c.remote_value@ == decimal(i.priority->0 as nat)
            &&& c.field_name@ == "Title"@ || c.field_name@ == "Status"@ || c.field_name@
                == "Priority"@
        } by {
            assert(exp[k] == change_view(v@[k]));
        }
        if text_or_empty(t.title) != i.title@ {
            assert(exp[0] == change_view(v@[0]));
            assert(v@[0].field_name@ == "Title"@);
        }
        if exists|k: int| 0 <= k < v@.len() && (#[trigger] v@[k]).field_name@ == "Title"@ {
            let k = choose|k: int| 0 <= k < v@.len() && (#[trigger] v@[k]).field_name@ == "Title"@;
            assert(exp[k] == change_view(v@[k]));
        }
    }
}

/// The changes a sync would copy from the remote issue to the ticket:
/// title, status and priority (see `sync_changes_of`).
pub fn build_sync_changes(ticket: &TicketMetadata, issue: &RemoteIssue) -> (r: Result<
    Vec<SyncChange>,
    JanusError,
>)
    ensures
        changes_match(r, sync_changes_of(*ticket, *issue, SyncDirection::RemoteToLocal, true)),
        r matches Ok(v) ==> changes_carry_values(v@, *ticket, *issue, SyncDirection::RemoteToLocal),
{
    let r = sync_changes(ticket, issue, SyncDirection::RemoteToLocal, true);
    proof {
        lemma_sync_change_values(*ticket, *issue, SyncDirection::RemoteToLocal, true, r);
    }
    r
}

/// The changes a sync would copy from the ticket to the remote issue:
/// title and status (see `sync_changes_of`).
pub fn create_sync_changes(ticket: &TicketMetadata, issue: &RemoteIssue) -> (r: Result<
    Vec<SyncChange>,
    JanusError,
>)
    ensures
        changes_match(r, sync_changes_of(*ticket, *issue, SyncDirection::LocalToRemote, false)),
        r matches Ok(v) ==> changes_carry_values(v@, *ticket, *issue, SyncDirection::LocalToRemote),
{
    let r = sync_changes(ticket, issue, SyncDirection::LocalToRemote, false);
    proof {
        lemma_sync_change_values(*ticket, *issue, SyncDirection::LocalToRemote, false, r);
    }
    r
}

/// What applying an accepted change does to the local ticket.
#[derive(Debug, Clone)]
pub enum LocalSyncUpdate {
    /// Replace the title heading with this title.
    Title(String),
    /// Set this front-matter field to this value.
    Field(String, String),
}

/// What applying an accepted change to the local ticket does, by field:
/// the title heading becomes the remote value; status and priority are set
/// to it; any other field is refused.
pub fn local_sync_update(change: &SyncChange) -> (r: Result<LocalSyncUpdate, JanusError>)
    ensures
        change.field_name@ == "Title"@ ==> (r matches Ok(LocalSyncUpdate::Title(t)) && t@
            == change.remote_value@),
        change.field_name@ == "Status"@ ==> (r matches Ok(LocalSyncUpdate::Field(f, v)) && f@
            == "status"@ && v@ == change.remote_value@),
        change.field_name@ == "Priority"@ ==> (r matches Ok(LocalSyncUpdate::Field(f, v)) && f@
            == "priority"@ && v@ == change.remote_value@),
        (change.field_name@ != "Title"@ && change.field_name@ != "Status"@ && change.field_name@
            != "Priority"@) ==> (r matches Err(JanusError::Other(m)) && m@ == "Unknown field: "@
            + change.field_name@),
{
    proof {
        reveal_strlit("Title");
        reveal_strlit("Status");
        reveal_strlit("Priority");
        reveal_strlit("complete");
        reveal_strlit("cancelled");
        assert("Title"@[0] == 'T' && "Status"@[0] == 'S' && "Priority"@[0] == 'P');
    }
    let name = change.field_name.as_str();
    if str_eq(name, "Title") {
        Ok(LocalSyncUpdate::Title(change.remote_value.clone()))
    } else if str_eq(name, "Status") {
        Ok(LocalSyncUpdate::Field(owned("status"), change.remote_value.clone()))
    } else if str_eq(name, "Priority") {
        Ok(LocalSyncUpdate::Field(owned("priority"), change.remote_value.clone()))
    } else {
        Err(JanusError::Other(concat("Unknown field: ", name)))
    }
}

/// The update of a remote issue: what to change.
#[derive(Debug, Clone)]
pub struct RemoteIssueUpdate {
    pub title: Option<String>,
    pub status: Option<RemoteStatus>,
}

/// What applying an accepted change to the remote issue does: the title
/// becomes the local value; the status becomes closed for a complete or
/// cancelled ticket, else open; any other field is refused.
pub fn remote_sync_update(change: &SyncChange) -> (r: Result<RemoteIssueUpdate, JanusError>)
    ensures
        change.field_name@ == "Title"@ ==> (r matches Ok(u) && u.title matches Some(t) && t@
            == change.local_value@ && u.status is None),
        change.field_name@ == "Status"@ ==> (r matches Ok(u) && u.title is None && u.status is Some
            && (if change.local_value@ == "complete"@ || change.local_value@ == "cancelled"@ {
            u.status->0 is Closed
        } else {
            u.status->0 is Open
        })),
        (change.field_name@ != "Title"@ && change.field_name@ != "Status"@) ==> (r matches Err(
            JanusError::Other(m),
        ) && m@ == "Cannot sync field '"@ + change.field_name@ + "' to remote"@),
{
    proof {
        reveal_strlit("Title");
        reveal_strlit("Status");
        reveal_strlit("Priority");
        reveal_strlit("complete");
        reveal_strlit("cancelled");
        assert("Title"@[0] == 'T' && "Status"@[0] == 'S' && "Priority"@[0] == 'P');
    }
    let name = change.field_name.as_str();
    if str_eq(name, "Title") {
        Ok(RemoteIssueUpdate { title: Some(change.local_value.clone()), status: None })
    } else if str_eq(name, "Status") {
        let v = change.local_value.as_str();
        let status = if str_eq(v, "complete") || str_eq(v, "cancelled") {
            RemoteStatus::Closed
        } else {
            RemoteStatus::Open
        };
        Ok(RemoteIssueUpdate { title: None, status: Some(status) })
    } else {
        let a = concat("Cannot sync field '", name);
        Err(JanusError::Other(concat(a.as_str(), "' to remote")))
    }
}

// ---------------------------------------------------------------------------
// Title heading of a ticket file
// ---------------------------------------------------------------------------

/// The pattern of a title heading line: `#`, whitespace, the rest of a line.
pub const TITLE_LINE_PATTERN: &'static str = "(?m)^#\\s+.*$";

#[verifier::external_type_specification]
#[verifier::external_body]
pub struct ExRegex(Regex);

/// Whether `Regex::new` accepts the pattern.
pub uninterp spec fn regex_compiles(pattern: Seq<char>) -> bool;

/// What `Regex::replace` gives: `content` with the first match of
/// `pattern` replaced by `rep` (with `$` group references expanded).
pub uninterp spec fn regex_replaced(pattern: Seq<char>, content: Seq<char>, rep: Seq<char>) -> Seq<char>;

/// A compiled regular expression, with the pattern it was compiled from.
pub struct CompiledPattern {
    regex: Regex,
    pattern: Ghost<Seq<char>>,
}

/// `Regex::new`; whether it succeeds is named by `regex_compiles`.
#[verifier::external_body]
fn compile_pattern(pattern: &str) -> (r: Option<CompiledPattern>)
    ensures
        r is Some <==> regex_compiles(pattern@),
        r matches Some(p) ==> p.pattern@ == pattern@,
{
    match Regex::new(pattern) {
        Ok(regex) => Some(CompiledPattern { regex, pattern: Ghost(pattern@) }),
        Err(_) => None,
    }
}

/// `Regex::replace`; its result is named by `regex_replaced`.
#[verifier::external_body]
fn replace_first(p: &CompiledPattern, content: &str, rep: &str) -> (r: String)
    ensures
        r@ == regex_replaced(p.pattern@, content@, rep@),
{
    p.regex.replace(content, rep).to_string()
}

/// The ticket content with its first title heading replaced by `# ` and
/// the new title. (Content is returned unchanged only if the title pattern
/// were not accepted by the regex engine.)
pub fn update_title_in_content(content: &str, new_title: &str) -> (r: String)
    ensures
        regex_compiles(TITLE_LINE_PATTERN@) ==> r@ == regex_replaced(
            TITLE_LINE_PATTERN@,
            content@,
            "# "@ + new_title@,
        ),
        !regex_compiles(TITLE_LINE_PATTERN@) ==> r@ == content@,
{
    let heading = concat("# ", new_title);
    match compile_pattern(TITLE_LINE_PATTERN) {
        Some(p) => replace_first(&p, content, heading.as_str()),
        None => owned(content),
    }
}


// ---------------------------------------------------------------------------
// Pushing tickets
// ---------------------------------------------------------------------------

/// A ticket pushed to the remote platform, with the reference of the issue
/// created for it.
#[derive(Debug)]
pub struct PushResult {
    pub ticket_id: String,
    pub remote_ref: RemoteRef,
}

/// Why pushing a ticket failed.
#[derive(Debug)]
pub enum PushError {
    Auth { ticket_id: String, message: String, source: Option<JanusError> },
    Api { ticket_id: String, message: String, source: Option<JanusError> },
    RateLimited { ticket_id: String, retry_after_seconds: u64 },
    Network { ticket_id: String, message: String },
    Config { ticket_id: String, message: String, source: Option<JanusError> },
    TicketNotFound { ticket_id: String, source: Option<JanusError> },
    TicketReadError { ticket_id: String, message: String, source: Option<JanusError> },
    TicketWriteError { ticket_id: String, message: String, source: Option<JanusError> },
    AlreadyLinked { ticket_id: String },
}

/// The ticket a push error is about.
pub open spec fn push_error_ticket(e: PushError) -> Seq<char> {
    match e {
        PushError::Auth { ticket_id, .. } => ticket_id@,
        PushError::Api { ticket_id, .. } => ticket_id@,
        PushError::RateLimited { ticket_id, .. } => ticket_id@,
        PushError::Network { ticket_id, .. } => ticket_id@,
        PushError::Config { ticket_id, .. } => ticket_id@,
        PushError::TicketNotFound { ticket_id, .. } => ticket_id@,
        PushError::TicketReadError { ticket_id, .. } => ticket_id@,
        PushError::TicketWriteError { ticket_id, .. } => ticket_id@,
        PushError::AlreadyLinked { ticket_id } => ticket_id@,
    }
}

/// The short message of a push error, for display beside the ticket.
pub open spec fn push_error_message(e: PushError) -> Seq<char> {
    match e {
        PushError::Auth { message, .. } => message@,
        PushError::Api { message, .. } => message@,
        PushError::RateLimited { retry_after_seconds, .. } => "rate limited, retry after "@
            + decimal(retry_after_seconds as nat) + "s"@,
        PushError::Network { message, .. } => message@,
        PushError::Config { message, .. } => message@,
        PushError::TicketNotFound { .. } => "ticket not found"@,
        PushError::TicketReadError { message, .. } => message@,
        PushError::TicketWriteError { message, .. } => message@,
        PushError::AlreadyLinked { .. } => "already linked to remote issue"@,
    }
}

/// The full description of a push error.
pub open spec fn push_error_text(e: PushError) -> Seq<char> {
    let q = "'"@;
    match e {
        PushError::Auth { ticket_id, message, .. } => "authentication failed for ticket '"@
            + ticket_id@ + "': "@ + message@,
        PushError::Api { ticket_id, message, .. } => "API error for ticket '"@ + ticket_id@
            + "': "@ + message@,
        PushError::RateLimited { ticket_id, retry_after_seconds } =>
            "rate limit exceeded for ticket '"@ + ticket_id@ + "': retry after "@ + decimal(
            retry_after_seconds as nat,
        ) + "s"@,
        PushError::Network { ticket_id, message } => "network error for ticket '"@ + ticket_id@
            + "': "@ + message@,
        PushError::Config { ticket_id, message, .. } => "configuration error for ticket '"@
            + ticket_id@ + "': "@ + message@,
        PushError::TicketNotFound { ticket_id, .. } => "ticket '"@ + ticket_id@ + q
            + " not found"@,
        PushError::TicketReadError { ticket_id, message, .. } => "failed to read ticket '"@
            + ticket_id@ + "': "@ + message@,
        PushError::TicketWriteError { ticket_id, message, .. } => "failed to write ticket '"@
            + ticket_id@ + "': "@ + message@,
        PushError::AlreadyLinked { ticket_id } => "ticket '"@ + ticket_id@ + q
            + " is already linked to a remote issue"@,
    }
}

/// `r` is the push error for `error` met while pushing the ticket `id`:
/// authentication, API, rate-limit, configuration and not-found errors
/// keep their kind; an HTTP error is a network error; a ticket that is or
/// is not linked counts as already linked; anything else is a read error.
pub open spec fn push_error_for(r: PushError, error: JanusError, id: Seq<char>) -> bool {
    match error {
        JanusError::Auth(msg) => r matches PushError::Auth { ticket_id, message, source } && ticket_id@
            == id && message@ == msg@ && source == Some(error),
        JanusError::Api(msg) => r matches PushError::Api { ticket_id, message, source } && ticket_id@
            == id && message@ == msg@ && source == Some(error),
        JanusError::RateLimited(secs) => r matches PushError::RateLimited {
            ticket_id,
            retry_after_seconds,
        } && ticket_id@ == id && retry_after_seconds == secs,
        JanusError::Http(_) => r matches PushError::Network { ticket_id, message } && ticket_id@ == id
            && message@ == error_text(error),
        JanusError::Config(msg) => r matches PushError::Config { ticket_id, message, source }
            && ticket_id@ == id && message@ == msg@ && source == Some(error),
        JanusError::TicketNotFound(_) => r matches PushError::TicketNotFound { ticket_id, source }
            && ticket_id@ == id && source == Some(error),
        JanusError::NotLinked => r matches PushError::AlreadyLinked { ticket_id } && ticket_id@ == id,
        JanusError::AlreadyLinked(_) => r matches PushError::AlreadyLinked { ticket_id } && ticket_id@
            == id,
        _ => r matches PushError::TicketReadError { ticket_id, message, source } && ticket_id@ == id
            && message@ == error_text(error) && source == Some(error),
    }
}

impl PushError {
    /// The ticket this error is about.
    pub fn ticket_id(&self) -> (r: &str)
        ensures
            r@ == push_error_ticket(*self),
    {
        match self {
            PushError::Auth { ticket_id, .. } => ticket_id.as_str(),
            PushError::Api { ticket_id, .. } => ticket_id.as_str(),
            PushError::RateLimited { ticket_id, .. } => ticket_id.as_str(),
            PushError::Network { ticket_id, .. } => ticket_id.as_str(),
            PushError::Config { ticket_id, .. } => ticket_id.as_str(),
            PushError::TicketNotFound { ticket_id, .. } => ticket_id.as_str(),
            PushError::TicketReadError { ticket_id, .. } => ticket_id.as_str(),
            PushError::TicketWriteError { ticket_id, .. } => ticket_id.as_str(),
            PushError::AlreadyLinked { ticket_id } => ticket_id.as_str(),
        }
    }

    /// The short message of this error.
    pub fn error_message(&self) -> (r: String)
        ensures
            r@ == push_error_message(*self),
    {
        match self {
            PushError::Auth { message, .. } => message.clone(),
            PushError::Api { message, .. } => message.clone(),
            PushError::RateLimited { retry_after_seconds, .. } => {
                let d = decimal_string(*retry_after_seconds);
                let a = concat("rate limited, retry after ", d.as_str());
                concat(a.as_str(), "s")
            },
            PushError::Network { message, .. } => message.clone(),
            PushError::Config { message, .. } => message.clone(),
            PushError::TicketNotFound { .. } => owned("ticket not found"),
            PushError::TicketReadError { message, .. } => message.clone(),
            PushError::TicketWriteError { message, .. } => message.clone(),
            PushError::AlreadyLinked { .. } => owned("already linked to remote issue"),
        }
    }

    /// The full description of this error.
    pub fn to_string(&self) -> (r: String)
        ensures
            r@ == push_error_text(*self),
    {
        match self {
            PushError::Auth { ticket_id, message, .. } => {
                let a = concat("authentication failed for ticket '", ticket_id.as_str());
                let b = concat(a.as_str(), "': ");
                concat(b.as_str(), message.as_str())
            },
            PushError::Api { ticket_id, message, .. } => {
                let a = concat("API error for ticket '", ticket_id.as_str());
                let b = concat(a.as_str(), "': ");
                concat(b.as_str(), message.as_str())
            },
            PushError::RateLimited { ticket_id, retry_after_seconds } => {
                let a = concat("rate limit exceeded for ticket '", ticket_id.as_str());
                let b = concat(a.as_str(), "': retry after ");
                let d = decimal_string(*retry_after_seconds);
                let c = concat(b.as_str(), d.as_str());
                concat(c.as_str(), "s")
            },
            PushError::Network { ticket_id, message } => {
                let a = concat("network error for ticket '", ticket_id.as_str());
                let b = concat(a.as_str(), "': ");
                concat(b.as_str(), message.as_str())
            },
            PushError::Config { ticket_id, message, .. } => {
                let a = concat("configuration error for ticket '", ticket_id.as_str());
                let b = concat(a.as_str(), "': ");
                concat(b.as_str(), message.as_str())
            },
            PushError::TicketNotFound { ticket_id, .. } => {
                let a = concat("ticket '", ticket_id.as_str());
                let b = concat(a.as_str(), "'");
                concat(b.as_str(), " not found")
            },
            PushError::TicketReadError { ticket_id, message, .. } => {
                let a = concat("failed to read ticket '", ticket_id.as_str());
                let b = concat(a.as_str(), "': ");
                concat(b.as_str(), message.as_str())
            },
            PushError::TicketWriteError { ticket_id, message, .. } => {
                let a = concat("failed to write ticket '", ticket_id.as_str());
                let b = concat(a.as_str(), "': ");
                concat(b.as_str(), message.as_str())
            },
            PushError::AlreadyLinked { ticket_id } => {
                let a = concat("ticket '", ticket_id.as_str());
                let b = concat(a.as_str(), "'");
                concat(b.as_str(), " is already linked to a remote issue")
            },
        }
    }

    /// The push error for `error`, met while pushing the ticket `ticket_id`
    /// (see `push_error_for`).
    pub fn from_error(error: JanusError, ticket_id: String) -> (r: PushError)
        ensures
            push_error_for(r, error, ticket_id@),
            push_error_ticket(r) == ticket_id@,
    {
        match &error {
            JanusError::Auth(msg) => {
                let message = msg.clone();
                PushError::Auth { ticket_id, message, source: Some(error) }
            },
            JanusError::Api(msg) => {
                let message = msg.clone();
                PushError::Api { ticket_id, message, source: Some(error) }
            },
            JanusError::RateLimited(seconds) => {
                let retry_after_seconds = *seconds;
                PushError::RateLimited { ticket_id, retry_after_seconds }
            },
            JanusError::Http(_) => PushError::Network { ticket_id, message: error.to_string() },
            JanusError::Config(msg) => {
                let message = msg.clone();
                PushError::Config { ticket_id, message, source: Some(error) }
            },
            JanusError::TicketNotFound(_) => PushError::TicketNotFound {
                ticket_id,
                source: Some(error),
            },
            JanusError::NotLinked | JanusError::AlreadyLinked(_) => PushError::AlreadyLinked {
                ticket_id,
            },
            _ => {
                let message = error.to_string();
                PushError::TicketReadError { ticket_id, message, source: Some(error) }
            },
        }
    }
}

/// The title under which a ticket is pushed, or why it cannot be: a ticket
/// that already has a remote reference is refused; a ticket without a
/// title is pushed as "Untitled".
pub fn push_title(ticket_id: &str, metadata: &TicketMetadata) -> (r: Result<String, PushError>)
    ensures
        metadata.remote is Some ==> (r matches Err(PushError::AlreadyLinked { ticket_id: t })
            && t@ == ticket_id@),
        metadata.remote is None ==> (r matches Ok(title) && title@ == match metadata.title {
            Some(t) => t@,
            None => "Untitled"@,
        }),
{
    if metadata.remote.is_some() {
        return Err(PushError::AlreadyLinked { ticket_id: owned(ticket_id) });
    }
    match &metadata.title {
        Some(t) => Ok(t.clone()),
        None => Ok(owned("Untitled")),
    }
}

/// The values of the `Ok` entries of `s`, in order.
pub open spec fn ok_values<T, E>(s: Seq<Result<T, E>>) -> Seq<T>
    decreases s.len(),
{
    if s.len() == 0 {
        Seq::empty()
    } else {
        let rest = ok_values(s.drop_last());
        match s.last() {
            Ok(v) => rest.push(v),
            Err(_) => rest,
        }
    }
}

/// The errors of the `Err` entries of `s`, in order.
pub open spec fn err_values<T, E>(s: Seq<Result<T, E>>) -> Seq<E>
    decreases s.len(),
{
    if s.len() == 0 {
        Seq::empty()
    } else {
        let rest = err_values(s.drop_last());
        match s.last() {
            Ok(_) => rest,
            Err(e) => rest.push(e),
        }
    }
}

/// Splits the outcomes of pushing several tickets into the tickets pushed
/// and the errors, each in the order they came.
pub fn split_push_results(results: Vec<Result<PushResult, PushError>>) -> (r: (Vec<PushResult>, Vec<PushError>))
    ensures
        r.0@ == ok_values(results@),
        r.1@ == err_values(results@),
        r.0@.len() + r.1@.len() == results@.len(),
{
    let mut successes: Vec<PushResult> = Vec::new();
    let mut errors: Vec<PushError> = Vec::new();
    let ghost all = results@;
    for result in it: results
        invariant
            it.seq() == all,
            successes@ == ok_values(all.take(it.index() as int)),
            errors@ == err_values(all.take(it.index() as int)),
            successes@.len() + errors@.len() == it.index(),
    {
        assert(all.take(it.index() + 1).drop_last() =~= all.take(it.index() as int));
        match result {
            Ok(pushed) => successes.push(pushed),
            Err(e) => errors.push(e),
        }
    }
    assert(all.take(all.len() as int) =~= all);
    (successes, errors)
}

/// The remote reference of a ticket about to be synced, or the error when
/// the ticket is not linked to a remote issue.
pub fn linked_remote_ref(metadata: &TicketMetadata) -> (r: Result<String, JanusError>)
    ensures
        metadata.remote matches Some(x) ==> (r matches Ok(y) && y@ == x@),
        metadata.remote is None ==> (r matches Err(JanusError::Other(m)) && m@
            == "Ticket is not linked to a remote issue"@),
{
    match &metadata.remote {
        Some(x) => Ok(x.clone()),
        None => Err(JanusError::Other(owned("Ticket is not linked to a remote issue"))),
    }
}

} // verus!
