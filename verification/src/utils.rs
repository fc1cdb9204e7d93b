//! Identifier generation, prefix validation and small text utilities.
use vstd::prelude::*;

use rand::Rng;
use sha2::{Digest, Sha256};

use crate::error::JanusError;
use crate::text::{
    alphanumeric, chars_of, concat, is_alphanumeric, is_whitespace, owned, str_eq,
    string_from_chars, whitespace,
};

verus! {

broadcast use vstd::string::group_string_axioms;

// ---------------------------------------------------------------------------
// Prefix validation
// ---------------------------------------------------------------------------

/// A character allowed in a ticket-id prefix.
pub open spec fn prefix_char_ok(c: char) -> bool {
    alphanumeric(c) || c == '-' || c == '_'
}

/// Message for a reserved prefix.
pub open spec fn reserved_prefix_message(prefix: Seq<char>) -> Seq<char> {
    "Prefix '"@ + prefix + "' is reserved and cannot be used for tickets"@
}

/// Message for a prefix with characters outside the allowed set.
pub open spec fn invalid_prefix_message(prefix: Seq<char>) -> Seq<char> {
    "Prefix '"@ + prefix
        + "' contains invalid characters. Use only letters, numbers, hyphens, and underscores"@
}

/// Checks that a prefix is not reserved (`plan`) and holds only letters,
/// digits, hyphens and underscores.
pub fn validate_prefix(prefix: &str) -> (r: Result<(), JanusError>)
    ensures
        prefix@ == "plan"@ ==> (r matches Err(JanusError::InvalidPrefix(p, m)) && p@ == prefix@
            && m@ == reserved_prefix_message(prefix@)),
        prefix@ != "plan"@ && !(forall|i: int|
            0 <= i < prefix@.len() ==> prefix_char_ok(#[trigger] prefix@[i])) ==> (r matches Err(
            JanusError::InvalidPrefix(p, m),
        ) && p@ == prefix@ && m@ == invalid_prefix_message(prefix@)),
        prefix@ != "plan"@ && (forall|i: int|
            0 <= i < prefix@.len() ==> prefix_char_ok(#[trigger] prefix@[i])) ==> r is Ok,
{
    if str_eq(prefix, "plan") {
        let a = concat("Prefix '", prefix);
        let m = concat(a.as_str(), "' is reserved and cannot be used for tickets");
        return Err(JanusError::InvalidPrefix(owned(prefix), m));
    }
    let chars = chars_of(prefix);
    let mut i: usize = 0;
    while i < chars.len()
        invariant
            chars@ == prefix@,
            prefix@ != "plan"@,
            i <= chars@.len(),
            forall|j: int| 0 <= j < i ==> prefix_char_ok(#[trigger] chars@[j]),
        decreases chars@.len() - i,
    {
        let c = chars[i];
        if !(is_alphanumeric(c) || c == '-' || c == '_') {
            let a = concat("Prefix '", prefix);
            let m = concat(
                a.as_str(),
                "' contains invalid characters. Use only letters, numbers, hyphens, and underscores",
            );
            return Err(JanusError::InvalidPrefix(owned(prefix), m));
        }
        i = i + 1;
    }
    Ok(())
}

// ---------------------------------------------------------------------------
// Hashes and identifiers
// ---------------------------------------------------------------------------

/// The SHA-256 digest of `data`, as `sha2::Sha256` computes it.
pub uninterp spec fn sha256(data: Seq<u8>) -> Seq<u8>;

/// 16 random bytes from the thread-local generator (`rand::rng().random()`).
#[verifier::external_body]
fn random_bytes() -> (r: [u8; 16]) {
    rand::rng().random()
}

/// SHA-256 of `data` through `sha2::Sha256` (new, update, finalize); the
/// digest is 32 bytes long.
#[verifier::external_body]
fn sha256_digest(data: &[u8]) -> (r: Vec<u8>)
    ensures
        r@ == sha256(data@),
        r@.len() == 32,
{
    let mut hasher = Sha256::new();
    hasher.update(data);
    hasher.finalize().to_vec()
}

/// The lowercase hex digit for a value below sixteen.
pub open spec fn hex_digit(n: nat) -> char {
    if n < 10 {
        crate::text::digit_char(n)
    } else if n == 10 {
        'a'
    } else if n == 11 {
        'b'
    } else if n == 12 {
        'c'
    } else if n == 13 {
        'd'
    } else if n == 14 {
        'e'
    } else {
        'f'
    }
}

/// Lowercase hex rendering of bytes, two digits per byte.
pub open spec fn hex_lower(bytes: Seq<u8>) -> Seq<char>
    decreases bytes.len(),
{
    if bytes.len() == 0 {
        seq![]
    } else {
        let b = bytes.last();
        hex_lower(bytes.drop_last()) + seq![hex_digit((b / 16) as nat), hex_digit((b % 16) as nat)]
    }
}

/// A character that `hex_lower` can produce.
pub open spec fn is_hex_char(c: char) -> bool {
    ('0' <= c && c <= '9') || ('a' <= c && c <= 'f')
}

proof fn lemma_hex_lower(bytes: Seq<u8>)
    ensures
        hex_lower(bytes).len() == 2 * bytes.len(),
        forall|i: int| 0 <= i < hex_lower(bytes).len() ==> is_hex_char(#[trigger] hex_lower(bytes)[i]),
    decreases bytes.len(),
{
    if bytes.len() > 0 {
        lemma_hex_lower(bytes.drop_last());
    }
}

fn hex_char(n: u8) -> (c: char)
    requires
        n < 16,
    ensures
        c == hex_digit(n as nat),
{
    if n == 0 {
        '0'
    } else if n == 1 {
        '1'
    } else if n == 2 {
        '2'
    } else if n == 3 {
        '3'
    } else if n == 4 {
        '4'
    } else if n == 5 {
        '5'
    } else if n == 6 {
        '6'
    } else if n == 7 {
        '7'
    } else if n == 8 {
        '8'
    } else if n == 9 {
        '9'
    } else if n == 10 {
        'a'
    } else if n == 11 {
        'b'
    } else if n == 12 {
        'c'
    } else if n == 13 {
        'd'
    } else if n == 14 {
        'e'
    } else {
        'f'
    }
}

/// Lowercase hex rendering of `bytes`.
pub fn hex_encode(bytes: &[u8]) -> (v: Vec<char>)
    ensures
        v@ == hex_lower(bytes@),
{
    let mut v: Vec<char> = Vec::new();
    let mut i: usize = 0;
    while i < bytes.len()
        invariant
            i <= bytes@.len(),
            v@ == hex_lower(bytes@.take(i as int)),
        decreases bytes@.len() - i,
    {
        let b = bytes[i];
        v.push(hex_char(b / 16));
        v.push(hex_char(b % 16));
        proof {
            assert(bytes@.take(i + 1).drop_last() =~= bytes@.take(i as int));
        }
        i = i + 1;
    }
    assert(bytes@.take(bytes@.len() as int) =~= bytes@);
    v
}

/// A random hex hash of `length` characters: the first `length` lowercase
/// hex digits of the SHA-256 of 16 random bytes.
pub fn generate_hash(length: usize) -> (r: String)
    requires
        length <= 64,
    ensures
        exists|b: Seq<u8>| b.len() == 16 && r@ == #[trigger] hex_lower(sha256(b)).take(length as int),
        r@.len() == length,
        forall|i: int| 0 <= i < r@.len() ==> is_hex_char(#[trigger] r@[i]),
{
    let bytes = random_bytes();
    let digest = sha256_digest(&bytes);
    let hex = hex_encode(digest.as_slice());
    proof {
        lemma_hex_lower(digest@);
    }
    let mut out: Vec<char> = Vec::new();
    let mut i: usize = 0;
    while i < length
        invariant
            i <= length <= 64,
            hex@.len() == 64,
            out@ == hex@.take(i as int),
        decreases length - i,
    {
        out.push(hex[i]);
        i = i + 1;
        assert(out@ =~= hex@.take(i as int));
    }
    let r = string_from_chars(out.as_slice());
    assert(r@ == hex_lower(sha256(bytes@)).take(length as int));
    r
}

/// `id` is `prefix`, a hyphen, and a lowercase hex hash of 4 to 8 characters.
pub open spec fn is_generated_id(id: Seq<char>, prefix: Seq<char>, hash_len: nat) -> bool {
    &&& 4 <= hash_len <= 8
    &&& id.len() == prefix.len() + 1 + hash_len
    &&& id.take(prefix.len() as int) == prefix
    &&& id[prefix.len() as int] == '-'
    &&& forall|i: int| prefix.len() < i < id.len() ==> is_hex_char(#[trigger] id[i])
}

/// `id` is `prefix`, a hyphen and a hex hash of some length from 4 to 8.
pub open spec fn is_id_for(id: Seq<char>, prefix: Seq<char>) -> bool {
    exists|n: nat| #[trigger] is_generated_id(id, prefix, n)
}

/// `<id>.md`, the file name of a ticket.
pub open spec fn ticket_file_name(id: Seq<char>) -> Seq<char> {
    id + ".md"@
}

/// Where the search for a free id goes once a candidate was checked.
#[derive(Debug, Clone, Copy, PartialEq, Eq, Structural)]
pub enum IdSearchStep {
    /// The candidate is free: it is the id.
    Found,
    /// Try a candidate with a hash of `length` characters, as attempt
    /// `attempt` (from 0) at that length.
    Next { length: usize, attempt: u32 },
    /// Every candidate was taken.
    GiveUp,
}

/// The step after attempt `attempt` at hash length `length` found its
/// candidate `taken` or not: a free candidate is the id; 40 attempts are
/// made at each length, then the length grows by one up to 8; after the
/// last attempt at length 8 the search gives up.
pub open spec fn id_search_step(length: usize, attempt: u32, taken: bool) -> IdSearchStep {
    if !taken {
        IdSearchStep::Found
    } else if attempt < 39 {
        IdSearchStep::Next { length, attempt: (attempt + 1) as u32 }
    } else if length < 8 {
        IdSearchStep::Next { length: (length + 1) as usize, attempt: 0 }
    } else {
        IdSearchStep::GiveUp
    }
}

/// Decides where the search for a free id goes (see `id_search_step`).
pub fn next_id_search_step(length: usize, attempt: u32, taken: bool) -> (r: IdSearchStep)
    ensures
        r == id_search_step(length, attempt, taken),
{
    if !taken {
        IdSearchStep::Found
    } else if attempt < 39 {
        IdSearchStep::Next { length, attempt: attempt + 1 }
    } else if length < 8 {
        IdSearchStep::Next { length: length + 1, attempt: 0 }
    } else {
        IdSearchStep::GiveUp
    }
}

/// `file_exists` reported the ticket file of `id` as present.
pub open spec fn reported_taken<F: Fn(&str) -> bool>(file_exists: F, id: Seq<char>) -> bool {
    exists|name: &str| name@ == ticket_file_name(id) && #[trigger] file_exists.ensures((name,), true)
}

/// `file_exists` reported the ticket file of `id` as absent.
pub open spec fn reported_free<F: Fn(&str) -> bool>(file_exists: F, id: Seq<char>) -> bool {
    exists|name: &str| name@ == ticket_file_name(id) && #[trigger] file_exists.ensures((name,), false)
}

/// `tried` are candidates for `prefix` in the order the search tries them
/// (40 with a hash of each length from 4 on), each reported taken.
pub open spec fn candidates_taken<F: Fn(&str) -> bool>(file_exists: F, prefix: Seq<char>, tried: Seq<Seq<char>>) -> bool {
    forall|k: int|
        0 <= k < tried.len() ==> is_generated_id(#[trigger] tried[k], prefix, (4 + k / 40) as nat)
            && reported_taken(file_exists, tried[k])
}

/// `name` is the ticket file of a candidate for `prefix` with a hash of
/// `hash_len` characters.
pub open spec fn is_candidate_file(name: Seq<char>, prefix: Seq<char>, hash_len: nat) -> bool {
    &&& name.len() >= 3
    &&& name.skip(name.len() - 3) == ".md"@
    &&& is_generated_id(name.take(name.len() - 3), prefix, hash_len)
}

/// `file_exists` reports no ticket file of a candidate for `prefix` with a
/// 4-character hash as present.
pub open spec fn short_candidates_free<F: Fn(&str) -> bool>(file_exists: F, prefix: Seq<char>) -> bool {
    forall|name: &str, b: bool|
        #[trigger] file_exists.ensures((name,), b) && is_candidate_file(name@, prefix, 4) ==> !b
}

/// What a search for a free id for `prefix` came to: an id of the right
/// form whose file was reported absent; nothing only after all 200
/// candidates were reported taken; and a 4-character hash whenever no
/// 4-character candidate is reported taken.
pub open spec fn id_search_outcome<F: Fn(&str) -> bool>(r: Option<String>, file_exists: F, prefix: Seq<char>) -> bool {
    &&& r matches Some(id) ==> is_id_for(id@, prefix) && reported_free(file_exists, id@)
    &&& r is None ==> exists|tried: Seq<Seq<char>>|
        tried.len() == 200 && #[trigger] candidates_taken(file_exists, prefix, tried)
    &&& short_candidates_free(file_exists, prefix) ==> (r matches Some(id) && is_generated_id(
        id@,
        prefix,
        4,
    ))
}

/// Generates `<prefix>-<hash>` whose ticket file `file_exists` reports absent.
///
/// Hash lengths 4 to 8 are tried in turn, 40 random hashes for each length
/// (see `id_search_step`). `None` when every candidate was reported taken.
pub fn generate_unique_id_with_prefix<F: Fn(&str) -> bool>(prefix: &str, file_exists: F) -> (r:
    Option<String>)
    requires
        forall|name: &str| #[trigger] file_exists.requires((name,)),
    ensures
        id_search_outcome(r, file_exists, prefix@),
{
    let mut length: usize = 4;
    let mut attempt: u32 = 0;
    let ghost mut tried: Seq<Seq<char>> = Seq::empty();
    loop
        invariant
            4 <= length <= 8,
            attempt < 40,
            tried.len() == (length - 4) * 40 + attempt,
            candidates_taken(file_exists, prefix@, tried),
            forall|name: &str| #[trigger] file_exists.requires((name,)),
            short_candidates_free(file_exists, prefix@) ==> length == 4 && attempt == 0,
        decreases (8 - length) * 40 + (40 - attempt),
    {
        let hash = generate_hash(length);
        let with_dash = concat(prefix, "-");
        let candidate = concat(with_dash.as_str(), hash.as_str());
        let filename = concat(candidate.as_str(), ".md");
        proof {
            reveal_strlit("-");
            reveal_strlit(".md");
            assert(candidate@.take(prefix@.len() as int) =~= prefix@);
            assert forall|i: int| prefix@.len() < i < candidate@.len() implies is_hex_char(
                #[trigger] candidate@[i],
            ) by {
                assert(candidate@[i] == hash@[i - prefix@.len() - 1]);
            }
            assert(is_generated_id(candidate@, prefix@, length as nat));
            assert(filename@.take(filename@.len() - 3) =~= candidate@);
            assert(filename@.skip(filename@.len() - 3) =~= ".md"@);
            assert(is_candidate_file(filename@, prefix@, length as nat));
        }
        let name = filename.as_str();
        let taken = file_exists(name);
        proof {
            assert(name@ == ticket_file_name(candidate@));
        }
        match next_id_search_step(length, attempt, taken) {
            IdSearchStep::Found => {
                assert(reported_free(file_exists, candidate@));
                assert(is_id_for(candidate@, prefix@));
                return Some(candidate);
            },
            IdSearchStep::Next { length: l, attempt: a } => {
                proof {
                    let k = tried.len() as int;
                    assert(k / 40 == length - 4) by (nonlinear_arith)
                        requires
                            k == (length - 4) * 40 + attempt,
                            attempt < 40,
                            length >= 4,
                    ;
                    assert(reported_taken(file_exists, candidate@));
                    let next = tried.push(candidate@);
                    assert forall|j: int| 0 <= j < next.len() implies is_generated_id(
                        #[trigger] next[j],
                        prefix@,
                        (4 + j / 40) as nat,
                    ) && reported_taken(file_exists, next[j]) by {
                        if j < k {
                            assert(next[j] == tried[j]);
                        }
                    }
                    tried = next;
                }
                length = l;
                attempt = a;
            },
            IdSearchStep::GiveUp => {
                proof {
                    let k = tried.len() as int;
                    assert(k / 40 == length - 4) by (nonlinear_arith)
                        requires
                            k == (length - 4) * 40 + attempt,
                            attempt < 40,
                            length >= 4,
                    ;
                    assert(reported_taken(file_exists, candidate@));
                    let next = tried.push(candidate@);
                    assert forall|j: int| 0 <= j < next.len() implies is_generated_id(
                        #[trigger] next[j],
                        prefix@,
                        (4 + j / 40) as nat,
                    ) && reported_taken(file_exists, next[j]) by {
                        if j < k {
                            assert(next[j] == tried[j]);
                        }
                    }
                    assert(next.len() == 200);
                    assert(candidates_taken(file_exists, prefix@, next));
                }
                return None;
            },
        }
    }
}

/// Generates a unique id for `prefix` (see `generate_unique_id_with_prefix`).
pub fn generate_unique_id<F: Fn(&str) -> bool>(prefix: &str, file_exists: F) -> (r: Option<String>)
    requires
        forall|name: &str| #[trigger] file_exists.requires((name,)),
    ensures
        id_search_outcome(r, file_exists, prefix@),
{
    generate_unique_id_with_prefix(prefix, file_exists)
}

/// Message when no free id was found.
pub open spec fn id_exhausted_message() -> Seq<char> {
    "Failed to generate unique ID after trying hash lengths 4-8 with 40 retries each"@
}

/// `prefix` passes `validate_prefix`.
pub open spec fn prefix_valid(prefix: Seq<char>) -> bool {
    prefix != "plan"@ && forall|i: int| 0 <= i < prefix.len() ==> prefix_char_ok(#[trigger] prefix[i])
}

/// What generating an id for a valid `prefix` came to: as for the search
/// (see `id_search_outcome`), with an `Other` error carrying
/// `id_exhausted_message` in place of nothing.
pub open spec fn id_result_outcome<F: Fn(&str) -> bool>(
    r: Result<String, JanusError>,
    file_exists: F,
    prefix: Seq<char>,
) -> bool {
    &&& r matches Ok(id) ==> is_id_for(id@, prefix) && reported_free(file_exists, id@)
    &&& r matches Err(e) ==> (e matches JanusError::Other(m) && m@ == id_exhausted_message()) && exists|
        tried: Seq<Seq<char>>,
    | tried.len() == 200 && #[trigger] candidates_taken(file_exists, prefix, tried)
    &&& short_candidates_free(file_exists, prefix) ==> (r matches Ok(id) && is_generated_id(
        id@,
        prefix,
        4,
    ))
}

/// Generates a ticket id with a custom prefix, or with `task` when the
/// prefix is absent or empty. A given prefix must pass `validate_prefix`,
/// whose error is returned otherwise, before any file is looked at. When no
/// free id is found the error is `Other` with `id_exhausted_message`.
pub fn generate_id_with_custom_prefix<F: Fn(&str) -> bool>(
    custom_prefix: Option<&str>,
    file_exists: F,
) -> (r: Result<String, JanusError>)
    requires
        forall|name: &str| #[trigger] file_exists.requires((name,)),
    ensures
        match custom_prefix {
            Some(p) if p@.len() > 0 => if prefix_valid(p@) {
                id_result_outcome(r, file_exists, p@)
            } else {
                r matches Err(JanusError::InvalidPrefix(q, m)) && q@ == p@ && m@ == if p@
                    == "plan"@ {
                    reserved_prefix_message(p@)
                } else {
                    invalid_prefix_message(p@)
                }
            },
            _ => id_result_outcome(r, file_exists, "task"@),
        },
{
    let prefix: &str = match custom_prefix {
        Some(p) if p.unicode_len() > 0 => {
            match validate_prefix(p) {
                Ok(()) => {},
                Err(e) => {
                    return Err(e);
                },
            }
            p
        },
        _ => "task",
    };
    match generate_unique_id_with_prefix(prefix, file_exists) {
        Some(id) => Ok(id),
        None => Err(
            JanusError::Other(
                owned(
                    "Failed to generate unique ID after trying hash lengths 4-8 with 40 retries each",
                ),
            ),
        ),
    }
}

// ---------------------------------------------------------------------------
// UUIDs and dates
// ---------------------------------------------------------------------------

/// `s` is a version-4 UUID in hyphenated lowercase form: 32 lowercase hex
/// digits in groups of 8-4-4-4-12, the version digit `4`, and a variant
/// digit among `8`, `9`, `a`, `b`.
pub open spec fn is_uuid_v4_text(s: Seq<char>) -> bool {
    &&& s.len() == 36
    &&& forall|i: int|
        0 <= i < 36 ==> if i == 8 || i == 13 || i == 18 || i == 23 {
            s[i] == '-'
        } else {
            is_hex_char(#[trigger] s[i])
        }
    &&& s[14] == '4'
    &&& (s[19] == '8' || s[19] == '9' || s[19] == 'a' || s[19] == 'b')
}

/// `uuid::Uuid::new_v4` rendered by its `Display`: a random version-4 UUID
/// in hyphenated lowercase form. Which UUID comes out is left open.
#[verifier::external_body]
fn new_v4_text() -> (r: String)
    ensures
        is_uuid_v4_text(r@),
{
    uuid::Uuid::new_v4().to_string()
}

/// A new random UUID (version 4), hyphenated and lowercase.
pub fn generate_uuid() -> (r: String)
    ensures
        is_uuid_v4_text(r@),
{
    new_v4_text()
}

/// Every character of `s` from `from` up to `to` is a decimal digit.
pub open spec fn digits_between(s: Seq<char>, from: int, to: int) -> bool {
    forall|i: int| from <= i < to ==> '0' <= #[trigger] s[i] <= '9'
}

/// `s` is a UTC date and time to the second, `YYYY-MM-DDTHH:MM:SSZ`, with
/// zero-padded digits in every field: a year of four digits, or below
/// zero a `-` and three or four digits.
pub open spec fn is_utc_second_timestamp(s: Seq<char>) -> bool {
    let y = s.len() - 16;
    &&& s.len() >= 20
    &&& (y == 4 && digits_between(s, 0, 4)) || ((y == 4 || y == 5) && s[0] == '-' && digits_between(
        s,
        1,
        y,
    ))
    &&& s[y] == '-'
    &&& digits_between(s, y + 1, y + 3)
    &&& s[y + 3] == '-'
    &&& digits_between(s, y + 4, y + 6)
    &&& s[y + 6] == 'T'
    &&& digits_between(s, y + 7, y + 9)
    &&& s[y + 9] == ':'
    &&& digits_between(s, y + 10, y + 12)
    &&& s[y + 12] == ':'
    &&& digits_between(s, y + 13, y + 15)
    &&& s[y + 15] == 'Z'
}

/// `jiff::Timestamp::now` formatted with `%Y-%m-%dT%H:%M:%SZ`: the current
/// time in UTC. `%Y` is the year zero-padded to four digits (a negative
/// year has its `-` count in that width), and `%m`, `%d`, `%H`, `%M`, `%S`
/// are zero-padded to two digits. The time itself is left open.
#[verifier::external_body]
fn now_utc_text() -> (r: String)
    ensures
        is_utc_second_timestamp(r@),
{
    jiff::Timestamp::now().strftime("%Y-%m-%dT%H:%M:%SZ").to_string()
}

/// The current time as an ISO 8601 date and time in UTC, to the second
/// (see `is_utc_second_timestamp`).
pub fn iso_date() -> (r: String)
    ensures
        is_utc_second_timestamp(r@),
        r@.last() == 'Z',
        exists|i: int| 0 <= i < r@.len() && r@[i] == 'T',
{
    let r = now_utc_text();
    assert(r@[r@.len() - 10] == 'T');
    r
}

// ---------------------------------------------------------------------------
// What the command-line tools around the library read and run
// ---------------------------------------------------------------------------

/// The user name that `git config user.name` printed: its output trimmed,
/// when the command succeeded and printed something.
pub fn user_name_from_output(success: bool, stdout: Option<String>) -> (r: Option<String>)
    ensures
        !success ==> r is None,
        success ==> match stdout {
            None => r is None,
            Some(out) => if trimmed(out@).len() > 0 {
                r matches Some(name) && name@ == trimmed(out@)
            } else {
                r is None
            },
        },
{
    if !success {
        return None;
    }
    match stdout {
        None => None,
        Some(out) => {
            let v = chars_of(out.as_str());
            let t = trim_chars(v.as_slice());
            if t.len() > 0 {
                Some(string_from_chars(t.as_slice()))
            } else {
                None
            }
        },
    }
}

/// Text read from standard input: its lines joined with line breaks, then
/// trimmed.
pub fn stdin_text(lines: &Vec<String>) -> (r: String)
    ensures
        r@ == trimmed(crate::text::joined_with(lines.deep_view(), "\n"@)),
{
    let joined = crate::text::join_with(lines, "\n");
    let v = chars_of(joined.as_str());
    let t = trim_chars(v.as_slice());
    string_from_chars(t.as_slice())
}

/// The shell command that opens a file in the editor: the editor named by
/// `$EDITOR` (`vi` when unset), given the file as its first argument.
pub fn editor_command(editor: Option<&str>) -> (r: String)
    ensures
        r@ == match editor {
            Some(e) => e@,
            None => "vi"@,
        } + " \"$1\""@,
{
    let e = match editor {
        Some(e) => e,
        None => "vi",
    };
    concat(e, " \"$1\"")
}

// ---------------------------------------------------------------------------
// Text utilities
// ---------------------------------------------------------------------------

/// `s` cut to at most `max_len` characters; when cut and `max_len > 3`,
/// the last three kept positions become "...".
pub open spec fn truncated(s: Seq<char>, max_len: nat) -> Seq<char> {
    if s.len() <= max_len {
        s
    } else if max_len <= 3 {
        s.take(max_len as int)
    } else {
        s.take(max_len - 3) + "..."@
    }
}

/// A truncated text never holds more than `max_len` characters, and a
/// text that fits is kept whole.
pub proof fn lemma_truncated_fits(s: Seq<char>, max_len: nat)
    ensures
        truncated(s, max_len).len() <= max_len,
        s.len() <= max_len ==> truncated(s, max_len) == s,
        s.len() > max_len ==> truncated(s, max_len).len() == max_len,
{
    reveal_strlit("...");
}

/// Truncates a string to at most `max_len` characters, appending "..."
/// when it was cut and there is room for it.
pub fn truncate_string(s: &str, max_len: usize) -> (r: String)
    ensures
        r@ == truncated(s@, max_len as nat),
        r@.len() <= max_len || r@ == s@,
        r@.len() <= max_len,
{
    proof {
        reveal_strlit("...");
    }
    let chars = chars_of(s);
    if chars.len() <= max_len {
        owned(s)
    } else if max_len <= 3 {
        let mut out: Vec<char> = Vec::new();
        let mut i: usize = 0;
        while i < max_len
            invariant
                i <= max_len < chars@.len(),
                out@ == chars@.take(i as int),
            decreases max_len - i,
        {
            out.push(chars[i]);
            i = i + 1;
            assert(out@ =~= chars@.take(i as int));
        }
        string_from_chars(out.as_slice())
    } else {
        let keep = max_len - 3;
        let mut out: Vec<char> = Vec::new();
        let mut i: usize = 0;
        while i < keep
            invariant
                keep == max_len - 3,
                i <= keep < chars@.len(),
                out@ == chars@.take(i as int),
            decreases keep - i,
        {
            out.push(chars[i]);
            i = i + 1;
            assert(out@ =~= chars@.take(i as int));
        }
        let head = string_from_chars(out.as_slice());
        concat(head.as_str(), "...")
    }
}

// ---------------------------------------------------------------------------
// Priority shorthand in search queries
// ---------------------------------------------------------------------------

/// A priority shorthand token (`p0`..`p4`, either case) stands at position `i`
/// of `s`, delimited by whitespace or the ends of `s`.
pub open spec fn priority_token_at(s: Seq<char>, i: int) -> bool {
    &&& 0 <= i && i + 2 <= s.len()
    &&& (s[i] == 'p' || s[i] == 'P')
    &&& '0' <= s[i + 1] && s[i + 1] <= '4'
    &&& (i == 0 || whitespace(s[i - 1]))
    &&& (i + 2 == s.len() || whitespace(s[i + 2]))
}

/// The priority number named by the first shorthand token of `s`, if any.
pub open spec fn priority_filter_of(s: Seq<char>) -> Option<u8> {
    if exists|i: int| priority_token_at(s, i) {
        let i = choose|i: int|
            priority_token_at(s, i) && (forall|j: int| 0 <= j < i ==> !priority_token_at(s, j));
        Some((s[i + 1] as u32 - '0' as u32) as u8)
    } else {
        None
    }
}

/// Position `k` of `s` lies inside a priority shorthand token.
pub open spec fn in_priority_token(s: Seq<char>, k: int) -> bool {
    priority_token_at(s, k) || priority_token_at(s, k - 1)
}

/// The characters of `s.take(n)` that lie outside priority tokens of `s`.
pub open spec fn without_priority_tokens(s: Seq<char>, n: nat) -> Seq<char>
    decreases n,
{
    if n == 0 {
        seq![]
    } else {
        let prev = without_priority_tokens(s, (n - 1) as nat);
        if in_priority_token(s, n - 1) {
            prev
        } else {
            prev.push(s[n - 1])
        }
    }
}

/// Number of trailing whitespace characters of `s`.
pub open spec fn trailing_whitespace(s: Seq<char>) -> nat
    decreases s.len(),
{
    if s.len() > 0 && whitespace(s.last()) {
        1 + trailing_whitespace(s.drop_last())
    } else {
        0
    }
}

/// `s` without leading and trailing whitespace (what `str::trim` keeps).
pub open spec fn trimmed(s: Seq<char>) -> Seq<char> {
    let t = crate::text::trim_start(s);
    t.take(t.len() - trailing_whitespace(t))
}

/// The query with its priority shorthand tokens removed, then trimmed.
pub open spec fn priority_stripped(s: Seq<char>) -> Seq<char> {
    trimmed(without_priority_tokens(s, s.len()))
}

/// A text of whitespace only trims to nothing.
proof fn lemma_whitespace_trims_to_empty(x: Seq<char>)
    requires
        crate::text::all_whitespace(x),
    ensures
        trimmed(x).len() == 0,
{
    lemma_leading_all(x);
}

proof fn lemma_leading_all(x: Seq<char>)
    requires
        crate::text::all_whitespace(x),
    ensures
        crate::text::leading_whitespace(x) == x.len(),
    decreases x.len(),
{
    if x.len() > 0 {
        assert(whitespace(x[0]));
        assert(crate::text::all_whitespace(x.drop_first())) by {
            assert forall|i: int| 0 <= i < x.drop_first().len() implies whitespace(
                #[trigger] x.drop_first()[i],
            ) by {
                assert(x.drop_first()[i] == x[i + 1]);
            }
        }
        lemma_leading_all(x.drop_first());
    }
}

/// A query that is the priority shorthand `p0` to `p4` (either case) with
/// only whitespace around it asks for that priority, and leaves no text to
/// fuzzy-match.
pub proof fn lemma_priority_shorthand_query(w1: Seq<char>, w2: Seq<char>, c: char, d: nat)
    requires
        crate::text::all_whitespace(w1),
        crate::text::all_whitespace(w2),
        c == 'p' || c == 'P',
        d <= 4,
    ensures
        priority_filter_of(w1 + seq![c, crate::text::digit_char(d)] + w2) == Some(d as u8),
        priority_stripped(w1 + seq![c, crate::text::digit_char(d)] + w2).len() == 0,
{
    let q = w1 + seq![c, crate::text::digit_char(d)] + w2;
    let m = w1.len() as int;
    assert(q[m] == c);
    assert(q[m + 1] == crate::text::digit_char(d));
    assert(m > 0 ==> q[m - 1] == w1[m - 1]);
    assert(m + 2 < q.len() ==> q[m + 2] == w2[0]);
    assert(priority_token_at(q, m));
    assert forall|k: int| 0 <= k < q.len() && k != m && k != m + 1 implies whitespace(#[trigger] q[k]) by {
        if k < m {
            assert(q[k] == w1[k]);
        } else {
            assert(q[k] == w2[k - m - 2]);
        }
    }
    assert forall|j: int| 0 <= j < m implies !priority_token_at(q, j) by {
        assert(whitespace(q[j]));
    }
    let i = choose|i: int| priority_token_at(q, i) && (forall|j: int| 0 <= j < i ==> !priority_token_at(q, j));
    assert(priority_token_at(q, i) && (forall|j: int| 0 <= j < i ==> !priority_token_at(q, j)));
    if i < m {
        assert(whitespace(q[i]));
    }
    assert(i == m);
    lemma_without_tokens_whitespace(q, m, q.len());
    lemma_whitespace_trims_to_empty(without_priority_tokens(q, q.len()));
}

/// Outside the token at `m`, `q` is whitespace; then what is left of its
/// first `n` characters once tokens are taken out is whitespace.
proof fn lemma_without_tokens_whitespace(q: Seq<char>, m: int, n: nat)
    requires
        n <= q.len(),
        priority_token_at(q, m),
        forall|k: int| 0 <= k < q.len() && k != m && k != m + 1 ==> whitespace(#[trigger] q[k]),
    ensures
        crate::text::all_whitespace(without_priority_tokens(q, n)),
    decreases n,
{
    if n > 0 {
        lemma_without_tokens_whitespace(q, m, (n - 1) as nat);
        let prev = without_priority_tokens(q, (n - 1) as nat);
        let k = n - 1;
        if k == m || k == m + 1 {
            assert(in_priority_token(q, k));
        } else {
            assert(whitespace(q[k]));
            if !in_priority_token(q, k) {
                assert forall|i: int| 0 <= i < prev.push(q[k]).len() implies whitespace(
                    #[trigger] prev.push(q[k])[i],
                ) by {
                    if i < prev.len() {
                        assert(prev.push(q[k])[i] == prev[i]);
                    }
                }
            }
        }
    }
}

fn token_at(v: &[char], i: usize) -> (r: bool)
    ensures
        r == priority_token_at(v@, i as int),
{
    if i >= v.len() || v.len() - i < 2 {
        return false;
    }
    let c = v[i];
    let d = v[i + 1];
    if !(c == 'p' || c == 'P') || !('0' <= d && d <= '4') {
        return false;
    }
    let before_ok = i == 0 || is_whitespace(v[i - 1]);
    let after_ok = i + 2 == v.len() || is_whitespace(v[i + 2]);
    before_ok && after_ok
}

/// The priority (0-4) named by the first `p0`..`p4` token of the query.
pub fn parse_priority_filter(query: &str) -> (r: Option<u8>)
    ensures
        r == priority_filter_of(query@),
        r matches Some(p) ==> p <= 4,
{
    let v = chars_of(query);
    let mut i: usize = 0;
    while i < v.len()
        invariant
            v@ == query@,
            i <= v@.len(),
            forall|j: int| 0 <= j < i ==> !priority_token_at(query@, j),
        decreases v@.len() - i,
    {
        if token_at(v.as_slice(), i) {
            let d = v[i + 1];
            let n: u8 = (d as u32 - '0' as u32) as u8;
            proof {
                let k = choose|k: int|
                    priority_token_at(query@, k) && (forall|j: int|
                        0 <= j < k ==> !priority_token_at(query@, j));
                assert(priority_token_at(query@, i as int));
                if k < i {
                } else if k > i {
                }
                assert(k == i);
            }
            return Some(n);
        }
        i = i + 1;
    }
    assert forall|j: int| !priority_token_at(query@, j) by {
        if 0 <= j && j < v@.len() {
        }
    }
    None
}

proof fn lemma_trailing_whitespace_bound(s: Seq<char>)
    ensures
        trailing_whitespace(s) <= s.len(),
    decreases s.len(),
{
    if s.len() > 0 && whitespace(s.last()) {
        lemma_trailing_whitespace_bound(s.drop_last());
    }
}

proof fn lemma_trailing_step(s: Seq<char>, n: int)
    requires
        0 <= n <= s.len(),
        forall|j: int| n <= j < s.len() ==> whitespace(#[trigger] s[j]),
    ensures
        trailing_whitespace(s) == (s.len() - n) + trailing_whitespace(s.take(n)),
    decreases s.len() - n,
{
    if n < s.len() {
        lemma_trailing_step(s.drop_last(), n);
        assert(s.drop_last().take(n) =~= s.take(n));
    } else {
        assert(s.take(n) =~= s);
    }
}

/// The characters of `v` without leading and trailing whitespace.
pub fn trim_chars(v: &[char]) -> (r: Vec<char>)
    ensures
        r@ == trimmed(v@),
{
    let start = crate::text::count_leading_whitespace(v);
    proof {
        crate::text::lemma_leading_whitespace_bound(v@);
    }
    let mut end: usize = v.len();
    while end > start && is_whitespace(v[end - 1])
        invariant
            start <= end <= v@.len(),
            start == crate::text::leading_whitespace(v@),
            forall|j: int| end <= j < v@.len() ==> whitespace(#[trigger] v@[j]),
        decreases end,
    {
        end = end - 1;
    }
    let ghost t = v@.skip(start as int);
    proof {
        let m = (end - start) as int;
        assert forall|j: int| m <= j < t.len() implies whitespace(#[trigger] t[j]) by {
            assert(t[j] == v@[j + start]);
        }
        lemma_trailing_step(t, m);
        if m > 0 {
            assert(t.take(m).last() == v@[end - 1]);
            assert(!whitespace(t.take(m).last()));
        } else {
            assert(t.take(m).len() == 0);
        }
        assert(trailing_whitespace(t.take(m)) == 0);
    }
    let mut out: Vec<char> = Vec::new();
    let mut i: usize = start;
    while i < end
        invariant
            start <= i <= end <= v@.len(),
            out@ == v@.subrange(start as int, i as int),
        decreases end - i,
    {
        out.push(v[i]);
        i = i + 1;
        assert(out@ =~= v@.subrange(start as int, i as int));
    }
    assert(out@ =~= t.take(t.len() - trailing_whitespace(t)));
    out
}

/// Removes `p0`..`p4` shorthand tokens from a query and trims the result.
pub fn strip_priority_shorthand(query: &str) -> (r: String)
    ensures
        r@ == priority_stripped(query@),
{
    let v = chars_of(query);
    let mut kept: Vec<char> = Vec::new();
    let mut i: usize = 0;
    while i < v.len()
        invariant
            v@ == query@,
            i <= v@.len(),
            kept@ == without_priority_tokens(query@, i as nat),
        decreases v@.len() - i,
    {
        let inside = token_at(v.as_slice(), i) || (i > 0 && token_at(v.as_slice(), i - 1));
        if !inside {
            kept.push(v[i]);
        }
        i = i + 1;
    }
    let t = trim_chars(kept.as_slice());
    string_from_chars(t.as_slice())
}

} // verus!
