//! The `/echo` handler's body: the request's path, headers and body, as JSON.
//!
//! Header values and the request body arrive as bytes and are read as UTF-8,
//! with invalid sequences replaced; when a header name occurs more than once,
//! the last value wins. The headers are shown in Rust's debug notation of a
//! map of strings, and that text, the path and the body text become the three
//! string members of a JSON object.

use vstd::prelude::*;
use vstd::utf8::{decode_utf8, valid_utf8};
use crate::text::same_text;

verus! {

/// The text that `String::from_utf8_lossy` makes of `bytes`.
pub uninterp spec fn lossy_utf8_text(bytes: Seq<u8>) -> Seq<char>;

/// The text that Rust's `Debug` formatting writes for the string `s`: the
/// string in double quotes, with escapes.
pub uninterp spec fn debug_quoted_text(s: Seq<char>) -> Seq<char>;

/// The text that `serde_json::to_string` writes for the string `s`: a JSON
/// string literal, with escapes.
pub uninterp spec fn json_quoted_text(s: Seq<char>) -> Seq<char>;

/// `s` between double quotes.
pub open spec fn quoted(s: Seq<char>) -> Seq<char> {
    seq!['"'] + s + seq!['"']
}

/// Whether `Debug` writes `c` inside a string as it is: printable ASCII other
/// than the quote characters and the backslash.
pub open spec fn debug_plain_char(c: char) -> bool {
    ' ' <= c && c <= '~' && c != '"' && c != '\\' && c != '\''
}

/// Whether JSON writes `c` inside a string as it is: anything but a control
/// character below the space, the double quote and the backslash.
pub open spec fn json_plain_char(c: char) -> bool {
    c >= ' ' && c != '"' && c != '\\'
}

/// Whether reading `bytes` leniently gives their UTF-8 decoding whenever
/// they are valid UTF-8.
pub open spec fn lossy_agrees(bytes: Seq<u8>) -> bool {
    valid_utf8(bytes) ==> lossy_utf8_text(bytes) == decode_utf8(bytes)
}

/// Whether every character of `s` is written as it is by `Debug`.
pub open spec fn debug_plain_text(s: Seq<char>) -> bool {
    forall|i: int| 0 <= i < s.len() ==> debug_plain_char(#[trigger] s[i])
}

/// Whether every character of `s` is written as it is in a JSON string.
pub open spec fn json_plain_text(s: Seq<char>) -> bool {
    forall|i: int| 0 <= i < s.len() ==> json_plain_char(#[trigger] s[i])
}

/// Decodes `bytes` as UTF-8, with each invalid sequence replaced by U+FFFD,
/// by calling `String::from_utf8_lossy`. Claimed of it: the result is a
/// function of the bytes alone, and it is the decoded text when the bytes are
/// valid UTF-8 (in which case `from_utf8_lossy` hands back the input as it is).
/// What it makes of invalid bytes is left unsaid.
#[verifier::external_body]
fn lossy_utf8(bytes: &[u8]) -> (s: String)
    ensures
        s@ == lossy_utf8_text(bytes@),
        valid_utf8(bytes@) ==> s@ == decode_utf8(bytes@),
{
    String::from_utf8_lossy(bytes).into_owned()
}

/// The `Debug` text of a string, by `format!("{:?}", s)`. Claimed of it: the
/// result is a function of the string alone, and a string of printable ASCII
/// without quotes or backslashes comes out unchanged between double quotes.
/// The escapes of other characters are left unsaid.
#[verifier::external_body]
fn debug_quoted(s: &str) -> (r: String)
    ensures
        r@ == debug_quoted_text(s@),
        (forall|i: int| 0 <= i < s@.len() ==> debug_plain_char(#[trigger] s@[i])) ==> r@ == quoted(s@),
{
    format!("{:?}", s)
}

/// The JSON string literal of `s`, by `serde_json::to_string`. Serializing a
/// string cannot fail (the serializer writes into a `Vec`), so the empty
/// fallback is never taken. Claimed of it: the result is a function of the
/// string alone, and a string without control characters, quotes or
/// backslashes comes out unchanged between double quotes. The escapes are
/// left unsaid.
#[verifier::external_body]
fn json_quoted(s: &str) -> (r: String)
    ensures
        r@ == json_quoted_text(s@),
        (forall|i: int| 0 <= i < s@.len() ==> json_plain_char(#[trigger] s@[i])) ==> r@ == quoted(s@),
{
    serde_json::to_string(s).unwrap_or_default()
}

} // verus!

verus! {

/// A request header as it arrives: its name and the raw bytes of its value.
pub struct RawHeader {
    pub name: String,
    pub value: Vec<u8>,
}

/// A header whose value was read as text.
pub struct TextHeader {
    pub name: String,
    pub value: String,
}

/// A header map's entries as texts: names paired with values, in order.
pub type Entries = Seq<(Seq<char>, Seq<char>)>;

/// The entries that a list of text headers holds.
pub open spec fn entries(hs: Seq<TextHeader>) -> Entries {
    hs.map_values(|h: TextHeader| (h.name@, h.value@))
}

/// Whether no name occurs twice among the entries.
pub open spec fn distinct_names(s: Entries) -> bool {
    forall|i: int, j: int| 0 <= i < s.len() && 0 <= j < s.len() && i != j ==> s[i].0 != s[j].0
}

/// The entries with `name` set to `value`: the first entry of that name gets
/// the new value where it stands; without one, a new entry goes at the end.
pub open spec fn upsert(s: Entries, name: Seq<char>, value: Seq<char>) -> Entries
    decreases s.len(),
{
    if s.len() == 0 {
        seq![(name, value)]
    } else if s[0].0 == name {
        s.update(0, (name, value))
    } else {
        seq![s[0]] + upsert(s.drop_first(), name, value)
    }
}

/// The header map that the raw headers make, read in order: each value read
/// as lossy UTF-8 and set under its name, so that the last value of a name
/// wins and names keep the place of their first occurrence.
pub open spec fn merged(raw: Seq<RawHeader>) -> Entries
    decreases raw.len(),
{
    if raw.len() == 0 {
        Seq::empty()
    } else {
        upsert(merged(raw.drop_last()), raw.last().name@, lossy_utf8_text(raw.last().value@))
    }
}

/// The value that the entries hold under `name` (the first one, should the
/// name occur more than once).
pub open spec fn lookup(s: Entries, name: Seq<char>) -> Option<Seq<char>>
    decreases s.len(),
{
    if s.len() == 0 {
        None
    } else if s[0].0 == name {
        Some(s[0].1)
    } else {
        lookup(s.drop_first(), name)
    }
}

/// The text of the last value sent under `name`, if any was.
pub open spec fn last_value(raw: Seq<RawHeader>, name: Seq<char>) -> Option<Seq<char>>
    decreases raw.len(),
{
    if raw.len() == 0 {
        None
    } else if raw.last().name@ == name {
        Some(lossy_utf8_text(raw.last().value@))
    } else {
        last_value(raw.drop_last(), name)
    }
}

proof fn lemma_upsert_at(s: Entries, j: int, name: Seq<char>, value: Seq<char>)
    requires
        distinct_names(s),
        0 <= j < s.len(),
        s[j].0 == name,
    ensures
        upsert(s, name, value) == s.update(j, (name, value)),
    decreases s.len(),
{
    if j > 0 {
        let t = s.drop_first();
        assert(s[0].0 != name);
        assert(t[j - 1] == s[j]);
        assert(distinct_names(t)) by {
            assert forall|a: int, b: int| 0 <= a < t.len() && 0 <= b < t.len() && a != b implies t[a].0 != t[b].0 by {
                assert(t[a] == s[a + 1] && t[b] == s[b + 1]);
            }
        }
        lemma_upsert_at(t, j - 1, name, value);
        assert(seq![s[0]] + t.update(j - 1, (name, value)) =~= s.update(j, (name, value)));
    }
}

proof fn lemma_upsert_absent(s: Entries, name: Seq<char>, value: Seq<char>)
    requires
        forall|i: int| 0 <= i < s.len() ==> (#[trigger] s[i]).0 != name,
    ensures
        upsert(s, name, value) == s.push((name, value)),
    decreases s.len(),
{
    if s.len() == 0 {
        assert(seq![(name, value)] =~= s.push((name, value)));
    } else {
        assert(s[0].0 != name);
        let t = s.drop_first();
        assert forall|i: int| 0 <= i < t.len() implies (#[trigger] t[i]).0 != name by {
            assert(t[i] == s[i + 1]);
        }
        lemma_upsert_absent(t, name, value);
        assert(seq![s[0]] + t.push((name, value)) =~= s.push((name, value)));
    }
}

/// Setting a name keeps the names distinct.
proof fn lemma_upsert_distinct(s: Entries, name: Seq<char>, value: Seq<char>)
    requires
        distinct_names(s),
    ensures
        distinct_names(upsert(s, name, value)),
{
    if exists|j: int| 0 <= j < s.len() && s[j].0 == name {
        let j: int = choose|j: int| 0 <= j < s.len() && s[j].0 == name;
        lemma_upsert_at(s, j, name, value);
    } else {
        assert forall|i: int| 0 <= i < s.len() implies (#[trigger] s[i]).0 != name by {}
        lemma_upsert_absent(s, name, value);
    }
}

/// Looking a name up after setting it gives the new value; other names are
/// not touched.
proof fn lemma_lookup_upsert(s: Entries, name: Seq<char>, value: Seq<char>, other: Seq<char>)
    ensures
        lookup(upsert(s, name, value), other) == if other == name { Some(value) } else { lookup(s, other) },
    decreases s.len(),
{
    let u = upsert(s, name, value);
    if s.len() == 0 {
        assert(u.drop_first() =~= Seq::<(Seq<char>, Seq<char>)>::empty());
        assert(lookup(u.drop_first(), other) == None::<Seq<char>>);
    } else if s[0].0 == name {
        assert(u.drop_first() =~= s.drop_first());
        assert(u[0] == (name, value));
    } else {
        lemma_lookup_upsert(s.drop_first(), name, value, other);
        assert(u.drop_first() =~= upsert(s.drop_first(), name, value));
        assert(u[0] == s[0]);
    }
}

/// No header name occurs twice in the map that the raw headers make.
pub proof fn lemma_merged_distinct(raw: Seq<RawHeader>)
    ensures
        distinct_names(merged(raw)),
    decreases raw.len(),
{
    if raw.len() > 0 {
        lemma_merged_distinct(raw.drop_last());
        lemma_upsert_distinct(merged(raw.drop_last()), raw.last().name@, lossy_utf8_text(raw.last().value@));
    }
}

/// The map that the raw headers make holds, under each name, the text of the
/// last value sent under that name, and nothing under a name never sent.
pub proof fn lemma_merged_last_wins(raw: Seq<RawHeader>, name: Seq<char>)
    ensures
        lookup(merged(raw), name) == last_value(raw, name),
    decreases raw.len(),
{
    if raw.len() > 0 {
        lemma_merged_last_wins(raw.drop_last(), name);
        lemma_lookup_upsert(merged(raw.drop_last()), raw.last().name@, lossy_utf8_text(raw.last().value@), name);
    }
}

/// The index of the header named `name`, if there is one.
fn find_name(hs: &Vec<TextHeader>, name: &str) -> (r: Option<usize>)
    ensures
        r matches Some(j) ==> j < hs@.len() && hs@[j as int].name@ == name@,
        r is None ==> forall|i: int| 0 <= i < hs@.len() ==> (#[trigger] hs@[i]).name@ != name@,
{
    let mut j: usize = 0;
    while j < hs.len()
        invariant
            j <= hs@.len(),
            forall|i: int| 0 <= i < j ==> (#[trigger] hs@[i]).name@ != name@,
        decreases hs@.len() - j,
    {
        if same_text(hs[j].name.as_str(), name) {
            return Some(j);
        }
        j = j + 1;
    }
    None
}

/// Reads the header values as text (lossy UTF-8) and merges repeated names,
/// the last value winning; names keep the order of their first occurrence.
pub fn convert_headers(raw: &Vec<RawHeader>) -> (out: Vec<TextHeader>)
    ensures
        entries(out@) == merged(raw@),
        forall|j: int| 0 <= j < raw@.len() ==> lossy_agrees(#[trigger] raw@[j].value@),
{
    let mut out: Vec<TextHeader> = Vec::new();
    let mut i: usize = 0;
    while i < raw.len()
        invariant
            i <= raw@.len(),
            entries(out@) == merged(raw@.take(i as int)),
            distinct_names(entries(out@)),
            forall|j: int| 0 <= j < i ==> lossy_agrees(#[trigger] raw@[j].value@),
        decreases raw@.len() - i,
    {
        let name = raw[i].name.clone();
        let value = lossy_utf8(raw[i].value.as_slice());
        let ghost before = entries(out@);
        proof {
            assert(raw@.take(i + 1).drop_last() =~= raw@.take(i as int));
            assert(raw@.take(i + 1).last() == raw@[i as int]);
        }
        match find_name(&out, name.as_str()) {
            Some(j) => {
                proof {
                    assert(before[j as int].0 == name@);
                    lemma_upsert_at(before, j as int, name@, value@);
                    lemma_upsert_distinct(before, name@, value@);
                }
                out.remove(j);
                out.insert(j, TextHeader { name, value });
                proof {
                    assert(entries(out@) =~= before.update(j as int, (name@, value@)));
                }
            },
            None => {
                proof {
                    assert forall|t: int| 0 <= t < before.len() implies (#[trigger] before[t]).0 != name@ by {
                        assert(before[t].0 == out@[t].name@);
                    }
                    lemma_upsert_absent(before, name@, value@);
                    lemma_upsert_distinct(before, name@, value@);
                }
                out.push(TextHeader { name, value });
                proof {
                    assert(entries(out@) =~= before.push((name@, value@)));
                }
            },
        }
        i = i + 1;
    }
    proof {
        assert(raw@.take(raw@.len() as int) =~= raw@);
    }
    out
}

} // verus!

verus! {

/// Text pieces of the debug notation of a map.
pub const MAP_OPEN: &'static str = "{";
pub const MAP_CLOSE: &'static str = "}";
pub const MAP_KEY_VALUE: &'static str = ": ";
pub const MAP_SEPARATOR: &'static str = ", ";

/// Text pieces of the echo's JSON object.
pub const ECHO_PATH_MEMBER: &'static str = "{\"path\":";
pub const ECHO_HEADERS_MEMBER: &'static str = ",\"headers\":";
pub const ECHO_BODY_MEMBER: &'static str = ",\"body\":";
pub const ECHO_END: &'static str = "}";

/// One entry in debug notation: `"name": "value"`.
pub open spec fn debug_entry(e: (Seq<char>, Seq<char>)) -> Seq<char> {
    debug_quoted_text(e.0) + MAP_KEY_VALUE@ + debug_quoted_text(e.1)
}

/// The entries in debug notation, separated by a comma and a space.
pub open spec fn debug_entries(s: Entries) -> Seq<char>
    decreases s.len(),
{
    if s.len() == 0 {
        Seq::empty()
    } else if s.len() == 1 {
        debug_entry(s[0])
    } else {
        debug_entries(s.drop_last()) + MAP_SEPARATOR@ + debug_entry(s.last())
    }
}

/// A map of strings in Rust's debug notation: `{"k": "v", "k2": "v2"}`.
pub open spec fn debug_map_text(s: Entries) -> Seq<char> {
    MAP_OPEN@ + debug_entries(s) + MAP_CLOSE@
}

/// The echo's JSON object: `{"path":<path>,"headers":<headers>,"body":<body>}`,
/// all members JSON strings.
pub open spec fn echo_json_text(path: Seq<char>, headers_text: Seq<char>, body_text: Seq<char>) -> Seq<char> {
    ECHO_PATH_MEMBER@ + json_quoted_text(path) + ECHO_HEADERS_MEMBER@ + json_quoted_text(headers_text)
        + ECHO_BODY_MEMBER@ + json_quoted_text(body_text) + ECHO_END@
}

/// The echo body for a request: what `/echo` answers.
pub open spec fn echo_text(path: Seq<char>, raw: Seq<RawHeader>, body: Seq<u8>) -> Seq<char> {
    echo_json_text(path, debug_map_text(merged(raw)), lossy_utf8_text(body))
}

/// Writes the headers in Rust's debug notation of a map of strings.
pub fn debug_headers(hs: &Vec<TextHeader>) -> (text: String)
    ensures
        text@ == debug_map_text(entries(hs@)),
        forall|j: int|
            0 <= j < hs@.len() ==> (debug_plain_text(#[trigger] hs@[j].name@) ==> debug_quoted_text(
                hs@[j].name@,
            ) == quoted(hs@[j].name@)),
        forall|j: int|
            0 <= j < hs@.len() ==> (debug_plain_text(#[trigger] hs@[j].value@) ==> debug_quoted_text(
                hs@[j].value@,
            ) == quoted(hs@[j].value@)),
{
    let mut out = String::new();
    out.append(MAP_OPEN);
    let mut i: usize = 0;
    while i < hs.len()
        invariant
            i <= hs@.len(),
            out@ == MAP_OPEN@ + debug_entries(entries(hs@).take(i as int)),
            forall|j: int|
                0 <= j < i ==> (debug_plain_text(#[trigger] hs@[j].name@) ==> debug_quoted_text(
                    hs@[j].name@,
                ) == quoted(hs@[j].name@)),
            forall|j: int|
                0 <= j < i ==> (debug_plain_text(#[trigger] hs@[j].value@) ==> debug_quoted_text(
                    hs@[j].value@,
                ) == quoted(hs@[j].value@)),
        decreases hs@.len() - i,
    {
        let ghost before = out@;
        if i > 0 {
            out.append(MAP_SEPARATOR);
        }
        let name = debug_quoted(hs[i].name.as_str());
        let value = debug_quoted(hs[i].value.as_str());
        out.append(name.as_str());
        out.append(MAP_KEY_VALUE);
        out.append(value.as_str());
        proof {
            let es = entries(hs@);
            let next = es.take(i + 1);
            assert(next.drop_last() =~= es.take(i as int));
            assert(next.last() == (hs@[i as int].name@, hs@[i as int].value@));
            if i == 0 {
                assert(next =~= seq![next[0]]);
                assert(out@ =~= MAP_OPEN@ + debug_entries(next));
            } else {
                assert(out@ =~= MAP_OPEN@ + debug_entries(next));
            }
        }
        i = i + 1;
    }
    out.append(MAP_CLOSE);
    proof {
        assert(entries(hs@).take(hs@.len() as int) =~= entries(hs@));
    }
    out
}

/// The body that `/echo` answers: the path, the request's headers (merged
/// and in debug notation) and the request's body (as text) as the three
/// string members of a JSON object.
pub fn echo_body(path: &str, headers: &Vec<RawHeader>, request_body: &[u8]) -> (body: String)
    ensures
        body@ == echo_text(path@, headers@, request_body@),
        json_plain_text(path@) ==> json_quoted_text(path@) == quoted(path@),
        lossy_agrees(request_body@),
        json_plain_text(lossy_utf8_text(request_body@)) ==> json_quoted_text(lossy_utf8_text(request_body@))
            == quoted(lossy_utf8_text(request_body@)),
        forall|j: int| 0 <= j < headers@.len() ==> lossy_agrees(#[trigger] headers@[j].value@),
        forall|j: int|
            0 <= j < merged(headers@).len() ==> (debug_plain_text(#[trigger] merged(headers@)[j].0)
                ==> debug_quoted_text(merged(headers@)[j].0) == quoted(merged(headers@)[j].0)),
        forall|j: int|
            0 <= j < merged(headers@).len() ==> (debug_plain_text(#[trigger] merged(headers@)[j].1)
                ==> debug_quoted_text(merged(headers@)[j].1) == quoted(merged(headers@)[j].1)),
{
    let merged_headers = convert_headers(headers);
    let headers_text = debug_headers(&merged_headers);
    let path_json = json_quoted(path);
    let headers_json = json_quoted(headers_text.as_str());
    let body_text = lossy_utf8(request_body);
    let body_json = json_quoted(body_text.as_str());
    let mut out = String::new();
    out.append(ECHO_PATH_MEMBER);
    out.append(path_json.as_str());
    out.append(ECHO_HEADERS_MEMBER);
    out.append(headers_json.as_str());
    out.append(ECHO_BODY_MEMBER);
    out.append(body_json.as_str());
    out.append(ECHO_END);
    proof {
        assert(out@ =~= echo_text(path@, headers@, request_body@));
        assert forall|j: int| 0 <= j < merged(headers@).len() implies (debug_plain_text(
            #[trigger] merged(headers@)[j].0,
        ) ==> debug_quoted_text(merged(headers@)[j].0) == quoted(merged(headers@)[j].0)) by {
            assert(merged(headers@)[j] == entries(merged_headers@)[j]);
            assert(merged_headers@[j].name@ == merged(headers@)[j].0);
        }
        assert forall|j: int| 0 <= j < merged(headers@).len() implies (debug_plain_text(
            #[trigger] merged(headers@)[j].1,
        ) ==> debug_quoted_text(merged(headers@)[j].1) == quoted(merged(headers@)[j].1)) by {
            assert(merged(headers@)[j] == entries(merged_headers@)[j]);
            assert(merged_headers@[j].value@ == merged(headers@)[j].1);
        }
    }
    out
}

/// The debug notation of a map puts `, ` between every two adjacent entries
/// and nothing else between them: an empty map is `{}`, one entry `e` is
/// `{"k": "v"}`, and adding an entry to a non-empty map replaces its closing
/// brace by `, ` and the new entry, then closes again. So a map of `n >= 1`
/// entries shows `n - 1` separators.
pub proof fn lemma_debug_map_shape(s: Entries, e: (Seq<char>, Seq<char>))
    ensures
        debug_map_text(Seq::empty()) == seq!['{', '}'],
        debug_map_text(seq![e]) == seq!['{'] + debug_quoted_text(e.0) + seq![':', ' ']
            + debug_quoted_text(e.1) + seq!['}'],
        s.len() > 0 ==> debug_map_text(s.push(e)) == debug_map_text(s).drop_last() + seq![',', ' ']
            + debug_quoted_text(e.0) + seq![':', ' '] + debug_quoted_text(e.1) + seq!['}'],
{
    reveal_strlit("{");
    reveal_strlit("}");
    reveal_strlit(": ");
    reveal_strlit(", ");
    assert(debug_map_text(Seq::empty()) =~= seq!['{', '}']);
    assert(debug_map_text(seq![e]) =~= seq!['{'] + debug_quoted_text(e.0) + seq![':', ' ']
        + debug_quoted_text(e.1) + seq!['}']);
    if s.len() > 0 {
        let t = s.push(e);
        assert(t.drop_last() =~= s);
        assert(debug_entries(t) == debug_entries(s) + MAP_SEPARATOR@ + debug_entry(e));
        let m = debug_map_text(s);
        assert(m.drop_last() =~= MAP_OPEN@ + debug_entries(s));
        assert(debug_map_text(t) =~= m.drop_last() + seq![',', ' '] + debug_quoted_text(e.0) + seq![
            ':',
            ' ',
        ] + debug_quoted_text(e.1) + seq!['}']);
    }
}

} // verus!
