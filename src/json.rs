//! JSON text handling: the parts that need a real JSON parser go through
//! `serde_json`; the framing of the bodies this gateway builds is its own.
use vstd::prelude::*;

verus! {

/// Whether the bytes are one complete JSON document.
pub uninterp spec fn json_valid(b: Seq<u8>) -> bool;

/// The members of the JSON object that the bytes hold, each as its key and
/// the exact text of its value, in key order with one entry per key (the last
/// occurrence wins); `None` where the bytes are not a JSON object.
pub uninterp spec fn json_object_members(b: Seq<u8>) -> Option<Seq<(Seq<char>, Seq<char>)>>;

/// The string that the JSON text denotes, `None` where it is not a JSON string.
pub uninterp spec fn json_string_value(t: Seq<char>) -> Option<Seq<char>>;

/// The JSON string literal (quoted and escaped) for the given characters.
pub uninterp spec fn json_quoted(s: Seq<char>) -> Seq<char>;

/// Relies on `serde_json::from_slice::<serde_json::Value>`: it succeeds exactly
/// on the bytes of one JSON document, and its outcome depends on the bytes alone.
#[verifier::external_body]
pub(crate) fn is_json(b: &[u8]) -> (r: bool)
    ensures
        r == json_valid(b@),
{
    serde_json::from_slice::<serde_json::Value>(b).is_ok()
}

/// Relies on `serde_json::from_slice` into a `BTreeMap<String, Box<RawValue>>`:
/// it succeeds exactly on a JSON object, and hands each member's value back
/// as the text it was written with.
#[verifier::external_body]
pub(crate) fn object_members(b: &[u8]) -> (r: Option<Vec<(String, String)>>)
    ensures
        match r {
            Some(v) => json_object_members(b@) == Some(members_view(v@)),
            None => json_object_members(b@) is None,
        },
{
    match serde_json::from_slice::<std::collections::BTreeMap<String, Box<serde_json::value::RawValue>>>(b) {
        Ok(m) => Some(m.into_iter().map(|(k, v)| (k, v.get().to_string())).collect()),
        Err(_) => None,
    }
}

/// Relies on `serde_json::from_str::<String>`: it succeeds exactly on the text
/// of a JSON string and returns the string it denotes.
#[verifier::external_body]
pub(crate) fn string_value(t: &str) -> (r: Option<String>)
    ensures
        match r {
            Some(s) => json_string_value(t@) == Some(s@),
            None => json_string_value(t@) is None,
        },
{
    serde_json::from_str::<String>(t).ok()
}

/// No character of `s` needs an escape in a JSON string: none is a quote, a
/// backslash or a control character below U+0020.
pub open spec fn needs_no_escape(s: Seq<char>) -> bool {
    forall|i: int| 0 <= i < s.len() ==> #[trigger] s[i] != '"' && s[i] != '\\' && s[i] as u32 >= 0x20
}

/// Relies on the `Display` of `serde_json::Value::String`: it writes the
/// string as a quoted JSON literal, escaping only quotes, backslashes and
/// control characters below U+0020.
#[verifier::external_body]
pub(crate) fn quote(s: &str) -> (r: String)
    ensures
        r@ == json_quoted(s@),
        needs_no_escape(s@) ==> r@ == "\""@ + s@ + "\""@,
{
    serde_json::Value::String(s.to_string()).to_string()
}

/// The view of a list of (key, value text) pairs.
pub open spec fn members_view(v: Seq<(String, String)>) -> Seq<(Seq<char>, Seq<char>)> {
    v.map_values(|p: (String, String)| (p.0@, p.1@))
}

/// The value text of the first member with the given key.
pub open spec fn member_of(ms: Seq<(Seq<char>, Seq<char>)>, key: Seq<char>) -> Option<Seq<char>>
    decreases ms.len(),
{
    if ms.len() == 0 {
        None
    } else if ms[0].0 == key {
        Some(ms[0].1)
    } else {
        member_of(ms.drop_first(), key)
    }
}

/// The value text of the member `key` of the JSON object in `b`; `None` where
/// `b` is not an object or has no such member.
pub open spec fn field_of(b: Seq<u8>, key: Seq<char>) -> Option<Seq<char>> {
    match json_object_members(b) {
        Some(ms) => member_of(ms, key),
        None => None,
    }
}

/// `key: value` as it stands inside a JSON object.
pub open spec fn member_text(m: (Seq<char>, Seq<char>)) -> Seq<char> {
    json_quoted(m.0) + ":"@ + m.1
}

/// The members written one after the other, separated by commas.
pub open spec fn members_text(ms: Seq<(Seq<char>, Seq<char>)>) -> Seq<char>
    decreases ms.len(),
{
    if ms.len() == 0 {
        Seq::empty()
    } else if ms.len() == 1 {
        member_text(ms[0])
    } else {
        members_text(ms.drop_last()) + ","@ + member_text(ms.last())
    }
}

/// The JSON object text with the given members.
pub open spec fn object_text(ms: Seq<(Seq<char>, Seq<char>)>) -> Seq<char> {
    "{"@ + members_text(ms) + "}"@
}

/// The members without those under `key`.
pub open spec fn without_member(ms: Seq<(Seq<char>, Seq<char>)>, key: Seq<char>) -> Seq<(Seq<char>, Seq<char>)> {
    ms.filter(|m: (Seq<char>, Seq<char>)| m.0 != key)
}

/// Finds the value text of the first member under `key`.
pub fn find_member(ms: &Vec<(String, String)>, key: &str) -> (r: Option<String>)
    ensures
        match r {
            Some(v) => member_of(members_view(ms@), key@) == Some(v@),
            None => member_of(members_view(ms@), key@) is None,
        },
{
    let ghost view = members_view(ms@);
    let k = String::from_str(key);
    let mut i: usize = 0;
    assert(view.subrange(0, view.len() as int) =~= view);
    while i < ms.len()
        invariant
            i <= ms@.len(),
            view == members_view(ms@),
            k@ == key@,
            member_of(view, key@) == member_of(view.subrange(i as int, view.len() as int), key@),
        decreases ms.len() - i,
    {
        let ghost rest = view.subrange(i as int, view.len() as int);
        assert(rest.drop_first() =~= view.subrange(i + 1, view.len() as int));
        if ms[i].0 == k {
            return Some(ms[i].1.clone());
        }
        i = i + 1;
    }
    None
}

/// Writes the JSON object text with the given members.
pub fn write_object(ms: &Vec<(String, String)>) -> (r: String)
    ensures
        r@ == object_text(members_view(ms@)),
{
    let ghost view = members_view(ms@);
    let mut s = String::from_str("{");
    let mut i: usize = 0;
    while i < ms.len()
        invariant
            i <= ms@.len(),
            view == members_view(ms@),
            s@ == "{"@ + members_text(view.subrange(0, i as int)),
        decreases ms.len() - i,
    {
        assert(view.subrange(0, i + 1).drop_last() =~= view.subrange(0, i as int));
        if i > 0 {
            s.append(",");
        }
        let q = quote(ms[i].0.as_str());
        s.append(q.as_str());
        s.append(":");
        s.append(ms[i].1.as_str());
        assert(s@ =~= "{"@ + members_text(view.subrange(0, i + 1)));
        i = i + 1;
    }
    assert(view.subrange(0, i as int) =~= view);
    s.append("}");
    s
}

/// Drops every member under `key`, keeping the order of the others.
pub fn remove_member(ms: Vec<(String, String)>, key: &str) -> (r: Vec<(String, String)>)
    ensures
        members_view(r@) == without_member(members_view(ms@), key@),
{
    let ghost view = members_view(ms@);
    let k = String::from_str(key);
    let mut out: Vec<(String, String)> = Vec::new();
    let mut i: usize = 0;
    while i < ms.len()
        invariant
            i <= ms@.len(),
            view == members_view(ms@),
            k@ == key@,
            members_view(out@) == without_member(view.subrange(0, i as int), key@),
        decreases ms.len() - i,
    {
        proof {
            reveal(Seq::filter);
            assert(view.subrange(0, i + 1).drop_last() =~= view.subrange(0, i as int));
        }
        if !(ms[i].0 == k) {
            out.push((ms[i].0.clone(), ms[i].1.clone()));
        }
        i = i + 1;
    }
    assert(view.subrange(0, i as int) =~= view);
    out
}

} // verus!
