//! JSON, read by `serde_json`.
//!
//! The library reads only the top level of a JSON object: a member is a
//! string, `null`, a nested object carried as its JSON text, or something
//! else. What the reader returns for a text is given a name and not spelled
//! out.

use vstd::prelude::*;

verus! {

/// One member's value of a JSON object, as far as the agent reads it.
#[derive(Debug)]
pub enum JsonMember {
    /// The value `null`.
    Null,
    /// A string, unescaped.
    Text(String),
    /// A nested object, as compact JSON text.
    Object(String),
    /// A number, a boolean or an array.
    Other,
}

/// The mathematical value of a [`JsonMember`].
pub enum JsonMemberView {
    Null,
    Text(Seq<char>),
    Object(Seq<char>),
    Other,
}

impl DeepView for JsonMember {
    type V = JsonMemberView;

    open spec fn deep_view(&self) -> JsonMemberView {
        match self {
            JsonMember::Null => JsonMemberView::Null,
            JsonMember::Text(s) => JsonMemberView::Text(s@),
            JsonMember::Object(s) => JsonMemberView::Object(s@),
            JsonMember::Other => JsonMemberView::Other,
        }
    }
}

/// What `serde_json` reads from `text` where `text` is one JSON object: its
/// members, each key once with its value, in the order of `serde_json`'s
/// map. A value that is a nested object is given as that object's compact
/// JSON text. `None` where `text` is not JSON or is another kind of value.
pub uninterp spec fn json_object_of(text: Seq<char>) -> Option<Seq<(Seq<char>, JsonMemberView)>>;

/// What `serde_json` reads from `text` where `text` is a JSON object whose
/// values are all strings: its members, each key once with its value, in the
/// order of the keys. `None` otherwise.
pub uninterp spec fn json_string_map_of(text: Seq<char>) -> Option<Seq<(Seq<char>, Seq<char>)>>;

/// What `serde_json` reads from `text` where `text` is a JSON array of
/// strings: its items in order. `None` otherwise.
pub uninterp spec fn json_string_array_of(text: Seq<char>) -> Option<Seq<Seq<char>>>;

/// The value of the first of `members` with the name `key`, where there is
/// one.
pub open spec fn member(members: Seq<(Seq<char>, JsonMemberView)>, key: Seq<char>) -> Option<
    JsonMemberView,
>
    decreases members.len(),
{
    if members.len() == 0 {
        None
    } else if members[0].0 == key {
        Some(members[0].1)
    } else {
        member(members.subrange(1, members.len() as int), key)
    }
}

/// The value of the first of `members` with the name `key`, where there is
/// one.
pub fn member_value<'a>(members: &'a Vec<(String, JsonMember)>, key: &str) -> (r: Option<
    &'a JsonMember,
>)
    ensures
        r.deep_view() == member(members.deep_view(), key@),
{
    let mut i: usize = 0;
    assert(members.deep_view().subrange(0, members.len() as int) =~= members.deep_view());
    while i < members.len()
        invariant
            i <= members.len(),
            member(members.deep_view(), key@) == member(
                members.deep_view().subrange(i as int, members.len() as int),
                key@,
            ),
        decreases members.len() - i,
    {
        let ghost rest = members.deep_view().subrange(i as int, members.len() as int);
        assert(rest[0] == members.deep_view()[i as int]);
        if crate::text::same_text(members[i].0.as_str(), key) {
            return Some(&members[i].1);
        }
        assert(rest.subrange(1, rest.len() as int) =~= members.deep_view().subrange(
            i + 1,
            members.len() as int,
        ));
        i = i + 1;
    }
    None
}

/// Parses `text` with `serde_json::from_str` as a `serde_json::Value` and, for
/// an object, copies out its members in the order in which `serde_json::Map`
/// walks them; a nested object is written back with `Value`'s `Display`. The
/// contract only names the outcome.
#[verifier::external_body]
pub(crate) fn object_members(text: &str) -> (r: Option<Vec<(String, JsonMember)>>)
    ensures
        r.deep_view() == json_object_of(text@),
{
    let serde_json::Value::Object(map) = serde_json::from_str(text).ok()? else { return None };
    Some(map.iter().map(|(k, v)| (k.clone(), match v {
        serde_json::Value::Null => JsonMember::Null,
        serde_json::Value::String(s) => JsonMember::Text(s.clone()),
        serde_json::Value::Object(_) => JsonMember::Object(v.to_string()),
        _ => JsonMember::Other,
    })).collect())
}

/// Parses `text` with `serde_json::from_str` as a map from strings to strings
/// and copies out its entries. The contract only names the outcome.
#[verifier::external_body]
pub(crate) fn string_map(text: &str) -> (r: Option<Vec<(String, String)>>)
    ensures
        r.deep_view() == json_string_map_of(text@),
{
    let map: std::collections::BTreeMap<String, String> = serde_json::from_str(text).ok()?;
    Some(map.into_iter().collect())
}

/// Parses `text` with `serde_json::from_str` as a list of strings. The
/// contract only names the outcome.
#[verifier::external_body]
pub(crate) fn string_array(text: &str) -> (r: Option<Vec<String>>)
    ensures
        r.deep_view() == json_string_array_of(text@),
{
    serde_json::from_str::<Vec<String>>(text).ok()
}

} // verus!
