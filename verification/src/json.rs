//! JSON, as far as a header needs it: an object is a list of members, each a
//! key and the JSON text of its value, and a value is a string, a list of
//! strings or a list of bytes.
//!
//! Reading and writing JSON text is the `serde_json` crate's. The functions
//! here hand it plain values and say, over names for its results, what the
//! header code relies on.

use vstd::prelude::*;

verus! {

/// One member of a JSON object: its key, and its value as JSON text.
#[derive(Debug, Clone, PartialEq, Eq)]
pub struct Member {
    /// The member's name.
    pub key: String,
    /// The member's value, as the JSON text that stands for it.
    pub value: String,
}

/// The keys and value texts of a list of members, in their order.
pub open spec fn members_view(members: Seq<Member>) -> Seq<(Seq<char>, Seq<char>)> {
    Seq::new(members.len(), |i: int| (members[i].key@, members[i].value@))
}

/// The JSON value that `text` holds, without the whitespace around it, if
/// `text` holds exactly one: the result of
/// `serde_json::value::RawValue::from_string`.
pub uninterp spec fn json_value(text: Seq<char>) -> Option<Seq<char>>;

/// The JSON text of an object: the result of `serde_json::to_vec` on a map from
/// keys to raw values.
pub uninterp spec fn json_object_text(members: Map<Seq<char>, Seq<char>>) -> Seq<u8>;

/// The members of the object that `text` holds, if it holds one: the result of
/// `serde_json::from_slice` into a map from keys to raw values.
pub uninterp spec fn json_object_members(text: Seq<u8>) -> Option<Map<Seq<char>, Seq<char>>>;

/// The JSON text of a string: the result of `serde_json::to_string` on a
/// `str`.
pub uninterp spec fn json_string_text(value: Seq<char>) -> Seq<char>;

/// The string that `text` holds, or nothing where it holds `null`, if it
/// holds either: the result of `serde_json::from_str` into an
/// `Option<String>`.
pub uninterp spec fn json_string_value(text: Seq<char>) -> Option<Option<Seq<char>>>;

/// The JSON text of a list of strings: the result of `serde_json::to_string`
/// on a `Vec<String>`.
pub uninterp spec fn json_strings_text(value: Seq<Seq<char>>) -> Seq<char>;

/// The list of strings that `text` holds, or nothing where it holds `null`:
/// the result of `serde_json::from_str` into an `Option<Vec<String>>`.
pub uninterp spec fn json_strings_value(text: Seq<char>) -> Option<Option<Seq<Seq<char>>>>;

/// The JSON text of a list of bytes, an array of numbers: the result of
/// `serde_json::to_string` on a `Vec<u8>`.
pub uninterp spec fn json_bytes_text(value: Seq<u8>) -> Seq<char>;

/// The list of bytes that `text` holds, or nothing where it holds `null`: the
/// result of `serde_json::from_str` into an `Option<Vec<u8>>`.
pub uninterp spec fn json_bytes_value(text: Seq<char>) -> Option<Option<Seq<u8>>>;

/// Whether every value in `members` is one JSON value.
pub open spec fn all_values(members: Seq<(Seq<char>, Seq<char>)>) -> bool {
    forall|i: int| 0 <= i < members.len() ==> json_value(#[trigger] members[i].1) is Some
}

/// Whether every value in `members` is one JSON value with no whitespace
/// around it.
pub open spec fn all_plain_values(members: Seq<(Seq<char>, Seq<char>)>) -> bool {
    forall|i: int|
        0 <= i < members.len() ==> json_value(#[trigger] members[i].1) == Some(members[i].1)
}

/// Whether no key occurs twice in `members`.
pub open spec fn distinct_keys(members: Seq<(Seq<char>, Seq<char>)>) -> bool {
    forall|i: int, j: int|
        0 <= i < j < members.len() ==> (#[trigger] members[i]).0 != (#[trigger] members[j]).0
}

/// The object that `members` make when they are put into a map one after the
/// other, each value without the whitespace around it: a later member
/// replaces an earlier one of the same key.
pub open spec fn object_of(members: Seq<(Seq<char>, Seq<char>)>) -> Map<Seq<char>, Seq<char>>
    decreases members.len(),
{
    if members.len() == 0 {
        Map::empty()
    } else {
        object_of(members.drop_last()).insert(
            members.last().0,
            match json_value(members.last().1) {
                Some(value) => value,
                None => members.last().1,
            },
        )
    }
}

/// `object_of` holds exactly the keys of `members`.
pub proof fn lemma_object_keys(members: Seq<(Seq<char>, Seq<char>)>, key: Seq<char>)
    ensures
        object_of(members).dom().contains(key) <==> exists|i: int|
            0 <= i < members.len() && (#[trigger] members[i]).0 == key,
    decreases members.len(),
{
    if members.len() > 0 {
        let front = members.drop_last();
        lemma_object_keys(front, key);
        if object_of(members).dom().contains(key) {
            if members.last().0 == key {
                assert(members[members.len() - 1].0 == key);
            } else {
                let i = choose|i: int| 0 <= i < front.len() && (#[trigger] front[i]).0 == key;
                assert(members[i].0 == key);
            }
        }
        if exists|i: int| 0 <= i < members.len() && (#[trigger] members[i]).0 == key {
            let i = choose|i: int| 0 <= i < members.len() && (#[trigger] members[i]).0 == key;
            if i < members.len() - 1 {
                assert(front[i].0 == key);
            }
        }
    }
}

/// With distinct keys and plain values, `object_of` maps each key to the
/// value that stands beside it.
pub proof fn lemma_object_value(members: Seq<(Seq<char>, Seq<char>)>, i: int)
    requires
        distinct_keys(members),
        all_plain_values(members),
        0 <= i < members.len(),
    ensures
        object_of(members).dom().contains(members[i].0),
        object_of(members)[members[i].0] == members[i].1,
    decreases members.len(),
{
    let front = members.drop_last();
    if i == members.len() - 1 {
        assert(json_value(members[i].1) == Some(members[i].1));
    } else {
        assert forall|a: int, b: int| 0 <= a < b < front.len() implies (#[trigger] front[a]).0 != (
        #[trigger] front[b]).0 by {
            assert(members[a].0 != members[b].0);
        }
        assert forall|a: int| 0 <= a < front.len() implies json_value(#[trigger] front[a].1)
            == Some(front[a].1) by {
            assert(json_value(members[a].1) == Some(members[a].1));
        }
        lemma_object_value(front, i);
        assert(front[i] == members[i]);
        assert(members[i].0 != members[members.len() - 1].0);
    }
}

/// With distinct keys, `object_of` has as many keys as there are members.
pub proof fn lemma_object_len(members: Seq<(Seq<char>, Seq<char>)>)
    requires
        distinct_keys(members),
    ensures
        object_of(members).dom().finite(),
        object_of(members).dom().len() == members.len(),
    decreases members.len(),
{
    if members.len() > 0 {
        let front = members.drop_last();
        assert forall|a: int, b: int| 0 <= a < b < front.len() implies (#[trigger] front[a]).0 != (
        #[trigger] front[b]).0 by {
            assert(members[a].0 != members[b].0);
        }
        lemma_object_len(front);
        lemma_object_keys(front, members.last().0);
        if object_of(front).dom().contains(members.last().0) {
            let i = choose|i: int| 0 <= i < front.len() && (#[trigger] front[i]).0 == members.last().0;
            assert(members[i].0 == members[members.len() - 1].0);
        }
    }
}

/// `serde_json::value::RawValue::from_string`: the one JSON value that `text`
/// holds, as it stands there without the whitespace around it. Trusted.
#[verifier::external_body]
pub(crate) fn read_value(text: &str) -> (r: Option<String>)
    ensures
        r.deep_view() == json_value(text@),
{
    serde_json::value::RawValue::from_string(text.to_owned()).ok().map(|raw| raw.get().to_owned())
}

/// `serde_json::to_vec`, on the members put into a `BTreeMap` with each value
/// made a raw value by `RawValue::from_string`. Trusted: the call fails only
/// where a value is not JSON; the text is that of the object; and reading the
/// text gives the object back.
#[verifier::external_body]
pub(crate) fn write_object(members: &Vec<Member>) -> (r: Option<Vec<u8>>)
    ensures
        r is Some <==> all_values(members_view(members@)),
        r matches Some(text) ==> {
            &&& text@ == json_object_text(object_of(members_view(members@)))
            &&& json_object_members(text@) == Some(object_of(members_view(members@)))
        },
{
    let mut object = std::collections::BTreeMap::new();
    for member in members.iter() {
        let value = serde_json::value::RawValue::from_string(member.value.clone()).ok()?;
        object.insert(member.key.clone(), value);
    }
    serde_json::to_vec(&object).ok()
}

/// `serde_json::from_slice`, into a `BTreeMap` from keys to raw values, handed
/// out as members. Trusted: the members are those of the object that the text
/// holds, each key once, each value as it stands in the text.
#[verifier::external_body]
pub(crate) fn read_object(text: &[u8]) -> (r: Option<Vec<Member>>)
    ensures
        match r {
            Some(members) => {
                &&& json_object_members(text@) == Some(object_of(members_view(members@)))
                &&& distinct_keys(members_view(members@))
                &&& all_plain_values(members_view(members@))
            },
            None => json_object_members(text@) is None,
        },
{
    let object: std::collections::BTreeMap<String, Box<serde_json::value::RawValue>> =
        serde_json::from_slice(text).ok()?;
    Some(object.into_iter().map(|(key, value)| Member { key, value: value.get().to_owned() }).collect())
}

/// `serde_json::to_string` on a `str`. Trusted: the text is one JSON value
/// with nothing around it, and reading it gives the string back.
#[verifier::external_body]
pub(crate) fn write_string(value: &str) -> (text: String)
    ensures
        text@ == json_string_text(value@),
        json_value(text@) == Some(text@),
        json_string_value(text@) == Some(Some(value@)),
{
    serde_json::to_string(value).unwrap_or_default()
}

/// `serde_json::from_str` into an `Option<String>`: `Some(None)` for `null`,
/// `None` where `text` holds neither a string nor `null`.
#[verifier::external_body]
pub(crate) fn read_string(text: &str) -> (r: Option<Option<String>>)
    ensures
        r.deep_view() == json_string_value(text@),
{
    serde_json::from_str(text).ok()
}

/// `serde_json::to_string` on a `Vec<String>`. Trusted as `write_string`.
#[verifier::external_body]
pub(crate) fn write_strings(value: &Vec<String>) -> (text: String)
    ensures
        text@ == json_strings_text(value.deep_view()),
        json_value(text@) == Some(text@),
        json_strings_value(text@) == Some(Some(value.deep_view())),
{
    serde_json::to_string(value).unwrap_or_default()
}

/// `serde_json::from_str` into an `Option<Vec<String>>`.
#[verifier::external_body]
pub(crate) fn read_strings(text: &str) -> (r: Option<Option<Vec<String>>>)
    ensures
        r.deep_view() == json_strings_value(text@),
{
    serde_json::from_str(text).ok()
}

/// `serde_json::to_string` on a `Vec<u8>`, which gives an array of numbers.
/// Trusted as `write_string`.
#[verifier::external_body]
pub(crate) fn write_bytes(value: &Vec<u8>) -> (text: String)
    ensures
        text@ == json_bytes_text(value@),
        json_value(text@) == Some(text@),
        json_bytes_value(text@) == Some(Some(value@)),
{
    serde_json::to_string(value).unwrap_or_default()
}

/// `serde_json::from_str` into an `Option<Vec<u8>>`.
#[verifier::external_body]
pub(crate) fn read_bytes(text: &str) -> (r: Option<Option<Vec<u8>>>)
    ensures
        r.deep_view() == json_bytes_value(text@),
{
    serde_json::from_str(text).ok()
}

} // verus!
