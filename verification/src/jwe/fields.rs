//! Fields and members: how a field of a header stands in a JSON object, as a
//! member under its key, and how it is read from there.

use crate::json::{
    all_plain_values, all_values, distinct_keys, json_bytes_text, json_bytes_value,
    json_string_text, json_string_value, json_strings_text, json_strings_value, json_value,
    lemma_object_keys, lemma_object_value, members_view, object_of, read_bytes, read_string,
    read_strings, write_bytes, write_string, write_strings, Member,
};
use crate::text::same_text;
use vstd::prelude::*;
use vstd::slice::slice_to_vec;

verus! {

/// A JSON object as the header code sees it: from each key to the JSON text of
/// its value.
pub type Object = Map<Seq<char>, Seq<char>>;

/// `object` with the text of a string put under `key`, where there is a string.
pub open spec fn put_text(object: Object, key: Seq<char>, value: Option<Seq<char>>) -> Object {
    match value {
        Some(value) => object.insert(key, json_string_text(value)),
        None => object,
    }
}

/// `object` with the text of a list of strings put under `key`, where there
/// is a list.
pub open spec fn put_strings(object: Object, key: Seq<char>, value: Option<Seq<Seq<char>>>) -> Object {
    match value {
        Some(value) => object.insert(key, json_strings_text(value)),
        None => object,
    }
}

/// `object` with the text of a list of bytes put under `key`, where there is a
/// list.
pub open spec fn put_bytes(object: Object, key: Seq<char>, value: Option<Seq<u8>>) -> Object {
    match value {
        Some(value) => object.insert(key, json_bytes_text(value)),
        None => object,
    }
}

/// The string under `key`: `Some(None)` where the key is absent or holds
/// `null`, `None` where it holds something that is no string.
pub open spec fn get_text(object: Object, key: Seq<char>) -> Option<Option<Seq<char>>> {
    if object.dom().contains(key) {
        json_string_value(object[key])
    } else {
        Some(None)
    }
}

/// The list of strings under `key`, read as `get_text` reads a string.
pub open spec fn get_strings(object: Object, key: Seq<char>) -> Option<Option<Seq<Seq<char>>>> {
    if object.dom().contains(key) {
        json_strings_value(object[key])
    } else {
        Some(None)
    }
}

/// The list of bytes under `key`, read as `get_text` reads a string.
pub open spec fn get_bytes(object: Object, key: Seq<char>) -> Option<Option<Seq<u8>>> {
    if object.dom().contains(key) {
        json_bytes_value(object[key])
    } else {
        Some(None)
    }
}

/// Whether the text of the string, where there is one, reads back as the
/// string.
pub open spec fn text_reads_back(value: Option<Seq<char>>) -> bool {
    value matches Some(value) ==> json_string_value(json_string_text(value)) == Some(Some(value))
}

/// Whether the text of the list, where there is one, reads back as the list.
pub open spec fn strings_read_back(value: Option<Seq<Seq<char>>>) -> bool {
    value matches Some(value) ==> json_strings_value(json_strings_text(value)) == Some(
        Some(value),
    )
}

/// Whether the text of the bytes, where there are any, reads back as the
/// bytes.
pub open spec fn bytes_read_back(value: Option<Seq<u8>>) -> bool {
    value matches Some(value) ==> json_bytes_value(json_bytes_text(value)) == Some(Some(value))
}

/// A copy of an optional string.
pub(crate) fn copy_text(value: &Option<String>) -> (copy: Option<String>)
    ensures
        copy.deep_view() == value.deep_view(),
{
    match value {
        Some(value) => Some(value.clone()),
        None => None,
    }
}

/// A copy of an optional list of strings.
pub(crate) fn copy_strings(value: &Option<Vec<String>>) -> (copy: Option<Vec<String>>)
    ensures
        copy.deep_view() == value.deep_view(),
{
    match value {
        Some(value) => {
            let mut copy: Vec<String> = Vec::new();
            let mut i: usize = 0;
            while i < value.len()
                invariant
                    i <= value.len(),
                    copy@.len() == i,
                    forall|j: int| 0 <= j < i ==> copy@[j]@ == value@[j]@,
                decreases value.len() - i,
            {
                copy.push(value[i].clone());
                i += 1;
            }
            assert(copy.deep_view() =~= value.deep_view());
            Some(copy)
        },
        None => None,
    }
}

/// A copy of optional bytes.
pub(crate) fn copy_bytes(value: &Option<Vec<u8>>) -> (copy: Option<Vec<u8>>)
    ensures
        copy.deep_view() == value.deep_view(),
{
    match value {
        Some(value) => {
            let copy = slice_to_vec(value.as_slice());
            assert(copy.deep_view() =~= value.deep_view());
            Some(copy)
        },
        None => None,
    }
}

/// What appending a member whose value is plain JSON does to the object and
/// to the validity of the values.
proof fn lemma_pushed(
    before: Seq<(Seq<char>, Seq<char>)>,
    after: Seq<(Seq<char>, Seq<char>)>,
    member: (Seq<char>, Seq<char>),
)
    requires
        after =~= before.push(member),
        json_value(member.1) == Some(member.1),
    ensures
        object_of(after) == object_of(before).insert(member.0, member.1),
        all_values(after) <==> all_values(before),
{
    assert(after.drop_last() =~= before);
    assert(after.last() == member);
    if all_values(before) {
        assert forall|i: int| 0 <= i < after.len() implies json_value(#[trigger] after[i].1)
            is Some by {
            if i < before.len() {
                assert(json_value(before[i].1) is Some);
            }
        }
    }
    if all_values(after) {
        assert forall|i: int| 0 <= i < before.len() implies json_value(#[trigger] before[i].1)
            is Some by {
            assert(json_value(after[i].1) is Some);
        }
    }
}

/// Appends the member that holds the string `value` under `key`.
pub(crate) fn push_text(members: &mut Vec<Member>, key: &str, value: &str)
    ensures
        object_of(members_view(final(members)@)) == put_text(
            object_of(members_view(old(members)@)),
            key@,
            Some(value@),
        ),
        all_values(members_view(final(members)@)) <==> all_values(members_view(old(members)@)),
        text_reads_back(Some(value@)),
{
    let text = write_string(value);
    let ghost before = members_view(members@);
    let ghost member = (key@, text@);
    members.push(Member { key: key.to_owned(), value: text });
    proof {
        lemma_pushed(before, members_view(members@), member);
    }
}

/// Appends the member that holds the list `value` under `key`.
pub(crate) fn push_strings(members: &mut Vec<Member>, key: &str, value: &Vec<String>)
    ensures
        object_of(members_view(final(members)@)) == put_strings(
            object_of(members_view(old(members)@)),
            key@,
            Some(value.deep_view()),
        ),
        all_values(members_view(final(members)@)) <==> all_values(members_view(old(members)@)),
        strings_read_back(Some(value.deep_view())),
{
    let text = write_strings(value);
    let ghost before = members_view(members@);
    let ghost member = (key@, text@);
    members.push(Member { key: key.to_owned(), value: text });
    proof {
        lemma_pushed(before, members_view(members@), member);
    }
}

/// Appends the member that holds the bytes `value` under `key`.
pub(crate) fn push_bytes(members: &mut Vec<Member>, key: &str, value: &Vec<u8>)
    ensures
        object_of(members_view(final(members)@)) == put_bytes(
            object_of(members_view(old(members)@)),
            key@,
            Some(value@),
        ),
        all_values(members_view(final(members)@)) <==> all_values(members_view(old(members)@)),
        bytes_read_back(Some(value@)),
{
    let text = write_bytes(value);
    let ghost before = members_view(members@);
    let ghost member = (key@, text@);
    members.push(Member { key: key.to_owned(), value: text });
    proof {
        lemma_pushed(before, members_view(members@), member);
    }
}

/// Appends the member under `key` where `value` holds a string.
pub(crate) fn push_optional_text(members: &mut Vec<Member>, key: &str, value: &Option<String>)
    ensures
        object_of(members_view(final(members)@)) == put_text(
            object_of(members_view(old(members)@)),
            key@,
            value.deep_view(),
        ),
        all_values(members_view(final(members)@)) <==> all_values(members_view(old(members)@)),
        text_reads_back(value.deep_view()),
{
    match value {
        Some(value) => push_text(members, key, value.as_str()),
        None => {},
    }
}

/// Appends the member under `key` where `value` holds a list.
pub(crate) fn push_optional_strings(members: &mut Vec<Member>, key: &str, value: &Option<Vec<String>>)
    ensures
        object_of(members_view(final(members)@)) == put_strings(
            object_of(members_view(old(members)@)),
            key@,
            value.deep_view(),
        ),
        all_values(members_view(final(members)@)) <==> all_values(members_view(old(members)@)),
        strings_read_back(value.deep_view()),
{
    match value {
        Some(value) => push_strings(members, key, value),
        None => {},
    }
}

/// Appends the member under `key` where `value` holds bytes.
pub(crate) fn push_optional_bytes(members: &mut Vec<Member>, key: &str, value: &Option<Vec<u8>>)
    ensures
        object_of(members_view(final(members)@)) == put_bytes(
            object_of(members_view(old(members)@)),
            key@,
            value.deep_view(),
        ),
        all_values(members_view(final(members)@)) <==> all_values(members_view(old(members)@)),
        bytes_read_back(value.deep_view()),
{
    match value {
        Some(value) => {
            assert(value.deep_view() =~= value@);
            push_bytes(members, key, value)
        },
        None => {},
    }
}

/// The place of `key` among `members`.
pub(crate) fn find(members: &Vec<Member>, key: &str) -> (r: Option<usize>)
    requires
        distinct_keys(members_view(members@)),
        all_plain_values(members_view(members@)),
    ensures
        match r {
            Some(i) => {
                &&& i < members.len()
                &&& object_of(members_view(members@)).dom().contains(key@)
                &&& object_of(members_view(members@))[key@] == members[i as int].value@
            },
            None => !object_of(members_view(members@)).dom().contains(key@),
        },
{
    let mut i: usize = 0;
    while i < members.len()
        invariant
            i <= members.len(),
            distinct_keys(members_view(members@)),
            all_plain_values(members_view(members@)),
            forall|j: int| 0 <= j < i ==> (#[trigger] members_view(members@)[j]).0 != key@,
        decreases members.len() - i,
    {
        if same_text(members[i].key.as_str(), key) {
            proof {
                lemma_object_value(members_view(members@), i as int);
            }
            return Some(i);
        }
        i += 1;
    }
    proof {
        lemma_object_keys(members_view(members@), key@);
    }
    None
}

/// The string under `key`.
pub(crate) fn read_text(members: &Vec<Member>, key: &str) -> (r: Option<Option<String>>)
    requires
        distinct_keys(members_view(members@)),
        all_plain_values(members_view(members@)),
    ensures
        r.deep_view() == get_text(object_of(members_view(members@)), key@),
{
    match find(members, key) {
        Some(i) => read_string(members[i].value.as_str()),
        None => Some(None),
    }
}

/// The list of strings under `key`.
pub(crate) fn read_text_list(members: &Vec<Member>, key: &str) -> (r: Option<Option<Vec<String>>>)
    requires
        distinct_keys(members_view(members@)),
        all_plain_values(members_view(members@)),
    ensures
        r.deep_view() == get_strings(object_of(members_view(members@)), key@),
{
    match find(members, key) {
        Some(i) => read_strings(members[i].value.as_str()),
        None => Some(None),
    }
}

/// The bytes under `key`.
pub(crate) fn read_byte_list(members: &Vec<Member>, key: &str) -> (r: Option<Option<Vec<u8>>>)
    requires
        distinct_keys(members_view(members@)),
        all_plain_values(members_view(members@)),
    ensures
        r.deep_view() == get_bytes(object_of(members_view(members@)), key@),
{
    match find(members, key) {
        Some(i) => read_bytes(members[i].value.as_str()),
        None => Some(None),
    }
}

/// A copy of a list of members.
pub(crate) fn copy_members(members: &Vec<Member>) -> (copy: Vec<Member>)
    ensures
        members_view(copy@) == members_view(members@),
{
    let mut copy: Vec<Member> = Vec::new();
    let mut i: usize = 0;
    while i < members.len()
        invariant
            i <= members.len(),
            copy@.len() == i,
            forall|j: int|
                0 <= j < i ==> copy@[j].key@ == members@[j].key@ && copy@[j].value@
                    == members@[j].value@,
        decreases members.len() - i,
    {
        copy.push(Member { key: members[i].key.clone(), value: members[i].value.clone() });
        i += 1;
    }
    assert(members_view(copy@) =~= members_view(members@));
    copy
}

} // verus!
