//! The keys of a header that the library itself reads and writes, and the
//! routing of every other member to the caller's own fields.

use crate::jwe::fields::Object;
use crate::json::{
    all_plain_values, distinct_keys, json_value, lemma_object_keys, lemma_object_value,
    members_view, object_of, Member,
};
use crate::text::same_text;
use vstd::prelude::*;

verus! {

/// Whether `key` is one of the keys that the registered fields and the
/// key-management fields stand under.
pub open spec fn is_recognized(key: Seq<char>) -> bool {
    ||| key == "alg"@
    ||| key == "enc"@
    ||| key == "zip"@
    ||| key == "typ"@
    ||| key == "cty"@
    ||| key == "jku"@
    ||| key == "jwk"@
    ||| key == "kid"@
    ||| key == "x5u"@
    ||| key == "x5c"@
    ||| key == "x5t"@
    ||| key == "crit"@
    ||| key == "iv"@
    ||| key == "tag"@
}

/// Whether `key` is one of the recognized keys.
pub fn recognized(key: &str) -> (r: bool)
    ensures
        r == is_recognized(key@),
{
    same_text(key, "alg")
        || same_text(key, "enc")
        || same_text(key, "zip")
        || same_text(key, "typ")
        || same_text(key, "cty")
        || same_text(key, "jku")
        || same_text(key, "jwk")
        || same_text(key, "kid")
        || same_text(key, "x5u")
        || same_text(key, "x5c")
        || same_text(key, "x5t")
        || same_text(key, "crit")
        || same_text(key, "iv")
        || same_text(key, "tag")
}

/// What is known of the recognized keys: their lengths and the characters
/// that tell them apart.
pub proof fn lemma_keys()
    ensures
        "alg"@.len() == 3 && "alg"@[0] == 'a' && "alg"@[1] == 'l' && "alg"@[2] == 'g',
        "enc"@.len() == 3 && "enc"@[0] == 'e' && "enc"@[1] == 'n' && "enc"@[2] == 'c',
        "zip"@.len() == 3 && "zip"@[0] == 'z' && "zip"@[1] == 'i' && "zip"@[2] == 'p',
        "typ"@.len() == 3 && "typ"@[0] == 't' && "typ"@[1] == 'y' && "typ"@[2] == 'p',
        "cty"@.len() == 3 && "cty"@[0] == 'c' && "cty"@[1] == 't' && "cty"@[2] == 'y',
        "jku"@.len() == 3 && "jku"@[0] == 'j' && "jku"@[1] == 'k' && "jku"@[2] == 'u',
        "jwk"@.len() == 3 && "jwk"@[0] == 'j' && "jwk"@[1] == 'w' && "jwk"@[2] == 'k',
        "kid"@.len() == 3 && "kid"@[0] == 'k' && "kid"@[1] == 'i' && "kid"@[2] == 'd',
        "x5u"@.len() == 3 && "x5u"@[0] == 'x' && "x5u"@[1] == '5' && "x5u"@[2] == 'u',
        "x5c"@.len() == 3 && "x5c"@[0] == 'x' && "x5c"@[1] == '5' && "x5c"@[2] == 'c',
        "x5t"@.len() == 3 && "x5t"@[0] == 'x' && "x5t"@[1] == '5' && "x5t"@[2] == 't',
        "crit"@.len() == 4 && "crit"@[0] == 'c' && "crit"@[1] == 'r' && "crit"@[2] == 'i',
        "iv"@.len() == 2 && "iv"@[0] == 'i' && "iv"@[1] == 'v',
        "tag"@.len() == 3 && "tag"@[0] == 't' && "tag"@[1] == 'a' && "tag"@[2] == 'g',
{
    reveal_strlit("alg");
    reveal_strlit("enc");
    reveal_strlit("zip");
    reveal_strlit("typ");
    reveal_strlit("cty");
    reveal_strlit("jku");
    reveal_strlit("jwk");
    reveal_strlit("kid");
    reveal_strlit("x5u");
    reveal_strlit("x5c");
    reveal_strlit("x5t");
    reveal_strlit("crit");
    reveal_strlit("iv");
    reveal_strlit("tag");
}

/// The part of `object` that stands under keys that are not recognized: what
/// the caller's own fields are read from.
pub open spec fn unrecognized(object: Object) -> Object {
    Map::new(
        |key: Seq<char>| object.dom().contains(key) && !is_recognized(key),
        |key: Seq<char>| object[key],
    )
}

/// Whether no key of `object` is recognized.
pub open spec fn all_unrecognized(object: Object) -> bool {
    forall|key: Seq<char>| object.dom().contains(key) ==> !is_recognized(key)
}

/// What `unrecognized_members` relies on: `rest` holds, in their order, the
/// members of `all` at the places `picked`, which are those whose key is not
/// recognized.
proof fn lemma_unrecognized(
    all: Seq<(Seq<char>, Seq<char>)>,
    rest: Seq<(Seq<char>, Seq<char>)>,
    picked: Seq<int>,
)
    requires
        distinct_keys(all),
        all_plain_values(all),
        picked.len() == rest.len(),
        forall|a: int| 0 <= a < picked.len() ==> 0 <= #[trigger] picked[a] < all.len(),
        forall|a: int, b: int| 0 <= a < b < picked.len() ==> picked[a] < picked[b],
        forall|a: int| 0 <= a < picked.len() ==> #[trigger] rest[a] == all[picked[a]],
        forall|a: int| 0 <= a < picked.len() ==> !is_recognized(all[#[trigger] picked[a]].0),
        forall|j: int|
            0 <= j < all.len() && !is_recognized((#[trigger] all[j]).0) ==> picked.contains(j),
    ensures
        distinct_keys(rest),
        all_plain_values(rest),
        object_of(rest) == unrecognized(object_of(all)),
{
    assert forall|a: int, b: int| 0 <= a < b < rest.len() implies (#[trigger] rest[a]).0 != (
    #[trigger] rest[b]).0 by {
        assert(picked[a] < picked[b]);
        assert(all[picked[a]].0 != all[picked[b]].0);
    }
    assert forall|a: int| 0 <= a < rest.len() implies json_value(#[trigger] rest[a].1) == Some(
        rest[a].1,
    ) by {
        assert(json_value(all[picked[a]].1) == Some(all[picked[a]].1));
    }
    let left = object_of(rest);
    let right = unrecognized(object_of(all));
    assert forall|key: Seq<char>| #[trigger]
        left.dom().contains(key) == right.dom().contains(key) by {
        lemma_object_keys(rest, key);
        lemma_object_keys(all, key);
        if left.dom().contains(key) {
            let a = choose|a: int| 0 <= a < rest.len() && (#[trigger] rest[a]).0 == key;
            assert(all[picked[a]].0 == key);
            assert(!is_recognized(all[picked[a]].0));
        }
        if right.dom().contains(key) {
            let j = choose|j: int| 0 <= j < all.len() && (#[trigger] all[j]).0 == key;
            assert(picked.contains(j));
            let a = choose|a: int| 0 <= a < picked.len() && picked[a] == j;
            assert(rest[a].0 == key);
        }
    }
    assert forall|key: Seq<char>| left.dom().contains(key) implies #[trigger] left[key]
        == right[key] by {
        lemma_object_keys(rest, key);
        let a = choose|a: int| 0 <= a < rest.len() && (#[trigger] rest[a]).0 == key;
        assert(all[picked[a]].0 == key);
        lemma_object_value(rest, a);
        lemma_object_value(all, picked[a]);
    }
    assert(left =~= right);
}

/// The members whose key is not recognized, in their order.
pub(crate) fn unrecognized_members(members: &Vec<Member>) -> (rest: Vec<Member>)
    requires
        distinct_keys(members_view(members@)),
        all_plain_values(members_view(members@)),
    ensures
        distinct_keys(members_view(rest@)),
        all_plain_values(members_view(rest@)),
        object_of(members_view(rest@)) == unrecognized(object_of(members_view(members@))),
{
    let mut rest: Vec<Member> = Vec::new();
    let ghost mut picked: Seq<int> = Seq::empty();
    let ghost all = members_view(members@);
    let mut i: usize = 0;
    while i < members.len()
        invariant
            i <= members.len(),
            all == members_view(members@),
            picked.len() == rest@.len(),
            forall|a: int| 0 <= a < picked.len() ==> 0 <= #[trigger] picked[a] < i,
            forall|a: int, b: int| 0 <= a < b < picked.len() ==> picked[a] < picked[b],
            forall|a: int|
                0 <= a < picked.len() ==> #[trigger] members_view(rest@)[a] == all[picked[a]],
            forall|a: int| 0 <= a < picked.len() ==> !is_recognized(all[#[trigger] picked[a]].0),
            forall|j: int|
                0 <= j < i && !is_recognized((#[trigger] all[j]).0) ==> picked.contains(j),
        decreases members.len() - i,
    {
        if !recognized(members[i].key.as_str()) {
            let ghost before = picked;
            let ghost earlier = rest@;
            rest.push(Member { key: members[i].key.clone(), value: members[i].value.clone() });
            proof {
                picked = picked.push(i as int);
                assert(picked[picked.len() - 1] == i);
                assert(members_view(rest@)[picked.len() - 1] == all[i as int]);
                assert forall|a: int| 0 <= a < picked.len() implies #[trigger] members_view(
                    rest@,
                )[a] == all[picked[a]] by {
                    if a < before.len() {
                        assert(members_view(rest@)[a] == members_view(earlier)[a]);
                        assert(picked[a] == before[a]);
                    }
                }
                assert forall|j: int|
                    0 <= j < i + 1 && !is_recognized((#[trigger] all[j]).0) implies picked.contains(
                    j,
                ) by {
                    if j < i {
                        assert(before.contains(j));
                        let a = choose|a: int| 0 <= a < before.len() && before[a] == j;
                        assert(picked[a] == j);
                    }
                }
            }
        }
        i += 1;
    }
    proof {
        lemma_unrecognized(all, members_view(rest@), picked);
    }
    rest
}

} // verus!
