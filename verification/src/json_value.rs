//! The JSON values an RPC response is checked against.

use vstd::prelude::*;

use crate::text::str_eq;

verus! {

/// A JSON value as the response checks read it: its compact JSON text (as
/// the JSON library writes it, with object members in key order) and its
/// shape. Two values are equal exactly when their texts are. Only object
/// members are kept as values, since only they are ever looked into.
#[derive(Debug, PartialEq, Eq)]
pub struct JsonValue {
    pub text: String,
    pub shape: JsonShape,
}

/// The kind of a JSON value, with the members of an object in order.
#[derive(Debug, PartialEq, Eq)]
pub enum JsonShape {
    Null,
    Bool,
    Number,
    String,
    Array,
    Object(Vec<(String, JsonValue)>),
}

/// The value of the first member named `key`.
pub open spec fn first_member(members: Seq<(String, JsonValue)>, key: Seq<char>) -> Option<JsonValue>
    decreases members.len(),
{
    if members.len() == 0 {
        None
    } else if members[0].0@ == key {
        Some(members[0].1)
    } else {
        first_member(members.drop_first(), key)
    }
}

/// The member `key` of an object; nothing for any other value.
pub open spec fn member(v: JsonValue, key: Seq<char>) -> Option<JsonValue> {
    match v.shape {
        JsonShape::Object(members) => first_member(members@, key),
        _ => None,
    }
}

proof fn lemma_first_member_skip(members: Seq<(String, JsonValue)>, key: Seq<char>, i: int)
    requires
        0 <= i <= members.len(),
        forall|j: int| 0 <= j < i ==> (#[trigger] members[j]).0@ != key,
    ensures
        first_member(members, key) == first_member(members.skip(i), key),
    decreases i,
{
    if i > 0 {
        assert(members.drop_first().skip(i - 1) =~= members.skip(i));
        assert forall|j: int| 0 <= j < i - 1 implies (#[trigger] members.drop_first()[j]).0@ != key by {
            assert(members.drop_first()[j] == members[j + 1]);
        }
        lemma_first_member_skip(members.drop_first(), key, i - 1);
    } else {
        assert(members.skip(0) =~= members);
    }
}

/// Whether `v` is an object with a member named `key`.
pub open spec fn has_member_named(v: JsonValue, key: Seq<char>) -> bool {
    match v.shape {
        JsonShape::Object(members) => exists|i: int| 0 <= i < members@.len() && (#[trigger] members@[i]).0@ == key,
        _ => false,
    }
}

proof fn lemma_first_member_is_first_named(members: Seq<(String, JsonValue)>, key: Seq<char>)
    ensures
        first_member(members, key) is Some <==> exists|i: int| 0 <= i < members.len() && (#[trigger] members[i]).0@ == key,
        first_member(members, key) matches Some(x) ==> exists|j: int|
            0 <= j < members.len() && (#[trigger] members[j]).0@ == key && members[j].1 == x && forall|i: int|
                0 <= i < j ==> (#[trigger] members[i]).0@ != key,
    decreases members.len(),
{
    if members.len() > 0 {
        let rest = members.drop_first();
        lemma_first_member_is_first_named(rest, key);
        if members[0].0@ == key {
            assert(members[0].0@ == key);
        } else {
            if exists|i: int| 0 <= i < members.len() && (#[trigger] members[i]).0@ == key {
                let i = choose|i: int| 0 <= i < members.len() && (#[trigger] members[i]).0@ == key;
                assert(rest[i - 1] == members[i]);
            }
            if exists|i: int| 0 <= i < rest.len() && (#[trigger] rest[i]).0@ == key {
                let i = choose|i: int| 0 <= i < rest.len() && (#[trigger] rest[i]).0@ == key;
                assert(members[i + 1] == rest[i]);
            }
            if first_member(rest, key) is Some {
                let x = first_member(rest, key)->Some_0;
                let j = choose|j: int|
                    0 <= j < rest.len() && (#[trigger] rest[j]).0@ == key && rest[j].1 == x && forall|i: int|
                        0 <= i < j ==> (#[trigger] rest[i]).0@ != key;
                assert(members[j + 1] == rest[j]);
                assert forall|i: int| 0 <= i < j + 1 implies (#[trigger] members[i]).0@ != key by {
                    if i > 0 {
                        assert(members[i] == rest[i - 1]);
                    }
                }
            }
        }
    }
}

/// Looking a member up finds one exactly when the value is an object with
/// a member of that name, and then finds the value of the first such
/// member.
pub proof fn lemma_member_finds_the_first_named_member(v: JsonValue, key: Seq<char>)
    ensures
        member(v, key) is Some <==> has_member_named(v, key),
        member(v, key) matches Some(x) ==> (v.shape matches JsonShape::Object(members) && exists|j: int|
            0 <= j < members@.len() && (#[trigger] members@[j]).0@ == key && members@[j].1 == x && forall|i: int|
                0 <= i < j ==> (#[trigger] members@[i]).0@ != key),
{
    if let JsonShape::Object(members) = v.shape {
        lemma_first_member_is_first_named(members@, key);
    }
}

impl JsonValue {
    /// The member `key` of this value, when it is an object that has one.
    pub fn get(&self, key: &str) -> (r: Option<&JsonValue>)
        ensures
            match r {
                Some(v) => member(*self, key@) == Some(*v),
                None => member(*self, key@) is None,
            },
    {
        match &self.shape {
            JsonShape::Object(members) => {
                let mut i: usize = 0;
                while i < members.len()
                    invariant
                        member(*self, key@) == first_member(members@, key@),
                        i <= members@.len(),
                        forall|j: int| 0 <= j < i ==> (#[trigger] members@[j]).0@ != key@,
                    decreases members@.len() - i,
                {
                    if str_eq(members[i].0.as_str(), key) {
                        proof {
                            lemma_first_member_skip(members@, key@, i as int);
                            assert(members@.skip(i as int)[0] == members@[i as int]);
                            assert(members@.skip(i as int).len() > 0);
                            assert(first_member(members@.skip(i as int), key@) == Some(members@[i as int].1));
                            assert(member(*self, key@) == first_member(members@, key@));
                        }
                        let found = &members[i];
                        assert(found.1 == members@[i as int].1);
                        return Some(&found.1);
                    }
                    i = i + 1;
                }
                proof {
                    lemma_first_member_skip(members@, key@, i as int);
                    assert(members@.skip(i as int).len() == 0);
                }
                None
            },
            _ => None,
        }
    }
}

} // verus!
