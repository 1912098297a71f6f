//! JSON documents as plain data, with their mathematical model.

use vstd::prelude::*;

verus! {

/// The mathematical value of a JSON document.
///
/// A number is held as its decimal text, so that it is echoed digit for
/// digit. An object is the sequence of its members in document order.
pub enum JsonValue {
    Null,
    Bool(bool),
    Number(Seq<char>),
    Str(Seq<char>),
    Array(Seq<JsonValue>),
    Object(Seq<(Seq<char>, JsonValue)>),
}

/// One member of an object: a key with its value.
#[derive(Debug, PartialEq, Eq)]
pub struct Member {
    pub key: String,
    pub value: Json,
}

/// A JSON document.
#[derive(Debug, PartialEq, Eq)]
pub enum Json {
    Null,
    Bool(bool),
    /// A number, as its decimal text.
    Number(String),
    Str(String),
    Array(Vec<Json>),
    /// The members in document order.
    Object(Vec<Member>),
}

/// The value of the member that `key` names in `members`: that of the last
/// member with this key, if there is one.
pub open spec fn lookup(members: Seq<(Seq<char>, JsonValue)>, key: Seq<char>) -> Option<JsonValue>
    decreases members.len(),
{
    if members.len() == 0 {
        None
    } else if members.last().0 == key {
        Some(members.last().1)
    } else {
        lookup(members.drop_last(), key)
    }
}

/// A lookup in a sequence with one more member: the new member answers for
/// its own key, the others for every other key.
pub proof fn lemma_lookup_push(
    members: Seq<(Seq<char>, JsonValue)>,
    key: Seq<char>,
    value: JsonValue,
    wanted: Seq<char>,
)
    ensures
        lookup(members.push((key, value)), wanted) == if key == wanted {
            Some(value)
        } else {
            lookup(members, wanted)
        },
{
    assert(members.push((key, value)).drop_last() =~= members);
}

impl JsonValue {
    /// What indexing by `key` gives: a member's value for an object that has
    /// the key, nothing for every other value.
    pub open spec fn get(self, key: Seq<char>) -> Option<JsonValue> {
        match self {
            JsonValue::Object(members) => lookup(members, key),
            _ => None,
        }
    }
}

/// The value of a document: each string by its characters, each array and
/// object by the values of its parts, in their order.
pub open spec fn value_of(doc: Json) -> JsonValue
    decreases doc,
{
    match doc {
        Json::Null => JsonValue::Null,
        Json::Bool(b) => JsonValue::Bool(b),
        Json::Number(text) => JsonValue::Number(text@),
        Json::Str(text) => JsonValue::Str(text@),
        Json::Array(items) => JsonValue::Array(
            Seq::new(
                items@.len(),
                |i: int|
                    if 0 <= i < items@.len() {
                        value_of(items@[i])
                    } else {
                        JsonValue::Null
                    },
            ),
        ),
        Json::Object(members) => JsonValue::Object(
            Seq::new(
                members@.len(),
                |i: int|
                    if 0 <= i < members@.len() {
                        (members@[i].key@, value_of(members@[i].value))
                    } else {
                        (Seq::empty(), JsonValue::Null)
                    },
            ),
        ),
    }
}

impl View for Json {
    type V = JsonValue;

    open spec fn view(&self) -> JsonValue {
        value_of(*self)
    }
}

/// The members of an object as the model holds them.
pub open spec fn members_view(members: Seq<Member>) -> Seq<(Seq<char>, JsonValue)> {
    Seq::new(members.len(), |i: int| (members[i].key@, members[i].value@))
}

/// The items of an array as the model holds them.
pub open spec fn items_view(items: Seq<Json>) -> Seq<JsonValue> {
    Seq::new(items.len(), |i: int| items[i]@)
}

/// The view of an array is the sequence of the views of its items.
pub proof fn lemma_array_view(items: Vec<Json>)
    ensures
        Json::Array(items)@ == JsonValue::Array(items_view(items@)),
{
    assert(Json::Array(items)@->Array_0 =~= items_view(items@));
}

/// The view of an object is the sequence of its keys, each with the view of
/// its value.
pub proof fn lemma_object_view(members: Vec<Member>)
    ensures
        Json::Object(members)@ == JsonValue::Object(members_view(members@)),
{
    let doc = Json::Object(members);
    assert(doc@ is Object);
    let viewed = doc@->Object_0;
    assert(viewed.len() == members@.len());
    assert forall|i: int| 0 <= i < viewed.len() implies viewed[i] == members_view(members@)[i] by {}
    assert(viewed =~= members_view(members@));
}

impl Clone for Json {
    /// A deep copy: a document with the same value.
    fn clone(&self) -> (out: Json)
        ensures
            out@ == self@,
        decreases self,
    {
        match self {
            Json::Null => Json::Null,
            Json::Bool(b) => Json::Bool(*b),
            Json::Number(text) => Json::Number(text.clone()),
            Json::Str(text) => Json::Str(text.clone()),
            Json::Array(items) => {
                let mut copy: Vec<Json> = Vec::new();
                let mut i: usize = 0;
                while i < items.len()
                    invariant
                        i <= items.len(),
                        copy@.len() == i,
                        *self == Json::Array(*items),
                        forall|k: int| 0 <= k < i ==> (#[trigger] copy@[k])@ == items@[k]@,
                    decreases items.len() - i,
                {
                    proof {
                        vstd::std_specs::vec::axiom_vec_index_decreases(self->Array_0, i as int);
                    }
                    copy.push(items[i].clone());
                    i += 1;
                }
                proof {
                    lemma_array_view(copy);
                    lemma_array_view(*items);
                    assert(items_view(copy@) =~= items_view(items@));
                }
                Json::Array(copy)
            },
            Json::Object(members) => {
                let mut copy: Vec<Member> = Vec::new();
                let mut i: usize = 0;
                while i < members.len()
                    invariant
                        i <= members.len(),
                        copy@.len() == i,
                        *self == Json::Object(*members),
                        forall|k: int|
                            0 <= k < i ==> (#[trigger] copy@[k]).key@ == members@[k].key@
                                && copy@[k].value@ == members@[k].value@,
                    decreases members.len() - i,
                {
                    proof {
                        vstd::std_specs::vec::axiom_vec_index_decreases(self->Object_0, i as int);
                    }
                    copy.push(Member { key: members[i].key.clone(), value: members[i].value.clone() });
                    i += 1;
                }
                proof {
                    lemma_object_view(copy);
                    lemma_object_view(*members);
                    assert(members_view(copy@) =~= members_view(members@));
                }
                Json::Object(copy)
            },
        }
    }
}

impl Member {
    /// The member with this key and value.
    pub fn new(key: &str, value: Json) -> (out: Member)
        ensures
            out.key@ == key@,
            out.value == value,
    {
        Member { key: key.to_owned(), value }
    }
}

impl Json {
    /// The string with this text.
    pub fn string(text: &str) -> (out: Json)
        ensures
            out@ == JsonValue::Str(text@),
    {
        Json::Str(text.to_owned())
    }

    /// The number with this decimal text.
    pub fn number(text: &str) -> (out: Json)
        ensures
            out@ == JsonValue::Number(text@),
    {
        Json::Number(text.to_owned())
    }

    /// The array of these items, in their order.
    pub fn array(items: Vec<Json>) -> (out: Json)
        ensures
            out@ == JsonValue::Array(items_view(items@)),
    {
        proof {
            lemma_array_view(items);
        }
        Json::Array(items)
    }

    /// The object of these members, in their order.
    pub fn object(members: Vec<Member>) -> (out: Json)
        ensures
            out@ == JsonValue::Object(members_view(members@)),
    {
        proof {
            lemma_object_view(members);
        }
        Json::Object(members)
    }

    /// The value of the member that `key` names, where this document is an
    /// object that has such a member.
    pub fn get(&self, key: &str) -> (found: Option<&Json>)
        ensures
            match found {
                Some(value) => self@.get(key@) == Some(value@),
                None => self@.get(key@).is_none(),
            },
    {
        let wanted = key.to_owned();
        match self {
            Json::Object(members) => {
                proof {
                    lemma_object_view(*members);
                }
                let ghost all = members_view(members@);
                let mut i: usize = members.len();
                proof {
                    assert(all.take(i as int) =~= all);
                }
                while i > 0
                    invariant
                        i <= members.len(),
                        all == members_view(members@),
                        wanted@ == key@,
                        self@ == JsonValue::Object(all),
                        lookup(all, key@) == lookup(all.take(i as int), key@),
                    decreases i,
                {
                    i -= 1;
                    proof {
                        assert(all.take(i + 1).last() == all[i as int]);
                        assert(all.take(i + 1).drop_last() =~= all.take(i as int));
                    }
                    if members[i].key == wanted {
                        proof {
                            assert(all[i as int] == (members@[i as int].key@, members@[i as int].value@));
                            assert(lookup(all.take(i + 1), key@) == Some(all[i as int].1));
                        }
                        return Some(&members[i].value);
                    }
                }
                proof {
                    assert(all.take(0).len() == 0);
                }
                None
            },
            _ => None,
        }
    }
}

} // verus!
