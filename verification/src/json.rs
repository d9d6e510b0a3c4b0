//! JSON values as the exchanges hold them, and what such a value means.

use crate::text::same_text;
use vstd::prelude::*;

verus! {

/// A JSON value in memory. An object keeps its members in the order in which
/// they were written; where a key is written twice, the later member counts.
/// A number that is no 64-bit integer is kept as its decimal text.
#[derive(Debug)]
pub enum Json {
    Null,
    Bool(bool),
    Int(i64),
    Float(String),
    Str(String),
    Array(Vec<Json>),
    Object(Vec<(String, Json)>),
}

/// What a JSON value means: an object is a map from keys to values.
pub ghost enum JsonModel {
    Null,
    Bool(bool),
    Int(int),
    Float(Seq<char>),
    Str(Seq<char>),
    Array(Seq<JsonModel>),
    Object(Map<Seq<char>, JsonModel>),
}

/// The map that a list of members stands for: a later member replaces an
/// earlier one of the same key.
pub open spec fn members_map<V>(members: Seq<(Seq<char>, V)>) -> Map<Seq<char>, V>
    decreases members.len(),
{
    if members.len() == 0 {
        Map::empty()
    } else {
        members_map(members.drop_last()).insert(members.last().0, members.last().1)
    }
}

impl View for Json {
    type V = JsonModel;

    open spec fn view(&self) -> JsonModel
        decreases self,
    {
        match self {
            Json::Null => JsonModel::Null,
            Json::Bool(b) => JsonModel::Bool(*b),
            Json::Int(i) => JsonModel::Int(*i as int),
            Json::Float(text) => JsonModel::Float(text@),
            Json::Str(text) => JsonModel::Str(text@),
            Json::Array(items) => JsonModel::Array(item_models(items@)),
            Json::Object(members) => JsonModel::Object(members_map(member_models(members@))),
        }
    }
}

/// The items of an array, each as what it means.
pub open spec fn item_models(items: Seq<Json>) -> Seq<JsonModel>
    decreases items,
{
    Seq::new(
        items.len(),
        |i: int|
            if 0 <= i < items.len() {
                items[i].view()
            } else {
                JsonModel::Null
            },
    )
}

/// The members of an object, each with what its value means.
pub open spec fn member_models(members: Seq<(String, Json)>) -> Seq<(Seq<char>, JsonModel)>
    decreases members,
{
    Seq::new(
        members.len(),
        |i: int|
            if 0 <= i < members.len() {
                (members[i].0@, members[i].1.view())
            } else {
                (Seq::empty(), JsonModel::Null)
            },
    )
}

/// Whether no value in a list of members holds a number kept as text.
pub open spec fn plain_members(members: Seq<(String, Json)>) -> bool {
    forall|i: int| 0 <= i < members.len() ==> !(#[trigger] members[i]).1.has_float()
}

/// Adds the member `key: value` at the end of a list of members.
pub fn push_member(members: &mut Vec<(String, Json)>, key: &str, value: Json)
    ensures
        final(members)@.len() == old(members)@.len() + 1,
        members_map(member_models(final(members)@)) == members_map(
            member_models(old(members)@),
        ).insert(key@, value@),
        plain_members(old(members)@) && !value.has_float() ==> plain_members(final(members)@),
{
    let ghost before = members@;
    let key = key.to_string();
    members.push((key, value));
    proof {
        assert(member_models(members@).drop_last() =~= member_models(before));
    }
}

/// The object of a list of members.
pub fn object(members: Vec<(String, Json)>) -> (value: Json)
    ensures
        value@ == JsonModel::Object(members_map(member_models(members@))),
        plain_members(members@) ==> !value.has_float(),
{
    Json::Object(members)
}

/// The string `text` as a JSON value.
pub fn string(text: &str) -> (value: Json)
    ensures
        value@ == JsonModel::Str(text@),
        !value.has_float(),
{
    Json::Str(text.to_string())
}

/// The member of an object under a key, if the value is an object and has
/// one.
pub open spec fn member(value: JsonModel, key: Seq<char>) -> Option<JsonModel> {
    match value {
        JsonModel::Object(members) => if members.contains_key(key) {
            Some(members[key])
        } else {
            None
        },
        _ => None,
    }
}

/// A key is in the map of a list of members exactly if a member has it, and
/// the last member that has it gives the value.
pub proof fn lemma_members_lookup<V>(members: Seq<(Seq<char>, V)>, key: Seq<char>)
    ensures
        members_map(members).contains_key(key) <==> exists|i: int|
            0 <= i < members.len() && (#[trigger] members[i]).0 == key,
        forall|i: int|
            0 <= i < members.len() && (#[trigger] members[i]).0 == key && (forall|k: int|
                i < k < members.len() ==> (#[trigger] members[k]).0 != key) ==> members_map(
                members,
            )[key] == members[i].1,
    decreases members.len(),
{
    if members.len() > 0 {
        let front = members.drop_last();
        lemma_members_lookup(front, key);
        if members.last().0 == key {
        } else {
            if members_map(members).contains_key(key) {
                let i = choose|i: int| 0 <= i < front.len() && (#[trigger] front[i]).0 == key;
            }
            if exists|i: int| 0 <= i < members.len() && (#[trigger] members[i]).0 == key {
                let i = choose|i: int| 0 <= i < members.len() && (#[trigger] members[i]).0 == key;
                assert(front[i].0 == key);
            }
        }
        assert forall|i: int|
            0 <= i < members.len() && (#[trigger] members[i]).0 == key && (forall|k: int|
                i < k < members.len() ==> (#[trigger] members[k]).0 != key) implies members_map(
            members,
        )[key] == members[i].1 by {
            if i < members.len() - 1 {
                assert(front[i].0 == key);
            }
        }
    }
}

impl Json {
    /// Whether a number that is kept as text stands anywhere in the value,
    /// members that a later one replaces included. Such a value cannot be
    /// written.
    pub open spec fn has_float(&self) -> bool
        decreases self,
    {
        match self {
            Json::Float(_) => true,
            Json::Array(items) => exists|i: int|
                0 <= i < items@.len() && (#[trigger] items@[i]).has_float(),
            Json::Object(members) => exists|i: int|
                0 <= i < members@.len() && (#[trigger] members@[i]).1.has_float(),
            _ => false,
        }
    }

    /// The member under `key`, where the value is an object that has one.
    pub fn get(&self, key: &str) -> (found: Option<&Json>)
        ensures
            match found {
                Some(value) => member(self@, key@) == Some(value@),
                None => member(self@, key@) is None,
            },
    {
        match self {
            Json::Object(members) => {
                let mut i: usize = members.len();
                while i > 0
                    invariant
                        *self == Json::Object(*members),
                        i <= members@.len(),
                        forall|k: int| i <= k < members@.len() ==> (#[trigger] members@[k]).0@ != key@,
                    decreases i,
                {
                    i = i - 1;
                    if same_text(members[i].0.as_str(), key) {
                        proof {
                            let models = member_models(members@);
                            lemma_members_lookup(models, key@);
                            assert(models[i as int].0 == key@);
                        }
                        return Some(&members[i].1);
                    }
                }
                proof {
                    let models = member_models(members@);
                    lemma_members_lookup(models, key@);
                }
                None
            },
            _ => None,
        }
    }

    /// A copy of the value.
    pub fn duplicate(&self) -> (copy: Json)
        ensures
            copy@ == self@,
        decreases self,
    {
        match self {
            Json::Null => Json::Null,
            Json::Bool(b) => Json::Bool(*b),
            Json::Int(i) => Json::Int(*i),
            Json::Float(text) => Json::Float(text.clone()),
            Json::Str(text) => Json::Str(text.clone()),
            Json::Array(items) => {
                let mut copies: Vec<Json> = Vec::new();
                let mut i: usize = 0;
                while i < items.len()
                    invariant
                        *self == Json::Array(*items),
                        i <= items@.len(),
                        copies@.len() == i,
                        forall|k: int| 0 <= k < i ==> (#[trigger] copies@[k])@ == items@[k]@,
                    decreases items@.len() - i,
                {
                    let item = &items[i];
                    assert(decreases_to!(*self => self->Array_0));
                    copies.push(item.duplicate());
                    i = i + 1;
                }
                assert(item_models(copies@) =~= item_models(items@));
                Json::Array(copies)
            },
            Json::Object(members) => {
                let mut copies: Vec<(String, Json)> = Vec::new();
                let mut i: usize = 0;
                while i < members.len()
                    invariant
                        *self == Json::Object(*members),
                        i <= members@.len(),
                        copies@.len() == i,
                        forall|k: int|
                            0 <= k < i ==> (#[trigger] copies@[k]).0@ == members@[k].0@
                                && copies@[k].1@ == members@[k].1@,
                    decreases members@.len() - i,
                {
                    let member = &members[i];
                    assert(decreases_to!(*self => self->Object_0));
                    copies.push((member.0.clone(), member.1.duplicate()));
                    i = i + 1;
                }
                assert(member_models(copies@) =~= member_models(members@));
                Json::Object(copies)
            },
        }
    }
}

/// The array that holds one item.
pub fn array_of_one(item: Json) -> (value: Json)
    ensures
        value@ == JsonModel::Array(seq![item@]),
        !item.has_float() ==> !value.has_float(),
{
    let mut items: Vec<Json> = Vec::new();
    items.push(item);
    assert(item_models(items@) =~= seq![item@]);
    Json::Array(items)
}

} // verus!
