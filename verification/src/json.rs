//! JSON values as plain data, with their mathematical model.

use vstd::prelude::*;
use crate::text::str_eq;

verus! {

/// A JSON value.
///
/// An integer that fits in 64 signed bits is held as such; any other number
/// is held as its decimal text. An object is held as its members in order.
#[derive(Debug, PartialEq, Eq)]
pub enum Json {
    Null,
    Bool(bool),
    Integer(i64),
    Decimal(String),
    Text(String),
    Array(Vec<Json>),
    Object(Vec<(String, Json)>),
}

/// The mathematical model of a [`Json`] value.
pub enum JsonValue {
    Null,
    Bool(bool),
    Integer(int),
    Decimal(Seq<char>),
    Text(Seq<char>),
    Array(Seq<JsonValue>),
    Object(Seq<Member>),
}

/// A member of an object: its name and its value.
pub struct Member {
    pub name: Seq<char>,
    pub value: JsonValue,
}

impl View for Json {
    type V = JsonValue;

    open spec fn view(&self) -> JsonValue
        decreases self,
    {
        match self {
            Json::Null => JsonValue::Null,
            Json::Bool(b) => JsonValue::Bool(*b),
            Json::Integer(i) => JsonValue::Integer(*i as int),
            Json::Decimal(n) => JsonValue::Decimal(n@),
            Json::Text(s) => JsonValue::Text(s@),
            Json::Array(items) => JsonValue::Array(
                Seq::new(
                    items@.len(),
                    |i: int|
                        if 0 <= i < items@.len() {
                            items@[i].view()
                        } else {
                            JsonValue::Null
                        },
                ),
            ),
            Json::Object(members) => JsonValue::Object(
                Seq::new(
                    members@.len(),
                    |i: int|
                        if 0 <= i < members@.len() {
                            Member { name: members@[i].0@, value: members@[i].1.view() }
                        } else {
                            Member { name: Seq::empty(), value: JsonValue::Null }
                        },
                ),
            ),
        }
    }
}

/// The model of an optional value.
pub open spec fn view_opt(value: Option<Json>) -> Option<JsonValue> {
    match value {
        Some(j) => Some(j@),
        None => None,
    }
}

/// The models of the items of an array, in order.
pub open spec fn view_items(items: Seq<Json>) -> Seq<JsonValue> {
    Seq::new(items.len(), |i: int| items[i]@)
}

/// The models of the members of an object, in order.
pub open spec fn view_members(members: Seq<(String, Json)>) -> Seq<Member> {
    Seq::new(members.len(), |i: int| Member { name: members[i].0@, value: members[i].1@ })
}

/// The member named `name` with the value `value`.
pub open spec fn member(name: Seq<char>, value: JsonValue) -> Member {
    Member { name, value }
}

/// The member named `name`, if there is a value for it; else nothing.
pub open spec fn optional_member(name: Seq<char>, value: Option<JsonValue>) -> Seq<Member> {
    match value {
        Some(v) => seq![member(name, v)],
        None => Seq::empty(),
    }
}

/// The value of the first member of `members` named `key`, from `from` on.
pub open spec fn find_member(members: Seq<Member>, key: Seq<char>, from: int) -> Option<
    JsonValue,
>
    decreases members.len() - from,
{
    if from < 0 || from >= members.len() {
        None
    } else if members[from].name == key {
        Some(members[from].value)
    } else {
        find_member(members, key, from + 1)
    }
}

impl JsonValue {
    /// The value of the member `key` of an object: of the first, where
    /// several have that name. `None` for what is no object or has no such
    /// member.
    pub open spec fn member(self, key: Seq<char>) -> Option<JsonValue> {
        match self {
            JsonValue::Object(members) => find_member(members, key, 0),
            _ => None,
        }
    }

    /// The characters of a string value.
    pub open spec fn text(self) -> Option<Seq<char>> {
        match self {
            JsonValue::Text(s) => Some(s),
            _ => None,
        }
    }
}

/// Unfolds the model of an array.
pub proof fn lemma_view_array(items: Vec<Json>)
    ensures
        Json::Array(items)@ == JsonValue::Array(view_items(items@)),
{
    let whole = Json::Array(items);
    assert(whole@->Array_0 =~= view_items(items@));
}

/// Unfolds the model of an object.
pub proof fn lemma_view_object(members: Vec<(String, Json)>)
    ensures
        Json::Object(members)@ == JsonValue::Object(view_members(members@)),
{
    let whole = Json::Object(members);
    assert(whole@->Object_0.len() == members@.len());
    assert(whole@->Object_0 =~= view_members(members@));
}

impl Json {
    /// The member `key` of an object: the first of that name. `None` for
    /// what is no object or has no such member.
    #[verifier::loop_isolation(false)]
    pub fn get(&self, key: &str) -> (found: Option<&Json>)
        ensures
            match found {
                Some(j) => self@.member(key@) == Some(j@),
                None => self@.member(key@).is_none(),
            },
    {
        match self {
            Json::Object(members) => {
                proof {
                    lemma_view_object(*members);
                }
                let ghost model = view_members(members@);
                let mut i: usize = 0;
                while i < members.len()
                    invariant
                        i <= members.len(),
                        model == view_members(members@),
                        find_member(model, key@, 0) == find_member(model, key@, i as int),
                    decreases members.len() - i,
                {
                    assert(model[i as int].name == members@[i as int].0@);
                    assert(model[i as int].value == members@[i as int].1@);
                    if str_eq(members[i].0.as_str(), key) {
                        return Some(&members[i].1);
                    }
                    i += 1;
                }
                None
            },
            _ => None,
        }
    }

    /// The characters of a string value.
    pub fn as_str(&self) -> (found: Option<&str>)
        ensures
            match found {
                Some(s) => self@.text() == Some(s@),
                None => self@.text().is_none(),
            },
    {
        match self {
            Json::Text(s) => Some(s.as_str()),
            _ => None,
        }
    }

    /// The object with the members given, in their order.
    pub fn object(members: Vec<(String, Json)>) -> (json: Json)
        ensures
            json@ == JsonValue::Object(view_members(members@)),
    {
        proof {
            lemma_view_object(members);
        }
        Json::Object(members)
    }

    /// The array with the items given, in their order.
    pub fn array(items: Vec<Json>) -> (json: Json)
        ensures
            json@ == JsonValue::Array(view_items(items@)),
    {
        proof {
            lemma_view_array(items);
        }
        Json::Array(items)
    }

    /// A string value holding the characters of `s`.
    pub fn text(s: &str) -> (json: Json)
        ensures
            json@ == JsonValue::Text(s@),
    {
        Json::Text(String::from_str(s))
    }
}

/// Members to which nothing has been added yet.
pub fn no_members() -> (members: Vec<(String, Json)>)
    ensures
        view_members(members@) == Seq::<Member>::empty(),
{
    let members: Vec<(String, Json)> = Vec::new();
    assert(view_members(members@) =~= Seq::<Member>::empty());
    members
}

/// Adds the member `name` with the value `value` behind those of `members`.
pub fn push_member(members: &mut Vec<(String, Json)>, name: &str, value: Json)
    ensures
        view_members(final(members)@) == view_members(old(members)@).push(member(name@, value@)),
{
    members.push((String::from_str(name), value));
    assert(view_members(members@) =~= view_members(old(members)@).push(member(name@, value@)));
}

/// Adds the member `name` behind those of `members` where there is a value
/// for it.
pub fn push_optional_member(members: &mut Vec<(String, Json)>, name: &str, value: Option<Json>)
    ensures
        view_members(final(members)@) == view_members(old(members)@) + optional_member(
            name@,
            view_opt(value),
        ),
{
    match value {
        Some(v) => {
            push_member(members, name, v);
            assert(view_members(members@) =~= view_members(old(members)@) + optional_member(
                name@,
                view_opt(value),
            ));
        },
        None => {
            assert(view_members(members@) =~= view_members(old(members)@) + optional_member(
                name@,
                view_opt(value),
            ));
        },
    }
}

/// Adds `item` behind the items of `items`.
pub fn push_item(items: &mut Vec<Json>, item: Json)
    ensures
        view_items(final(items)@) == view_items(old(items)@).push(item@),
{
    items.push(item);
    assert(view_items(items@) =~= view_items(old(items)@).push(item@));
}

/// A copy of an optional value.
pub fn clone_opt(value: &Option<Json>) -> (copy: Option<Json>)
    ensures
        view_opt(copy) == view_opt(*value),
{
    match value {
        Some(j) => Some(j.clone()),
        None => None,
    }
}

impl Clone for Json {
    #[verifier::loop_isolation(false)]
    fn clone(&self) -> (copy: Json)
        ensures
            copy@ == self@,
        decreases self,
    {
        match self {
            Json::Null => Json::Null,
            Json::Bool(b) => Json::Bool(*b),
            Json::Integer(i) => Json::Integer(*i),
            Json::Decimal(n) => Json::Decimal(n.clone()),
            Json::Text(s) => Json::Text(s.clone()),
            Json::Array(items) => {
                let mut copies: Vec<Json> = Vec::new();
                let mut i: usize = 0;
                while i < items.len()
                    invariant
                        i <= items.len(),
                        copies@.len() == i,
                        forall|k: int| 0 <= k < i ==> copies@[k]@ == items@[k]@,
                    decreases items.len() - i,
                {
                    proof {
                        vstd::std_specs::vec::axiom_vec_index_decreases(*items, i as int);
                    }
                    let item = items[i].clone();
                    copies.push(item);
                    i += 1;
                }
                proof {
                    lemma_view_array(*items);
                    lemma_view_array(copies);
                    assert(view_items(copies@) =~= view_items(items@));
                }
                Json::Array(copies)
            },
            Json::Object(members) => {
                let mut copies: Vec<(String, Json)> = Vec::new();
                let mut i: usize = 0;
                while i < members.len()
                    invariant
                        i <= members.len(),
                        copies@.len() == i,
                        forall|k: int|
                            0 <= k < i ==> copies@[k].0@ == members@[k].0@ && copies@[k].1@
                                == members@[k].1@,
                    decreases members.len() - i,
                {
                    proof {
                        vstd::std_specs::vec::axiom_vec_index_decreases(*members, i as int);
                    }
                    let name = members[i].0.clone();
                    let value = members[i].1.clone();
                    copies.push((name, value));
                    i += 1;
                }
                proof {
                    lemma_view_object(*members);
                    lemma_view_object(copies);
                    assert(view_members(copies@) =~= view_members(members@));
                }
                Json::Object(copies)
            },
        }
    }
}

} // verus!
