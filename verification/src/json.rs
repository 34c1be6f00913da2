//! JSON documents as the library sees them, and the bridge to `serde_json`, which reads and
//! writes their text.

use crate::text::same_text;
use vstd::prelude::*;

verus! {

/// `serde_json::Value`, a JSON value as `serde_json` holds it. Nothing of its inside is
/// known here but what `value_view` names.
#[verifier::external_type_specification]
#[verifier::external_body]
pub struct ExValue(serde_json::Value);

/// `serde_json::Number`, a JSON number. It is carried as it is.
#[verifier::external_type_specification]
#[verifier::external_body]
pub struct ExNumber(serde_json::Number);

/// `serde_json::Error`, the error of reading or writing JSON. It is carried as it is.
#[verifier::external_type_specification]
#[verifier::external_body]
pub struct ExJsonError(serde_json::Error);

/// A JSON document. An object is a list of members; where a key occurs twice, the later
/// member counts.
#[derive(Debug)]
pub enum Json {
    Null,
    Bool(bool),
    Number(serde_json::Number),
    String(String),
    Array(Vec<Json>),
    Object(Vec<(String, Json)>),
}

/// The mathematical value of a JSON document.
pub enum JsonView {
    Null,
    Bool(bool),
    Number(serde_json::Number),
    String(Seq<char>),
    Array(Seq<JsonView>),
    Object(Map<Seq<char>, JsonView>),
}

/// The object that a list of members stands for.
pub open spec fn members_view(members: Seq<(String, Json)>) -> Map<Seq<char>, JsonView>
    decreases members, 0nat,
{
    if members.len() == 0 {
        Map::empty()
    } else {
        members_view(members.drop_last()).insert(members.last().0@, json_view(members.last().1))
    }
}

/// The values of a list of documents.
pub open spec fn items_view(items: Seq<Json>) -> Seq<JsonView>
    decreases items, 0nat,
{
    if items.len() == 0 {
        Seq::empty()
    } else {
        items_view(items.drop_last()).push(json_view(items.last()))
    }
}

/// The value of a document.
pub open spec fn json_view(j: Json) -> JsonView
    decreases j, 1nat,
{
    match j {
        Json::Null => JsonView::Null,
        Json::Bool(b) => JsonView::Bool(b),
        Json::Number(n) => JsonView::Number(n),
        Json::String(s) => JsonView::String(s@),
        Json::Array(items) => JsonView::Array(items_view(items@)),
        Json::Object(members) => JsonView::Object(members_view(members@)),
    }
}

impl View for Json {
    type V = JsonView;

    open spec fn view(&self) -> JsonView {
        json_view(*self)
    }
}

impl JsonView {
    /// The member under `key`, when this is an object that has one.
    pub open spec fn member(self, key: Seq<char>) -> Option<JsonView> {
        match self {
            JsonView::Object(m) => if m.contains_key(key) {
                Some(m[key])
            } else {
                None
            },
            _ => None,
        }
    }

    /// The text, when this is a string.
    pub open spec fn text(self) -> Option<Seq<char>> {
        match self {
            JsonView::String(s) => Some(s),
            _ => None,
        }
    }

    /// The text of the member under `key`, when there is one and it is a string.
    pub open spec fn text_member(self, key: Seq<char>) -> Option<Seq<char>> {
        match self.member(key) {
            Some(v) => v.text(),
            None => None,
        }
    }

    /// The items, when this is an array.
    pub open spec fn items(self) -> Option<Seq<JsonView>> {
        match self {
            JsonView::Array(items) => Some(items),
            _ => None,
        }
    }

    /// The object with one member.
    pub open spec fn object1(k1: Seq<char>, v1: JsonView) -> JsonView {
        JsonView::Object(Map::empty().insert(k1, v1))
    }

    /// The object with two members, set in this order.
    pub open spec fn object2(k1: Seq<char>, v1: JsonView, k2: Seq<char>, v2: JsonView) -> JsonView {
        JsonView::Object(Map::empty().insert(k1, v1).insert(k2, v2))
    }

    /// The object with three members, set in this order.
    pub open spec fn object3(
        k1: Seq<char>,
        v1: JsonView,
        k2: Seq<char>,
        v2: JsonView,
        k3: Seq<char>,
        v3: JsonView,
    ) -> JsonView {
        JsonView::Object(Map::empty().insert(k1, v1).insert(k2, v2).insert(k3, v3))
    }

    /// This object with `key` set to `value`.
    pub open spec fn with(self, key: Seq<char>, value: JsonView) -> JsonView
        recommends
            self is Object,
    {
        JsonView::Object(self->Object_0.insert(key, value))
    }
}

/// The items of `items_view` are the values of the documents, one by one.
pub proof fn lemma_items_view(items: Seq<Json>)
    ensures
        items_view(items).len() == items.len(),
        forall|i: int| 0 <= i < items.len() ==> #[trigger] items_view(items)[i] == json_view(items[i]),
    decreases items.len(),
{
    if items.len() > 0 {
        lemma_items_view(items.drop_last());
    }
}

/// Adding a document at the end adds its value at the end.
pub proof fn lemma_items_view_push(items: Seq<Json>, j: Json)
    ensures
        items_view(items.push(j)) == items_view(items).push(json_view(j)),
{
    assert(items.push(j).drop_last() =~= items);
}

/// Adding a member at the end sets its key to its value.
pub proof fn lemma_members_view_push(members: Seq<(String, Json)>, key: String, value: Json)
    ensures
        members_view(members.push((key, value))) == members_view(members).insert(
            key@,
            json_view(value),
        ),
{
    assert(members.push((key, value)).drop_last() =~= members);
}

proof fn lemma_members_last_wins(members: Seq<(String, Json)>, i: int)
    requires
        0 <= i < members.len(),
        forall|k: int| i < k < members.len() ==> (#[trigger] members[k]).0@ != members[i].0@,
    ensures
        members_view(members).contains_key(members[i].0@),
        members_view(members)[members[i].0@] == json_view(members[i].1),
    decreases members.len(),
{
    if i < members.len() - 1 {
        lemma_members_last_wins(members.drop_last(), i);
    }
}

proof fn lemma_members_replace(members: Seq<(String, Json)>, i: int, key: String, value: Json)
    requires
        0 <= i < members.len(),
        members[i].0@ == key@,
        forall|k: int| i < k < members.len() ==> (#[trigger] members[k]).0@ != key@,
    ensures
        members_view(members.update(i, (key, value))) == members_view(members).insert(
            key@,
            json_view(value),
        ),
    decreases members.len(),
{
    let updated = members.update(i, (key, value));
    if i < members.len() - 1 {
        lemma_members_replace(members.drop_last(), i, key, value);
        assert(updated.drop_last() =~= members.drop_last().update(i, (key, value)));
        assert(members_view(updated) =~= members_view(members).insert(key@, json_view(value)));
    } else {
        assert(updated.drop_last() =~= members.drop_last());
        assert(members_view(updated) =~= members_view(members).insert(key@, json_view(value)));
    }
}

proof fn lemma_members_absent(members: Seq<(String, Json)>, key: Seq<char>)
    requires
        forall|k: int| 0 <= k < members.len() ==> (#[trigger] members[k]).0@ != key,
    ensures
        !members_view(members).contains_key(key),
    decreases members.len(),
{
    if members.len() > 0 {
        lemma_members_absent(members.drop_last(), key);
    }
}

/// What a `serde_json::Value` holds.
pub uninterp spec fn value_view(v: serde_json::Value) -> JsonView;

/// What `serde_json::from_str` makes of a text: the value it reads, or the message of the
/// error it reports.
pub uninterp spec fn parsed_json(text: Seq<char>) -> Result<JsonView, Seq<char>>;

/// The compact text that `serde_json` writes for a value. It is a function of the value
/// because `serde_json` writes the members of an object in the order of their keys; that is
/// so as long as its feature `preserve_order` is off, as it is in this crate.
pub uninterp spec fn json_text(v: JsonView) -> Seq<char>;

/// The message that a `serde_json::Error` displays.
pub uninterp spec fn json_error_text(e: serde_json::Error) -> Seq<char>;

/// What `serde_json::Number::as_u64` returns: the number, if it is an integer that fits in
/// 64 bits without sign.
pub uninterp spec fn number_u64(n: serde_json::Number) -> Option<u64>;

/// Rebuilds a document as a `serde_json::Value`, variant by variant. An object is filled
/// member by member, in order, with `serde_json::Map::insert`, which replaces the value of a
/// key that is present: the later of two members with one key stays.
#[verifier::external_body]
pub(crate) fn to_value(j: &Json) -> (v: serde_json::Value)
    ensures
        value_view(v) == j@,
{
    match j {
        Json::Null => serde_json::Value::Null,
        Json::Bool(b) => serde_json::Value::Bool(*b),
        Json::Number(n) => serde_json::Value::Number(n.clone()),
        Json::String(s) => serde_json::Value::String(s.clone()),
        Json::Array(items) => serde_json::Value::Array(items.iter().map(to_value).collect()),
        Json::Object(members) => {
            let mut map = serde_json::Map::new();
            for member in members {
                map.insert(member.0.clone(), to_value(&member.1));
            }
            serde_json::Value::Object(map)
        },
    }
}

/// Takes a `serde_json::Value` apart into a document, variant by variant.
#[verifier::external_body]
pub(crate) fn from_value(v: serde_json::Value) -> (j: Json)
    ensures
        j@ == value_view(v),
{
    match v {
        serde_json::Value::Null => Json::Null,
        serde_json::Value::Bool(b) => Json::Bool(b),
        serde_json::Value::Number(n) => Json::Number(n),
        serde_json::Value::String(s) => Json::String(s),
        serde_json::Value::Array(items) => Json::Array(items.into_iter().map(from_value).collect()),
        serde_json::Value::Object(members) => Json::Object(
            members.into_iter().map(|m| (m.0, from_value(m.1))).collect(),
        ),
    }
}

/// `serde_json::from_str` for a `serde_json::Value`: reads one JSON value from the text.
#[verifier::external_body]
pub(crate) fn parse_value(text: &str) -> (r: Result<serde_json::Value, serde_json::Error>)
    ensures
        match r {
            Ok(v) => parsed_json(text@) == Ok::<JsonView, Seq<char>>(value_view(v)),
            Err(e) => parsed_json(text@) == Err::<JsonView, Seq<char>>(json_error_text(e)),
        },
{
    serde_json::from_str::<serde_json::Value>(text)
}

/// `serde_json::Value`'s `to_string`: the value's compact JSON text.
#[verifier::external_body]
pub(crate) fn value_text(v: &serde_json::Value) -> (s: String)
    ensures
        s@ == json_text(value_view(*v)),
{
    v.to_string()
}

/// `serde_json::Error`'s `to_string`: the message of the error.
#[verifier::external_body]
pub(crate) fn json_error_message(e: &serde_json::Error) -> (s: String)
    ensures
        s@ == json_error_text(*e),
{
    e.to_string()
}

/// The `serde_json::Number` that `serde_json::Number::from` makes of an unsigned integer.
pub uninterp spec fn unsigned_number(n: u64) -> serde_json::Number;

/// `serde_json::Number::from` an unsigned integer: the number that `as_u64` reads back.
#[verifier::external_body]
pub(crate) fn number_from_u64(n: u64) -> (number: serde_json::Number)
    ensures
        number == unsigned_number(n),
        number_u64(number) == Some(n),
{
    serde_json::Number::from(n)
}

/// `serde_json::Number::as_u64`.
#[verifier::external_body]
pub(crate) fn number_as_u64(number: &serde_json::Number) -> (n: Option<u64>)
    ensures
        n == number_u64(*number),
{
    number.as_u64()
}

/// `serde_json::Number`'s `clone`: the same number.
#[verifier::external_body]
pub(crate) fn number_clone(number: &serde_json::Number) -> (copy: serde_json::Number)
    ensures
        copy == *number,
{
    number.clone()
}

impl Clone for Json {
    fn clone(&self) -> (copy: Self)
        ensures
            copy@ == self@,
    {
        copy_json(self)
    }
}

fn copy_json(j: &Json) -> (copy: Json)
    ensures
        copy@ == j@,
    decreases j, 1nat,
{
    match j {
        Json::Null => Json::Null,
        Json::Bool(b) => Json::Bool(*b),
        Json::Number(n) => Json::Number(number_clone(n)),
        Json::String(s) => Json::String(s.clone()),
        Json::Array(items) => Json::Array(clone_items(items)),
        Json::Object(members) => Json::Object(copy_members(members)),
    }
}

fn copy_members(members: &Vec<(String, Json)>) -> (copies: Vec<(String, Json)>)
    ensures
        members_view(copies@) == members_view(members@),
    decreases members, 0nat,
{
    let mut copies: Vec<(String, Json)> = Vec::new();
    let mut i: usize = 0;
    while i < members.len()
        invariant
            i <= members.len(),
            members_view(copies@) == members_view(members@.take(i as int)),
        decreases members.len() - i,
    {
        let key = members[i].0.clone();
        let value = copy_json(&members[i].1);
        proof {
            lemma_members_view_push(copies@, key, value);
            lemma_members_view_push(
                members@.take(i as int),
                members@[i as int].0,
                members@[i as int].1,
            );
            assert(members@.take(i as int).push(members@[i as int]) =~= members@.take(i + 1));
        }
        copies.push((key, value));
        i = i + 1;
    }
    proof {
        assert(members@.take(members.len() as int) =~= members@);
    }
    copies
}

/// Copies a list of documents.
pub fn clone_items(items: &Vec<Json>) -> (copies: Vec<Json>)
    ensures
        items_view(copies@) == items_view(items@),
    decreases items, 0nat,
{
    let mut copies: Vec<Json> = Vec::new();
    let mut i: usize = 0;
    while i < items.len()
        invariant
            i <= items.len(),
            items_view(copies@) == items_view(items@.take(i as int)),
        decreases items.len() - i,
    {
        let copy = copy_json(&items[i]);
        proof {
            lemma_items_view_push(copies@, copy);
            lemma_items_view_push(items@.take(i as int), items@[i as int]);
            assert(items@.take(i as int).push(items@[i as int]) =~= items@.take(i + 1));
        }
        copies.push(copy);
        i = i + 1;
    }
    proof {
        assert(items@.take(items.len() as int) =~= items@);
    }
    copies
}

/// Index of the member that counts for `key`: the last one with that key.
fn counting_member(members: &Vec<(String, Json)>, key: &str) -> (at: Option<usize>)
    ensures
        match at {
            Some(i) => i < members.len() && members@[i as int].0@ == key@ && forall|k: int|
                i < k < members.len() ==> (#[trigger] members@[k]).0@ != key@,
            None => forall|k: int| 0 <= k < members.len() ==> (#[trigger] members@[k]).0@ != key@,
        },
{
    let mut i: usize = members.len();
    while i > 0
        invariant
            i <= members.len(),
            forall|k: int| i <= k < members.len() ==> (#[trigger] members@[k]).0@ != key@,
        decreases i,
    {
        i = i - 1;
        if same_text(members[i].0.as_str(), key) {
            return Some(i);
        }
    }
    None
}

impl Json {
    /// The string that holds `text`.
    pub fn string(text: &str) -> (j: Json)
        ensures
            j@ == JsonView::String(text@),
    {
        Json::String(text.to_owned())
    }

    /// The number `n`.
    pub fn from_u64(n: u64) -> (j: Json)
        ensures
            j@ == JsonView::Number(unsigned_number(n)),
            j@.unsigned() == Some(n),
    {
        Json::Number(number_from_u64(n))
    }

    /// The array of `items`.
    pub fn array(items: Vec<Json>) -> (j: Json)
        ensures
            j@ == JsonView::Array(items_view(items@)),
    {
        Json::Array(items)
    }

    /// The object without members.
    pub fn object() -> (j: Json)
        ensures
            j@ == JsonView::Object(Map::empty()),
    {
        Json::Object(Vec::new())
    }

    /// This object with `key` set to `value`.
    pub fn with(self, key: &str, value: Json) -> (j: Json)
        requires
            self@ is Object,
        ensures
            j@ == self@.with(key@, value@),
    {
        match self {
            Json::Object(mut members) => {
                let owned = key.to_owned();
                proof {
                    lemma_members_view_push(members@, owned, value);
                }
                members.push((owned, value));
                Json::Object(members)
            },
            other => other,
        }
    }

    /// Sets `key` to `value` in this object: in the place of the member that counts for `key`,
    /// or as a new member at the end.
    pub fn put(&mut self, key: &str, value: Json)
        requires
            old(self)@ is Object,
        ensures
            final(self)@ == old(self)@.with(key@, value@),
    {
        let mut taken = Json::Null;
        std::mem::swap(self, &mut taken);
        match taken {
            Json::Object(mut members) => {
                let owned = key.to_owned();
                let at = counting_member(&members, key);
                match at {
                    Some(i) => {
                        proof {
                            lemma_members_replace(members@, i as int, owned, value);
                        }
                        members.set(i, (owned, value));
                    },
                    None => {
                        proof {
                            lemma_members_view_push(members@, owned, value);
                        }
                        members.push((owned, value));
                    },
                }
                *self = Json::Object(members);
            },
            other => {
                *self = other;
            },
        }
    }

    /// The member stored under `key`, when this document is an object that has one.
    pub fn get(&self, key: &str) -> (found: Option<&Json>)
        ensures
            match found {
                Some(j) => self@.member(key@) == Some(j@),
                None => self@.member(key@) is None,
            },
    {
        match self {
            Json::Object(members) => match counting_member(members, key) {
                Some(i) => {
                    proof {
                        lemma_members_last_wins(members@, i as int);
                    }
                    Some(&members[i].1)
                },
                None => {
                    proof {
                        lemma_members_absent(members@, key@);
                    }
                    None
                },
            },
            _ => None,
        }
    }

    /// The text, when this document is a string.
    pub fn as_str(&self) -> (text: Option<&str>)
        ensures
            match text {
                Some(s) => self@.text() == Some(s@),
                None => self@.text() is None,
            },
    {
        match self {
            Json::String(s) => Some(s.as_str()),
            _ => None,
        }
    }

    /// The text of the member under `key`, when there is one and it is a string.
    pub fn get_str(&self, key: &str) -> (text: Option<&str>)
        ensures
            match text {
                Some(s) => self@.text_member(key@) == Some(s@),
                None => self@.text_member(key@) is None,
            },
    {
        match self.get(key) {
            Some(v) => v.as_str(),
            None => None,
        }
    }

    /// The items, when this document is an array.
    pub fn as_array(&self) -> (items: Option<&Vec<Json>>)
        ensures
            match items {
                Some(v) => self@.items() == Some(items_view(v@)),
                None => self@.items() is None,
            },
    {
        match self {
            Json::Array(items) => Some(items),
            _ => None,
        }
    }

    /// Whether this document is an object.
    pub fn is_object(&self) -> (b: bool)
        ensures
            b == (self@ is Object),
    {
        match self {
            Json::Object(_) => true,
            _ => false,
        }
    }

    /// Whether this document is `null`.
    pub fn is_null(&self) -> (b: bool)
        ensures
            b == (self@ is Null),
    {
        match self {
            Json::Null => true,
            _ => false,
        }
    }

    /// The number, when this document is an integer that fits in 64 bits without sign.
    pub fn as_u64(&self) -> (n: Option<u64>)
        ensures
            n == self@.unsigned(),
    {
        match self {
            Json::Number(number) => number_as_u64(number),
            _ => None,
        }
    }

    /// This document as a `serde_json::Value`.
    pub fn to_value(&self) -> (value: serde_json::Value)
        ensures
            value_view(value) == self@,
    {
        to_value(self)
    }

    /// The document that a `serde_json::Value` holds.
    pub fn from_value(value: serde_json::Value) -> (j: Json)
        ensures
            j@ == value_view(value),
    {
        from_value(value)
    }

    /// Reads a document from its text.
    pub fn parse(text: &str) -> (r: Result<Json, serde_json::Error>)
        ensures
            match r {
                Ok(j) => parsed_json(text@) == Ok::<JsonView, Seq<char>>(j@),
                Err(e) => parsed_json(text@) == Err::<JsonView, Seq<char>>(json_error_text(e)),
            },
    {
        match parse_value(text) {
            Ok(v) => Ok(from_value(v)),
            Err(e) => Err(e),
        }
    }

    /// The compact text of this document.
    pub fn to_text(&self) -> (s: String)
        ensures
            s@ == json_text(self@),
    {
        let v = to_value(self);
        value_text(&v)
    }
}

impl JsonView {
    /// The number, when this is an integer that fits in 64 bits without sign.
    pub open spec fn unsigned(self) -> Option<u64> {
        match self {
            JsonView::Number(n) => number_u64(n),
            _ => None,
        }
    }
}

} // verus!
