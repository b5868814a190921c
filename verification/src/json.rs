//! JSON documents as plain data.
//!
//! Texts are read and written by `serde_json`; everything in between works on
//! [`Json`], whose contents the contracts of this crate speak of through its
//! view, [`JsonView`].

use vstd::prelude::*;
use serde_json::{Number, Value};
use crate::strings::{str_eq, texts_view};

verus! {

/// A number of a JSON document. One with a fraction or an exponent is kept as
/// the text that denotes it.
#[derive(Debug)]
pub enum JsonNumber {
    PosInt(u64),
    NegInt(i64),
    Float(String),
}

/// A JSON document. The members of an object are kept in a list; a name is
/// looked up from the front.
#[derive(Debug)]
pub enum Json {
    Null,
    Bool(bool),
    Number(JsonNumber),
    Str(String),
    Array(Vec<Json>),
    Object(Vec<(String, Json)>),
}

pub enum JsonNumberView {
    PosInt(u64),
    NegInt(i64),
    Float(Seq<char>),
}

pub enum JsonView {
    Null,
    Bool(bool),
    Number(JsonNumberView),
    Str(Seq<char>),
    Array(Seq<JsonView>),
    Object(Seq<(Seq<char>, JsonView)>),
}

impl View for JsonNumber {
    type V = JsonNumberView;

    open spec fn view(&self) -> JsonNumberView {
        match self {
            JsonNumber::PosInt(u) => JsonNumberView::PosInt(*u),
            JsonNumber::NegInt(i) => JsonNumberView::NegInt(*i),
            JsonNumber::Float(t) => JsonNumberView::Float(t@),
        }
    }
}

/// What a document holds.
pub open spec fn json_view(document: Json) -> JsonView
    decreases document,
{
    match document {
        Json::Null => JsonView::Null,
        Json::Bool(b) => JsonView::Bool(b),
        Json::Number(n) => JsonView::Number(n@),
        Json::Str(s) => JsonView::Str(s@),
        Json::Array(items) => JsonView::Array(
            Seq::new(
                items@.len(),
                |i: int|
                    if 0 <= i < items@.len() {
                        json_view(items@[i])
                    } else {
                        JsonView::Null
                    },
            ),
        ),
        Json::Object(members) => JsonView::Object(
            Seq::new(
                members@.len(),
                |i: int|
                    if 0 <= i < members@.len() {
                        (members@[i].0@, json_view(members@[i].1))
                    } else {
                        (Seq::empty(), JsonView::Null)
                    },
            ),
        ),
    }
}

impl View for Json {
    type V = JsonView;

    open spec fn view(&self) -> JsonView {
        json_view(*self)
    }
}

/// The views of the members of an object, in order.
pub open spec fn members_view(members: Seq<(String, Json)>) -> Seq<(Seq<char>, JsonView)> {
    Seq::new(members.len(), |i: int| (members[i].0@, members[i].1@))
}

/// The views of the items of an array, in order.
pub open spec fn items_view(items: Seq<Json>) -> Seq<JsonView> {
    Seq::new(items.len(), |i: int| items[i]@)
}

pub proof fn lemma_object_view(members: Vec<(String, Json)>)
    ensures
        Json::Object(members)@ == JsonView::Object(members_view(members@)),
{
    reveal_with_fuel(json_view, 2);
    assert(Json::Object(members)@->Object_0 =~= members_view(members@));
}

pub proof fn lemma_array_view(items: Vec<Json>)
    ensures
        Json::Array(items)@ == JsonView::Array(items_view(items@)),
{
    reveal_with_fuel(json_view, 2);
    assert(Json::Array(items)@->Array_0 =~= items_view(items@));
}

/// The value of the first member named `key` among `members`.
pub open spec fn lookup(members: Seq<(Seq<char>, JsonView)>, key: Seq<char>) -> Option<JsonView>
    decreases members.len(),
{
    if members.len() == 0 {
        None
    } else if members[0].0 == key {
        Some(members[0].1)
    } else {
        lookup(members.drop_first(), key)
    }
}

impl JsonView {
    /// The member named `key`, if this is an object that has one.
    pub open spec fn member(self, key: Seq<char>) -> Option<JsonView> {
        match self {
            JsonView::Object(members) => lookup(members, key),
            _ => None,
        }
    }

    /// The characters of a string, and nothing for any other document.
    pub open spec fn text(self) -> Option<Seq<char>> {
        match self {
            JsonView::Str(s) => Some(s),
            _ => None,
        }
    }
}

/// `serde_json::Value`, carried through without a look inside.
#[verifier::external_type_specification]
#[verifier::external_body]
pub struct ExValue(Value);

/// The document that a value of `serde_json` holds.
pub uninterp spec fn value_document(value: Value) -> JsonView;

/// The document that `serde_json` reads from a text, where the text is one.
pub uninterp spec fn parsed_document(text: Seq<char>) -> Option<JsonView>;

/// The text that `serde_json` writes for one of its values.
pub uninterp spec fn value_text(value: Value) -> Seq<char>;

/// The text that `serde_json` writes for a document.
pub uninterp spec fn document_text(document: JsonView) -> Seq<char>;

/// The indented text that `serde_json` writes for one of its values.
pub uninterp spec fn value_pretty_text(value: Value) -> Seq<char>;

/// The indented text that `serde_json` writes for a document.
pub uninterp spec fn document_pretty_text(document: JsonView) -> Seq<char>;

/// `serde_json::from_str`, read as a `Value`: the value holds the
/// document that the text denotes, and there is none where the text is not
/// JSON.
#[verifier::external_body]
fn read_value(text: &str) -> (value: Option<Value>)
    ensures
        match value {
            Some(v) => parsed_document(text@) == Some(value_document(v)),
            None => parsed_document(text@) is None,
        },
{
    serde_json::from_str::<Value>(text).ok()
}

/// Moves what a `Value` holds into a `Json`, variant by variant.
/// A number is taken as `as_u64` gives it, else as `as_i64` gives it, else as
/// the text that `to_string` prints.
#[verifier::external_body]
fn document_of(value: Value) -> (document: Json)
    ensures
        document@ == value_document(value),
{
    match value {
        Value::Null => Json::Null,
        Value::Bool(b) => Json::Bool(b),
        Value::Number(n) => Json::Number(
            n.as_u64().map(JsonNumber::PosInt).or(n.as_i64().map(JsonNumber::NegInt))
                .unwrap_or_else(|| JsonNumber::Float(n.to_string())),
        ),
        Value::String(s) => Json::Str(s),
        Value::Array(a) => Json::Array(a.into_iter().map(document_of).collect()),
        Value::Object(o) => Json::Object(
            o.into_iter().map(|(k, v)| (k, document_of(v))).collect(),
        ),
    }
}

/// Builds the `Value` for a document, variant by variant; its
/// text is the text of the document.
#[verifier::external_body]
fn value_of(document: &Json) -> (value: Value)
    ensures
        value_text(value) == document_text(document@),
        value_pretty_text(value) == document_pretty_text(document@),
{
    match document {
        Json::Null => Value::Null,
        Json::Bool(b) => Value::Bool(*b),
        Json::Number(JsonNumber::PosInt(u)) => Value::from(*u),
        Json::Number(JsonNumber::NegInt(i)) => Value::from(*i),
        Json::Number(JsonNumber::Float(t)) => t.parse::<Number>().map(
            Value::Number,
        ).unwrap_or(Value::Null),
        Json::Str(s) => Value::String(s.clone()),
        Json::Array(a) => Value::Array(a.iter().map(value_of).collect()),
        Json::Object(o) => Value::Object(
            o.iter().map(|(k, v)| (k.clone(), value_of(v))).collect(),
        ),
    }
}

/// `to_string` of a `Value`: the compact JSON text of the value.
#[verifier::external_body]
fn write_value(value: &Value) -> (text: String)
    ensures
        text@ == value_text(*value),
{
    value.to_string()
}

/// `serde_json::to_string_pretty` of a `serde_json::Value`: the JSON text of
/// the value, indented.
#[verifier::external_body]
fn write_value_pretty(value: &Value) -> (text: String)
    ensures
        text@ == value_pretty_text(*value),
{
    serde_json::to_string_pretty(value).unwrap_or_default()
}

/// Reads a JSON text.
pub fn parse_json(text: &str) -> (document: Option<Json>)
    ensures
        match document {
            Some(d) => parsed_document(text@) == Some(d@),
            None => parsed_document(text@) is None,
        },
{
    match read_value(text) {
        Some(value) => Some(document_of(value)),
        None => None,
    }
}

/// The array of the given texts.
pub open spec fn text_array(texts: Seq<Seq<char>>) -> JsonView {
    JsonView::Array(Seq::new(texts.len(), |i: int| JsonView::Str(texts[i])))
}

impl JsonView {
    /// A whole number as a document.
    pub open spec fn integer(n: int) -> JsonView {
        if n >= 0 {
            JsonView::Number(JsonNumberView::PosInt(n as u64))
        } else {
            JsonView::Number(JsonNumberView::NegInt(n as i64))
        }
    }
}

impl Json {
    /// The document that is the given text.
    pub fn text(value: &str) -> (document: Json)
        ensures
            document@ == JsonView::Str(value@),
    {
        Json::Str(value.to_owned())
    }

    /// The document that is the given number.
    pub fn unsigned(n: u64) -> (document: Json)
        ensures
            document@ == JsonView::integer(n as int),
    {
        Json::Number(JsonNumber::PosInt(n))
    }

    /// The document that is the given number.
    pub fn integer(n: i64) -> (document: Json)
        ensures
            document@ == JsonView::integer(n as int),
    {
        if n >= 0 {
            Json::Number(JsonNumber::PosInt(n as u64))
        } else {
            Json::Number(JsonNumber::NegInt(n))
        }
    }

    /// The array of the given texts.
    pub fn texts(values: &Vec<String>) -> (document: Json)
        ensures
            document@ == text_array(texts_view(values@)),
    {
        let mut items: Vec<Json> = Vec::new();
        let mut i: usize = 0;
        while i < values.len()
            invariant
                i <= values.len(),
                items@.len() == i,
                forall|k: int| 0 <= k < i ==> (#[trigger] items@[k])@ == JsonView::Str(values@[k]@),
            decreases values.len() - i,
        {
            items.push(Json::Str(values[i].clone()));
            i = i + 1;
        }
        proof {
            lemma_array_view(items);
            assert(items_view(items@) =~= text_array(texts_view(values@))->Array_0);
        }
        Json::Array(items)
    }

    /// The member named `key`, if this is an object that has one. Of several
    /// members with one name the first is found.
    pub fn get(&self, key: &str) -> (found: Option<&Json>)
        ensures
            match found {
                Some(value) => self@.member(key@) == Some(value@),
                None => self@.member(key@) is None,
            },
    {
        match self {
            Json::Object(members) => {
                proof {
                    lemma_object_view(*members);
                    assert(members_view(members@).skip(0) =~= members_view(members@));
                }
                let mut i: usize = 0;
                while i < members.len()
                    invariant
                        i <= members.len(),
                        self@ == JsonView::Object(members_view(members@)),
                        lookup(members_view(members@), key@) == lookup(
                            members_view(members@).skip(i as int),
                            key@,
                        ),
                    decreases members.len() - i,
                {
                    let ghost rest = members_view(members@).skip(i as int);
                    assert(rest[0] == members_view(members@)[i as int]);
                    assert(rest.drop_first() =~= members_view(members@).skip(i + 1));
                    if str_eq(members[i].0.as_str(), key) {
                        return Some(&members[i].1);
                    }
                    i = i + 1;
                }
                None
            },
            _ => None,
        }
    }

    /// The characters of a string, and nothing for any other document.
    pub fn as_str(&self) -> (text: Option<&str>)
        ensures
            match text {
                Some(t) => self@.text() == Some(t@),
                None => self@.text() is None,
            },
    {
        match self {
            Json::Str(s) => Some(s.as_str()),
            _ => None,
        }
    }

    /// Copies of the members of an object, in order.
    pub fn duplicate_members(members: &Vec<(String, Json)>) -> (copies: Vec<(String, Json)>)
        ensures
            members_view(copies@) == members_view(members@),
    {
        let mut copies: Vec<(String, Json)> = Vec::new();
        let mut i: usize = 0;
        while i < members.len()
            invariant
                i <= members.len(),
                copies@.len() == i,
                forall|k: int|
                    0 <= k < i ==> (#[trigger] copies@[k]).0@ == members@[k].0@ && copies@[k].1@
                        == members@[k].1@,
            decreases members.len() - i,
        {
            copies.push((members[i].0.clone(), members[i].1.duplicate()));
            i = i + 1;
        }
        assert(members_view(copies@) =~= members_view(members@));
        copies
    }

    /// A copy that holds the same document.
    pub fn duplicate(&self) -> (copy: Json)
        ensures
            copy@ == self@,
        decreases self,
    {
        match self {
            Json::Null => Json::Null,
            Json::Bool(b) => Json::Bool(*b),
            Json::Number(JsonNumber::PosInt(u)) => Json::Number(JsonNumber::PosInt(*u)),
            Json::Number(JsonNumber::NegInt(i)) => Json::Number(JsonNumber::NegInt(*i)),
            Json::Number(JsonNumber::Float(t)) => Json::Number(JsonNumber::Float(t.clone())),
            Json::Str(s) => Json::Str(s.clone()),
            Json::Array(items) => {
                let mut copies: Vec<Json> = Vec::new();
                let mut i: usize = 0;
                while i < items.len()
                    invariant
                        i <= items.len(),
                        copies@.len() == i,
                        *self == Json::Array(*items),
                        forall|k: int| 0 <= k < i ==> (#[trigger] copies@[k])@ == items@[k]@,
                    decreases items.len() - i,
                {
                    assert(decreases_to!(*self => self->Array_0));
                    assert(decreases_to!(items => items@));
                    assert(decreases_to!(items@ => items@[i as int]));
                    copies.push(items[i].duplicate());
                    i = i + 1;
                }
                proof {
                    lemma_array_view(*items);
                    lemma_array_view(copies);
                    assert(items_view(items@) =~= items_view(copies@));
                }
                Json::Array(copies)
            },
            Json::Object(members) => {
                let mut copies: Vec<(String, Json)> = Vec::new();
                let mut i: usize = 0;
                while i < members.len()
                    invariant
                        i <= members.len(),
                        copies@.len() == i,
                        *self == Json::Object(*members),
                        forall|k: int|
                            0 <= k < i ==> (#[trigger] copies@[k]).0@ == members@[k].0@
                                && copies@[k].1@ == members@[k].1@,
                    decreases members.len() - i,
                {
                    assert(decreases_to!(*self => self->Object_0));
                    assert(decreases_to!(members => members@));
                    assert(decreases_to!(members@ => members@[i as int]));
                    assert(decreases_to!(members@[i as int] => members@[i as int].1));
                    copies.push((members[i].0.clone(), members[i].1.duplicate()));
                    i = i + 1;
                }
                proof {
                    lemma_object_view(*members);
                    lemma_object_view(copies);
                    assert(members_view(members@) =~= members_view(copies@));
                }
                Json::Object(copies)
            },
        }
    }

    /// Writes the document as indented JSON text.
    pub fn to_pretty_text(&self) -> (text: String)
        ensures
            text@ == document_pretty_text(self@),
    {
        let value = value_of(self);
        write_value_pretty(&value)
    }

    /// Writes the document as compact JSON text.
    pub fn to_text(&self) -> (text: String)
        ensures
            text@ == document_text(self@),
    {
        let value = value_of(self);
        write_value(&value)
    }
}

/// A map from names to documents. No name occurs twice in it; the members
/// stay in the order in which their names came in.
#[derive(Debug)]
pub struct JsonMap {
    entries: Vec<(String, Json)>,
}

/// Whether no name occurs twice among the members.
pub open spec fn distinct_names(members: Seq<(Seq<char>, JsonView)>) -> bool {
    forall|i: int, j: int|
        0 <= i < j < members.len() ==> (#[trigger] members[i]).0 != (#[trigger] members[j]).0
}

/// The position of the member named `key`, if there is one.
pub open spec fn position_of(members: Seq<(Seq<char>, JsonView)>, key: Seq<char>) -> Option<int>
    decreases members.len(),
{
    if members.len() == 0 {
        None
    } else if members.last().0 == key {
        Some(members.len() - 1)
    } else {
        position_of(members.drop_last(), key)
    }
}

/// The members with `value` under the name `key`: in the place of the member
/// of that name where there is one, and behind the others where there is
/// none.
pub open spec fn with_member(
    members: Seq<(Seq<char>, JsonView)>,
    key: Seq<char>,
    value: JsonView,
) -> Seq<(Seq<char>, JsonView)> {
    match position_of(members, key) {
        Some(at) => members.update(at, (key, value)),
        None => members.push((key, value)),
    }
}

/// The map that the members make when they are put into it one after the
/// other: of two members with one name the later one stays.
pub open spec fn collected(members: Seq<(Seq<char>, JsonView)>) -> Seq<(Seq<char>, JsonView)>
    decreases members.len(),
{
    if members.len() == 0 {
        Seq::empty()
    } else {
        with_member(collected(members.drop_last()), members.last().0, members.last().1)
    }
}

proof fn lemma_position_of(members: Seq<(Seq<char>, JsonView)>, key: Seq<char>)
    ensures
        match position_of(members, key) {
            Some(at) => 0 <= at < members.len() && members[at].0 == key,
            None => forall|i: int| 0 <= i < members.len() ==> (#[trigger] members[i]).0 != key,
        },
    decreases members.len(),
{
    if members.len() > 0 && members.last().0 != key {
        lemma_position_of(members.drop_last(), key);
        assert forall|i: int| 0 <= i < members.len() && position_of(members, key)
            is None implies (#[trigger] members[i]).0 != key by {
            if i < members.len() - 1 {
                assert(members.drop_last()[i] == members[i]);
            }
        }
    }
}

/// A member that is put into a map leaves no name in it twice.
pub proof fn lemma_with_member_is_distinct(
    members: Seq<(Seq<char>, JsonView)>,
    key: Seq<char>,
    value: JsonView,
)
    requires
        distinct_names(members),
    ensures
        distinct_names(with_member(members, key, value)),
{
    lemma_position_of(members, key);
}

impl View for JsonMap {
    type V = Seq<(Seq<char>, JsonView)>;

    closed spec fn view(&self) -> Seq<(Seq<char>, JsonView)> {
        members_view(self.entries@)
    }
}

impl JsonMap {
    #[verifier::type_invariant]
    spec fn no_name_twice(self) -> bool {
        distinct_names(members_view(self.entries@))
    }

    /// The map without members.
    pub fn new() -> (map: JsonMap)
        ensures
            map@.len() == 0,
    {
        JsonMap { entries: Vec::new() }
    }

    /// The number of members.
    pub fn len(&self) -> (count: usize)
        ensures
            count == self@.len(),
    {
        self.entries.len()
    }

    /// The members, in order. No name occurs twice among them.
    pub fn entries(&self) -> (members: &Vec<(String, Json)>)
        ensures
            members_view(members@) == self@,
            distinct_names(self@),
    {
        proof {
            use_type_invariant(self);
        }
        &self.entries
    }

    /// The map with `value` under the name `key`: in the place of the member
    /// of that name where there is one, and behind the others where there is
    /// none.
    pub fn insert(self, key: String, value: Json) -> (map: JsonMap)
        ensures
            map@ == with_member(self@, key@, value@),
    {
        proof {
            use_type_invariant(&self);
            lemma_position_of(self@, key@);
        }
        let ghost before = self@;
        let mut entries = self.entries;
        let mut i: usize = 0;
        while i < entries.len()
            invariant
                i <= entries.len(),
                distinct_names(before),
                forall|k: int| 0 <= k < i ==> (#[trigger] before[k]).0 != key@,
                before == self@,
                before == members_view(entries@),
            decreases entries.len() - i,
        {
            if crate::strings::str_eq(entries[i].0.as_str(), key.as_str()) {
                proof {
                    assert(before[i as int].0 == key@);
                    lemma_position_of(before, key@);
                    let at = position_of(before, key@)->Some_0;
                    if at > i {
                        assert(before[i as int].0 != before[at].0);
                    }
                    assert(position_of(before, key@) == Some(i as int));
                }
                entries.set(i, (key, value));
                proof {
                    assert(members_view(entries@) =~= before.update(i as int, (key@, value@)));
                    lemma_with_member_is_distinct(before, key@, value@);
                }
                return JsonMap { entries };
            }
            i = i + 1;
        }
        proof {
            lemma_position_of(before, key@);
            assert(position_of(before, key@) is None);
            lemma_with_member_is_distinct(before, key@, value@);
        }
        entries.push((key, value));
        proof {
            assert(members_view(entries@) =~= before.push((key@, value@)));
        }
        JsonMap { entries }
    }

    /// The map that the members make when they are put into it one after the
    /// other: of two members with one name the later one stays.
    pub fn from_members(members: &Vec<(String, Json)>) -> (map: JsonMap)
        ensures
            map@ == collected(members_view(members@)),
    {
        let mut map = JsonMap::new();
        let mut i: usize = 0;
        assert(members_view(members@).take(0) =~= Seq::empty());
        assert(map@ =~= collected(members_view(members@).take(0)));
        while i < members.len()
            invariant
                i <= members.len(),
                map@ == collected(members_view(members@).take(i as int)),
            decreases members.len() - i,
        {
            let ghost longer = members_view(members@).take(i + 1);
            assert(longer.drop_last() =~= members_view(members@).take(i as int));
            assert(longer.last() == (members@[i as int].0@, members@[i as int].1@));
            map = map.insert(members[i].0.clone(), members[i].1.duplicate());
            i = i + 1;
        }
        assert(members_view(members@).take(members@.len() as int) =~= members_view(members@));
        map
    }

    /// The object that holds the members of the map.
    pub fn to_json(&self) -> (document: Json)
        ensures
            document@ == JsonView::Object(self@),
    {
        let members = Json::duplicate_members(&self.entries);
        proof {
            lemma_object_view(members);
        }
        Json::Object(members)
    }
}

} // verus!
