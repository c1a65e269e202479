//! A JSON document as plain data: what a frame's payload holds, and what the
//! builders of outgoing payloads put together.

use crate::text::{decimal, parse_u64, parsed_u64, str_eq, u64_to_string};
use vstd::prelude::*;
use vstd::string::StringExecFns;

verus! {

/// A JSON document held as plain data.
///
/// A number keeps the text that stands for it, so that every number a
/// document can hold is carried without loss. An object keeps its members in
/// the order in which they were written; of two members with one key the
/// later one counts.
#[derive(Debug)]
pub enum Json {
    Null,
    Bool(bool),
    Number(String),
    Text(String),
    Array(Vec<Json>),
    Object(Vec<(String, Json)>),
}

/// The mathematical value of a [`Json`] document.
pub enum JsonValue {
    Null,
    Bool(bool),
    Number(Seq<char>),
    Text(Seq<char>),
    Array(Seq<JsonValue>),
    Object(Seq<(Seq<char>, JsonValue)>),
}

/// The value of a document, found variant by variant.
pub open spec fn value_of(json: Json) -> JsonValue
    decreases json,
{
    match json {
        Json::Null => JsonValue::Null,
        Json::Bool(b) => JsonValue::Bool(b),
        Json::Number(n) => JsonValue::Number(n@),
        Json::Text(s) => JsonValue::Text(s@),
        Json::Array(items) => JsonValue::Array(
            Seq::new(
                items.len() as nat,
                |i: int|
                    if 0 <= i < items.len() {
                        value_of(items[i])
                    } else {
                        JsonValue::Null
                    },
            ),
        ),
        Json::Object(members) => JsonValue::Object(
            Seq::new(
                members.len() as nat,
                |i: int|
                    if 0 <= i < members.len() {
                        (members[i].0@, value_of(members[i].1))
                    } else {
                        (Seq::empty(), JsonValue::Null)
                    },
            ),
        ),
    }
}

impl View for Json {
    type V = JsonValue;

    open spec fn view(&self) -> JsonValue {
        value_of(*self)
    }
}

impl Clone for Json {
    fn clone(&self) -> (r: Self)
        ensures
            r@ == self@,
    {
        self.duplicate()
    }
}

/// The values of a run of documents.
pub open spec fn items_view(items: Seq<Json>) -> Seq<JsonValue> {
    items.map_values(|item: Json| item@)
}

/// The values of the members of an object.
pub open spec fn members_view(members: Seq<(String, Json)>) -> Seq<(Seq<char>, JsonValue)> {
    members.map_values(|member: (String, Json)| (member.0@, member.1@))
}

/// Where the member with the given key stands: of several, the last.
pub open spec fn member_index(members: Seq<(Seq<char>, JsonValue)>, key: Seq<char>) -> Option<int>
    decreases members.len(),
{
    if members.len() == 0 {
        None
    } else if members.last().0 == key {
        Some(members.len() - 1)
    } else {
        member_index(members.drop_last(), key)
    }
}

/// The value of the member with the given key: of several, the last.
pub open spec fn member_lookup(members: Seq<(Seq<char>, JsonValue)>, key: Seq<char>) -> Option<
    JsonValue,
> {
    match member_index(members, key) {
        Some(i) => Some(members[i].1),
        None => None,
    }
}

/// The members after the given key has been set: the last member with that
/// key gets the new value in its place, and where there is none, a new
/// member is added at the end.
pub open spec fn member_insert(
    members: Seq<(Seq<char>, JsonValue)>,
    key: Seq<char>,
    value: JsonValue,
) -> Seq<(Seq<char>, JsonValue)> {
    match member_index(members, key) {
        Some(i) => members.update(i, (key, value)),
        None => members.push((key, value)),
    }
}

impl JsonValue {
    /// The member of an object with the given key; `None` for a missing key
    /// and for every document that is no object.
    pub open spec fn get(self, key: Seq<char>) -> Option<JsonValue> {
        match self {
            JsonValue::Object(members) => member_lookup(members, key),
            _ => None,
        }
    }

    /// The object with one member added at the end.
    pub open spec fn with(self, key: Seq<char>, value: JsonValue) -> JsonValue {
        match self {
            JsonValue::Object(members) => JsonValue::Object(members.push((key, value))),
            _ => self,
        }
    }

    /// The object with one member set.
    pub open spec fn set(self, key: Seq<char>, value: JsonValue) -> JsonValue {
        match self {
            JsonValue::Object(members) => JsonValue::Object(member_insert(members, key, value)),
            _ => self,
        }
    }

    /// The number as an unsigned integer, where the document is a number
    /// whose text reads as one.
    pub open spec fn as_u64(self) -> Option<u64> {
        match self {
            JsonValue::Number(digits) => parsed_u64(digits),
            _ => None,
        }
    }

    /// The truth value, where the document is one.
    pub open spec fn as_bool(self) -> Option<bool> {
        match self {
            JsonValue::Bool(b) => Some(b),
            _ => None,
        }
    }

    /// The characters, where the document is a text.
    pub open spec fn as_text(self) -> Option<Seq<char>> {
        match self {
            JsonValue::Text(s) => Some(s),
            _ => None,
        }
    }

    /// The items, where the document is an array.
    pub open spec fn as_array(self) -> Option<Seq<JsonValue>> {
        match self {
            JsonValue::Array(items) => Some(items),
            _ => None,
        }
    }

    /// The number of an unsigned integer.
    pub open spec fn number(n: nat) -> JsonValue {
        JsonValue::Number(decimal(n))
    }

    /// The number where there is one, `null` where there is none.
    pub open spec fn number_or_null(n: Option<u64>) -> JsonValue {
        match n {
            Some(n) => JsonValue::number(n as nat),
            None => JsonValue::Null,
        }
    }

    /// The number that a text stands for where there is one, `null` where
    /// there is none.
    pub open spec fn number_text_or_null(digits: Option<Seq<char>>) -> JsonValue {
        match digits {
            Some(digits) => JsonValue::Number(digits),
            None => JsonValue::Null,
        }
    }

    /// The text where there is one, `null` where there is none.
    pub open spec fn text_or_null(s: Option<Seq<char>>) -> JsonValue {
        match s {
            Some(s) => JsonValue::Text(s),
            None => JsonValue::Null,
        }
    }
}

/// What [`member_index`] finds: the last place at which the key stands.
pub proof fn lemma_member_index(members: Seq<(Seq<char>, JsonValue)>, key: Seq<char>)
    ensures
        match member_index(members, key) {
            Some(i) => {
                &&& 0 <= i < members.len()
                &&& members[i].0 == key
                &&& forall|j: int| i < j < members.len() ==> (#[trigger] members[j]).0 != key
            },
            None => forall|j: int| 0 <= j < members.len() ==> (#[trigger] members[j]).0 != key,
        },
    decreases members.len(),
{
    if members.len() > 0 && members.last().0 != key {
        let front = members.drop_last();
        lemma_member_index(front, key);
        assert forall|j: int| 0 <= j < front.len() implies front[j] == members[j] by {}
        match member_index(front, key) {
            Some(i) => {
                assert forall|j: int| i < j < members.len() implies (#[trigger] members[j]).0
                    != key by {
                    if j < front.len() {
                        assert(front[j] == members[j]);
                    }
                }
            },
            None => {
                assert forall|j: int| 0 <= j < members.len() implies (#[trigger] members[j]).0
                    != key by {
                    if j < front.len() {
                        assert(front[j] == members[j]);
                    }
                }
            },
        }
    }
}

/// The last place at which a key stands is what [`member_index`] finds.
pub proof fn lemma_member_index_found(
    members: Seq<(Seq<char>, JsonValue)>,
    key: Seq<char>,
    at: int,
)
    requires
        0 <= at < members.len(),
        members[at].0 == key,
        forall|j: int| at < j < members.len() ==> (#[trigger] members[j]).0 != key,
    ensures
        member_index(members, key) == Some(at),
    decreases members.len(),
{
    if members.last().0 != key {
        lemma_member_index_found(members.drop_last(), key, at);
    }
}

/// Setting a key makes a lookup of that key give the new value.
pub proof fn lemma_insert_then_lookup(
    members: Seq<(Seq<char>, JsonValue)>,
    key: Seq<char>,
    value: JsonValue,
)
    ensures
        member_lookup(member_insert(members, key, value), key) == Some(value),
{
    lemma_member_index(members, key);
    let after = member_insert(members, key, value);
    match member_index(members, key) {
        Some(i) => lemma_member_index_found(after, key, i),
        None => lemma_member_index_found(after, key, members.len() as int),
    }
}

/// Setting a key leaves the lookup of every other key as it was.
pub proof fn lemma_insert_keeps_others(
    members: Seq<(Seq<char>, JsonValue)>,
    key: Seq<char>,
    value: JsonValue,
    other: Seq<char>,
)
    requires
        other != key,
    ensures
        member_lookup(member_insert(members, key, value), other) == member_lookup(members, other),
{
    lemma_member_index(members, key);
    lemma_member_index(members, other);
    let after = member_insert(members, key, value);
    match member_index(members, other) {
        Some(i) => lemma_member_index_found(after, other, i),
        None => lemma_member_index(after, other),
    }
}


/// `serde_json::Value`, the document as the parser builds it. It is turned
/// into a [`Json`] as soon as it arrives.
#[verifier::external_type_specification]
#[verifier::external_body]
pub struct ExValue(serde_json::Value);

/// The document that `serde_json::from_str` reads from a text, or `None`
/// where it refuses the text.
pub uninterp spec fn json_parsed(text: Seq<char>) -> Option<JsonValue>;

/// The document that `serde_json::from_slice` reads from bytes, or `None`
/// where it refuses them.
pub uninterp spec fn json_parsed_bytes(bytes: Seq<u8>) -> Option<JsonValue>;

/// The text that `serde_json::to_string` writes for a document, or `None`
/// where it fails.
pub uninterp spec fn json_printed(value: JsonValue) -> Option<Seq<char>>;

/// Turns a parsed document into plain data, variant by variant; a number
/// becomes the text that `Display` of `serde_json::Number` writes for it.
#[verifier::external_body]
fn json_from_value(value: serde_json::Value) -> Json {
    match value {
        serde_json::Value::Null => Json::Null,
        serde_json::Value::Bool(b) => Json::Bool(b),
        serde_json::Value::Number(n) => Json::Number(n.to_string()),
        serde_json::Value::String(s) => Json::Text(s),
        serde_json::Value::Array(a) => Json::Array(a.into_iter().map(json_from_value).collect()),
        serde_json::Value::Object(o) => Json::Object(
            o.into_iter().map(|(k, v)| (k, json_from_value(v))).collect(),
        ),
    }
}

/// Turns plain data into the document that the printer takes, variant by
/// variant; a number is read by `FromStr` of `serde_json::Number`, and one
/// that it refuses becomes `null`.
#[verifier::external_body]
fn json_to_value(json: &Json) -> serde_json::Value {
    match json {
        Json::Null => serde_json::Value::Null,
        Json::Bool(b) => serde_json::Value::Bool(*b),
        Json::Number(n) => n.parse().map_or(serde_json::Value::Null, serde_json::Value::Number),
        Json::Text(s) => serde_json::Value::String(s.clone()),
        Json::Array(a) => serde_json::Value::Array(a.iter().map(json_to_value).collect()),
        Json::Object(o) => serde_json::Value::Object(
            o.iter().map(|(k, v)| (k.clone(), json_to_value(v))).collect(),
        ),
    }
}

/// Reads a text as JSON.
///
/// Wraps `serde_json::from_str` at `serde_json::Value`: the result is the
/// document that it reads, `None` where it refuses the text.
#[verifier::external_body]
fn read_text(text: &str) -> (r: Option<Json>)
    ensures
        match r {
            Some(json) => json_parsed(text@) == Some(json@),
            None => json_parsed(text@) is None,
        },
{
    serde_json::from_str::<serde_json::Value>(text).ok().map(json_from_value)
}

/// Reads bytes as JSON.
///
/// Wraps `serde_json::from_slice` at `serde_json::Value`: the result is the
/// document that it reads, `None` where it refuses the bytes.
#[verifier::external_body]
fn read_bytes(bytes: &[u8]) -> (r: Option<Json>)
    ensures
        match r {
            Some(json) => json_parsed_bytes(bytes@) == Some(json@),
            None => json_parsed_bytes(bytes@) is None,
        },
{
    serde_json::from_slice::<serde_json::Value>(bytes).ok().map(json_from_value)
}

/// Writes a document as compact JSON text.
///
/// Wraps `serde_json::to_string` on a `serde_json::Value`: the result is
/// the text that it writes, `None` where it fails.
#[verifier::external_body]
fn write_text(json: &Json) -> (r: Option<String>)
    ensures
        match r {
            Some(text) => json_printed(json@) == Some(text@),
            None => json_printed(json@) is None,
        },
{
    serde_json::to_string(&json_to_value(json)).ok()
}

impl Json {
    /// The number of an unsigned integer.
    pub fn number(n: u64) -> (r: Json)
        ensures
            r@ == JsonValue::number(n as nat),
    {
        Json::Number(u64_to_string(n))
    }

    /// A text.
    pub fn text(s: &str) -> (r: Json)
        ensures
            r@ == JsonValue::Text(s@),
    {
        Json::Text(String::from_str(s))
    }

    /// An object without members.
    pub fn object() -> (r: Json)
        ensures
            r@ == JsonValue::Object(Seq::empty()),
    {
        let r = Json::Object(Vec::new());
        assert(r@->Object_0 =~= Seq::empty());
        r
    }

    /// An array without items.
    pub fn array() -> (r: Json)
        ensures
            r@ == JsonValue::Array(Seq::empty()),
    {
        let r = Json::Array(Vec::new());
        assert(r@->Array_0 =~= Seq::empty());
        r
    }

    /// Whether the document is `null`.
    pub fn is_null(&self) -> (r: bool)
        ensures
            r == (self@ is Null),
    {
        match self {
            Json::Null => true,
            _ => false,
        }
    }

    /// The truth value, where the document is one.
    pub fn as_bool(&self) -> (r: Option<bool>)
        ensures
            r == self@.as_bool(),
    {
        match self {
            Json::Bool(b) => Some(*b),
            _ => None,
        }
    }

    /// The number as an unsigned integer: `Some` where the document is a
    /// number whose text is a run of decimal digits, which one `+` may
    /// precede, and the number fits in 64 bits.
    pub fn as_u64(&self) -> (r: Option<u64>)
        ensures
            r == self@.as_u64(),
    {
        match self {
            Json::Number(digits) => parse_u64(digits.as_str()),
            _ => None,
        }
    }

    /// The characters, where the document is a text.
    pub fn as_str(&self) -> (r: Option<&str>)
        ensures
            match r {
                Some(s) => self@.as_text() == Some(s@),
                None => self@.as_text() is None,
            },
    {
        match self {
            Json::Text(s) => Some(s.as_str()),
            _ => None,
        }
    }

    /// The items, where the document is an array.
    pub fn as_array(&self) -> (r: Option<&Vec<Json>>)
        ensures
            match r {
                Some(items) => self@.as_array() == Some(items_view(items@)),
                None => self@.as_array() is None,
            },
    {
        match self {
            Json::Array(items) => {
                assert(self@->Array_0 =~= items_view(items@));
                Some(items)
            },
            _ => None,
        }
    }

    /// The member of an object with the given key: of several such members
    /// the last one, `None` where there is none or the document is no object.
    pub fn get(&self, key: &str) -> (r: Option<&Json>)
        ensures
            match r {
                Some(json) => self@.get(key@) == Some(json@),
                None => self@.get(key@) is None,
            },
    {
        match self {
            Json::Object(members) => {
                let ghost all = self@->Object_0;
                assert(all =~= members_view(members@));
                let mut i: usize = members.len();
                while i > 0
                    invariant
                        0 <= i <= members.len(),
                        self@ == JsonValue::Object(all),
                        all.len() == members.len(),
                        forall|j: int|
                            0 <= j < members.len() ==> all[j] == (
                                (#[trigger] members[j]).0@,
                                members[j].1@,
                            ),
                        forall|j: int| i <= j < all.len() ==> (#[trigger] all[j]).0 != key@,
                    decreases i,
                {
                    i -= 1;
                    if str_eq(members[i].0.as_str(), key) {
                        proof {
                            lemma_member_index_found(all, key@, i as int);
                            assert(all[i as int].1 == members[i as int].1@);
                        }
                        return Some(&members[i].1);
                    }
                }
                proof {
                    lemma_member_index(all, key@);
                }
                None
            },
            _ => None,
        }
    }

    /// The object with one member set: the last member with that key gets
    /// the new value in its place, and where there is none, a new member is
    /// added at the end.
    pub fn set(self, key: &str, value: Json) -> (r: Json)
        requires
            self@ is Object,
        ensures
            r@ == self@.set(key@, value@),
    {
        let mut r = self;
        r.put(key, value);
        r
    }

    /// The object with one member added at the end, whatever keys it holds
    /// already.
    pub fn with(self, key: &str, value: Json) -> (r: Json)
        requires
            self@ is Object,
        ensures
            r@ == self@.with(key@, value@),
    {
        match self {
            Json::Object(mut members) => {
                let ghost before = members_view(members@);
                assert(self@->Object_0 =~= before);
                members.push((String::from_str(key), value));
                let r = Json::Object(members);
                assert(r@->Object_0 =~= before.push((key@, value@)));
                r
            },
            other => other,
        }
    }

    /// The array with one item added at the end.
    pub fn push(self, item: Json) -> (r: Json)
        requires
            self@ is Array,
        ensures
            r@ == JsonValue::Array(self@->Array_0.push(item@)),
    {
        match self {
            Json::Array(mut items) => {
                let ghost before = items_view(items@);
                assert(self@->Array_0 =~= before);
                items.push(item);
                let r = Json::Array(items);
                assert(r@->Array_0 =~= before.push(item@));
                r
            },
            other => other,
        }
    }

    /// A copy of the document.
    pub fn duplicate(&self) -> (r: Json)
        ensures
            r@ == self@,
        decreases self,
    {
        match self {
            Json::Null => Json::Null,
            Json::Bool(b) => Json::Bool(*b),
            Json::Number(n) => Json::Number(n.clone()),
            Json::Text(s) => Json::Text(s.clone()),
            Json::Array(items) => {
                let mut out: Vec<Json> = Vec::new();
                let mut i: usize = 0;
                while i < items.len()
                    invariant
                        i <= items.len(),
                        out.len() == i,
                        decreases_to!(*self => *items),
                        forall|j: int| 0 <= j < i ==> (#[trigger] out[j])@ == items[j]@,
                    decreases items.len() - i,
                {
                    assert(decreases_to!(*items => items[i as int]));
                    out.push(items[i].duplicate());
                    i += 1;
                }
                let r = Json::Array(out);
                assert(r@->Array_0 =~= self@->Array_0);
                r
            },
            Json::Object(members) => {
                let mut out: Vec<(String, Json)> = Vec::new();
                let mut i: usize = 0;
                while i < members.len()
                    invariant
                        i <= members.len(),
                        out.len() == i,
                        decreases_to!(*self => *members),
                        forall|j: int|
                            0 <= j < i ==> (#[trigger] out[j]).0@ == members[j].0@ && out[j].1@
                                == members[j].1@,
                    decreases members.len() - i,
                {
                    assert(decreases_to!(*members => members[i as int]));
                    out.push((members[i].0.clone(), members[i].1.duplicate()));
                    i += 1;
                }
                let r = Json::Object(out);
                assert(r@->Object_0 =~= self@->Object_0);
                r
            },
        }
    }

    /// Reads a text as JSON: the document that `serde_json` reads from it,
    /// `None` where it refuses the text.
    pub fn parse(text: &str) -> (r: Option<Json>)
        ensures
            match r {
                Some(json) => json_parsed(text@) == Some(json@),
                None => json_parsed(text@) is None,
            },
    {
        read_text(text)
    }

    /// Reads bytes as JSON: the document that `serde_json` reads from them,
    /// `None` where it refuses the bytes.
    pub fn parse_bytes(bytes: &[u8]) -> (r: Option<Json>)
        ensures
            match r {
                Some(json) => json_parsed_bytes(bytes@) == Some(json@),
                None => json_parsed_bytes(bytes@) is None,
            },
    {
        read_bytes(bytes)
    }

    /// Writes the document as compact JSON text: the text that `serde_json`
    /// writes for it, `None` where it fails.
    pub fn to_text(&self) -> (r: Option<String>)
        ensures
            match r {
                Some(text) => json_printed(self@) == Some(text@),
                None => json_printed(self@) is None,
            },
    {
        write_text(self)
    }
}

/// What has a place in a JSON document: a record of the data model, or one
/// of the plain values that its fields hold.
pub trait ToJson {
    /// The document that stands for the value on the wire.
    spec fn json_of(&self) -> JsonValue;

    /// Writes the value as the document that stands for it on the wire.
    fn to_json(&self) -> (r: Json)
        ensures
            r@ == self.json_of(),
    ;
}

impl ToJson for Json {
    open spec fn json_of(&self) -> JsonValue {
        self@
    }

    fn to_json(&self) -> (r: Json) {
        self.duplicate()
    }
}

impl ToJson for bool {
    open spec fn json_of(&self) -> JsonValue {
        JsonValue::Bool(*self)
    }

    fn to_json(&self) -> (r: Json) {
        Json::Bool(*self)
    }
}

impl ToJson for u8 {
    open spec fn json_of(&self) -> JsonValue {
        JsonValue::number(*self as nat)
    }

    fn to_json(&self) -> (r: Json) {
        Json::number(*self as u64)
    }
}

impl ToJson for u16 {
    open spec fn json_of(&self) -> JsonValue {
        JsonValue::number(*self as nat)
    }

    fn to_json(&self) -> (r: Json) {
        Json::number(*self as u64)
    }
}

impl ToJson for u32 {
    open spec fn json_of(&self) -> JsonValue {
        JsonValue::number(*self as nat)
    }

    fn to_json(&self) -> (r: Json) {
        Json::number(*self as u64)
    }
}

impl ToJson for u64 {
    open spec fn json_of(&self) -> JsonValue {
        JsonValue::number(*self as nat)
    }

    fn to_json(&self) -> (r: Json) {
        Json::number(*self)
    }
}

impl ToJson for usize {
    open spec fn json_of(&self) -> JsonValue {
        JsonValue::number(*self as nat)
    }

    fn to_json(&self) -> (r: Json) {
        Json::number(*self as u64)
    }
}

impl ToJson for String {
    open spec fn json_of(&self) -> JsonValue {
        JsonValue::Text(self@)
    }

    fn to_json(&self) -> (r: Json) {
        Json::Text(self.clone())
    }
}

impl<T: ToJson> ToJson for Option<T> {
    open spec fn json_of(&self) -> JsonValue {
        match self {
            Some(value) => value.json_of(),
            None => JsonValue::Null,
        }
    }

    fn to_json(&self) -> (r: Json) {
        match self {
            Some(value) => value.to_json(),
            None => Json::Null,
        }
    }
}

impl<T: ToJson> ToJson for Vec<T> {
    open spec fn json_of(&self) -> JsonValue {
        JsonValue::Array(self@.map_values(|item: T| item.json_of()))
    }

    fn to_json(&self) -> (r: Json) {
        let mut items: Vec<Json> = Vec::new();
        let mut i: usize = 0;
        while i < self.len()
            invariant
                i <= self.len(),
                items.len() == i,
                forall|j: int| 0 <= j < i ==> (#[trigger] items[j])@ == self[j].json_of(),
            decreases self.len() - i,
        {
            items.push(self[i].to_json());
            i += 1;
        }
        let r = Json::Array(items);
        assert(r@->Array_0 =~= self@.map_values(|item: T| item.json_of()));
        r
    }
}

impl JsonValue {
    /// The items of the member with the given key where that is an array,
    /// and no items where it is anything else or missing.
    pub open spec fn items_at(self, key: Seq<char>) -> Seq<JsonValue> {
        match self.get(key) {
            Some(JsonValue::Array(items)) => items,
            _ => Seq::empty(),
        }
    }
}

impl Json {
    /// Copies of the items of the member with the given key where that is
    /// an array, and no items where it is anything else or missing.
    pub fn items_at(&self, key: &str) -> (r: Vec<Json>)
        ensures
            items_view(r@) == self@.items_at(key@),
    {
        let mut out: Vec<Json> = Vec::new();
        match self.get(key) {
            Some(member) => match member.as_array() {
                Some(items) => {
                    let mut i: usize = 0;
                    while i < items.len()
                        invariant
                            i <= items.len(),
                            out.len() == i,
                            forall|j: int| 0 <= j < i ==> (#[trigger] out[j])@ == items[j]@,
                        decreases items.len() - i,
                    {
                        out.push(items[i].duplicate());
                        i += 1;
                    }
                    assert(items_view(out@) =~= items_view(items@));
                },
                None => {
                    assert(items_view(out@) =~= Seq::empty());
                },
            },
            None => {
                assert(items_view(out@) =~= Seq::empty());
            },
        }
        out
    }

    /// The number that a text stands for where there is one, `null` where
    /// there is none.
    pub fn number_text_or_null(digits: &Option<String>) -> (r: Json)
        ensures
            r@ == JsonValue::number_text_or_null(
                match digits {
                    Some(digits) => Some(digits@),
                    None => None,
                },
            ),
    {
        match digits {
            Some(digits) => Json::Number(digits.clone()),
            None => Json::Null,
        }
    }

    /// Sets one member of the object in place: the last member with that
    /// key gets the new value, and where there is none, a new member is
    /// added at the end.
    pub fn put(&mut self, key: &str, value: Json)
        requires
            old(self)@ is Object,
        ensures
            final(self)@ == old(self)@.set(key@, value@),
    {
        let ghost before = self@;
        match self {
            Json::Object(members) => {
                let ghost all = members_view(members@);
                assert(before->Object_0 =~= all);
                let mut i: usize = members.len();
                let mut found: Option<usize> = None;
                while i > 0 && found.is_none()
                    invariant
                        0 <= i <= members.len(),
                        all == members_view(members@),
                        forall|j: int|
                            i <= j < all.len() && found != Some(j as usize) ==> (
                            #[trigger] all[j]).0 != key@,
                        match found {
                            Some(k) => k == i && k < members.len() && all[k as int].0 == key@,
                            None => true,
                        },
                    decreases i,
                {
                    i -= 1;
                    if str_eq(members[i].0.as_str(), key) {
                        found = Some(i);
                    }
                }
                match found {
                    Some(k) => {
                        proof {
                            lemma_member_index_found(all, key@, k as int);
                        }
                        members.set(k, (String::from_str(key), value));
                    },
                    None => {
                        proof {
                            lemma_member_index(all, key@);
                        }
                        members.push((String::from_str(key), value));
                    },
                }
                assert(members_view(members@) =~= member_insert(all, key@, value@));
            },
            _ => {},
        }
        assert(self@->Object_0 =~= member_insert(before->Object_0, key@, value@));
    }

    /// The array of the given items.
    pub fn array_of(items: Vec<Json>) -> (r: Json)
        ensures
            r@ == JsonValue::Array(items_view(items@)),
    {
        let r = Json::Array(items);
        assert(r@->Array_0 =~= items_view(items@));
        r
    }
}

} // verus!
