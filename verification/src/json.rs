//! JSON documents as the library holds them, and what the library has
//! from `serde_json`: the string literal of a string, and the parsing of a
//! byte string into a document.

use vstd::prelude::*;

verus! {

/// A JSON value as mathematics sees it. An object is the sequence of its
/// members, each a name and a value; a number is the text that writes it.
pub enum JsonValue {
    Null,
    Bool(bool),
    Number(Seq<char>),
    Text(Seq<char>),
    Array(Seq<JsonValue>),
    Object(Seq<(Seq<char>, JsonValue)>),
}

/// The value of the first member called `name`, if there is one.
pub open spec fn first_named(members: Seq<(Seq<char>, JsonValue)>, name: Seq<char>) -> Option<
    JsonValue,
>
    decreases members.len(),
{
    if members.len() == 0 {
        None
    } else if members[0].0 == name {
        Some(members[0].1)
    } else {
        first_named(members.drop_first(), name)
    }
}

impl JsonValue {
    /// The member called `name` of an object; `None` for anything that is not
    /// an object and for an object without such a member.
    pub open spec fn member(self, name: Seq<char>) -> Option<JsonValue> {
        match self {
            JsonValue::Object(members) => first_named(members, name),
            _ => None,
        }
    }

    /// The element at `index` of an array; `None` for anything that is not an
    /// array and for an index past its end.
    pub open spec fn element(self, index: int) -> Option<JsonValue> {
        match self {
            JsonValue::Array(items) => if 0 <= index < items.len() {
                Some(items[index])
            } else {
                None
            },
            _ => None,
        }
    }

    /// The characters of a string; `None` for anything that is not a string.
    pub open spec fn text(self) -> Option<Seq<char>> {
        match self {
            JsonValue::Text(chars) => Some(chars),
            _ => None,
        }
    }
}

/// One member of a JSON object.
#[derive(Debug, PartialEq, Eq)]
pub struct Member {
    pub name: String,
    pub value: Json,
}

/// A JSON document in memory.
#[derive(Debug, PartialEq, Eq)]
pub enum Json {
    Null,
    Bool(bool),
    /// A number, kept as the text that writes it.
    Number(String),
    Text(String),
    Array(Vec<Json>),
    /// The members of an object, in the order in which the parser hands them out.
    Object(Vec<Member>),
}

impl Json {
    /// The JSON value that this document holds.
    pub open spec fn value(self) -> JsonValue
        decreases self,
    {
        match self {
            Json::Null => JsonValue::Null,
            Json::Bool(b) => JsonValue::Bool(b),
            Json::Number(digits) => JsonValue::Number(digits@),
            Json::Text(chars) => JsonValue::Text(chars@),
            Json::Array(items) => JsonValue::Array(
                Seq::new(
                    items@.len(),
                    |i: int|
                        if 0 <= i < items@.len() {
                            items@[i].value()
                        } else {
                            JsonValue::Null
                        },
                ),
            ),
            Json::Object(members) => JsonValue::Object(
                Seq::new(
                    members@.len(),
                    |i: int|
                        if 0 <= i < members@.len() {
                            (members@[i].name@, members@[i].value.value())
                        } else {
                            (Seq::<char>::empty(), JsonValue::Null)
                        },
                ),
            ),
        }
    }
}

impl View for Json {
    type V = JsonValue;

    open spec fn view(&self) -> JsonValue {
        self.value()
    }
}

/// What the view of an array is: the views of its items, in order.
pub proof fn lemma_array_view(items: Vec<Json>)
    ensures
        Json::Array(items)@ is Array,
        Json::Array(items)@->Array_0.len() == items@.len(),
        forall|k: int|
            0 <= k < items@.len() ==> (#[trigger] Json::Array(items)@->Array_0[k]) == items@[k]@,
{
}

/// What the view of an object is: its members, in order, each as the pair of
/// its name's characters and its value's view.
pub proof fn lemma_object_view(members: Vec<Member>)
    ensures
        Json::Object(members)@ is Object,
        Json::Object(members)@->Object_0.len() == members@.len(),
        forall|k: int|
            0 <= k < members@.len() ==> (#[trigger] Json::Object(members)@->Object_0[k]) == (
                members@[k].name@,
                members@[k].value@,
            ),
{
}

impl Json {
    /// The member called `name`, as [`JsonValue::member`] defines it.
    pub fn get_member(&self, name: &str) -> (found: Option<&Json>)
        ensures
            match found {
                Some(value) => self@.member(name@) == Some(value@),
                None => self@.member(name@) is None,
            },
    {
        match self {
            Json::Object(members) => {
                let wanted: String = name.to_owned();
                let ghost pairs = self@->Object_0;
                proof {
                    lemma_object_view(*members);
                    assert(pairs.skip(0) =~= pairs);
                }
                let mut i: usize = 0;
                while i < members.len()
                    invariant
                        i <= members.len(),
                        wanted@ == name@,
                        self@ == JsonValue::Object(pairs),
                        pairs.len() == members@.len(),
                        forall|k: int|
                            0 <= k < pairs.len() ==> #[trigger] pairs[k] == (
                                members@[k].name@,
                                members@[k].value@,
                            ),
                        first_named(pairs, name@) == first_named(pairs.skip(i as int), name@),
                    decreases members.len() - i,
                {
                    proof {
                        assert(pairs.skip(i as int)[0] == pairs[i as int]);
                        assert(pairs.skip(i as int).drop_first() =~= pairs.skip(i + 1));
                    }
                    if members[i].name == wanted {
                        return Some(&members[i].value);
                    }
                    i += 1;
                }
                None
            },
            _ => None,
        }
    }

    /// The element at `index`, as [`JsonValue::element`] defines it.
    pub fn get_element(&self, index: usize) -> (found: Option<&Json>)
        ensures
            match found {
                Some(value) => self@.element(index as int) == Some(value@),
                None => self@.element(index as int) is None,
            },
    {
        match self {
            Json::Array(items) => {
                proof {
                    lemma_array_view(*items);
                }
                if index < items.len() {
                    Some(&items[index])
                } else {
                    None
                }
            },
            _ => None,
        }
    }

    /// The characters of a string, as [`JsonValue::text`] defines them.
    pub fn as_text(&self) -> (found: Option<&str>)
        ensures
            match found {
                Some(chars) => self@.text() == Some(chars@),
                None => self@.text() is None,
            },
    {
        match self {
            Json::Text(chars) => Some(chars.as_str()),
            _ => None,
        }
    }
}

/// `serde_json::Value`, the document type that the parser hands out.
/// Verified code cannot look inside such a value: it has it opened, one
/// level at a time, and builds a [`Json`] from what comes out.
#[verifier::external_type_specification]
#[verifier::external_body]
pub struct ExValue(serde_json::Value);

/// The string literal that `serde_json::to_string` writes for the string
/// `text`: the quotation marks around it and the escapes inside it are
/// `serde_json`'s, and are not restated here.
pub uninterp spec fn json_string_text(text: Seq<char>) -> Seq<char>;

/// The document that `serde_json::from_slice` reads from `bytes` as a
/// `serde_json::Value`, or `None` where it rejects them.
pub uninterp spec fn parsed_json(bytes: Seq<u8>) -> Option<JsonValue>;

/// What a `serde_json::Value` holds: its variant and, below it, its
/// contents, with each number as the text that writes it.
pub uninterp spec fn held_by(value: serde_json::Value) -> JsonValue;

/// A member of an object whose value is still a `serde_json::Value`.
struct Entry<'a> {
    name: &'a String,
    value: &'a serde_json::Value,
}

/// The top level of a `serde_json::Value`: its variant with its own fields,
/// and what lies below still as `serde_json::Value`s.
enum Layer<'a> {
    Null,
    Bool(bool),
    Number(String),
    Text(&'a String),
    Array(Vec<&'a serde_json::Value>),
    Object(Vec<Entry<'a>>),
}

/// The JSON value that a layer stands for, given what the values below hold.
spec fn unfolded(layer: Layer) -> JsonValue {
    match layer {
        Layer::Null => JsonValue::Null,
        Layer::Bool(b) => JsonValue::Bool(b),
        Layer::Number(digits) => JsonValue::Number(digits@),
        Layer::Text(chars) => JsonValue::Text(chars@),
        Layer::Array(items) => JsonValue::Array(
            items@.map_values(|item: &serde_json::Value| held_by(*item)),
        ),
        Layer::Object(entries) => JsonValue::Object(
            entries@.map_values(|entry: Entry| (entry.name@, held_by(*entry.value))),
        ),
    }
}

/// Calls `serde_json::to_string` on a string slice. Trusted: that the call
/// succeeds on every string (its writer is a byte vector, and a string has no
/// map keys and no `Serialize` impl that could refuse), and that its result
/// depends on the characters of `text` alone.
#[verifier::external_body]
pub(crate) fn json_string(text: &str) -> (literal: String)
    ensures
        literal@ == json_string_text(text@),
{
    serde_json::to_string(text).unwrap_or_default()
}

/// Calls `serde_json::from_slice` for a `serde_json::Value`. Trusted: that
/// whether it succeeds, and what the value then holds, depends on `bytes`
/// alone.
#[verifier::external_body]
fn value_from_slice(bytes: &[u8]) -> (parsed: Option<serde_json::Value>)
    ensures
        match parsed {
            Some(value) => parsed_json(bytes@) == Some(held_by(value)),
            None => parsed_json(bytes@) is None,
        },
{
    serde_json::from_slice::<serde_json::Value>(bytes).ok()
}

/// Tells the variants of `serde_json::Value` apart and hands out the fields
/// of the one at hand. A number comes as the text that
/// `serde_json::Number`'s `Display` writes; the items of an array and the
/// entries of an object come in the order of `Vec::iter` and of
/// `serde_json::Map::iter`. Trusted: that the value holds exactly this.
#[verifier::external_body]
fn open_value<'a>(value: &'a serde_json::Value) -> (layer: Layer<'a>)
    ensures
        held_by(*value) == unfolded(layer),
{
    match value {
        serde_json::Value::Null => Layer::Null,
        serde_json::Value::Bool(b) => Layer::Bool(*b),
        serde_json::Value::Number(n) => Layer::Number(n.to_string()),
        serde_json::Value::String(s) => Layer::Text(s),
        serde_json::Value::Array(items) => Layer::Array(items.iter().collect()),
        serde_json::Value::Object(map) => Layer::Object(
            map.iter().map(|(name, value)| Entry { name, value }).collect(),
        ),
    }
}

impl Json {
    /// The document that holds what `value` holds.
    fn from_value(value: &serde_json::Value) -> (json: Json)
        ensures
            json@ == held_by(*value),
        decreases held_by(*value),
    {
        match open_value(value) {
            Layer::Null => Json::Null,
            Layer::Bool(b) => Json::Bool(b),
            Layer::Number(digits) => Json::Number(digits),
            Layer::Text(chars) => Json::Text(chars.clone()),
            Layer::Array(items) => {
                let ghost below = items@.map_values(|item: &serde_json::Value| held_by(*item));
                let mut converted: Vec<Json> = Vec::new();
                let mut i: usize = 0;
                while i < items.len()
                    invariant
                        i <= items.len(),
                        held_by(*value) == JsonValue::Array(below),
                        below == items@.map_values(|item: &serde_json::Value| held_by(*item)),
                        converted@.len() == i,
                        forall|k: int| 0 <= k < i ==> (#[trigger] converted@[k])@ == below[k],
                    decreases items.len() - i,
                {
                    proof {
                        assert(below[i as int] == held_by(*items@[i as int]));
                        let whole = held_by(*value);
                        assert(decreases_to!(whole => whole->Array_0));
                        assert(decreases_to!(whole->Array_0 => whole->Array_0[i as int]));
                    }
                    converted.push(Json::from_value(items[i]));
                    i += 1;
                }
                proof {
                    lemma_array_view(converted);
                    assert(Json::Array(converted)@->Array_0 =~= below);
                }
                Json::Array(converted)
            },
            Layer::Object(entries) => {
                let ghost below = entries@.map_values(
                    |entry: Entry| (entry.name@, held_by(*entry.value)),
                );
                let mut members: Vec<Member> = Vec::new();
                let mut i: usize = 0;
                while i < entries.len()
                    invariant
                        i <= entries.len(),
                        held_by(*value) == JsonValue::Object(below),
                        below.len() == entries@.len(),
                        forall|k: int|
                            i <= k < entries@.len() ==> below[k] == (
                                (#[trigger] entries@[k]).name@,
                                held_by(*entries@[k].value),
                            ),
                        members@.len() == i,
                        forall|k: int|
                            0 <= k < i ==> ((#[trigger] members@[k]).name@, members@[k].value@)
                                == below[k],
                    decreases entries.len() - i,
                {
                    proof {
                        assert(below[i as int].1 == held_by(*entries@[i as int].value));
                        let whole = held_by(*value);
                        assert(decreases_to!(whole => whole->Object_0));
                        assert(decreases_to!(whole->Object_0 => whole->Object_0[i as int]));
                        assert(decreases_to!(whole->Object_0[i as int] => whole->Object_0[i as int].1));
                    }
                    let name = entries[i].name.clone();
                    let converted = Json::from_value(entries[i].value);
                    members.push(Member { name, value: converted });
                    i += 1;
                }
                proof {
                    lemma_object_view(members);
                    assert(Json::Object(members)@->Object_0 =~= below);
                }
                Json::Object(members)
            },
        }
    }

    /// Parses `bytes` as one JSON document.
    pub fn parse(bytes: &[u8]) -> (doc: Option<Json>)
        ensures
            match doc {
                Some(json) => parsed_json(bytes@) == Some(json@),
                None => parsed_json(bytes@) is None,
            },
    {
        match value_from_slice(bytes) {
            Some(value) => Some(Json::from_value(&value)),
            None => None,
        }
    }
}

} // verus!
