//! JSON objects whose members are scalars.
//!
//! Records and envelopes are flat JSON objects. A parsed object is a list
//! of named members; what it means is the map from each name to its value,
//! where a later member of the same name replaces an earlier one.

use vstd::prelude::*;
use crate::text::same_text;

verus! {

/// The value of one member of a JSON object.
pub enum JsonValue {
    /// A JSON string.
    Text(String),
    /// A JSON number that is an integer from 0 to 2^64 - 1.
    Unsigned(u64),
    /// Anything else: null, a boolean, another number, an array or an
    /// object.
    Other,
}

/// One member of a JSON object.
pub struct JsonField {
    pub name: String,
    pub value: JsonValue,
}

/// A member value as mathematics.
pub enum JsonValueView {
    Text(Seq<char>),
    Unsigned(u64),
    Other,
}

/// A member as mathematics.
pub struct JsonFieldView {
    pub name: Seq<char>,
    pub value: JsonValueView,
}

impl View for JsonValue {
    type V = JsonValueView;

    open spec fn view(&self) -> JsonValueView {
        match self {
            JsonValue::Text(s) => JsonValueView::Text(s@),
            JsonValue::Unsigned(n) => JsonValueView::Unsigned(*n),
            JsonValue::Other => JsonValueView::Other,
        }
    }
}

impl View for JsonField {
    type V = JsonFieldView;

    open spec fn view(&self) -> JsonFieldView {
        JsonFieldView { name: self.name@, value: self.value@ }
    }
}

/// The members of a list, each by its view.
pub open spec fn fields_view(fields: Seq<JsonField>) -> Seq<JsonFieldView> {
    fields.map_values(|f: JsonField| f@)
}

/// The object that a list of members stands for: the last member of each
/// name counts.
pub open spec fn fields_map(fields: Seq<JsonFieldView>) -> Map<Seq<char>, JsonValueView>
    decreases fields.len(),
{
    if fields.len() == 0 {
        Map::empty()
    } else {
        fields_map(fields.drop_last()).insert(fields.last().name, fields.last().value)
    }
}

/// The object that the JSON text `text` holds, or `None` where the text is
/// not one JSON object.
pub uninterp spec fn json_object(text: Seq<char>) -> Option<Map<Seq<char>, JsonValueView>>;

/// The compact JSON text of the object with the given members.
pub uninterp spec fn json_text(fields: Seq<JsonFieldView>) -> Seq<char>;

/// Calls `serde_json::from_str` for a `serde_json::Map`, and hands out each
/// member with its value as text, as an unsigned integer or as neither.
///
/// Trusted: parsing succeeds exactly on the texts that hold one JSON
/// object, a function of the text alone, and the members that come back
/// stand for that object.
#[verifier::external_body]
pub(crate) fn parse_object(text: &str) -> (r: Option<Vec<JsonField>>)
    ensures
        r is Some <==> json_object(text@) is Some,
        r matches Some(fields) ==> json_object(text@) == Some(fields_map(fields_view(fields@))),
{
    match serde_json::from_str::<serde_json::Map<String, serde_json::Value>>(text) {
        Ok(members) => Some(members.into_iter().map(|(name, value)| JsonField {
            name,
            value: match value {
                serde_json::Value::String(s) => JsonValue::Text(s),
                serde_json::Value::Number(n) => match n.as_u64() {
                    Some(u) => JsonValue::Unsigned(u),
                    None => JsonValue::Other,
                },
                _ => JsonValue::Other,
            },
        }).collect()),
        Err(_) => None,
    }
}

/// Inserts the members, in their order, into a `serde_json::Map` and calls
/// `serde_json::to_string` on it as a `Value::Object`.
///
/// Trusted: a later member replaces an earlier one of the same name; a
/// value made of strings, unsigned integers and `null` always serialises;
/// the text is a function of the members, and parsing it gives back the
/// object that the members stand for. A member that is neither text nor
/// unsigned is written as `null`.
#[verifier::external_body]
pub(crate) fn render_object(fields: &Vec<JsonField>) -> (r: Option<String>)
    ensures
        r is Some,
        r matches Some(text) ==> text@ == json_text(fields_view(fields@)),
        r matches Some(text) ==> json_object(text@) == Some(fields_map(fields_view(fields@))),
{
    let mut members = serde_json::Map::new();
    for field in fields.iter() {
        members.insert(field.name.clone(), match &field.value {
            JsonValue::Text(s) => serde_json::Value::String(s.clone()),
            JsonValue::Unsigned(n) => serde_json::Value::from(*n),
            JsonValue::Other => serde_json::Value::Null,
        });
    }
    serde_json::to_string(&serde_json::Value::Object(members)).ok()
}

/// The value of the last member called `name`, if there is one.
pub open spec fn field_value(fields: Seq<JsonFieldView>, name: Seq<char>) -> Option<JsonValueView>
    decreases fields.len(),
{
    if fields.len() == 0 {
        None
    } else if fields.last().name == name {
        Some(fields.last().value)
    } else {
        field_value(fields.drop_last(), name)
    }
}

/// What an object holds under a name is the value of the last member of
/// that name.
pub proof fn lemma_field_value(fields: Seq<JsonFieldView>, name: Seq<char>)
    ensures
        fields_map(fields).contains_key(name) <==> field_value(fields, name) is Some,
        field_value(fields, name) matches Some(value) ==> fields_map(fields)[name] == value,
    decreases fields.len(),
{
    if fields.len() > 0 {
        lemma_field_value(fields.drop_last(), name);
    }
}

/// Looking a name up after one more member was added.
pub proof fn lemma_field_value_push(fields: Seq<JsonFieldView>, last: JsonFieldView, name: Seq<char>)
    ensures
        field_value(fields.push(last), name) == if last.name == name {
            Some(last.value)
        } else {
            field_value(fields, name)
        },
{
    assert(fields.push(last).drop_last() =~= fields);
}

/// The value of the member called `name`, if the object has one.
pub fn lookup<'a>(fields: &'a Vec<JsonField>, name: &str) -> (r: Option<&'a JsonValue>)
    ensures
        r is Some <==> fields_map(fields_view(fields@)).contains_key(name@),
        r matches Some(value) ==> value@ == fields_map(fields_view(fields@))[name@],
{
    let ghost members = fields_view(fields@);
    let mut i: usize = fields.len();
    assert(members.take(i as int) == members);
    while i > 0
        invariant
            i <= fields.len(),
            members == fields_view(fields@),
            field_value(members, name@) == field_value(members.take(i as int), name@),
        decreases i,
    {
        i = i - 1;
        let ghost upto = members.take(i + 1);
        proof {
            assert(upto.len() == i + 1);
            assert(upto.last() == fields@[i as int]@);
            assert(upto.drop_last() == members.take(i as int));
        }
        if same_text(fields[i].name.as_str(), name) {
            proof {
                assert(upto.last().name == name@);
                assert(field_value(upto, name@) == Some(upto.last().value));
                lemma_field_value(members, name@);
            }
            return Some(&fields[i].value);
        }
        assert(field_value(upto, name@) == field_value(upto.drop_last(), name@));
    }
    proof {
        lemma_field_value(members, name@);
    }
    None
}

/// The text of the member called `name`: `None` where the object has no
/// such member or its value is not a string.
pub fn text_field<'a>(fields: &'a Vec<JsonField>, name: &str) -> (r: Option<&'a String>)
    ensures
        r is Some <==> map_text(fields_map(fields_view(fields@)), name@) is Some,
        r matches Some(text) ==> map_text(fields_map(fields_view(fields@)), name@) == Some(text@),
{
    match lookup(fields, name) {
        Some(JsonValue::Text(text)) => Some(text),
        _ => None,
    }
}

/// The number of the member called `name`: `None` where the object has no
/// such member or its value is not an unsigned integer.
pub fn unsigned_field(fields: &Vec<JsonField>, name: &str) -> (r: Option<u64>)
    ensures
        r == map_unsigned(fields_map(fields_view(fields@)), name@),
{
    match lookup(fields, name) {
        Some(JsonValue::Unsigned(n)) => Some(*n),
        _ => None,
    }
}

/// The text under `name` in an object.
pub open spec fn map_text(object: Map<Seq<char>, JsonValueView>, name: Seq<char>) -> Option<
    Seq<char>,
> {
    if object.contains_key(name) {
        match object[name] {
            JsonValueView::Text(text) => Some(text),
            _ => None,
        }
    } else {
        None
    }
}

/// The unsigned integer under `name` in an object.
pub open spec fn map_unsigned(object: Map<Seq<char>, JsonValueView>, name: Seq<char>) -> Option<
    u64,
> {
    if object.contains_key(name) {
        match object[name] {
            JsonValueView::Unsigned(n) => Some(n),
            _ => None,
        }
    } else {
        None
    }
}

} // verus!
