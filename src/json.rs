//! A parsed JSON document, as the decoder reads it.

use vstd::prelude::*;
use crate::text::same_text;

verus! {

/// A JSON value. Numbers keep their text; an object keeps its members in order.
#[derive(Debug)]
pub enum Json {
    Null,
    Bool(bool),
    Number(String),
    Str(String),
    Array(Vec<Json>),
    Object(Vec<(String, Json)>),
}

/// The value of the first member named `key`, if any.
pub open spec fn member(fields: Seq<(String, Json)>, key: Seq<char>) -> Option<Json>
    decreases fields.len(),
{
    if fields.len() == 0 {
        None
    } else if fields[0].0@ == key {
        Some(fields[0].1)
    } else {
        member(fields.drop_first(), key)
    }
}

/// The member `key` of an object; nothing for any other value.
pub open spec fn field(j: Json, key: Seq<char>) -> Option<Json> {
    match j {
        Json::Object(fields) => member(fields@, key),
        _ => None,
    }
}

/// The text of a string value; nothing for any other value.
pub open spec fn text(j: Json) -> Option<Seq<char>> {
    match j {
        Json::Str(s) => Some(s@),
        _ => None,
    }
}

/// serde_json's own value type, carried through unread.
#[verifier::external_type_specification]
#[verifier::external_body]
pub struct ExValue(serde_json::Value);

/// The tree that serde_json reads from a text, or nothing where the text is
/// not one JSON document.
pub uninterp spec fn json_tree(text: Seq<char>) -> Option<Json>;

/// Relies on serde_json::from_str into serde_json::Value: the parse of a text
/// depends on the text alone. The value is then copied into a `Json` tree.
#[verifier::external_body]
pub(crate) fn parse_json(text: &str) -> (r: Option<Json>)
    ensures
        r == json_tree(text@),
{
    serde_json::from_str::<serde_json::Value>(text).ok().map(tree_of_value)
}

/// Copies a serde_json value into a `Json` tree, variant for variant; a
/// number keeps the text that serde_json prints for it.
#[verifier::external_body]
fn tree_of_value(v: serde_json::Value) -> Json {
    match v {
        serde_json::Value::Null => Json::Null,
        serde_json::Value::Bool(b) => Json::Bool(b),
        serde_json::Value::Number(n) => Json::Number(n.to_string()),
        serde_json::Value::String(s) => Json::Str(s),
        serde_json::Value::Array(a) => Json::Array(a.into_iter().map(tree_of_value).collect()),
        serde_json::Value::Object(m) => Json::Object(
            m.into_iter().map(|(k, x)| (k, tree_of_value(x))).collect(),
        ),
    }
}

/// Looks up the member `key` of an object value.
pub fn get_field<'a>(j: &'a Json, key: &str) -> (r: Option<&'a Json>)
    ensures
        r is None <==> field(*j, key@) is None,
        r matches Some(v) ==> field(*j, key@) == Some(*v),
{
    match j {
        Json::Object(fields) => {
            let mut i: usize = 0;
            assert(fields@.skip(0) =~= fields@);
            while i < fields.len()
                invariant
                    i <= fields@.len(),
                    *j == Json::Object(*fields),
                    member(fields@, key@) == member(fields@.skip(i as int), key@),
                decreases fields@.len() - i,
            {
                proof {
                    assert(fields@.skip(i as int)[0] == fields@[i as int]);
                    assert(fields@.skip(i as int).drop_first() =~= fields@.skip(i + 1));
                }
                if same_text(fields[i].0.as_str(), key) {
                    return Some(&fields[i].1);
                }
                i = i + 1;
            }
            None
        },
        _ => None,
    }
}

} // verus!
