//! Decoding of a feed frame's JSON into an envelope and its update.
//! Unknown members are ignored; a missing announcement or withdrawal list
//! is an empty one.

use vstd::prelude::*;
use crate::json::{field, get_field, json_tree, parse_json, text, Json};
use crate::update::{Annoucment, Data, MessageView, RisBgpMessage, UpdateView};

verus! {

/// Why a frame could not be decoded.
#[derive(Debug, Clone, Copy, PartialEq, Eq, Structural)]
pub enum DecodeError {
    /// The envelope has no `type` member.
    MissingEnvelopeType,
    /// The envelope has no `data` member.
    MissingData,
    /// The text is not JSON, or a member does not have the expected shape.
    MalformedJson,
}

/// The texts of a list of string values (other values count as empty).
pub open spec fn item_texts(items: Seq<Json>) -> Seq<Seq<char>> {
    items.map_values(|x: Json| match x {
        Json::Str(s) => s@,
        _ => Seq::empty(),
    })
}

/// A list of prefixes: an array of strings.
pub open spec fn prefix_list(j: Json) -> Option<Seq<Seq<char>>> {
    match j {
        Json::Array(items) => if forall|i: int| 0 <= i < items@.len() ==> #[trigger] items@[i] is Str {
            Some(item_texts(items@))
        } else {
            None
        },
        _ => None,
    }
}

/// An announcement: an object whose `prefixes` member is a list of prefixes.
pub open spec fn announcement_of(j: Json) -> Option<Seq<Seq<char>>> {
    match field(j, "prefixes"@) {
        Some(p) => prefix_list(p),
        None => None,
    }
}

/// The prefix lists of a sequence of well-formed announcements.
pub open spec fn announcement_texts(items: Seq<Json>) -> Seq<Seq<Seq<char>>> {
    items.map_values(|x: Json| match announcement_of(x) {
        Some(ps) => ps,
        None => Seq::empty(),
    })
}

/// A list of announcements: an array of announcements.
pub open spec fn announcement_list(j: Json) -> Option<Seq<Seq<Seq<char>>>> {
    match j {
        Json::Array(items) => if forall|i: int|
            0 <= i < items@.len() ==> announcement_of(#[trigger] items@[i]) is Some {
            Some(announcement_texts(items@))
        } else {
            None
        },
        _ => None,
    }
}

/// An optional list member: absent is empty, present must be well formed.
pub open spec fn or_empty<T>(present: Option<Json>, decoded: Option<Seq<T>>) -> Option<Seq<T>> {
    match present {
        None => Some(Seq::empty()),
        Some(_) => decoded,
    }
}

/// What the `data` member of an envelope decodes to.
pub open spec fn decode_update(j: Json) -> Result<UpdateView, DecodeError> {
    let anns = field(j, "announcements"@);
    let ws = field(j, "withdrawals"@);
    let anns_d = or_empty(anns, match anns { Some(a) => announcement_list(a), None => None });
    let ws_d = or_empty(ws, match ws { Some(w) => prefix_list(w), None => None });
    match field(j, "type"@) {
        Some(k) => match (text(k), anns_d, ws_d) {
            (Some(kind), Some(a), Some(w)) => Ok(
                UpdateView { kind, announcements: a, withdrawals: w },
            ),
            _ => Err(DecodeError::MalformedJson),
        },
        None => Err(DecodeError::MalformedJson),
    }
}

/// What a parsed frame decodes to: the envelope needs a `type` text and a
/// `data` update.
pub open spec fn decode_message(j: Json) -> Result<MessageView, DecodeError> {
    if !(j is Object) {
        Err(DecodeError::MalformedJson)
    } else {
        match (field(j, "type"@), field(j, "data"@)) {
            (None, _) => Err(DecodeError::MissingEnvelopeType),
            (_, None) => Err(DecodeError::MissingData),
            (Some(k), Some(d)) => match (text(k), decode_update(d)) {
                (Some(kind), Ok(data)) => Ok(MessageView { kind, data }),
                (None, _) => Err(DecodeError::MalformedJson),
                (_, Err(e)) => Err(e),
            },
        }
    }
}

/// The text of a string value.
fn text_value(j: &Json) -> (r: Option<String>)
    ensures
        r is None <==> text(*j) is None,
        r matches Some(s) ==> text(*j) == Some(s@),
{
    match j {
        Json::Str(s) => Some(s.clone()),
        _ => None,
    }
}

/// Reads a list of prefixes.
fn decode_prefix_list(j: &Json) -> (r: Option<Vec<String>>)
    ensures
        r is None <==> prefix_list(*j) is None,
        r matches Some(v) ==> prefix_list(*j) == Some(v@.map_values(|s: String| s@)),
{
    match j {
        Json::Array(items) => {
            let mut out: Vec<String> = Vec::new();
            let mut i: usize = 0;
            while i < items.len()
                invariant
                    i <= items@.len(),
                    *j == Json::Array(*items),
                    forall|k: int| 0 <= k < i ==> #[trigger] items@[k] is Str,
                    out@.map_values(|s: String| s@) == item_texts(items@.take(i as int)),
                decreases items@.len() - i,
            {
                let ghost before = out@;
                match &items[i] {
                    Json::Str(s) => {
                        out.push(s.clone());
                    },
                    _ => {
                        return None;
                    },
                }
                proof {
                    assert(item_texts(items@.take(i + 1)) =~= item_texts(items@.take(i as int)).push(
                        text(items@[i as int])->0,
                    ));
                    assert(out@.map_values(|s: String| s@) =~= before.map_values(|s: String| s@).push(
                        text(items@[i as int])->0,
                    ));
                }
                i = i + 1;
            }
            assert(items@.take(i as int) =~= items@);
            Some(out)
        },
        _ => None,
    }
}

/// Reads one announcement.
fn decode_announcement(j: &Json) -> (r: Option<Annoucment>)
    ensures
        r is None <==> announcement_of(*j) is None,
        r matches Some(a) ==> announcement_of(*j) == Some(a@),
{
    match get_field(j, "prefixes") {
        Some(p) => match decode_prefix_list(p) {
            Some(prefixes) => Some(Annoucment { prefixes }),
            None => None,
        },
        None => None,
    }
}

/// Reads a list of announcements.
fn decode_announcements(j: &Json) -> (r: Option<Vec<Annoucment>>)
    ensures
        r is None <==> announcement_list(*j) is None,
        r matches Some(v) ==> announcement_list(*j) == Some(v@.map_values(|a: Annoucment| a@)),
{
    match j {
        Json::Array(items) => {
            let mut out: Vec<Annoucment> = Vec::new();
            let mut i: usize = 0;
            while i < items.len()
                invariant
                    i <= items@.len(),
                    *j == Json::Array(*items),
                    forall|k: int| 0 <= k < i ==> announcement_of(#[trigger] items@[k]) is Some,
                    out@.map_values(|a: Annoucment| a@) == announcement_texts(items@.take(i as int)),
                decreases items@.len() - i,
            {
                let ghost before = out@;
                match decode_announcement(&items[i]) {
                    Some(a) => {
                        out.push(a);
                    },
                    None => {
                        return None;
                    },
                }
                proof {
                    assert(announcement_texts(items@.take(i + 1)) =~= announcement_texts(
                        items@.take(i as int),
                    ).push(announcement_of(items@[i as int])->0));
                    assert(out@.map_values(|a: Annoucment| a@) =~= before.map_values(
                        |a: Annoucment| a@,
                    ).push(announcement_of(items@[i as int])->0));
                }
                i = i + 1;
            }
            assert(items@.take(i as int) =~= items@);
            Some(out)
        },
        _ => None,
    }
}

/// Reads the update held in an envelope's `data` member.
pub fn decode_data(j: &Json) -> (r: Result<Data, DecodeError>)
    ensures
        match r {
            Ok(d) => decode_update(*j) == Ok::<UpdateView, DecodeError>(d@),
            Err(e) => decode_update(*j) == Err::<UpdateView, DecodeError>(e),
        },
{
    let kind = match get_field(j, "type") {
        Some(k) => match text_value(k) {
            Some(s) => s,
            None => {
                return Err(DecodeError::MalformedJson);
            },
        },
        None => {
            return Err(DecodeError::MalformedJson);
        },
    };
    let announcements = match get_field(j, "announcements") {
        Some(a) => match decode_announcements(a) {
            Some(v) => v,
            None => {
                return Err(DecodeError::MalformedJson);
            },
        },
        None => Vec::new(),
    };
    let withdrawals = match get_field(j, "withdrawals") {
        Some(w) => match decode_prefix_list(w) {
            Some(v) => v,
            None => {
                return Err(DecodeError::MalformedJson);
            },
        },
        None => Vec::new(),
    };
    let d = Data { kind, announcements, withdrawals };
    proof {
        assert(d@.announcements =~= match decode_update(*j) {
            Ok(u) => u.announcements,
            Err(_) => Seq::empty(),
        });
        assert(d@.withdrawals =~= match decode_update(*j) {
            Ok(u) => u.withdrawals,
            Err(_) => Seq::empty(),
        });
    }
    Ok(d)
}

/// Decodes a parsed frame into its envelope. A frame whose update is not of
/// kind `UPDATE` still decodes; whether to act on it is the caller's choice.
pub fn decode(j: &Json) -> (r: Result<RisBgpMessage, DecodeError>)
    ensures
        match r {
            Ok(m) => decode_message(*j) == Ok::<MessageView, DecodeError>(m@),
            Err(e) => decode_message(*j) == Err::<MessageView, DecodeError>(e),
        },
{
    if !matches!(j, Json::Object(_)) {
        return Err(DecodeError::MalformedJson);
    }
    let k = match get_field(j, "type") {
        Some(k) => k,
        None => {
            return Err(DecodeError::MissingEnvelopeType);
        },
    };
    let d = match get_field(j, "data") {
        Some(d) => d,
        None => {
            return Err(DecodeError::MissingData);
        },
    };
    let kind = match text_value(k) {
        Some(s) => s,
        None => {
            return Err(DecodeError::MalformedJson);
        },
    };
    match decode_data(d) {
        Ok(data) => Ok(RisBgpMessage { kind, data }),
        Err(e) => Err(e),
    }
}

/// What a frame's text decodes to: text that is not one JSON document is
/// malformed; otherwise its tree decodes as `decode_message` says.
pub open spec fn decode_text(t: Seq<char>) -> Result<MessageView, DecodeError> {
    match json_tree(t) {
        Some(j) => decode_message(j),
        None => Err(DecodeError::MalformedJson),
    }
}

/// Decodes a frame's text into its envelope.
pub fn parse_message(message: &str) -> (r: Result<RisBgpMessage, DecodeError>)
    ensures
        match r {
            Ok(m) => decode_text(message@) == Ok::<MessageView, DecodeError>(m@),
            Err(e) => decode_text(message@) == Err::<MessageView, DecodeError>(e),
        },
{
    match parse_json(message) {
        Some(j) => decode(&j),
        None => Err(DecodeError::MalformedJson),
    }
}

} // verus!
