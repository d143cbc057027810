//! Frames and messages: a frame is the JSON text of one message.

use crate::connection::enums::{MessageModel, MessageType, Shape};
use crate::json::{json_document, json_text, parse, render, JsonValue};
use crate::names::Key;
use crate::wire::{members_of, req};
use vstd::prelude::*;

verus! {

/// Why a frame was not read as a message.
#[derive(Clone, Copy, Debug, PartialEq, Eq)]
pub enum DecodeError {
    /// The frame is no JSON document, or the document is no envelope, or its
    /// members do not fit the shape its tag names.
    Malformed,
}

/// The message a frame holds, if it holds one.
pub open spec fn decoded(raw_text: Seq<char>) -> Option<MessageModel> {
    match json_document(raw_text) {
        Some(t) => MessageType::from_tree(t),
        None => None,
    }
}

/// The frame a message is sent as.
pub open spec fn encoded(m: MessageModel) -> Seq<char> {
    json_text(MessageType::to_tree(m))
}

/// Reading back the frame that was written gives the message again, wherever
/// the JSON library reads back the document it wrote.
pub proof fn lemma_frame_round_trip(m: MessageModel)
    requires
        m.well_formed(),
    ensures
        json_document(json_text(MessageType::to_tree(m))) == Some(MessageType::to_tree(m))
            ==> decoded(encoded(m)) == Some(m),
{
    MessageType::lemma_round_trip(m);
}

/// A frame whose document is an envelope with a tag that names no known
/// shape holds an unrecognized message: it is read without error, whatever
/// the envelope holds besides the tag.
pub proof fn lemma_unknown_tag_is_read(raw_text: Seq<char>, t: JsonValue, d: Seq<char>)
    requires
        req::<String>(members_of(t), Key::Type) == Some(d),
        Shape::named(d) is None,
    ensures
        json_document(raw_text) == Some(t) ==> decoded(raw_text) == Some(
            MessageModel::Unrecognized { discriminator: d, raw_payload: t },
        ),
{
}

/// Reads a frame. A frame that holds a message is never refused: where the
/// tag names no known shape the message is an unrecognized one. A frame of a
/// known shape is malformed, and dropped whole, where a required field is
/// missing or any field has the wrong shape; an explicit `null` is the wrong
/// shape for every field, an optional one too.
pub fn decode(raw_text: &str) -> (r: Result<MessageType, DecodeError>)
    ensures
        r matches Ok(m) ==> decoded(raw_text@) == Some(m.model()),
        r matches Err(e) ==> decoded(raw_text@) is None && e == DecodeError::Malformed,
{
    match parse(raw_text) {
        Some(document) => match MessageType::decode(document) {
            Some(message) => Ok(message),
            None => Err(DecodeError::Malformed),
        },
        None => Err(DecodeError::Malformed),
    }
}

/// Writes a message as a frame.
pub fn encode(message: MessageType) -> (s: String)
    ensures
        s@ == encoded(message.model()),
{
    let document = message.encode();
    render(&document)
}

} // verus!
