//! Frames on the wire: how chat text is written out and how an inbound
//! payload is read.
//!
//! JSON itself is left to serde_json.  Which members a frame has, and which
//! of them it needs, is decided here.

use vstd::prelude::*;
use vstd::string::*;
use crate::message::opt_text;
use crate::message::ServerMessage;
use crate::message::WireFields;

verus! {

/// The JSON string literal that serde_json writes for the characters `s`:
/// the opening quote, the escaped characters, the closing quote.
pub uninterp spec fn json_string_text(s: Seq<char>) -> Seq<char>;

/// Writes `text` as a JSON string literal.
///
/// Wraps the text in `serde_json::Value::String` and calls `to_string` on
/// it, which runs serde_json's compact serializer.  The contract only gives
/// the result its name: the same text always gives the same literal.
#[verifier::external_body]
fn json_quoted(text: &str) -> (quoted: String)
    ensures
        quoted@ == json_string_text(text@),
{
    serde_json::Value::String(text.to_owned()).to_string()
}

/// An outbound frame around a JSON string literal: an object whose `type` is
/// `message` and whose `content` is that literal.
pub open spec fn frame_around_text(quoted: Seq<char>) -> Seq<char> {
    "{\"type\":\"message\",\"content\":"@ + quoted + "}"@
}

/// The outbound frame for the chat text `content`.
pub open spec fn frame_text(content: Seq<char>) -> Seq<char> {
    frame_around_text(json_string_text(content))
}

/// Puts the fixed frame around `quoted`, which is to be a JSON string literal.
pub fn frame_around(quoted: &str) -> (frame: String)
    ensures
        frame@ == frame_around_text(quoted@),
{
    let mut frame: String = "{\"type\":\"message\",\"content\":".to_owned();
    frame.append(quoted);
    frame.append("}");
    frame
}

/// Encodes one outbound chat text as the frame that goes on the wire.
pub fn encode_frame(text: &str) -> (frame: String)
    ensures
        frame@ == frame_text(text@),
{
    let quoted: String = json_quoted(text);
    frame_around(quoted.as_str())
}

/// What a payload holds under one key.
#[derive(Debug, Clone, PartialEq, Eq)]
pub enum JsonMember {
    /// The payload is not well-formed JSON.
    Invalid,
    /// The payload is JSON, but no object with a member of that key.
    Absent,
    /// The member is `null`.
    Null,
    /// The member is a string.
    Text { text: String },
    /// The member is something else: a number, a boolean, an array, an
    /// object.
    Other,
}

/// What a [`JsonMember`] holds, with its text as a sequence of characters.
pub enum MemberFields {
    Invalid,
    Absent,
    Null,
    Text { text: Seq<char> },
    Other,
}

impl View for JsonMember {
    type V = MemberFields;

    open spec fn view(&self) -> MemberFields {
        match self {
            JsonMember::Invalid => MemberFields::Invalid,
            JsonMember::Absent => MemberFields::Absent,
            JsonMember::Null => MemberFields::Null,
            JsonMember::Text { text } => MemberFields::Text { text: text@ },
            JsonMember::Other => MemberFields::Other,
        }
    }
}

/// What serde_json finds in `payload` under `key`.
pub uninterp spec fn json_member_of(payload: Seq<char>, key: Seq<char>) -> MemberFields;

/// Looks up one member of a JSON payload.
///
/// Parses the payload with `serde_json::from_str` into a `serde_json::Value`
/// and asks it for the member with `Value::get`.  A parse error gives
/// `Invalid`; `get` gives nothing where the value is no object or has no such
/// key, which is `Absent`; what it does give is told apart by its variant,
/// and a string is copied out.  The contract only gives the result its name:
/// the same payload and key always give the same member.
#[verifier::external_body]
fn json_member(payload: &str, key: &str) -> (member: JsonMember)
    ensures
        member@ == json_member_of(payload@, key@),
{
    match serde_json::from_str::<serde_json::Value>(payload) {
        Err(_) => JsonMember::Invalid,
        Ok(value) => match value.get(key) {
            None => JsonMember::Absent,
            Some(serde_json::Value::Null) => JsonMember::Null,
            Some(serde_json::Value::String(text)) => JsonMember::Text { text: text.clone() },
            Some(_) => JsonMember::Other,
        },
    }
}

/// A member that must be a string.
pub open spec fn required_text(m: MemberFields) -> Option<Seq<char>> {
    match m {
        MemberFields::Text { text } => Some(text),
        _ => None,
    }
}

/// A member that may be left out or `null`, and is a string otherwise.  The
/// outer `None` says that the member is of the wrong kind.
pub open spec fn optional_text(m: MemberFields) -> Option<Option<Seq<char>>> {
    match m {
        MemberFields::Absent => Some(None),
        MemberFields::Null => Some(None),
        MemberFields::Text { text } => Some(Some(text)),
        _ => None,
    }
}

/// The content member: a string, or left out, which counts as empty.
pub open spec fn content_text(m: MemberFields) -> Option<Seq<char>> {
    match m {
        MemberFields::Absent => Some(Seq::empty()),
        MemberFields::Text { text } => Some(text),
        _ => None,
    }
}

/// The record made of six members, if each of them is of a kind its place
/// allows.
///
/// `kind` must be a string.  `content` is a string or left out.  The other
/// four are strings, `null` or left out.
pub open spec fn assembled(
    kind: MemberFields,
    username: MemberFields,
    user_id: MemberFields,
    content: MemberFields,
    timestamp: MemberFields,
    channel: MemberFields,
) -> Option<WireFields> {
    if required_text(kind) is Some && optional_text(username) is Some && optional_text(user_id)
        is Some && content_text(content) is Some && optional_text(timestamp) is Some
        && optional_text(channel) is Some {
        Some(
            WireFields {
                kind: required_text(kind).unwrap(),
                username: optional_text(username).unwrap(),
                user_id: optional_text(user_id).unwrap(),
                content: content_text(content).unwrap(),
                timestamp: optional_text(timestamp).unwrap(),
                channel: optional_text(channel).unwrap(),
            },
        )
    } else {
        None
    }
}

/// The record that a payload decodes to, if it decodes.  Members under other
/// keys than the six are not looked at.
pub open spec fn decoded(payload: Seq<char>) -> Option<WireFields> {
    assembled(
        json_member_of(payload, "type"@),
        json_member_of(payload, "username"@),
        json_member_of(payload, "user_id"@),
        json_member_of(payload, "content"@),
        json_member_of(payload, "timestamp"@),
        json_member_of(payload, "channel"@),
    )
}

/// The view of a record that may be missing.
pub open spec fn opt_wire(m: Option<ServerMessage>) -> Option<WireFields> {
    match m {
        Some(r) => Some(r@),
        None => None,
    }
}

fn take_required(m: JsonMember) -> (r: Option<String>)
    ensures
        opt_text(r) == required_text(m@),
{
    match m {
        JsonMember::Text { text } => Some(text),
        _ => None,
    }
}

fn take_optional(m: JsonMember) -> (r: Option<Option<String>>)
    ensures
        match r {
            Some(t) => optional_text(m@) == Some(opt_text(t)),
            None => optional_text(m@) is None,
        },
{
    match m {
        JsonMember::Absent => Some(None),
        JsonMember::Null => Some(None),
        JsonMember::Text { text } => Some(Some(text)),
        _ => None,
    }
}

fn take_content(m: JsonMember) -> (r: Option<String>)
    ensures
        opt_text(r) == content_text(m@),
{
    match m {
        JsonMember::Absent => Some(String::new()),
        JsonMember::Text { text } => Some(text),
        _ => None,
    }
}

/// Makes a record of six members, or nothing where one of them is of a kind
/// its place does not allow.
pub fn assemble(
    kind: JsonMember,
    username: JsonMember,
    user_id: JsonMember,
    content: JsonMember,
    timestamp: JsonMember,
    channel: JsonMember,
) -> (r: Option<ServerMessage>)
    ensures
        opt_wire(r) == assembled(kind@, username@, user_id@, content@, timestamp@, channel@),
{
    let kind = match take_required(kind) {
        Some(t) => t,
        None => {
            return None;
        },
    };
    let username = match take_optional(username) {
        Some(t) => t,
        None => {
            return None;
        },
    };
    let user_id = match take_optional(user_id) {
        Some(t) => t,
        None => {
            return None;
        },
    };
    let content = match take_content(content) {
        Some(t) => t,
        None => {
            return None;
        },
    };
    let timestamp = match take_optional(timestamp) {
        Some(t) => t,
        None => {
            return None;
        },
    };
    let channel = match take_optional(channel) {
        Some(t) => t,
        None => {
            return None;
        },
    };
    Some(ServerMessage { kind, username, user_id, content, timestamp, channel })
}

/// Decodes the payload of an inbound text frame.
///
/// Gives nothing where the payload is not JSON or a member is of the wrong
/// kind.  Members that the record does not know are let through unread.
pub fn decode_frame(payload: &str) -> (r: Option<ServerMessage>)
    ensures
        opt_wire(r) == decoded(payload@),
{
    let kind = json_member(payload, "type");
    let username = json_member(payload, "username");
    let user_id = json_member(payload, "user_id");
    let content = json_member(payload, "content");
    let timestamp = json_member(payload, "timestamp");
    let channel = json_member(payload, "channel");
    assemble(kind, username, user_id, content, timestamp, channel)
}

/// A payload without a string under `type` decodes to nothing.  That holds
/// of every payload that is not JSON at all.
pub proof fn lemma_untagged_payload_is_dropped(payload: Seq<char>)
    requires
        !(json_member_of(payload, "type"@) is Text),
    ensures
        decoded(payload) is None,
{
}

} // verus!
