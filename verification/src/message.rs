//! Inbound data: the wire record and the closed set of events it stands for.

use vstd::prelude::*;
use vstd::string::*;

verus! {

/// One inbound frame as the service sends it, field by field.
///
/// `kind` is the frame's `type` tag.
#[derive(Debug, Clone, PartialEq, Eq)]
pub struct ServerMessage {
    pub kind: String,
    pub username: Option<String>,
    pub user_id: Option<String>,
    pub content: String,
    pub timestamp: Option<String>,
    pub channel: Option<String>,
}

/// What a [`ServerMessage`] holds, as sequences of characters.
pub struct WireFields {
    pub kind: Seq<char>,
    pub username: Option<Seq<char>>,
    pub user_id: Option<Seq<char>>,
    pub content: Seq<char>,
    pub timestamp: Option<Seq<char>>,
    pub channel: Option<Seq<char>>,
}

/// The characters of an optional string.
pub open spec fn opt_text(s: Option<String>) -> Option<Seq<char>> {
    match s {
        Some(t) => Some(t@),
        None => None,
    }
}

impl View for ServerMessage {
    type V = WireFields;

    open spec fn view(&self) -> WireFields {
        WireFields {
            kind: self.kind@,
            username: opt_text(self.username),
            user_id: opt_text(self.user_id),
            content: self.content@,
            timestamp: opt_text(self.timestamp),
            channel: opt_text(self.channel),
        }
    }
}

/// An inbound frame, sorted into one of four kinds.
#[derive(Debug, Clone, PartialEq, Eq)]
pub enum ServerEvent {
    /// The service accepted the connection.  A notice that carries no id is
    /// kept as it came and shows nothing on screen.
    Connected { user_id: Option<String>, channel: String },
    /// A notice from the service itself.
    SystemNotice { text: String },
    /// A chat line.  `timestamp` is absent when the wire gave none.
    ChatMessage { username: String, timestamp: Option<String>, text: String },
    /// A frame whose tag is none of the known ones.
    Unknown { raw: String },
}

/// What a [`ServerEvent`] holds, as sequences of characters.
pub enum EventFields {
    Connected { user_id: Option<Seq<char>>, channel: Seq<char> },
    SystemNotice { text: Seq<char> },
    ChatMessage { username: Seq<char>, timestamp: Option<Seq<char>>, text: Seq<char> },
    Unknown { raw: Seq<char> },
}

impl View for ServerEvent {
    type V = EventFields;

    open spec fn view(&self) -> EventFields {
        match self {
            ServerEvent::Connected { user_id, channel } => EventFields::Connected {
                user_id: opt_text(*user_id),
                channel: channel@,
            },
            ServerEvent::SystemNotice { text } => EventFields::SystemNotice { text: text@ },
            ServerEvent::ChatMessage { username, timestamp, text } => EventFields::ChatMessage {
                username: username@,
                timestamp: opt_text(*timestamp),
                text: text@,
            },
            ServerEvent::Unknown { raw } => EventFields::Unknown { raw: raw@ },
        }
    }
}

/// The tag of a connection notice.
pub open spec fn tag_connected() -> Seq<char> {
    "user_connected"@
}

/// The tag of a notice from the service.
pub open spec fn tag_system() -> Seq<char> {
    "system"@
}

/// The tag of a chat line.
pub open spec fn tag_chat() -> Seq<char> {
    "message"@
}

/// The channel shown when a connection notice names none.
pub open spec fn default_channel() -> Seq<char> {
    "General"@
}

/// The author shown when a chat line names none.
pub open spec fn default_author() -> Seq<char> {
    "Anon"@
}

/// Whether `kind` is one of the three tags the client knows.
pub open spec fn known_tag(kind: Seq<char>) -> bool {
    kind == tag_connected() || kind == tag_system() || kind == tag_chat()
}

/// The event that a wire record stands for.  The tag alone decides the kind;
/// any tag but the three known ones gives `Unknown`.
pub open spec fn event_of(m: WireFields) -> EventFields {
    if m.kind == tag_connected() {
        EventFields::Connected {
            user_id: m.user_id,
            channel: match m.channel {
                Some(c) => c,
                None => default_channel(),
            },
        }
    } else if m.kind == tag_system() {
        EventFields::SystemNotice { text: m.content }
    } else if m.kind == tag_chat() {
        EventFields::ChatMessage {
            username: match m.username {
                Some(u) => u,
                None => default_author(),
            },
            timestamp: m.timestamp,
            text: m.content,
        }
    } else {
        EventFields::Unknown { raw: m.content }
    }
}

/// Sorts a wire record into the event it stands for.  Never fails: a tag that
/// is not known gives [`ServerEvent::Unknown`].
pub fn classify(msg: ServerMessage) -> (ev: ServerEvent)
    ensures
        ev@ == event_of(msg@),
{
    let ServerMessage { kind, username, user_id, content, timestamp, channel } = msg;
    if crate::text::same_text(kind.as_str(), "user_connected") {
        let channel: String = match channel {
            Some(c) => c,
            None => "General".to_owned(),
        };
        ServerEvent::Connected { user_id, channel }
    } else if crate::text::same_text(kind.as_str(), "system") {
        ServerEvent::SystemNotice { text: content }
    } else if crate::text::same_text(kind.as_str(), "message") {
        let username: String = match username {
            Some(u) => u,
            None => "Anon".to_owned(),
        };
        ServerEvent::ChatMessage { username, timestamp, text: content }
    } else {
        ServerEvent::Unknown { raw: content }
    }
}

/// The three known tags are three different words, so each selects its own
/// kind of event.
pub proof fn lemma_known_tags_differ()
    ensures
        tag_connected() != tag_system(),
        tag_connected() != tag_chat(),
        tag_system() != tag_chat(),
{
    reveal_strlit("user_connected");
    reveal_strlit("system");
    reveal_strlit("message");
    assert(tag_connected().len() == 14);
    assert(tag_system().len() == 6);
    assert(tag_chat().len() == 7);
}

/// Every tag outside the three known ones gives the fallback kind, with the
/// frame's content kept whole.
pub proof fn lemma_unknown_tag_is_kept(m: WireFields)
    requires
        !known_tag(m.kind),
    ensures
        event_of(m) == (EventFields::Unknown { raw: m.content }),
{
}

} // verus!
