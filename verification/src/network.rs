//! The network actor: what to do with each thing that happens on the wire
//! side of a session.

use vstd::prelude::*;
use crate::frame::decode_frame;
use crate::frame::decoded;
use crate::frame::encode_frame;
use crate::frame::frame_text;
use crate::message::classify;
use crate::message::event_of;
use crate::message::EventFields;
use crate::message::ServerEvent;

verus! {

/// One thing that can happen to the network actor while it waits.
#[derive(Debug, Clone, PartialEq, Eq)]
pub enum NetEvent {
    /// The session's shutdown signal changed.
    ShutdownChanged,
    /// A chat text is waiting in the outbound queue.
    Outbound { text: String },
    /// A text frame arrived, with this payload.
    TextFrame { payload: String },
    /// A frame arrived that carries no text: binary data, a ping or a pong,
    /// or the peer's close.
    OtherFrame,
    /// Reading from the connection failed.
    ReadFailed,
    /// The stream of frames came to its end.
    StreamEnded,
}

/// What the network actor does next.
#[derive(Debug, Clone, PartialEq, Eq)]
pub enum NetAction {
    /// Leave the loop and close the connection; nothing more is sent.
    Stop,
    /// Write this frame, then go on waiting.  A failed write is not reported
    /// and not tried again.
    Send { frame: String },
    /// Hand this event to the inbound queue, then go on waiting.
    Forward { event: ServerEvent },
    /// Go on waiting: the frame was dropped.
    Skip,
    /// Leave the loop: the session ended from the peer's side.  The shutdown
    /// signal is left as it is.
    Disconnect,
}

/// What a [`NetEvent`] holds, as sequences of characters.
pub enum NetEventFields {
    ShutdownChanged,
    Outbound { text: Seq<char> },
    TextFrame { payload: Seq<char> },
    OtherFrame,
    ReadFailed,
    StreamEnded,
}

/// What a [`NetAction`] holds, as sequences of characters.
pub enum NetActionFields {
    Stop,
    Send { frame: Seq<char> },
    Forward { event: EventFields },
    Skip,
    Disconnect,
}

impl View for NetEvent {
    type V = NetEventFields;

    open spec fn view(&self) -> NetEventFields {
        match self {
            NetEvent::ShutdownChanged => NetEventFields::ShutdownChanged,
            NetEvent::Outbound { text } => NetEventFields::Outbound { text: text@ },
            NetEvent::TextFrame { payload } => NetEventFields::TextFrame { payload: payload@ },
            NetEvent::OtherFrame => NetEventFields::OtherFrame,
            NetEvent::ReadFailed => NetEventFields::ReadFailed,
            NetEvent::StreamEnded => NetEventFields::StreamEnded,
        }
    }
}

impl View for NetAction {
    type V = NetActionFields;

    open spec fn view(&self) -> NetActionFields {
        match self {
            NetAction::Stop => NetActionFields::Stop,
            NetAction::Send { frame } => NetActionFields::Send { frame: frame@ },
            NetAction::Forward { event } => NetActionFields::Forward { event: event@ },
            NetAction::Skip => NetActionFields::Skip,
            NetAction::Disconnect => NetActionFields::Disconnect,
        }
    }
}

/// The action that answers an event.
///
/// A change of the signal stops the actor.  A waiting text is framed and
/// sent.  A text frame is forwarded as the event it stands for, or dropped
/// where it could not be decoded.  Anything else that comes from the
/// connection ends the session from the peer's side.
pub open spec fn action_for(ev: NetEventFields) -> NetActionFields {
    match ev {
        NetEventFields::ShutdownChanged => NetActionFields::Stop,
        NetEventFields::Outbound { text } => NetActionFields::Send { frame: frame_text(text) },
        NetEventFields::TextFrame { payload } => match decoded(payload) {
            Some(m) => NetActionFields::Forward { event: event_of(m) },
            None => NetActionFields::Skip,
        },
        NetEventFields::OtherFrame => NetActionFields::Disconnect,
        NetEventFields::ReadFailed => NetActionFields::Disconnect,
        NetEventFields::StreamEnded => NetActionFields::Disconnect,
    }
}

/// Whether the actor leaves its loop on this action.
pub open spec fn ends_loop(act: NetActionFields) -> bool {
    act is Stop || act is Disconnect
}

/// One turn of the network actor: the action that answers `ev`.
///
/// The actor keeps no state between turns, so the order in which events that
/// are ready together are handed in does not change what each one gives.
pub fn network_step(ev: NetEvent) -> (act: NetAction)
    ensures
        act@ == action_for(ev@),
{
    match ev {
        NetEvent::ShutdownChanged => NetAction::Stop,
        NetEvent::Outbound { text } => NetAction::Send { frame: encode_frame(text.as_str()) },
        NetEvent::TextFrame { payload } => match decode_frame(payload.as_str()) {
            Some(m) => NetAction::Forward { event: classify(m) },
            None => NetAction::Skip,
        },
        NetEvent::OtherFrame => NetAction::Disconnect,
        NetEvent::ReadFailed => NetAction::Disconnect,
        NetEvent::StreamEnded => NetAction::Disconnect,
    }
}

/// A text frame never ends the loop, whatever its payload and whatever its
/// tag: it is forwarded or dropped, and the actor goes on.
pub proof fn lemma_text_frames_never_end_the_loop(payload: Seq<char>)
    ensures
        !ends_loop(action_for(NetEventFields::TextFrame { payload })),
{
}

} // verus!
