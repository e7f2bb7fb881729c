//! The inbox router: from events to lines on the screen.

use vstd::prelude::*;
use vstd::string::*;
use crate::message::default_author;
use crate::message::event_of;
use crate::message::known_tag;
use crate::message::lemma_known_tags_differ;
use crate::message::tag_chat;
use crate::message::EventFields;
use crate::message::ServerEvent;
use crate::message::WireFields;
use crate::text::same_text;

verus! {

/// How a line is to be shown.
#[derive(Debug, Clone, Copy, PartialEq, Eq, Structural)]
pub enum LineStyle {
    /// Unstyled text: the user's own chat lines and local output.
    Plain,
    /// The heading style of the two lines that greet a new connection.
    Title,
    /// The secondary style: notices, other people's lines, unknown frames.
    Secondary,
}

/// One piece of text for the message view, with its style.  The text ends
/// with its own line break.
#[derive(Debug, Clone, PartialEq, Eq)]
pub struct DisplayLine {
    pub style: LineStyle,
    pub text: String,
}

/// What a [`DisplayLine`] holds, with its text as a sequence of characters.
pub struct LineFields {
    pub style: LineStyle,
    pub text: Seq<char>,
}

impl View for DisplayLine {
    type V = LineFields;

    open spec fn view(&self) -> LineFields {
        LineFields { style: self.style, text: self.text@ }
    }
}

/// The views of a run of lines, in order.
pub open spec fn lines_view(lines: Seq<DisplayLine>) -> Seq<LineFields> {
    lines.map_values(|l: DisplayLine| l@)
}

/// First greeting line: who is connected, and where.
pub open spec fn greeting_text(local_user: Seq<char>, channel: Seq<char>) -> Seq<char> {
    "[SYSTEM] Connected as "@ + local_user + " to "@ + channel + " channel\n"@
}

/// Second greeting line: the id the service assigned.
pub open spec fn assigned_id_text(user_id: Seq<char>) -> Seq<char> {
    "[SYSTEM] Your assigned user ID: "@ + user_id + "\n"@
}

/// A notice from the service.
pub open spec fn notice_text(text: Seq<char>) -> Seq<char> {
    "[SYSTEM] "@ + text + "\n"@
}

/// A chat line of the local user.
pub open spec fn own_text(stamp: Seq<char>, text: Seq<char>) -> Seq<char> {
    "You ["@ + stamp + "] > "@ + text + "\n"@
}

/// A chat line of somebody else.
pub open spec fn other_text(author: Seq<char>, stamp: Seq<char>, text: Seq<char>) -> Seq<char> {
    author + " ["@ + stamp + "] > "@ + text + "\n"@
}

/// A frame of unknown kind, marked as such.
pub open spec fn unknown_text(raw: Seq<char>) -> Seq<char> {
    unknown_mark() + raw + "\n"@
}

/// Whether showing `ev` needs the current time: only a chat line that came
/// without a timestamp does.
pub open spec fn needs_clock(ev: EventFields) -> bool {
    ev matches EventFields::ChatMessage { timestamp, .. } && timestamp is None
}

/// The lines that an event gives for the user `local_user`, where `now` is
/// the time to show on a chat line that brought none.
///
/// The greeting names the local user, not one from the wire, and a
/// connection notice without an id gives no line at all.  A chat line is the
/// user's own exactly when its author equals `local_user`.
pub open spec fn rendered(ev: EventFields, local_user: Seq<char>, now: Seq<char>) -> Seq<
    LineFields,
> {
    match ev {
        EventFields::Connected { user_id, channel } => match user_id {
            Some(id) => seq![
                LineFields { style: LineStyle::Title, text: greeting_text(local_user, channel) },
                LineFields { style: LineStyle::Title, text: assigned_id_text(id) },
            ],
            None => Seq::<LineFields>::empty(),
        },
        EventFields::SystemNotice { text } => seq![
            LineFields { style: LineStyle::Secondary, text: notice_text(text) },
        ],
        EventFields::ChatMessage { username, timestamp, text } => {
            let stamp = match timestamp {
                Some(t) => t,
                None => now,
            };
            if username == local_user {
                seq![LineFields { style: LineStyle::Plain, text: own_text(stamp, text) }]
            } else {
                seq![
                    LineFields {
                        style: LineStyle::Secondary,
                        text: other_text(username, stamp, text),
                    },
                ]
            }
        },
        EventFields::Unknown { raw } => seq![
            LineFields { style: LineStyle::Secondary, text: unknown_text(raw) },
        ],
    }
}

/// Whether `part` stands somewhere in `line`, whole and unbroken.
pub open spec fn holds_text(line: Seq<char>, part: Seq<char>) -> bool {
    exists|i: int|
        0 <= i && i + part.len() <= line.len() && #[trigger] line.subrange(i, i + part.len())
            == part
}

/// Whether `line` begins with `head`.
pub open spec fn begins_with(line: Seq<char>, head: Seq<char>) -> bool {
    head.len() <= line.len() && line.subrange(0, head.len() as int) == head
}

/// The mark put in front of a frame of unknown kind.
pub open spec fn unknown_mark() -> Seq<char> {
    "[UNKNOWN] "@
}

/// A chat frame gives exactly one line, and its content stands in that line
/// letter for letter, whoever wrote it and whatever the time.
pub proof fn lemma_chat_line_shows_its_text(m: WireFields, local_user: Seq<char>, now: Seq<char>)
    requires
        m.kind == tag_chat(),
    ensures
        rendered(event_of(m), local_user, now).len() == 1,
        holds_text(rendered(event_of(m), local_user, now)[0].text, m.content),
{
    lemma_known_tags_differ();
    let ev = event_of(m);
    let author = match m.username {
        Some(u) => u,
        None => default_author(),
    };
    let stamp = match m.timestamp {
        Some(t) => t,
        None => now,
    };
    assert(ev == EventFields::ChatMessage {
        username: author,
        timestamp: m.timestamp,
        text: m.content,
    });
    let line = rendered(ev, local_user, now)[0].text;
    let head = if author == local_user {
        "You ["@ + stamp + "] > "@
    } else {
        author + " ["@ + stamp + "] > "@
    };
    assert(line == head + m.content + "\n"@);
    let i = head.len() as int;
    assert(line.subrange(i, i + m.content.len()) =~= m.content);
}

/// A frame with a tag that is not known gives exactly one line, which begins
/// with the unknown mark and holds the frame's content after it.
pub proof fn lemma_unknown_tag_is_marked(m: WireFields, local_user: Seq<char>, now: Seq<char>)
    requires
        !known_tag(m.kind),
    ensures
        rendered(event_of(m), local_user, now).len() == 1,
        rendered(event_of(m), local_user, now)[0].text == unknown_text(m.content),
        begins_with(unknown_text(m.content), unknown_mark()),
        holds_text(unknown_text(m.content), m.content),
{
    let line = unknown_text(m.content);
    let k = unknown_mark().len() as int;
    assert(line.subrange(0, k) =~= unknown_mark());
    assert(line.subrange(k, k + m.content.len()) =~= m.content);
}

/// The pattern in which the clock is asked for the time of day.
pub const CLOCK_PATTERN: &'static str = "%H:%M:%S";

/// The local time of day as text.
///
/// Calls `chrono::Local::now`, then `format` and `to_string` on what it
/// gives.  The result depends on the clock and the time zone of the machine,
/// so nothing is claimed of it.  The pattern is held to the one this crate
/// uses, which chrono can always format.  chrono itself gives up where the
/// machine's clock stands before the year 1970.
#[verifier::external_body]
fn clock_text(pattern: &str) -> (now: String)
    requires
        pattern@ == CLOCK_PATTERN@,
{
    chrono::Local::now().format(pattern).to_string()
}

/// Turns one event into its lines, with `now` as the time to show where the
/// event brought none.
pub fn render_event(ev: &ServerEvent, local_user: &str, now: &str) -> (lines: Vec<DisplayLine>)
    ensures
        lines_view(lines@) == rendered(ev@, local_user@, now@),
{
    let mut lines: Vec<DisplayLine> = Vec::new();
    match ev {
        ServerEvent::Connected { user_id, channel } => {
            match user_id {
                Some(id) => {
                    let mut first: String = "[SYSTEM] Connected as ".to_owned();
                    first.append(local_user);
                    first.append(" to ");
                    first.append(channel.as_str());
                    first.append(" channel\n");
                    let mut second: String = "[SYSTEM] Your assigned user ID: ".to_owned();
                    second.append(id.as_str());
                    second.append("\n");
                    lines.push(DisplayLine { style: LineStyle::Title, text: first });
                    lines.push(DisplayLine { style: LineStyle::Title, text: second });
                },
                None => {},
            }
        },
        ServerEvent::SystemNotice { text } => {
            let mut t: String = "[SYSTEM] ".to_owned();
            t.append(text.as_str());
            t.append("\n");
            lines.push(DisplayLine { style: LineStyle::Secondary, text: t });
        },
        ServerEvent::ChatMessage { username, timestamp, text } => {
            let stamp: &str = match timestamp {
                Some(t) => t.as_str(),
                None => now,
            };
            if same_text(username.as_str(), local_user) {
                let mut t: String = "You [".to_owned();
                t.append(stamp);
                t.append("] > ");
                t.append(text.as_str());
                t.append("\n");
                lines.push(DisplayLine { style: LineStyle::Plain, text: t });
            } else {
                let mut t: String = username.clone();
                t.append(" [");
                t.append(stamp);
                t.append("] > ");
                t.append(text.as_str());
                t.append("\n");
                lines.push(DisplayLine { style: LineStyle::Secondary, text: t });
            }
        },
        ServerEvent::Unknown { raw } => {
            let mut t: String = "[UNKNOWN] ".to_owned();
            t.append(raw.as_str());
            t.append("\n");
            lines.push(DisplayLine { style: LineStyle::Secondary, text: t });
        },
    }
    assert(lines_view(lines@) =~= rendered(ev@, local_user@, now@));
    lines
}

/// Turns one event into its lines, reading the clock where the event brought
/// no time of its own.
///
/// For every event but a chat line without a timestamp the lines are fixed by
/// the event and the user.  For such a chat line they are those of
/// [`render_event`] for some time text, whatever the clock gave.
pub fn render_event_now(ev: &ServerEvent, local_user: &str) -> (lines: Vec<DisplayLine>)
    ensures
        !needs_clock(ev@) ==> lines_view(lines@) == rendered(ev@, local_user@, Seq::empty()),
        exists|now: Seq<char>| lines_view(lines@) == rendered(ev@, local_user@, now),
{
    let wants_clock: bool = match ev {
        ServerEvent::ChatMessage { timestamp, .. } => timestamp.is_none(),
        _ => false,
    };
    if wants_clock {
        let now: String = clock_text(CLOCK_PATTERN);
        render_event(ev, local_user, now.as_str())
    } else {
        let lines = render_event(ev, local_user, "");
        proof {
            reveal_strlit("");
            assert(""@ =~= Seq::<char>::empty());
        }
        lines
    }
}

/// One thing that can happen to the relay while it waits.
#[derive(Debug, Clone, PartialEq, Eq)]
pub enum RelayEvent {
    /// The session's shutdown signal changed.
    ShutdownChanged,
    /// The next event came off the inbound queue.
    Arrived { event: ServerEvent },
    /// The inbound queue was closed: no event will come any more.
    QueueClosed,
}

/// What the relay does next.
#[derive(Debug, Clone, PartialEq, Eq)]
pub enum RelayAction {
    /// Leave the loop.
    Stop,
    /// Hand these lines to the message view, in this order, then go on
    /// waiting.
    Show { lines: Vec<DisplayLine> },
}

/// What a [`RelayEvent`] holds, as sequences of characters.
pub enum RelayEventFields {
    ShutdownChanged,
    Arrived { event: EventFields },
    QueueClosed,
}

/// What a [`RelayAction`] holds, as sequences of characters.
pub enum RelayActionFields {
    Stop,
    Show { lines: Seq<LineFields> },
}

impl View for RelayEvent {
    type V = RelayEventFields;

    open spec fn view(&self) -> RelayEventFields {
        match self {
            RelayEvent::ShutdownChanged => RelayEventFields::ShutdownChanged,
            RelayEvent::Arrived { event } => RelayEventFields::Arrived { event: event@ },
            RelayEvent::QueueClosed => RelayEventFields::QueueClosed,
        }
    }
}

impl View for RelayAction {
    type V = RelayActionFields;

    open spec fn view(&self) -> RelayActionFields {
        match self {
            RelayAction::Stop => RelayActionFields::Stop,
            RelayAction::Show { lines } => RelayActionFields::Show { lines: lines_view(lines@) },
        }
    }
}

/// The action that answers a relay event, where `now` is the time to show on
/// a chat line that brought none.
pub open spec fn relay_action(
    ev: RelayEventFields,
    local_user: Seq<char>,
    now: Seq<char>,
) -> RelayActionFields {
    match ev {
        RelayEventFields::ShutdownChanged => RelayActionFields::Stop,
        RelayEventFields::Arrived { event } => RelayActionFields::Show {
            lines: rendered(event, local_user, now),
        },
        RelayEventFields::QueueClosed => RelayActionFields::Stop,
    }
}

/// Whether answering `ev` needs the current time.
pub open spec fn relay_needs_clock(ev: RelayEventFields) -> bool {
    ev matches RelayEventFields::Arrived { event } && needs_clock(event)
}

/// One turn of the relay between the inbound queue and the message view.
///
/// The relay stops when the signal changes or the queue is closed.  An event
/// that arrives is shown, whatever its kind: the relay never fails on one.
/// Where the event needs the time it is read from the clock, so the action
/// is that of [`relay_action`] for some time text; otherwise it is fixed by
/// the event and the user.
pub fn relay_step(ev: RelayEvent, local_user: &str) -> (act: RelayAction)
    ensures
        !relay_needs_clock(ev@) ==> act@ == relay_action(ev@, local_user@, Seq::empty()),
        exists|now: Seq<char>| act@ == relay_action(ev@, local_user@, now),
{
    match ev {
        RelayEvent::ShutdownChanged => {
            assert(RelayActionFields::Stop == relay_action(ev@, local_user@, Seq::empty()));
            RelayAction::Stop
        },
        RelayEvent::Arrived { event } => {
            let lines = render_event_now(&event, local_user);
            let act = RelayAction::Show { lines };
            proof {
                let now = choose|now: Seq<char>|
                    lines_view(lines@) == rendered(event@, local_user@, now);
                assert(act@ == relay_action(ev@, local_user@, now));
            }
            act
        },
        RelayEvent::QueueClosed => {
            assert(RelayActionFields::Stop == relay_action(ev@, local_user@, Seq::empty()));
            RelayAction::Stop
        },
    }
}

} // verus!
