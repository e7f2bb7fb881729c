//! The command interpreter's second half: what a submitted line does to the
//! session and to the screen.

use vstd::prelude::*;
use vstd::string::*;
use crate::command::command_of;
use crate::command::help_block;
use crate::command::help_fields;
use crate::command::is_reserved;
use crate::command::lemma_reserved_words_differ;
use crate::command::parse_command;
use crate::command::word_clear;
use crate::command::word_logout;
use crate::command::Command;
use crate::command::CommandFields;
use crate::render::lines_view;
use crate::render::DisplayLine;
use crate::render::LineFields;
use crate::session::after_enqueue;
use crate::session::after_handshake;
use crate::session::after_logout;
use crate::session::after_peer_closed;
use crate::session::after_quit;
use crate::session::start_result;
use crate::session::SessionController;
use crate::session::SessionFields;
use crate::session::SessionState;

verus! {

/// What the screen of a session holds, as mathematical values.
pub struct ViewFields {
    /// The message view, oldest line first.
    pub messages: Seq<LineFields>,
    /// The input field.
    pub input: Seq<char>,
}

/// The screen of a session as the interpreter sees it: the message view and
/// the input field.  Whoever draws the screen shows what this holds.
#[derive(Debug)]
pub struct ChatView {
    messages: Vec<DisplayLine>,
    input: String,
}

impl View for ChatView {
    type V = ViewFields;

    closed spec fn view(&self) -> ViewFields {
        ViewFields { messages: lines_view(self.messages@), input: self.input@ }
    }
}

/// An empty screen.
pub open spec fn blank_view() -> ViewFields {
    ViewFields { messages: Seq::empty(), input: Seq::empty() }
}

/// Where the program goes after a line was handled.
#[derive(Debug, Clone, Copy, PartialEq, Eq, Structural)]
pub enum Outcome {
    /// The chat screen stays.
    Stay,
    /// The session was logged out of: the login prompt comes up again.
    PresentLogin,
    /// The program ends.
    Exit,
}

impl ChatView {
    /// An empty screen.
    pub fn new() -> (v: Self)
        ensures
            v@ == blank_view(),
    {
        let v = ChatView { messages: Vec::new(), input: String::new() };
        assert(lines_view(v.messages@) =~= Seq::<LineFields>::empty());
        v
    }

    /// Puts `lines` below what the message view holds, in their order.
    pub fn append(&mut self, lines: Vec<DisplayLine>)
        ensures
            final(self)@ == (ViewFields {
                messages: old(self)@.messages + lines_view(lines@),
                ..old(self)@
            }),
    {
        let mut lines = lines;
        let ghost added = lines@;
        self.messages.append(&mut lines);
        assert(lines_view(self.messages@) =~= lines_view(old(self).messages@) + lines_view(added));
    }

    /// Empties the message view.
    pub fn clear_messages(&mut self)
        ensures
            final(self)@ == (ViewFields { messages: Seq::empty(), ..old(self)@ }),
    {
        self.messages = Vec::new();
        assert(lines_view(self.messages@) =~= Seq::<LineFields>::empty());
    }

    /// Replaces what the input field holds.
    pub fn set_input(&mut self, text: &str)
        ensures
            final(self)@ == (ViewFields { input: text@, ..old(self)@ }),
    {
        self.input = text.to_owned();
    }

    /// Puts a lone slash into the input field, ready for a command word.
    pub fn begin_command(&mut self)
        ensures
            final(self)@ == (ViewFields { input: "/"@, ..old(self)@ }),
    {
        self.input = "/".to_owned();
    }

    /// What the input field holds.
    pub fn input(&self) -> (text: &str)
        ensures
            text@ == self@.input,
    {
        self.input.as_str()
    }

    /// The lines of the message view, oldest first.
    pub fn messages(&self) -> (lines: &Vec<DisplayLine>)
        ensures
            lines_view(lines@) == self@.messages,
    {
        &self.messages
    }
}

/// The session, the screen and the outcome after the line in the input
/// field was submitted.
///
/// Nothing typed changes nothing.  Help and clear act on the message view
/// alone.  Logout and quit act on the session alone, but quitting also
/// empties the input field.  Any other line goes to the back of the outbound
/// queue as it is.  Every case but logout leaves the input field empty.
pub open spec fn submitted(s: SessionFields, v: ViewFields) -> (SessionFields, ViewFields, Outcome) {
    match command_of(v.input) {
        CommandFields::Empty => (s, v, Outcome::Stay),
        CommandFields::Help => (
            s,
            ViewFields { messages: v.messages.push(help_fields()), input: Seq::empty() },
            Outcome::Stay,
        ),
        CommandFields::Clear => (
            s,
            ViewFields { messages: Seq::empty(), input: Seq::empty() },
            Outcome::Stay,
        ),
        CommandFields::Logout => (after_logout(s), v, Outcome::PresentLogin),
        CommandFields::Quit => (
            after_quit(s),
            ViewFields { input: Seq::empty(), ..v },
            Outcome::Exit,
        ),
        CommandFields::Say { text } => (
            after_enqueue(s, text),
            ViewFields { input: Seq::empty(), ..v },
            Outcome::Stay,
        ),
    }
}

/// Handles the line that stands in the input field of `view`.
pub fn submit(session: &mut SessionController, view: &mut ChatView) -> (outcome: Outcome)
    ensures
        (final(session)@, final(view)@, outcome) == submitted(old(session)@, old(view)@),
{
    let command = parse_command(view.input.as_str());
    match command {
        Command::Empty => {
            Outcome::Stay
        },
        Command::Help => {
            view.messages.push(help_block());
            view.input = String::new();
            assert(lines_view(view.messages@) =~= lines_view(old(view).messages@).push(
                help_fields(),
            ));
            Outcome::Stay
        },
        Command::Clear => {
            view.clear_messages();
            view.input = String::new();
            Outcome::Stay
        },
        Command::Logout => {
            let _ = session.logout();
            Outcome::PresentLogin
        },
        Command::Quit => {
            let _ = session.quit();
            view.input = String::new();
            Outcome::Exit
        },
        Command::Say { text } => {
            session.enqueue(text);
            view.input = String::new();
            Outcome::Stay
        },
    }
}

/// A line that is neither empty nor a reserved word puts exactly one text on
/// the outbound queue, equal to the line, touches nothing else of the
/// session, and leaves the input field empty.
pub proof fn lemma_chat_line_is_queued_once(s: SessionFields, v: ViewFields)
    requires
        v.input.len() > 0,
        !is_reserved(v.input),
    ensures
        submitted(s, v).0 == (SessionFields { outbound: s.outbound.push(v.input), ..s }),
        submitted(s, v).0.outbound.len() == s.outbound.len() + 1,
        submitted(s, v).0.outbound.last() == v.input,
        submitted(s, v).1.input == Seq::<char>::empty(),
        submitted(s, v).1.messages == v.messages,
        submitted(s, v).2 == Outcome::Stay,
{
}

/// A reserved word, and an empty line too, leaves the outbound queue as it
/// was: nothing is sent for them.
pub proof fn lemma_reserved_words_queue_nothing(s: SessionFields, v: ViewFields)
    requires
        is_reserved(v.input) || v.input.len() == 0,
    ensures
        submitted(s, v).0.outbound == s.outbound,
{
}

/// Every line but logout leaves the input field empty.
pub proof fn lemma_input_is_emptied(s: SessionFields, v: ViewFields)
    requires
        v.input != word_logout(),
    ensures
        submitted(s, v).1.input == Seq::<char>::empty(),
{
    if v.input.len() == 0 {
        assert(v.input =~= Seq::<char>::empty());
    }
}

/// Clearing twice in a row leaves the message view empty after the first
/// time and after the second.
pub proof fn lemma_clear_twice(s: SessionFields, v: ViewFields)
    requires
        v.input == word_clear(),
    ensures
        submitted(s, v).1.messages == Seq::<LineFields>::empty(),
        ({
            let once = submitted(s, v);
            let again = submitted(once.0, ViewFields { input: word_clear(), ..once.1 });
            again.1.messages == Seq::<LineFields>::empty() && again.0 == s
        }),
{
    lemma_reserved_words_differ();
}

/// Only logout and quit raise the signal: any other line, the end of a
/// handshake and the peer closing leave it as it was.  And nothing lowers a
/// raised signal within its session.
pub proof fn lemma_signal_moves_only_up(s: SessionFields, v: ViewFields, ok: bool)
    ensures
        !(command_of(v.input) is Logout) && !(command_of(v.input) is Quit) ==> submitted(
            s,
            v,
        ).0.shutdown == s.shutdown,
        command_of(v.input) is Logout || command_of(v.input) is Quit ==> submitted(
            s,
            v,
        ).0.shutdown,
        s.shutdown ==> submitted(s, v).0.shutdown,
        after_handshake(s, ok).shutdown == s.shutdown,
        after_peer_closed(s).shutdown == s.shutdown,
{
}

/// A session that is over stays over until it is logged out of: no other
/// line, no news from the network and no attempt to start anew moves it.
pub proof fn lemma_only_logout_leaves_terminated(
    s: SessionFields,
    v: ViewFields,
    ok: bool,
    username: Seq<char>,
    channel: Seq<char>,
)
    requires
        s.state == SessionState::Terminated,
    ensures
        !(command_of(v.input) is Logout) ==> submitted(s, v).0.state == SessionState::Terminated,
        command_of(v.input) is Logout ==> submitted(s, v).0.state == SessionState::Idle,
        after_handshake(s, ok) == s,
        after_peer_closed(s) == s,
        start_result(s, username, channel) is Err,
{
}

/// After a logout the signal of the session reads raised and the controller
/// is idle; a session started next has a signal of its own that reads
/// lowered.
pub proof fn lemma_logout_then_fresh_session(
    s: SessionFields,
    v: ViewFields,
    username: Seq<char>,
    channel: Seq<char>,
)
    requires
        v.input == word_logout(),
        username.len() > 0,
        channel.len() > 0,
    ensures
        submitted(s, v).0.shutdown,
        submitted(s, v).0.state == SessionState::Idle,
        submitted(s, v).2 == Outcome::PresentLogin,
        start_result(submitted(s, v).0, username, channel) matches Ok(next) && !next.shutdown
            && next.state == SessionState::Connecting && next.outbound.len() == 0,
{
    lemma_reserved_words_differ();
}

} // verus!
