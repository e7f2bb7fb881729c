//! The session controller: one session's state, its shutdown signal and its
//! outbound queue.

use vstd::prelude::*;
use vstd::string::*;
use crate::shutdown::ShutdownSignal;

verus! {

/// Where a session stands.
#[derive(Debug, Clone, Copy, PartialEq, Eq, Structural)]
pub enum SessionState {
    /// No session: the login prompt is up.
    Idle,
    /// A session was started and its connection is being made.
    Connecting,
    /// The connection stands.
    Active,
    /// The session is over and nothing has taken its place yet.
    Terminated,
}

/// Why a session was not started.
#[derive(Debug, Clone, Copy, PartialEq, Eq, Structural)]
pub enum StartError {
    /// The username was empty.
    EmptyUsername,
    /// The channel was empty.
    EmptyChannel,
    /// The controller was not idle: the session before has not been logged
    /// out of.
    NotIdle,
}

/// How a finished handshake is to be taken.
#[derive(Debug, Clone, Copy, PartialEq, Eq, Structural)]
pub enum Handshake {
    /// The connection stands and the session is active.
    Established,
    /// The connection could not be made.  There is no way back from this:
    /// the caller ends the program.
    Fatal,
    /// No session was waiting for a connection; nothing changed.
    Ignored,
}

/// What a controller holds, as mathematical values.
pub struct SessionFields {
    pub username: Seq<char>,
    pub channel: Seq<char>,
    pub state: SessionState,
    /// Whether the shutdown signal of the current session is raised.
    pub shutdown: bool,
    /// The texts waiting to be sent, oldest first.
    pub outbound: Seq<Seq<char>>,
}

/// The views of a run of strings, in order.
pub open spec fn texts_view(texts: Seq<String>) -> Seq<Seq<char>> {
    texts.map_values(|t: String| t@)
}

/// A controller before any login.
pub open spec fn idle_fields() -> SessionFields {
    SessionFields {
        username: Seq::empty(),
        channel: Seq::empty(),
        state: SessionState::Idle,
        shutdown: false,
        outbound: Seq::empty(),
    }
}

/// What `start` gives: the error, or the controller with its new session.
///
/// A new session is connecting, has a lowered signal of its own and an empty
/// queue.
pub open spec fn start_result(s: SessionFields, username: Seq<char>, channel: Seq<char>) -> Result<
    SessionFields,
    StartError,
> {
    if username.len() == 0 {
        Err(StartError::EmptyUsername)
    } else if channel.len() == 0 {
        Err(StartError::EmptyChannel)
    } else if s.state != SessionState::Idle {
        Err(StartError::NotIdle)
    } else {
        Ok(
            SessionFields {
                username,
                channel,
                state: SessionState::Connecting,
                shutdown: false,
                outbound: Seq::empty(),
            },
        )
    }
}

/// The controller after the handshake ended, well (`ok`) or not.
pub open spec fn after_handshake(s: SessionFields, ok: bool) -> SessionFields {
    if s.state == SessionState::Connecting && ok {
        SessionFields { state: SessionState::Active, ..s }
    } else {
        s
    }
}

/// How the end of a handshake is taken.
pub open spec fn handshake_verdict(s: SessionFields, ok: bool) -> Handshake {
    if s.state != SessionState::Connecting {
        Handshake::Ignored
    } else if ok {
        Handshake::Established
    } else {
        Handshake::Fatal
    }
}

/// The controller after the peer closed an active session.  The signal is
/// not touched.
pub open spec fn after_peer_closed(s: SessionFields) -> SessionFields {
    if s.state == SessionState::Active {
        SessionFields { state: SessionState::Terminated, ..s }
    } else {
        s
    }
}

/// The controller after a logout: signal raised, back to idle.
pub open spec fn after_logout(s: SessionFields) -> SessionFields {
    SessionFields { state: SessionState::Idle, shutdown: true, ..s }
}

/// The controller after quitting: signal raised, session over.
pub open spec fn after_quit(s: SessionFields) -> SessionFields {
    SessionFields { state: SessionState::Terminated, shutdown: true, ..s }
}

/// The controller with one more text at the back of its queue.
pub open spec fn after_enqueue(s: SessionFields, text: Seq<char>) -> SessionFields {
    SessionFields { outbound: s.outbound.push(text), ..s }
}

/// The address to connect to for a user and a channel.  Both are put into
/// the query as they are.
pub open spec fn target_text(username: Seq<char>, channel: Seq<char>) -> Seq<char> {
    "ws://localhost:8080/ws?username="@ + username + "&channel="@ + channel
}

/// The message shown for a start that was refused.
pub open spec fn error_text(e: StartError) -> Seq<char> {
    match e {
        StartError::EmptyUsername => "Username and channel cannot be empty!"@,
        StartError::EmptyChannel => "Username and channel cannot be empty!"@,
        StartError::NotIdle => "A session is already running!"@,
    }
}

impl StartError {
    /// The message to show the user.
    pub fn message(&self) -> (text: String)
        ensures
            text@ == error_text(*self),
    {
        match self {
            StartError::EmptyUsername => "Username and channel cannot be empty!".to_owned(),
            StartError::EmptyChannel => "Username and channel cannot be empty!".to_owned(),
            StartError::NotIdle => "A session is already running!".to_owned(),
        }
    }
}

/// Builds the address to connect to.
pub fn connection_target(username: &str, channel: &str) -> (target: String)
    ensures
        target@ == target_text(username@, channel@),
{
    let mut target: String = "ws://localhost:8080/ws?username=".to_owned();
    target.append(username);
    target.append("&channel=");
    target.append(channel);
    target
}

/// Owner of the one session a client has at a time.
///
/// It holds the names the session was started with, the session's state, its
/// shutdown signal and its queue of texts that wait to be sent.
#[derive(Debug)]
pub struct SessionController {
    username: String,
    channel: String,
    state: SessionState,
    shutdown: ShutdownSignal,
    outbound: Vec<String>,
}

impl View for SessionController {
    type V = SessionFields;

    closed spec fn view(&self) -> SessionFields {
        SessionFields {
            username: self.username@,
            channel: self.channel@,
            state: self.state,
            shutdown: self.shutdown@,
            outbound: texts_view(self.outbound@),
        }
    }
}

impl SessionController {
    /// A controller with no session.
    pub fn new() -> (c: Self)
        ensures
            c@ == idle_fields(),
    {
        let c = SessionController {
            username: String::new(),
            channel: String::new(),
            state: SessionState::Idle,
            shutdown: ShutdownSignal::new(),
            outbound: Vec::new(),
        };
        assert(texts_view(c.outbound@) =~= Seq::<Seq<char>>::empty());
        c
    }

    /// Starts a session for `username` on `channel`.
    ///
    /// Both names must hold something, and the controller must be idle.  On
    /// an error nothing changes.  On success the session is connecting, with
    /// a lowered signal of its own and an empty queue.
    pub fn start(&mut self, username: String, channel: String) -> (r: Result<(), StartError>)
        ensures
            match start_result(old(self)@, username@, channel@) {
                Ok(s) => r is Ok && final(self)@ == s,
                Err(e) => r == Err::<(), StartError>(e) && final(self)@ == old(self)@,
            },
    {
        if username.as_str().is_empty() {
            return Err(StartError::EmptyUsername);
        }
        if channel.as_str().is_empty() {
            return Err(StartError::EmptyChannel);
        }
        if self.state != SessionState::Idle {
            return Err(StartError::NotIdle);
        }
        self.username = username;
        self.channel = channel;
        self.state = SessionState::Connecting;
        self.shutdown = ShutdownSignal::new();
        self.outbound = Vec::new();
        assert(texts_view(self.outbound@) =~= Seq::<Seq<char>>::empty());
        Ok(())
    }

    /// Takes note that the handshake ended, well (`ok`) or not.
    ///
    /// A connecting session becomes active on success.  On failure the
    /// verdict is `Fatal` and the state stays as it was.
    pub fn handshake_done(&mut self, ok: bool) -> (verdict: Handshake)
        ensures
            final(self)@ == after_handshake(old(self)@, ok),
            verdict == handshake_verdict(old(self)@, ok),
    {
        if self.state != SessionState::Connecting {
            Handshake::Ignored
        } else if ok {
            self.state = SessionState::Active;
            Handshake::Established
        } else {
            Handshake::Fatal
        }
    }

    /// Takes note that the peer closed the connection or reading failed.
    ///
    /// An active session is over after this; its signal stays as it was.
    /// The result tells whether the state changed.
    pub fn peer_closed(&mut self) -> (changed: bool)
        ensures
            final(self)@ == after_peer_closed(old(self)@),
            changed == (old(self)@.state == SessionState::Active),
    {
        if self.state == SessionState::Active {
            self.state = SessionState::Terminated;
            true
        } else {
            false
        }
    }

    /// Logs out: raises the signal and goes back to idle, without waiting for
    /// anything.  The result tells whether this call raised the signal.
    pub fn logout(&mut self) -> (raised: bool)
        ensures
            final(self)@ == after_logout(old(self)@),
            raised == !old(self)@.shutdown,
    {
        let raised = self.shutdown.raise();
        self.state = SessionState::Idle;
        raised
    }

    /// Quits: raises the signal and ends the session for good.  The result
    /// tells whether this call raised the signal.
    pub fn quit(&mut self) -> (raised: bool)
        ensures
            final(self)@ == after_quit(old(self)@),
            raised == !old(self)@.shutdown,
    {
        let raised = self.shutdown.raise();
        self.state = SessionState::Terminated;
        raised
    }

    /// Puts one text at the back of the outbound queue.  The queue has no
    /// bound, and the text is taken in whatever state the session is.
    pub fn enqueue(&mut self, text: String)
        ensures
            final(self)@ == after_enqueue(old(self)@, text@),
    {
        self.outbound.push(text);
        assert(texts_view(self.outbound@) =~= texts_view(old(self).outbound@).push(text@));
    }

    /// Takes the oldest waiting text off the queue, if there is one.
    pub fn next_outbound(&mut self) -> (next: Option<String>)
        ensures
            match next {
                Some(text) => old(self)@.outbound.len() > 0 && text@ == old(self)@.outbound[0]
                    && final(self)@ == (SessionFields {
                    outbound: old(self)@.outbound.subrange(1, old(self)@.outbound.len() as int),
                    ..old(self)@
                }),
                None => old(self)@.outbound.len() == 0 && final(self)@ == old(self)@,
            },
    {
        if self.outbound.len() == 0 {
            None
        } else {
            let text = self.outbound.remove(0);
            assert(texts_view(self.outbound@) =~= texts_view(old(self).outbound@).subrange(
                1,
                old(self).outbound@.len() as int,
            ));
            Some(text)
        }
    }

    /// The state the session is in.
    pub fn state(&self) -> (st: SessionState)
        ensures
            st == self@.state,
    {
        self.state
    }

    /// Whether the current session's signal is raised.
    pub fn shutdown_requested(&self) -> (b: bool)
        ensures
            b == self@.shutdown,
    {
        self.shutdown.is_set()
    }

    /// The username of the current session.
    pub fn username(&self) -> (name: &str)
        ensures
            name@ == self@.username,
    {
        self.username.as_str()
    }

    /// The channel of the current session.
    pub fn channel(&self) -> (name: &str)
        ensures
            name@ == self@.channel,
    {
        self.channel.as_str()
    }

    /// How many texts wait to be sent.
    pub fn pending(&self) -> (n: usize)
        ensures
            n == self@.outbound.len(),
    {
        self.outbound.len()
    }

    /// The address this session connects to.
    pub fn target(&self) -> (target: String)
        ensures
            target@ == target_text(self@.username, self@.channel),
    {
        connection_target(self.username.as_str(), self.channel.as_str())
    }
}

} // verus!
