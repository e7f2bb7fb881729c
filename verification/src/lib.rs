//! Verified core of a terminal chat client.
//!
//! The crate holds the decisions of one chat session: how typed input is
//! classified, how the session moves between its states, what the network
//! side does with each thing that happens to it, and how inbound events
//! become lines on the screen.  Sockets, async tasks and widgets live outside
//! and feed these functions plain values.

pub mod client;
pub mod command;
pub mod frame;
pub mod message;
pub mod network;
pub mod render;
pub mod session;
pub mod shutdown;
pub mod text;
