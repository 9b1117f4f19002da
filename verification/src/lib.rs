//! Core of a terminal chat client: an append-only transcript of conversation
//! turns, a cursor-addressed input buffer, a scroll engine that keeps the view
//! inside its bounds, a renderer that turns the transcript into styled display
//! lines, a completion client that builds one outbound request and settles its
//! reply, and the session state machine that ties them together.

pub mod input;
pub mod render;
pub mod scroll;
pub mod session;
pub mod text;
pub mod transcript;
pub mod wire;
