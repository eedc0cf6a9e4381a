//! Casting of locally hosted video to a network media receiver.
//!
//! The crate holds the decisions of a cast session: which addresses a
//! multicast scan yields and under which names, how a session moves from idle
//! to streaming and back, what the background status loop does with each
//! message of the receiver, and which wire command a playback request turns
//! into. Every function here works on plain values; the caller owns sockets,
//! threads and clocks, performs the action a function names and reports what
//! happened as the next event.

pub mod address;
pub mod api;
pub mod cast;
pub mod command;
pub mod discovery;
pub mod error;
pub mod poller;
pub mod status;
pub mod text;
pub mod video_encoding;

