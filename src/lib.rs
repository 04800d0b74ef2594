//! Keeps the volume of playback-daemon endpoints and of one audio-server sink
//! in step, without feedback loops.
//!
//! The library holds the decisions of the synchronisation engine; the loops
//! that talk to the two servers run them.
pub mod command;
pub mod scale;
pub mod reconnect;
pub mod playback;
pub mod sink;
pub mod session;
