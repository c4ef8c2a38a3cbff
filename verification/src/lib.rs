//! Core of a keyboard and mouse macro recorder.
//!
//! The crate holds the decisions of recording and replaying input macros:
//! which observed events enter a recording, which synthesized actions a
//! recorded sequence turns into, and how the recorder moves between its
//! lifecycle states. It performs no input or output itself. A host program
//! installs the listeners, runs the pointer picker and drives the synthesis
//! backend, and hands plain values in and out of the functions here.

pub mod capture;
pub mod capture_laws;
pub mod control;
pub mod event;
pub mod playback;
pub mod replay_laws;
pub mod resolver;
pub mod resolver_laws;
pub mod ydotool;
