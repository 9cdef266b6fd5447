//! Driver core for a serial-in/parallel-out shift register controlled over
//! five GPIO lines.
//!
//! The hardware itself is out of reach of the verifier, so the library is
//! organised around *traces*: every operation is described as the exact
//! sequence of pin-level effects ([`driver::Step`]) it performs, and the
//! higher layers (actions, patterns, the mode state machine) are proved to
//! emit exactly the sequences the protocol calls for.  A thin platform
//! layer outside the library replays a trace against the real pins.

pub mod pins;
pub mod driver;
pub mod actions;
pub mod pattern;
pub mod control;
