//! Flash-target driver for ESP32-family chips.
//!
//! A flashing session has three operations: attach the flash
//! ([`begin`]), write a segment ([`write`]), close the session ([`finish`]).
//! Each is written down as its script, the actions of a run in which nothing
//! fails, and carried out one action at a time: the operation hands out an
//! action, the caller performs it on the device and reports the outcome, and
//! the operation decides what comes next ([`operation`]). The library itself
//! never touches the transport, so every decision it takes is open to proof.
//!
//! A segment travels compressed. The zlib codec is `flate2`'s ([`codec`]); how
//! the stream is cut into blocks and how much flash is erased for it is worked
//! out in [`layout`].

pub mod begin;
pub mod chip;
pub mod codec;
pub mod command;
pub mod error;
pub mod finish;
pub mod layout;
pub mod operation;
pub mod segment;
pub mod target;
pub mod write;
