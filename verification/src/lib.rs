//! Decoder for the firmware containers of a family of radar detectors.
//!
//! A container packs several images back to back: three fixed sections
//! announced by a header, an optional sound database, and then any number of
//! tagged sections. [`file::UnidenFirmware::read_buffer`] walks a container
//! once and lists what it holds; [`grammar`] says, as mathematics, what that
//! list is for every sequence of bytes.

pub mod bytes;
pub mod coverage;
pub mod decoder;
pub mod error;
pub mod file;
pub mod format;
pub mod grammar;
pub mod util;
