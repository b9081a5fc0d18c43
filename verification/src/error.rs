//! Why a container was refused, and where.

use vstd::prelude::*;

verus! {

/// The nineteen kinds of section, without what is known of one.
#[derive(Clone, Copy, Debug, PartialEq, Eq, Structural)]
pub enum FWFileLabel {
    UiNu,
    UiStm,
    UiNu2,
    DspNu,
    DspStm,
    DspNu2,
    DspNu3,
    GpsNu,
    GpsStm,
    GpsNu2,
    GpsNu3,
    SoundDbnu,
    SoundDbla1,
    SoundDbla2,
    GpsDb,
    GpsDbSecond,
    Ble,
    Keypad,
    LaserIf,
}

/// What was wrong with the container.
#[derive(Clone, Copy, Debug, PartialEq, Eq, Structural)]
pub enum ParseErrorKind {
    /// A read or a skip would have passed the end of the buffer.
    UnexpectedEof,
    /// The marker that closes the named section is not the expected one.
    MalformedTerminator(FWFileLabel),
    /// The identifier of a GPS database is none of the seven known ones.
    MalformedGpsDatabase,
}

/// A refusal: its kind, and the offset in the buffer at which the cursor
/// stood when the failing read, skip or comparison was made. For a marker or
/// an identifier that is the offset of its first byte.
#[derive(Clone, Copy, Debug, PartialEq, Eq, Structural)]
pub struct ParseError {
    pub kind: ParseErrorKind,
    pub position: u64,
}

/// The refusal of a read or skip attempted at `position`.
pub open spec fn eof_at(position: int) -> ParseError {
    ParseError { kind: ParseErrorKind::UnexpectedEof, position: position as u64 }
}

/// The refusal of the marker of `label` that starts at `position`.
pub open spec fn bad_terminator_at(label: FWFileLabel, position: int) -> ParseError {
    ParseError { kind: ParseErrorKind::MalformedTerminator(label), position: position as u64 }
}

/// The refusal of the database identifier that starts at `position`.
pub open spec fn bad_gps_database_at(position: int) -> ParseError {
    ParseError { kind: ParseErrorKind::MalformedGpsDatabase, position: position as u64 }
}

} // verus!
