//! What a container holds, for every sequence of bytes.
//!
//! A container is read in one pass from its first byte to its last. The
//! functions here say what each part of that pass finds, given how far the
//! pass has come; [`decode`] puts them together. Nothing here runs: the
//! decoder in [`crate::decoder`] is proved to compute exactly this.

use crate::bytes::{le_i16, le_i32, le_u24};
use crate::error::{bad_gps_database_at, bad_terminator_at, eof_at, FWFileLabel, ParseError};
use crate::file::{FWFile, FWFileKind, FWMetadata, FileInfo, FileInfoBase, GpsDbFileInfo};
use crate::format::{
    code_in_word, descrambled, model_of_code, version_in_word, GpsDbCountry, GpsDbType, RDModel,
    OLD_IL_GPS_DB_KEY, OLD_NZ_GPS_DB_KEY, OLD_US_GPS_DB_KEY, SOUND_DB_KEY,
};
use crate::util::{block_span, padded_length};
use vstd::prelude::*;

verus! {

/// How far a pass over a container has come.
pub struct Walk {
    /// The offset of the next byte.
    pub at: int,
    /// The ranges read so far, oldest first.
    pub noted: Seq<(u64, u64)>,
    /// The sections found so far, in the order in which they lie.
    pub files: Seq<FWFile>,
    /// What is known of the container as a whole.
    pub metadata: FWMetadata,
}

/// The lengths that the header announces: those of the three fixed sections
/// padded, that of the sound database as it stands. Zero says that a section
/// is absent.
pub struct Lengths {
    pub ui: int,
    pub dsp: int,
    pub gps: int,
    pub sound: int,
}

/// What a record of twelve bytes announces, by its tag.
#[derive(Clone, Copy, Debug, PartialEq, Eq, Structural)]
pub enum Tag {
    /// A section of the given kind.
    Section(FWFileLabel),
    /// The trailer of a merge file.
    Merge,
    /// Something this decoder does not know.
    Unknown,
}

/// A pass that has not begun.
pub open spec fn start() -> Walk {
    Walk {
        at: 0,
        noted: Seq::empty(),
        files: Seq::empty(),
        metadata: FWMetadata { model: RDModel::Unknown, format_version: 0, new_merge_file: false },
    }
}

/// Reading `n` bytes: refused if they are not all there, else noted.
pub open spec fn take(buf: Seq<u8>, w: Walk, n: int) -> Result<Walk, ParseError> {
    if w.at + n <= buf.len() {
        Ok(Walk { at: w.at + n, noted: w.noted.push((w.at as u64, (w.at + n) as u64)), ..w })
    } else {
        Err(eof_at(w.at))
    }
}

/// Passing over `n` bytes unread: refused if `n` is negative or leads past
/// the end.
pub open spec fn skip(buf: Seq<u8>, w: Walk, n: int) -> Result<Walk, ParseError> {
    if 0 <= n && w.at + n <= buf.len() {
        Ok(Walk { at: w.at + n, ..w })
    } else {
        Err(eof_at(w.at))
    }
}

/// The seven bytes `DRSW` and three more.
pub open spec fn marker(a: u8, b: u8, c: u8) -> Seq<u8> {
    // `DRSW`
    seq![0x44u8, 0x52u8, 0x53u8, 0x57u8, a, b, c]
}

/// The marker that closes a section of each kind.
pub open spec fn terminator(label: FWFileLabel) -> Seq<u8> {
    match label {
        FWFileLabel::UiNu => marker(0x4D, 0x41, 0x49),  // `DRSWMAI`
        FWFileLabel::DspNu => marker(0x44, 0x53, 0x50),  // `DRSWDSP`
        FWFileLabel::GpsNu => marker(0x53, 0x55, 0x42),  // `DRSWSUB`
        FWFileLabel::SoundDbnu => marker(0x53, 0x44, 0x42),  // `DRSWSDB`
        FWFileLabel::GpsDb => marker(0x47, 0x44, 0x42),  // `DRSWGDB`
        FWFileLabel::GpsDbSecond => marker(0x47, 0x41, 0x45),  // `DRSWGAE`
        FWFileLabel::Ble => marker(0x42, 0x4C, 0x45),  // `DRSWBLE`
        FWFileLabel::Keypad => marker(0x4B, 0x45, 0x59),  // `DRSWKEY`
        FWFileLabel::LaserIf => marker(0x4C, 0x53, 0x52),  // `DRSWLSR`
        FWFileLabel::UiStm => marker(0x53, 0x54, 0x55),  // `DRSWSTU`
        FWFileLabel::DspStm => marker(0x53, 0x54, 0x44),  // `DRSWSTD`
        FWFileLabel::GpsStm => marker(0x53, 0x54, 0x47),  // `DRSWSTG`
        FWFileLabel::UiNu2 => marker(0x4E, 0x32, 0x55),  // `DRSWN2U`
        FWFileLabel::DspNu2 => marker(0x4E, 0x32, 0x44),  // `DRSWN2D`
        FWFileLabel::DspNu3 => marker(0x4E, 0x33, 0x44),  // `DRSWN3D`
        FWFileLabel::GpsNu2 => marker(0x4E, 0x32, 0x47),  // `DRSWN2G`
        FWFileLabel::GpsNu3 => marker(0x4E, 0x33, 0x47),  // `DRSWN3G`
        FWFileLabel::SoundDbla1 => marker(0x53, 0x54, 0x53),  // `DRSWSTS`
        FWFileLabel::SoundDbla2 => marker(0x53, 0x55, 0x53),  // `DRSWSUS`
    }
}

/// What the four bytes of a tag announce.
pub open spec fn classify(tag: Seq<u8>) -> Tag {
    if tag == seq![0x47u8, 0x50u8, 0x53u8, 0x44u8] {
        // `GPSD`
        Tag::Section(FWFileLabel::GpsDb)
    } else if tag == seq![0x47u8, 0x41u8, 0x53u8, 0x44u8] {
        // `GASD`
        Tag::Section(FWFileLabel::GpsDbSecond)
    } else if tag == seq![0x42u8, 0x4Cu8, 0x45u8, 0x53u8] {
        // `BLES`
        Tag::Section(FWFileLabel::Ble)
    } else if tag == seq![0x4Bu8, 0x45u8, 0x59u8, 0x53u8] {
        // `KEYS`
        Tag::Section(FWFileLabel::Keypad)
    } else if tag == seq![0x4Cu8, 0x53u8, 0x52u8, 0x53u8] {
        // `LSRS`
        Tag::Section(FWFileLabel::LaserIf)
    } else if tag == seq![0x53u8, 0x54u8, 0x55u8, 0x49u8] {
        // `STUI`
        Tag::Section(FWFileLabel::UiStm)
    } else if tag == seq![0x53u8, 0x54u8, 0x44u8, 0x53u8] {
        // `STDS`
        Tag::Section(FWFileLabel::DspStm)
    } else if tag == seq![0x53u8, 0x54u8, 0x47u8, 0x50u8] {
        // `STGP`
        Tag::Section(FWFileLabel::GpsStm)
    } else if tag == seq![0x4Eu8, 0x32u8, 0x55u8, 0x49u8] {
        // `N2UI`
        Tag::Section(FWFileLabel::UiNu2)
    } else if tag == seq![0x4Eu8, 0x32u8, 0x44u8, 0x53u8] {
        // `N2DS`
        Tag::Section(FWFileLabel::DspNu2)
    } else if tag == seq![0x4Eu8, 0x33u8, 0x44u8, 0x53u8] {
        // `N3DS`
        Tag::Section(FWFileLabel::DspNu3)
    } else if tag == seq![0x4Eu8, 0x32u8, 0x47u8, 0x50u8] {
        // `N2GP`
        Tag::Section(FWFileLabel::GpsNu2)
    } else if tag == seq![0x4Eu8, 0x33u8, 0x47u8, 0x50u8] {
        // `N3GP`
        Tag::Section(FWFileLabel::GpsNu3)
    } else if tag == seq![0x53u8, 0x54u8, 0x53u8, 0x44u8] {
        // `STSD`
        Tag::Section(FWFileLabel::SoundDbla1)
    } else if tag == seq![0x53u8, 0x55u8, 0x53u8, 0x44u8] {
        // `SUSD`
        Tag::Section(FWFileLabel::SoundDbla2)
    } else if tag == seq![0x4Eu8, 0x4Du8, 0x47u8, 0x46u8] {
        // `NMGF`
        Tag::Merge
    } else {
        Tag::Unknown
    }
}

/// The kind `label` with `info`. A GPS database holds more than that: made
/// here, it has no count, no country, and a protection that is not
/// determined, which no database of an accepted container has.
pub open spec fn kind_with(label: FWFileLabel, info: FileInfo) -> FWFileKind {
    match label {
        FWFileLabel::UiNu => FWFileKind::UiNu(info),
        FWFileLabel::UiStm => FWFileKind::UiStm(info),
        FWFileLabel::UiNu2 => FWFileKind::UiNu2(info),
        FWFileLabel::DspNu => FWFileKind::DspNu(info),
        FWFileLabel::DspStm => FWFileKind::DspStm(info),
        FWFileLabel::DspNu2 => FWFileKind::DspNu2(info),
        FWFileLabel::DspNu3 => FWFileKind::DspNu3(info),
        FWFileLabel::GpsNu => FWFileKind::GpsNu(info),
        FWFileLabel::GpsStm => FWFileKind::GpsStm(info),
        FWFileLabel::GpsNu2 => FWFileKind::GpsNu2(info),
        FWFileLabel::GpsNu3 => FWFileKind::GpsNu3(info),
        FWFileLabel::SoundDbnu => FWFileKind::SoundDbnu(info),
        FWFileLabel::SoundDbla1 => FWFileKind::SoundDbla1(info),
        FWFileLabel::SoundDbla2 => FWFileKind::SoundDbla2(info),
        FWFileLabel::Ble => FWFileKind::Ble(info),
        FWFileLabel::Keypad => FWFileKind::Keypad(info),
        FWFileLabel::LaserIf => FWFileKind::LaserIf(info),
        FWFileLabel::GpsDb => FWFileKind::GpsDb(undetermined(info)),
        FWFileLabel::GpsDbSecond => FWFileKind::GpsDbSecond(undetermined(info)),
    }
}

/// A GPS database of which only the place is known.
pub open spec fn undetermined(info: FileInfo) -> GpsDbFileInfo {
    GpsDbFileInfo { info: info.base_spec(), poi: 0, file_type: GpsDbType::Unknown, country: None }
}

/// The section of kind `label` that lies at `base`.
pub open spec fn plain_file(label: FWFileLabel, base: FileInfoBase) -> FWFile {
    FWFile { kind: kind_with(label, FileInfo::Base(base)), info: FileInfo::Base(base) }
}

/// The GPS database described by `gps`, the second one or the first.
pub open spec fn gps_file(second: bool, gps: GpsDbFileInfo) -> FWFile {
    FWFile {
        kind: if second {
            FWFileKind::GpsDbSecond(gps)
        } else {
            FWFileKind::GpsDb(gps)
        },
        info: FileInfo::GpsDb(gps),
    }
}

/// The version in the model and version word at `at`.
pub open spec fn word_version(buf: Seq<u8>, at: int) -> i32 {
    version_in_word(le_i16(buf, at) as i16) as i32
}

/// The version of a sound database whose closing block starts at `at`: the
/// first four bytes of the block, descrambled, hold it in their low half.
pub open spec fn sound_version(buf: Seq<u8>, at: int) -> i32 {
    version_in_word(le_i16(descrambled(SOUND_DB_KEY, buf.subrange(at, at + 4)), 0) as i16) as i32
}

/// The header: three lengths of four bytes each, the first of which keeps
/// its top byte for flags, and, if the lowest flag is set, twelve bytes more
/// whose last four are the length of the sound database.
pub open spec fn header(buf: Seq<u8>, w: Walk) -> Result<(Lengths, Walk), ParseError> {
    match take(buf, w, 4) {
        Err(e) => Err(e),
        Ok(w1) => match take(buf, w1, 4) {
            Err(e) => Err(e),
            Ok(w2) => match take(buf, w2, 4) {
                Err(e) => Err(e),
                Ok(w3) => {
                    let ui = padded_length(le_u24(buf, w.at));
                    let dsp = padded_length(le_i32(buf, w1.at));
                    let gps = padded_length(le_i32(buf, w2.at));
                    if buf[w.at + 3] % 2 == 1 {
                        match take(buf, w3, 12) {
                            Err(e) => Err(e),
                            Ok(w4) => Ok(
                                (Lengths { ui, dsp, gps, sound: le_i32(buf, w3.at + 8) }, w4),
                            ),
                        }
                    } else {
                        Ok((Lengths { ui, dsp, gps, sound: 0 }, w3))
                    }
                },
            },
        },
    }
}

/// A section of `length` bytes closed by a model and version word and a
/// marker: it starts where the pass stands, and is refused if the marker is
/// not that of its kind.
pub open spec fn plain_section(buf: Seq<u8>, w: Walk, length: int, label: FWFileLabel) -> Result<
    Walk,
    ParseError,
> {
    match skip(buf, w, length) {
        Err(e) => Err(e),
        Ok(w1) => match take(buf, w1, 9) {
            Err(e) => Err(e),
            Ok(w2) => if buf.subrange(w1.at + 2, w1.at + 9) != terminator(label) {
                Err(bad_terminator_at(label, w1.at + 2))
            } else {
                Ok(
                    Walk {
                        files: w2.files.push(
                            plain_file(
                                label,
                                FileInfoBase {
                                    length: length as i32,
                                    offset: w.at as i32,
                                    version: word_version(buf, w1.at),
                                },
                            ),
                        ),
                        ..w2
                    },
                )
            },
        },
    }
}

/// The first section, which also tells the model of the device.
pub open spec fn ui_section(buf: Seq<u8>, w: Walk, length: int) -> Result<Walk, ParseError> {
    match plain_section(buf, w, length, FWFileLabel::UiNu) {
        Err(e) => Err(e),
        Ok(w1) => Ok(
            Walk {
                metadata: FWMetadata {
                    model: model_of_code(code_in_word(le_i16(buf, w.at + length) as i16) as u8),
                    ..w1.metadata
                },
                ..w1
            },
        ),
    }
}

/// A sound database of `length` bytes: its last twelve bytes are a block
/// that holds the version, and after `gap` more bytes comes its marker.
pub open spec fn sound_section(
    buf: Seq<u8>,
    w: Walk,
    length: int,
    label: FWFileLabel,
    gap: int,
) -> Result<Walk, ParseError> {
    match skip(buf, w, length - 12) {
        Err(e) => Err(e),
        Ok(w1) => match take(buf, w1, 12) {
            Err(e) => Err(e),
            Ok(w2) => match skip(buf, w2, gap) {
                Err(e) => Err(e),
                Ok(w3) => match take(buf, w3, 7) {
                    Err(e) => Err(e),
                    Ok(w4) => if buf.subrange(w3.at, w3.at + 7) != terminator(label) {
                        Err(bad_terminator_at(label, w3.at))
                    } else {
                        Ok(
                            Walk {
                                files: w4.files.push(
                                    plain_file(
                                        label,
                                        FileInfoBase {
                                            length: length as i32,
                                            offset: w.at as i32,
                                            version: sound_version(buf, w1.at),
                                        },
                                    ),
                                ),
                                ..w4
                            },
                        )
                    },
                },
            },
        },
    }
}

/// How a GPS database is protected and which country it is for, by its
/// identifier of four bytes; `None` for an identifier that is not known.
pub open spec fn database_scheme(id: Seq<u8>) -> Option<(GpsDbType, GpsDbCountry)> {
    if id == seq![0x4Cu8, 0x52u8, 0x44u8, 0x42u8] {
        // `LRDB`
        Some((GpsDbType::GpsDbOldEnc, GpsDbCountry::Us))
    } else if id == seq![0x44u8, 0x46u8, 0x44u8, 0x42u8] {
        // `DFDB`
        Some((GpsDbType::GpsDbOldEnc, GpsDbCountry::Nz))
    } else if id == seq![0x49u8, 0x52u8, 0x44u8, 0x42u8] {
        // `IRDB`
        Some((GpsDbType::GpsDbOldEnc, GpsDbCountry::Il))
    } else if id == seq![0x41u8, 0x45u8, 0x55u8, 0x53u8] {
        // `AEUS`
        Some((GpsDbType::GpsDbAes128, GpsDbCountry::Us))
    } else if id == seq![0x41u8, 0x45u8, 0x4Eu8, 0x5Au8] {
        // `AENZ`
        Some((GpsDbType::GpsDbAes128, GpsDbCountry::Nz))
    } else if id == seq![0x41u8, 0x45u8, 0x49u8, 0x4Cu8] {
        // `AEIL`
        Some((GpsDbType::GpsDbAes128, GpsDbCountry::Il))
    } else if id == seq![0x41u8, 0x45u8, 0x45u8, 0x55u8] {
        // `AEEU`
        Some((GpsDbType::GpsDbAes128, GpsDbCountry::Eu))
    } else {
        None
    }
}

/// The key of the older databases of a country. There are none for Europe.
pub open spec fn old_key(country: GpsDbCountry) -> u8 {
    match country {
        GpsDbCountry::Us => OLD_US_GPS_DB_KEY,
        GpsDbCountry::Nz => OLD_NZ_GPS_DB_KEY,
        GpsDbCountry::Il => OLD_IL_GPS_DB_KEY,
        GpsDbCountry::Eu => 0,
    }
}

/// The number of points of interest in a database whose closing block
/// starts at `at`: its first four bytes, descrambled with the key of the
/// country in an older database, as they stand in a newer one.
pub open spec fn poi_count(buf: Seq<u8>, at: int, file_type: GpsDbType, country: GpsDbCountry) -> i32 {
    if file_type == GpsDbType::GpsDbOldEnc {
        le_i32(descrambled(old_key(country), buf.subrange(at, at + 4)), 0) as i32
    } else {
        le_i32(buf, at) as i32
    }
}

/// A GPS database of `length` bytes: its last twelve bytes are a block of
/// the count of points, the version and the identifier; the second database
/// has two bytes more before its marker.
pub open spec fn gps_section(buf: Seq<u8>, w: Walk, length: int, second: bool) -> Result<
    Walk,
    ParseError,
> {
    let label = if second {
        FWFileLabel::GpsDbSecond
    } else {
        FWFileLabel::GpsDb
    };
    match skip(buf, w, length - 12) {
        Err(e) => Err(e),
        Ok(w1) => match take(buf, w1, 12) {
            Err(e) => Err(e),
            Ok(w2) => match database_scheme(buf.subrange(w1.at + 8, w1.at + 12)) {
                None => Err(bad_gps_database_at(w1.at + 8)),
                Some((file_type, country)) => match skip(
                    buf,
                    w2,
                    if second {
                        2
                    } else {
                        0
                    },
                ) {
                    Err(e) => Err(e),
                    Ok(w3) => match take(buf, w3, 7) {
                        Err(e) => Err(e),
                        Ok(w4) => if buf.subrange(w3.at, w3.at + 7) != terminator(label) {
                            Err(bad_terminator_at(label, w3.at))
                        } else {
                            Ok(
                                Walk {
                                    files: w4.files.push(
                                        gps_file(
                                            second,
                                            GpsDbFileInfo {
                                                info: FileInfoBase {
                                                    length: length as i32,
                                                    offset: w.at as i32,
                                                    version: le_i32(buf, w1.at + 4) as i32,
                                                },
                                                poi: poi_count(buf, w1.at, file_type, country),
                                                file_type,
                                                country: Some(country),
                                            },
                                        ),
                                    ),
                                    ..w4
                                },
                            )
                        },
                    },
                },
            },
        },
    }
}

/// The block size of a tagged section that is stored padded.
pub open spec fn block_of(label: FWFileLabel) -> int {
    if label == FWFileLabel::Ble {
        1024
    } else {
        512
    }
}

/// A tagged section that is stored padded. Its record gives the length
/// before padding. A span of no bytes at all, which only a negative length
/// gives, is no section: nothing is read and nothing listed.
pub open spec fn aux_section(buf: Seq<u8>, w: Walk, raw: int, label: FWFileLabel) -> Result<
    Walk,
    ParseError,
> {
    if block_span(raw, block_of(label)) == 0 {
        Ok(w)
    } else {
        plain_section(buf, w, block_span(raw, block_of(label)), label)
    }
}

/// How many bytes follow the record of an unknown tag: tags that end in
/// `SD` are taken to give the length as it stands, all others the length
/// before padding; either way nine bytes close the section.
pub open spec fn unknown_span(tag: Seq<u8>, raw: int) -> int {
    // `SD`
    if tag[2] == 0x53 && tag[3] == 0x44 {
        raw + 9
    } else {
        padded_length(raw) + 9
    }
}

/// The trailer of a merge file counts only as the last thing in the buffer.
/// There it gives the version of the format; anywhere else it says nothing.
pub open spec fn merge_trailer(buf: Seq<u8>, w: Walk, raw: int) -> Walk {
    if w.at == buf.len() {
        Walk {
            metadata: FWMetadata { format_version: raw as i32, new_merge_file: true, ..w.metadata },
            ..w
        }
    } else {
        w
    }
}

/// One record of twelve bytes, a tag in the first four and a length in the
/// last four, and the section it announces.
pub open spec fn record(buf: Seq<u8>, w: Walk) -> Result<Walk, ParseError> {
    match take(buf, w, 12) {
        Err(e) => Err(e),
        Ok(w1) => {
            let tag = buf.subrange(w.at, w.at + 4);
            let raw = le_i32(buf, w.at + 8);
            match classify(tag) {
                Tag::Section(FWFileLabel::GpsDb) => gps_section(buf, w1, raw, false),
                Tag::Section(FWFileLabel::GpsDbSecond) => gps_section(buf, w1, raw, true),
                Tag::Section(FWFileLabel::SoundDbla1) => sound_section(
                    buf,
                    w1,
                    raw,
                    FWFileLabel::SoundDbla1,
                    0,
                ),
                Tag::Section(FWFileLabel::SoundDbla2) => sound_section(
                    buf,
                    w1,
                    raw,
                    FWFileLabel::SoundDbla2,
                    2,
                ),
                Tag::Section(label) => aux_section(buf, w1, raw, label),
                Tag::Merge => Ok(merge_trailer(buf, w1, raw)),
                Tag::Unknown => skip(buf, w1, unknown_span(tag, raw)),
            }
        },
    }
}

/// The records that follow the fixed sections, up to the end of the buffer.
pub open spec fn records(buf: Seq<u8>, w: Walk) -> Result<Walk, ParseError>
    decreases buf.len() - w.at,
    via records_decreases
{
    if w.at == buf.len() {
        Ok(w)
    } else {
        match record(buf, w) {
            Err(e) => Err(e),
            Ok(w1) => records(buf, w1),
        }
    }
}

#[via_fn]
proof fn records_decreases(buf: Seq<u8>, w: Walk) {
    if w.at != buf.len() {
        if let Ok(w1) = record(buf, w) {
            lemma_record_advances(buf, w);
        }
    }
}

/// A record that is accepted leaves the pass at least twelve bytes further
/// and still inside the buffer.
pub proof fn lemma_record_advances(buf: Seq<u8>, w: Walk)
    requires
        record(buf, w) is Ok,
    ensures
        w.at + 12 <= record(buf, w)->Ok_0.at <= buf.len(),
{
}

/// A section of the header, which a length of zero says is absent.
pub open spec fn fixed_section(buf: Seq<u8>, w: Walk, length: int, label: FWFileLabel) -> Result<
    Walk,
    ParseError,
> {
    if length == 0 {
        Ok(w)
    } else if label == FWFileLabel::UiNu {
        ui_section(buf, w, length)
    } else if label == FWFileLabel::SoundDbnu {
        sound_section(buf, w, length, label, 0)
    } else {
        plain_section(buf, w, length, label)
    }
}

/// The fixed sections that the header `lengths` announce, in their order.
pub open spec fn fixed_sections(buf: Seq<u8>, w: Walk, lengths: Lengths) -> Result<
    Walk,
    ParseError,
> {
    match fixed_section(buf, w, lengths.ui, FWFileLabel::UiNu) {
        Err(e) => Err(e),
        Ok(w1) => match fixed_section(buf, w1, lengths.dsp, FWFileLabel::DspNu) {
            Err(e) => Err(e),
            Ok(w2) => match fixed_section(buf, w2, lengths.gps, FWFileLabel::GpsNu) {
                Err(e) => Err(e),
                Ok(w3) => fixed_section(buf, w3, lengths.sound, FWFileLabel::SoundDbnu),
            },
        },
    }
}

/// What a whole container holds, or why it is refused: the header, the
/// fixed sections, then records to the end.
pub open spec fn decode(buf: Seq<u8>) -> Result<Walk, ParseError> {
    match header(buf, start()) {
        Err(e) => Err(e),
        Ok((lengths, w0)) => match fixed_sections(buf, w0, lengths) {
            Err(e) => Err(e),
            Ok(w1) => records(buf, w1),
        },
    }
}

/// Whether the two ways in which a section says what is known of it agree.
pub open spec fn consistent(file: FWFile) -> bool {
    match file.kind {
        FWFileKind::GpsDb(gps) | FWFileKind::GpsDbSecond(gps) => {
            &&& file.info == FileInfo::GpsDb(gps)
            &&& gps.file_type != GpsDbType::Unknown
            &&& gps.country is Some
        },
        FWFileKind::UiNu(info)
        | FWFileKind::UiStm(info)
        | FWFileKind::UiNu2(info)
        | FWFileKind::DspNu(info)
        | FWFileKind::DspStm(info)
        | FWFileKind::DspNu2(info)
        | FWFileKind::DspNu3(info)
        | FWFileKind::GpsNu(info)
        | FWFileKind::GpsStm(info)
        | FWFileKind::GpsNu2(info)
        | FWFileKind::GpsNu3(info)
        | FWFileKind::SoundDbnu(info)
        | FWFileKind::SoundDbla1(info)
        | FWFileKind::SoundDbla2(info)
        | FWFileKind::Ble(info)
        | FWFileKind::Keypad(info)
        | FWFileKind::LaserIf(info) => file.info == info && info is Base,
    }
}

/// Whether a section is not empty and lies in the first `limit` bytes.
pub open spec fn lies_within(file: FWFile, limit: int) -> bool {
    let base = file.info.base_spec();
    &&& 0 <= base.offset
    &&& 0 < base.length
    &&& base.offset + base.length <= limit
}

/// Whether every one of `files` is consistent, not empty, and lies in the
/// first `limit` bytes.
pub open spec fn all_within(files: Seq<FWFile>, limit: int) -> bool {
    forall|i: int|
        0 <= i < files.len() ==> consistent(#[trigger] files[i]) && lies_within(files[i], limit)
}

/// Whether the ranges come one after the other, none reaching back into
/// the one before, and all end in the first `limit` bytes.
pub open spec fn reads_in_order(noted: Seq<(u64, u64)>, limit: int) -> bool {
    &&& forall|i: int| 0 <= i < noted.len() ==> (#[trigger] noted[i]).0 <= noted[i].1 <= limit
    &&& forall|i: int, j: int|
        0 <= i < j < noted.len() ==> (#[trigger] noted[i]).1 <= (#[trigger] noted[j]).0
}

/// Whether the sections lie one after the other, in the order in which
/// they are listed, and none reaches into the next.
pub open spec fn one_after_the_other(files: Seq<FWFile>) -> bool {
    forall|i: int, j: int|
        0 <= i < j < files.len() ==> (#[trigger] files[i]).info.base_spec().offset
            + files[i].info.base_spec().length <= (#[trigger] files[j]).info.base_spec().offset
}

/// Whether a pass is in order: it stands inside a buffer whose offsets fit
/// in an `i32`, every section it has listed lies before it, and so does
/// every range it has read, each after the one before.
pub open spec fn orderly(buf: Seq<u8>, w: Walk) -> bool {
    &&& 0 <= w.at <= buf.len() <= i32::MAX
    &&& all_within(w.files, w.at)
    &&& one_after_the_other(w.files)
    &&& reads_in_order(w.noted, w.at)
}

/// A plain section that is accepted and not empty keeps a pass in order.
pub proof fn lemma_plain_section_orderly(buf: Seq<u8>, w: Walk, length: int, label: FWFileLabel)
    requires
        orderly(buf, w),
        length != 0,
        label != FWFileLabel::GpsDb,
        label != FWFileLabel::GpsDbSecond,
        plain_section(buf, w, length, label) is Ok,
    ensures
        orderly(buf, plain_section(buf, w, length, label)->Ok_0),
{
}

/// A sound database that is accepted keeps a pass in order.
pub proof fn lemma_sound_section_orderly(
    buf: Seq<u8>,
    w: Walk,
    length: int,
    label: FWFileLabel,
    gap: int,
)
    requires
        orderly(buf, w),
        gap >= 0,
        label != FWFileLabel::GpsDb,
        label != FWFileLabel::GpsDbSecond,
        sound_section(buf, w, length, label, gap) is Ok,
    ensures
        orderly(buf, sound_section(buf, w, length, label, gap)->Ok_0),
{
}

/// A GPS database that is accepted keeps a pass in order.
pub proof fn lemma_gps_section_orderly(buf: Seq<u8>, w: Walk, length: int, second: bool)
    requires
        orderly(buf, w),
        gps_section(buf, w, length, second) is Ok,
    ensures
        orderly(buf, gps_section(buf, w, length, second)->Ok_0),
{
}

/// A record that is accepted keeps a pass in order.
pub proof fn lemma_record_orderly(buf: Seq<u8>, w: Walk)
    requires
        orderly(buf, w),
        record(buf, w) is Ok,
    ensures
        orderly(buf, record(buf, w)->Ok_0),
{
    let w1 = take(buf, w, 12)->Ok_0;
    let tag = buf.subrange(w.at, w.at + 4);
    let raw = le_i32(buf, w.at + 8);
    assert(orderly(buf, w1));
    match classify(tag) {
        Tag::Section(FWFileLabel::GpsDb) => lemma_gps_section_orderly(buf, w1, raw, false),
        Tag::Section(FWFileLabel::GpsDbSecond) => lemma_gps_section_orderly(buf, w1, raw, true),
        Tag::Section(FWFileLabel::SoundDbla1) => lemma_sound_section_orderly(
            buf,
            w1,
            raw,
            FWFileLabel::SoundDbla1,
            0,
        ),
        Tag::Section(FWFileLabel::SoundDbla2) => lemma_sound_section_orderly(
            buf,
            w1,
            raw,
            FWFileLabel::SoundDbla2,
            2,
        ),
        Tag::Section(label) => {
            if block_span(raw, block_of(label)) != 0 {
                lemma_plain_section_orderly(buf, w1, block_span(raw, block_of(label)), label);
            }
        },
        Tag::Merge => {},
        Tag::Unknown => {},
    }
}

/// Records that are accepted to the end keep a pass in order and leave it
/// at the end of the buffer.
pub proof fn lemma_records_orderly(buf: Seq<u8>, w: Walk)
    requires
        orderly(buf, w),
        records(buf, w) is Ok,
    ensures
        orderly(buf, records(buf, w)->Ok_0),
        records(buf, w)->Ok_0.at == buf.len(),
    decreases buf.len() - w.at,
{
    if w.at != buf.len() {
        lemma_record_advances(buf, w);
        lemma_record_orderly(buf, w);
        lemma_records_orderly(buf, record(buf, w)->Ok_0);
    }
}

/// In every container that is accepted, each section listed is consistent,
/// holds at least one byte, starts at an offset that is not negative, and
/// lies inside the buffer after the section listed before it; the ranges
/// read lie one after the other; and the pass has come to the end of the
/// buffer.
pub proof fn lemma_decode_orderly(buf: Seq<u8>)
    requires
        buf.len() <= i32::MAX,
        decode(buf) is Ok,
    ensures
        orderly(buf, decode(buf)->Ok_0),
        decode(buf)->Ok_0.at == buf.len(),
{
    let (lengths, w0) = header(buf, start())->Ok_0;
    assert(orderly(buf, w0));
    let w1 = fixed_section(buf, w0, lengths.ui, FWFileLabel::UiNu)->Ok_0;
    if lengths.ui != 0 {
        lemma_plain_section_orderly(buf, w0, lengths.ui, FWFileLabel::UiNu);
    }
    assert(orderly(buf, w1));
    let w2 = fixed_section(buf, w1, lengths.dsp, FWFileLabel::DspNu)->Ok_0;
    if lengths.dsp != 0 {
        lemma_plain_section_orderly(buf, w1, lengths.dsp, FWFileLabel::DspNu);
    }
    let w3 = fixed_section(buf, w2, lengths.gps, FWFileLabel::GpsNu)->Ok_0;
    if lengths.gps != 0 {
        lemma_plain_section_orderly(buf, w2, lengths.gps, FWFileLabel::GpsNu);
    }
    let w4 = fixed_section(buf, w3, lengths.sound, FWFileLabel::SoundDbnu)->Ok_0;
    if lengths.sound != 0 {
        lemma_sound_section_orderly(buf, w3, lengths.sound, FWFileLabel::SoundDbnu, 0);
    }
    lemma_records_orderly(buf, w4);
}

/// The bytes a header takes: twelve, and twelve more if it announces a
/// sound database.
pub open spec fn header_len(buf: Seq<u8>) -> int {
    if buf[3] % 2 == 1 {
        24
    } else {
        12
    }
}

/// A container that holds a first section and nothing else: the header
/// announces no other section, and the buffer ends with the marker of the
/// first. It is accepted, lists that one section, tells the model, and is no
/// merge file.
pub proof fn lemma_first_section_alone(buf: Seq<u8>)
    requires
        12 <= buf.len() <= i32::MAX,
        buf[3] % 2 == 0,
        le_u24(buf, 0) != 0,
        le_i32(buf, 4) == 0,
        le_i32(buf, 8) == 0,
        buf.len() == 12 + padded_length(le_u24(buf, 0)) + 9,
        buf.subrange(buf.len() - 7, buf.len() as int) == terminator(FWFileLabel::UiNu),
    ensures
        decode(buf) is Ok,
        decode(buf)->Ok_0.files == seq![
            plain_file(
                FWFileLabel::UiNu,
                FileInfoBase {
                    length: padded_length(le_u24(buf, 0)) as i32,
                    offset: 12,
                    version: word_version(buf, buf.len() - 9),
                },
            ),
        ],
        decode(buf)->Ok_0.metadata == (FWMetadata {
            model: model_of_code(code_in_word(le_i16(buf, buf.len() - 9) as i16) as u8),
            format_version: 0,
            new_merge_file: false,
        }),
{
    let (lengths, w0) = header(buf, start())->Ok_0;
    assert(lengths.ui == buf.len() - 21);
    let w1 = ui_section(buf, w0, lengths.ui)->Ok_0;
    assert(w1.at == buf.len());
    assert(fixed_sections(buf, w0, lengths) == Ok::<Walk, ParseError>(w1));
    assert(w1.files =~= seq![
        plain_file(
            FWFileLabel::UiNu,
            FileInfoBase {
                length: padded_length(le_u24(buf, 0)) as i32,
                offset: 12,
                version: word_version(buf, buf.len() - 9),
            },
        ),
    ]);
}

/// A container whose first section is all there but does not end with its
/// marker is refused for that marker, whatever follows.
pub proof fn lemma_first_marker_refused(buf: Seq<u8>)
    requires
        4 <= buf.len() <= i32::MAX,
        le_u24(buf, 0) != 0,
        header_len(buf) + padded_length(le_u24(buf, 0)) + 9 <= buf.len(),
        buf.subrange(
            header_len(buf) + padded_length(le_u24(buf, 0)) + 2,
            header_len(buf) + padded_length(le_u24(buf, 0)) + 9,
        ) != terminator(FWFileLabel::UiNu),
    ensures
        decode(buf) == Err::<Walk, ParseError>(
            bad_terminator_at(
                FWFileLabel::UiNu,
                header_len(buf) + padded_length(le_u24(buf, 0)) + 2,
            ),
        ),
{
    let (lengths, w0) = header(buf, start())->Ok_0;
    assert(w0.at == header_len(buf));
    assert(plain_section(buf, w0, lengths.ui, FWFileLabel::UiNu) is Err);
}

/// The tag `GPSD`.
pub open spec fn tag_gpsd() -> Seq<u8> {
    seq![0x47u8, 0x50u8, 0x53u8, 0x44u8]
}

/// The identifier `LRDB`.
pub open spec fn id_lrdb() -> Seq<u8> {
    seq![0x4Cu8, 0x52u8, 0x44u8, 0x42u8]
}

/// The tag `NMGF`.
pub open spec fn tag_nmgf() -> Seq<u8> {
    seq![0x4Eu8, 0x4Du8, 0x47u8, 0x46u8]
}

/// A record `GPSD` that is accepted and whose database ends with the
/// identifier `LRDB` lists one more section: a first GPS database for the
/// United States, scrambled the older way, whose count of points is the
/// first four bytes of its closing block descrambled with the key for the
/// United States.
pub proof fn lemma_older_us_database(buf: Seq<u8>, w: Walk)
    requires
        0 <= w.at,
        record(buf, w) is Ok,
        buf.subrange(w.at, w.at + 4) == tag_gpsd(),
        buf.subrange(w.at + 12 + le_i32(buf, w.at + 8) - 4, w.at + 12 + le_i32(buf, w.at + 8))
            == id_lrdb(),
    ensures
        ({
            let length = le_i32(buf, w.at + 8);
            let block = w.at + 12 + length - 12;
            let gps = GpsDbFileInfo {
                info: FileInfoBase {
                    length: length as i32,
                    offset: (w.at + 12) as i32,
                    version: le_i32(buf, block + 4) as i32,
                },
                poi: le_i32(descrambled(OLD_US_GPS_DB_KEY, buf.subrange(block, block + 4)), 0) as i32,
                file_type: GpsDbType::GpsDbOldEnc,
                country: Some(GpsDbCountry::Us),
            };
            &&& record(buf, w)->Ok_0.files == w.files.push(
                FWFile { kind: FWFileKind::GpsDb(gps), info: FileInfo::GpsDb(gps) },
            )
            &&& record(buf, w)->Ok_0.metadata == w.metadata
            &&& record(buf, w)->Ok_0.at == block + 12 + 7
        }),
{
}

/// A record `NMGF` is always accepted and lists nothing. As the last twelve
/// bytes of the buffer it makes the container a merge file and gives the
/// version of the format, the number in its last four bytes; anywhere else
/// it changes nothing.
pub proof fn lemma_merge_record(buf: Seq<u8>, w: Walk)
    requires
        0 <= w.at,
        w.at + 12 <= buf.len(),
        buf.subrange(w.at, w.at + 4) == tag_nmgf(),
    ensures
        record(buf, w) is Ok,
        record(buf, w)->Ok_0.at == w.at + 12,
        record(buf, w)->Ok_0.files == w.files,
        w.at + 12 == buf.len() ==> record(buf, w)->Ok_0.metadata == (FWMetadata {
            format_version: le_i32(buf, w.at + 8) as i32,
            new_merge_file: true,
            ..w.metadata
        }),
        w.at + 12 < buf.len() ==> record(buf, w)->Ok_0.metadata == w.metadata,
{
}

/// A record with a tag that is not known and does not end in `SD` is passed
/// over together with the padded length it gives and nine bytes more, if
/// that much is there, and lists nothing; if it is not, the container is
/// refused where the record ends.
pub proof fn lemma_unknown_record(buf: Seq<u8>, w: Walk)
    requires
        0 <= w.at,
        w.at + 12 <= buf.len(),
        classify(buf.subrange(w.at, w.at + 4)) == Tag::Unknown,
        !(buf[w.at + 2] == 0x53 && buf[w.at + 3] == 0x44),
    ensures
        ({
            let span = padded_length(le_i32(buf, w.at + 8)) + 9;
            if 0 <= span && w.at + 12 + span <= buf.len() {
                &&& record(buf, w) is Ok
                &&& record(buf, w)->Ok_0.at == w.at + 12 + span
                &&& record(buf, w)->Ok_0.files == w.files
                &&& record(buf, w)->Ok_0.metadata == w.metadata
            } else {
                record(buf, w) == Err::<Walk, ParseError>(eof_at(w.at + 12))
            }
        }),
{
    let tag = buf.subrange(w.at, w.at + 4);
    assert(tag[2] == buf[w.at + 2] && tag[3] == buf[w.at + 3]);
}

} // verus!
