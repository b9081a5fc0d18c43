//! The decoder: one pass over a container, a step at a time.
//!
//! Every step is proved to do what [`crate::grammar`] says of it.

use crate::bytes::{four_are, i16_from_le, i32_from_le};
use crate::error::{eof_at, FWFileLabel, ParseError, ParseErrorKind};
use crate::file::{FWFile, FWFileKind, FWMetadata, FileInfo, FileInfoBase, GpsDbFileInfo};
use crate::format::{
    decode_old_model, rd_version, GpsDbCountry, GpsDbType, RDModel, OLD_IL_GPS_DB_KEY,
    OLD_NZ_GPS_DB_KEY, OLD_US_GPS_DB_KEY, SOUND_DB_KEY,
};
use crate::grammar;
use crate::grammar::{Lengths, Tag, Walk};
use crate::util::{padded_span, span_in_blocks, CursorHelper, TrackingCursor};
use vstd::prelude::*;

verus! {

/// Whether a step that returned `r` and left the pass at `after` did what
/// `expected` says: the same refusal, or success and the same pass.
pub open spec fn agrees<T>(expected: Result<Walk, ParseError>, after: Walk, r: Result<T, ParseError>) -> bool {
    match expected {
        Ok(w) => r is Ok && after == w,
        Err(e) => r is Err && r->Err_0 == e,
    }
}

/// The lengths that the header announces.
pub struct HeaderLengths {
    pub ui: i64,
    pub dsp: i64,
    pub gps: i64,
    pub sound: i32,
}

impl HeaderLengths {
    pub open spec fn lengths(self) -> Lengths {
        Lengths {
            ui: self.ui as int,
            dsp: self.dsp as int,
            gps: self.gps as int,
            sound: self.sound as int,
        }
    }
}

/// Whether the seven bytes of `b` that start at `at` are the marker that
/// closes a section of kind `label`.
pub fn marker_is(b: &[u8], at: usize, label: FWFileLabel) -> (same: bool)
    requires
        at + 7 <= b@.len(),
    ensures
        same == (b@.subrange(at as int, at + 7) == grammar::terminator(label)),
{
    let total: usize = b.len();
    let (x, y, z): (u8, u8, u8) = match label {
        FWFileLabel::UiNu => (0x4D, 0x41, 0x49),  // `MAI`
        FWFileLabel::DspNu => (0x44, 0x53, 0x50),  // `DSP`
        FWFileLabel::GpsNu => (0x53, 0x55, 0x42),  // `SUB`
        FWFileLabel::SoundDbnu => (0x53, 0x44, 0x42),  // `SDB`
        FWFileLabel::GpsDb => (0x47, 0x44, 0x42),  // `GDB`
        FWFileLabel::GpsDbSecond => (0x47, 0x41, 0x45),  // `GAE`
        FWFileLabel::Ble => (0x42, 0x4C, 0x45),  // `BLE`
        FWFileLabel::Keypad => (0x4B, 0x45, 0x59),  // `KEY`
        FWFileLabel::LaserIf => (0x4C, 0x53, 0x52),  // `LSR`
        FWFileLabel::UiStm => (0x53, 0x54, 0x55),  // `STU`
        FWFileLabel::DspStm => (0x53, 0x54, 0x44),  // `STD`
        FWFileLabel::GpsStm => (0x53, 0x54, 0x47),  // `STG`
        FWFileLabel::UiNu2 => (0x4E, 0x32, 0x55),  // `N2U`
        FWFileLabel::DspNu2 => (0x4E, 0x32, 0x44),  // `N2D`
        FWFileLabel::DspNu3 => (0x4E, 0x33, 0x44),  // `N3D`
        FWFileLabel::GpsNu2 => (0x4E, 0x32, 0x47),  // `N2G`
        FWFileLabel::GpsNu3 => (0x4E, 0x33, 0x47),  // `N3G`
        FWFileLabel::SoundDbla1 => (0x53, 0x54, 0x53),  // `STS`
        FWFileLabel::SoundDbla2 => (0x53, 0x55, 0x53),  // `SUS`
    };
    // `DRSW`
    let head = four_are(b, at, 0x44, 0x52, 0x53, 0x57);
    let same = head && b[at + 4] == x && b[at + 5] == y && b[at + 6] == z;
    proof {
        let part = b@.subrange(at as int, at + 7);
        let first = b@.subrange(at as int, at + 4);
        assert(part[0] == first[0] && part[1] == first[1] && part[2] == first[2] && part[3]
            == first[3]);
        assert(part[4] == b@[at + 4] && part[5] == b@[at + 5] && part[6] == b@[at + 6]);
        assert(grammar::terminator(label) == grammar::marker(x, y, z));
        if same {
            assert(part =~= grammar::marker(x, y, z));
        } else if part == grammar::marker(x, y, z) {
            assert(first =~= seq![0x44u8, 0x52u8, 0x53u8, 0x57u8]);
        }
    }
    same
}

/// What the tag in the first four bytes of a record announces.
pub fn classify_tag(record: &[u8]) -> (tag: Tag)
    requires
        record@.len() >= 4,
    ensures
        tag == grammar::classify(record@.subrange(0, 4)),
{
    if four_are(record, 0, 0x47, 0x50, 0x53, 0x44) {
        // `GPSD`
        Tag::Section(FWFileLabel::GpsDb)
    } else if four_are(record, 0, 0x47, 0x41, 0x53, 0x44) {
        // `GASD`
        Tag::Section(FWFileLabel::GpsDbSecond)
    } else if four_are(record, 0, 0x42, 0x4C, 0x45, 0x53) {
        // `BLES`
        Tag::Section(FWFileLabel::Ble)
    } else if four_are(record, 0, 0x4B, 0x45, 0x59, 0x53) {
        // `KEYS`
        Tag::Section(FWFileLabel::Keypad)
    } else if four_are(record, 0, 0x4C, 0x53, 0x52, 0x53) {
        // `LSRS`
        Tag::Section(FWFileLabel::LaserIf)
    } else if four_are(record, 0, 0x53, 0x54, 0x55, 0x49) {
        // `STUI`
        Tag::Section(FWFileLabel::UiStm)
    } else if four_are(record, 0, 0x53, 0x54, 0x44, 0x53) {
        // `STDS`
        Tag::Section(FWFileLabel::DspStm)
    } else if four_are(record, 0, 0x53, 0x54, 0x47, 0x50) {
        // `STGP`
        Tag::Section(FWFileLabel::GpsStm)
    } else if four_are(record, 0, 0x4E, 0x32, 0x55, 0x49) {
        // `N2UI`
        Tag::Section(FWFileLabel::UiNu2)
    } else if four_are(record, 0, 0x4E, 0x32, 0x44, 0x53) {
        // `N2DS`
        Tag::Section(FWFileLabel::DspNu2)
    } else if four_are(record, 0, 0x4E, 0x33, 0x44, 0x53) {
        // `N3DS`
        Tag::Section(FWFileLabel::DspNu3)
    } else if four_are(record, 0, 0x4E, 0x32, 0x47, 0x50) {
        // `N2GP`
        Tag::Section(FWFileLabel::GpsNu2)
    } else if four_are(record, 0, 0x4E, 0x33, 0x47, 0x50) {
        // `N3GP`
        Tag::Section(FWFileLabel::GpsNu3)
    } else if four_are(record, 0, 0x53, 0x54, 0x53, 0x44) {
        // `STSD`
        Tag::Section(FWFileLabel::SoundDbla1)
    } else if four_are(record, 0, 0x53, 0x55, 0x53, 0x44) {
        // `SUSD`
        Tag::Section(FWFileLabel::SoundDbla2)
    } else if four_are(record, 0, 0x4E, 0x4D, 0x47, 0x46) {
        // `NMGF`
        Tag::Merge
    } else {
        Tag::Unknown
    }
}

/// How a GPS database is protected and which country it is for, by the
/// identifier in the last four bytes of its closing block of twelve.
pub fn scheme_of(block: &[u8]) -> (scheme: Option<(GpsDbType, GpsDbCountry)>)
    requires
        block@.len() >= 12,
    ensures
        scheme == grammar::database_scheme(block@.subrange(8, 12)),
{
    if four_are(block, 8, 0x4C, 0x52, 0x44, 0x42) {
        // `LRDB`
        Some((GpsDbType::GpsDbOldEnc, GpsDbCountry::Us))
    } else if four_are(block, 8, 0x44, 0x46, 0x44, 0x42) {
        // `DFDB`
        Some((GpsDbType::GpsDbOldEnc, GpsDbCountry::Nz))
    } else if four_are(block, 8, 0x49, 0x52, 0x44, 0x42) {
        // `IRDB`
        Some((GpsDbType::GpsDbOldEnc, GpsDbCountry::Il))
    } else if four_are(block, 8, 0x41, 0x45, 0x55, 0x53) {
        // `AEUS`
        Some((GpsDbType::GpsDbAes128, GpsDbCountry::Us))
    } else if four_are(block, 8, 0x41, 0x45, 0x4E, 0x5A) {
        // `AENZ`
        Some((GpsDbType::GpsDbAes128, GpsDbCountry::Nz))
    } else if four_are(block, 8, 0x41, 0x45, 0x49, 0x4C) {
        // `AEIL`
        Some((GpsDbType::GpsDbAes128, GpsDbCountry::Il))
    } else if four_are(block, 8, 0x41, 0x45, 0x45, 0x55) {
        // `AEEU`
        Some((GpsDbType::GpsDbAes128, GpsDbCountry::Eu))
    } else {
        None
    }
}

/// The kind `label` with `info`. A GPS database made here has no count, no
/// country, and a protection that is not determined.
pub fn kind_with(label: FWFileLabel, info: FileInfo) -> (kind: FWFileKind)
    ensures
        kind == grammar::kind_with(label, info),
{
    match label {
        FWFileLabel::UiNu => FWFileKind::UiNu(info),
        FWFileLabel::UiStm => FWFileKind::UiStm(info),
        FWFileLabel::UiNu2 => FWFileKind::UiNu2(info),
        FWFileLabel::DspNu => FWFileKind::DspNu(info),
        FWFileLabel::DspStm => FWFileKind::DspStm(info),
        FWFileLabel::DspNu2 => FWFileKind::DspNu2(info),
        FWFileLabel::DspNu3 => FWFileKind::DspNu3(info),
        FWFileLabel::GpsNu => FWFileKind::GpsNu(info),
        FWFileLabel::GpsStm => FWFileKind::GpsStm(info),
        FWFileLabel::GpsNu2 => FWFileKind::GpsNu2(info),
        FWFileLabel::GpsNu3 => FWFileKind::GpsNu3(info),
        FWFileLabel::SoundDbnu => FWFileKind::SoundDbnu(info),
        FWFileLabel::SoundDbla1 => FWFileKind::SoundDbla1(info),
        FWFileLabel::SoundDbla2 => FWFileKind::SoundDbla2(info),
        FWFileLabel::Ble => FWFileKind::Ble(info),
        FWFileLabel::Keypad => FWFileKind::Keypad(info),
        FWFileLabel::LaserIf => FWFileKind::LaserIf(info),
        FWFileLabel::GpsDb => FWFileKind::GpsDb(
            GpsDbFileInfo {
                info: info.base(),
                poi: 0,
                file_type: GpsDbType::Unknown,
                country: None,
            },
        ),
        FWFileLabel::GpsDbSecond => FWFileKind::GpsDbSecond(
            GpsDbFileInfo {
                info: info.base(),
                poi: 0,
                file_type: GpsDbType::Unknown,
                country: None,
            },
        ),
    }
}

/// What [`parse_file_basic`] does to a cursor that stood at `p` in `buf` and
/// had noted `noted`, for a section of `length` bytes: the section is passed
/// over and the nine bytes that close it are read. It gives the offset of the
/// section, the version in the first two of the nine bytes, and the other
/// seven, which should be the marker.
pub open spec fn basic_outcome(
    buf: Seq<u8>,
    p: int,
    noted: Seq<(u64, u64)>,
    length: int,
    after: int,
    noted_after: Seq<(u64, u64)>,
    r: Result<(i32, i32, Vec<u8>), ParseError>,
) -> bool {
    let end = p + length;
    if length < 0 || end > buf.len() {
        r == Err::<(i32, i32, Vec<u8>), ParseError>(eof_at(p)) && after == p && noted_after
            == noted
    } else if end + 9 > buf.len() {
        r == Err::<(i32, i32, Vec<u8>), ParseError>(eof_at(end)) && after == end && noted_after
            == noted
    } else {
        &&& r matches Ok((offset, version, closing))
        &&& offset == p
        &&& version == grammar::word_version(buf, end)
        &&& closing@ == buf.subrange(end + 2, end + 9)
        &&& after == end + 9
        &&& noted_after == noted.push((end as u64, (end + 9) as u64))
    }
}

/// Passes over a section of `length` bytes and reads what closes it: gives
/// the offset of the section, its version, and the seven bytes that should
/// be its marker.
pub fn parse_file_basic(cursor: &mut TrackingCursor, length: i32) -> (r: Result<
    (i32, i32, Vec<u8>),
    ParseError,
>)
    requires
        old(cursor).bytes().len() <= i32::MAX,
    ensures
        final(cursor).bytes() == old(cursor).bytes(),
        basic_outcome(
            old(cursor).bytes(),
            old(cursor).offset() as int,
            old(cursor).intervals(),
            length as int,
            final(cursor).offset() as int,
            final(cursor).intervals(),
            r,
        ),
{
    let offset: u64 = cursor.position();
    if length < 0 {
        return Err(ParseError { kind: ParseErrorKind::UnexpectedEof, position: offset });
    }
    cursor.seek(length as u64)?;

    let mut arr = cursor.read_n(9)?;
    let version: i32 = rd_version(i16_from_le(arr.as_slice(), 0)) as i32;
    let end_string = arr.split_off(2);
    assert(end_string@ =~= old(cursor).bytes().subrange(
        old(cursor).offset() + length + 2,
        old(cursor).offset() + length + 9,
    ));
    Ok((offset as i32, version, end_string))
}

/// A pass over a container: the cursor, and what has been found so far.
pub struct Decoder<'a> {
    cursor: TrackingCursor<'a>,
    files: Vec<FWFile>,
    metadata: FWMetadata,
}

impl<'a> Decoder<'a> {
    /// How far the pass has come.
    pub closed spec fn walk(&self) -> Walk {
        Walk {
            at: self.cursor.offset() as int,
            noted: self.cursor.intervals(),
            files: self.files@,
            metadata: self.metadata,
        }
    }

    /// The container that is read.
    pub closed spec fn buffer(&self) -> Seq<u8> {
        self.cursor.bytes()
    }

    /// The pass stands inside a buffer whose every offset fits in an `i32`.
    pub open spec fn wf(&self) -> bool {
        0 <= self.walk().at <= self.buffer().len() <= i32::MAX
    }

    /// A pass over `data` that has not begun.
    pub fn new(data: &'a Vec<u8>) -> (decoder: Self)
        ensures
            decoder.buffer() == data@,
            decoder.walk() == grammar::start(),
    {
        Decoder {
            cursor: TrackingCursor::new(data),
            files: Vec::new(),
            metadata: FWMetadata { model: RDModel::Unknown, format_version: 0, new_merge_file: false },
        }
    }

    /// Reads `n` bytes.
    pub fn take(&mut self, n: usize) -> (r: Result<Vec<u8>, ParseError>)
        ensures
            final(self).buffer() == old(self).buffer(),
            agrees(
                grammar::take(old(self).buffer(), old(self).walk(), n as int),
                final(self).walk(),
                r,
            ),
            r matches Ok(bytes) ==> bytes@.len() == n && bytes@ == old(self).buffer().subrange(
                old(self).walk().at,
                old(self).walk().at + n,
            ),
    {
        self.cursor.read_n(n)
    }

    /// Passes over `n` bytes.
    pub fn skip(&mut self, n: i64) -> (r: Result<(), ParseError>)
        ensures
            final(self).buffer() == old(self).buffer(),
            agrees(
                grammar::skip(old(self).buffer(), old(self).walk(), n as int),
                final(self).walk(),
                r,
            ),
    {
        if n < 0 {
            return Err(
                ParseError { kind: ParseErrorKind::UnexpectedEof, position: self.cursor.position() },
            );
        }
        self.cursor.seek(n as u64)
    }

    /// Reads the header.
    pub fn header(&mut self) -> (r: Result<HeaderLengths, ParseError>)
        ensures
            final(self).buffer() == old(self).buffer(),
            match grammar::header(old(self).buffer(), old(self).walk()) {
                Ok((lengths, w)) => r is Ok && r->Ok_0.lengths() == lengths && final(self).walk()
                    == w,
                Err(e) => r is Err && r->Err_0 == e,
            },
    {
        let first = self.take(4)?;
        let second = self.take(4)?;
        let third = self.take(4)?;
        let ui_raw: i32 = first[0] as i32 + 256 * (first[1] as i32) + 65536 * (first[2] as i32);
        let ui = padded_span(ui_raw);
        let dsp = padded_span(i32_from_le(second.as_slice(), 0));
        let gps = padded_span(i32_from_le(third.as_slice(), 0));
        let mut sound: i32 = 0;
        if first[3] % 2 == 1 {
            let more = self.take(12)?;
            sound = i32_from_le(more.as_slice(), 8);
        }
        Ok(HeaderLengths { ui, dsp, gps, sound })
    }

    /// Lists the section `file`.
    fn list(&mut self, file: FWFile)
        ensures
            final(self).buffer() == old(self).buffer(),
            final(self).walk() == (Walk { files: old(self).walk().files.push(file), ..old(self).walk() }),
    {
        self.files.push(file);
    }

    /// A section of `length` bytes closed by a version and a marker.
    pub fn plain_section(&mut self, length: i64, label: FWFileLabel) -> (r: Result<(), ParseError>)
        requires
            old(self).wf(),
        ensures
            final(self).buffer() == old(self).buffer(),
            agrees(
                grammar::plain_section(old(self).buffer(), old(self).walk(), length as int, label),
                final(self).walk(),
                r,
            ),
            r is Ok ==> final(self).wf(),
    {
        let start: u64 = self.cursor.position();
        if length > 0x7FFF_FFFF || length < 0 {
            return Err(ParseError { kind: ParseErrorKind::UnexpectedEof, position: start });
        }
        let (offset, version, end_string) = parse_file_basic(&mut self.cursor, length as i32)?;
        assert(end_string@.subrange(0, 7) =~= end_string@);
        if !marker_is(end_string.as_slice(), 0, label) {
            return Err(
                ParseError {
                    kind: ParseErrorKind::MalformedTerminator(label),
                    position: start + length as u64 + 2,
                },
            );
        }
        let base = FileInfoBase { length: length as i32, offset, version };
        self.list(FWFile { kind: kind_with(label, FileInfo::Base(base)), info: FileInfo::Base(base) });
        Ok(())
    }

    /// The first section, which also tells the model of the device.
    pub fn ui_section(&mut self, length: i64) -> (r: Result<(), ParseError>)
        requires
            old(self).wf(),
        ensures
            final(self).buffer() == old(self).buffer(),
            agrees(
                grammar::ui_section(old(self).buffer(), old(self).walk(), length as int),
                final(self).walk(),
                r,
            ),
            r is Ok ==> final(self).wf(),
    {
        let ui_nu_offset: u64 = self.cursor.position();
        self.skip(length)?;

        let arr = self.take(9)?;
        let mv_data: i16 = i16_from_le(arr.as_slice(), 0);

        let model = RDModel::from_data(mv_data);
        let ui_nu_version: i16 = rd_version(mv_data);
        assert(arr@.subrange(2, 9) =~= old(self).buffer().subrange(
            ui_nu_offset + length + 2,
            ui_nu_offset + length + 9,
        ));

        if !marker_is(arr.as_slice(), 2, FWFileLabel::UiNu) {
            return Err(
                ParseError {
                    kind: ParseErrorKind::MalformedTerminator(FWFileLabel::UiNu),
                    position: ui_nu_offset + length as u64 + 2,
                },
            );
        }
        self.metadata.model = model;
        let info = FileInfo::Base(
            FileInfoBase {
                length: length as i32,
                offset: ui_nu_offset as i32,
                version: ui_nu_version as i32,
            },
        );
        self.list(FWFile { kind: FWFileKind::UiNu(info), info });
        Ok(())
    }

    /// A sound database of `length` bytes, with `gap` bytes between its
    /// closing block and its marker.
    pub fn sound_section(&mut self, length: i32, label: FWFileLabel, gap: i64) -> (r: Result<
        (),
        ParseError,
    >)
        requires
            old(self).wf(),
        ensures
            final(self).buffer() == old(self).buffer(),
            agrees(
                grammar::sound_section(
                    old(self).buffer(),
                    old(self).walk(),
                    length as int,
                    label,
                    gap as int,
                ),
                final(self).walk(),
                r,
            ),
            r is Ok ==> final(self).wf(),
    {
        let offset: u64 = self.cursor.position();
        self.skip(length as i64 - 12)?;

        let arr = self.take(12)?;
        let vbuf = decode_old_model(SOUND_DB_KEY, arr.as_slice(), 0, 4);
        proof {
            let block_at = offset + length - 12;
            assert(arr@.subrange(0, 4) =~= old(self).buffer().subrange(block_at, block_at + 4));
            crate::format::lemma_one_group(SOUND_DB_KEY, arr@.subrange(0, 4));
        }
        let version: i32 = rd_version(i16_from_le(vbuf.as_slice(), 0)) as i32;

        if gap != 0 {
            self.skip(gap)?;
        }
        let marker_at: u64 = self.cursor.position();
        let termstr = self.take(7)?;
        assert(termstr@.subrange(0, 7) =~= termstr@);
        if !marker_is(termstr.as_slice(), 0, label) {
            return Err(
                ParseError { kind: ParseErrorKind::MalformedTerminator(label), position: marker_at },
            );
        }
        let base = FileInfoBase { length, offset: offset as i32, version };
        self.list(FWFile { kind: kind_with(label, FileInfo::Base(base)), info: FileInfo::Base(base) });
        Ok(())
    }

    /// A GPS database of `length` bytes, the second one or the first.
    pub fn gps_section(&mut self, length: i32, second: bool) -> (r: Result<(), ParseError>)
        requires
            old(self).wf(),
        ensures
            final(self).buffer() == old(self).buffer(),
            agrees(
                grammar::gps_section(old(self).buffer(), old(self).walk(), length as int, second),
                final(self).walk(),
                r,
            ),
            r is Ok ==> final(self).wf(),
    {
        let label = if second {
            FWFileLabel::GpsDbSecond
        } else {
            FWFileLabel::GpsDb
        };
        let current_offset: u64 = self.cursor.position();
        self.skip(length as i64 - 12)?;
        let block_at: u64 = self.cursor.position();
        let arr = self.take(12)?;
        proof {
            assert(arr@.subrange(8, 12) =~= old(self).buffer().subrange(block_at + 8, block_at + 12));
            assert(arr@.subrange(0, 4) =~= old(self).buffer().subrange(
                block_at as int,
                block_at + 4,
            ));
        }
        let (file_type, country) = match scheme_of(arr.as_slice()) {
            Some(scheme) => scheme,
            None => {
                return Err(
                    ParseError {
                        kind: ParseErrorKind::MalformedGpsDatabase,
                        position: block_at + 8,
                    },
                );
            },
        };
        let poi: i32 = match file_type {
            GpsDbType::GpsDbOldEnc => {
                let key: u8 = match country {
                    GpsDbCountry::Us => OLD_US_GPS_DB_KEY,
                    GpsDbCountry::Nz => OLD_NZ_GPS_DB_KEY,
                    GpsDbCountry::Il => OLD_IL_GPS_DB_KEY,
                    GpsDbCountry::Eu => 0,
                };
                let plain = decode_old_model(key, arr.as_slice(), 0, 4);
                proof {
                    crate::format::lemma_one_group(key, arr@.subrange(0, 4));
                }
                i32_from_le(plain.as_slice(), 0)
            },
            _ => i32_from_le(arr.as_slice(), 0),
        };
        let version: i32 = i32_from_le(arr.as_slice(), 4);

        if second {
            self.skip(2)?;
        }
        let marker_at: u64 = self.cursor.position();
        let term_string = self.take(7)?;
        assert(term_string@.subrange(0, 7) =~= term_string@);
        if !marker_is(term_string.as_slice(), 0, label) {
            return Err(
                ParseError { kind: ParseErrorKind::MalformedTerminator(label), position: marker_at },
            );
        }
        let file = GpsDbFileInfo {
            info: FileInfoBase { length, offset: current_offset as i32, version },
            poi,
            file_type,
            country: Some(country),
        };
        if second {
            self.list(FWFile { kind: FWFileKind::GpsDbSecond(file), info: FileInfo::GpsDb(file) });
        } else {
            self.list(FWFile { kind: FWFileKind::GpsDb(file), info: FileInfo::GpsDb(file) });
        }
        Ok(())
    }

    /// A tagged section that is stored padded, of `raw` bytes before padding.
    pub fn aux_section(&mut self, raw: i32, label: FWFileLabel) -> (r: Result<(), ParseError>)
        requires
            old(self).wf(),
        ensures
            final(self).buffer() == old(self).buffer(),
            agrees(
                grammar::aux_section(old(self).buffer(), old(self).walk(), raw as int, label),
                final(self).walk(),
                r,
            ),
            r is Ok ==> final(self).wf(),
    {
        let length_modifier: i32 = match label {
            FWFileLabel::Ble => 1024,
            _ => 512,
        };
        let length: i64 = span_in_blocks(raw, length_modifier);
        if length == 0 {
            return Ok(());
        }
        self.plain_section(length, label)
    }

    /// One record and the section it announces.
    pub fn record(&mut self) -> (r: Result<(), ParseError>)
        requires
            old(self).wf(),
        ensures
            final(self).buffer() == old(self).buffer(),
            agrees(grammar::record(old(self).buffer(), old(self).walk()), final(self).walk(), r),
            r is Ok ==> final(self).wf(),
    {
        let arr = self.take(12)?;
        let current_length: i32 = i32_from_le(arr.as_slice(), 8);
        proof {
            let at = old(self).walk().at;
            assert(arr@.subrange(0, 4) =~= old(self).buffer().subrange(at, at + 4));
        }
        match classify_tag(arr.as_slice()) {
            Tag::Section(FWFileLabel::GpsDb) => self.gps_section(current_length, false),
            Tag::Section(FWFileLabel::GpsDbSecond) => self.gps_section(current_length, true),
            Tag::Section(FWFileLabel::SoundDbla1) => self.sound_section(
                current_length,
                FWFileLabel::SoundDbla1,
                0,
            ),
            Tag::Section(FWFileLabel::SoundDbla2) => self.sound_section(
                current_length,
                FWFileLabel::SoundDbla2,
                2,
            ),
            Tag::Section(label) => self.aux_section(current_length, label),
            Tag::Merge => {
                if !self.cursor.remaining() {
                    self.metadata.new_merge_file = true;
                    self.metadata.format_version = current_length;
                }
                Ok(())
            },
            Tag::Unknown => {
                // a tag that ends in `SD`
                let span: i64 = if arr[2] == 0x53 && arr[3] == 0x44 {
                    current_length as i64 + 9
                } else {
                    padded_span(current_length) + 9
                };
                self.skip(span)
            },
        }
    }

    /// The records that follow the fixed sections, up to the end.
    pub fn records(&mut self) -> (r: Result<(), ParseError>)
        requires
            old(self).wf(),
        ensures
            final(self).buffer() == old(self).buffer(),
            agrees(grammar::records(old(self).buffer(), old(self).walk()), final(self).walk(), r),
            r is Ok ==> final(self).wf(),
    {
        while self.cursor.remaining()
            invariant
                self.wf(),
                self.buffer() == old(self).buffer(),
                grammar::records(self.buffer(), self.walk()) == grammar::records(
                    old(self).buffer(),
                    old(self).walk(),
                ),
            decreases self.buffer().len() - self.walk().at,
        {
            let ghost before = self.walk();
            self.record()?;
            proof {
                grammar::lemma_record_advances(self.buffer(), before);
            }
        }
        Ok(())
    }

    /// The fixed sections that the header announced.
    pub fn fixed_sections(&mut self, lengths: &HeaderLengths) -> (r: Result<(), ParseError>)
        requires
            old(self).wf(),
        ensures
            final(self).buffer() == old(self).buffer(),
            agrees(
                grammar::fixed_sections(old(self).buffer(), old(self).walk(), lengths.lengths()),
                final(self).walk(),
                r,
            ),
            r is Ok ==> final(self).wf(),
    {
        if lengths.ui != 0 {
            self.ui_section(lengths.ui)?;
        }
        if lengths.dsp != 0 {
            self.plain_section(lengths.dsp, FWFileLabel::DspNu)?;
        }
        if lengths.gps != 0 {
            self.plain_section(lengths.gps, FWFileLabel::GpsNu)?;
        }
        if lengths.sound != 0 {
            self.sound_section(lengths.sound, FWFileLabel::SoundDbnu, 0)?;
        }
        Ok(())
    }

    /// The whole pass, from a decoder that has not begun.
    pub fn run(&mut self) -> (r: Result<(), ParseError>)
        requires
            old(self).walk() == grammar::start(),
            old(self).buffer().len() <= i32::MAX,
        ensures
            final(self).buffer() == old(self).buffer(),
            agrees(grammar::decode(old(self).buffer()), final(self).walk(), r),
            r is Ok ==> final(self).wf(),
    {
        let lengths = self.header()?;
        self.fixed_sections(&lengths)?;
        self.records()
    }

    /// Ends the pass: the sections found, what is known of the container,
    /// and the ranges read.
    pub fn finish(self) -> (found: (Vec<FWFile>, FWMetadata, Vec<(u64, u64)>))
        ensures
            found.0@ == self.walk().files,
            found.1 == self.walk().metadata,
            found.2@ == self.walk().noted,
    {
        (self.files, self.metadata, self.cursor.into_intervals())
    }
}

} // verus!
