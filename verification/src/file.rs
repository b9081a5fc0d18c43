//! The sections of a container and the handle that lists them.

use crate::coverage::{
    lemma_range_leq_total, merge_ranges, merged_overlaps, range_leq, separated, sorted_ranges,
};
use crate::decoder::Decoder;
use crate::error::{FWFileLabel, ParseError};
use crate::format::{GpsDbCountry, GpsDbType, RDModel};
use crate::grammar;
use crate::util::read_n_bytes;
use vstd::prelude::*;

verus! {

/// Where a section lies and which version it has.
#[derive(Clone, Copy, Debug, PartialEq, Eq, Structural)]
pub struct FileInfoBase {
    /// The bytes the section takes in the buffer, padding included.
    pub length: i32,
    /// The offset of its first byte.
    pub offset: i32,
    /// Its version; -1 where the section says that it has none.
    pub version: i32,
}

/// What is known of a GPS database.
#[derive(Clone, Copy, Debug, PartialEq, Eq, Structural)]
pub struct GpsDbFileInfo {
    pub info: FileInfoBase,
    /// The number of points of interest in the database.
    pub poi: i32,
    pub file_type: GpsDbType,
    pub country: Option<GpsDbCountry>,
}

/// What is known of a section of either sort.
#[derive(Clone, Copy, Debug, PartialEq, Eq, Structural)]
pub enum FileInfo {
    Base(FileInfoBase),
    GpsDb(GpsDbFileInfo),
}

/// A section by its kind, with what is known of it.
#[derive(Clone, Copy, Debug, PartialEq, Eq, Structural)]
pub enum FWFileKind {
    UiNu(FileInfo),
    UiStm(FileInfo),
    UiNu2(FileInfo),
    DspNu(FileInfo),
    DspStm(FileInfo),
    DspNu2(FileInfo),
    DspNu3(FileInfo),
    GpsNu(FileInfo),
    GpsStm(FileInfo),
    GpsNu2(FileInfo),
    GpsNu3(FileInfo),
    SoundDbnu(FileInfo),
    SoundDbla1(FileInfo),
    SoundDbla2(FileInfo),
    GpsDb(GpsDbFileInfo),
    GpsDbSecond(GpsDbFileInfo),
    Ble(FileInfo),
    Keypad(FileInfo),
    LaserIf(FileInfo),
}

/// A section of a container.
#[derive(Clone, Copy, Debug, PartialEq, Eq, Structural)]
pub struct FWFile {
    pub kind: FWFileKind,
    pub info: FileInfo,
}

/// What a container says of itself as a whole.
#[derive(Clone, Copy, Debug, PartialEq, Eq, Structural)]
pub struct FWMetadata {
    pub model: RDModel,
    /// The version of the format; only a merge file states one.
    pub format_version: i32,
    pub new_merge_file: bool,
}

impl FileInfo {
    /// Where the section lies, whichever sort it is of.
    pub open spec fn base_spec(self) -> FileInfoBase {
        match self {
            FileInfo::Base(base) => base,
            FileInfo::GpsDb(gps) => gps.info,
        }
    }

    /// Where the section lies, whichever sort it is of.
    pub fn base(&self) -> (base: FileInfoBase)
        ensures
            base == self.base_spec(),
    {
        match self {
            FileInfo::Base(base) => *base,
            FileInfo::GpsDb(gps) => gps.info,
        }
    }
}

impl FWFileKind {
    /// The kind alone.
    pub open spec fn label_spec(self) -> FWFileLabel {
        match self {
            FWFileKind::UiNu(_) => FWFileLabel::UiNu,
            FWFileKind::UiStm(_) => FWFileLabel::UiStm,
            FWFileKind::UiNu2(_) => FWFileLabel::UiNu2,
            FWFileKind::DspNu(_) => FWFileLabel::DspNu,
            FWFileKind::DspStm(_) => FWFileLabel::DspStm,
            FWFileKind::DspNu2(_) => FWFileLabel::DspNu2,
            FWFileKind::DspNu3(_) => FWFileLabel::DspNu3,
            FWFileKind::GpsNu(_) => FWFileLabel::GpsNu,
            FWFileKind::GpsStm(_) => FWFileLabel::GpsStm,
            FWFileKind::GpsNu2(_) => FWFileLabel::GpsNu2,
            FWFileKind::GpsNu3(_) => FWFileLabel::GpsNu3,
            FWFileKind::SoundDbnu(_) => FWFileLabel::SoundDbnu,
            FWFileKind::SoundDbla1(_) => FWFileLabel::SoundDbla1,
            FWFileKind::SoundDbla2(_) => FWFileLabel::SoundDbla2,
            FWFileKind::GpsDb(_) => FWFileLabel::GpsDb,
            FWFileKind::GpsDbSecond(_) => FWFileLabel::GpsDbSecond,
            FWFileKind::Ble(_) => FWFileLabel::Ble,
            FWFileKind::Keypad(_) => FWFileLabel::Keypad,
            FWFileKind::LaserIf(_) => FWFileLabel::LaserIf,
        }
    }

    /// The kind alone.
    pub fn label(&self) -> (label: FWFileLabel)
        ensures
            label == self.label_spec(),
    {
        match self {
            FWFileKind::UiNu(_) => FWFileLabel::UiNu,
            FWFileKind::UiStm(_) => FWFileLabel::UiStm,
            FWFileKind::UiNu2(_) => FWFileLabel::UiNu2,
            FWFileKind::DspNu(_) => FWFileLabel::DspNu,
            FWFileKind::DspStm(_) => FWFileLabel::DspStm,
            FWFileKind::DspNu2(_) => FWFileLabel::DspNu2,
            FWFileKind::DspNu3(_) => FWFileLabel::DspNu3,
            FWFileKind::GpsNu(_) => FWFileLabel::GpsNu,
            FWFileKind::GpsStm(_) => FWFileLabel::GpsStm,
            FWFileKind::GpsNu2(_) => FWFileLabel::GpsNu2,
            FWFileKind::GpsNu3(_) => FWFileLabel::GpsNu3,
            FWFileKind::SoundDbnu(_) => FWFileLabel::SoundDbnu,
            FWFileKind::SoundDbla1(_) => FWFileLabel::SoundDbla1,
            FWFileKind::SoundDbla2(_) => FWFileLabel::SoundDbla2,
            FWFileKind::GpsDb(_) => FWFileLabel::GpsDb,
            FWFileKind::GpsDbSecond(_) => FWFileLabel::GpsDbSecond,
            FWFileKind::Ble(_) => FWFileLabel::Ble,
            FWFileKind::Keypad(_) => FWFileLabel::Keypad,
            FWFileKind::LaserIf(_) => FWFileLabel::LaserIf,
        }
    }

    /// The name of the file that the section is written to.
    pub open spec fn file_name_spec(self) -> Seq<char> {
        match self {
            FWFileKind::UiNu(_) => "ui_nu.bin"@,
            FWFileKind::UiStm(_) => "ui_stm.bin"@,
            FWFileKind::UiNu2(_) => "ui_nu2.bin"@,
            FWFileKind::DspNu(_) => "dsp_nu.bin"@,
            FWFileKind::DspStm(_) => "dsp_stm.bin"@,
            FWFileKind::DspNu2(_) => "dsp_nu2.bin"@,
            FWFileKind::DspNu3(_) => "dsp_nu3.bin"@,
            FWFileKind::GpsNu(_) => "gps_nu.bin"@,
            FWFileKind::GpsStm(_) => "gps_stm.bin"@,
            FWFileKind::GpsNu2(_) => "gps_nu2.bin"@,
            FWFileKind::GpsNu3(_) => "gps_nu3.bin"@,
            FWFileKind::SoundDbnu(_) => "sound_dbnu.bin"@,
            FWFileKind::SoundDbla1(_) => "sound_dbla1.bin"@,
            FWFileKind::SoundDbla2(_) => "sound_dbla2.bin"@,
            FWFileKind::GpsDb(_) => "gps_db.bin"@,
            FWFileKind::GpsDbSecond(_) => "gps_db_second.bin"@,
            FWFileKind::Ble(_) => "ble.bin"@,
            FWFileKind::Keypad(_) => "keypad.bin"@,
            FWFileKind::LaserIf(_) => "laser_if.bin"@,
        }
    }

    /// The name of the file that the section is written to.
    pub fn to_file_name(&self) -> (name: String)
        ensures
            name@ == self.file_name_spec(),
    {
        match self {
            FWFileKind::UiNu(_) => "ui_nu.bin".to_owned(),
            FWFileKind::UiStm(_) => "ui_stm.bin".to_owned(),
            FWFileKind::UiNu2(_) => "ui_nu2.bin".to_owned(),
            FWFileKind::DspNu(_) => "dsp_nu.bin".to_owned(),
            FWFileKind::DspStm(_) => "dsp_stm.bin".to_owned(),
            FWFileKind::DspNu2(_) => "dsp_nu2.bin".to_owned(),
            FWFileKind::DspNu3(_) => "dsp_nu3.bin".to_owned(),
            FWFileKind::GpsNu(_) => "gps_nu.bin".to_owned(),
            FWFileKind::GpsStm(_) => "gps_stm.bin".to_owned(),
            FWFileKind::GpsNu2(_) => "gps_nu2.bin".to_owned(),
            FWFileKind::GpsNu3(_) => "gps_nu3.bin".to_owned(),
            FWFileKind::SoundDbnu(_) => "sound_dbnu.bin".to_owned(),
            FWFileKind::SoundDbla1(_) => "sound_dbla1.bin".to_owned(),
            FWFileKind::SoundDbla2(_) => "sound_dbla2.bin".to_owned(),
            FWFileKind::GpsDb(_) => "gps_db.bin".to_owned(),
            FWFileKind::GpsDbSecond(_) => "gps_db_second.bin".to_owned(),
            FWFileKind::Ble(_) => "ble.bin".to_owned(),
            FWFileKind::Keypad(_) => "keypad.bin".to_owned(),
            FWFileKind::LaserIf(_) => "laser_if.bin".to_owned(),
        }
    }
}

/// What is known of a GPS database, for the two kinds that are one.
pub fn handle_gpsdb_file_info(file: &FWFileKind) -> (info: Option<&GpsDbFileInfo>)
    ensures
        match *file {
            FWFileKind::GpsDb(gps) | FWFileKind::GpsDbSecond(gps) => info == Some(&gps),
            _ => info is None,
        },
{
    match file {
        FWFileKind::GpsDb(gps_db_file_info) | FWFileKind::GpsDbSecond(gps_db_file_info) => {
            Some(gps_db_file_info)
        },
        _ => None,
    }
}

/// What is known of a section, for every kind but the GPS databases.
pub fn handle_file_info(file: &FWFileKind) -> (info: Option<&FileInfo>)
    ensures
        match *file {
            FWFileKind::GpsDb(_) | FWFileKind::GpsDbSecond(_) => info is None,
            FWFileKind::UiNu(i)
            | FWFileKind::UiStm(i)
            | FWFileKind::UiNu2(i)
            | FWFileKind::DspNu(i)
            | FWFileKind::DspStm(i)
            | FWFileKind::DspNu2(i)
            | FWFileKind::DspNu3(i)
            | FWFileKind::GpsNu(i)
            | FWFileKind::GpsStm(i)
            | FWFileKind::GpsNu2(i)
            | FWFileKind::GpsNu3(i)
            | FWFileKind::SoundDbnu(i)
            | FWFileKind::SoundDbla1(i)
            | FWFileKind::SoundDbla2(i)
            | FWFileKind::Ble(i)
            | FWFileKind::Keypad(i)
            | FWFileKind::LaserIf(i) => info == Some(&i),
        },
{
    match file {
        FWFileKind::UiNu(file_info)
        | FWFileKind::UiStm(file_info)
        | FWFileKind::UiNu2(file_info)
        | FWFileKind::DspNu(file_info)
        | FWFileKind::DspStm(file_info)
        | FWFileKind::DspNu2(file_info)
        | FWFileKind::DspNu3(file_info)
        | FWFileKind::GpsNu(file_info)
        | FWFileKind::GpsStm(file_info)
        | FWFileKind::GpsNu2(file_info)
        | FWFileKind::GpsNu3(file_info)
        | FWFileKind::SoundDbnu(file_info)
        | FWFileKind::SoundDbla1(file_info)
        | FWFileKind::SoundDbla2(file_info)
        | FWFileKind::Ble(file_info)
        | FWFileKind::Keypad(file_info)
        | FWFileKind::LaserIf(file_info) => Some(file_info),
        _ => None,
    }
}

/// A section as it is written out: the name of its file and its bytes.
pub struct ExtractedFile {
    pub name: String,
    pub content: Vec<u8>,
}

/// A container: its bytes and, once it has been read, what it holds.
pub struct UnidenFirmware {
    metadata: Option<FWMetadata>,
    files: Vec<FWFile>,
    buffer: Vec<u8>,
    read_intervals: Vec<(u64, u64)>,
}

impl UnidenFirmware {
    /// The bytes of the container.
    pub closed spec fn bytes(&self) -> Seq<u8> {
        self.buffer@
    }

    /// The sections listed, in the order in which they lie.
    pub closed spec fn listed(&self) -> Seq<FWFile> {
        self.files@
    }

    /// The ranges that were read when the container was read, oldest first.
    pub closed spec fn noted(&self) -> Seq<(u64, u64)> {
        self.read_intervals@
    }

    /// What the container says of itself; `None` until it has been read, and
    /// after it was refused.
    pub closed spec fn described(&self) -> Option<FWMetadata> {
        self.metadata
    }

    /// Every offset of the container fits in an `i32`, every section listed
    /// is consistent, not empty, and lies inside the container after the one
    /// listed before it, and the ranges read come one after the other inside
    /// it.
    pub open spec fn wf(&self) -> bool {
        &&& self.bytes().len() <= i32::MAX
        &&& grammar::all_within(self.listed(), self.bytes().len() as int)
        &&& grammar::one_after_the_other(self.listed())
        &&& grammar::reads_in_order(self.noted(), self.bytes().len() as int)
    }

    /// A container of the bytes `buffer`, not read yet.
    pub fn from(buffer: Vec<u8>) -> (firmware: UnidenFirmware)
        requires
            buffer@.len() <= i32::MAX,
        ensures
            firmware.wf(),
            firmware.bytes() == buffer@,
            firmware.listed() == Seq::<FWFile>::empty(),
            firmware.noted() == Seq::<(u64, u64)>::empty(),
            firmware.described() is None,
    {
        Self { metadata: None, files: Vec::new(), buffer, read_intervals: Vec::new() }
    }

    /// What the container says of itself; `None` until it has been read, and
    /// after it was refused.
    pub fn metadata(&self) -> (metadata: Option<FWMetadata>)
        ensures
            metadata == self.described(),
    {
        self.metadata
    }

    /// The sections listed, in the order in which they lie.
    pub fn files(&self) -> (files: &Vec<FWFile>)
        ensures
            files@ == self.listed(),
    {
        &self.files
    }

    /// The ranges that were read when the container was read, oldest first.
    pub fn read_intervals(&self) -> (ranges: &Vec<(u64, u64)>)
        ensures
            ranges@ == self.noted(),
    {
        &self.read_intervals
    }

    /// Reads the container. If it is accepted, the handle lists its
    /// sections, holds what it says of itself, and knows which ranges were
    /// read. If it is refused, the handle lists nothing.
    pub fn read_buffer(&mut self) -> (r: Result<(), ParseError>)
        requires
            old(self).bytes().len() <= i32::MAX,
        ensures
            final(self).bytes() == old(self).bytes(),
            final(self).wf(),
            match grammar::decode(old(self).bytes()) {
                Ok(w) => {
                    &&& r is Ok
                    &&& final(self).listed() == w.files
                    &&& final(self).described() == Some(w.metadata)
                    &&& final(self).noted() == w.noted
                },
                Err(e) => {
                    &&& r == Err::<(), ParseError>(e)
                    &&& final(self).listed() == Seq::<FWFile>::empty()
                    &&& final(self).described() is None
                    &&& final(self).noted() == Seq::<(u64, u64)>::empty()
                },
            },
    {
        let mut decoder = Decoder::new(&self.buffer);
        match decoder.run() {
            Ok(()) => {
                let (files, metadata, read_intervals) = decoder.finish();
                proof {
                    grammar::lemma_decode_orderly(self.buffer@);
                }
                self.files = files;
                self.metadata = Some(metadata);
                self.read_intervals = read_intervals;
                Ok(())
            },
            Err(e) => {
                self.files = Vec::new();
                self.metadata = None;
                self.read_intervals = Vec::new();
                Err(e)
            },
        }
    }

    /// Adds to `out`, for every section listed and in their order, the name
    /// of its file and the bytes of the container that it spans, as they
    /// stand: a database is not descrambled.
    pub fn extract_to(&self, out: &mut Vec<ExtractedFile>)
        requires
            self.wf(),
        ensures
            final(out)@.len() == old(out)@.len() + self.listed().len(),
            forall|i: int| 0 <= i < old(out)@.len() ==> final(out)@[i] == old(out)@[i],
            forall|i: int|
                0 <= i < self.listed().len() ==> {
                    let base = self.listed()[i].info.base_spec();
                    let written = #[trigger] final(out)@[old(out)@.len() + i];
                    &&& written.name@ == self.listed()[i].kind.file_name_spec()
                    &&& written.content@ == self.bytes().subrange(
                        base.offset as int,
                        base.offset + base.length,
                    )
                },
    {
        let ghost before = out@;
        let mut i: usize = 0;
        while i < self.files.len()
            invariant
                self.wf(),
                i <= self.files@.len(),
                out@.len() == before.len() + i,
                forall|j: int| 0 <= j < before.len() ==> out@[j] == before[j],
                forall|j: int|
                    0 <= j < i ==> {
                        let base = self.listed()[j].info.base_spec();
                        let written = #[trigger] out@[before.len() + j];
                        &&& written.name@ == self.listed()[j].kind.file_name_spec()
                        &&& written.content@ == self.bytes().subrange(
                            base.offset as int,
                            base.offset + base.length,
                        )
                    },
            decreases self.files@.len() - i,
        {
            let file = &self.files[i];
            let base = file.info.base();
            assert(grammar::lies_within(self.listed()[i as int], self.bytes().len() as int));
            match read_n_bytes(&self.buffer, base.offset as usize, base.length as usize) {
                Ok(content) => {
                    out.push(ExtractedFile { name: file.kind.to_file_name(), content });
                },
                Err(_) => {
                    assert(false);
                },
            }
            i += 1;
        }
    }

    /// The ranges that were read, merged where they overlap or touch. They
    /// were read one after the other, so sorting changes nothing: what is
    /// merged is the list of ranges as it was noted.
    pub fn merged_coverage(&self) -> (merged: Vec<(u64, u64)>)
        requires
            self.wf(),
        ensures
            merged@ == merged_overlaps(self.noted()),
            separated(merged@),
            merged@.len() <= self.noted().len(),
            self.noted().len() > 0 ==> merged@.len() > 0 && merged@[0].0 == self.noted()[0].0,
    {
        proof {
            let noted = self.noted();
            lemma_range_leq_total();
            noted.lemma_sort_by_ensures(range_leq());
            assert(vstd::relations::sorted_by(noted, range_leq())) by {
                let leq = range_leq();
                assert forall|i: int, j: int| 0 <= i < j < noted.len() implies #[trigger] leq(
                    noted[i],
                    noted[j],
                ) by {
                    assert(noted[i].0 <= noted[i].1 <= noted[j].0 <= noted[j].1);
                }
            }
            vstd::seq_lib::lemma_sorted_unique(noted, sorted_ranges(noted), range_leq());
        }
        merge_ranges(&self.read_intervals)
    }
}

} // verus!
