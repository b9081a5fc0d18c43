//! What the fields of a container mean: versions, device models, and the
//! scrambling of the older databases.

use vstd::prelude::*;
use vstd::std_specs::convert::FromSpecImpl;

verus! {

/// The key of every sound database.
pub const SOUND_DB_KEY: u8 = 255;

/// The key of the older GPS databases for the United States.
pub const OLD_US_GPS_DB_KEY: u8 = 210;

/// The key of the older GPS databases for New Zealand.
pub const OLD_NZ_GPS_DB_KEY: u8 = 194;

/// The key of the older GPS databases for Israel.
pub const OLD_IL_GPS_DB_KEY: u8 = 226;

/// How the entries of a GPS database are protected.
#[derive(Clone, Copy, Debug, PartialEq, Eq, Structural)]
pub enum GpsDbType {
    /// Scrambled with a key per country.
    GpsDbOldEnc,
    /// Encrypted with AES-128; only the header of such a database is read.
    GpsDbAes128,
    /// Not determined. No decoded database has this value.
    Unknown,
}

/// The country a GPS database was made for.
#[derive(Clone, Copy, Debug, PartialEq, Eq, Structural)]
pub enum GpsDbCountry {
    Us,
    Nz,
    Il,
    Eu,
}

/// The device a container was built for.
#[derive(Clone, Copy, Debug, PartialEq, Eq, Structural)]
pub enum RDModel {
    R1,
    R3,
    R3Nz,
    R3Nzk,
    R3Plus,
    R3NzkPlus,
    R7,
    R7Nz,
    R7Il,
    R4,
    R4Nz,
    R4Il,
    R4Eu,
    R8,
    R8Nz,
    R8Il,
    R8Eu,
    R4W,
    R8W,
    DbEu,
    DbIl,
    DbUs,
    DbNz,
    Unknown,
}

/// The model that a device code stands for; every code without a model
/// stands for `Unknown`.
pub open spec fn model_of_code(code: u8) -> RDModel {
    if code == 1 {
        RDModel::R1
    } else if code == 3 {
        RDModel::R3
    } else if code == 4 {
        RDModel::R3Nz
    } else if code == 5 {
        RDModel::R3Nzk
    } else if code == 64 {
        RDModel::R3Plus
    } else if code == 65 {
        RDModel::R3NzkPlus
    } else if code == 7 {
        RDModel::R7
    } else if code == 8 {
        RDModel::R7Nz
    } else if code == 9 {
        RDModel::R7Il
    } else if code == 14 {
        RDModel::R4
    } else if code == 15 {
        RDModel::R4Nz
    } else if code == 16 {
        RDModel::R4Il
    } else if code == 17 {
        RDModel::R4Eu
    } else if code == 18 {
        RDModel::R8
    } else if code == 19 {
        RDModel::R8Nz
    } else if code == 20 {
        RDModel::R8Il
    } else if code == 21 {
        RDModel::R8Eu
    } else if code == 24 {
        RDModel::R4W
    } else if code == 28 {
        RDModel::R8W
    } else if code == 236 {
        RDModel::DbEu
    } else if code == 237 {
        RDModel::DbIl
    } else if code == 238 {
        RDModel::DbUs
    } else if code == 239 {
        RDModel::DbNz
    } else {
        RDModel::Unknown
    }
}

/// The six bits of a model and version word that hold the device code.
pub open spec fn code_in_word(word: i16) -> i16 {
    (word >> 10) & 0x3F
}

/// The version in a model and version word: its low ten bits, unless the
/// whole word is -1, which says that there is no version.
pub open spec fn version_in_word(word: i16) -> i16 {
    if word == -1 {
        word
    } else {
        word & 0x3FF
    }
}

impl From<u8> for RDModel {
    fn from(item: u8) -> (model: Self) {
        match item {
            1 => RDModel::R1,
            3 => RDModel::R3,
            4 => RDModel::R3Nz,
            5 => RDModel::R3Nzk,
            64 => RDModel::R3Plus,
            65 => RDModel::R3NzkPlus,
            7 => RDModel::R7,
            8 => RDModel::R7Nz,
            9 => RDModel::R7Il,
            14 => RDModel::R4,
            15 => RDModel::R4Nz,
            16 => RDModel::R4Il,
            17 => RDModel::R4Eu,
            18 => RDModel::R8,
            19 => RDModel::R8Nz,
            20 => RDModel::R8Il,
            21 => RDModel::R8Eu,
            24 => RDModel::R4W,
            28 => RDModel::R8W,
            236 => RDModel::DbEu,
            237 => RDModel::DbIl,
            238 => RDModel::DbUs,
            239 => RDModel::DbNz,
            _ => RDModel::Unknown,
        }
    }
}

impl FromSpecImpl<u8> for RDModel {
    open spec fn obeys_from_spec() -> bool {
        true
    }

    open spec fn from_spec(item: u8) -> Self {
        model_of_code(item)
    }
}

impl RDModel {
    /// The model named by the device code in a model and version word.
    pub fn from_data(data: i16) -> (model: Self)
        ensures
            0 <= code_in_word(data) < 64,
            model == model_of_code(code_in_word(data) as u8),
    {
        // the upper six bits of `data`
        let code: i16 = (data >> 10) & 0x3F;
        assert(0 <= (data >> 10) & 0x3F < 64) by (bit_vector);
        RDModel::from(code as u8)
    }

    /// The device code of a model, 255 for `Unknown`.
    pub open spec fn code_spec(self) -> u8 {
        match self {
            RDModel::R1 => 1,
            RDModel::R3 => 3,
            RDModel::R3Nz => 4,
            RDModel::R3Nzk => 5,
            RDModel::R3Plus => 64,
            RDModel::R3NzkPlus => 65,
            RDModel::R7 => 7,
            RDModel::R7Nz => 8,
            RDModel::R7Il => 9,
            RDModel::R4 => 14,
            RDModel::R4Nz => 15,
            RDModel::R4Il => 16,
            RDModel::R4Eu => 17,
            RDModel::R8 => 18,
            RDModel::R8Nz => 19,
            RDModel::R8Il => 20,
            RDModel::R8Eu => 21,
            RDModel::R4W => 24,
            RDModel::R8W => 28,
            RDModel::DbEu => 236,
            RDModel::DbIl => 237,
            RDModel::DbUs => 238,
            RDModel::DbNz => 239,
            RDModel::Unknown => 255,
        }
    }

    /// The device code of this model, 255 for `Unknown`.
    pub fn code(&self) -> (code: u8)
        ensures
            code == self.code_spec(),
            model_of_code(code) == *self,
    {
        match self {
            RDModel::R1 => 1,
            RDModel::R3 => 3,
            RDModel::R3Nz => 4,
            RDModel::R3Nzk => 5,
            RDModel::R3Plus => 64,
            RDModel::R3NzkPlus => 65,
            RDModel::R7 => 7,
            RDModel::R7Nz => 8,
            RDModel::R7Il => 9,
            RDModel::R4 => 14,
            RDModel::R4Nz => 15,
            RDModel::R4Il => 16,
            RDModel::R4Eu => 17,
            RDModel::R8 => 18,
            RDModel::R8Nz => 19,
            RDModel::R8Il => 20,
            RDModel::R8Eu => 21,
            RDModel::R4W => 24,
            RDModel::R8W => 28,
            RDModel::DbEu => 236,
            RDModel::DbIl => 237,
            RDModel::DbUs => 238,
            RDModel::DbNz => 239,
            RDModel::Unknown => 255,
        }
    }

    /// The name under which the model is sold.
    pub open spec fn name_spec(self) -> Seq<char> {
        match self {
            RDModel::R1 => "R1"@,
            RDModel::R3 => "R3"@,
            RDModel::R3Nz => "R3NZ"@,
            RDModel::R3Nzk => "R3NZK"@,
            RDModel::R3Plus => "R3-PLUS"@,
            RDModel::R3NzkPlus => "R3NZK-PLUS"@,
            RDModel::R7 => "R7"@,
            RDModel::R7Nz => "R7NZ"@,
            RDModel::R7Il => "R7IL"@,
            RDModel::R4 => "R4"@,
            RDModel::R4Nz => "R4NZ"@,
            RDModel::R4Il => "R4IL"@,
            RDModel::R4Eu => "R4EU"@,
            RDModel::R8 => "R8"@,
            RDModel::R8Nz => "R8NZ"@,
            RDModel::R8Il => "R8IL"@,
            RDModel::R8Eu => "R8EU"@,
            RDModel::R4W => "R4W"@,
            RDModel::R8W => "R8W"@,
            RDModel::DbEu => "DBEU"@,
            RDModel::DbIl => "DBIL"@,
            RDModel::DbUs => "DBUS"@,
            RDModel::DbNz => "DBNZ"@,
            RDModel::Unknown => "UNKNOWN"@,
        }
    }

    /// The name under which the model is sold.
    pub fn to_name(&self) -> (name: &'static str)
        ensures
            name@ == self.name_spec(),
    {
        match self {
            RDModel::R1 => "R1",
            RDModel::R3 => "R3",
            RDModel::R3Nz => "R3NZ",
            RDModel::R3Nzk => "R3NZK",
            RDModel::R3Plus => "R3-PLUS",
            RDModel::R3NzkPlus => "R3NZK-PLUS",
            RDModel::R7 => "R7",
            RDModel::R7Nz => "R7NZ",
            RDModel::R7Il => "R7IL",
            RDModel::R4 => "R4",
            RDModel::R4Nz => "R4NZ",
            RDModel::R4Il => "R4IL",
            RDModel::R4Eu => "R4EU",
            RDModel::R8 => "R8",
            RDModel::R8Nz => "R8NZ",
            RDModel::R8Il => "R8IL",
            RDModel::R8Eu => "R8EU",
            RDModel::R4W => "R4W",
            RDModel::R8W => "R8W",
            RDModel::DbEu => "DBEU",
            RDModel::DbIl => "DBIL",
            RDModel::DbUs => "DBUS",
            RDModel::DbNz => "DBNZ",
            RDModel::Unknown => "UNKNOWN",
        }
    }
}

/// The version in a model and version word.
pub fn rd_version(data: i16) -> (version: i16)
    ensures
        version == version_in_word(data),
        data == -1 ==> version == -1,
        data != -1 ==> version == data & 0x3FF,
        data != -1 ==> 0 <= version <= 1023,
{
    if data == -1 {
        data
    } else {
        assert(0 <= data & 0x3FF <= 1023) by (bit_vector);
        data & 0x3FF
    }
}

/// A model and version word with the device code `code` in its upper six
/// bits and `version` in its lower ten.
pub open spec fn word_of(code: u8, version: u16) -> i16 {
    (((code as u16) << 10) | version) as i16
}

/// The device code and the version put into a word are the ones read back
/// from it, whatever the other field holds. The one word that reads back
/// another version is -1, all bits set, which says that there is none. So a
/// model read from a word built with its code is that model, and a code that
/// no model has reads as `Unknown`.
pub proof fn lemma_word_round_trip(code: u8, version: u16)
    requires
        code < 64,
        version < 1024,
    ensures
        code_in_word(word_of(code, version)) == code,
        model_of_code(code_in_word(word_of(code, version)) as u8) == model_of_code(code),
        word_of(code, version) != -1 ==> version_in_word(word_of(code, version)) == version,
        word_of(code, version) == -1 <==> code == 63 && version == 1023,
{
    assert(((((code as u16) << 10) | version) as i16 >> 10) & 0x3F == code) by (bit_vector)
        requires
            code < 64,
            version < 1024,
    ;
    assert((((code as u16) << 10) | version) as i16 & 0x3FF == version) by (bit_vector)
        requires
            code < 64,
            version < 1024,
    ;
    assert((((code as u16) << 10) | version) as i16 == -1 <==> code == 63 && version == 1023)
        by (bit_vector)
        requires
            code < 64,
            version < 1024,
    ;
}

/// Every model whose code fits in six bits is read back from a word built
/// with its code, whatever version the word holds.
pub proof fn lemma_model_round_trip(model: RDModel, version: u16)
    requires
        model.code_spec() < 64,
        version < 1024,
    ensures
        model_of_code(code_in_word(word_of(model.code_spec(), version)) as u8) == model,
{
    lemma_word_round_trip(model.code_spec(), version);
}

/// One byte of a descrambled group, before the key is taken off: the two
/// bits that start at bit `shift` of each of the four scrambled bytes, those
/// of the first byte lowest.
pub open spec fn gathered(d0: u8, d1: u8, d2: u8, d3: u8, shift: u8) -> u8 {
    ((d0 >> shift) & 3) | (((d1 >> shift) & 3) << 2) | (((d2 >> shift) & 3) << 4) | (((d3
        >> shift) & 3) << 6)
}

/// `byte` less `key`, wrapping round below zero.
pub open spec fn less_key(byte: u8, key: u8) -> u8 {
    if byte >= key {
        (byte - key) as u8
    } else {
        (byte + 256 - key) as u8
    }
}

/// `byte` plus `key`, wrapping round above 255.
pub open spec fn plus_key(byte: u8, key: u8) -> u8 {
    if byte + key < 256 {
        (byte + key) as u8
    } else {
        (byte + key - 256) as u8
    }
}

/// The four plain bytes of a scrambled group of four: byte `i` gathers bits
/// `2i` and `2i + 1` of every scrambled byte, and then the key is taken off.
pub open spec fn descrambled(key: u8, group: Seq<u8>) -> Seq<u8> {
    seq![
        less_key(gathered(group[0], group[1], group[2], group[3], 0), key),
        less_key(gathered(group[0], group[1], group[2], group[3], 2), key),
        less_key(gathered(group[0], group[1], group[2], group[3], 4), key),
        less_key(gathered(group[0], group[1], group[2], group[3], 6), key),
    ]
}

/// The scrambled group of four plain bytes: the key is put on each, and the
/// pairs of bits are dealt out the other way round.
pub open spec fn scrambled(key: u8, plain: Seq<u8>) -> Seq<u8> {
    let q0 = plus_key(plain[0], key);
    let q1 = plus_key(plain[1], key);
    let q2 = plus_key(plain[2], key);
    let q3 = plus_key(plain[3], key);
    seq![gathered(q0, q1, q2, q3, 0), gathered(q0, q1, q2, q3, 2), gathered(q0, q1, q2, q3, 4), gathered(q0, q1, q2, q3, 6)]
}

/// The plain bytes of scrambled `data`, group of four by group of four.
pub open spec fn old_model_decoded(key: u8, data: Seq<u8>) -> Seq<u8> {
    Seq::new(
        data.len(),
        |i: int| descrambled(key, data.subrange(4 * (i / 4), 4 * (i / 4) + 4))[i % 4],
    )
}

/// Dealing the pairs of bits out twice gives every byte back.
proof fn lemma_gather_twice(q0: u8, q1: u8, q2: u8, q3: u8)
    ensures
        gathered(
            gathered(q0, q1, q2, q3, 0),
            gathered(q0, q1, q2, q3, 2),
            gathered(q0, q1, q2, q3, 4),
            gathered(q0, q1, q2, q3, 6),
            0,
        ) == q0,
        gathered(
            gathered(q0, q1, q2, q3, 0),
            gathered(q0, q1, q2, q3, 2),
            gathered(q0, q1, q2, q3, 4),
            gathered(q0, q1, q2, q3, 6),
            2,
        ) == q1,
        gathered(
            gathered(q0, q1, q2, q3, 0),
            gathered(q0, q1, q2, q3, 2),
            gathered(q0, q1, q2, q3, 4),
            gathered(q0, q1, q2, q3, 6),
            4,
        ) == q2,
        gathered(
            gathered(q0, q1, q2, q3, 0),
            gathered(q0, q1, q2, q3, 2),
            gathered(q0, q1, q2, q3, 4),
            gathered(q0, q1, q2, q3, 6),
            6,
        ) == q3,
{
    assert(gathered(
        gathered(q0, q1, q2, q3, 0),
        gathered(q0, q1, q2, q3, 2),
        gathered(q0, q1, q2, q3, 4),
        gathered(q0, q1, q2, q3, 6),
        0,
    ) == q0) by (bit_vector);
    assert(gathered(
        gathered(q0, q1, q2, q3, 0),
        gathered(q0, q1, q2, q3, 2),
        gathered(q0, q1, q2, q3, 4),
        gathered(q0, q1, q2, q3, 6),
        2,
    ) == q1) by (bit_vector);
    assert(gathered(
        gathered(q0, q1, q2, q3, 0),
        gathered(q0, q1, q2, q3, 2),
        gathered(q0, q1, q2, q3, 4),
        gathered(q0, q1, q2, q3, 6),
        4,
    ) == q2) by (bit_vector);
    assert(gathered(
        gathered(q0, q1, q2, q3, 0),
        gathered(q0, q1, q2, q3, 2),
        gathered(q0, q1, q2, q3, 4),
        gathered(q0, q1, q2, q3, 6),
        6,
    ) == q3) by (bit_vector);
}

/// Descrambling a scrambled group with the key it was scrambled with gives
/// the plain bytes back, for every key and every four bytes.
pub proof fn lemma_descramble_inverts_scramble(key: u8, plain: Seq<u8>)
    requires
        plain.len() == 4,
    ensures
        descrambled(key, scrambled(key, plain)) == plain,
{
    lemma_gather_twice(
        plus_key(plain[0], key),
        plus_key(plain[1], key),
        plus_key(plain[2], key),
        plus_key(plain[3], key),
    );
    assert(descrambled(key, scrambled(key, plain)) =~= plain);
}

/// Scrambled data of one group descrambles as that group does.
pub proof fn lemma_one_group(key: u8, group: Seq<u8>)
    requires
        group.len() == 4,
    ensures
        old_model_decoded(key, group) == descrambled(key, group),
{
    assert(group.subrange(0, 4) =~= group);
    assert(old_model_decoded(key, group) =~= descrambled(key, group));
}

/// One byte of a descrambled group, before the key is taken off.
fn gather(d0: u8, d1: u8, d2: u8, d3: u8, shift: u8) -> (byte: u8)
    requires
        shift < 8,
    ensures
        byte == gathered(d0, d1, d2, d3, shift),
{
    ((d0 >> shift) & 3) | (((d1 >> shift) & 3) << 2) | (((d2 >> shift) & 3) << 4) | (((d3
        >> shift) & 3) << 6)
}

/// Descrambles the `length` bytes of `data` that start at `offset`, in
/// groups of four, with `key`.
pub fn decode_old_model(key: u8, data: &[u8], offset: usize, length: usize) -> (buffer: Vec<u8>)
    requires
        length % 4 == 0,
        offset + length <= data@.len(),
    ensures
        buffer@ == old_model_decoded(key, data@.subrange(offset as int, offset + length)),
{
    let total: usize = data.len();
    let mut buffer: Vec<u8> = Vec::with_capacity(length);
    let ghost scrambled_part = data@.subrange(offset as int, offset + length);
    let mut i: usize = 0;
    while i < length
        invariant
            i <= length,
            i % 4 == 0,
            length % 4 == 0,
            offset + length <= data@.len() == total,
            scrambled_part == data@.subrange(offset as int, offset + length),
            buffer@.len() == i,
            forall|j: int|
                0 <= j < i ==> buffer@[j] == #[trigger] old_model_decoded(key, scrambled_part)[j],
        decreases length - i,
    {
        let d0: u8 = data[offset + i];
        let d1: u8 = data[offset + i + 1];
        let d2: u8 = data[offset + i + 2];
        let d3: u8 = data[offset + i + 3];
        proof {
            let group = scrambled_part.subrange(i as int, i + 4);
            assert(group[0] == d0 && group[1] == d1 && group[2] == d2 && group[3] == d3);
            assert(4 * (i / 4) == i && (i + 1) / 4 == i / 4 && (i + 2) / 4 == i / 4 && (i + 3) / 4
                == i / 4);
        }
        buffer.push(gather(d0, d1, d2, d3, 0).wrapping_sub(key));
        buffer.push(gather(d0, d1, d2, d3, 2).wrapping_sub(key));
        buffer.push(gather(d0, d1, d2, d3, 4).wrapping_sub(key));
        buffer.push(gather(d0, d1, d2, d3, 6).wrapping_sub(key));
        i += 4;
    }
    assert(buffer@ =~= old_model_decoded(key, scrambled_part));
    buffer
}

} // verus!
