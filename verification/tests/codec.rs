use uniden_firmware::bytes::{four_are, i16_from_le, i32_from_le};
use uniden_firmware::format::{
    decode_old_model, rd_version, RDModel, OLD_IL_GPS_DB_KEY, OLD_NZ_GPS_DB_KEY,
    OLD_US_GPS_DB_KEY, SOUND_DB_KEY,
};
use uniden_firmware::util::{alter_length, padded_span, span_in_blocks, MAX_PADDABLE_LENGTH};

/// The scrambling that `decode_old_model` undoes, written the other way
/// round: the key is put on, then the pairs of bits are dealt out.
fn scramble(key: u8, plain: [u8; 4]) -> [u8; 4] {
    let q: Vec<u8> = plain.iter().map(|p| p.wrapping_add(key)).collect();
    let mut out = [0u8; 4];
    for (j, slot) in out.iter_mut().enumerate() {
        for (i, byte) in q.iter().enumerate() {
            *slot |= ((byte >> (2 * j)) & 3) << (2 * i);
        }
    }
    out
}

#[test]
fn alter_length_of_nothing_is_nothing() {
    assert_eq!(alter_length(0), 0);
}

#[test]
fn alter_length_rounds_up_to_the_next_block() {
    assert_eq!(alter_length(1), 512);
    assert_eq!(alter_length(496), 512);
    assert_eq!(alter_length(511), 512);
    assert_eq!(alter_length(513), 1024);
    assert_eq!(alter_length(1023), 1024);
}

#[test]
fn alter_length_adds_a_block_to_a_full_one() {
    assert_eq!(alter_length(512), 1024);
    assert_eq!(alter_length(1024), 1536);
    assert_eq!(alter_length(0x0010_0000), 0x0010_0200);
}

#[test]
fn alter_length_law_on_a_range_of_lengths() {
    for n in 1..5000 {
        let padded = alter_length(n);
        assert_eq!(padded % 512, 0);
        if n % 512 == 0 {
            assert!(padded > n);
            assert_eq!(padded, n + 512);
        } else {
            assert!(n <= padded && padded < n + 512);
        }
    }
}

#[test]
fn alter_length_at_the_largest_length() {
    assert_eq!(MAX_PADDABLE_LENGTH, 0x7FFF_FDFF);
    assert_eq!(alter_length(MAX_PADDABLE_LENGTH), 0x7FFF_FE00);
}

#[test]
fn alter_length_divides_toward_zero() {
    assert_eq!(alter_length(-1), 512);
    assert_eq!(alter_length(-511), 512);
    assert_eq!(alter_length(-512), 0);
    assert_eq!(alter_length(-1023), 0);
    assert_eq!(alter_length(-1024), -512);
    assert_eq!(alter_length(i32::MIN), -0x7FFF_FE00);
}

#[test]
fn padded_span_is_defined_for_every_length() {
    assert_eq!(padded_span(0), 0);
    assert_eq!(padded_span(700), 1024);
    assert_eq!(padded_span(MAX_PADDABLE_LENGTH), 0x7FFF_FE00);
    assert_eq!(padded_span(MAX_PADDABLE_LENGTH + 1), 0x8000_0000);
    assert_eq!(padded_span(i32::MAX), 0x8000_0000);
    assert_eq!(padded_span(-1), 512);
}

#[test]
fn span_in_blocks_has_no_case_for_zero() {
    assert_eq!(span_in_blocks(0, 512), 512);
    assert_eq!(span_in_blocks(0, 1024), 1024);
    assert_eq!(span_in_blocks(1, 1024), 1024);
    assert_eq!(span_in_blocks(1024, 1024), 2048);
    assert_eq!(span_in_blocks(1024, 512), 1536);
    assert_eq!(span_in_blocks(-600, 512), 0);
    assert_eq!(span_in_blocks(-2000, 1024), 0);
    assert_eq!(span_in_blocks(i32::MAX, 512), 0x8000_0000);
}

#[test]
fn rd_version_keeps_the_sentinel() {
    assert_eq!(rd_version(-1), -1);
}

#[test]
fn rd_version_keeps_the_low_ten_bits() {
    assert_eq!(rd_version(0), 0);
    assert_eq!(rd_version(0x0123), 0x0123);
    assert_eq!(rd_version(0x1D23), 0x0123);
    assert_eq!(rd_version(0x7FFF), 0x03FF);
    assert_eq!(rd_version(-2), 0x03FE);
    assert_eq!(rd_version(i16::MIN), 0);
    assert_eq!(rd_version(0x0400), 0);
}

#[test]
fn rd_version_law_on_every_word() {
    for raw in i16::MIN..=i16::MAX {
        let version = rd_version(raw);
        if raw == -1 {
            assert_eq!(version, -1);
        } else {
            assert_eq!(version, raw & 0x3FF);
            assert!((0..=1023).contains(&version));
        }
    }
}

#[test]
fn model_of_every_code() {
    let known: [(u8, RDModel); 23] = [
        (1, RDModel::R1),
        (3, RDModel::R3),
        (4, RDModel::R3Nz),
        (5, RDModel::R3Nzk),
        (64, RDModel::R3Plus),
        (65, RDModel::R3NzkPlus),
        (7, RDModel::R7),
        (8, RDModel::R7Nz),
        (9, RDModel::R7Il),
        (14, RDModel::R4),
        (15, RDModel::R4Nz),
        (16, RDModel::R4Il),
        (17, RDModel::R4Eu),
        (18, RDModel::R8),
        (19, RDModel::R8Nz),
        (20, RDModel::R8Il),
        (21, RDModel::R8Eu),
        (24, RDModel::R4W),
        (28, RDModel::R8W),
        (236, RDModel::DbEu),
        (237, RDModel::DbIl),
        (238, RDModel::DbUs),
        (239, RDModel::DbNz),
    ];
    for code in 0..=255u8 {
        let expected = known.iter().find(|(c, _)| *c == code).map(|(_, m)| *m);
        assert_eq!(RDModel::from(code), expected.unwrap_or(RDModel::Unknown));
    }
    for (code, model) in known {
        assert_eq!(model.code(), code);
    }
    assert_eq!(RDModel::Unknown.code(), 255);
}

#[test]
fn from_data_round_trips_with_any_version() {
    for code in 0..64u16 {
        for version in [0u16, 1, 0x123, 0x2AA, 0x3FF] {
            let word = ((code << 10) | version) as i16;
            assert_eq!(RDModel::from_data(word), RDModel::from(code as u8));
            if word != -1 {
                assert_eq!(rd_version(word), version as i16);
            }
        }
    }
}

#[test]
fn from_data_of_known_words() {
    assert_eq!(RDModel::from_data(0x1D23), RDModel::R7);
    assert_eq!(RDModel::from_data(0x0400), RDModel::R1);
    assert_eq!(RDModel::from_data(0x7000), RDModel::R8W);
    assert_eq!(RDModel::from_data(0x4800u16 as i16), RDModel::R8);
}

#[test]
fn from_data_of_unknown_codes() {
    assert_eq!(RDModel::from_data(0), RDModel::Unknown);
    assert_eq!(RDModel::from_data(0x03FF), RDModel::Unknown);
    assert_eq!(RDModel::from_data(0x0800), RDModel::Unknown);
    assert_eq!(RDModel::from_data(-1), RDModel::Unknown);
    assert_eq!(RDModel::from_data(i16::MIN), RDModel::Unknown);
}

#[test]
fn names_of_the_models() {
    assert_eq!(RDModel::R1.to_name(), "R1");
    assert_eq!(RDModel::R3.to_name(), "R3");
    assert_eq!(RDModel::R3Nz.to_name(), "R3NZ");
    assert_eq!(RDModel::R3Nzk.to_name(), "R3NZK");
    assert_eq!(RDModel::R3Plus.to_name(), "R3-PLUS");
    assert_eq!(RDModel::R3NzkPlus.to_name(), "R3NZK-PLUS");
    assert_eq!(RDModel::R7.to_name(), "R7");
    assert_eq!(RDModel::R7Nz.to_name(), "R7NZ");
    assert_eq!(RDModel::R7Il.to_name(), "R7IL");
    assert_eq!(RDModel::R4.to_name(), "R4");
    assert_eq!(RDModel::R4Nz.to_name(), "R4NZ");
    assert_eq!(RDModel::R4Il.to_name(), "R4IL");
    assert_eq!(RDModel::R4Eu.to_name(), "R4EU");
    assert_eq!(RDModel::R8.to_name(), "R8");
    assert_eq!(RDModel::R8Nz.to_name(), "R8NZ");
    assert_eq!(RDModel::R8Il.to_name(), "R8IL");
    assert_eq!(RDModel::R8Eu.to_name(), "R8EU");
    assert_eq!(RDModel::R4W.to_name(), "R4W");
    assert_eq!(RDModel::R8W.to_name(), "R8W");
    assert_eq!(RDModel::DbEu.to_name(), "DBEU");
    assert_eq!(RDModel::DbIl.to_name(), "DBIL");
    assert_eq!(RDModel::DbUs.to_name(), "DBUS");
    assert_eq!(RDModel::DbNz.to_name(), "DBNZ");
    assert_eq!(RDModel::Unknown.to_name(), "UNKNOWN");
}

#[test]
fn keys_of_the_databases() {
    assert_eq!(SOUND_DB_KEY, 255);
    assert_eq!(OLD_US_GPS_DB_KEY, 210);
    assert_eq!(OLD_NZ_GPS_DB_KEY, 194);
    assert_eq!(OLD_IL_GPS_DB_KEY, 226);
}

#[test]
fn decode_old_model_of_known_groups() {
    assert_eq!(decode_old_model(210, &[0xA8, 0x05, 0x56, 0xFE], 0, 4), vec![0xD2, 0x04, 0, 0]);
    assert_eq!(decode_old_model(194, &[0x88, 0xA5, 0xDD, 0x0F], 0, 4), vec![0x12, 0x34, 0x56, 0x78]);
    assert_eq!(decode_old_model(226, &[0x93, 0x54, 0xAA, 0xFF], 0, 4), vec![1, 2, 3, 4]);
    assert_eq!(decode_old_model(255, &[0xF0, 0xF1, 0xF1, 0xF1], 0, 4), vec![0x55, 0x01, 0, 0]);
    assert_eq!(decode_old_model(0, &[0xE4, 0x1B, 0xFF, 0x00], 0, 4), vec![60, 57, 54, 51]);
    assert_eq!(decode_old_model(0, &[0x1B, 0, 0, 0], 0, 4), vec![3, 2, 1, 0]);
}

#[test]
fn decode_old_model_wraps_below_zero() {
    assert_eq!(decode_old_model(210, &[0, 0, 0, 0], 0, 4), vec![46, 46, 46, 46]);
    assert_eq!(decode_old_model(210, &[255, 255, 255, 255], 0, 4), vec![45, 45, 45, 45]);
    assert_eq!(decode_old_model(1, &[0, 0, 0, 0], 0, 4), vec![255, 255, 255, 255]);
}

#[test]
fn decode_old_model_undoes_the_scrambling() {
    let patterns: [[u8; 4]; 6] = [
        [0x00, 0x00, 0x00, 0x00],
        [0xFF, 0xFF, 0xFF, 0xFF],
        [0x01, 0x02, 0x03, 0x04],
        [0x12, 0x34, 0x56, 0x78],
        [0x80, 0x7F, 0xAA, 0x55],
        [0xD2, 0xC2, 0xE2, 0xFF],
    ];
    for key in [OLD_US_GPS_DB_KEY, OLD_NZ_GPS_DB_KEY, OLD_IL_GPS_DB_KEY, SOUND_DB_KEY, 0, 1] {
        for plain in patterns {
            let scrambled = scramble(key, plain);
            assert_eq!(decode_old_model(key, &scrambled, 0, 4), plain.to_vec());
        }
    }
}

#[test]
fn decode_old_model_undoes_the_scrambling_of_every_byte() {
    for key in [OLD_US_GPS_DB_KEY, OLD_NZ_GPS_DB_KEY, OLD_IL_GPS_DB_KEY] {
        for byte in 0..=255u8 {
            let plain = [byte, byte.wrapping_mul(3), !byte, byte ^ 0x5A];
            assert_eq!(decode_old_model(key, &scramble(key, plain), 0, 4), plain.to_vec());
        }
    }
}

#[test]
fn decode_old_model_takes_groups_from_an_offset() {
    let mut data = vec![9u8, 9, 9];
    data.extend_from_slice(&scramble(210, [1, 2, 3, 4]));
    data.extend_from_slice(&scramble(210, [5, 6, 7, 8]));
    data.push(9);
    assert_eq!(decode_old_model(210, &data, 3, 8), vec![1, 2, 3, 4, 5, 6, 7, 8]);
    assert_eq!(decode_old_model(210, &data, 7, 4), vec![5, 6, 7, 8]);
    assert_eq!(decode_old_model(210, &data, 3, 0), Vec::<u8>::new());
}

#[test]
fn numbers_are_read_lowest_byte_first() {
    let b = [0x23u8, 0x1D, 0xFF, 0xFF, 0xFF, 0x7F, 0x00, 0x00, 0x00, 0x80];
    assert_eq!(i16_from_le(&b, 0), 0x1D23);
    assert_eq!(i16_from_le(&b, 2), -1);
    assert_eq!(i16_from_le(&b, 4), 0x7FFF);
    assert_eq!(i16_from_le(&b, 8), i16::MIN);
    assert_eq!(i32_from_le(&b, 0), 0xFFFF1D23u32 as i32);
    assert_eq!(i32_from_le(&b, 2), 0x7FFF_FFFF);
    assert_eq!(i32_from_le(&b, 6), i32::MIN);
    assert_eq!(i32_from_le(&[0xD2, 0x04, 0, 0], 0), 1234);
}

#[test]
fn bytes_are_compared_in_place() {
    let b = *b"..GPSD..";
    assert!(four_are(&b, 2, b'G', b'P', b'S', b'D'));
    assert!(!four_are(&b, 1, b'G', b'P', b'S', b'D'));
    assert!(!four_are(&b, 2, b'G', b'P', b'S', b'E'));
    assert!(four_are(&b, 4, b'S', b'D', b'.', b'.'));
}
