use uniden_firmware::coverage::merge_ranges;
use uniden_firmware::file::UnidenFirmware;

#[test]
fn ranges_that_touch_are_merged() {
    assert_eq!(merge_ranges(&vec![(0, 4), (4, 8), (8, 12), (524, 533)]), vec![(0, 12), (524, 533)]);
}

#[test]
fn ranges_that_overlap_are_merged() {
    assert_eq!(merge_ranges(&vec![(0, 10), (2, 5), (3, 8), (5, 9), (8, 11)]), vec![(0, 11)]);
    assert_eq!(merge_ranges(&vec![(0, 10), (20, 30), (25, 26)]), vec![(0, 10), (20, 30)]);
}

#[test]
fn ranges_are_sorted_before_they_are_merged() {
    assert_eq!(merge_ranges(&vec![(7, 8), (2, 3), (0, 1)]), vec![(0, 1), (2, 3), (7, 8)]);
    assert_eq!(merge_ranges(&vec![(20, 30), (5, 25), (0, 1)]), vec![(0, 1), (5, 30)]);
}

#[test]
fn ranges_apart_are_kept() {
    assert_eq!(merge_ranges(&vec![(0, 4), (5, 9)]), vec![(0, 4), (5, 9)]);
    assert_eq!(merge_ranges(&vec![(3, 4)]), vec![(3, 4)]);
    assert_eq!(merge_ranges(&vec![]), vec![]);
}

#[test]
fn merged_ranges_stop_before_the_next_starts() {
    let ranges: Vec<(u64, u64)> = (0..200u64).map(|i| ((i * 37) % 101, (i * 37) % 101 + i % 7)).collect();
    let merged = merge_ranges(&ranges);
    assert!(!merged.is_empty() && merged.len() <= ranges.len());
    assert_eq!(merged[0].0, ranges.iter().map(|r| r.0).min().unwrap());
    for pair in merged.windows(2) {
        assert!(pair[0].1 < pair[1].0);
    }
}

#[test]
fn the_coverage_of_a_container() {
    let mut bytes = vec![0xF0u8, 0x01, 0x00, 0x00, 0, 0, 0, 0, 0, 0, 0, 0];
    bytes.extend(vec![0xEE; 512]);
    bytes.extend_from_slice(&[0x23, 0x1D]);
    bytes.extend_from_slice(b"DRSWMAI");
    bytes.extend_from_slice(b"KEYS\0\0\0\0\x01\0\0\0");
    bytes.extend(vec![0xEE; 512]);
    bytes.extend_from_slice(&[0x04, 0x00]);
    bytes.extend_from_slice(b"DRSWKEY");
    let mut firmware = UnidenFirmware::from(bytes);
    assert_eq!(firmware.merged_coverage(), vec![]);
    assert_eq!(firmware.read_buffer(), Ok(()));
    assert_eq!(
        firmware.read_intervals(),
        &vec![(0, 4), (4, 8), (8, 12), (524, 533), (533, 545), (1057, 1066)]
    );
    assert_eq!(firmware.merged_coverage(), vec![(0, 12), (524, 545), (1057, 1066)]);
}
