use i2c_keypad::keys::{apply_scan, idx_of, key_events, make_key_table, BitArray, Key};
use i2c_keypad::leds::{encode_byte, encode_strip, Rgb, Ws2812};

#[test]
fn bitarray_get_set_roundtrip() {
    let mut bits = BitArray::new();
    for i in 0..64 {
        assert!(!bits.get(i));
    }
    bits.set(0, true);
    bits.set(7, true);
    bits.set(8, true);
    bits.set(63, true);
    for i in 0..64 {
        assert_eq!(bits.get(i), i == 0 || i == 7 || i == 8 || i == 63);
    }
    bits.set(8, false);
    assert!(!bits.get(8));
    assert!(bits.get(7));
    assert!(bits.get(0));
}

#[test]
fn idx_of_is_column_major() {
    assert_eq!(idx_of(0, 0), 0);
    assert_eq!(idx_of(7, 0), 7);
    assert_eq!(idx_of(0, 1), 8);
    assert_eq!(idx_of(3, 2), 19);
    assert_eq!(idx_of(7, 7), 63);
}

#[test]
fn key_table_matches_wiring() {
    let table = make_key_table();
    assert_eq!(table[0][0], Key::Seq0);
    assert_eq!(table[0][7], Key::Sampler);
    assert_eq!(table[2][6], Key::NoKey);
    assert_eq!(table[3][4], Key::Play);
    assert_eq!(table[7][3], Key::Shift);
    assert_eq!(table[7][7], Key::Master);
}

#[test]
fn apply_scan_updates_states_and_detects_changes() {
    let mut bits = BitArray::new();
    let mut readings = [[false; 8]; 8];
    readings[2][5] = true; // column 2, row 5 -> index 2*8+5 = 21
    assert!(apply_scan(&mut bits, &readings));
    assert!(bits.get(21));
    for i in 0..64 {
        assert_eq!(bits.get(i), i == 21);
    }
    // The same scan again changes nothing.
    assert!(!apply_scan(&mut bits, &readings));
    // Releasing the key is a change again.
    readings[2][5] = false;
    assert!(apply_scan(&mut bits, &readings));
    assert!(!bits.get(21));
}

#[test]
fn key_events_reports_presses_and_releases() {
    let table = make_key_table();
    let mut before = BitArray::new();
    let mut after = BitArray::new();
    // Press the key at row 0, column 0 (Seq0, index 0) and the key at
    // row 3, column 4 (Play, index 4*8+3 = 35).
    after.set(idx_of(0, 0), true);
    after.set(idx_of(3, 4), true);
    let events = key_events(&table, &before, &after);
    assert_eq!(events, vec![(Key::Seq0, true), (Key::Play, true)]);
    // Now release Seq0 while Play stays held.
    before.set(idx_of(0, 0), true);
    before.set(idx_of(3, 4), true);
    after.set(idx_of(0, 0), false);
    let events = key_events(&table, &before, &after);
    assert_eq!(events, vec![(Key::Seq0, false)]);
}

#[test]
fn key_events_skips_unwired_positions() {
    let table = make_key_table();
    let before = BitArray::new();
    let mut after = BitArray::new();
    // Row 2, column 6 is not wired to a key; a bit change there is noise.
    after.set(idx_of(2, 6), true);
    let events = key_events(&table, &before, &after);
    assert_eq!(events, vec![]);
}

#[test]
fn encode_byte_produces_exact_patterns() {
    assert_eq!(encode_byte(0x00), vec![0x44, 0x44, 0x44, 0x44]);
    assert_eq!(encode_byte(0xFF), vec![0x77, 0x77, 0x77, 0x77]);
    // 0x93 = 0b10_01_00_11.
    assert_eq!(encode_byte(0x93), vec![0x74, 0x47, 0x44, 0x77]);
}

#[test]
fn encode_strip_sends_green_red_blue_then_latch() {
    let colors = vec![Rgb { r: 0xFF, g: 0x00, b: 0x93 }];
    let stream = encode_strip(&colors);
    let mut expected = Vec::new();
    expected.extend_from_slice(&[0x44, 0x44, 0x44, 0x44]); // green 0x00
    expected.extend_from_slice(&[0x77, 0x77, 0x77, 0x77]); // red 0xFF
    expected.extend_from_slice(&[0x74, 0x47, 0x44, 0x77]); // blue 0x93
    expected.extend_from_slice(&[0u8; 20]); // latch
    assert_eq!(stream, expected);
}

#[test]
fn encode_strip_keeps_color_order() {
    let colors = vec![
        Rgb { r: 1, g: 2, b: 3 },
        Rgb { r: 4, g: 5, b: 6 },
    ];
    let stream = encode_strip(&colors);
    assert_eq!(stream.len(), 2 * 12 + 20);
    assert_eq!(&stream[0..4], &encode_byte(2)[..]);
    assert_eq!(&stream[12..16], &encode_byte(5)[..]);
    assert_eq!(&stream[24..], &[0u8; 20]);
}

#[test]
fn strip_driver_wraps_its_bus() {
    let w = Ws2812::new("bus");
    assert_eq!(w.spi, "bus");
}
