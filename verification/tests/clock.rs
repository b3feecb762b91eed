//! End-to-end scenario: raw register bytes through the codec and onto the grid.

use led_clock::codec::{decode_hours, decode_minutes};
use led_clock::render::{column_value, set_colon, set_time};

#[test]
fn registers_to_grid_end_to_end() {
    // The peripheral reports 13:47 as packed BCD: 0x13 and 0x47.
    let hours = decode_hours(0x13);
    let minutes = decode_minutes(0x47);
    assert_eq!(hours, 13);
    assert_eq!(minutes, 47);

    let mut leds: [[u8; 5]; 5] = [[0u8; 5]; 5];
    set_time(hours, minutes, &mut leds);

    assert_eq!(column_value(&leds, 0), 1);
    assert_eq!(column_value(&leds, 1), 3);
    assert_eq!(column_value(&leds, 3), 4);
    assert_eq!(column_value(&leds, 4), 7);

    // The two presentation phases of one loop iteration.
    set_colon(true, &mut leds);
    assert_eq!((leds[3][2], leds[4][2]), (1, 1));
    set_colon(false, &mut leds);
    assert_eq!((leds[3][2], leds[4][2]), (0, 0));
}

#[test]
fn reserved_bits_do_not_reach_the_grid() {
    // A set reserved bit in either register yields the very same rendering.
    let mut clean: [[u8; 5]; 5] = [[0u8; 5]; 5];
    set_time(decode_hours(0x21), decode_minutes(0x05), &mut clean);
    let mut noisy: [[u8; 5]; 5] = [[0u8; 5]; 5];
    set_time(decode_hours(0xc0 | 0x21), decode_minutes(0x80 | 0x05), &mut noisy);
    assert_eq!(clean, noisy);
}
