use gba_hal::bits::{
    field_mask16, field_mask8, get_bits16, get_bits8, get_flag16, get_flag8, set_flag16,
    set_flag8, with_bits16, with_bits8,
};

const SAMPLES16: [u16; 8] = [0x0000, 0xFFFF, 0x0001, 0x8000, 0xA5A5, 0x5A5A, 0x1234, 0xFEDC];

#[test]
fn mask_is_width_ones_shifted_to_low_bit() {
    assert_eq!(field_mask16((0, 2)), 0b111);
    assert_eq!(field_mask16((6, 7)), 0b1100_0000);
    assert_eq!(field_mask16((8, 12)), 0x1F00);
    assert_eq!(field_mask16((15, 15)), 0x8000);
    assert_eq!(field_mask16((0, 15)), 0xFFFF);
    assert_eq!(field_mask16((1, 9)), 0x03FE);
    assert_eq!(field_mask8((4, 6)), 0x70);
    assert_eq!(field_mask8((0, 7)), 0xFF);
    assert_eq!(field_mask8((7, 7)), 0x80);
}

#[test]
fn three_bit_field_and_flag_scenario() {
    let zero: u16 = 0;
    let with_field = with_bits16(zero, (0, 2), 5);
    assert_eq!(with_field, 0b0000_0101);
    let with_flag = set_flag16(with_field, 7, true);
    assert_eq!(with_flag, 0b1000_0101);
    assert_eq!(get_bits16(with_flag, (0, 2)), 5);
    assert!(get_flag16(with_flag, 7));
    let cleared = set_flag16(with_flag, 7, false);
    assert_eq!(cleared, 0b0000_0101);
    assert_eq!(get_bits16(cleared, (0, 2)), 5);
    assert!(!get_flag16(cleared, 7));
}

#[test]
fn get_reads_the_range_right_justified() {
    assert_eq!(get_bits16(0b1100_0000, (6, 7)), 3);
    assert_eq!(get_bits16(0xABCD, (4, 11)), 0xBC);
    assert_eq!(get_bits16(0xABCD, (0, 15)), 0xABCD);
    assert_eq!(get_bits16(0xABCD, (12, 15)), 0xA);
    assert_eq!(get_bits8(0b0111_0000, (4, 6)), 7);
    assert_eq!(get_bits8(0xA7, (0, 2)), 7);
}

#[test]
fn set_drops_bits_above_the_width() {
    assert_eq!(with_bits16(0, (0, 2), 0xFFFF), 0b111);
    assert_eq!(with_bits16(0, (6, 7), 5), 0b0100_0000);
    assert_eq!(with_bits16(0xFFFF, (8, 12), 0), 0xE0FF);
    assert_eq!(with_bits8(0, (4, 6), 0xFF), 0x70);
    assert_eq!(get_bits16(with_bits16(0x1234, (4, 7), 0x1F), (4, 7)), 0xF);
}

#[test]
fn set_then_get_returns_the_value_on_every_range16() {
    for lo in 0..16u32 {
        for hi in lo..16u32 {
            let width = hi - lo + 1;
            let top: u32 = (1u32 << width) - 1;
            for raw in SAMPLES16 {
                for value in [0u32, 1, top / 2, top] {
                    let value = value as u16;
                    let out = with_bits16(raw, (lo, hi), value);
                    assert_eq!(get_bits16(out, (lo, hi)), value);
                    let mask = field_mask16((lo, hi));
                    assert_eq!(out & !mask, raw & !mask);
                }
            }
        }
    }
}

#[test]
fn set_leaves_disjoint_ranges_alone16() {
    for lo in 0..16u32 {
        for hi in lo..16u32 {
            for lo2 in 0..16u32 {
                for hi2 in lo2..16u32 {
                    if !(hi < lo2 || hi2 < lo) {
                        continue;
                    }
                    assert_eq!(field_mask16((lo, hi)) & field_mask16((lo2, hi2)), 0);
                    for raw in SAMPLES16 {
                        let out = with_bits16(raw, (lo, hi), 0x5555);
                        assert_eq!(get_bits16(out, (lo2, hi2)), get_bits16(raw, (lo2, hi2)));
                    }
                }
            }
        }
    }
}

#[test]
fn overlapping_ranges_share_mask_bits() {
    assert_ne!(field_mask16((9, 13)) & field_mask16((12, 12)), 0);
    assert_ne!(field_mask16((9, 13)) & field_mask16((13, 13)), 0);
    assert_ne!(field_mask8((0, 4)) & field_mask8((4, 7)), 0);
}

#[test]
fn set_then_get_on_every_range_and_value8() {
    for lo in 0..8u32 {
        for hi in lo..8u32 {
            let top: u32 = (1u32 << (hi - lo + 1)) - 1;
            for raw in 0..=255u8 {
                for value in 0..=top {
                    let value = value as u8;
                    let out = with_bits8(raw, (lo, hi), value);
                    assert_eq!(get_bits8(out, (lo, hi)), value);
                    let mask = field_mask8((lo, hi));
                    assert_eq!(out & !mask, raw & !mask);
                }
            }
        }
    }
}

#[test]
fn flag_set_is_idempotent_and_reversible() {
    for bit in 0..16u32 {
        for raw in SAMPLES16 {
            let on = set_flag16(raw, bit, true);
            assert_eq!(set_flag16(on, bit, true), on);
            assert!(get_flag16(on, bit));
            let off = set_flag16(on, bit, false);
            assert!(!get_flag16(off, bit));
            assert_eq!(off, set_flag16(raw, bit, false));
            assert_eq!(set_flag16(off, bit, false), off);
            assert_eq!(on ^ off, 1u16 << bit);
            if !get_flag16(raw, bit) {
                assert_eq!(off, raw);
            }
            assert_eq!(set_flag16(raw, bit, get_flag16(raw, bit)), raw);
        }
    }
}

#[test]
fn flag_set_is_idempotent_and_reversible8() {
    for bit in 0..8u32 {
        for raw in 0..=255u8 {
            let on = set_flag8(raw, bit, true);
            assert_eq!(set_flag8(on, bit, true), on);
            assert!(get_flag8(on, bit));
            let off = set_flag8(on, bit, false);
            assert!(!get_flag8(off, bit));
            assert_eq!(on ^ off, 1u8 << bit);
            assert_eq!(set_flag8(raw, bit, get_flag8(raw, bit)), raw);
        }
    }
}

#[test]
fn flag_is_the_field_of_width_one() {
    for bit in 0..16u32 {
        for raw in SAMPLES16 {
            assert_eq!(get_flag16(raw, bit), get_bits16(raw, (bit, bit)) == 1);
            assert_eq!(set_flag16(raw, bit, true), with_bits16(raw, (bit, bit), 1));
            assert_eq!(set_flag16(raw, bit, false), with_bits16(raw, (bit, bit), 0));
        }
    }
}
