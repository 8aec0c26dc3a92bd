use oled::display::{pixel_position, OLED, OLEDError};
use oled::font::{ASCII_1206, ASCII_1608};
use oled::link::WireByte;

/// Expected pixel of the 12-tall glyph for `ch` at column `c`, row `r`.
fn glyph_bit_1206(ch: u8, c: usize, r: usize) -> bool {
    let byte = ASCII_1206[(ch - 32) as usize][2 * c + r / 8];
    (byte >> (7 - r % 8)) & 1 == 1
}

/// Expected pixel of the 16-tall glyph for `ch` at column `c`, row `r`.
fn glyph_bit_1608(ch: u8, c: usize, r: usize) -> bool {
    let byte = ASCII_1608[(ch - 32) as usize][2 * c + r / 8];
    (byte >> (7 - r % 8)) & 1 == 1
}

fn pixel(oled: &OLED, x: u8, y: u8) -> bool {
    oled.read_point(x, y).unwrap()
}

#[test]
fn pixel_roundtrip_every_coordinate() {
    let mut oled = OLED::new();
    for x in 0..128u8 {
        for y in 0..64u8 {
            assert_eq!(oled.draw_point(x, y, true), Ok(()));
            assert!(pixel(&oled, x, y));
            assert_eq!(oled.draw_point(x, y, false), Ok(()));
            assert!(!pixel(&oled, x, y));
        }
    }
}

#[test]
fn out_of_bounds_point_rejected_and_harmless() {
    let mut oled = OLED::new();
    assert_eq!(oled.draw_point(3, 5, true), Ok(()));
    for (x, y) in [(128u8, 0u8), (0, 64), (128, 64), (255, 255), (200, 10), (10, 200)] {
        assert_eq!(oled.draw_point(x, y, true), Err(OLEDError::OutOfBounds));
        assert_eq!(oled.read_point(x, y), Err(OLEDError::OutOfBounds));
    }
    // the framebuffer is exactly as before: one pixel set
    for x in 0..128u8 {
        for y in 0..64u8 {
            assert_eq!(pixel(&oled, x, y), x == 3 && y == 5);
        }
    }
}

#[test]
fn clear_turns_every_pixel_off() {
    let mut oled = OLED::new();
    for (x, y) in [(0u8, 0u8), (127, 63), (5, 40), (99, 12)] {
        oled.draw_point(x, y, true).unwrap();
    }
    oled.clear().unwrap();
    for x in 0..128u8 {
        for y in 0..64u8 {
            assert!(!pixel(&oled, x, y));
        }
    }
}

#[test]
fn pixel_position_matches_page_addressing_formula() {
    assert_eq!(pixel_position(0), (7, 0x80));
    assert_eq!(pixel_position(7), (7, 0x01));
    assert_eq!(pixel_position(8), (6, 0x80));
    assert_eq!(pixel_position(15), (6, 0x01));
    assert_eq!(pixel_position(56), (0, 0x80));
    assert_eq!(pixel_position(63), (0, 0x01));
}

#[test]
fn char_rendered_from_glyph_table() {
    let mut oled = OLED::new();
    oled.show_char(10, 20, b'A', 12, true).unwrap();
    for c in 0..6usize {
        for r in 0..12usize {
            assert_eq!(
                pixel(&oled, 10 + c as u8, 20 + r as u8),
                glyph_bit_1206(b'A', c, r),
                "mismatch at column {c} row {r}"
            );
        }
    }
}

#[test]
fn char_inverted_polarity_flips_pixels() {
    let mut oled = OLED::new();
    oled.show_char(0, 0, b'A', 16, false).unwrap();
    for c in 0..8usize {
        for r in 0..16usize {
            assert_eq!(pixel(&oled, c as u8, r as u8), !glyph_bit_1608(b'A', c, r));
        }
    }
}

#[test]
fn number_renders_all_digits_including_leading_zeros() {
    let mut oled = OLED::new();
    oled.show_number(0, 0, 7, 4, 16).unwrap();
    // digit sequence "0007", one 8-column glyph per digit
    for (i, d) in [b'0', b'0', b'0', b'7'].into_iter().enumerate() {
        for c in 0..8usize {
            for r in 0..16usize {
                assert_eq!(
                    pixel(&oled, (8 * i + c) as u8, r as u8),
                    glyph_bit_1608(d, c, r),
                    "digit {i} mismatch at column {c} row {r}"
                );
            }
        }
    }
}

#[test]
fn number_decomposes_by_repeated_division() {
    let mut oled = OLED::new();
    oled.show_number(0, 0, 1234567890, 10, 12).unwrap();
    for (i, d) in [b'1', b'2', b'3', b'4', b'5', b'6', b'7', b'8', b'9', b'0']
        .into_iter()
        .enumerate()
    {
        for c in 0..6usize {
            for r in 0..12usize {
                assert_eq!(pixel(&oled, (6 * i + c) as u8, r as u8), glyph_bit_1206(d, c, r));
            }
        }
    }
}

#[test]
fn text_wraps_once_column_passes_122() {
    let mut oled = OLED::new();
    // 16 characters fit a row starting at column 1; the 17th wraps
    let text = "AAAAAAAAAAAAAAAAB";
    oled.show_string(1, 1, text).unwrap();
    // the 16th 'A' sits at column 1 + 8 * 15 = 121 on the first row
    for c in 0..6usize {
        for r in 0..12usize {
            assert_eq!(pixel(&oled, (121 + c) as u8, (1 + r) as u8), glyph_bit_1206(b'A', c, r));
        }
    }
    // the 'B' wrapped to the start of the next line: (0, 17)
    for c in 0..6usize {
        for r in 0..12usize {
            assert_eq!(pixel(&oled, c as u8, (17 + r) as u8), glyph_bit_1206(b'B', c, r));
        }
    }
}

#[test]
fn text_stops_at_null_terminator() {
    let mut oled = OLED::new();
    oled.show_string(0, 0, "A\0B").unwrap();
    for c in 0..6usize {
        for r in 0..12usize {
            assert_eq!(pixel(&oled, c as u8, r as u8), glyph_bit_1206(b'A', c, r));
        }
    }
    // nothing after the terminator is drawn
    for x in 8..128u8 {
        for y in 0..64u8 {
            assert!(!pixel(&oled, x, y));
        }
    }
}

#[test]
fn text_overflow_clears_screen_and_resets_cursor() {
    let mut oled = OLED::new();
    oled.take_wire();
    // 16 'A's fill the row starting at (1, 49); the 'B' then wraps,
    // pushing the row past 58, which clears the screen and restarts at
    // the origin
    let text = "AAAAAAAAAAAAAAAAB";
    oled.show_string(1, 49, text).unwrap();
    for x in 0..128u8 {
        for y in 0..64u8 {
            let expected = if x < 6 && y < 12 {
                glyph_bit_1206(b'B', x as usize, y as usize)
            } else {
                false
            };
            assert_eq!(pixel(&oled, x, y), expected);
        }
    }
    // the embedded clear pushed one full blank refresh to the wire
    let wire = oled.take_wire();
    assert_eq!(wire.len(), 8 * 131);
    assert_eq!(wire[0], WireByte::Command(0xB0));
    assert_eq!(wire[1], WireByte::Command(0x00));
    assert_eq!(wire[2], WireByte::Command(0x10));
    assert_eq!(wire[3], WireByte::Data(0x00));
}

#[test]
fn init_emits_fixed_command_sequence_in_order() {
    let mut oled = OLED::new();
    let wire = oled.take_wire();
    let boot: [u8; 25] = [
        0xAE, 0xD5, 80, 0xA8, 0x3F, 0xD3, 0x00, 0x40, 0x8D, 0x14, 0x20, 0x02, 0xA1, 0xC0,
        0xDA, 0x12, 0x81, 0xEF, 0xD9, 0xF1, 0xDB, 0x30, 0xA4, 0xA6, 0xAF,
    ];
    assert_eq!(wire.len(), 25 + 8 * 131);
    for (k, cmd) in boot.into_iter().enumerate() {
        assert_eq!(wire[k], WireByte::Command(cmd), "boot byte {k}");
    }
    // followed by one blank frame: per page, page select, column low and
    // high address, then 128 zero data bytes
    for page in 0..8usize {
        let base = 25 + page * 131;
        assert_eq!(wire[base], WireByte::Command(0xB0 + page as u8));
        assert_eq!(wire[base + 1], WireByte::Command(0x00));
        assert_eq!(wire[base + 2], WireByte::Command(0x10));
        for j in 0..128usize {
            assert_eq!(wire[base + 3 + j], WireByte::Data(0x00));
        }
    }
}

#[test]
fn refresh_streams_framebuffer_bytes_page_by_page() {
    let mut oled = OLED::new();
    oled.take_wire();
    oled.draw_point(5, 0, true).unwrap(); // page 7, mask 0x80
    oled.draw_point(127, 63, true).unwrap(); // page 0, mask 0x01
    oled.refresh().unwrap();
    let wire = oled.take_wire();
    assert_eq!(wire.len(), 8 * 131);
    for page in 0..8usize {
        let base = page * 131;
        assert_eq!(wire[base], WireByte::Command(0xB0 + page as u8));
        assert_eq!(wire[base + 1], WireByte::Command(0x00));
        assert_eq!(wire[base + 2], WireByte::Command(0x10));
        for j in 0..128usize {
            let expected = if page == 7 && j == 5 {
                0x80
            } else if page == 0 && j == 127 {
                0x01
            } else {
                0x00
            };
            assert_eq!(wire[base + 3 + j], WireByte::Data(expected));
        }
    }
}

#[test]
fn display_on_and_off_command_bytes() {
    let mut oled = OLED::new();
    oled.take_wire();
    oled.display_on().unwrap();
    assert_eq!(
        oled.take_wire(),
        vec![WireByte::Command(0x8D), WireByte::Command(0x14), WireByte::Command(0xAF)]
    );
    oled.display_off().unwrap();
    assert_eq!(
        oled.take_wire(),
        vec![WireByte::Command(0x8D), WireByte::Command(0x10), WireByte::Command(0xAE)]
    );
}

#[test]
fn drawing_primitives_leave_wire_untouched() {
    let mut oled = OLED::new();
    oled.take_wire();
    oled.draw_point(1, 1, true).unwrap();
    oled.show_char(0, 0, b'Z', 12, true).unwrap();
    oled.show_number(0, 20, 42, 2, 16).unwrap();
    oled.show_string(0, 40, "hi").unwrap();
    assert!(oled.wire_bytes().is_empty());
}
