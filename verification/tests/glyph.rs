use hex_editor::glyph::{
    ascii_glyph, bar_fraction, bar_height, cell_mark, BarFraction, CellMark, BAR_FULL, PLACEHOLDER,
};
use hex_editor::Repr;

fn as_float(fraction: BarFraction) -> f64 {
    fraction.filled as f64 / fraction.full as f64
}

#[test]
fn ascii_glyph_of_a_letter_is_the_letter() {
    assert_eq!(ascii_glyph(0x41), 'A');
    assert_eq!(ascii_glyph(0x41).to_string(), "A");
}

#[test]
fn ascii_glyph_of_zero_is_the_placeholder() {
    assert_eq!(ascii_glyph(0x00), '.');
    assert_eq!(ascii_glyph(0x00).to_string(), ".");
    assert_eq!(PLACEHOLDER, '.');
}

#[test]
fn ascii_glyph_at_the_edges_of_the_visible_range() {
    assert_eq!(ascii_glyph(0x1F), '.');
    assert_eq!(ascii_glyph(0x20), '.');
    assert_eq!(ascii_glyph(0x21), '!');
    assert_eq!(ascii_glyph(0x2E), '.');
    assert_eq!(ascii_glyph(0x7E), '~');
    assert_eq!(ascii_glyph(0x7F), '.');
    assert_eq!(ascii_glyph(0x80), '.');
    assert_eq!(ascii_glyph(0xFF), '.');
}

#[test]
fn ascii_glyph_shows_exactly_the_graphic_bytes() {
    for byte in 0..=255u8 {
        let expected = if byte.is_ascii_graphic() { byte as char } else { '.' };
        assert_eq!(ascii_glyph(byte), expected);
    }
}

#[test]
fn bar_fraction_runs_from_empty_to_full() {
    assert_eq!(as_float(bar_fraction(0)), 0.0);
    assert_eq!(as_float(bar_fraction(255)), 1.0);
    assert!((as_float(bar_fraction(128)) - 0.502).abs() < 0.0005);
}

#[test]
fn bar_fraction_is_the_byte_out_of_255() {
    assert_eq!(BAR_FULL, 255);
    for byte in 0..=255u8 {
        assert_eq!(bar_fraction(byte), BarFraction { filled: byte, full: 255 });
    }
    assert_eq!(as_float(bar_fraction(51)), 0.2);
}

#[test]
fn bar_height_scales_the_cell_height() {
    assert_eq!(bar_height(0, 18), 0);
    assert_eq!(bar_height(255, 18), 18);
    assert_eq!(bar_height(128, 1000), 501);
    assert_eq!(bar_height(128, 255), 128);
    assert_eq!(bar_height(1, 254), 0);
    assert_eq!(bar_height(1, 255), 1);
    assert_eq!(bar_height(254, 255), 254);
    assert_eq!(bar_height(200, 0), 0);
    assert_eq!(bar_height(255, u32::MAX), u32::MAX);
    assert_eq!(bar_height(0, u32::MAX), 0);
    assert_eq!(bar_height(51, 100), 20);
}

#[test]
fn bar_height_never_falls_as_the_byte_grows() {
    for height in [0u32, 1, 18, 255, 1000, u32::MAX] {
        let mut last = 0u32;
        for byte in 0..=255u8 {
            let h = bar_height(byte, height);
            assert!(h >= last);
            assert!(h <= height);
            assert_eq!(h as u64, byte as u64 * height as u64 / 255);
            last = h;
        }
    }
}

#[test]
fn cell_mark_follows_the_representation_mode() {
    assert_eq!(cell_mark(Repr::Ascii, 0x41), CellMark::Glyph('A'));
    assert_eq!(cell_mark(Repr::Ascii, 0x00), CellMark::Glyph('.'));
    assert_eq!(cell_mark(Repr::Ascii, 0x7E), CellMark::Glyph('~'));
    assert_eq!(
        cell_mark(Repr::Mapbars, 0x41),
        CellMark::Bar(BarFraction { filled: 0x41, full: 255 })
    );
    assert_eq!(cell_mark(Repr::Mapbars, 0), CellMark::Bar(BarFraction { filled: 0, full: 255 }));
    assert_eq!(
        cell_mark(Repr::Mapbars, 255),
        CellMark::Bar(BarFraction { filled: 255, full: 255 })
    );
}
