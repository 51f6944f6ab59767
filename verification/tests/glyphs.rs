use dictate::glyphs::glyph_cells;
use dictate::glyphs::glyph_rows;

#[test]
fn glyphs_give_five_by_seven_rows_and_blank_for_unknown_characters() {
    assert_eq!(
        glyph_rows('A'),
        [0b01110, 0b10001, 0b10001, 0b11111, 0b10001, 0b10001, 0b10001]
    );
    assert_eq!(
        glyph_rows('S'),
        [0b01111, 0b10000, 0b10000, 0b01110, 0b00001, 0b00001, 0b11110]
    );
    assert_eq!(glyph_rows('z'), [0; 7]);
    assert!(glyph_cells('?').is_empty());
}

#[test]
fn glyph_cells_list_lit_pixels_in_reading_order() {
    let t = glyph_cells('T');
    let mut expected: Vec<(usize, usize)> = (0..5).map(|col| (0, col)).collect();
    expected.extend((1..7).map(|row| (row, 2)));
    assert_eq!(t, expected);

    let y = glyph_cells('Y');
    assert_eq!(&y[..6], &[(0, 0), (0, 4), (1, 0), (1, 4), (2, 1), (2, 3)]);
    assert_eq!(y.len(), 6 + 4);
}
