use webterm::font::{
    get_char_bitmap, is_pixel_set, Font, FONT_BYTES_PER_CHAR, FONT_CHAR_COUNT, FONT_DATA_LEN,
};

fn test_font() -> Font {
    let mut data = vec![0u8; FONT_DATA_LEN];
    for c in 0..FONT_CHAR_COUNT {
        for scan in 0..FONT_BYTES_PER_CHAR {
            data[c * FONT_BYTES_PER_CHAR + scan] = (c as u8) ^ (scan as u8);
        }
    }
    Font::from_bytes(data).unwrap()
}

#[test]
fn test_font_data_size() {
    let font = test_font();
    assert_eq!(
        font.data().len(),
        FONT_CHAR_COUNT * FONT_BYTES_PER_CHAR,
        "Font data should be 3584 bytes (256 chars * 14 bytes)"
    );
}

#[test]
fn test_get_char_bitmap() {
    let font = test_font();

    // Test character 0 (null)
    let char0 = get_char_bitmap(&font, 0);
    assert_eq!(char0.len(), 14);

    // Test character 65 ('A')
    let char_a = get_char_bitmap(&font, 65);
    assert_eq!(char_a.len(), 14);

    // Test last character (255)
    let char255 = get_char_bitmap(&font, 255);
    assert_eq!(char255.len(), 14);
}

#[test]
fn test_is_pixel_set() {
    // Test with byte 0xFF (all pixels set)
    assert_eq!(is_pixel_set(0xFF, 0), true);
    assert_eq!(is_pixel_set(0xFF, 7), true);

    // Test with byte 0x00 (no pixels set)
    assert_eq!(is_pixel_set(0x00, 0), false);
    assert_eq!(is_pixel_set(0x00, 7), false);

    // Test with byte 0x80 (leftmost pixel only)
    assert_eq!(is_pixel_set(0x80, 0), true);
    assert_eq!(is_pixel_set(0x80, 1), false);

    // Test with byte 0x01 (rightmost pixel only)
    assert_eq!(is_pixel_set(0x01, 7), true);
    assert_eq!(is_pixel_set(0x01, 6), false);
}

#[test]
fn char_bitmap_is_the_glyphs_own_slice() {
    let font = test_font();
    let a = get_char_bitmap(&font, 65);
    for scan in 0..14 {
        assert_eq!(a[scan], 65u8 ^ scan as u8);
    }
    let last = get_char_bitmap(&font, 255);
    assert_eq!(last[13], 255u8 ^ 13);
}

#[test]
fn font_rejects_wrong_sizes() {
    assert!(Font::from_bytes(vec![0u8; FONT_DATA_LEN - 1]).is_none());
    assert!(Font::from_bytes(vec![0u8; FONT_DATA_LEN + 1]).is_none());
    assert!(Font::from_bytes(Vec::new()).is_none());
}
