//! The EGA 8x14 glyph table: 256 glyphs of 14 scanlines, one byte each,
//! leftmost pixel in the high bit.
use vstd::prelude::*;
use vstd::slice::slice_subrange;

verus! {

/// Glyph width in pixels.
pub const FONT_WIDTH: usize = 8;

/// Glyph height in scanlines.
pub const FONT_HEIGHT: usize = 14;

/// Bytes per glyph: one per scanline.
pub const FONT_BYTES_PER_CHAR: usize = 14;

/// Glyphs in the table, one per CP437 code.
pub const FONT_CHAR_COUNT: usize = 256;

/// Size of the whole table in bytes.
pub const FONT_DATA_LEN: usize = 3584;

/// Whether pixel `p` (0 = leftmost) of a scanline byte is set.
pub open spec fn pixel_set(byte: u8, p: u8) -> bool {
    byte & (0x80u8 >> p) != 0
}

/// The 14 scanline bytes of glyph `c` in table `data`.
pub open spec fn glyph(data: Seq<u8>, c: u8) -> Seq<u8> {
    data.subrange(c * FONT_BYTES_PER_CHAR as int, c * FONT_BYTES_PER_CHAR as int + FONT_BYTES_PER_CHAR as int)
}

/// Scanline `scan` of glyph `c` in table `data`.
pub open spec fn glyph_byte(data: Seq<u8>, c: u8, scan: int) -> u8 {
    data[c * FONT_BYTES_PER_CHAR as int + scan]
}

/// A complete glyph table.
pub struct Font {
    data: Vec<u8>,
}

impl View for Font {
    type V = Seq<u8>;

    closed spec fn view(&self) -> Seq<u8> {
        self.data@
    }
}

impl Font {
    pub open spec fn wf(&self) -> bool {
        self@.len() == FONT_DATA_LEN
    }

    /// The table held in `data`, which must be exactly 256 glyphs of 14 bytes.
    pub fn from_bytes(data: Vec<u8>) -> (r: Option<Font>)
        ensures
            r.is_some() == (data@.len() == FONT_DATA_LEN),
            r.is_some() ==> r.unwrap().wf() && r.unwrap()@ == data@,
    {
        if data.len() == FONT_DATA_LEN {
            Some(Font { data })
        } else {
            None
        }
    }

    /// The whole table.
    pub fn data(&self) -> (r: &[u8])
        ensures
            r@ == self@,
    {
        self.data.as_slice()
    }
}

/// The 14 scanline bytes of the glyph for CP437 code `char_code`.
pub fn get_char_bitmap(font: &Font, char_code: u8) -> (r: &[u8])
    requires
        font.wf(),
    ensures
        r@ == glyph(font@, char_code),
        r@.len() == FONT_BYTES_PER_CHAR,
{
    let start = (char_code as usize) * FONT_BYTES_PER_CHAR;
    let end = start + FONT_BYTES_PER_CHAR;
    slice_subrange(font.data(), start, end)
}

/// Whether pixel `bit_position` (0 = leftmost, up to 7) of a scanline byte
/// is set.
pub fn is_pixel_set(byte: u8, bit_position: u8) -> (r: bool)
    requires
        bit_position < 8,
    ensures
        r == pixel_set(byte, bit_position),
{
    (byte & (0x80u8 >> bit_position)) != 0
}

} // verus!
