//! Colour palettes and the rasterizer: the visible packed lines drawn with
//! the glyph table into an RGBA image, each font pixel 3 wide and 4 tall.
use vstd::prelude::*;
use vstd::string::*;
use crate::font::{glyph_byte, is_pixel_set, pixel_set, Font, FONT_BYTES_PER_CHAR, FONT_HEIGHT, FONT_WIDTH};
use crate::screen::{Screen, ScreenView, SCREEN_HEIGHT, SCREEN_WIDTH};
use crate::scrollback::{
    indicator, unpack_cell, ScrollbackBuffer, ScrollbackView, INDICATOR_BYTES, LINE_BYTES,
};

verus! {

/// Image width: 80 cells of 8 pixels, each 3 wide.
pub const CANVAS_WIDTH: u32 = 1920;

/// Image height: 25 rows of 14 scanlines, each 4 tall.
pub const CANVAS_HEIGHT: u32 = 1400;

/// Horizontal scale of a font pixel.
pub const SCALE_X: usize = 3;

/// Vertical scale of a font scanline.
pub const SCALE_Y: usize = 4;

/// Screen row that carries the "SCROLLBACK" indicator.
pub const INDICATOR_ROW: usize = 0;

/// Byte offset in a packed line where the indicator starts: the last ten
/// columns of the row.
pub const INDICATOR_OFFSET: usize = 140;

/// Colour palette.
#[derive(Clone, Copy, PartialEq, Eq, Structural, Debug)]
pub enum Palette {
    /// IBM 5153-accurate CGA colours.
    Cga,
    /// Standard EGA/VGA colours.
    Vga,
}

impl Default for Palette {
    fn default() -> (r: Palette)
        ensures
            r == Palette::Vga,
    {
        Palette::Vga
    }
}

/// Whether `s` is "cga" in any mix of cases.
pub open spec fn is_cga_name(s: Seq<char>) -> bool {
    &&& s.len() == 3
    &&& (s[0] == 'c' || s[0] == 'C')
    &&& (s[1] == 'g' || s[1] == 'G')
    &&& (s[2] == 'a' || s[2] == 'A')
}

impl Palette {
    /// The palette named by `s`, ignoring case: "cga" names CGA, anything
    /// else VGA.
    pub fn from_str(s: &str) -> (r: Palette)
        ensures
            r == (if is_cga_name(s@) {
                Palette::Cga
            } else {
                Palette::Vga
            }),
    {
        if s.unicode_len() != 3 {
            return Palette::Vga;
        }
        let c0 = s.get_char(0);
        let c1 = s.get_char(1);
        let c2 = s.get_char(2);
        if (c0 == 'c' || c0 == 'C') && (c1 == 'g' || c1 == 'G') && (c2 == 'a' || c2 == 'A') {
            Palette::Cga
        } else {
            Palette::Vga
        }
    }
}

/// IBM 5153 CGA colour `c` as (r, g, b); light grey past 15.
pub open spec fn cga_rgb(c: u8) -> (u8, u8, u8) {
    match c {
        0 => (0x00, 0x00, 0x00),
        1 => (0xC4, 0x00, 0x00),
        2 => (0x00, 0xC4, 0x00),
        3 => (0xC4, 0x7E, 0x00),
        4 => (0x00, 0x00, 0xC4),
        5 => (0xC4, 0x00, 0xC4),
        6 => (0x00, 0xC4, 0xC4),
        7 => (0xC4, 0xC4, 0xC4),
        8 => (0x4E, 0x4E, 0x4E),
        9 => (0xDC, 0x4E, 0x4E),
        10 => (0x4E, 0xDC, 0x4E),
        11 => (0xF3, 0xF3, 0x4E),
        12 => (0x4E, 0x4E, 0xDC),
        13 => (0xF3, 0x4E, 0xF3),
        14 => (0x4E, 0xF3, 0xF3),
        15 => (0xFF, 0xFF, 0xFF),
        _ => (0xC4, 0xC4, 0xC4),
    }
}

/// Standard VGA colour `c` as (r, g, b); light grey past 15.
pub open spec fn vga_rgb(c: u8) -> (u8, u8, u8) {
    match c {
        0 => (0x00, 0x00, 0x00),
        1 => (0xAA, 0x00, 0x00),
        2 => (0x00, 0xAA, 0x00),
        3 => (0xAA, 0x55, 0x00),
        4 => (0x00, 0x00, 0xAA),
        5 => (0xAA, 0x00, 0xAA),
        6 => (0x00, 0xAA, 0xAA),
        7 => (0xAA, 0xAA, 0xAA),
        8 => (0x55, 0x55, 0x55),
        9 => (0xFF, 0x55, 0x55),
        10 => (0x55, 0xFF, 0x55),
        11 => (0xFF, 0xFF, 0x55),
        12 => (0x55, 0x55, 0xFF),
        13 => (0xFF, 0x55, 0xFF),
        14 => (0x55, 0xFF, 0xFF),
        15 => (0xFF, 0xFF, 0xFF),
        _ => (0xAA, 0xAA, 0xAA),
    }
}

pub open spec fn palette_rgb(p: Palette, c: u8) -> (u8, u8, u8) {
    match p {
        Palette::Cga => cga_rgb(c),
        Palette::Vga => vga_rgb(c),
    }
}

/// Colour index `color` in `palette` as (r, g, b).
pub fn ansi_color_to_rgb_tuple(color: u8, palette: Palette) -> (r: (u8, u8, u8))
    ensures
        r == palette_rgb(palette, color),
{
    match palette {
        Palette::Cga => ansi_color_cga(color),
        Palette::Vga => ansi_color_vga(color),
    }
}

/// IBM 5153-accurate CGA colours.
pub fn ansi_color_cga(color: u8) -> (r: (u8, u8, u8))
    ensures
        r == cga_rgb(color),
{
    match color {
        0 => (0x00, 0x00, 0x00),
        1 => (0xC4, 0x00, 0x00),
        2 => (0x00, 0xC4, 0x00),
        3 => (0xC4, 0x7E, 0x00),
        4 => (0x00, 0x00, 0xC4),
        5 => (0xC4, 0x00, 0xC4),
        6 => (0x00, 0xC4, 0xC4),
        7 => (0xC4, 0xC4, 0xC4),
        8 => (0x4E, 0x4E, 0x4E),
        9 => (0xDC, 0x4E, 0x4E),
        10 => (0x4E, 0xDC, 0x4E),
        11 => (0xF3, 0xF3, 0x4E),
        12 => (0x4E, 0x4E, 0xDC),
        13 => (0xF3, 0x4E, 0xF3),
        14 => (0x4E, 0xF3, 0xF3),
        15 => (0xFF, 0xFF, 0xFF),
        _ => (0xC4, 0xC4, 0xC4),
    }
}

/// Standard VGA colours.
pub fn ansi_color_vga(color: u8) -> (r: (u8, u8, u8))
    ensures
        r == vga_rgb(color),
{
    match color {
        0 => (0x00, 0x00, 0x00),
        1 => (0xAA, 0x00, 0x00),
        2 => (0x00, 0xAA, 0x00),
        3 => (0xAA, 0x55, 0x00),
        4 => (0x00, 0x00, 0xAA),
        5 => (0xAA, 0x00, 0xAA),
        6 => (0x00, 0xAA, 0xAA),
        7 => (0xAA, 0xAA, 0xAA),
        8 => (0x55, 0x55, 0x55),
        9 => (0xFF, 0x55, 0x55),
        10 => (0x55, 0xFF, 0x55),
        11 => (0xFF, 0xFF, 0x55),
        12 => (0x55, 0x55, 0xFF),
        13 => (0xFF, 0x55, 0xFF),
        14 => (0x55, 0xFF, 0xFF),
        15 => (0xFF, 0xFF, 0xFF),
        _ => (0xAA, 0xAA, 0xAA),
    }
}

/// One opaque RGBA pixel.
pub open spec fn rgba(c: (u8, u8, u8)) -> Seq<u8> {
    seq![c.0, c.1, c.2, 255u8]
}

/// `s` written `n` times in a row.
pub open spec fn repeated(s: Seq<u8>, n: nat) -> Seq<u8>
    decreases n,
{
    if n == 0 {
        Seq::empty()
    } else {
        repeated(s, (n - 1) as nat) + s
    }
}

/// The first `n` font pixels of scanline byte `byte`, each SCALE_X image
/// pixels wide, in `fg` where set and `bg` elsewhere.
pub open spec fn glyph_span(byte: u8, fg: (u8, u8, u8), bg: (u8, u8, u8), n: nat) -> Seq<u8>
    decreases n,
{
    if n == 0 {
        Seq::empty()
    } else {
        glyph_span(byte, fg, bg, (n - 1) as nat) + repeated(
            rgba(
                if pixel_set(byte, (n - 1) as u8) {
                    fg
                } else {
                    bg
                },
            ),
            SCALE_X as nat,
        )
    }
}

/// One image row of the cell at column `x` of packed line `line`, at glyph
/// scanline `scan`.
pub open spec fn cell_span(line: Seq<u8>, x: int, scan: int, palette: Palette, font: Seq<u8>) -> Seq<u8> {
    let c = unpack_cell(line[2 * x], line[2 * x + 1]);
    glyph_span(
        glyph_byte(font, c.ch, scan),
        palette_rgb(palette, c.fg),
        palette_rgb(palette, c.bg),
        FONT_WIDTH as nat,
    )
}

/// One image row of the first `n` cells of `line`, at glyph scanline `scan`.
pub open spec fn scan_row(line: Seq<u8>, scan: int, palette: Palette, font: Seq<u8>, n: nat) -> Seq<u8>
    decreases n,
{
    if n == 0 {
        Seq::empty()
    } else {
        scan_row(line, scan, palette, font, (n - 1) as nat) + cell_span(line, n - 1, scan, palette, font)
    }
}

/// The image rows of the first `n` glyph scanlines of `line`, each SCALE_Y
/// times.
pub open spec fn text_row(line: Seq<u8>, palette: Palette, font: Seq<u8>, n: nat) -> Seq<u8>
    decreases n,
{
    if n == 0 {
        Seq::empty()
    } else {
        text_row(line, palette, font, (n - 1) as nat) + repeated(
            scan_row(line, n - 1, palette, font, SCREEN_WIDTH as nat),
            SCALE_Y as nat,
        )
    }
}

/// The image of the first `n` of `lines`, top to bottom.
pub open spec fn image_rows(lines: Seq<Seq<u8>>, palette: Palette, font: Seq<u8>, n: nat) -> Seq<u8>
    decreases n,
{
    if n == 0 {
        Seq::empty()
    } else {
        image_rows(lines, palette, font, (n - 1) as nat) + text_row(
            lines[n - 1],
            palette,
            font,
            FONT_HEIGHT as nat,
        )
    }
}

/// The packed line drawn at screen row `y`: the display line, with the
/// indicator over its last ten cells on the indicator row while shown.
pub open spec fn shown_line(sb: ScrollbackView, s: ScreenView, y: int) -> Seq<u8> {
    let l = sb.display_line(y, s);
    if sb.shows_indicators() && y == INDICATOR_ROW {
        l.subrange(0, INDICATOR_OFFSET as int) + indicator()
    } else {
        l
    }
}

/// The 25 packed lines drawn, top to bottom.
pub open spec fn shown_lines(sb: ScrollbackView, s: ScreenView) -> Seq<Seq<u8>> {
    Seq::new(SCREEN_HEIGHT as nat, |y: int| shown_line(sb, s, y))
}

/// The RGBA image of a terminal view.
pub open spec fn frame(sb: ScrollbackView, s: ScreenView, palette: Palette, font: Seq<u8>) -> Seq<u8> {
    image_rows(shown_lines(sb, s), palette, font, SCREEN_HEIGHT as nat)
}

fn push_pixel(out: &mut Vec<u8>, c: (u8, u8, u8))
    ensures
        final(out)@ == old(out)@ + rgba(c),
{
    out.push(c.0);
    out.push(c.1);
    out.push(c.2);
    out.push(255);
    assert(out@ =~= old(out)@ + rgba(c));
}

fn append_bytes(out: &mut Vec<u8>, src: &Vec<u8>)
    ensures
        final(out)@ == old(out)@ + src@,
{
    let mut i: usize = 0;
    while i < src.len()
        invariant
            i <= src@.len(),
            out@ == old(out)@ + src@.subrange(0, i as int),
        decreases src@.len() - i,
    {
        out.push(src[i]);
        i = i + 1;
        assert(out@ =~= old(out)@ + src@.subrange(0, i as int));
    }
    assert(src@.subrange(0, i as int) =~= src@);
}

/// Append one scanline of a glyph: each font pixel SCALE_X image pixels wide.
fn push_glyph_scanline(out: &mut Vec<u8>, byte: u8, fg: (u8, u8, u8), bg: (u8, u8, u8))
    ensures
        final(out)@ == old(out)@ + glyph_span(byte, fg, bg, FONT_WIDTH as nat),
{
    let mut bit: usize = 0;
    while bit < FONT_WIDTH
        invariant
            bit <= FONT_WIDTH,
            out@ == old(out)@ + glyph_span(byte, fg, bg, bit as nat),
        decreases FONT_WIDTH - bit,
    {
        let color = if is_pixel_set(byte, bit as u8) { fg } else { bg };
        let ghost before = out@;
        let mut k: usize = 0;
        while k < SCALE_X
            invariant
                k <= SCALE_X,
                out@ == before + repeated(rgba(color), k as nat),
            decreases SCALE_X - k,
        {
            push_pixel(out, color);
            k = k + 1;
            assert(out@ =~= before + repeated(rgba(color), k as nat));
        }
        bit = bit + 1;
        assert(out@ =~= old(out)@ + glyph_span(byte, fg, bg, bit as nat));
    }
}

/// Append the image row of one cell at glyph scanline `scan`.
fn render_cell(
    out: &mut Vec<u8>,
    line: &[u8; LINE_BYTES],
    x: usize,
    scan: usize,
    palette: Palette,
    font: &Font,
)
    requires
        font.wf(),
        x < SCREEN_WIDTH,
        scan < FONT_HEIGHT,
    ensures
        final(out)@ == old(out)@ + cell_span(line@, x as int, scan as int, palette, font@),
{
    let cell = ScrollbackBuffer::cga_to_cell([line[2 * x], line[2 * x + 1]]);
    let fg = ansi_color_to_rgb_tuple(cell.fg, palette);
    let bg = ansi_color_to_rgb_tuple(cell.bg, palette);
    let byte = font.data()[(cell.ch as usize) * FONT_BYTES_PER_CHAR + scan];
    push_glyph_scanline(out, byte, fg, bg);
}

/// One image row of a whole packed line at glyph scanline `scan`.
fn render_scanline(line: &[u8; LINE_BYTES], scan: usize, palette: Palette, font: &Font) -> (r: Vec<u8>)
    requires
        font.wf(),
        scan < FONT_HEIGHT,
    ensures
        r@ == scan_row(line@, scan as int, palette, font@, SCREEN_WIDTH as nat),
{
    let mut out: Vec<u8> = Vec::new();
    let mut x: usize = 0;
    while x < SCREEN_WIDTH
        invariant
            font.wf(),
            scan < FONT_HEIGHT,
            x <= SCREEN_WIDTH,
            out@ == scan_row(line@, scan as int, palette, font@, x as nat),
        decreases SCREEN_WIDTH - x,
    {
        render_cell(&mut out, line, x, scan, palette, font);
        x = x + 1;
    }
    out
}

/// Append the image of one packed line: every glyph scanline SCALE_Y times.
fn render_line(out: &mut Vec<u8>, line: &[u8; LINE_BYTES], palette: Palette, font: &Font)
    requires
        font.wf(),
    ensures
        final(out)@ == old(out)@ + text_row(line@, palette, font@, FONT_HEIGHT as nat),
{
    let mut scan: usize = 0;
    while scan < FONT_HEIGHT
        invariant
            font.wf(),
            scan <= FONT_HEIGHT,
            out@ == old(out)@ + text_row(line@, palette, font@, scan as nat),
        decreases FONT_HEIGHT - scan,
    {
        let row = render_scanline(line, scan, palette, font);
        let ghost before = out@;
        let mut k: usize = 0;
        while k < SCALE_Y
            invariant
                k <= SCALE_Y,
                out@ == before + repeated(row@, k as nat),
            decreases SCALE_Y - k,
        {
            append_bytes(out, &row);
            k = k + 1;
            assert(out@ =~= before + repeated(row@, k as nat));
        }
        scan = scan + 1;
        assert(out@ =~= old(out)@ + text_row(line@, palette, font@, scan as nat));
    }
}

/// The packed line drawn at screen row `y`, indicator included.
pub fn visible_line(screen: &Screen, scrollback: &ScrollbackBuffer, y: usize) -> (r: [u8; LINE_BYTES])
    requires
        screen.wf(),
        scrollback.wf(),
        y < SCREEN_HEIGHT,
    ensures
        r@ == shown_line(scrollback@, screen@, y as int),
{
    let mut line = scrollback.get_display_line(y, screen).unwrap();
    if scrollback.should_show_indicators() && y == INDICATOR_ROW {
        let ind = ScrollbackBuffer::scrollback_indicator();
        let ghost l0 = line@;
        let mut i: usize = 0;
        while i < INDICATOR_BYTES
            invariant
                i <= INDICATOR_BYTES,
                ind@ == indicator(),
                l0.len() == LINE_BYTES,
                forall|k: int| 0 <= k < INDICATOR_OFFSET ==> line@[k] == l0[k],
                forall|k: int| 0 <= k < i ==> line@[INDICATOR_OFFSET + k] == ind@[k],
            decreases INDICATOR_BYTES - i,
        {
            line[INDICATOR_OFFSET + i] = ind[i];
            i = i + 1;
        }
        assert(line@ =~= l0.subrange(0, INDICATOR_OFFSET as int) + indicator());
    }
    line
}

/// The RGBA image of what the terminal shows: row-major, top to bottom,
/// 1920 x 1400 pixels, alpha always 255.
pub fn rasterize(screen: &Screen, scrollback: &ScrollbackBuffer, palette: Palette, font: &Font) -> (r: Vec<u8>)
    requires
        screen.wf(),
        scrollback.wf(),
        font.wf(),
    ensures
        r@ == frame(scrollback@, screen@, palette, font@),
        r@.len() == CANVAS_WIDTH * CANVAS_HEIGHT * 4,
{
    let ghost lines = shown_lines(scrollback@, screen@);
    let mut out: Vec<u8> = Vec::new();
    let mut y: usize = 0;
    while y < SCREEN_HEIGHT
        invariant
            screen.wf(),
            scrollback.wf(),
            font.wf(),
            y <= SCREEN_HEIGHT,
            lines == shown_lines(scrollback@, screen@),
            out@ == image_rows(lines, palette, font@, y as nat),
        decreases SCREEN_HEIGHT - y,
    {
        let line = visible_line(screen, scrollback, y);
        render_line(&mut out, &line, palette, font);
        y = y + 1;
    }
    proof {
        lemma_frame_len(scrollback@, screen@, palette, font@);
    }
    out
}

proof fn lemma_repeated_len(s: Seq<u8>, n: nat)
    ensures
        repeated(s, n).len() == n * s.len(),
    decreases n,
{
    if n > 0 {
        lemma_repeated_len(s, (n - 1) as nat);
        assert(repeated(s, n).len() == (n - 1) * s.len() + s.len());
        assert((n - 1) * s.len() + s.len() == n * s.len()) by (nonlinear_arith);
    } else {
        assert(n * s.len() == 0) by (nonlinear_arith)
            requires
                n == 0,
        ;
    }
}

proof fn lemma_glyph_span_len(byte: u8, fg: (u8, u8, u8), bg: (u8, u8, u8), n: nat)
    ensures
        glyph_span(byte, fg, bg, n).len() == n * 12,
    decreases n,
{
    if n > 0 {
        lemma_glyph_span_len(byte, fg, bg, (n - 1) as nat);
        let c = if pixel_set(byte, (n - 1) as u8) { fg } else { bg };
        lemma_repeated_len(rgba(c), SCALE_X as nat);
    }
}

proof fn lemma_scan_row_len(line: Seq<u8>, scan: int, palette: Palette, font: Seq<u8>, n: nat)
    ensures
        scan_row(line, scan, palette, font, n).len() == n * 96,
    decreases n,
{
    if n > 0 {
        lemma_scan_row_len(line, scan, palette, font, (n - 1) as nat);
        let c = unpack_cell(line[2 * (n - 1)], line[2 * (n - 1) + 1]);
        lemma_glyph_span_len(
            glyph_byte(font, c.ch, scan),
            palette_rgb(palette, c.fg),
            palette_rgb(palette, c.bg),
            FONT_WIDTH as nat,
        );
    }
}

proof fn lemma_text_row_len(line: Seq<u8>, palette: Palette, font: Seq<u8>, n: nat)
    ensures
        text_row(line, palette, font, n).len() == n * 30720,
    decreases n,
{
    if n > 0 {
        lemma_text_row_len(line, palette, font, (n - 1) as nat);
        let row = scan_row(line, n - 1, palette, font, SCREEN_WIDTH as nat);
        lemma_scan_row_len(line, n - 1, palette, font, SCREEN_WIDTH as nat);
        lemma_repeated_len(row, SCALE_Y as nat);
    }
}

proof fn lemma_image_rows_len(lines: Seq<Seq<u8>>, palette: Palette, font: Seq<u8>, n: nat)
    ensures
        image_rows(lines, palette, font, n).len() == n * 430080,
    decreases n,
{
    if n > 0 {
        lemma_image_rows_len(lines, palette, font, (n - 1) as nat);
        lemma_text_row_len(lines[n - 1], palette, font, FONT_HEIGHT as nat);
    }
}

/// An image is 1920 x 1400 RGBA pixels, four bytes each.
pub proof fn lemma_frame_len(sb: ScrollbackView, s: ScreenView, palette: Palette, font: Seq<u8>)
    ensures
        frame(sb, s, palette, font).len() == CANVAS_WIDTH * CANVAS_HEIGHT * 4,
{
    lemma_image_rows_len(shown_lines(sb, s), palette, font, SCREEN_HEIGHT as nat);
}

/// Equal screens, scrollback views, palettes and glyph tables draw
/// byte-identical images.
pub proof fn lemma_rasterize_deterministic(
    sb1: ScrollbackView,
    s1: ScreenView,
    sb2: ScrollbackView,
    s2: ScreenView,
    palette: Palette,
    font: Seq<u8>,
)
    requires
        sb1 == sb2,
        s1 == s2,
    ensures
        frame(sb1, s1, palette, font) == frame(sb2, s2, palette, font),
{
}

} // verus!
