//! CP437 (the IBM PC code page) to and from Unicode, for the characters the
//! table below knows: ASCII, the light box-drawing set, the shades and the
//! full block.
use vstd::prelude::*;

verus! {

/// The Unicode character for CP437 byte `b`; `?` where the table has none.
pub open spec fn cp437_char(b: u8) -> char {
    if b < 128 {
        b as char
    } else {
        match b {
            179 => '│',
            180 => '┤',
            191 => '┐',
            192 => '└',
            193 => '┴',
            194 => '┬',
            195 => '├',
            196 => '─',
            197 => '┼',
            217 => '┘',
            218 => '┌',
            176 => '░',
            177 => '▒',
            178 => '▓',
            219 => '█',
            _ => '?',
        }
    }
}

/// Decode a CP437 byte to a Unicode character.
pub fn decode_cp437(byte: u8) -> (r: char)
    ensures
        r == cp437_char(byte),
{
    if byte < 128 {
        return byte as char;
    }
    match byte {
        179 => '│',
        180 => '┤',
        191 => '┐',
        192 => '└',
        193 => '┴',
        194 => '┬',
        195 => '├',
        196 => '─',
        197 => '┼',
        217 => '┘',
        218 => '┌',
        176 => '░',
        177 => '▒',
        178 => '▓',
        219 => '█',
        _ => '?',
    }
}

/// Encode a Unicode character to CP437: ASCII maps to itself, anything else
/// has no encoding here.
pub fn encode_cp437(ch: char) -> (r: Option<u8>)
    ensures
        r == (if (ch as u32) < 128 {
            Some(ch as u8)
        } else {
            None
        }),
{
    if (ch as u32) < 128 {
        Some(ch as u8)
    } else {
        None
    }
}

} // verus!
