//! Options of a static ANSI render: where, how fast, which palette, how much
//! history.
use vstd::prelude::*;
use vstd::string::*;
use crate::render::{is_cga_name, Palette};
use crate::scrollback::DEFAULT_MAX_LINES;

verus! {

/// The abstract value of render options.
pub struct RenderOptionsView {
    pub selector: Seq<char>,
    pub bps: Option<u32>,
    pub palette: Option<Seq<char>>,
    pub scrollback_lines: Option<u32>,
}

/// Options for rendering ANSI content into a container.
pub struct RenderOptions {
    selector: String,
    bps: Option<u32>,
    palette: Option<String>,
    scrollback_lines: Option<u32>,
}

impl View for RenderOptions {
    type V = RenderOptionsView;

    closed spec fn view(&self) -> RenderOptionsView {
        RenderOptionsView {
            selector: self.selector@,
            bps: self.bps,
            palette: match self.palette {
                Some(p) => Some(p@),
                None => None,
            },
            scrollback_lines: self.scrollback_lines,
        }
    }
}

impl RenderOptions {
    /// Options for the container that `selector` names; everything else
    /// left at its default.
    pub fn new(selector: String) -> (r: RenderOptions)
        ensures
            r@ == (RenderOptionsView {
                selector: selector@,
                bps: None,
                palette: None,
                scrollback_lines: None,
            }),
    {
        RenderOptions { selector, bps: None, palette: None, scrollback_lines: None }
    }

    /// Simulate a line of `bps` bits per second.
    pub fn set_bps(self, bps: u32) -> (r: RenderOptions)
        ensures
            r@ == (RenderOptionsView { bps: Some(bps), ..self@ }),
    {
        RenderOptions { bps: Some(bps), ..self }
    }

    /// Name the palette ("CGA" or "VGA", any case).
    pub fn set_palette(self, palette: String) -> (r: RenderOptions)
        ensures
            r@ == (RenderOptionsView { palette: Some(palette@), ..self@ }),
    {
        RenderOptions { palette: Some(palette), ..self }
    }

    /// Keep up to `lines` lines of history.
    pub fn set_scrollback_lines(self, lines: u32) -> (r: RenderOptions)
        ensures
            r@ == (RenderOptionsView { scrollback_lines: Some(lines), ..self@ }),
    {
        RenderOptions { scrollback_lines: Some(lines), ..self }
    }

    pub fn selector(&self) -> (r: &str)
        ensures
            r@ == self@.selector,
    {
        self.selector.as_str()
    }

    /// The rate to pace at: the one set, where it is positive.
    pub fn paced_bps(&self) -> (r: Option<u32>)
        ensures
            r == (match self@.bps {
                Some(b) => if b > 0 {
                    Some(b)
                } else {
                    None
                },
                None => None,
            }),
    {
        match self.bps {
            Some(b) => if b > 0 {
                Some(b)
            } else {
                None
            },
            None => None,
        }
    }

    /// The palette named, VGA where none is.
    pub fn palette(&self) -> (r: Palette)
        ensures
            r == (match self@.palette {
                Some(p) => if is_cga_name(p) {
                    Palette::Cga
                } else {
                    Palette::Vga
                },
                None => Palette::Vga,
            }),
    {
        match &self.palette {
            Some(p) => Palette::from_str(p.as_str()),
            None => Palette::Vga,
        }
    }

    /// The history size set, 5000 where none is.
    pub fn scrollback_lines(&self) -> (r: usize)
        ensures
            r == (match self@.scrollback_lines {
                Some(n) => n as usize,
                None => DEFAULT_MAX_LINES,
            }),
    {
        match self.scrollback_lines {
            Some(n) => n as usize,
            None => DEFAULT_MAX_LINES,
        }
    }
}

pub open spec fn is_decimal_digit(c: char) -> bool {
    '0' <= c <= '9'
}

/// The value of a string of decimal digits.
pub open spec fn decimal_value(s: Seq<char>) -> int
    decreases s.len(),
{
    if s.len() == 0 {
        0
    } else {
        decimal_value(s.drop_last()) * 10 + (s.last() as int - '0' as int)
    }
}

/// The digits of an unsigned integer in the usual text form: at least one
/// decimal digit, after an optional '+'.
pub open spec fn unsigned_digits(s: Seq<char>) -> Option<Seq<char>> {
    let d = if s.len() > 0 && s[0] == '+' {
        s.drop_first()
    } else {
        s
    };
    if d.len() > 0 && all_decimal_digits(d) {
        Some(d)
    } else {
        None
    }
}

pub open spec fn all_decimal_digits(d: Seq<char>) -> bool {
    forall|i: int| 0 <= i < d.len() ==> is_decimal_digit(#[trigger] d[i])
}

/// The history size that a `term-scrollback-lines` attribute asks for: its
/// value where it is an unsigned integer that fits in `usize`, else 5000.
pub open spec fn scrollback_lines_of(value: Option<Seq<char>>) -> int {
    match value {
        Some(v) => match unsigned_digits(v) {
            Some(d) => if decimal_value(d) <= usize::MAX {
                decimal_value(d)
            } else {
                DEFAULT_MAX_LINES as int
            },
            None => DEFAULT_MAX_LINES as int,
        },
        None => DEFAULT_MAX_LINES as int,
    }
}

/// The history size that a `term-scrollback-lines` attribute asks for, 5000
/// where it is absent or not an unsigned integer that fits.
pub fn scrollback_lines_from_attribute(value: Option<&str>) -> (r: usize)
    ensures
        r == scrollback_lines_of(
            match value {
                Some(v) => Some(v@),
                None => None,
            },
        ),
{
    let v = match value {
        Some(v) => v,
        None => return DEFAULT_MAX_LINES,
    };
    let n = v.unicode_len();
    let start: usize = if n > 0 && v.get_char(0) == '+' { 1 } else { 0 };
    let ghost d = if n > 0 && v@[0] == '+' { v@.drop_first() } else { v@ };
    assert(d =~= v@.subrange(start as int, n as int));
    if start >= n {
        return DEFAULT_MAX_LINES;
    }
    let mut total: usize = 0;
    let mut i: usize = start;
    while i < n
        invariant
            value == Some(v),
            n == v@.len(),
            start <= i <= n,
            start < n,
            d == v@.subrange(start as int, n as int),
            d == (if v@.len() > 0 && v@[0] == '+' { v@.drop_first() } else { v@ }),
            forall|k: int| 0 <= k < i - start ==> is_decimal_digit(#[trigger] d[k]),
            total == decimal_value(d.subrange(0, i - start)),
        decreases n - i,
    {
        let c = v.get_char(i);
        if !('0' <= c && c <= '9') {
            assert(!is_decimal_digit(d[i - start]));
            return DEFAULT_MAX_LINES;
        }
        let digit = (c as u32 - '0' as u32) as usize;
        let ghost next = d.subrange(0, i - start + 1);
        assert(next.drop_last() =~= d.subrange(0, i - start));
        assert(decimal_value(next) == total * 10 + digit);
        if total > (usize::MAX - digit) / 10 {
            assert(total * 10 + digit > usize::MAX) by (nonlinear_arith)
                requires
                    total > (usize::MAX - digit) / 10,
                    digit <= 9,
            ;
            proof {
                lemma_decimal_value_grows(d, i - start + 1);
            }
            return DEFAULT_MAX_LINES;
        }
        assert(total * 10 + digit <= usize::MAX) by (nonlinear_arith)
            requires
                total <= (usize::MAX - digit) / 10,
                digit <= 9,
        ;
        total = total * 10 + digit;
        i = i + 1;
    }
    assert(d.subrange(0, n - start) =~= d);
    total
}

/// Over digits, a longer prefix never has a smaller value.
proof fn lemma_decimal_value_grows(d: Seq<char>, k: int)
    requires
        0 <= k <= d.len(),
        forall|i: int| 0 <= i < k ==> is_decimal_digit(#[trigger] d[i]),
    ensures
        decimal_value(d.subrange(0, k)) <= decimal_value(d) || exists|i: int|
            k <= i < d.len() && !is_decimal_digit(d[i]),
    decreases d.len() - k,
{
    if k < d.len() {
        if is_decimal_digit(d[k]) {
            lemma_decimal_value_grows(d, k + 1);
            let p = d.subrange(0, k + 1);
            assert(p.drop_last() =~= d.subrange(0, k));
            lemma_decimal_value_nonneg(d.subrange(0, k));
        }
    } else {
        assert(d.subrange(0, k) =~= d);
    }
}

/// The value of a string of digits is not negative.
proof fn lemma_decimal_value_nonneg(d: Seq<char>)
    requires
        forall|i: int| 0 <= i < d.len() ==> is_decimal_digit(#[trigger] d[i]),
    ensures
        decimal_value(d) >= 0,
    decreases d.len(),
{
    if d.len() > 0 {
        lemma_decimal_value_nonneg(d.drop_last());
    }
}

} // verus!
