//! The ANSI escape-sequence parser: a three-state machine that writes
//! characters onto a `Screen` with the current SGR attributes.
use vstd::prelude::*;
use crate::screen::{Cell, Screen, ScreenView, SCREEN_HEIGHT, SCREEN_WIDTH};

verus! {

/// What a processed byte did that the caller may need to react to.
#[derive(Debug, Clone, Copy, PartialEq, Eq, Structural)]
pub enum ParseAction {
    /// Nothing special.
    Nothing,
    /// The screen was cleared (ESC [ 2 J).
    ScreenCleared,
    /// A line was scrolled off the top of the screen.
    LineScrolled,
}

/// Where the parser is within an escape sequence.
#[derive(Debug, Clone, Copy, PartialEq, Eq, Structural)]
pub enum ParserState {
    Normal,
    Escape,
    /// After ESC [ (Control Sequence Introducer).
    Csi,
}

/// The numeric parameter being read digit by digit.
#[derive(Debug, Clone, Copy, PartialEq, Eq, Structural)]
pub enum PendingParam {
    /// No digit yet.
    Empty,
    /// The decimal value of the digits so far.
    Value(u32),
    /// The digits so far exceed `u32::MAX`; such a parameter is dropped.
    Overflow,
}

pub const ESC: u8 = 0x1B;

/// The pending parameter after one more decimal digit `d`.
pub open spec fn with_digit(p: PendingParam, d: u8) -> PendingParam {
    match p {
        PendingParam::Empty => PendingParam::Value((d - 0x30) as u32),
        PendingParam::Value(v) => if v * 10 + (d - 0x30) <= u32::MAX {
            PendingParam::Value((v * 10 + (d - 0x30)) as u32)
        } else {
            PendingParam::Overflow
        },
        PendingParam::Overflow => PendingParam::Overflow,
    }
}

pub open spec fn is_digit(b: u8) -> bool {
    0x30 <= b <= 0x39
}

/// Parameter `i`, or `default` where there are fewer.
pub open spec fn param_or(params: Seq<u32>, i: int, default: int) -> int {
    if i < params.len() {
        params[i] as int
    } else {
        default
    }
}

/// `a - b`, or 0 where that is negative.
pub open spec fn sat_sub(a: int, b: int) -> int {
    if a >= b {
        a - b
    } else {
        0
    }
}

/// The abstract state of a parser.
pub struct ParserView {
    pub state: ParserState,
    pub params: Seq<u32>,
    pub pending: PendingParam,
    pub fg: u8,
    pub bg: u8,
    pub bold: bool,
    pub blink: bool,
    pub reverse: bool,
}

/// The effect of one byte on the cursor and cells when it is written as a
/// character with colours `fg` on `bg`.
pub open spec fn put_char(s: ScreenView, b: u8, fg: u8, bg: u8) -> (ScreenView, ParseAction) {
    let s1 = s.with_cell(s.cursor_x, s.cursor_y, Cell { ch: b, fg, bg });
    if s.cursor_x + 1 < SCREEN_WIDTH {
        (s1.with_cursor(s.cursor_x + 1, s.cursor_y), ParseAction::Nothing)
    } else if s.cursor_y + 1 < SCREEN_HEIGHT {
        (s1.with_cursor(0, s.cursor_y + 1), ParseAction::Nothing)
    } else {
        (s1.scrolled().with_cursor(0, s.cursor_y), ParseAction::LineScrolled)
    }
}

/// The effect of a line feed: next row, or a scroll at the bottom.
pub open spec fn newline(s: ScreenView) -> (ScreenView, ParseAction) {
    if s.cursor_y + 1 < SCREEN_HEIGHT {
        (s.with_cursor(0, s.cursor_y + 1), ParseAction::Nothing)
    } else {
        (s.scrolled().with_cursor(0, s.cursor_y), ParseAction::LineScrolled)
    }
}

impl ParserView {
    pub open spec fn wf(self) -> bool {
        self.fg < 16 && self.bg < 16
    }

    /// Foreground of a written cell: reverse swaps, bold brightens.
    pub open spec fn effective_fg(self) -> u8 {
        let f = if self.reverse {
            self.bg
        } else {
            self.fg
        };
        if self.bold && f < 8 {
            (f + 8) as u8
        } else {
            f
        }
    }

    /// Background of a written cell: reverse swaps, blink brightens.
    pub open spec fn effective_bg(self) -> u8 {
        let b = if self.reverse {
            self.fg
        } else {
            self.bg
        };
        if self.blink && b < 8 {
            (b + 8) as u8
        } else {
            b
        }
    }

    /// The pending parameter moved onto the list (dropped on overflow).
    pub open spec fn flushed(self) -> ParserView {
        ParserView {
            params: match self.pending {
                PendingParam::Value(v) => self.params.push(v),
                _ => self.params,
            },
            pending: PendingParam::Empty,
            ..self
        }
    }

    pub open spec fn sgr_reset(self) -> ParserView {
        ParserView { fg: 7, bg: 0, bold: false, blink: false, reverse: false, ..self }
    }

    /// One SGR parameter applied; unknown values change nothing.
    pub open spec fn sgr_one(self, v: u32) -> ParserView {
        if v == 0 {
            self.sgr_reset()
        } else if v == 1 {
            ParserView { bold: true, ..self }
        } else if v == 5 {
            ParserView { blink: true, ..self }
        } else if v == 7 {
            ParserView { reverse: true, ..self }
        } else if 30 <= v <= 37 {
            ParserView { fg: (v - 30) as u8, ..self }
        } else if 40 <= v <= 47 {
            ParserView { bg: (v - 40) as u8, ..self }
        } else if 90 <= v <= 97 {
            ParserView { fg: (v - 90 + 8) as u8, ..self }
        } else if 100 <= v <= 107 {
            ParserView { bg: (v - 100 + 8) as u8, ..self }
        } else {
            self
        }
    }

    /// The SGR parameters `vs` applied in order.
    pub open spec fn sgr_all(self, vs: Seq<u32>) -> ParserView
        decreases vs.len(),
    {
        if vs.len() == 0 {
            self
        } else {
            self.sgr_all(vs.drop_last()).sgr_one(vs.last())
        }
    }

    /// CSI `m`: the parameter list applied, an empty list read as a reset.
    pub open spec fn sgr(self) -> ParserView {
        if self.params.len() == 0 {
            self.sgr_reset()
        } else {
            self.sgr_all(self.params)
        }
    }

    /// The effect of the CSI command byte `cmd` (parameters already flushed).
    pub open spec fn dispatch(self, s: ScreenView, cmd: u8) -> (ParserView, ScreenView, ParseAction) {
        let n = param_or(self.params, 0, 1);
        if cmd == 0x48 || cmd == 0x66 {
            // H, f: row and column, 1-based
            (
                self,
                s.with_cursor(
                    sat_sub(param_or(self.params, 1, 1), 1),
                    sat_sub(param_or(self.params, 0, 1), 1),
                ),
                ParseAction::Nothing,
            )
        } else if cmd == 0x41 {
            // A: up
            (self, s.with_cursor(s.cursor_x, sat_sub(s.cursor_y, n)), ParseAction::Nothing)
        } else if cmd == 0x42 {
            // B: down
            (self, s.with_cursor(s.cursor_x, s.cursor_y + n), ParseAction::Nothing)
        } else if cmd == 0x43 {
            // C: forward
            (self, s.with_cursor(s.cursor_x + n, s.cursor_y), ParseAction::Nothing)
        } else if cmd == 0x44 {
            // D: backward
            (self, s.with_cursor(sat_sub(s.cursor_x, n), s.cursor_y), ParseAction::Nothing)
        } else if cmd == 0x4A {
            // J: only mode 2, the whole screen
            if param_or(self.params, 0, 0) == 2 {
                (self, s.cleared(self.effective_bg()), ParseAction::ScreenCleared)
            } else {
                (self, s, ParseAction::Nothing)
            }
        } else if cmd == 0x6D {
            // m: graphic rendition
            (self.sgr(), s, ParseAction::Nothing)
        } else {
            (self, s, ParseAction::Nothing)
        }
    }

    /// The effect of one input byte on parser and screen, and what it reports.
    pub open spec fn step(self, s: ScreenView, b: u8) -> (ParserView, ScreenView, ParseAction) {
        match self.state {
            ParserState::Normal => if b == ESC {
                (ParserView { state: ParserState::Escape, ..self }, s, ParseAction::Nothing)
            } else if b == 0x0A {
                let (s2, a) = newline(s);
                (self, s2, a)
            } else if b == 0x0D {
                (self, s.with_cursor(0, s.cursor_y), ParseAction::Nothing)
            } else if b >= 0x20 {
                let (s2, a) = put_char(s, b, self.effective_fg(), self.effective_bg());
                (self, s2, a)
            } else {
                (self, s, ParseAction::Nothing)
            },
            ParserState::Escape => if b == 0x5B {
                (
                    ParserView {
                        state: ParserState::Csi,
                        params: Seq::empty(),
                        pending: PendingParam::Empty,
                        ..self
                    },
                    s,
                    ParseAction::Nothing,
                )
            } else {
                (ParserView { state: ParserState::Normal, ..self }, s, ParseAction::Nothing)
            },
            ParserState::Csi => if is_digit(b) {
                (ParserView { pending: with_digit(self.pending, b), ..self }, s, ParseAction::Nothing)
            } else if b == 0x3B {
                (self.flushed(), s, ParseAction::Nothing)
            } else {
                let (q, s2, a) = self.flushed().dispatch(s, b);
                (ParserView { state: ParserState::Normal, ..q }, s2, a)
            },
        }
    }

    /// Whether byte `b` completes ESC [ 2 J, judged by the parameter on the
    /// wire: the one being read, or else the first one stored.
    pub open spec fn will_clear(self, b: u8) -> bool {
        &&& self.state == ParserState::Csi
        &&& b == 0x4A
        &&& match self.pending {
            PendingParam::Value(v) => v == 2,
            PendingParam::Overflow => false,
            PendingParam::Empty => self.params.len() > 0 && self.params[0] == 2,
        }
    }
}

/// ANSI parser state machine.
pub struct AnsiParser {
    state: ParserState,
    params: Vec<u32>,
    current_param: PendingParam,
    current_fg: u8,
    current_bg: u8,
    bold: bool,
    blink: bool,
    reverse: bool,
}

impl View for AnsiParser {
    type V = ParserView;

    closed spec fn view(&self) -> ParserView {
        ParserView {
            state: self.state,
            params: self.params@,
            pending: self.current_param,
            fg: self.current_fg,
            bg: self.current_bg,
            bold: self.bold,
            blink: self.blink,
            reverse: self.reverse,
        }
    }
}

impl AnsiParser {
    pub open spec fn wf(&self) -> bool {
        self@.wf()
    }

    /// Normal state, no parameters, light grey on black, no attributes.
    pub open spec fn new_view() -> ParserView {
        ParserView {
            state: ParserState::Normal,
            params: Seq::empty(),
            pending: PendingParam::Empty,
            fg: 7,
            bg: 0,
            bold: false,
            blink: false,
            reverse: false,
        }
    }

    /// A parser in the normal state with light grey on black.
    pub fn new() -> (r: AnsiParser)
        ensures
            r.wf(),
            r@ == AnsiParser::new_view(),
    {
        AnsiParser {
            state: ParserState::Normal,
            params: Vec::new(),
            current_param: PendingParam::Empty,
            current_fg: 7,
            current_bg: 0,
            bold: false,
            blink: false,
            reverse: false,
        }
    }

    /// Whether no escape sequence is in progress.
    pub fn is_in_normal_state(&self) -> (r: bool)
        ensures
            r == (self@.state == ParserState::Normal),
    {
        self.state == ParserState::Normal
    }

    /// Whether `byte` will clear the whole screen (ESC [ 2 J), so that a
    /// caller can save the screen first.
    pub fn will_clear_screen(&self, byte: u8) -> (r: bool)
        ensures
            r == self@.will_clear(byte),
    {
        if self.state != ParserState::Csi {
            return false;
        }
        if byte != 0x4A {
            return false;
        }
        let param: u32 = match self.current_param {
            PendingParam::Value(v) => v,
            PendingParam::Overflow => 0,
            PendingParam::Empty => if self.params.len() > 0 {
                self.params[0]
            } else {
                0
            },
        };
        param == 2
    }

    /// Feed one byte: update the parser state and the screen, and report
    /// whether the screen was cleared or a line scrolled off.
    pub fn process_byte(&mut self, byte: u8, screen: &mut Screen) -> (r: ParseAction)
        requires
            old(self).wf(),
            old(screen).wf(),
        ensures
            final(self).wf(),
            final(screen).wf(),
            (final(self)@, final(screen)@, r) == old(self)@.step(old(screen)@, byte),
    {
        match self.state {
            ParserState::Normal => {
                if byte == ESC {
                    self.state = ParserState::Escape;
                    ParseAction::Nothing
                } else if byte == 0x0A {
                    self.handle_newline(screen)
                } else if byte == 0x0D {
                    self.handle_carriage_return(screen);
                    ParseAction::Nothing
                } else if byte >= 0x20 {
                    self.write_char(byte, screen)
                } else {
                    ParseAction::Nothing
                }
            },
            ParserState::Escape => {
                if byte == 0x5B {
                    self.state = ParserState::Csi;
                    self.params.clear();
                    self.current_param = PendingParam::Empty;
                } else {
                    self.state = ParserState::Normal;
                }
                ParseAction::Nothing
            },
            ParserState::Csi => {
                if 0x30 <= byte && byte <= 0x39 {
                    self.push_digit(byte);
                    ParseAction::Nothing
                } else if byte == 0x3B {
                    self.push_param();
                    ParseAction::Nothing
                } else {
                    self.push_param();
                    let action = self.handle_csi_command(byte, screen);
                    self.state = ParserState::Normal;
                    action
                }
            },
        }
    }

    fn push_digit(&mut self, byte: u8)
        requires
            is_digit(byte),
        ensures
            final(self)@ == (ParserView { pending: with_digit(old(self)@.pending, byte), ..old(self)@ }),
    {
        let d = (byte - 0x30) as u32;
        self.current_param = match self.current_param {
            PendingParam::Empty => PendingParam::Value(d),
            PendingParam::Value(v) => {
                if v <= (u32::MAX - d) / 10 {
                    assert(v * 10 + d <= u32::MAX) by (nonlinear_arith)
                        requires
                            v <= (u32::MAX - d) / 10,
                            d <= 9,
                    ;
                    PendingParam::Value(v * 10 + d)
                } else {
                    assert(v * 10 + d > u32::MAX) by (nonlinear_arith)
                        requires
                            v > (u32::MAX - d) / 10,
                            d <= 9,
                    ;
                    PendingParam::Overflow
                }
            },
            PendingParam::Overflow => PendingParam::Overflow,
        };
    }

    /// Move the parameter being read onto the list.
    fn push_param(&mut self)
        ensures
            final(self)@ == old(self)@.flushed(),
    {
        match self.current_param {
            PendingParam::Value(v) => {
                self.params.push(v);
            },
            _ => {},
        }
        self.current_param = PendingParam::Empty;
    }

    fn handle_csi_command(&mut self, cmd: u8, screen: &mut Screen) -> (r: ParseAction)
        requires
            old(self).wf(),
            old(screen).wf(),
        ensures
            final(self).wf(),
            final(screen).wf(),
            (final(self)@, final(screen)@, r) == old(self)@.dispatch(old(screen)@, cmd),
    {
        if cmd == 0x48 || cmd == 0x66 {
            self.handle_cursor_position(screen);
            ParseAction::Nothing
        } else if cmd == 0x41 {
            self.handle_cursor_up(screen);
            ParseAction::Nothing
        } else if cmd == 0x42 {
            self.handle_cursor_down(screen);
            ParseAction::Nothing
        } else if cmd == 0x43 {
            self.handle_cursor_forward(screen);
            ParseAction::Nothing
        } else if cmd == 0x44 {
            self.handle_cursor_backward(screen);
            ParseAction::Nothing
        } else if cmd == 0x4A {
            self.handle_erase_display(screen)
        } else if cmd == 0x4B {
            self.handle_erase_line(screen);
            ParseAction::Nothing
        } else if cmd == 0x6D {
            self.handle_sgr();
            ParseAction::Nothing
        } else {
            ParseAction::Nothing
        }
    }

    /// Parameter `i`, or `default` where there are fewer.
    fn param(&self, i: usize, default: u32) -> (r: u32)
        ensures
            r == param_or(self@.params, i as int, default as int),
    {
        if i < self.params.len() {
            self.params[i]
        } else {
            default
        }
    }

    fn handle_cursor_position(&self, screen: &mut Screen)
        requires
            old(screen).wf(),
        ensures
            final(screen).wf(),
            final(screen)@ == old(screen)@.with_cursor(
                sat_sub(param_or(self@.params, 1, 1), 1),
                sat_sub(param_or(self@.params, 0, 1), 1),
            ),
    {
        let row = self.param(0, 1);
        let col = self.param(1, 1);
        let row: usize = if row >= 1 { (row - 1) as usize } else { 0 };
        let col: usize = if col >= 1 { (col - 1) as usize } else { 0 };
        screen.set_cursor(col, row);
    }

    fn handle_cursor_up(&self, screen: &mut Screen)
        requires
            old(screen).wf(),
        ensures
            final(screen).wf(),
            final(screen)@ == old(screen)@.with_cursor(
                old(screen)@.cursor_x,
                sat_sub(old(screen)@.cursor_y, param_or(self@.params, 0, 1)),
            ),
    {
        let n = self.param(0, 1) as usize;
        let (x, y) = screen.cursor_pos();
        screen.set_cursor(x, if y >= n { y - n } else { 0 });
    }

    fn handle_cursor_down(&self, screen: &mut Screen)
        requires
            old(screen).wf(),
        ensures
            final(screen).wf(),
            final(screen)@ == old(screen)@.with_cursor(
                old(screen)@.cursor_x,
                old(screen)@.cursor_y + param_or(self@.params, 0, 1),
            ),
    {
        let n = self.param(0, 1) as usize;
        let (x, y) = screen.cursor_pos();
        screen.set_cursor(x, if n < SCREEN_HEIGHT { y + n } else { SCREEN_HEIGHT });
    }

    fn handle_cursor_forward(&self, screen: &mut Screen)
        requires
            old(screen).wf(),
        ensures
            final(screen).wf(),
            final(screen)@ == old(screen)@.with_cursor(
                old(screen)@.cursor_x + param_or(self@.params, 0, 1),
                old(screen)@.cursor_y,
            ),
    {
        let n = self.param(0, 1) as usize;
        let (x, y) = screen.cursor_pos();
        screen.set_cursor(if n < SCREEN_WIDTH { x + n } else { SCREEN_WIDTH }, y);
    }

    fn handle_cursor_backward(&self, screen: &mut Screen)
        requires
            old(screen).wf(),
        ensures
            final(screen).wf(),
            final(screen)@ == old(screen)@.with_cursor(
                sat_sub(old(screen)@.cursor_x, param_or(self@.params, 0, 1)),
                old(screen)@.cursor_y,
            ),
    {
        let n = self.param(0, 1) as usize;
        let (x, y) = screen.cursor_pos();
        screen.set_cursor(if x >= n { x - n } else { 0 }, y);
    }

    /// CSI J: mode 2 clears the whole screen on the effective background;
    /// other modes are ignored.
    fn handle_erase_display(&self, screen: &mut Screen) -> (r: ParseAction)
        requires
            self.wf(),
            old(screen).wf(),
        ensures
            final(screen).wf(),
            (self@, final(screen)@, r) == self@.dispatch(old(screen)@, 0x4A),
    {
        let mode = self.param(0, 0);
        if mode == 2 {
            screen.clear_with_bg(self.effective_bg());
            ParseAction::ScreenCleared
        } else {
            ParseAction::Nothing
        }
    }

    /// CSI K: erase in line. No mode is supported; the command is accepted
    /// and changes nothing.
    fn handle_erase_line(&self, screen: &mut Screen)
        ensures
            *final(screen) == *old(screen),
    {
    }

    /// CSI m: apply each parameter in order; none at all resets.
    fn handle_sgr(&mut self)
        requires
            old(self).wf(),
        ensures
            final(self).wf(),
            final(self)@ == old(self)@.sgr(),
    {
        if self.params.len() == 0 {
            self.reset_attributes();
            return;
        }
        let ghost start = self@;
        let mut i: usize = 0;
        while i < self.params.len()
            invariant
                i <= self.params@.len(),
                start.params == self.params@,
                start.wf(),
                self.wf(),
                self@ == start.sgr_all(self.params@.take(i as int)),
            decreases self.params@.len() - i,
        {
            let v = self.params[i];
            self.apply_sgr(v);
            assert(self.params@.take(i + 1).drop_last() =~= self.params@.take(i as int));
            i = i + 1;
        }
        assert(self.params@.take(i as int) =~= self.params@);
    }

    fn reset_attributes(&mut self)
        ensures
            final(self)@ == old(self)@.sgr_reset(),
            final(self).wf(),
    {
        self.current_fg = 7;
        self.current_bg = 0;
        self.bold = false;
        self.blink = false;
        self.reverse = false;
    }

    /// One SGR parameter.
    fn apply_sgr(&mut self, v: u32)
        requires
            old(self).wf(),
        ensures
            final(self).wf(),
            final(self)@ == old(self)@.sgr_one(v),
    {
        if v == 0 {
            self.reset_attributes();
        } else if v == 1 {
            self.bold = true;
        } else if v == 5 {
            self.blink = true;
        } else if v == 7 {
            self.reverse = true;
        } else if 30 <= v && v <= 37 {
            self.current_fg = (v - 30) as u8;
        } else if 40 <= v && v <= 47 {
            self.current_bg = (v - 40) as u8;
        } else if 90 <= v && v <= 97 {
            self.current_fg = (v - 90 + 8) as u8;
        } else if 100 <= v && v <= 107 {
            self.current_bg = (v - 100 + 8) as u8;
        }
    }

    /// Foreground of a written cell: reverse swaps, bold brightens.
    fn effective_fg(&self) -> (r: u8)
        requires
            self.wf(),
        ensures
            r == self@.effective_fg(),
            r < 16,
    {
        let fg = if self.reverse { self.current_bg } else { self.current_fg };
        if self.bold && fg < 8 { fg + 8 } else { fg }
    }

    /// Background of a written cell: reverse swaps, blink brightens.
    fn effective_bg(&self) -> (r: u8)
        requires
            self.wf(),
        ensures
            r == self@.effective_bg(),
            r < 16,
    {
        let bg = if self.reverse { self.current_fg } else { self.current_bg };
        if self.blink && bg < 8 { bg + 8 } else { bg }
    }

    /// Write a printable byte at the cursor and advance it, wrapping at the
    /// end of a line and scrolling at the end of the screen.
    fn write_char(&self, ch: u8, screen: &mut Screen) -> (r: ParseAction)
        requires
            self.wf(),
            old(screen).wf(),
        ensures
            final(screen).wf(),
            (final(screen)@, r) == put_char(
                old(screen)@,
                ch,
                self@.effective_fg(),
                self@.effective_bg(),
            ),
    {
        let (x, y) = screen.cursor_pos();
        let cell = Cell { ch, fg: self.effective_fg(), bg: self.effective_bg() };
        screen.set_cell(x, y, cell);
        if x + 1 < SCREEN_WIDTH {
            screen.set_cursor(x + 1, y);
            ParseAction::Nothing
        } else if y + 1 < SCREEN_HEIGHT {
            screen.set_cursor(0, y + 1);
            ParseAction::Nothing
        } else {
            screen.scroll_up();
            screen.set_cursor(0, y);
            ParseAction::LineScrolled
        }
    }

    fn handle_newline(&self, screen: &mut Screen) -> (r: ParseAction)
        requires
            old(screen).wf(),
        ensures
            final(screen).wf(),
            (final(screen)@, r) == newline(old(screen)@),
    {
        let (_, y) = screen.cursor_pos();
        if y + 1 < SCREEN_HEIGHT {
            screen.set_cursor(0, y + 1);
            ParseAction::Nothing
        } else {
            screen.scroll_up();
            screen.set_cursor(0, y);
            ParseAction::LineScrolled
        }
    }

    fn handle_carriage_return(&self, screen: &mut Screen)
        requires
            old(screen).wf(),
        ensures
            final(screen).wf(),
            final(screen)@ == old(screen)@.with_cursor(0, old(screen)@.cursor_y),
    {
        let (_, y) = screen.cursor_pos();
        screen.set_cursor(0, y);
    }
}

} // verus!
