//! The coordinator of screen, parser and scrollback: it is the only path by
//! which bytes reach the parser, and it saves to history what a byte is about
//! to destroy before the parser runs.
use vstd::prelude::*;
use vstd::string::*;
use crate::parser::{AnsiParser, ParseAction, ParserState, ParserView, PendingParam};
use crate::screen::{Screen, ScreenView, SCREEN_HEIGHT, SCREEN_WIDTH};
use crate::scrollback::{
    pack_line, screen_lines, ScrollbackBuffer, ScrollbackView, DEFAULT_MAX_LINES,
};

verus! {

/// Wheel pixels per line scrolled.
pub const WHEEL_PIXELS_PER_LINE: u32 = 40;

/// Whether byte `b` will scroll the screen: in the normal state on the
/// bottom row, a line feed, or a printable byte in the last column.
pub open spec fn about_to_scroll(p: ParserView, s: ScreenView, b: u8) -> bool {
    &&& p.state == ParserState::Normal
    &&& s.cursor_y == SCREEN_HEIGHT - 1
    &&& (b == 0x0A || (b >= 0x20 && s.cursor_x == SCREEN_WIDTH - 1))
}

/// History after what byte `b` is about to destroy has been saved: the whole
/// screen before ESC [ 2 J, row 0 before a scroll.
pub open spec fn captured(sb: ScrollbackView, p: ParserView, s: ScreenView, b: u8) -> ScrollbackView {
    if p.will_clear(b) {
        sb.pushed_lines(screen_lines(s))
    } else if about_to_scroll(p, s, b) {
        sb.pushed(pack_line(s.row(0)))
    } else {
        sb
    }
}

/// The abstract state of a terminal.
pub struct TerminalView {
    pub parser: ParserView,
    pub screen: ScreenView,
    pub scrollback: ScrollbackView,
}

impl TerminalView {
    pub open spec fn wf(self) -> bool {
        self.parser.wf() && self.screen.wf() && self.scrollback.wf()
    }

    /// The terminal after one byte: history captured first, then the parser.
    pub open spec fn step(self, b: u8) -> TerminalView {
        let (p, s, a) = self.parser.step(self.screen, b);
        TerminalView {
            parser: p,
            screen: s,
            scrollback: captured(self.scrollback, self.parser, self.screen, b),
        }
    }

    /// The terminal after `bytes`, in order.
    pub open spec fn run(self, bytes: Seq<u8>) -> TerminalView
        decreases bytes.len(),
    {
        if bytes.len() == 0 {
            self
        } else {
            self.run(bytes.drop_last()).step(bytes.last())
        }
    }

    /// Whether ESC [ 2 J would be judged by a different parameter than the
    /// one that takes effect: digits on the wire after a stored parameter.
    pub open spec fn clear_param_ambiguous(self) -> bool {
        self.parser.pending != PendingParam::Empty && self.parser.params.len() > 0
    }
}

/// Lines scrolled for a wheel movement of `delta` pixels: one per 40 pixels,
/// rounded up, at least one.
pub open spec fn wheel_lines(delta: int) -> nat {
    let m: int = if delta < 0 {
        -delta
    } else {
        delta
    };
    if m <= WHEEL_PIXELS_PER_LINE {
        1
    } else {
        ((m + WHEEL_PIXELS_PER_LINE - 1) / WHEEL_PIXELS_PER_LINE as int) as nat
    }
}

/// Screen, parser and scrollback of one terminal.
pub struct Terminal {
    pub screen: Screen,
    pub parser: AnsiParser,
    pub scrollback: ScrollbackBuffer,
}

/// Whether `a` and `b` hold the same characters.
fn same_text(a: &str, b: &str) -> (r: bool)
    ensures
        r == (a@ == b@),
{
    let n = a.unicode_len();
    if n != b.unicode_len() {
        return false;
    }
    let mut i: usize = 0;
    while i < n
        invariant
            n == a@.len(),
            n == b@.len(),
            i <= n,
            a@.subrange(0, i as int) == b@.subrange(0, i as int),
        decreases n - i,
    {
        if a.get_char(i) != b.get_char(i) {
            assert(a@[i as int] != b@[i as int]);
            return false;
        }
        assert(a@.subrange(0, i + 1) =~= a@.subrange(0, i as int).push(a@[i as int]));
        assert(b@.subrange(0, i + 1) =~= b@.subrange(0, i as int).push(b@[i as int]));
        i = i + 1;
    }
    assert(a@ =~= a@.subrange(0, n as int));
    assert(b@ =~= b@.subrange(0, n as int));
    true
}

impl Terminal {
    pub open spec fn wf(&self) -> bool {
        self.screen.wf() && self.parser.wf() && self.scrollback.wf()
    }

    pub open spec fn view(&self) -> TerminalView {
        TerminalView { parser: self.parser@, screen: self.screen@, scrollback: self.scrollback@ }
    }

    /// A fresh terminal keeping up to 5000 lines of history.
    pub fn new() -> (r: Terminal)
        ensures
            r.wf(),
            r.screen@ == Screen::new_view(),
            r.parser@ == AnsiParser::new_view(),
            r.scrollback@ == ScrollbackBuffer::empty_view(DEFAULT_MAX_LINES as nat),
    {
        Self::with_scrollback_lines(DEFAULT_MAX_LINES)
    }

    /// A fresh terminal keeping up to `max_lines` lines of history.
    pub fn with_scrollback_lines(max_lines: usize) -> (r: Terminal)
        ensures
            r.wf(),
            r.screen@ == Screen::new_view(),
            r.parser@ == AnsiParser::new_view(),
            r.scrollback@ == ScrollbackBuffer::empty_view(max_lines as nat),
    {
        Terminal {
            screen: Screen::new(),
            parser: AnsiParser::new(),
            scrollback: ScrollbackBuffer::with_max_lines(max_lines),
        }
    }

    /// Feed one byte. Before the parser runs, the screen about to be cleared
    /// by ESC [ 2 J, or the row 0 about to scroll off, is pushed to history.
    pub fn process_byte(&mut self, byte: u8)
        requires
            old(self).wf(),
        ensures
            final(self).wf(),
            final(self).view() == old(self).view().step(byte),
            // the line that scrolls off is the one last saved
            old(self).parser@.step(old(self).screen@, byte).2 == ParseAction::LineScrolled
                && old(self).scrollback@.max_lines >= 1 ==> final(self).scrollback@.history.last()
                == pack_line(old(self).screen@.row(0)),
            // the cleared screen is the last 25 lines saved
            old(self).parser@.step(old(self).screen@, byte).2 == ParseAction::ScreenCleared
                && old(self).scrollback@.max_lines >= SCREEN_HEIGHT
                && !old(self).view().clear_param_ambiguous() ==> {
                let h = final(self).scrollback@.history;
                h.subrange(h.len() - SCREEN_HEIGHT, h.len() as int) == screen_lines(
                    old(self).screen@,
                )
            },
    {
        let ghost v0 = self.view();
        if self.is_about_to_clear_screen(byte) {
            self.scrollback.push_screen(&self.screen);
        } else if self.is_about_to_scroll(byte) {
            let line = self.screen.get_line(0).unwrap();
            self.scrollback.push_line(line.as_slice());
        }
        let _action = self.parser.process_byte(byte, &mut self.screen);
        proof {
            let a = v0.parser.step(v0.screen, byte).2;
            if a == ParseAction::LineScrolled && v0.scrollback.max_lines >= 1 {
                lemma_scroll_is_anticipated(v0.parser, v0.screen, byte);
                ScrollbackView::lemma_pushed_last(v0.scrollback, pack_line(v0.screen.row(0)));
            }
            if a == ParseAction::ScreenCleared && v0.scrollback.max_lines >= SCREEN_HEIGHT
                && !v0.clear_param_ambiguous() {
                lemma_clear_is_anticipated(v0.parser, v0.screen, byte);
                ScrollbackView::lemma_pushed_lines_tail(v0.scrollback, screen_lines(v0.screen));
            }
        }
    }

    /// Whether `byte` completes ESC [ 2 J.
    fn is_about_to_clear_screen(&self, byte: u8) -> (r: bool)
        ensures
            r == self.parser@.will_clear(byte),
    {
        self.parser.will_clear_screen(byte)
    }

    /// Whether `byte` will scroll the screen up.
    fn is_about_to_scroll(&self, byte: u8) -> (r: bool)
        requires
            self.wf(),
        ensures
            r == about_to_scroll(self.parser@, self.screen@, byte),
    {
        if !self.parser.is_in_normal_state() {
            return false;
        }
        let (cursor_x, cursor_y) = self.screen.cursor_pos();
        if byte == 0x0A {
            cursor_y == SCREEN_HEIGHT - 1
        } else if byte >= 0x20 {
            cursor_y == SCREEN_HEIGHT - 1 && cursor_x == SCREEN_WIDTH - 1
        } else {
            false
        }
    }

    /// Feed bytes in order.
    pub fn process_bytes(&mut self, bytes: &[u8])
        requires
            old(self).wf(),
        ensures
            final(self).wf(),
            final(self).view() == old(self).view().run(bytes@),
            0 <= final(self).screen@.cursor_x < SCREEN_WIDTH,
            0 <= final(self).screen@.cursor_y < SCREEN_HEIGHT,
            final(self).scrollback@.history.len() <= final(self).scrollback@.max_lines,
    {
        let mut i: usize = 0;
        while i < bytes.len()
            invariant
                i <= bytes@.len(),
                self.wf(),
                self.view() == old(self).view().run(bytes@.take(i as int)),
            decreases bytes@.len() - i,
        {
            self.process_byte(bytes[i]);
            assert(bytes@.take(i + 1).drop_last() =~= bytes@.take(i as int));
            i = i + 1;
        }
        assert(bytes@.take(i as int) =~= bytes@);
    }

    /// A wheel movement of `delta_y` whole pixels (negative: away from the
    /// user, back in history). Returns whether the event is consumed: always
    /// when scrolling back, otherwise only while scrollback was active.
    pub fn handle_wheel(&mut self, delta_y: i32) -> (r: bool)
        requires
            old(self).wf(),
        ensures
            final(self).wf(),
            final(self).screen@ == old(self).screen@,
            final(self).parser@ == old(self).parser@,
            delta_y < 0 ==> r && final(self).scrollback@ == old(self).scrollback@.scrolled_up(
                wheel_lines(delta_y as int),
            ),
            delta_y > 0 ==> r == old(self).scrollback@.active && final(self).scrollback@ == (if r {
                old(self).scrollback@.scrolled_down(wheel_lines(delta_y as int))
            } else {
                old(self).scrollback@
            }),
            delta_y == 0 ==> r == old(self).scrollback@.active && final(self).scrollback@
                == old(self).scrollback@,
    {
        let was_active = self.scrollback.is_active();
        let magnitude: u32 = if delta_y < 0 {
            ((-(delta_y as i64)) as u64) as u32
        } else {
            delta_y as u32
        };
        let lines: usize = if magnitude <= WHEEL_PIXELS_PER_LINE {
            1
        } else {
            ((magnitude as u64 + (WHEEL_PIXELS_PER_LINE - 1) as u64) / WHEEL_PIXELS_PER_LINE as u64) as usize
        };
        if delta_y < 0 {
            self.scrollback.scroll_up(lines);
            true
        } else if delta_y > 0 {
            if was_active {
                self.scrollback.scroll_down(lines);
                true
            } else {
                false
            }
        } else {
            was_active
        }
    }

    /// A key press. Alt+K toggles keyboard scrollback; while scrollback is
    /// active, Escape starts the animated exit, the arrows scroll a line and
    /// Page Up/Down a page, and every key is consumed. Returns whether the
    /// key was consumed (not to be sent to the host).
    pub fn handle_key(&mut self, key: &str, alt_key: bool) -> (r: bool)
        requires
            old(self).wf(),
        ensures
            final(self).wf(),
            final(self).screen@ == old(self).screen@,
            final(self).parser@ == old(self).parser@,
            final(self).scrollback@ == key_effect(old(self).scrollback@, key@, alt_key),
            r == (is_toggle_key(key@, alt_key) || old(self).scrollback@.active),
    {
        if alt_key && (same_text(key, "k") || same_text(key, "K")) {
            self.scrollback.toggle_scrollback();
            return true;
        }
        if self.scrollback.is_active() {
            if same_text(key, "Escape") {
                self.scrollback.start_animated_exit();
            } else if same_text(key, "ArrowUp") {
                self.scrollback.scroll_up(1);
            } else if same_text(key, "ArrowDown") {
                self.scrollback.scroll_down(1);
            } else if same_text(key, "PageUp") {
                self.scrollback.page_up();
            } else if same_text(key, "PageDown") {
                self.scrollback.page_down();
            }
            return true;
        }
        false
    }

    /// A click: while scrollback is active, start the animated exit and
    /// consume the click.
    pub fn handle_click(&mut self) -> (r: bool)
        requires
            old(self).wf(),
        ensures
            final(self).wf(),
            final(self).screen@ == old(self).screen@,
            final(self).parser@ == old(self).parser@,
            r == old(self).scrollback@.active,
            final(self).scrollback@ == (if r {
                old(self).scrollback@.exit_started().0
            } else {
                old(self).scrollback@
            }),
    {
        if self.scrollback.is_active() {
            self.scrollback.start_animated_exit();
            true
        } else {
            false
        }
    }
}

impl Default for Terminal {
    fn default() -> (r: Terminal)
        ensures
            r.wf(),
            r.screen@ == Screen::new_view(),
            r.parser@ == AnsiParser::new_view(),
            r.scrollback@ == ScrollbackBuffer::empty_view(DEFAULT_MAX_LINES as nat),
    {
        Terminal::new()
    }
}

/// Alt+K in either case.
pub open spec fn is_toggle_key(key: Seq<char>, alt: bool) -> bool {
    alt && (key == "k"@ || key == "K"@)
}

/// What a key press does to the scrollback.
pub open spec fn key_effect(sb: ScrollbackView, key: Seq<char>, alt: bool) -> ScrollbackView {
    if is_toggle_key(key, alt) {
        sb.toggled()
    } else if !sb.active {
        sb
    } else if key == "Escape"@ {
        sb.exit_started().0
    } else if key == "ArrowUp"@ {
        sb.scrolled_up(1)
    } else if key == "ArrowDown"@ {
        sb.scrolled_down(1)
    } else if key == "PageUp"@ {
        sb.scrolled_up(SCREEN_HEIGHT as nat)
    } else if key == "PageDown"@ {
        sb.scrolled_down(SCREEN_HEIGHT as nat)
    } else {
        sb
    }
}

/// A byte scrolls the screen exactly when the coordinator predicts it.
pub proof fn lemma_scroll_is_anticipated(p: ParserView, s: ScreenView, b: u8)
    requires
        p.wf(),
        s.wf(),
    ensures
        (p.step(s, b).2 == ParseAction::LineScrolled) == about_to_scroll(p, s, b),
{
}

/// A byte that clears the screen is predicted by the parser, unless digits
/// follow a stored parameter.
pub proof fn lemma_clear_is_anticipated(p: ParserView, s: ScreenView, b: u8)
    requires
        p.wf(),
        s.wf(),
        !(p.pending != PendingParam::Empty && p.params.len() > 0),
        p.step(s, b).2 == ParseAction::ScreenCleared,
    ensures
        p.will_clear(b),
{
}

} // verus!
