//! Terminal history in packed (CGA attribute) form, with mouse, keyboard and
//! viewer navigation and an animated exit.
use vstd::prelude::*;
use crate::screen::{Cell, Screen, ScreenView, SCREEN_HEIGHT, SCREEN_WIDTH};

verus! {

/// Default maximum number of lines kept in history.
pub const DEFAULT_MAX_LINES: usize = 5000;

/// Bytes in one packed line: two per cell.
pub const LINE_BYTES: usize = 160;

/// Bytes in the packed "SCROLLBACK" indicator.
pub const INDICATOR_BYTES: usize = 20;

/// Attribute of the indicator: yellow (14) on red (4).
pub const INDICATOR_ATTR: u8 = 0x4E;

/// Lines the exit animation moves per frame.
pub const EXIT_LINES_PER_FRAME: usize = 6;

/// The attribute byte of a cell: background in the high nibble, foreground in
/// the low one.
pub open spec fn pack_attr(fg: u8, bg: u8) -> u8 {
    ((bg & 0x0F) << 4u8) | (fg & 0x0F)
}

/// The cell that a character byte and an attribute byte stand for.
pub open spec fn unpack_cell(ch: u8, attr: u8) -> Cell {
    Cell { ch, fg: attr & 0x0F, bg: (attr >> 4u8) & 0x0F }
}

/// Packing is a bijection on cells with 4-bit colours: unpacking a packed
/// cell gives it back.
pub proof fn lemma_unpack_pack(c: Cell)
    requires
        c.fg < 16,
        c.bg < 16,
    ensures
        unpack_cell(c.ch, pack_attr(c.fg, c.bg)) == c,
{
    let fg = c.fg;
    let bg = c.bg;
    assert(((((bg & 0x0F) << 4u8) | (fg & 0x0F)) & 0x0F) == fg && (((((bg & 0x0F) << 4u8) | (fg
        & 0x0F)) >> 4u8) & 0x0F) == bg) by (bit_vector)
        requires
            fg < 16u8,
            bg < 16u8,
    ;
}

/// Byte `i` of the packed form of `cells`: character and attribute of each
/// of the first 80 cells in turn, zero where `cells` ends early.
pub open spec fn packed_byte(cells: Seq<Cell>, i: int) -> u8 {
    if i / 2 < cells.len() {
        if i % 2 == 0 {
            cells[i / 2].ch
        } else {
            pack_attr(cells[i / 2].fg, cells[i / 2].bg)
        }
    } else {
        0
    }
}

/// The 160-byte packed form of a line of cells.
pub open spec fn pack_line(cells: Seq<Cell>) -> Seq<u8> {
    Seq::new(LINE_BYTES as nat, |i: int| packed_byte(cells, i))
}

/// The 25 packed rows of a screen, top to bottom.
pub open spec fn screen_lines(s: ScreenView) -> Seq<Seq<u8>> {
    Seq::new(SCREEN_HEIGHT as nat, |y: int| pack_line(s.row(y)))
}

/// "SCROLLBACK" in ASCII.
pub open spec fn indicator_text() -> Seq<u8> {
    seq![0x53u8, 0x43, 0x52, 0x4F, 0x4C, 0x4C, 0x42, 0x41, 0x43, 0x4B]
}

/// The packed indicator: each letter of "SCROLLBACK" with attribute 0x4E.
pub open spec fn indicator() -> Seq<u8> {
    Seq::new(
        INDICATOR_BYTES as nat,
        |i: int|
            if i % 2 == 0 {
                indicator_text()[i / 2]
            } else {
                INDICATOR_ATTR
            },
    )
}

/// The abstract state of a scrollback buffer.
///
/// In mouse mode (`!keyboard_entry`) `viewport_position` counts lines back
/// from the end of the virtual buffer `history ++ screen`; in keyboard and
/// viewer mode it is the absolute index where the window starts.
pub struct ScrollbackView {
    pub history: Seq<Seq<u8>>,
    pub max_lines: nat,
    pub active: bool,
    pub keyboard_entry: bool,
    pub viewport_position: nat,
    pub animating_exit: bool,
    pub viewer_mode: bool,
}

impl ScrollbackView {
    pub open spec fn wf(self) -> bool {
        &&& self.history.len() <= self.max_lines
        &&& forall|i: int| 0 <= i < self.history.len() ==> (#[trigger] self.history[i]).len() == LINE_BYTES
        &&& self.viewport_position <= self.history.len()
        &&& !self.active ==> self.viewport_position == 0 && !self.animating_exit
    }

    /// Mouse mode, not animating, scrolled back: new lines must not move the view.
    pub open spec fn anchored(self) -> bool {
        self.active && !self.keyboard_entry && !self.animating_exit && self.viewport_position > 0
    }

    /// The state after `line` is appended to history, oldest line dropped
    /// past `max_lines`.
    pub open spec fn pushed(self, line: Seq<u8>) -> ScrollbackView {
        let h = self.history.push(line);
        let vp: nat = if self.anchored() {
            self.viewport_position + 1
        } else {
            self.viewport_position
        };
        if h.len() > self.max_lines {
            ScrollbackView {
                history: h.drop_first(),
                viewport_position: if vp > 0 && (self.keyboard_entry || !self.animating_exit) {
                    (vp - 1) as nat
                } else {
                    vp
                },
                ..self
            }
        } else {
            ScrollbackView { history: h, viewport_position: vp, ..self }
        }
    }

    /// The state after each of `lines` is pushed in order.
    pub open spec fn pushed_lines(self, lines: Seq<Seq<u8>>) -> ScrollbackView
        decreases lines.len(),
    {
        if lines.len() == 0 {
            self
        } else {
            self.pushed_lines(lines.drop_last()).pushed(lines.last())
        }
    }

    pub open spec fn entered_mouse(self) -> ScrollbackView {
        if !self.active && self.history.len() > 0 {
            ScrollbackView { active: true, keyboard_entry: false, viewport_position: 0, ..self }
        } else {
            self
        }
    }

    pub open spec fn entered_keyboard(self) -> ScrollbackView {
        if !self.active && self.history.len() > 0 {
            ScrollbackView {
                active: true,
                keyboard_entry: true,
                viewport_position: self.history.len(),
                ..self
            }
        } else {
            self
        }
    }

    pub open spec fn entered_viewer(self) -> ScrollbackView {
        if self.history.len() > 0 {
            ScrollbackView {
                active: true,
                keyboard_entry: true,
                viewer_mode: true,
                viewport_position: 0,
                ..self
            }
        } else {
            self
        }
    }

    pub open spec fn exited(self) -> ScrollbackView {
        ScrollbackView {
            active: false,
            keyboard_entry: false,
            viewport_position: 0,
            animating_exit: false,
            viewer_mode: false,
            ..self
        }
    }

    /// How many lines the window is above the live screen.
    pub open spec fn offset_from_bottom(self) -> nat {
        if self.keyboard_entry {
            if self.viewport_position <= self.history.len() {
                (self.history.len() - self.viewport_position) as nat
            } else {
                0
            }
        } else {
            self.viewport_position
        }
    }

    /// The state after an animated exit is asked for, and whether it started.
    pub open spec fn exit_started(self) -> (ScrollbackView, bool) {
        if !self.active {
            (self, false)
        } else if self.offset_from_bottom() == 0 {
            (self.exited(), false)
        } else {
            (
                ScrollbackView {
                    keyboard_entry: false,
                    viewport_position: self.offset_from_bottom(),
                    animating_exit: true,
                    ..self
                },
                true,
            )
        }
    }

    /// The state after one frame of the exit animation, and whether it goes on.
    pub open spec fn exit_frame(self) -> (ScrollbackView, bool) {
        if !self.animating_exit || !self.active {
            (self, false)
        } else if self.viewport_position <= EXIT_LINES_PER_FRAME {
            (self.exited(), false)
        } else {
            (
                ScrollbackView {
                    viewport_position: (self.viewport_position - EXIT_LINES_PER_FRAME) as nat,
                    ..self
                },
                true,
            )
        }
    }

    /// Alt+K: park a running exit animation in keyboard mode where it is,
    /// else start the animated exit when active, else enter keyboard mode.
    pub open spec fn toggled(self) -> ScrollbackView {
        if self.animating_exit {
            ScrollbackView {
                animating_exit: false,
                viewport_position: self.offset_from_bottom_to_start(),
                keyboard_entry: true,
                ..self
            }
        } else if self.active {
            self.exit_started().0
        } else {
            self.entered_keyboard()
        }
    }

    /// The absolute start index of a window `viewport_position` lines back
    /// from the end.
    pub open spec fn offset_from_bottom_to_start(self) -> nat {
        if self.viewport_position <= self.history.len() {
            (self.history.len() - self.viewport_position) as nat
        } else {
            0
        }
    }

    /// `viewport_position + n`, capped at the history length.
    pub open spec fn advanced(self, n: nat) -> nat {
        if self.viewport_position + n <= self.history.len() {
            self.viewport_position + n
        } else {
            self.history.len()
        }
    }

    pub open spec fn scrolled_up(self, n: nat) -> ScrollbackView {
        if self.animating_exit {
            ScrollbackView { animating_exit: false, viewport_position: self.advanced(n), ..self }
        } else {
            let s = if !self.active {
                self.entered_mouse()
            } else {
                self
            };
            if !s.active {
                s
            } else if s.keyboard_entry {
                ScrollbackView {
                    viewport_position: if s.viewport_position >= n {
                        (s.viewport_position - n) as nat
                    } else {
                        0
                    },
                    ..s
                }
            } else {
                ScrollbackView { viewport_position: s.advanced(n), ..s }
            }
        }
    }

    pub open spec fn scrolled_down(self, n: nat) -> ScrollbackView {
        if !self.active {
            self
        } else if self.keyboard_entry {
            ScrollbackView { viewport_position: self.advanced(n), ..self }
        } else if self.viewport_position <= n {
            self.exited()
        } else {
            ScrollbackView { viewport_position: (self.viewport_position - n) as nat, ..self }
        }
    }

    /// Index into `history ++ screen` of the first line of the window.
    pub open spec fn view_start(self) -> int {
        if self.keyboard_entry {
            self.viewport_position as int
        } else {
            self.history.len() - self.viewport_position
        }
    }

    /// The packed line shown at screen row `y`.
    pub open spec fn display_line(self, y: int, screen: ScreenView) -> Seq<u8> {
        if !self.active || (!self.keyboard_entry && self.viewport_position == 0) {
            pack_line(screen.row(y))
        } else {
            let i = self.view_start() + y;
            if i < self.history.len() {
                self.history[i]
            } else {
                pack_line(screen.row(i - self.history.len()))
            }
        }
    }

    pub open spec fn shows_indicators(self) -> bool {
        self.active && !self.viewer_mode
    }

    /// The state after each of `ns` is scrolled down in order.
    pub open spec fn scrolled_down_all(self, ns: Seq<nat>) -> ScrollbackView
        decreases ns.len(),
    {
        if ns.len() == 0 {
            self
        } else {
            self.scrolled_down_all(ns.drop_last()).scrolled_down(ns.last())
        }
    }

    /// In keyboard mode, no sequence of scroll-downs leaves scrollback: only
    /// an explicit exit does.
    pub proof fn lemma_keyboard_scroll_down_stays_active(self, ns: Seq<nat>)
        requires
            self.active,
            self.keyboard_entry,
        ensures
            self.scrolled_down_all(ns).active,
            self.scrolled_down_all(ns).keyboard_entry,
        decreases ns.len(),
    {
        if ns.len() > 0 {
            self.lemma_keyboard_scroll_down_stays_active(ns.drop_last());
        }
    }

    /// Mouse-mode anchor: scrolled back in mouse mode and not animating, a
    /// row of the window that shows history shows the same line after a new
    /// line is pushed, as long as history is not full (a full history drops
    /// its oldest line and the window moves with it).
    pub proof fn lemma_mouse_anchor(self, line: Seq<u8>, y: int, screen: ScreenView)
        requires
            self.wf(),
            self.anchored(),
            self.history.len() < self.max_lines,
            0 <= y < self.viewport_position,
        ensures
            self.pushed(line).display_line(y, screen) == self.display_line(y, screen),
    {
        let after = self.pushed(line);
        assert(after.history == self.history.push(line));
        assert(after.view_start() == self.view_start());
    }

    /// With room for at least one line, a pushed line is the last in history.
    pub proof fn lemma_pushed_last(self, line: Seq<u8>)
        requires
            self.history.len() <= self.max_lines,
            self.max_lines >= 1,
        ensures
            self.pushed(line).history.len() > 0,
            self.pushed(line).history.last() == line,
    {
    }

    /// With room for all of them, the lines pushed in order are the last
    /// lines of history, in order.
    pub proof fn lemma_pushed_lines_tail(self, lines: Seq<Seq<u8>>)
        requires
            self.history.len() <= self.max_lines,
            lines.len() <= self.max_lines,
        ensures
            self.pushed_lines(lines).max_lines == self.max_lines,
            self.pushed_lines(lines).history.len() <= self.max_lines,
            self.pushed_lines(lines).history.len() >= lines.len(),
            ({
                let h = self.pushed_lines(lines).history;
                h.subrange(h.len() - lines.len(), h.len() as int) == lines
            }),
        decreases lines.len(),
    {
        let h = self.pushed_lines(lines).history;
        if lines.len() == 0 {
            assert(h.subrange(h.len() as int, h.len() as int) =~= lines);
        } else {
            let n = lines.len() as int;
            self.lemma_pushed_lines_tail(lines.drop_last());
            let prev = self.pushed_lines(lines.drop_last()).history;
            let h2 = prev.push(lines.last());
            assert(h2.subrange(h2.len() - n, h2.len() as int) =~= lines) by {
                let tail = prev.subrange(prev.len() - (n - 1), prev.len() as int);
                assert(tail == lines.drop_last());
                assert forall|i: int| 0 <= i < n - 1 implies h2[h2.len() - n + i] == lines[i] by {
                    assert(tail[i] == lines.drop_last()[i]);
                }
            }
            if h2.len() > self.max_lines {
                assert(h =~= h2.drop_first());
                assert(h.subrange(h.len() - n, h.len() as int) =~= h2.subrange(
                    h2.len() - n,
                    h2.len() as int,
                ));
            } else {
                assert(h =~= h2);
            }
        }
    }
}

/// Scrollback buffer storing terminal history as packed lines.
pub struct ScrollbackBuffer {
    history: Vec<[u8; LINE_BYTES]>,
    max_lines: usize,
    active: bool,
    keyboard_entry: bool,
    viewport_position: usize,
    animating_exit: bool,
    viewer_mode: bool,
}

impl View for ScrollbackBuffer {
    type V = ScrollbackView;

    closed spec fn view(&self) -> ScrollbackView {
        ScrollbackView {
            history: self.history@.map_values(|l: [u8; LINE_BYTES]| l@),
            max_lines: self.max_lines as nat,
            active: self.active,
            keyboard_entry: self.keyboard_entry,
            viewport_position: self.viewport_position as nat,
            animating_exit: self.animating_exit,
            viewer_mode: self.viewer_mode,
        }
    }
}

impl ScrollbackBuffer {
    pub open spec fn wf(&self) -> bool {
        self@.wf()
    }

    /// An empty, inactive buffer keeping at most 5000 lines.
    pub fn new() -> (r: ScrollbackBuffer)
        ensures
            r.wf(),
            r@ == ScrollbackBuffer::empty_view(DEFAULT_MAX_LINES as nat),
    {
        Self::with_max_lines(DEFAULT_MAX_LINES)
    }

    pub open spec fn empty_view(max_lines: nat) -> ScrollbackView {
        ScrollbackView {
            history: Seq::empty(),
            max_lines,
            active: false,
            keyboard_entry: false,
            viewport_position: 0,
            animating_exit: false,
            viewer_mode: false,
        }
    }

    /// An empty, inactive buffer keeping at most `max_lines` lines.
    pub fn with_max_lines(max_lines: usize) -> (r: ScrollbackBuffer)
        ensures
            r.wf(),
            r@ == ScrollbackBuffer::empty_view(max_lines as nat),
    {
        let r = ScrollbackBuffer {
            history: Vec::new(),
            max_lines,
            active: false,
            keyboard_entry: false,
            viewport_position: 0,
            animating_exit: false,
            viewer_mode: false,
        };
        assert(r@.history =~= Seq::<Seq<u8>>::empty());
        r
    }

    /// The two packed bytes of a cell.
    pub fn cell_to_cga(cell: &Cell) -> (r: [u8; 2])
        ensures
            r[0] == cell.ch,
            r[1] == pack_attr(cell.fg, cell.bg),
    {
        let attr = ((cell.bg & 0x0F) << 4u8) | (cell.fg & 0x0F);
        [cell.ch, attr]
    }

    /// The cell that two packed bytes stand for.
    pub fn cga_to_cell(cga: [u8; 2]) -> (r: Cell)
        ensures
            r == unpack_cell(cga[0], cga[1]),
    {
        Cell { ch: cga[0], fg: cga[1] & 0x0F, bg: (cga[1] >> 4u8) & 0x0F }
    }

    /// The packed form of a line of cells; cells past the 80th are ignored.
    fn pack_cells(cells: &[Cell]) -> (r: [u8; LINE_BYTES])
        ensures
            r@ == pack_line(cells@),
    {
        let mut line = [0u8; LINE_BYTES];
        let n: usize = if cells.len() < SCREEN_WIDTH { cells.len() } else { SCREEN_WIDTH };
        let mut x: usize = 0;
        while x < n
            invariant
                n <= SCREEN_WIDTH,
                n <= cells@.len(),
                n == SCREEN_WIDTH || n == cells@.len(),
                x <= n,
                forall|i: int|
                    0 <= i < LINE_BYTES ==> #[trigger] line@[i] == (if i / 2 < x {
                        packed_byte(cells@, i)
                    } else {
                        0
                    }),
            decreases n - x,
        {
            let cga = Self::cell_to_cga(&cells[x]);
            line[2 * x] = cga[0];
            line[2 * x + 1] = cga[1];
            x = x + 1;
        }
        assert(line@ =~= pack_line(cells@));
        line
    }

    /// Append one line of cells to history, packed.
    ///
    /// In mouse mode, scrolled back and not animating, the offset grows with
    /// the history so that the window stays over the same lines. Past
    /// `max_lines` the oldest line is dropped.
    pub fn push_line(&mut self, cells: &[Cell])
        requires
            old(self).wf(),
        ensures
            final(self).wf(),
            final(self)@ == old(self)@.pushed(pack_line(cells@)),
    {
        let line = Self::pack_cells(cells);
        let ghost v0 = self@;
        let anchored = self.active && !self.keyboard_entry && !self.animating_exit
            && self.viewport_position > 0;
        self.history.push(line);
        let len = self.history.len();
        assert(v0.history.len() == old(self).history@.len());
        if anchored {
            assert(self.viewport_position < len);
            self.viewport_position = self.viewport_position + 1;
        }
        assert(self.history@.map_values(|l: [u8; LINE_BYTES]| l@) =~= v0.history.push(line@));
        if self.history.len() > self.max_lines {
            self.history.remove(0);
            assert(self.history@.map_values(|l: [u8; LINE_BYTES]| l@) =~= v0.history.push(
                line@,
            ).drop_first());
            if self.viewport_position > 0 && (self.keyboard_entry || !self.animating_exit) {
                self.viewport_position = self.viewport_position - 1;
            }
        }
    }

    /// Append the 25 rows of a screen to history, top to bottom.
    pub fn push_screen(&mut self, screen: &Screen)
        requires
            old(self).wf(),
            screen.wf(),
        ensures
            final(self).wf(),
            final(self)@ == old(self)@.pushed_lines(screen_lines(screen@)),
    {
        let ghost lines = screen_lines(screen@);
        let mut y: usize = 0;
        while y < SCREEN_HEIGHT
            invariant
                y <= SCREEN_HEIGHT,
                screen.wf(),
                lines == screen_lines(screen@),
                self.wf(),
                self@ == old(self)@.pushed_lines(lines.take(y as int)),
            decreases SCREEN_HEIGHT - y,
        {
            let cells = screen.get_line(y).unwrap();
            self.push_line(cells.as_slice());
            assert(lines.take(y + 1).drop_last() =~= lines.take(y as int));
            y = y + 1;
        }
        assert(lines.take(SCREEN_HEIGHT as int) =~= lines);
    }

    /// Enter mouse-mode scrollback at the live screen; needs history and an
    /// inactive buffer.
    pub fn enter_scrollback(&mut self)
        requires
            old(self).wf(),
        ensures
            final(self).wf(),
            final(self)@ == old(self)@.entered_mouse(),
    {
        if !self.active && self.history.len() > 0 {
            self.active = true;
            self.keyboard_entry = false;
            self.viewport_position = 0;
        }
    }

    /// Enter keyboard-mode scrollback with the window on the live screen;
    /// needs history and an inactive buffer.
    pub fn enter_scrollback_keyboard(&mut self)
        requires
            old(self).wf(),
        ensures
            final(self).wf(),
            final(self)@ == old(self)@.entered_keyboard(),
    {
        if !self.active && self.history.len() > 0 {
            self.active = true;
            self.keyboard_entry = true;
            self.viewport_position = self.history.len();
        }
    }

    /// Enter viewer mode at the top of history: keyboard-style positions, no
    /// indicator, no auto-exit.
    pub fn enter_viewer_mode(&mut self)
        requires
            old(self).wf(),
        ensures
            final(self).wf(),
            final(self)@ == old(self)@.entered_viewer(),
    {
        if self.history.len() > 0 {
            self.active = true;
            self.keyboard_entry = true;
            self.viewer_mode = true;
            self.viewport_position = 0;
        }
    }

    pub fn is_viewer_mode(&self) -> (r: bool)
        ensures
            r == self@.viewer_mode,
    {
        self.viewer_mode
    }

    /// Whether the "SCROLLBACK" indicator is shown: active and not a viewer.
    pub fn should_show_indicators(&self) -> (r: bool)
        ensures
            r == self@.shows_indicators(),
    {
        self.active && !self.viewer_mode
    }

    /// Leave scrollback at once, back to the live screen.
    pub fn exit_scrollback(&mut self)
        requires
            old(self).wf(),
        ensures
            final(self).wf(),
            final(self)@ == old(self)@.exited(),
    {
        self.active = false;
        self.keyboard_entry = false;
        self.viewport_position = 0;
        self.animating_exit = false;
        self.viewer_mode = false;
    }

    /// Start scrolling back down to the live screen; returns whether an
    /// animation started (at the bottom already, it exits at once).
    pub fn start_animated_exit(&mut self) -> (r: bool)
        requires
            old(self).wf(),
        ensures
            final(self).wf(),
            (final(self)@, r) == old(self)@.exit_started(),
    {
        if !self.active {
            return false;
        }
        let offset_from_bottom = if self.keyboard_entry {
            self.history.len() - self.viewport_position
        } else {
            self.viewport_position
        };
        if offset_from_bottom == 0 {
            self.exit_scrollback();
            return false;
        }
        self.keyboard_entry = false;
        self.viewport_position = offset_from_bottom;
        self.animating_exit = true;
        true
    }

    /// One frame of the exit animation: six lines further down, or the exit
    /// once within six lines. Returns whether the animation goes on.
    pub fn animate_exit_frame(&mut self) -> (r: bool)
        requires
            old(self).wf(),
        ensures
            final(self).wf(),
            (final(self)@, r) == old(self)@.exit_frame(),
    {
        if !self.animating_exit || !self.active {
            return false;
        }
        if self.viewport_position <= EXIT_LINES_PER_FRAME {
            self.exit_scrollback();
            false
        } else {
            self.viewport_position = self.viewport_position - EXIT_LINES_PER_FRAME;
            true
        }
    }

    pub fn is_animating_exit(&self) -> (r: bool)
        ensures
            r == self@.animating_exit,
    {
        self.animating_exit
    }

    /// Alt+K.
    pub fn toggle_scrollback(&mut self)
        requires
            old(self).wf(),
        ensures
            final(self).wf(),
            final(self)@ == old(self)@.toggled(),
    {
        if self.animating_exit {
            self.animating_exit = false;
            self.viewport_position = self.history.len() - self.viewport_position;
            self.keyboard_entry = true;
            return;
        }
        if self.active {
            self.start_animated_exit();
        } else {
            self.enter_scrollback_keyboard();
        }
    }

    /// Whether positions are keyboard-style (keyboard or viewer mode).
    pub fn keyboard_entry(&self) -> (r: bool)
        ensures
            r == self@.keyboard_entry,
    {
        self.keyboard_entry
    }

    pub fn is_active(&self) -> (r: bool)
        ensures
            r == self@.active,
    {
        self.active
    }

    pub fn viewport_position(&self) -> (r: usize)
        ensures
            r == self@.viewport_position,
    {
        self.viewport_position
    }

    pub fn history_len(&self) -> (r: usize)
        ensures
            r == self@.history.len(),
    {
        self.history.len()
    }

    /// `viewport_position + n`, capped at the history length.
    fn advanced(&self, n: usize) -> (r: usize)
        requires
            self.wf(),
        ensures
            r == self@.advanced(n as nat),
    {
        if n >= self.history.len() - self.viewport_position {
            self.history.len()
        } else {
            self.viewport_position + n
        }
    }

    /// Scroll back in history by `lines`, entering mouse mode when inactive;
    /// a running exit animation is cancelled and scrolling goes on from where
    /// it was.
    pub fn scroll_up(&mut self, lines: usize)
        requires
            old(self).wf(),
        ensures
            final(self).wf(),
            final(self)@ == old(self)@.scrolled_up(lines as nat),
    {
        if self.animating_exit {
            self.animating_exit = false;
            self.viewport_position = self.advanced(lines);
            return;
        }
        if !self.active {
            self.enter_scrollback();
        }
        if self.active {
            if self.keyboard_entry {
                self.viewport_position = if self.viewport_position >= lines {
                    self.viewport_position - lines
                } else {
                    0
                };
            } else {
                self.viewport_position = self.advanced(lines);
            }
        }
    }

    /// Scroll toward the live screen by `lines`; in mouse mode reaching the
    /// bottom leaves scrollback.
    pub fn scroll_down(&mut self, lines: usize)
        requires
            old(self).wf(),
        ensures
            final(self).wf(),
            final(self)@ == old(self)@.scrolled_down(lines as nat),
    {
        if self.active {
            if self.keyboard_entry {
                self.viewport_position = self.advanced(lines);
            } else {
                if self.viewport_position <= lines {
                    self.exit_scrollback();
                } else {
                    self.viewport_position = self.viewport_position - lines;
                }
            }
        }
    }

    /// Scroll back one page of 25 lines.
    pub fn page_up(&mut self)
        requires
            old(self).wf(),
        ensures
            final(self).wf(),
            final(self)@ == old(self)@.scrolled_up(SCREEN_HEIGHT as nat),
    {
        self.scroll_up(SCREEN_HEIGHT);
    }

    /// Scroll forward one page of 25 lines.
    pub fn page_down(&mut self)
        requires
            old(self).wf(),
        ensures
            final(self).wf(),
            final(self)@ == old(self)@.scrolled_down(SCREEN_HEIGHT as nat),
    {
        self.scroll_down(SCREEN_HEIGHT);
    }

    /// The packed line shown at screen row `y`, or `None` past the last row.
    pub fn get_display_line(&self, y: usize, screen: &Screen) -> (r: Option<[u8; LINE_BYTES]>)
        requires
            self.wf(),
            screen.wf(),
        ensures
            r.is_some() == (y < SCREEN_HEIGHT),
            r.is_some() ==> r.unwrap()@ == self@.display_line(y as int, screen@),
    {
        if y >= SCREEN_HEIGHT {
            return None;
        }
        if !self.active || (!self.keyboard_entry && self.viewport_position == 0) {
            return Some(Self::screen_line_to_cga(screen, y));
        }
        let len = self.history.len();
        let start = if self.keyboard_entry {
            self.viewport_position
        } else {
            len - self.viewport_position
        };
        if y < len - start {
            let line = self.history[start + y];
            assert(self@.history[start + y] == line@);
            Some(line)
        } else {
            Some(Self::screen_line_to_cga(screen, y - (len - start)))
        }
    }

    /// The packed form of screen row `y`.
    fn screen_line_to_cga(screen: &Screen, y: usize) -> (r: [u8; LINE_BYTES])
        requires
            screen.wf(),
            y < SCREEN_HEIGHT,
        ensures
            r@ == pack_line(screen@.row(y as int)),
    {
        let cells = screen.get_line(y).unwrap();
        Self::pack_cells(cells.as_slice())
    }

    /// "SCROLLBACK" packed, yellow on red.
    pub fn scrollback_indicator() -> (r: [u8; INDICATOR_BYTES])
        ensures
            r@ == indicator(),
    {
        let r: [u8; INDICATOR_BYTES] = [
            0x53, INDICATOR_ATTR, 0x43, INDICATOR_ATTR, 0x52, INDICATOR_ATTR, 0x4F, INDICATOR_ATTR,
            0x4C, INDICATOR_ATTR, 0x4C, INDICATOR_ATTR, 0x42, INDICATOR_ATTR, 0x41, INDICATOR_ATTR,
            0x43, INDICATOR_ATTR, 0x4B, INDICATOR_ATTR,
        ];
        assert(r@ =~= indicator());
        r
    }
}

impl Default for ScrollbackBuffer {
    fn default() -> (r: ScrollbackBuffer)
        ensures
            r.wf(),
            r@ == ScrollbackBuffer::empty_view(DEFAULT_MAX_LINES as nat),
    {
        ScrollbackBuffer::new()
    }
}

} // verus!
