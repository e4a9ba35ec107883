//! The 80x25 text-mode cell grid and its cursor.
use vstd::prelude::*;

verus! {

/// Width of the text-mode screen, in character cells.
pub const SCREEN_WIDTH: usize = 80;

/// Height of the text-mode screen, in character cells.
pub const SCREEN_HEIGHT: usize = 25;

/// Number of cells on the screen.
pub const SCREEN_CELLS: usize = 2000;

/// A single character position: a CP437 code and two colour indices.
#[derive(Clone, Copy, PartialEq, Eq, Structural, Debug)]
pub struct Cell {
    /// CP437 character code.
    pub ch: u8,
    /// Foreground colour index (0-15).
    pub fg: u8,
    /// Background colour index (0-15).
    pub bg: u8,
}

/// The cell a cleared screen is filled with: a space, light grey on `bg`.
pub open spec fn blank_cell(bg: u8) -> Cell {
    Cell { ch: 0x20, fg: 7, bg }
}

/// The default cell: a space, light grey on black.
pub open spec fn default_cell() -> Cell {
    blank_cell(0)
}

impl Default for Cell {
    fn default() -> (r: Cell)
        ensures
            r == default_cell(),
    {
        Cell { ch: 0x20, fg: 7, bg: 0 }
    }
}

/// Index of the cell at column `x`, row `y` in row-major order.
pub open spec fn cell_index(x: int, y: int) -> int {
    y * SCREEN_WIDTH as int + x
}

/// The abstract state of a screen.
pub struct ScreenView {
    pub cells: Seq<Cell>,
    pub cursor_x: int,
    pub cursor_y: int,
}

impl ScreenView {
    /// All cells present and the cursor on the screen.
    pub open spec fn wf(self) -> bool {
        &&& self.cells.len() == SCREEN_CELLS
        &&& 0 <= self.cursor_x < SCREEN_WIDTH
        &&& 0 <= self.cursor_y < SCREEN_HEIGHT
    }

    pub open spec fn cell(self, x: int, y: int) -> Cell {
        self.cells[cell_index(x, y)]
    }

    /// The cells of row `y`, left to right.
    pub open spec fn row(self, y: int) -> Seq<Cell> {
        self.cells.subrange(cell_index(0, y), cell_index(0, y + 1))
    }

    /// The cursor moved to `(x, y)`, each clamped into the screen.
    pub open spec fn with_cursor(self, x: int, y: int) -> ScreenView {
        ScreenView {
            cells: self.cells,
            cursor_x: if x < SCREEN_WIDTH - 1 { x } else { SCREEN_WIDTH - 1 },
            cursor_y: if y < SCREEN_HEIGHT - 1 { y } else { SCREEN_HEIGHT - 1 },
        }
    }

    /// The cell at `(x, y)` replaced, where that position is on the screen.
    pub open spec fn with_cell(self, x: int, y: int, c: Cell) -> ScreenView {
        if 0 <= x < SCREEN_WIDTH && 0 <= y < SCREEN_HEIGHT {
            ScreenView { cells: self.cells.update(cell_index(x, y), c), ..self }
        } else {
            self
        }
    }

    /// Every row moved up by one, row 0 dropped, a default row added at the bottom.
    pub open spec fn scrolled(self) -> ScreenView {
        ScreenView {
            cells: self.cells.subrange(SCREEN_WIDTH as int, SCREEN_CELLS as int) + Seq::new(
                SCREEN_WIDTH as nat,
                |i: int| default_cell(),
            ),
            ..self
        }
    }

    /// Every cell blank on `bg`, cursor home.
    pub open spec fn cleared(self, bg: u8) -> ScreenView {
        ScreenView {
            cells: Seq::new(SCREEN_CELLS as nat, |i: int| blank_cell(bg)),
            cursor_x: 0,
            cursor_y: 0,
        }
    }
}

/// Screen buffer for the 80x25 text mode.
pub struct Screen {
    cells: Vec<Cell>,
    cursor_x: usize,
    cursor_y: usize,
}

impl View for Screen {
    type V = ScreenView;

    closed spec fn view(&self) -> ScreenView {
        ScreenView { cells: self.cells@, cursor_x: self.cursor_x as int, cursor_y: self.cursor_y as int }
    }
}

impl Screen {
    pub open spec fn wf(&self) -> bool {
        self@.wf()
    }

    /// Default cells everywhere, cursor at the top left.
    pub open spec fn new_view() -> ScreenView {
        ScreenView {
            cells: Seq::new(SCREEN_CELLS as nat, |i: int| default_cell()),
            cursor_x: 0,
            cursor_y: 0,
        }
    }

    /// A screen of default cells with the cursor at the top left.
    pub fn new() -> (r: Screen)
        ensures
            r.wf(),
            r@ == Screen::new_view(),
    {
        let mut cells: Vec<Cell> = Vec::with_capacity(SCREEN_CELLS);
        let mut i: usize = 0;
        while i < SCREEN_CELLS
            invariant
                i <= SCREEN_CELLS,
                cells@ == Seq::new(i as nat, |k: int| default_cell()),
            decreases SCREEN_CELLS - i,
        {
            cells.push(Cell::default());
            i = i + 1;
            assert(cells@ =~= Seq::new(i as nat, |k: int| default_cell()));
        }
        Screen { cells, cursor_x: 0, cursor_y: 0 }
    }

    /// The cell at `(x, y)`, or `None` off the screen.
    pub fn get_cell(&self, x: usize, y: usize) -> (r: Option<&Cell>)
        requires
            self.wf(),
        ensures
            r.is_some() == (x < SCREEN_WIDTH && y < SCREEN_HEIGHT),
            r.is_some() ==> *r.unwrap() == self@.cell(x as int, y as int),
    {
        if x < SCREEN_WIDTH && y < SCREEN_HEIGHT {
            Some(&self.cells[y * SCREEN_WIDTH + x])
        } else {
            None
        }
    }

    /// Replace the cell at `(x, y)`; a position off the screen is ignored.
    pub fn set_cell(&mut self, x: usize, y: usize, cell: Cell)
        requires
            old(self).wf(),
        ensures
            final(self).wf(),
            final(self)@ == old(self)@.with_cell(x as int, y as int, cell),
    {
        if x < SCREEN_WIDTH && y < SCREEN_HEIGHT {
            self.cells.set(y * SCREEN_WIDTH + x, cell);
        }
    }

    /// The cursor position as `(x, y)`.
    pub fn cursor_pos(&self) -> (r: (usize, usize))
        ensures
            r.0 == self@.cursor_x,
            r.1 == self@.cursor_y,
    {
        (self.cursor_x, self.cursor_y)
    }

    /// Move the cursor, clamping each coordinate into the screen.
    pub fn set_cursor(&mut self, x: usize, y: usize)
        requires
            old(self).wf(),
        ensures
            final(self).wf(),
            final(self)@ == old(self)@.with_cursor(x as int, y as int),
    {
        self.cursor_x = if x < SCREEN_WIDTH - 1 { x } else { SCREEN_WIDTH - 1 };
        self.cursor_y = if y < SCREEN_HEIGHT - 1 { y } else { SCREEN_HEIGHT - 1 };
    }

    /// Clear the screen with the default colours.
    pub fn clear(&mut self)
        requires
            old(self).wf(),
        ensures
            final(self).wf(),
            final(self)@ == old(self)@.cleared(0),
    {
        self.clear_with_bg(0);
    }

    /// Blank every cell on background `bg` and move the cursor home.
    pub fn clear_with_bg(&mut self, bg: u8)
        requires
            old(self).wf(),
        ensures
            final(self).wf(),
            final(self)@ == old(self)@.cleared(bg),
    {
        let mut i: usize = 0;
        while i < SCREEN_CELLS
            invariant
                i <= SCREEN_CELLS,
                self.cells@.len() == SCREEN_CELLS,
                forall|k: int| 0 <= k < i ==> self.cells@[k] == blank_cell(bg),
            decreases SCREEN_CELLS - i,
        {
            self.cells.set(i, Cell { ch: 0x20, fg: 7, bg });
            i = i + 1;
        }
        self.cursor_x = 0;
        self.cursor_y = 0;
        assert(self.cells@ =~= Seq::new(SCREEN_CELLS as nat, |k: int| blank_cell(bg)));
    }

    /// The screen size as `(width, height)`.
    pub fn dimensions(&self) -> (r: (usize, usize))
        ensures
            r == (SCREEN_WIDTH, SCREEN_HEIGHT),
    {
        (SCREEN_WIDTH, SCREEN_HEIGHT)
    }

    /// A copy of the cells of row `y`.
    pub fn get_line(&self, y: usize) -> (r: Option<Vec<Cell>>)
        requires
            self.wf(),
        ensures
            r.is_some() == (y < SCREEN_HEIGHT),
            r.is_some() ==> r.unwrap()@ == self@.row(y as int),
    {
        if y >= SCREEN_HEIGHT {
            return None;
        }
        let start = y * SCREEN_WIDTH;
        let mut line: Vec<Cell> = Vec::with_capacity(SCREEN_WIDTH);
        let mut x: usize = 0;
        while x < SCREEN_WIDTH
            invariant
                self.wf(),
                y < SCREEN_HEIGHT,
                start == y * SCREEN_WIDTH,
                x <= SCREEN_WIDTH,
                line@ == self.cells@.subrange(start as int, start + x),
            decreases SCREEN_WIDTH - x,
        {
            line.push(self.cells[start + x]);
            x = x + 1;
            assert(line@ =~= self.cells@.subrange(start as int, start + x));
        }
        Some(line)
    }

    /// Shift every row up by one: row 0 is discarded and the bottom row is
    /// filled with default cells. The cursor does not move.
    pub fn scroll_up(&mut self)
        requires
            old(self).wf(),
        ensures
            final(self).wf(),
            final(self)@ == old(self)@.scrolled(),
    {
        let ghost before = self.cells@;
        assert(before == old(self)@.cells);
        let last_row = SCREEN_CELLS - SCREEN_WIDTH;
        let mut i: usize = 0;
        while i < last_row
            invariant
                last_row == SCREEN_CELLS - SCREEN_WIDTH,
                i <= last_row,
                before.len() == SCREEN_CELLS,
                self.cells@.len() == SCREEN_CELLS,
                self.cursor_x == old(self).cursor_x,
                self.cursor_y == old(self).cursor_y,
                forall|k: int| 0 <= k < i ==> self.cells@[k] == before[k + SCREEN_WIDTH],
                forall|k: int| i <= k < SCREEN_CELLS ==> self.cells@[k] == before[k],
            decreases last_row - i,
        {
            let c = self.cells[i + SCREEN_WIDTH];
            self.cells.set(i, c);
            i = i + 1;
        }
        while i < SCREEN_CELLS
            invariant
                last_row == SCREEN_CELLS - SCREEN_WIDTH,
                last_row <= i <= SCREEN_CELLS,
                before.len() == SCREEN_CELLS,
                self.cells@.len() == SCREEN_CELLS,
                self.cursor_x == old(self).cursor_x,
                self.cursor_y == old(self).cursor_y,
                forall|k: int| 0 <= k < last_row ==> self.cells@[k] == before[k + SCREEN_WIDTH],
                forall|k: int| last_row <= k < i ==> self.cells@[k] == default_cell(),
            decreases SCREEN_CELLS - i,
        {
            self.cells.set(i, Cell::default());
            i = i + 1;
        }
        assert(self.cells@ =~= before.subrange(SCREEN_WIDTH as int, SCREEN_CELLS as int) + Seq::new(
            SCREEN_WIDTH as nat,
            |k: int| default_cell(),
        ));
    }
}

} // verus!
