//! The character grid that every component draws into.
use vstd::prelude::*;

verus! {

/// The blank glyph.
pub const SPACE: u8 = 32;

/// Number of columns of the grid.
pub const SCREEN_WIDTH: usize = 80;

/// Number of rows of the grid.
pub const SCREEN_HEIGHT: usize = 25;

/// The sixteen text-mode colors.
#[derive(Clone, Copy, Debug, PartialEq, Eq, Structural)]
pub enum Color {
    Black,
    Blue,
    Green,
    Cyan,
    Red,
    Magenta,
    Brown,
    LightGray,
    DarkGray,
    LightBlue,
    LightGreen,
    LightCyan,
    LightRed,
    Pink,
    Yellow,
    White,
}

/// One cell of the grid: a glyph byte with its foreground and background.
#[derive(Clone, Copy, Debug, PartialEq, Eq, Structural)]
pub struct Cell {
    pub glyph: u8,
    pub fg: Color,
    pub bg: Color,
}

/// Grid coordinates, column first.
pub type Pos = (int, int);

pub open spec fn in_grid(p: Pos) -> bool {
    0 <= p.0 < SCREEN_WIDTH && 0 <= p.1 < SCREEN_HEIGHT
}

/// The cell that a cleared grid holds everywhere.
pub open spec fn blank_cell() -> Cell {
    Cell { glyph: 32u8, fg: Color::LightGray, bg: Color::Black }
}

/// A grid in which every cell is `blank_cell()`.
pub open spec fn blank_grid() -> Map<Pos, Cell> {
    Map::new(|p: Pos| in_grid(p), |p: Pos| blank_cell())
}

/// The grid after writing `c` at `(x, y)`; a position off the grid changes nothing.
pub open spec fn put_cell(g: Map<Pos, Cell>, x: int, y: int, c: Cell) -> Map<Pos, Cell> {
    if in_grid((x, y)) {
        g.insert((x, y), c)
    } else {
        g
    }
}

/// The grid after writing `bytes[k]` at `(x + k, y)` for each `k` with
/// `x + k < end`, all in colors `fg` on `bg`.
pub open spec fn put_row(
    g: Map<Pos, Cell>,
    x: int,
    y: int,
    end: int,
    bytes: Seq<u8>,
    fg: Color,
    bg: Color,
) -> Map<Pos, Cell> {
    Map::new(
        |p: Pos| g.dom().contains(p),
        |p: Pos|
            if p.1 == y && x <= p.0 < end && p.0 - x < bytes.len() {
                Cell { glyph: bytes[p.0 - x], fg, bg }
            } else {
                g[p]
            },
    )
}

/// The grid after setting every cell of the rectangle `[x0, x1) x [y0, y1)`
/// to `c`.
pub open spec fn fill_rect(g: Map<Pos, Cell>, x0: int, y0: int, x1: int, y1: int, c: Cell) -> Map<
    Pos,
    Cell,
> {
    Map::new(
        |p: Pos| g.dom().contains(p),
        |p: Pos|
            if x0 <= p.0 < x1 && y0 <= p.1 < y1 {
                c
            } else {
                g[p]
            },
    )
}

/// The 80x25 grid of character cells, stored row by row.
pub struct Screen {
    cells: Vec<Cell>,
}

impl View for Screen {
    type V = Map<Pos, Cell>;

    closed spec fn view(&self) -> Map<Pos, Cell> {
        Map::new(|p: Pos| in_grid(p), |p: Pos| self.cells@[p.1 * 80 + p.0])
    }
}

impl Screen {
    pub closed spec fn wf(&self) -> bool {
        self.cells@.len() == SCREEN_WIDTH * SCREEN_HEIGHT
    }

    /// The grid is defined exactly on the 80x25 positions.
    pub proof fn lemma_domain(&self)
        ensures
            forall|p: Pos| #[trigger] self@.dom().contains(p) <==> in_grid(p),
    {
    }

    /// A grid of blank cells.
    pub fn new() -> (r: Screen)
        ensures
            r.wf(),
            r@ == blank_grid(),
    {
        let cells = vec![Cell { glyph: SPACE, fg: Color::LightGray, bg: Color::Black }; 2000];
        let r = Screen { cells };
        assert(r@ =~= blank_grid());
        r
    }

    /// The cell at `(x, y)`.
    pub fn cell_at(&self, x: usize, y: usize) -> (r: Cell)
        requires
            self.wf(),
            x < SCREEN_WIDTH,
            y < SCREEN_HEIGHT,
        ensures
            r == self@[(x as int, y as int)],
    {
        self.cells[y * 80 + x]
    }

    /// Writes one glyph at `(x, y)` in the given colors; a position off the
    /// grid is ignored.
    pub fn write_char_at(&mut self, x: usize, y: usize, glyph: u8, fg: Color, bg: Color)
        requires
            old(self).wf(),
        ensures
            final(self).wf(),
            final(self)@ == put_cell(old(self)@, x as int, y as int, Cell { glyph, fg, bg }),
    {
        if x < SCREEN_WIDTH && y < SCREEN_HEIGHT {
            let ghost before = self@;
            self.cells.set(y * 80 + x, Cell { glyph, fg, bg });
            assert(self@ =~= before.insert((x as int, y as int), Cell { glyph, fg, bg }));
        }
    }

    /// Sets every cell to a blank.
    pub fn clear_screen(&mut self)
        requires
            old(self).wf(),
        ensures
            final(self).wf(),
            final(self)@ == blank_grid(),
    {
        let mut i: usize = 0;
        while i < 2000
            invariant
                0 <= i <= 2000,
                self.cells@.len() == 2000,
                forall|j: int| 0 <= j < i ==> self.cells@[j] == blank_cell(),
            decreases 2000 - i,
        {
            self.cells.set(i, Cell { glyph: SPACE, fg: Color::LightGray, bg: Color::Black });
            i = i + 1;
        }
        assert(self@ =~= blank_grid());
    }
    /// Writes `bytes[k]` at `(x + k, y)` for each `k` with `x + k < end`;
    /// positions off the grid are skipped.
    pub fn write_row(&mut self, x: usize, y: usize, end: usize, bytes: &[u8], fg: Color, bg: Color)
        requires
            old(self).wf(),
        ensures
            final(self).wf(),
            final(self)@ == put_row(old(self)@, x as int, y as int, end as int, bytes@, fg, bg),
    {
        let ghost g0 = self@;
        if x < end {
            let mut k: usize = 0;
            while k < bytes.len() && k < end - x
                invariant
                    self.wf(),
                    x < end,
                    k <= bytes.len(),
                    k <= end - x,
                    self@ == put_row(g0, x as int, y as int, x + k, bytes@, fg, bg),
                decreases bytes.len() - k,
            {
                let ghost before = self@;
                self.write_char_at(x + k, y, bytes[k], fg, bg);
                assert(self@ =~= put_row(g0, x as int, y as int, x + k + 1, bytes@, fg, bg));
                k = k + 1;
            }
            assert(self@ =~= put_row(g0, x as int, y as int, end as int, bytes@, fg, bg));
        } else {
            assert(self@ =~= put_row(g0, x as int, y as int, end as int, bytes@, fg, bg));
        }
    }

    /// Sets every cell of the rectangle `[x0, x1) x [y0, y1)` to `c`;
    /// positions off the grid are skipped.
    pub fn fill(&mut self, x0: usize, y0: usize, x1: usize, y1: usize, c: Cell)
        requires
            old(self).wf(),
        ensures
            final(self).wf(),
            final(self)@ == fill_rect(old(self)@, x0 as int, y0 as int, x1 as int, y1 as int, c),
    {
        let ghost g0 = self@;
        let mut y: usize = y0;
        if y0 >= y1 || x0 >= x1 {
            assert(self@ =~= fill_rect(g0, x0 as int, y0 as int, x1 as int, y1 as int, c));
            return;
        }
        while y < y1
            invariant
                self.wf(),
                y0 <= y <= y1,
                x0 < x1,
                self@ == fill_rect(g0, x0 as int, y0 as int, x1 as int, y as int, c),
            decreases y1 - y,
        {
            let mut x: usize = x0;
            while x < x1
                invariant
                    self.wf(),
                    y0 <= y < y1,
                    x0 <= x <= x1,
                    self@ == fill_rect(
                        fill_rect(g0, x0 as int, y0 as int, x1 as int, y as int, c),
                        x0 as int,
                        y as int,
                        x as int,
                        y + 1,
                        c,
                    ),
                decreases x1 - x,
            {
                self.write_char_at(x, y, c.glyph, c.fg, c.bg);
                assert(self@ =~= fill_rect(
                    fill_rect(g0, x0 as int, y0 as int, x1 as int, y as int, c),
                    x0 as int,
                    y as int,
                    x + 1,
                    y + 1,
                    c,
                ));
                x = x + 1;
            }
            assert(self@ =~= fill_rect(g0, x0 as int, y0 as int, x1 as int, y + 1, c));
            y = y + 1;
        }
    }
}

} // verus!
