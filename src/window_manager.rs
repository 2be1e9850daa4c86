//! Rectangular windows over the grid and the registry that stacks them.
use vstd::prelude::*;
use vstd::string::StringSliceAdditionalSpecFns;
use crate::screen::{Cell, Color, Pos, Screen, SCREEN_WIDTH, SCREEN_HEIGHT, SPACE, put_row, fill_rect};

verus! {

/// Corner glyph `+`.
pub const CORNER: u8 = 43;

/// Horizontal edge glyph `-`.
pub const HORIZONTAL: u8 = 45;

/// Vertical edge glyph `|`.
pub const VERTICAL: u8 = 124;

/// Number of slots of a `WindowManager`.
pub const MAX_WINDOWS: usize = 10;

/// A bordered rectangle of the grid with a title, drawn in one color.
#[derive(Clone, Copy, Debug)]
pub struct Window {
    pub x: usize,
    pub y: usize,
    pub width: usize,
    pub height: usize,
    pub title: &'static str,
    pub color: Color,
}

/// The cell `w` paints with glyph `g`.
pub open spec fn window_cell(w: Window, g: u8) -> Cell {
    Cell { glyph: g, fg: w.color, bg: Color::Black }
}

/// Whether `p` lies in the rectangle of `w`, border included.
pub open spec fn in_window(w: Window, p: Pos) -> bool {
    w.x <= p.0 < w.x + w.width && w.y <= p.1 < w.y + w.height
}

/// Whether the title is drawn: only when it fits strictly inside the top edge.
pub open spec fn title_shown(w: Window) -> bool {
    w.title.spec_bytes().len() < w.width - 2
}

/// Column of the title's first byte.
pub open spec fn title_start(w: Window) -> int {
    w.x + (w.width - w.title.spec_bytes().len()) / 2
}

/// The glyph that drawing `w` leaves at `p`, a position of its rectangle.
pub open spec fn window_glyph(w: Window, p: Pos) -> u8 {
    let right = w.x + w.width - 1;
    let bottom = w.y + w.height - 1;
    if (p.0 == w.x || p.0 == right) && (p.1 == w.y || p.1 == bottom) {
        CORNER
    } else if p.1 == w.y {
        if title_shown(w) && title_start(w) <= p.0 < title_start(w) + w.title.spec_bytes().len() {
            w.title.spec_bytes()[p.0 - title_start(w)]
        } else {
            HORIZONTAL
        }
    } else if p.1 == bottom {
        HORIZONTAL
    } else if p.0 == w.x || p.0 == right {
        VERTICAL
    } else {
        SPACE
    }
}

/// The grid after drawing `w` over `g`.
pub open spec fn draw_window(g: Map<Pos, Cell>, w: Window) -> Map<Pos, Cell> {
    Map::new(
        |p: Pos| g.dom().contains(p),
        |p: Pos|
            if in_window(w, p) {
                window_cell(w, window_glyph(w, p))
            } else {
                g[p]
            },
    )
}

/// The grid after `print_at(x_offset, y_offset, text)` on `w`: the bytes go
/// to the interior row `y_offset`, from interior column `x_offset`, and stop
/// at the right border; a row on or past the bottom border writes nothing.
pub open spec fn window_print(
    g: Map<Pos, Cell>,
    w: Window,
    x_offset: int,
    y_offset: int,
    bytes: Seq<u8>,
) -> Map<Pos, Cell> {
    if y_offset < w.height - 2 {
        put_row(
            g,
            w.x + 1 + x_offset,
            w.y + 1 + y_offset,
            w.x + w.width - 1,
            bytes,
            w.color,
            Color::Black,
        )
    } else {
        g
    }
}

/// The grid after blanking the interior of `w`.
pub open spec fn window_clear(g: Map<Pos, Cell>, w: Window) -> Map<Pos, Cell> {
    fill_rect(g, w.x + 1, w.y + 1, w.x + w.width - 1, w.y + w.height - 1, window_cell(w, SPACE))
}

/// `draw_window` restricted to the positions before `(px, py)` in row order.
spec fn draw_prefix(g: Map<Pos, Cell>, w: Window, px: int, py: int) -> Map<Pos, Cell> {
    Map::new(
        |p: Pos| g.dom().contains(p),
        |p: Pos|
            if in_window(w, p) && (p.1 < py || (p.1 == py && p.0 < px)) {
                window_cell(w, window_glyph(w, p))
            } else {
                g[p]
            },
    )
}

impl Window {
    /// The rectangle has room for its border and lies within the grid.
    pub open spec fn wf(&self) -> bool {
        &&& self.width >= 2
        &&& self.height >= 2
        &&& self.x + self.width <= SCREEN_WIDTH
        &&& self.y + self.height <= SCREEN_HEIGHT
    }

    pub fn new(
        x: usize,
        y: usize,
        width: usize,
        height: usize,
        title: &'static str,
        color: Color,
    ) -> (r: Window)
        ensures
            r.x == x,
            r.y == y,
            r.width == width,
            r.height == height,
            r.title == title,
            r.color == color,
    {
        Window { x, y, width, height, title, color }
    }

    /// The glyph of `(px, py)`, a position of the rectangle.
    fn glyph_at(&self, px: usize, py: usize) -> (r: u8)
        requires
            self.wf(),
            in_window(*self, (px as int, py as int)),
        ensures
            r == window_glyph(*self, (px as int, py as int)),
    {
        let right = self.x + self.width - 1;
        let bottom = self.y + self.height - 1;
        if (px == self.x || px == right) && (py == self.y || py == bottom) {
            CORNER
        } else if py == self.y {
            let bytes = self.title.as_bytes();
            let len = bytes.len();
            if len < self.width - 2 {
                let start = self.x + (self.width - len) / 2;
                if start <= px && px - start < len {
                    bytes[px - start]
                } else {
                    HORIZONTAL
                }
            } else {
                HORIZONTAL
            }
        } else if py == bottom {
            HORIZONTAL
        } else if px == self.x || px == right {
            VERTICAL
        } else {
            SPACE
        }
    }

    /// Draws the border, the title centered in the top edge when it fits,
    /// and a blank interior.
    pub fn draw(&self, screen: &mut Screen)
        requires
            self.wf(),
            old(screen).wf(),
        ensures
            final(screen).wf(),
            final(screen)@ == draw_window(old(screen)@, *self),
    {
        let ghost g0 = screen@;
        let mut py: usize = self.y;
        let bottom = self.y + self.height;
        let right = self.x + self.width;
        assert(screen@ =~= draw_prefix(g0, *self, self.x as int, py as int));
        while py < bottom
            invariant
                self.wf(),
                screen.wf(),
                self.y <= py <= bottom,
                bottom == self.y + self.height,
                right == self.x + self.width,
                screen@ == draw_prefix(g0, *self, self.x as int, py as int),
            decreases bottom - py,
        {
            let mut px: usize = self.x;
            while px < right
                invariant
                    self.wf(),
                    screen.wf(),
                    self.y <= py < bottom,
                    self.x <= px <= right,
                    bottom == self.y + self.height,
                    right == self.x + self.width,
                    screen@ == draw_prefix(g0, *self, px as int, py as int),
                decreases right - px,
            {
                let g = self.glyph_at(px, py);
                proof {
                    screen.lemma_domain();
                }
                screen.write_char_at(px, py, g, self.color, Color::Black);
                assert(screen@ =~= draw_prefix(g0, *self, px + 1, py as int));
                px = px + 1;
            }
            assert(screen@ =~= draw_prefix(g0, *self, self.x as int, py + 1));
            py = py + 1;
        }
        assert(screen@ =~= draw_window(g0, *self));
    }

    /// Writes `text` at interior offset `(x_offset, y_offset)`; the text is
    /// cut at the right border, and nothing is written on a row at or past
    /// the bottom border.
    pub fn print_at(&self, screen: &mut Screen, x_offset: usize, y_offset: usize, text: &str)
        requires
            self.wf(),
            old(screen).wf(),
        ensures
            final(screen).wf(),
            final(screen)@ == window_print(
                old(screen)@,
                *self,
                x_offset as int,
                y_offset as int,
                text.spec_bytes(),
            ),
    {
        self.print_bytes(screen, x_offset, y_offset, text.as_bytes());
    }

    /// `print_at` for raw bytes.
    pub fn print_bytes(&self, screen: &mut Screen, x_offset: usize, y_offset: usize, bytes: &[u8])
        requires
            self.wf(),
            old(screen).wf(),
        ensures
            final(screen).wf(),
            final(screen)@ == window_print(
                old(screen)@,
                *self,
                x_offset as int,
                y_offset as int,
                bytes@,
            ),
    {
        if y_offset >= self.height - 2 {
            return;
        }
        let end = self.x + self.width - 1;
        let start_y = self.y + 1 + y_offset;
        if x_offset >= self.width - 2 {
            let ghost g0 = screen@;
            assert(g0 =~= put_row(
                g0,
                self.x + 1 + x_offset,
                start_y as int,
                end as int,
                bytes@,
                self.color,
                Color::Black,
            ));
            return;
        }
        screen.write_row(self.x + 1 + x_offset, start_y, end, bytes, self.color, Color::Black);
    }

    /// Blanks the interior, leaving the border.
    pub fn clear(&self, screen: &mut Screen)
        requires
            self.wf(),
            old(screen).wf(),
        ensures
            final(screen).wf(),
            final(screen)@ == window_clear(old(screen)@, *self),
    {
        screen.fill(
            self.x + 1,
            self.y + 1,
            self.x + self.width - 1,
            self.y + self.height - 1,
            Cell { glyph: SPACE, fg: self.color, bg: Color::Black },
        );
    }
}

} // verus!

verus! {

/// Whether `(new, r)` is the outcome of adding `w` to the slots `old`: the
/// first free slot takes `w` and its index is returned; with no free slot
/// nothing changes and `None` is returned.
pub open spec fn add_result(
    old: Seq<Option<Window>>,
    w: Window,
    new: Seq<Option<Window>>,
    r: Option<usize>,
) -> bool {
    match r {
        Some(i) => {
            &&& i < old.len()
            &&& old[i as int] is None
            &&& forall|j: int| 0 <= j < i ==> (#[trigger] old[j]) is Some
            &&& new == old.update(i as int, Some(w))
        },
        None => {
            &&& forall|j: int| 0 <= j < old.len() ==> (#[trigger] old[j]) is Some
            &&& new == old
        },
    }
}

/// The grid after drawing, in slot order, every occupied slot of `ws[..n]`
/// but `active`.
pub open spec fn draw_others(
    g: Map<Pos, Cell>,
    ws: Seq<Option<Window>>,
    active: int,
    n: int,
) -> Map<Pos, Cell>
    decreases n,
{
    if n <= 0 {
        g
    } else {
        let prev = draw_others(g, ws, active, n - 1);
        if n - 1 != active && ws[n - 1] is Some {
            draw_window(prev, ws[n - 1]->Some_0)
        } else {
            prev
        }
    }
}

/// The grid after drawing every window of `ws`, the active one last.
pub open spec fn draw_stack(g: Map<Pos, Cell>, ws: Seq<Option<Window>>, active: int) -> Map<
    Pos,
    Cell,
> {
    let others = draw_others(g, ws, active, ws.len() as int);
    if 0 <= active < ws.len() && ws[active] is Some {
        draw_window(others, ws[active]->Some_0)
    } else {
        others
    }
}

/// A fixed-capacity registry of windows with one active slot.
pub struct WindowManager {
    windows: Vec<Option<Window>>,
    active_window: usize,
}

impl WindowManager {
    /// The slots, indexed by window id.
    pub closed spec fn slots(&self) -> Seq<Option<Window>> {
        self.windows@
    }

    /// The active slot.
    pub closed spec fn active(&self) -> int {
        self.active_window as int
    }

    /// Ten slots, the active one among them, and every stored window
    /// within the grid.
    pub open spec fn wf(&self) -> bool {
        &&& self.slots().len() == MAX_WINDOWS
        &&& 0 <= self.active() < MAX_WINDOWS
        &&& forall|i: int|
            0 <= i < MAX_WINDOWS && (#[trigger] self.slots()[i]) is Some ==> self.slots()[i]->Some_0.wf()
    }

    pub fn new() -> (r: WindowManager)
        ensures
            r.wf(),
            r.slots() == Seq::new(MAX_WINDOWS as nat, |i: int| None::<Window>),
            r.active() == 0,
    {
        let r = WindowManager { windows: vec![None; 10], active_window: 0 };
        assert(r.slots() =~= Seq::new(MAX_WINDOWS as nat, |i: int| None::<Window>));
        r
    }

    /// Stores `window` in the first free slot and returns its index, or
    /// `None` when all ten slots are taken.
    pub fn add_window(&mut self, window: Window) -> (r: Option<usize>)
        requires
            old(self).wf(),
            window.wf(),
        ensures
            final(self).wf(),
            add_result(old(self).slots(), window, final(self).slots(), r),
            final(self).active() == old(self).active(),
    {
        let mut i: usize = 0;
        while i < self.windows.len()
            invariant
                self.wf(),
                window.wf(),
                self.slots() == old(self).slots(),
                self.active() == old(self).active(),
                i <= self.slots().len(),
                forall|j: int| 0 <= j < i ==> (#[trigger] self.slots()[j]) is Some,
            decreases self.slots().len() - i,
        {
            if self.windows[i].is_none() {
                self.windows.set(i, Some(window));
                assert forall|j: int|
                    0 <= j < MAX_WINDOWS && (#[trigger] self.slots()[j]) is Some implies self.slots()[j]->Some_0.wf() by {
                    if j != i {
                        assert(self.slots()[j] == old(self).slots()[j]);
                        assert(old(self).slots()[j]->Some_0.wf());
                    } else {
                        assert(self.slots()[j] == Some(window));
                    }
                }
                return Some(i);
            }
            i = i + 1;
        }
        None
    }

    /// The window of slot `id`, if that slot exists and is occupied.
    pub fn get_window(&self, id: usize) -> (r: Option<Window>)
        requires
            self.wf(),
        ensures
            r == (if id < MAX_WINDOWS { self.slots()[id as int] } else { None }),
            r matches Some(w) ==> w.wf(),
    {
        if id < self.windows.len() {
            self.windows[id]
        } else {
            None
        }
    }

    /// The active slot.
    pub fn active_window(&self) -> (r: usize)
        ensures
            r == self.active(),
    {
        self.active_window
    }

    /// Makes slot `id` active when it holds a window; otherwise does nothing.
    pub fn set_active_window(&mut self, id: usize)
        requires
            old(self).wf(),
        ensures
            final(self).wf(),
            final(self).slots() == old(self).slots(),
            final(self).active() == (if id < MAX_WINDOWS && old(self).slots()[id as int] is Some {
                id as int
            } else {
                old(self).active()
            }),
    {
        if id < self.windows.len() && self.windows[id].is_some() {
            self.active_window = id;
        }
    }

    /// Draws every window, the active one last so that nothing covers it.
    pub fn draw_all(&self, screen: &mut Screen)
        requires
            self.wf(),
            old(screen).wf(),
        ensures
            final(screen).wf(),
            final(screen)@ == draw_stack(old(screen)@, self.slots(), self.active()),
    {
        let ghost g0 = screen@;
        let active = self.active_window;
        let mut i: usize = 0;
        while i < self.windows.len()
            invariant
                self.wf(),
                screen.wf(),
                active == self.active(),
                i <= MAX_WINDOWS,
                screen@ == draw_others(g0, self.slots(), active as int, i as int),
            decreases MAX_WINDOWS - i,
        {
            if i != active {
                if let Some(w) = self.windows[i] {
                    w.draw(screen);
                }
            }
            i = i + 1;
        }
        if let Some(w) = self.windows[active] {
            w.draw(screen);
        }
    }
}

/// Whatever the order in which windows were added, after `draw_all` every
/// cell of the active window, its whole border included, shows what that
/// window draws there.
pub proof fn lemma_active_window_on_top(g: Map<Pos, Cell>, ws: Seq<Option<Window>>, active: int)
    requires
        0 <= active < ws.len(),
        ws[active] is Some,
    ensures
        forall|p: Pos|
            g.dom().contains(p) && in_window(ws[active]->Some_0, p) ==> #[trigger] draw_stack(
                g,
                ws,
                active,
            )[p] == window_cell(ws[active]->Some_0, window_glyph(ws[active]->Some_0, p)),
{
    lemma_draw_others_domain(g, ws, active, ws.len() as int);
}

proof fn lemma_draw_others_domain(g: Map<Pos, Cell>, ws: Seq<Option<Window>>, active: int, n: int)
    requires
        n <= ws.len(),
    ensures
        draw_others(g, ws, active, n).dom() == g.dom(),
    decreases n,
{
    if n > 0 {
        lemma_draw_others_domain(g, ws, active, n - 1);
        let prev = draw_others(g, ws, active, n - 1);
        if n - 1 != active && ws[n - 1] is Some {
            assert(draw_window(prev, ws[n - 1]->Some_0).dom() =~= prev.dom());
        }
    }
}

/// On an empty registry, ten adds in a row return the ids 0 to 9 in order, an
/// eleventh add fails and changes nothing, and each of the first ten windows
/// stays in the slot it was given.
pub proof fn lemma_ten_windows_fill_registry(
    regs: Seq<Seq<Option<Window>>>,
    ws: Seq<Window>,
    ids: Seq<Option<usize>>,
)
    requires
        ws.len() == 11,
        ids.len() == 11,
        regs.len() == 12,
        regs[0] == Seq::new(MAX_WINDOWS as nat, |i: int| None::<Window>),
        forall|k: int| 0 <= k < 11 ==> add_result(regs[k], ws[k], regs[k + 1], #[trigger] ids[k]),
    ensures
        forall|k: int| 0 <= k < 10 ==> #[trigger] ids[k] == Some(k as usize),
        ids[10] is None,
        regs[11] == regs[10],
        forall|j: int| 0 <= j < 10 ==> #[trigger] regs[11][j] == Some(ws[j]),
{
    lemma_registry_prefix(regs, ws, ids, 10);
    assert(add_result(regs[10], ws[10], regs[11], ids[10]));
    if ids[10] is Some {
        let i = ids[10]->Some_0 as int;
        assert(regs[10][i] == Some(ws[i]));
    }
}

proof fn lemma_registry_prefix(
    regs: Seq<Seq<Option<Window>>>,
    ws: Seq<Window>,
    ids: Seq<Option<usize>>,
    k: int,
)
    requires
        0 <= k <= 10,
        ws.len() == 11,
        ids.len() == 11,
        regs.len() == 12,
        regs[0] == Seq::new(MAX_WINDOWS as nat, |i: int| None::<Window>),
        forall|m: int| 0 <= m < 11 ==> add_result(regs[m], ws[m], regs[m + 1], #[trigger] ids[m]),
    ensures
        regs[k].len() == 10,
        forall|j: int| 0 <= j < k ==> #[trigger] regs[k][j] == Some(ws[j]),
        forall|j: int| k <= j < 10 ==> #[trigger] regs[k][j] is None,
        forall|m: int| 0 <= m < k ==> #[trigger] ids[m] == Some(m as usize),
    decreases k,
{
    if k > 0 {
        let p = k - 1;
        lemma_registry_prefix(regs, ws, ids, p);
        assert(add_result(regs[p], ws[p], regs[p + 1], ids[p]));
        assert(regs[p][p] is None);
        if ids[p] is Some {
            let i = ids[p]->Some_0 as int;
            if i < p {
                assert(regs[p][i] == Some(ws[i]));
            } else if i > p {
                assert(regs[p][p] is Some);
            }
        }
    }
}

} // verus!
