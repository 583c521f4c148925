//! The fixed-size board: a walled rectangle of cells, with the decay of
//! snake segments and the projection of the board to printable glyphs.

use vstd::prelude::*;
use crate::cell::{blank_spec, drawable, symbol, GameObj, ObjType, SegmentDir};

verus! {

/// Number of columns of the board, walls included.
pub const WIDTH: usize = 40;

/// Number of rows of the board, walls included.
pub const HEIGHT: usize = 30;

/// Whether (r, c) lies on the board.
pub open spec fn in_grid(r: int, c: int) -> bool {
    0 <= r < HEIGHT && 0 <= c < WIDTH
}

/// Whether (r, c) lies strictly inside the wall ring.
pub open spec fn in_interior(r: int, c: int) -> bool {
    1 <= r <= HEIGHT - 2 && 1 <= c <= WIDTH - 2
}

/// Whether (r, c) lies on the wall ring.
pub open spec fn on_boundary(r: int, c: int) -> bool {
    in_grid(r, c) && (r == 0 || r == HEIGHT - 1 || c == 0 || c == WIDTH - 1)
}

/// The wall orientation at a point of the ring: each corner turns the way the
/// wall goes when traced clockwise, the rest follow their edge.
pub open spec fn boundary_dir(r: int, c: int) -> SegmentDir {
    if r == 0 && c == 0 {
        SegmentDir::ES
    } else if r == 0 && c == WIDTH - 1 {
        SegmentDir::SW
    } else if r == HEIGHT - 1 && c == WIDTH - 1 {
        SegmentDir::WN
    } else if r == HEIGHT - 1 && c == 0 {
        SegmentDir::NE
    } else if r == 0 || r == HEIGHT - 1 {
        SegmentDir::EW
    } else {
        SegmentDir::NS
    }
}

/// The permanent wall cell that belongs at a point of the ring.
pub open spec fn boundary_cell(r: int, c: int) -> GameObj {
    GameObj { obj_type: ObjType::Wall, duration: None, direction: Some(boundary_dir(r, c)) }
}

/// A cell after one tick of decay: a lifetime of one or less runs out and
/// leaves the cell empty; a longer one drops by one; permanent cells stay.
pub open spec fn aged(c: GameObj) -> GameObj {
    match c.duration {
        Some(d) => if d <= 1 {
            blank_spec()
        } else {
            GameObj { duration: Some((d - 1) as u16), ..c }
        },
        None => c,
    }
}

/// One tick of decay: a lifetime of 1 runs out and empties the cell; a
/// longer lifetime drops by exactly one and the occupant stays; a cell
/// without a lifetime is untouched.
pub proof fn aging_step(c: GameObj)
    ensures
        c.duration == Some(1u16) ==> aged(c) == blank_spec(),
        c.duration.is_some() && c.duration.unwrap() > 1 ==> aged(c).obj_type == c.obj_type
            && aged(c).duration == Some((c.duration.unwrap() - 1) as u16),
        c.duration.is_none() ==> aged(c) == c,
{
}

/// The glyphs of a drawing, row by row.
pub open spec fn glyph_rows(buf: Seq<Vec<&'static str>>) -> Seq<Seq<Seq<char>>> {
    buf.map_values(|row: Vec<&'static str>| row@.map_values(|s: &'static str| s@))
}

/// `buf` has one row per board row, one entry per column, each the glyph of
/// its cell.
pub open spec fn shows(buf: Seq<Vec<&'static str>>, grid: Grid) -> bool {
    &&& buf.len() == HEIGHT
    &&& forall|r: int| 0 <= r < HEIGHT ==> (#[trigger] buf[r])@.len() == WIDTH
    &&& forall|r: int, c: int| in_grid(r, c) ==> (#[trigger] buf[r]@[c])@ == symbol(grid.at(r, c))
}

/// Drawing depends on the board alone: two drawings of one board hold the
/// same glyphs in the same places.
pub proof fn drawing_is_repeatable(grid: Grid, a: Seq<Vec<&'static str>>, b: Seq<Vec<&'static str>>)
    requires
        shows(a, grid),
        shows(b, grid),
    ensures
        glyph_rows(a) == glyph_rows(b),
{
    assert forall|r: int| 0 <= r < HEIGHT implies #[trigger] glyph_rows(a)[r] == glyph_rows(b)[r] by {
        assert(glyph_rows(a)[r] =~= glyph_rows(b)[r]);
    }
    assert(glyph_rows(a) =~= glyph_rows(b));
}

/// The board, stored row by row.
pub struct Grid {
    cells: Vec<GameObj>,
}

impl Grid {
    /// The board holds exactly one cell per position.
    pub closed spec fn wf(&self) -> bool {
        self.cells@.len() == WIDTH * HEIGHT
    }

    /// The cell at row `r`, column `c`.
    pub closed spec fn at(&self, r: int, c: int) -> GameObj {
        self.cells@[r * WIDTH + c]
    }

    /// Every cell of the board is drawable.
    pub open spec fn all_drawable(&self) -> bool {
        forall|r: int, c: int| in_grid(r, c) ==> #[trigger] drawable(self.at(r, c))
    }

    /// The wall ring is in place, with its oriented glyphs.
    pub open spec fn walled(&self) -> bool {
        forall|r: int, c: int| on_boundary(r, c) ==> #[trigger] self.at(r, c) == boundary_cell(r, c)
    }

    /// A board on which every cell is `obj`.
    pub fn filled(obj: GameObj) -> (g: Grid)
        ensures
            g.wf(),
            forall|r: int, c: int| in_grid(r, c) ==> #[trigger] g.at(r, c) == obj,
    {
        let mut cells: Vec<GameObj> = Vec::new();
        let n: usize = WIDTH * HEIGHT;
        let mut k: usize = 0;
        while k < n
            invariant
                n == WIDTH * HEIGHT,
                k <= n,
                cells@.len() == k,
                forall|i: int| 0 <= i < k ==> cells@[i] == obj,
            decreases n - k,
        {
            cells.push(obj);
            k = k + 1;
        }
        let g = Grid { cells };
        assert forall|r: int, c: int| in_grid(r, c) implies #[trigger] g.at(r, c) == obj by {
            assert(0 <= r * WIDTH + c < WIDTH * HEIGHT);
        }
        g
    }

    /// The cell at row `row`, column `col`.
    pub fn get(&self, row: usize, col: usize) -> (r: GameObj)
        requires
            self.wf(),
            in_grid(row as int, col as int),
        ensures
            r == self.at(row as int, col as int),
    {
        self.cells[row * WIDTH + col]
    }

    /// Puts `obj` at row `row`, column `col`, leaving every other cell as it was.
    pub fn set(&mut self, row: usize, col: usize, obj: GameObj)
        requires
            old(self).wf(),
            in_grid(row as int, col as int),
        ensures
            final(self).wf(),
            final(self).at(row as int, col as int) == obj,
            forall|r: int, c: int|
                in_grid(r, c) && !(r == row && c == col) ==> #[trigger] final(self).at(r, c)
                    == old(self).at(r, c),
    {
        let ghost before = self.cells@;
        self.cells.set(row * WIDTH + col, obj);
        assert forall|r: int, c: int|
            in_grid(r, c) && !(r == row && c == col) implies #[trigger] self.at(r, c)
                == before[r * WIDTH + c] by {
            assert(r * WIDTH + c != row * WIDTH + col);
        }
    }
}

/// Lays the wall ring around the board, each edge and corner with its
/// orientation, and leaves the interior as it was.
pub fn build_boundary(grid: &mut Grid)
    requires
        old(grid).wf(),
    ensures
        final(grid).wf(),
        final(grid).walled(),
        forall|r: int, c: int|
            in_grid(r, c) && !on_boundary(r, c) ==> #[trigger] final(grid).at(r, c) == old(
                grid,
            ).at(r, c),
{
    let ghost start = *grid;
    let h_wall = GameObj::permanent(ObjType::Wall, Some(SegmentDir::EW));
    let mut i: usize = 0;
    while i < WIDTH
        invariant
            i <= WIDTH,
            grid.wf(),
            h_wall == boundary_cell(0, 1),
            forall|r: int, c: int|
                in_grid(r, c) ==> #[trigger] grid.at(r, c) == if (r == 0 || r == HEIGHT - 1) && c
                    < i {
                    h_wall
                } else {
                    start.at(r, c)
                },
        decreases WIDTH - i,
    {
        grid.set(0, i, h_wall);
        grid.set(HEIGHT - 1, i, h_wall);
        i = i + 1;
    }
    let v_wall = GameObj::permanent(ObjType::Wall, Some(SegmentDir::NS));
    let mut j: usize = 0;
    while j < HEIGHT
        invariant
            j <= HEIGHT,
            grid.wf(),
            h_wall == boundary_cell(0, 1),
            v_wall == boundary_cell(1, 0),
            forall|r: int, c: int|
                in_grid(r, c) ==> #[trigger] grid.at(r, c) == if (c == 0 || c == WIDTH - 1) && r
                    < j {
                    v_wall
                } else if r == 0 || r == HEIGHT - 1 {
                    h_wall
                } else {
                    start.at(r, c)
                },
        decreases HEIGHT - j,
    {
        grid.set(j, 0, v_wall);
        grid.set(j, WIDTH - 1, v_wall);
        j = j + 1;
    }
    grid.set(0, 0, GameObj::permanent(ObjType::Wall, Some(SegmentDir::ES)));
    grid.set(0, WIDTH - 1, GameObj::permanent(ObjType::Wall, Some(SegmentDir::SW)));
    grid.set(HEIGHT - 1, WIDTH - 1, GameObj::permanent(ObjType::Wall, Some(SegmentDir::WN)));
    grid.set(HEIGHT - 1, 0, GameObj::permanent(ObjType::Wall, Some(SegmentDir::NE)));
}

/// Ages every cell of the board by one tick (see `aged`).
pub fn update_durations(grid: &mut Grid)
    requires
        old(grid).wf(),
    ensures
        final(grid).wf(),
        forall|r: int, c: int|
            in_grid(r, c) ==> #[trigger] final(grid).at(r, c) == aged(old(grid).at(r, c)),
{
    let ghost start = *grid;
    let mut j: usize = 0;
    while j < HEIGHT
        invariant
            j <= HEIGHT,
            grid.wf(),
            forall|r: int, c: int|
                in_grid(r, c) ==> #[trigger] grid.at(r, c) == if r < j {
                    aged(start.at(r, c))
                } else {
                    start.at(r, c)
                },
        decreases HEIGHT - j,
    {
        let mut i: usize = 0;
        while i < WIDTH
            invariant
                i <= WIDTH,
                j < HEIGHT,
                grid.wf(),
                forall|r: int, c: int|
                    in_grid(r, c) ==> #[trigger] grid.at(r, c) == if r < j || (r == j && c < i) {
                        aged(start.at(r, c))
                    } else {
                        start.at(r, c)
                    },
            decreases WIDTH - i,
        {
            let cur = grid.get(j, i);
            if let Some(dur) = cur.duration {
                if dur <= 1 {
                    grid.set(j, i, GameObj::blank());
                } else {
                    grid.set(j, i, GameObj { duration: Some(dur - 1), ..cur });
                }
            }
            i = i + 1;
        }
        j = j + 1;
    }
}

/// The glyph of every cell, row by row.
pub fn draw_buffer(grid: &Grid) -> (buf: Vec<Vec<&'static str>>)
    requires
        grid.wf(),
        grid.all_drawable(),
    ensures
        shows(buf@, *grid),
{
    let mut buf: Vec<Vec<&'static str>> = Vec::new();
    let mut j: usize = 0;
    while j < HEIGHT
        invariant
            j <= HEIGHT,
            grid.wf(),
            grid.all_drawable(),
            buf@.len() == j,
            forall|r: int| 0 <= r < j ==> (#[trigger] buf@[r])@.len() == WIDTH,
            forall|r: int, c: int|
                0 <= r < j && 0 <= c < WIDTH ==> (#[trigger] buf@[r]@[c])@ == symbol(grid.at(r, c)),
        decreases HEIGHT - j,
    {
        let mut row: Vec<&'static str> = Vec::new();
        let mut i: usize = 0;
        while i < WIDTH
            invariant
                i <= WIDTH,
                j < HEIGHT,
                grid.wf(),
                grid.all_drawable(),
                row@.len() == i,
                forall|c: int| 0 <= c < i ==> (#[trigger] row@[c])@ == symbol(grid.at(j as int, c)),
            decreases WIDTH - i,
        {
            let cell = grid.get(j, i);
            row.push(cell.get_symbol());
            i = i + 1;
        }
        buf.push(row);
        j = j + 1;
    }
    buf
}

} // verus!
