//! The game state and the rules of one tick: steering, moving, eating,
//! growing, colliding and the decay of the tail.

use vstd::prelude::*;
use rand::Rng;
use crate::cell::{blank_spec, drawable, GameObj, ObjType, SegmentDir};
use crate::grid::{
    aged, boundary_cell, build_boundary, in_grid, in_interior, on_boundary, update_durations,
    Grid, HEIGHT, WIDTH,
};
use crate::movement::{get_direction, next_head_position, resolved_direction, step_to, MoveDir};

verus! {

/// Pause between two ticks, in milliseconds.
pub const FRAME_DELAY_MS: u64 = 100;

/// Length of the snake when a game starts.
pub const STARTING_LENGTH: u16 = 5;

/// The cell written at the head: a snake segment that lives `len` ticks.
pub open spec fn head_cell(len: u16) -> GameObj {
    GameObj { obj_type: ObjType::Snake, duration: Some(len), direction: Some(SegmentDir::NS) }
}

/// A food pellet.
pub open spec fn food_cell() -> GameObj {
    GameObj { obj_type: ObjType::Food, duration: None, direction: None }
}

/// The cell at (r, c) of the starting board, for a pellet at column
/// `pellet.0`, row `pellet.1`: the pellet, else the head at the centre, else
/// the wall ring, else empty.
pub open spec fn start_cell(pellet: (u16, u16), r: int, c: int) -> GameObj {
    if r == pellet.1 && c == pellet.0 {
        food_cell()
    } else if r == HEIGHT / 2 && c == WIDTH / 2 {
        head_cell(STARTING_LENGTH)
    } else if on_boundary(r, c) {
        boundary_cell(r, c)
    } else {
        blank_spec()
    }
}

/// The board a game starts on, with the pellet at column `starting_pellet.0`,
/// row `starting_pellet.1`.
pub fn starting_position(starting_pellet: &(u16, u16)) -> (grid: Grid)
    requires
        in_grid(starting_pellet.1 as int, starting_pellet.0 as int),
    ensures
        grid.wf(),
        forall|r: int, c: int|
            in_grid(r, c) ==> #[trigger] grid.at(r, c) == start_cell(*starting_pellet, r, c),
{
    let mut grid = Grid::filled(GameObj::blank());
    build_boundary(&mut grid);
    grid.set(
        HEIGHT / 2,
        WIDTH / 2,
        GameObj {
            obj_type: ObjType::Snake,
            direction: Some(SegmentDir::NS),
            duration: Some(STARTING_LENGTH),
        },
    );
    grid.set(
        starting_pellet.1 as usize,
        starting_pellet.0 as usize,
        GameObj::permanent(ObjType::Food, None),
    );
    grid
}

/// Relies on rand's `thread_rng().gen_range(low, high)`: a value drawn from
/// `[low, high)`; it panics when `low >= high`, which `requires` rules out.
#[verifier::external_body]
fn random_in(low: u16, high: u16) -> (r: u16)
    requires
        low < high,
    ensures
        low <= r < high,
{
    rand::thread_rng().gen_range(low, high)
}

/// A random place for a pellet inside the wall ring, as (column, row).
pub fn random_pellet() -> (p: (u16, u16))
    ensures
        in_interior(p.1 as int, p.0 as int),
{
    let x = random_in(1, WIDTH as u16 - 1);
    let y = random_in(1, HEIGHT as u16 - 1);
    (x, y)
}

/// How a tick ended.
#[derive(Clone, Copy, Debug, PartialEq, Eq, Structural)]
pub enum TickOutcome {
    /// The snake moved and the game goes on.
    Running,
    /// The snake ran into itself; the game is over.
    Collided,
    /// The player asked to quit.
    Quit,
}

/// Everything that changes from tick to tick.
pub struct Game {
    pub grid: Grid,
    /// Row and column of the head.
    pub head_pos: (usize, usize),
    pub head_dir: MoveDir,
    pub score: u64,
    pub snake_length: u16,
}

impl Game {
    /// The board is walled, every cell drawable, and the head inside.
    pub open spec fn wf(&self) -> bool {
        &&& self.grid.wf()
        &&& self.grid.walled()
        &&& self.grid.all_drawable()
        &&& in_interior(self.head_pos.0 as int, self.head_pos.1 as int)
    }
}

/// One tick from `g0` to `g1` with outcome `out`, for the keys `keys` pressed
/// since the last tick and the pellet that is placed if food is eaten
/// (column `pellet.0`, row `pellet.1`).
///
/// Quitting or a collision leaves the game as it was. Otherwise the head moves
/// one step; eating adds the current length to the score (saturating), grows
/// the snake by one (saturating) and places the new pellet; every cell ages;
/// and the new head gets the current length as its lifetime.
pub open spec fn stepped(g0: Game, keys: Seq<u8>, pellet: (u16, u16), g1: Game, out: TickOutcome) -> bool {
    match resolved_direction(g0.head_dir, keys) {
        None => out == TickOutcome::Quit && g1 == g0,
        Some(dir) => {
            let next = step_to((g0.head_pos.0 as int, g0.head_pos.1 as int), dir);
            let target = g0.grid.at(next.0, next.1);
            if target.obj_type == ObjType::Snake {
                out == TickOutcome::Collided && g1 == g0
            } else {
                let ate = target.obj_type == ObjType::Food;
                let len = if ate {
                    g0.snake_length.saturating_add(1)
                } else {
                    g0.snake_length
                };
                &&& out == TickOutcome::Running
                &&& g1.head_pos == (next.0 as usize, next.1 as usize)
                &&& g1.head_dir == dir
                &&& g1.score == if ate {
                    g0.score.saturating_add(g0.snake_length as u64)
                } else {
                    g0.score
                }
                &&& g1.snake_length == len
                &&& g1.grid.wf()
                &&& forall|r: int, c: int|
                    in_grid(r, c) ==> #[trigger] g1.grid.at(r, c) == if r == next.0 && c == next.1 {
                        head_cell(len)
                    } else if ate && r == pellet.1 && c == pellet.0 {
                        food_cell()
                    } else {
                        aged(g0.grid.at(r, c))
                    }
            }
        },
    }
}

impl Game {
    /// A new game on the starting board, with the pellet at column
    /// `pellet.0`, row `pellet.1`, heading up from the centre.
    pub fn start(pellet: (u16, u16)) -> (g: Game)
        requires
            in_interior(pellet.1 as int, pellet.0 as int),
        ensures
            g.wf(),
            g.head_pos == (HEIGHT / 2, WIDTH / 2),
            g.head_dir == MoveDir::Up,
            g.score == 0,
            g.snake_length == STARTING_LENGTH,
            forall|r: int, c: int| in_grid(r, c) ==> #[trigger] g.grid.at(r, c) == start_cell(pellet, r, c),
    {
        let grid = starting_position(&pellet);
        let g = Game {
            grid,
            head_pos: (HEIGHT / 2, WIDTH / 2),
            head_dir: MoveDir::Up,
            score: 0,
            snake_length: STARTING_LENGTH,
        };
        g
    }

    /// A new game heading up from the centre, with the pellet at a random
    /// place inside the wall ring.
    pub fn new() -> (g: Game)
        ensures
            g.wf(),
            g.head_pos == (HEIGHT / 2, WIDTH / 2),
            g.head_dir == MoveDir::Up,
            g.score == 0,
            g.snake_length == STARTING_LENGTH,
            exists|p: (u16, u16)|
                in_interior(p.1 as int, p.0 as int) && forall|r: int, c: int|
                    in_grid(r, c) ==> #[trigger] g.grid.at(r, c) == start_cell(p, r, c),
    {
        let pellet = random_pellet();
        Game::start(pellet)
    }

    /// Plays one tick with the keys pressed since the last one, drawing the
    /// place of the next pellet at random inside the wall ring.
    pub fn tick(&mut self, inputs: &[u8]) -> (out: TickOutcome)
        requires
            old(self).wf(),
        ensures
            final(self).wf(),
            exists|p: (u16, u16)|
                in_interior(p.1 as int, p.0 as int) && stepped(*old(self), inputs@, p, *final(self), out),
    {
        let pellet = random_pellet();
        self.step(inputs, pellet)
    }

    /// Plays one tick (see `stepped`) with the keys pressed since the last
    /// one; if food is eaten, the next pellet goes to column `pellet.0`,
    /// row `pellet.1`.
    pub fn step(&mut self, inputs: &[u8], pellet: (u16, u16)) -> (out: TickOutcome)
        requires
            old(self).wf(),
            in_interior(pellet.1 as int, pellet.0 as int),
        ensures
            final(self).wf(),
            stepped(*old(self), inputs@, pellet, *final(self), out),
    {
        let dir = match get_direction(self.head_dir, inputs) {
            Some(d) => d,
            None => return TickOutcome::Quit,
        };
        let next = next_head_position(self.head_pos, dir);
        let target = self.grid.get(next.0, next.1);
        if target.obj_type == ObjType::Snake {
            return TickOutcome::Collided;
        }
        let ghost g0 = *self;
        let ate = target.obj_type == ObjType::Food;
        if ate {
            self.score = self.score.saturating_add(self.snake_length as u64);
            self.snake_length = self.snake_length.saturating_add(1);
            self.grid.set(pellet.1 as usize, pellet.0 as usize, GameObj::permanent(ObjType::Food, None));
        }
        self.head_pos = next;
        self.head_dir = dir;
        update_durations(&mut self.grid);
        self.grid.set(
            next.0,
            next.1,
            GameObj {
                obj_type: ObjType::Snake,
                duration: Some(self.snake_length),
                direction: Some(SegmentDir::NS),
            },
        );
        assert forall|r: int, c: int| in_grid(r, c) implies #[trigger] drawable(self.grid.at(r, c)) by {
            assert(drawable(g0.grid.at(r, c)));
        }
        TickOutcome::Running
    }
}

/// The cell the head moves to when heading `dir`.
pub open spec fn destination(g: Game, dir: MoveDir) -> (int, int) {
    step_to((g.head_pos.0 as int, g.head_pos.1 as int), dir)
}

/// Running into the snake's own body ends the game, and the tick changes
/// nothing: not the board, the head, the direction, the score nor the length.
pub proof fn collision_ends_game(
    g0: Game,
    keys: Seq<u8>,
    pellet: (u16, u16),
    g1: Game,
    out: TickOutcome,
    dir: MoveDir,
)
    requires
        stepped(g0, keys, pellet, g1, out),
        resolved_direction(g0.head_dir, keys) == Some(dir),
        g0.grid.at(destination(g0, dir).0, destination(g0, dir).1).obj_type == ObjType::Snake,
    ensures
        out == TickOutcome::Collided,
        g1 == g0,
{
}

/// Eating adds the current length to the score and grows the snake by one,
/// and the new pellet is on the board inside the wall ring right after. This
/// holds where neither counter reaches its maximum and the new pellet does
/// not fall on the head's new cell, which the head then covers.
pub proof fn eating_grows_and_replaces_food(
    g0: Game,
    keys: Seq<u8>,
    pellet: (u16, u16),
    g1: Game,
    out: TickOutcome,
    dir: MoveDir,
)
    requires
        g0.wf(),
        in_interior(pellet.1 as int, pellet.0 as int),
        stepped(g0, keys, pellet, g1, out),
        resolved_direction(g0.head_dir, keys) == Some(dir),
        g0.grid.at(destination(g0, dir).0, destination(g0, dir).1).obj_type == ObjType::Food,
        g0.score + g0.snake_length <= u64::MAX,
        g0.snake_length < u16::MAX,
        (pellet.1 as int, pellet.0 as int) != destination(g0, dir),
    ensures
        out == TickOutcome::Running,
        g1.score == g0.score + g0.snake_length,
        g1.snake_length == g0.snake_length + 1,
        g1.grid.at(pellet.1 as int, pellet.0 as int) == food_cell(),
{
}

/// Over any tick the snake never gets shorter and the score never falls.
pub proof fn length_and_score_never_fall(
    g0: Game,
    keys: Seq<u8>,
    pellet: (u16, u16),
    g1: Game,
    out: TickOutcome,
)
    requires
        stepped(g0, keys, pellet, g1, out),
    ensures
        g1.snake_length >= g0.snake_length,
        g1.score >= g0.score,
{
}

} // verus!
