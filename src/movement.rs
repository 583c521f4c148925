//! Directions of travel, the keys that choose them, and the wrap-around step
//! from one interior cell to the next.

use vstd::prelude::*;
use crate::grid::{in_grid, in_interior, HEIGHT, WIDTH};

verus! {

/// A direction the snake can travel in.
#[derive(Clone, Copy, Debug, PartialEq, Eq, Structural)]
pub enum MoveDir {
    Up,
    Down,
    Left,
    Right,
}

/// What one key does: `Some(Some(d))` turns to `d`, `Some(None)` quits, and
/// `None` leaves the direction alone.
pub open spec fn key_effect(key: u8) -> Option<Option<MoveDir>> {
    if key == 'q' as u8 {
        Some(None)
    } else if key == 'w' as u8 {
        Some(Some(MoveDir::Up))
    } else if key == 's' as u8 {
        Some(Some(MoveDir::Down))
    } else if key == 'a' as u8 {
        Some(Some(MoveDir::Left))
    } else if key == 'd' as u8 {
        Some(Some(MoveDir::Right))
    } else {
        None
    }
}

/// The direction after the keys pressed since the last tick: only the last
/// key counts; `None` means quit.
pub open spec fn resolved_direction(cur_dir: MoveDir, keys: Seq<u8>) -> Option<MoveDir> {
    if keys.len() == 0 {
        Some(cur_dir)
    } else {
        match key_effect(keys.last()) {
            Some(choice) => choice,
            None => Some(cur_dir),
        }
    }
}

/// The row and column offset of one step in direction `d`.
pub open spec fn offset(d: MoveDir) -> (int, int) {
    match d {
        MoveDir::Up => (-1, 0),
        MoveDir::Down => (1, 0),
        MoveDir::Left => (0, -1),
        MoveDir::Right => (0, 1),
    }
}

/// Brings a coordinate back into `[1, dim - 2]`: one below re-enters at the
/// far end, one above re-enters at 1.
pub open spec fn wrap(v: int, dim: int) -> int {
    if v < 1 {
        dim - 2
    } else if v > dim - 2 {
        1
    } else {
        v
    }
}

/// The cell one step from `pos` in direction `d`, on the interior torus.
pub open spec fn step_to(pos: (int, int), d: MoveDir) -> (int, int) {
    (wrap(pos.0 + offset(d).0, HEIGHT as int), wrap(pos.1 + offset(d).1, WIDTH as int))
}

/// A step from any cell of the board, in any direction, lands strictly
/// inside the wall ring: never on the first or last row or column.
pub proof fn step_stays_inside(p: (int, int), d: MoveDir)
    requires
        in_grid(p.0, p.1),
    ensures
        in_interior(step_to(p, d).0, step_to(p, d).1),
{
}

/// Leaving the interior across one edge re-enters it at the opposite edge,
/// in the same row or column: up from row 1 to row `HEIGHT - 2`, down from
/// row `HEIGHT - 2` to row 1, and likewise for columns.
pub proof fn wrap_around(row: int, col: int)
    requires
        in_interior(row, col),
    ensures
        step_to((1, col), MoveDir::Up) == (HEIGHT - 2, col),
        step_to((HEIGHT - 2, col), MoveDir::Down) == (1int, col),
        step_to((row, 1), MoveDir::Left) == (row, WIDTH - 2),
        step_to((row, WIDTH - 2), MoveDir::Right) == (row, 1int),
{
}

/// Reduces the keys pressed since the last tick to the direction to travel
/// in, or `None` when the player asked to quit.
pub fn get_direction(cur_dir: MoveDir, inputs: &[u8]) -> (r: Option<MoveDir>)
    ensures
        r == resolved_direction(cur_dir, inputs@),
{
    if inputs.len() == 0 {
        return Some(cur_dir);
    }
    let last_input = inputs[inputs.len() - 1];
    if last_input == 'q' as u8 {
        None
    } else if last_input == 'w' as u8 {
        Some(MoveDir::Up)
    } else if last_input == 's' as u8 {
        Some(MoveDir::Down)
    } else if last_input == 'a' as u8 {
        Some(MoveDir::Left)
    } else if last_input == 'd' as u8 {
        Some(MoveDir::Right)
    } else {
        Some(cur_dir)
    }
}

/// `v` itself, brought back into `[1, dim - 2]`.
fn wrap_coord(v: usize, dim: usize) -> (r: usize)
    requires
        4 <= dim,
        v < dim,
    ensures
        r == wrap(v as int, dim as int),
{
    if v < 1 {
        dim - 2
    } else if v > dim - 2 {
        1
    } else {
        v
    }
}

/// `v - 1`, brought back into `[1, dim - 2]`.
fn wrap_dec(v: usize, dim: usize) -> (r: usize)
    requires
        4 <= dim,
        v < dim,
    ensures
        r == wrap(v - 1, dim as int),
{
    if v <= 1 {
        dim - 2
    } else {
        v - 1
    }
}

/// `v + 1`, brought back into `[1, dim - 2]`.
fn wrap_inc(v: usize, dim: usize) -> (r: usize)
    requires
        4 <= dim,
        v < dim,
    ensures
        r == wrap(v + 1, dim as int),
{
    if v + 1 > dim - 2 {
        1
    } else {
        v + 1
    }
}

/// The head's next cell: one step in `cur_dir`, wrapped onto the interior,
/// so the snake passes through the walls to the opposite side.
pub fn next_head_position(cur_pos: (usize, usize), cur_dir: MoveDir) -> (r: (usize, usize))
    requires
        in_grid(cur_pos.0 as int, cur_pos.1 as int),
    ensures
        (r.0 as int, r.1 as int) == step_to((cur_pos.0 as int, cur_pos.1 as int), cur_dir),
        in_interior(r.0 as int, r.1 as int),
{
    let (row, col) = cur_pos;
    match cur_dir {
        MoveDir::Left => (wrap_coord(row, HEIGHT), wrap_dec(col, WIDTH)),
        MoveDir::Right => (wrap_coord(row, HEIGHT), wrap_inc(col, WIDTH)),
        MoveDir::Up => (wrap_dec(row, HEIGHT), wrap_coord(col, WIDTH)),
        MoveDir::Down => (wrap_inc(row, HEIGHT), wrap_coord(col, WIDTH)),
    }
}

} // verus!
