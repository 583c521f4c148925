//! A terminal snake game: the grid model, movement on a wrap-around board,
//! the rules of one tick and the mapping of cells to printable glyphs.

pub mod cell;
pub mod grid;
pub mod movement;
pub mod game;
