//! What a single grid cell holds, and the glyph it is drawn with.

use vstd::prelude::*;

verus! {

/// The kind of thing occupying a cell.
#[derive(Clone, Copy, Debug, PartialEq, Eq, Structural)]
pub enum ObjType {
    Wall,
    Snake,
    Food,
    Empty,
}

/// The orientation of a wall piece: a straight edge (`NS`, `EW`) or the turn
/// a corner makes (`NE` joins north and east, and so on).
#[derive(Clone, Copy, Debug, PartialEq, Eq, Structural)]
pub enum SegmentDir {
    NS,
    EW,
    NE,
    ES,
    SW,
    WN,
}

/// One cell of the board: its occupant, how many more ticks it lives (none
/// for permanent cells), and the orientation a wall is drawn with.
#[derive(Clone, Copy, Debug, PartialEq, Eq, Structural)]
pub struct GameObj {
    pub obj_type: ObjType,
    pub duration: Option<u16>,
    pub direction: Option<SegmentDir>,
}

/// A wall must carry an orientation; other cells may carry anything.
pub open spec fn drawable(c: GameObj) -> bool {
    c.obj_type == ObjType::Wall ==> c.direction.is_some()
}

/// The empty cell: no occupant, no lifetime, no orientation.
pub open spec fn blank_spec() -> GameObj {
    GameObj { obj_type: ObjType::Empty, duration: None, direction: None }
}

/// The box-drawing glyph of each wall orientation.
pub open spec fn wall_glyph(d: SegmentDir) -> Seq<char> {
    match d {
        SegmentDir::NS => "┃"@,
        SegmentDir::EW => "━"@,
        SegmentDir::NE => "┗"@,
        SegmentDir::ES => "┏"@,
        SegmentDir::SW => "┓"@,
        SegmentDir::WN => "┛"@,
    }
}

/// The glyph a drawable cell is shown with.
pub open spec fn symbol(c: GameObj) -> Seq<char>
    recommends
        drawable(c),
{
    match c.obj_type {
        ObjType::Empty => "."@,
        ObjType::Wall => wall_glyph(c.direction.unwrap()),
        ObjType::Snake => "x"@,
        ObjType::Food => "O"@,
    }
}

impl GameObj {
    /// A cell that never decays. A wall is only built with an orientation.
    pub fn permanent(obj_type: ObjType, direction: Option<SegmentDir>) -> (r: GameObj)
        requires
            obj_type == ObjType::Wall ==> direction.is_some(),
        ensures
            r == (GameObj { obj_type, duration: None, direction }),
            drawable(r),
    {
        GameObj { obj_type, direction, duration: None }
    }

    /// The empty cell.
    pub fn blank() -> (r: GameObj)
        ensures
            r == blank_spec(),
    {
        GameObj { obj_type: ObjType::Empty, duration: None, direction: None }
    }

    /// The glyph this cell is drawn with.
    pub fn get_symbol(&self) -> (r: &'static str)
        requires
            drawable(*self),
        ensures
            r@ == symbol(*self),
    {
        match self.obj_type {
            ObjType::Empty => ".",
            ObjType::Wall => get_wall_icon(self.direction),
            ObjType::Snake => "x",
            ObjType::Food => "O",
        }
    }
}

/// The glyph of a wall with the given orientation; a wall always has one.
pub fn get_wall_icon(dir: Option<SegmentDir>) -> (r: &'static str)
    requires
        dir.is_some(),
    ensures
        r@ == wall_glyph(dir.unwrap()),
{
    match dir.unwrap() {
        SegmentDir::NS => "┃",
        SegmentDir::EW => "━",
        SegmentDir::NE => "┗",
        SegmentDir::ES => "┏",
        SegmentDir::SW => "┓",
        SegmentDir::WN => "┛",
    }
}

} // verus!
