use crate::geometry::Coord;
use vstd::prelude::*;

verus! {

/// Identification of the game a turn belongs to.
#[derive(Clone, Debug, Default)]
pub struct Game {
    pub id: String,
}

/// One snake on the board, as reported for the current turn.
///
/// `length` is the reported length; it is kept apart from `body`, whose size
/// may differ from it.
#[derive(Clone, Debug, Default)]
pub struct Battlesnake {
    pub id: String,
    pub name: String,
    pub health: u32,
    pub body: Vec<Coord>,
    pub head: Coord,
    pub length: u32,
    pub latency: String,
    pub shout: Option<String>,
}

/// The snapshot of the board for one turn.
#[derive(Clone, Debug, Default)]
pub struct Board {
    pub height: i32,
    pub width: i32,
    pub food: Vec<Coord>,
    pub snakes: Vec<Battlesnake>,
    pub hazards: Vec<Coord>,
}

} // verus!
