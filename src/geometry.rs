use vstd::prelude::*;

verus! {

/// A cell of the board, origin at the bottom-left corner.
#[derive(PartialEq, Eq, Structural, Clone, Copy, Debug, Default, Hash)]
pub struct Coord {
    pub x: i32,
    pub y: i32,
}

/// One of the four moves a snake can make.
#[derive(PartialEq, Eq, Structural, Clone, Copy, Debug, Hash)]
pub enum Direction {
    Up,
    Down,
    Left,
    Right,
}

/// Horizontal displacement of a unit step in direction `d`.
pub open spec fn dx(d: Direction) -> int {
    match d {
        Direction::Left => -1,
        Direction::Right => 1,
        _ => 0,
    }
}

/// Vertical displacement of a unit step in direction `d`.
pub open spec fn dy(d: Direction) -> int {
    match d {
        Direction::Down => -1,
        Direction::Up => 1,
        _ => 0,
    }
}

/// Whether a unit step from `c` in direction `d` stays inside the range of `i32`.
pub open spec fn can_step(c: Coord, d: Direction) -> bool {
    i32::MIN <= c.x + dx(d) <= i32::MAX && i32::MIN <= c.y + dy(d) <= i32::MAX
}

/// Whether a unit step in any direction from `c` stays inside the range of `i32`.
pub open spec fn can_step_anywhere(c: Coord) -> bool {
    i32::MIN < c.x < i32::MAX && i32::MIN < c.y < i32::MAX
}

/// The cell one unit step from `c` in direction `d`.
pub open spec fn moved(c: Coord, d: Direction) -> Coord
    recommends
        can_step(c, d),
{
    Coord { x: (c.x + dx(d)) as i32, y: (c.y + dy(d)) as i32 }
}

/// Whether `spot` is one of the four orthogonal neighbours of `c`.
pub open spec fn adjacent(c: Coord, spot: Coord) -> bool {
    (spot.y == c.y && (spot.x == c.x - 1 || spot.x == c.x + 1))
        || (spot.x == c.x && (spot.y == c.y - 1 || spot.y == c.y + 1))
}

impl Direction {
    /// The direction that undoes a step in this one.
    pub open spec fn inverse(self) -> Direction {
        match self {
            Direction::Up => Direction::Down,
            Direction::Down => Direction::Up,
            Direction::Left => Direction::Right,
            Direction::Right => Direction::Left,
        }
    }

    /// The word that names this direction in the game protocol.
    pub open spec fn token(self) -> Seq<char> {
        match self {
            Direction::Up => "up"@,
            Direction::Down => "down"@,
            Direction::Left => "left"@,
            Direction::Right => "right"@,
        }
    }

    /// The protocol word for this direction.
    pub fn to_str(self) -> (r: &'static str)
        ensures
            r@ == self.token(),
    {
        match self {
            Direction::Up => "up",
            Direction::Down => "down",
            Direction::Left => "left",
            Direction::Right => "right",
        }
    }

    /// The opposite direction.
    pub fn opposite(self) -> (r: Direction)
        ensures
            r == self.inverse(),
    {
        match self {
            Direction::Up => Direction::Down,
            Direction::Down => Direction::Up,
            Direction::Left => Direction::Right,
            Direction::Right => Direction::Left,
        }
    }
}

impl Coord {
    /// The cell one unit step away in direction `d`.
    pub fn step(&self, d: Direction) -> (r: Coord)
        requires
            can_step(*self, d),
        ensures
            r == moved(*self, d),
    {
        match d {
            Direction::Up => Coord { x: self.x, y: self.y + 1 },
            Direction::Down => Coord { x: self.x, y: self.y - 1 },
            Direction::Left => Coord { x: self.x - 1, y: self.y },
            Direction::Right => Coord { x: self.x + 1, y: self.y },
        }
    }

    /// The cell to the left (x - 1).
    pub fn left(&self) -> (r: Coord)
        requires
            self.x > i32::MIN,
        ensures
            r == moved(*self, Direction::Left),
    {
        self.step(Direction::Left)
    }

    /// The cell to the right (x + 1).
    pub fn right(&self) -> (r: Coord)
        requires
            self.x < i32::MAX,
        ensures
            r == moved(*self, Direction::Right),
    {
        self.step(Direction::Right)
    }

    /// The cell above (y + 1).
    pub fn up(&self) -> (r: Coord)
        requires
            self.y < i32::MAX,
        ensures
            r == moved(*self, Direction::Up),
    {
        self.step(Direction::Up)
    }

    /// The cell below (y - 1).
    pub fn down(&self) -> (r: Coord)
        requires
            self.y > i32::MIN,
        ensures
            r == moved(*self, Direction::Down),
    {
        self.step(Direction::Down)
    }
}

/// A step followed by a step in the inverse direction returns to the start.
pub proof fn lemma_step_then_inverse(c: Coord, d: Direction)
    requires
        can_step(c, d),
    ensures
        can_step(moved(c, d), d.inverse()),
        moved(moved(c, d), d.inverse()) == c,
{
}

/// The cells one step from `c` are exactly its four orthogonal neighbours.
pub proof fn lemma_moved_is_adjacent(c: Coord, spot: Coord)
    requires
        can_step_anywhere(c),
    ensures
        adjacent(c, spot) <==> exists|d: Direction| #[trigger] moved(c, d) == spot,
{
    if adjacent(c, spot) {
        if spot.x == c.x - 1 {
            assert(moved(c, Direction::Left) == spot);
        } else if spot.x == c.x + 1 {
            assert(moved(c, Direction::Right) == spot);
        } else if spot.y == c.y - 1 {
            assert(moved(c, Direction::Down) == spot);
        } else {
            assert(moved(c, Direction::Up) == spot);
        }
    }
}

} // verus!
