use crate::geometry::{adjacent, can_step, can_step_anywhere, moved, Coord, Direction};
use crate::model::{Battlesnake, Board, Game};
use vstd::prelude::*;

verus! {

/// Whether `spot` is the head or a body segment of `snake`.
pub open spec fn covers(snake: Battlesnake, spot: Coord) -> bool {
    snake.head == spot || snake.body@.contains(spot)
}

/// Whether some snake of `snakes` covers `spot`.
pub open spec fn occupied(spot: Coord, snakes: Seq<Battlesnake>) -> bool {
    exists|i: int| 0 <= i < snakes.len() && covers(#[trigger] snakes[i], spot)
}

/// Whether `other` is an opponent of `me` at least as long as `me` whose head
/// is next to `spot`.
pub open spec fn threatens(other: Battlesnake, me: Battlesnake, spot: Coord) -> bool {
    other.id@ != me.id@ && other.length >= me.length && adjacent(other.head, spot)
}

/// Whether some snake of `snakes` threatens `spot` for `me`.
pub open spec fn threatened(spot: Coord, snakes: Seq<Battlesnake>, me: Battlesnake) -> bool {
    exists|i: int| 0 <= i < snakes.len() && threatens(#[trigger] snakes[i], me, spot)
}

/// Whether `spot` lies on one of the rejected border lines.
///
/// The row `y == 0` and the column `x == 0` are rejected, and so are the row
/// whose `y` equals the board's width and the column whose `x` equals its
/// height: width and height are compared crosswise, as the move rules have
/// always done.
pub open spec fn on_border(spot: Coord, board: Board) -> bool {
    spot.y == 0 || spot.x == 0 || spot.y == board.width || spot.x == board.height
}

/// Whether moving `me`'s head to `spot` is considered safe.
pub open spec fn safe(spot: Coord, board: Board, me: Battlesnake) -> bool {
    !on_border(spot, board) && !occupied(spot, board.snakes@) && !threatened(
        spot,
        board.snakes@,
        me,
    )
}

/// Whether a step in direction `d` from `me`'s head is safe.
pub open spec fn safe_dir(me: Battlesnake, board: Board, d: Direction) -> bool {
    safe(moved(me.head, d), board, me)
}

/// `d` alone when `keep` holds, else nothing.
pub open spec fn kept(d: Direction, keep: bool) -> Seq<Direction> {
    if keep {
        seq![d]
    } else {
        seq![]
    }
}

/// The safe directions from `me`'s head, in the order left, right, up, down.
pub open spec fn safe_dirs(me: Battlesnake, board: Board) -> Seq<Direction> {
    kept(Direction::Left, safe_dir(me, board, Direction::Left)) + kept(
        Direction::Right,
        safe_dir(me, board, Direction::Right),
    ) + kept(Direction::Up, safe_dir(me, board, Direction::Up)) + kept(
        Direction::Down,
        safe_dir(me, board, Direction::Down),
    )
}

/// The entry of `moves` that the number `draw` selects.
pub open spec fn drawn(moves: Seq<Direction>, draw: nat) -> Option<Direction> {
    if moves.len() == 0 {
        None
    } else {
        Some(moves[(draw % moves.len()) as int])
    }
}

/// The direction that the fallback chain settles on, given what the primary
/// strategy proposed.
pub open spec fn settled(perfect: Option<Direction>) -> Direction {
    match perfect {
        Some(d) => d,
        None => Direction::Left,
    }
}

/// Whether `snake` covers `spot`.
fn snake_covers(snake: &Battlesnake, spot: &Coord) -> (r: bool)
    ensures
        r == covers(*snake, *spot),
{
    if snake.head == *spot {
        return true;
    }
    let mut j: usize = 0;
    while j < snake.body.len()
        invariant
            j <= snake.body@.len(),
            forall|k: int| 0 <= k < j ==> snake.body@[k] != *spot,
        decreases snake.body@.len() - j,
    {
        if snake.body[j] == *spot {
            return true;
        }
        j += 1;
    }
    false
}

/// Whether `spot` is the head or a body segment of any snake in `snakes`,
/// the acting snake included.
pub fn spot_has_snake(spot: &Coord, snakes: &Vec<Battlesnake>) -> (r: bool)
    ensures
        r == occupied(*spot, snakes@),
{
    let mut i: usize = 0;
    while i < snakes.len()
        invariant
            i <= snakes@.len(),
            forall|k: int| 0 <= k < i ==> !covers(#[trigger] snakes@[k], *spot),
        decreases snakes@.len() - i,
    {
        if snake_covers(&snakes[i], spot) {
            return true;
        }
        i += 1;
    }
    false
}

/// Whether `spot` is one of the four orthogonal neighbours of `head`.
fn next_to(head: &Coord, spot: &Coord) -> (r: bool)
    ensures
        r == adjacent(*head, *spot),
{
    let hx = head.x as i64;
    let hy = head.y as i64;
    let sx = spot.x as i64;
    let sy = spot.y as i64;
    (sy == hy && (sx == hx - 1 || sx == hx + 1)) || (sx == hx && (sy == hy - 1 || sy == hy + 1))
}

/// Whether `spot` could be entered next turn by the head of an opponent of
/// `me` that is at least as long as `me`.
pub fn spot_might_have_snake(spot: &Coord, snakes: &Vec<Battlesnake>, me: &Battlesnake) -> (r:
    bool)
    ensures
        r == threatened(*spot, snakes@, *me),
{
    let mut i: usize = 0;
    while i < snakes.len()
        invariant
            i <= snakes@.len(),
            forall|k: int| 0 <= k < i ==> !threatens(#[trigger] snakes@[k], *me, *spot),
        decreases snakes@.len() - i,
    {
        let snake = &snakes[i];
        if snake.id != me.id && snake.length >= me.length && next_to(&snake.head, spot) {
            return true;
        }
        i += 1;
    }
    false
}

/// Whether moving `me`'s head to `spot` is safe: off the rejected border
/// lines, onto no snake, and out of reach of every equal-or-larger opponent.
pub fn valid_move(spot: &Coord, board: &Board, me: &Battlesnake) -> (r: bool)
    ensures
        r == safe(*spot, *board, *me),
{
    let board_width = board.width;
    let board_height = board.height;
    if spot.y == 0 || spot.x == 0 {
        false
    } else if spot.y == board_width || spot.x == board_height {
        false
    } else if spot_has_snake(spot, &board.snakes) {
        false
    } else if spot_might_have_snake(spot, &board.snakes, me) {
        false
    } else {
        true
    }
}

/// The safe directions from `me`'s head, in the order left, right, up, down.
pub fn safe_moves(me: &Battlesnake, board: &Board) -> (r: Vec<Direction>)
    requires
        can_step_anywhere(me.head),
    ensures
        r@ == safe_dirs(*me, *board),
{
    let head = me.head;
    let mut moves: Vec<Direction> = Vec::new();
    if valid_move(&head.left(), board, me) {
        moves.push(Direction::Left);
    }
    assert(moves@ == kept(Direction::Left, safe_dir(*me, *board, Direction::Left)));
    let ghost after_left = moves@;
    if valid_move(&head.right(), board, me) {
        moves.push(Direction::Right);
    }
    assert(moves@ == after_left + kept(Direction::Right, safe_dir(*me, *board, Direction::Right)));
    let ghost after_right = moves@;
    if valid_move(&head.up(), board, me) {
        moves.push(Direction::Up);
    }
    assert(moves@ == after_right + kept(Direction::Up, safe_dir(*me, *board, Direction::Up)));
    let ghost after_up = moves@;
    if valid_move(&head.down(), board, me) {
        moves.push(Direction::Down);
    }
    assert(moves@ == after_up + kept(Direction::Down, safe_dir(*me, *board, Direction::Down)));
    moves
}

/// The entry of `moves` that the number `draw` selects: entry `draw` modulo
/// the number of entries, or `None` when there is none.
pub fn pick_move(moves: &Vec<Direction>, draw: usize) -> (r: Option<Direction>)
    ensures
        r == drawn(moves@, draw as nat),
{
    if moves.len() == 0 {
        None
    } else {
        Some(moves[draw % moves.len()])
    }
}

/// Relies on rand's `SliceRandom::choose` with the thread-local generator:
/// `None` for an empty slice, otherwise one of its elements.
#[verifier::external_body]
fn choose_at_random(moves: &Vec<Direction>) -> (r: Option<Direction>)
    ensures
        r is None <==> moves@.len() == 0,
        r matches Some(d) ==> moves@.contains(d),
{
    rand::seq::SliceRandom::choose(moves.as_slice(), &mut rand::thread_rng()).copied()
}

/// The primary strategy: one of the safe directions from `me`'s head, chosen
/// at random, or `None` when no direction is safe.
pub fn find_perfect_move(me: &Battlesnake, board: &Board) -> (r: Option<Direction>)
    requires
        can_step_anywhere(me.head),
    ensures
        r is None <==> safe_dirs(*me, *board).len() == 0,
        r matches Some(d) ==> safe_dirs(*me, *board).contains(d),
{
    let moves = safe_moves(me, board);
    choose_at_random(&moves)
}

/// The primary strategy with its randomness supplied by the caller: the safe
/// direction that `draw` selects, or `None` when no direction is safe.
pub fn find_perfect_move_with(me: &Battlesnake, board: &Board, draw: usize) -> (r: Option<
    Direction,
>)
    requires
        can_step_anywhere(me.head),
    ensures
        r == drawn(safe_dirs(*me, *board), draw as nat),
{
    let moves = safe_moves(me, board);
    pick_move(&moves, draw)
}

/// The secondary strategy, a placeholder that always proposes moving left.
pub fn find_heuristic_move(_me: &Battlesnake, _board: &Board) -> (r: Option<Direction>)
    ensures
        r == Some(Direction::Left),
{
    Some(Direction::Left)
}

/// The fallback chain: the primary strategy's proposal if there is one, else
/// the secondary strategy's, else left.
pub fn settle_move(perfect: Option<Direction>, me: &Battlesnake, board: &Board) -> (r: Direction)
    ensures
        r == settled(perfect),
{
    if let Some(chosen) = perfect {
        chosen
    } else if let Some(chosen) = find_heuristic_move(me, board) {
        chosen
    } else {
        Direction::Left
    }
}

/// Notification that a game has begun. The engine keeps no state between
/// turns, so nothing changes.
pub fn start(_game: &Game, _turn: &u32, _board: &Board, _me: &Battlesnake) {
}

/// Notification that a game has ended. The engine keeps no state between
/// turns, so nothing changes.
pub fn end(_game: &Game, _turn: &u32, _board: &Board, _me: &Battlesnake) {
}

/// The protocol word of the move for this turn: a safe direction chosen at
/// random, or `"left"` when no direction is safe.
pub fn get_move(_game: &Game, _turn: &u32, board: &Board, me: &Battlesnake) -> (r: &'static str)
    requires
        can_step_anywhere(me.head),
    ensures
        safe_dirs(*me, *board).len() == 0 ==> r@ == Direction::Left.token(),
        safe_dirs(*me, *board).len() > 0 ==> exists|d: Direction|
            safe_dirs(*me, *board).contains(d) && r@ == #[trigger] d.token(),
{
    let perfect = find_perfect_move(me, board);
    let direction = settle_move(perfect, me, board);
    direction.to_str()
}

/// The protocol word of the move for this turn, with the random choice among
/// safe directions made by `draw`.
pub fn get_move_with(_game: &Game, _turn: &u32, board: &Board, me: &Battlesnake, draw: usize) -> (r:
    &'static str)
    requires
        can_step_anywhere(me.head),
    ensures
        r@ == settled(drawn(safe_dirs(*me, *board), draw as nat)).token(),
{
    let perfect = find_perfect_move_with(me, board, draw);
    let direction = settle_move(perfect, me, board);
    direction.to_str()
}

/// Every segment of a snake, head or body, is occupied in a board holding that
/// snake alone; a cell that no snake covers is not occupied.
pub proof fn lemma_occupied_exactly_by_segments(
    s: Battlesnake,
    c: Coord,
    spot: Coord,
    snakes: Seq<Battlesnake>,
)
    ensures
        (c == s.head || s.body@.contains(c)) ==> occupied(c, seq![s]),
        (forall|i: int| 0 <= i < snakes.len() ==> !covers(#[trigger] snakes[i], spot)) ==> !occupied(
            spot,
            snakes,
        ),
{
    if c == s.head || s.body@.contains(c) {
        assert(covers(seq![s][0], c));
    }
}

/// An opponent at least as long as `me` threatens each of the four cells next
/// to its head.
pub proof fn lemma_larger_opponent_threatens_neighbours(
    snakes: Seq<Battlesnake>,
    i: int,
    me: Battlesnake,
    d: Direction,
)
    requires
        0 <= i < snakes.len(),
        snakes[i].id@ != me.id@,
        snakes[i].length >= me.length,
        can_step(snakes[i].head, d),
    ensures
        threatened(moved(snakes[i].head, d), snakes, me),
{
    assert(threatens(snakes[i], me, moved(snakes[i].head, d)));
}

/// An opponent shorter than `me` threatens no cell.
pub proof fn lemma_shorter_opponent_threatens_nothing(o: Battlesnake, me: Battlesnake, spot: Coord)
    requires
        o.length < me.length,
    ensures
        !threatened(spot, seq![o], me),
{
    assert(!threatens(seq![o][0], me, spot));
}

/// A cell covered by the acting snake's own body is never a safe destination.
pub proof fn lemma_own_body_is_unsafe(spot: Coord, board: Board, me: Battlesnake, i: int)
    requires
        0 <= i < board.snakes@.len(),
        board.snakes@[i] == me,
        me.body@.contains(spot),
    ensures
        !safe(spot, board, me),
{
    assert(covers(board.snakes@[i], spot));
}

/// Every safe direction is the one that some draw selects.
pub proof fn lemma_every_safe_move_can_be_drawn(me: Battlesnake, board: Board, d: Direction)
    requires
        safe_dirs(me, board).contains(d),
    ensures
        exists|k: nat| #[trigger] drawn(safe_dirs(me, board), k) == Some(d),
{
    let moves = safe_dirs(me, board);
    let k = choose|k: int| 0 <= k < moves.len() && moves[k] == d;
    assert((k as nat) % moves.len() == k as nat) by (nonlinear_arith)
        requires
            0 <= k < moves.len(),
    ;
    assert(drawn(moves, k as nat) == Some(d));
}

} // verus!
