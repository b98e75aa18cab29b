use battlesnake::{
    end, find_heuristic_move, find_perfect_move, find_perfect_move_with, get_move, get_move_with,
    pick_move, safe_moves, settle_move, spot_has_snake, spot_might_have_snake, start, valid_move,
    Battlesnake, Board, Coord, Direction, Game,
};

fn snake(id: &str, head: Coord, body: Vec<Coord>, length: u32) -> Battlesnake {
    Battlesnake {
        id: id.to_string(),
        name: id.to_string(),
        head,
        body,
        length,
        ..Default::default()
    }
}

fn board(snakes: Vec<Battlesnake>) -> Board {
    Board {
        width: 10,
        height: 10,
        food: vec![],
        hazards: vec![],
        snakes,
    }
}

/// A snake at (5,5) whose only blocked neighbour is its own neck below.
fn open_field() -> (Battlesnake, Board) {
    let me = snake(
        "me",
        Coord { x: 5, y: 5 },
        vec![Coord { x: 5, y: 5 }, Coord { x: 5, y: 4 }],
        2,
    );
    let b = board(vec![me.clone()]);
    (me, b)
}

/// A snake in the corner at (1,1): walls to the left and below, its own body
/// to the right and above.
fn boxed_in() -> (Battlesnake, Board) {
    let me = snake(
        "me",
        Coord { x: 1, y: 1 },
        vec![
            Coord { x: 1, y: 1 },
            Coord { x: 2, y: 1 },
            Coord { x: 2, y: 2 },
            Coord { x: 1, y: 2 },
        ],
        4,
    );
    let b = board(vec![me.clone()]);
    (me, b)
}

#[test]
fn step_then_opposite_returns() {
    let c = Coord { x: 3, y: 7 };
    for d in [Direction::Up, Direction::Down, Direction::Left, Direction::Right] {
        assert_eq!(c.step(d).step(d.opposite()), c);
        assert_ne!(c.step(d), c);
    }
}

#[test]
fn unit_steps() {
    let c = Coord { x: 3, y: 7 };
    assert_eq!(c.left(), Coord { x: 2, y: 7 });
    assert_eq!(c.right(), Coord { x: 4, y: 7 });
    assert_eq!(c.up(), Coord { x: 3, y: 8 });
    assert_eq!(c.down(), Coord { x: 3, y: 6 });
    assert_eq!(Coord { x: 0, y: 0 }.down(), Coord { x: 0, y: -1 });
    assert_eq!(c.step(Direction::Left), c.left());
}

#[test]
fn opposites() {
    assert_eq!(Direction::Up.opposite(), Direction::Down);
    assert_eq!(Direction::Down.opposite(), Direction::Up);
    assert_eq!(Direction::Left.opposite(), Direction::Right);
    assert_eq!(Direction::Right.opposite(), Direction::Left);
}

#[test]
fn protocol_words() {
    assert_eq!(Direction::Up.to_str(), "up");
    assert_eq!(Direction::Down.to_str(), "down");
    assert_eq!(Direction::Left.to_str(), "left");
    assert_eq!(Direction::Right.to_str(), "right");
}

#[test]
fn every_segment_is_occupied() {
    let s = snake(
        "s",
        Coord { x: 2, y: 2 },
        vec![Coord { x: 2, y: 2 }, Coord { x: 2, y: 3 }, Coord { x: 3, y: 3 }],
        3,
    );
    let snakes = vec![s.clone()];
    assert!(spot_has_snake(&s.head, &snakes));
    for c in &s.body {
        assert!(spot_has_snake(c, &snakes));
    }
    assert!(!spot_has_snake(&Coord { x: 3, y: 2 }, &snakes));
    assert!(!spot_has_snake(&Coord { x: 2, y: 2 }, &vec![]));
}

#[test]
fn larger_opponent_threatens_all_four_neighbours() {
    let me = snake("me", Coord { x: 8, y: 8 }, vec![], 3);
    let o = snake("o", Coord { x: 4, y: 4 }, vec![], 5);
    let snakes = vec![o.clone()];
    for d in [Direction::Up, Direction::Down, Direction::Left, Direction::Right] {
        assert!(spot_might_have_snake(&o.head.step(d), &snakes, &me));
    }
    assert!(!spot_might_have_snake(&o.head, &snakes, &me));
    assert!(!spot_might_have_snake(&Coord { x: 5, y: 5 }, &snakes, &me));
    assert!(!spot_might_have_snake(&Coord { x: 6, y: 4 }, &snakes, &me));
}

#[test]
fn shorter_opponent_threatens_nothing() {
    let me = snake("me", Coord { x: 8, y: 8 }, vec![], 3);
    let o = snake("o", Coord { x: 4, y: 4 }, vec![], 2);
    let snakes = vec![o.clone()];
    for d in [Direction::Up, Direction::Down, Direction::Left, Direction::Right] {
        assert!(!spot_might_have_snake(&o.head.step(d), &snakes, &me));
    }
}

#[test]
fn crossed_width_and_height() {
    let me = Battlesnake::default();
    let wide = Board {
        width: 12,
        height: 6,
        food: vec![],
        hazards: vec![],
        snakes: vec![me.clone()],
    };
    // y is compared with the width and x with the height
    assert!(!valid_move(&Coord { x: 3, y: 12 }, &wide, &me));
    assert!(!valid_move(&Coord { x: 6, y: 3 }, &wide, &me));
    assert!(valid_move(&Coord { x: 3, y: 6 }, &wide, &me));
    assert!(valid_move(&Coord { x: 12, y: 3 }, &wide, &me));
}

#[test]
fn threatened_spot_is_invalid() {
    let me = snake("me", Coord { x: 2, y: 2 }, vec![Coord { x: 2, y: 2 }], 3);
    let o = snake("o", Coord { x: 5, y: 5 }, vec![Coord { x: 5, y: 5 }], 3);
    let b = board(vec![me.clone(), o]);
    assert!(!valid_move(&Coord { x: 5, y: 6 }, &b, &me));
    assert!(valid_move(&Coord { x: 6, y: 6 }, &b, &me));
}

#[test]
fn own_body_away_from_head_is_invalid() {
    let me = snake(
        "me",
        Coord { x: 5, y: 3 },
        vec![Coord { x: 5, y: 3 }, Coord { x: 5, y: 4 }, Coord { x: 5, y: 5 }],
        3,
    );
    let b = board(vec![me.clone()]);
    assert!(!valid_move(&Coord { x: 5, y: 5 }, &b, &me));
}

#[test]
fn safe_moves_in_open_field() {
    let (me, b) = open_field();
    assert_eq!(
        safe_moves(&me, &b),
        vec![Direction::Left, Direction::Right, Direction::Up]
    );
}

#[test]
fn safe_moves_when_boxed_in() {
    let (me, b) = boxed_in();
    assert_eq!(safe_moves(&me, &b), vec![]);
    assert_eq!(find_perfect_move(&me, &b), None);
    assert_eq!(find_perfect_move_with(&me, &b, 7), None);
}

#[test]
fn boxed_in_falls_back_to_left() {
    let (me, b) = boxed_in();
    let game = Game { id: "g".to_string() };
    assert_eq!(get_move(&game, &3, &b, &me), "left");
    assert_eq!(get_move_with(&game, &3, &b, &me, 1), "left");
}

#[test]
fn heuristic_and_fallback() {
    let (me, b) = boxed_in();
    assert_eq!(find_heuristic_move(&me, &b), Some(Direction::Left));
    assert_eq!(settle_move(None, &me, &b), Direction::Left);
    assert_eq!(settle_move(Some(Direction::Up), &me, &b), Direction::Up);
}

#[test]
fn drawn_choice_is_reproducible_and_covers_all() {
    let (me, b) = open_field();
    let game = Game { id: "g".to_string() };
    assert_eq!(get_move_with(&game, &0, &b, &me, 0), "left");
    assert_eq!(get_move_with(&game, &0, &b, &me, 1), "right");
    assert_eq!(get_move_with(&game, &0, &b, &me, 2), "up");
    assert_eq!(get_move_with(&game, &0, &b, &me, 3), "left");
    for draw in 0..20usize {
        assert_eq!(
            find_perfect_move_with(&me, &b, draw),
            find_perfect_move_with(&me, &b, draw)
        );
    }
}

#[test]
fn pick_move_by_draw() {
    let moves = vec![Direction::Up, Direction::Right];
    assert_eq!(pick_move(&moves, 0), Some(Direction::Up));
    assert_eq!(pick_move(&moves, 5), Some(Direction::Right));
    assert_eq!(pick_move(&vec![], 5), None);
}

#[test]
fn random_choice_stays_safe() {
    let (me, b) = open_field();
    let game = Game { id: "g".to_string() };
    let mut seen = vec![];
    for _ in 0..200 {
        let d = find_perfect_move(&me, &b).unwrap();
        assert!(d != Direction::Down);
        if !seen.contains(&d) {
            seen.push(d);
        }
        let word = get_move(&game, &1, &b, &me);
        assert!(word == "left" || word == "right" || word == "up");
    }
    assert_eq!(seen.len(), 3);
}

#[test]
fn single_safe_move_is_chosen() {
    // only up is open: left and down are walls, right is the body
    let me = snake(
        "me",
        Coord { x: 1, y: 1 },
        vec![Coord { x: 1, y: 1 }, Coord { x: 2, y: 1 }],
        2,
    );
    let b = board(vec![me.clone()]);
    assert_eq!(find_perfect_move(&me, &b), Some(Direction::Up));
    assert_eq!(get_move(&Game::default(), &0, &b, &me), "up");
}

#[test]
fn notifications_change_nothing() {
    let (me, b) = open_field();
    let game = Game { id: "g".to_string() };
    start(&game, &0, &b, &me);
    end(&game, &9, &b, &me);
    assert_eq!(safe_moves(&me, &b).len(), 3);
}
