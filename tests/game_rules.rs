use snake::cell::{get_wall_icon, GameObj, ObjType, SegmentDir};
use snake::game::{random_pellet, starting_position, Game, TickOutcome, STARTING_LENGTH};
use snake::grid::{build_boundary, draw_buffer, update_durations, Grid, HEIGHT, WIDTH};
use snake::movement::{get_direction, next_head_position, MoveDir};

fn cells(grid: &Grid) -> Vec<GameObj> {
    let mut out = Vec::new();
    for r in 0..HEIGHT {
        for c in 0..WIDTH {
            out.push(grid.get(r, c));
        }
    }
    out
}

fn snake_cell(len: u16) -> GameObj {
    GameObj { obj_type: ObjType::Snake, duration: Some(len), direction: Some(SegmentDir::NS) }
}

fn food() -> GameObj {
    GameObj { obj_type: ObjType::Food, duration: None, direction: None }
}

fn wall(d: SegmentDir) -> GameObj {
    GameObj { obj_type: ObjType::Wall, duration: None, direction: Some(d) }
}

#[test]
fn last_key_decides_direction() {
    assert_eq!(get_direction(MoveDir::Up, b"wxa"), Some(MoveDir::Left));
    assert_eq!(get_direction(MoveDir::Up, b"s"), Some(MoveDir::Down));
    assert_eq!(get_direction(MoveDir::Up, b"d"), Some(MoveDir::Right));
    assert_eq!(get_direction(MoveDir::Left, b"w"), Some(MoveDir::Up));
    assert_eq!(get_direction(MoveDir::Down, b""), Some(MoveDir::Down));
    assert_eq!(get_direction(MoveDir::Right, b"x"), Some(MoveDir::Right));
    assert_eq!(get_direction(MoveDir::Right, b"qx"), Some(MoveDir::Right));
    assert_eq!(get_direction(MoveDir::Right, b"wq"), None);
    // Reversing is allowed.
    assert_eq!(get_direction(MoveDir::Up, b"s"), Some(MoveDir::Down));
}

#[test]
fn steps_stay_in_interior() {
    let dirs = [MoveDir::Up, MoveDir::Down, MoveDir::Left, MoveDir::Right];
    for r in 1..HEIGHT - 1 {
        for c in 1..WIDTH - 1 {
            for d in dirs {
                let (nr, nc) = next_head_position((r, c), d);
                assert!(nr >= 1 && nr <= HEIGHT - 2, "row {} from ({}, {})", nr, r, c);
                assert!(nc >= 1 && nc <= WIDTH - 2, "col {} from ({}, {})", nc, r, c);
            }
        }
    }
}

#[test]
fn plain_steps_move_by_one() {
    assert_eq!(next_head_position((15, 20), MoveDir::Up), (14, 20));
    assert_eq!(next_head_position((15, 20), MoveDir::Down), (16, 20));
    assert_eq!(next_head_position((15, 20), MoveDir::Left), (15, 19));
    assert_eq!(next_head_position((15, 20), MoveDir::Right), (15, 21));
}

#[test]
fn steps_wrap_around_edges() {
    assert_eq!(next_head_position((1, 7), MoveDir::Up), (HEIGHT - 2, 7));
    assert_eq!(next_head_position((HEIGHT - 2, 7), MoveDir::Down), (1, 7));
    assert_eq!(next_head_position((9, 1), MoveDir::Left), (9, WIDTH - 2));
    assert_eq!(next_head_position((9, WIDTH - 2), MoveDir::Right), (9, 1));
    // From the wall ring itself the head lands inside too.
    assert_eq!(next_head_position((0, 0), MoveDir::Up), (28, 38));
    assert_eq!(next_head_position((HEIGHT - 1, WIDTH - 1), MoveDir::Down), (1, 1));
}

#[test]
fn boundary_has_oriented_walls() {
    let grid = starting_position(&(3, 4));
    for c in 0..WIDTH {
        for r in [0, HEIGHT - 1] {
            let expected = match (r, c) {
                (0, 0) => SegmentDir::ES,
                (0, 39) => SegmentDir::SW,
                (29, 39) => SegmentDir::WN,
                (29, 0) => SegmentDir::NE,
                _ => SegmentDir::EW,
            };
            assert_eq!(grid.get(r, c), wall(expected), "({}, {})", r, c);
        }
    }
    for r in 1..HEIGHT - 1 {
        assert_eq!(grid.get(r, 0), wall(SegmentDir::NS));
        assert_eq!(grid.get(r, WIDTH - 1), wall(SegmentDir::NS));
    }
}

#[test]
fn starting_board_contents() {
    let grid = starting_position(&(3, 4));
    assert_eq!(grid.get(15, 20), snake_cell(STARTING_LENGTH));
    assert_eq!(grid.get(4, 3), food());
    let mut empty = 0;
    for r in 1..HEIGHT - 1 {
        for c in 1..WIDTH - 1 {
            if grid.get(r, c) == GameObj::blank() {
                empty += 1;
            }
        }
    }
    assert_eq!(empty, 38 * 28 - 2);
}

#[test]
fn build_boundary_keeps_interior() {
    let mut grid = Grid::filled(food());
    build_boundary(&mut grid);
    assert_eq!(grid.get(0, 0), wall(SegmentDir::ES));
    assert_eq!(grid.get(0, 39), wall(SegmentDir::SW));
    assert_eq!(grid.get(29, 39), wall(SegmentDir::WN));
    assert_eq!(grid.get(29, 0), wall(SegmentDir::NE));
    assert_eq!(grid.get(0, 5), wall(SegmentDir::EW));
    assert_eq!(grid.get(5, 39), wall(SegmentDir::NS));
    assert_eq!(grid.get(5, 5), food());
}

#[test]
fn segments_age_and_expire() {
    let mut grid = Grid::filled(GameObj::blank());
    grid.set(2, 2, snake_cell(1));
    grid.set(3, 3, snake_cell(3));
    grid.set(4, 4, food());
    grid.set(5, 5, GameObj { obj_type: ObjType::Snake, duration: Some(0), direction: None });
    update_durations(&mut grid);
    assert_eq!(grid.get(2, 2), GameObj::blank());
    assert_eq!(grid.get(3, 3), snake_cell(2));
    assert_eq!(grid.get(4, 4), food());
    assert_eq!(grid.get(5, 5), GameObj::blank());
    update_durations(&mut grid);
    assert_eq!(grid.get(3, 3), snake_cell(1));
    update_durations(&mut grid);
    assert_eq!(grid.get(3, 3), GameObj::blank());
}

#[test]
fn eating_scores_and_grows() {
    // Pellet right above the head, at column 20, row 14.
    let mut game = Game::start((20, 14));
    assert_eq!(game.score, 0);
    assert_eq!(game.snake_length, 5);
    let out = game.step(b"", (5, 7));
    assert_eq!(out, TickOutcome::Running);
    assert_eq!(game.score, 5);
    assert_eq!(game.snake_length, 6);
    assert_eq!(game.head_pos, (14, 20));
    assert_eq!(game.grid.get(14, 20), snake_cell(6));
    assert_eq!(game.grid.get(7, 5), food());
    assert_eq!(game.grid.get(15, 20), snake_cell(4));
}

#[test]
fn counters_saturate() {
    let mut game = Game::start((20, 14));
    game.score = u64::MAX - 2;
    game.snake_length = u16::MAX;
    assert_eq!(game.step(b"", (5, 7)), TickOutcome::Running);
    assert_eq!(game.score, u64::MAX);
    assert_eq!(game.snake_length, u16::MAX);
}

#[test]
fn running_into_body_collides() {
    let mut game = Game::start((1, 1));
    game.grid.set(14, 20, snake_cell(3));
    let before = cells(&game.grid);
    let out = game.step(b"", (5, 7));
    assert_eq!(out, TickOutcome::Collided);
    assert_eq!(cells(&game.grid), before);
    assert_eq!(game.head_pos, (15, 20));
    assert_eq!(game.head_dir, MoveDir::Up);
    assert_eq!(game.score, 0);
    assert_eq!(game.snake_length, 5);
}

#[test]
fn reversing_into_body_collides() {
    let mut game = Game::start((1, 1));
    assert_eq!(game.step(b"", (5, 7)), TickOutcome::Running);
    assert_eq!(game.step(b"s", (5, 7)), TickOutcome::Collided);
    assert_eq!(game.head_pos, (14, 20));
    assert_eq!(game.head_dir, MoveDir::Up);
}

#[test]
fn quit_key_leaves_game_alone() {
    let mut game = Game::start((1, 1));
    let before = cells(&game.grid);
    assert_eq!(game.step(b"dq", (5, 7)), TickOutcome::Quit);
    assert_eq!(cells(&game.grid), before);
    assert_eq!(game.head_pos, (15, 20));
    assert_eq!(game.head_dir, MoveDir::Up);
}

#[test]
fn four_quiet_ticks_then_tail_expires() {
    let mut game = Game::start((1, 1));
    let heads = [(14, 20), (13, 20), (12, 20), (11, 20)];
    for (t, head) in heads.iter().enumerate() {
        assert_eq!(game.step(b"", (5, 7)), TickOutcome::Running);
        assert_eq!(game.head_pos, *head);
        assert_eq!(game.grid.get(head.0, head.1), snake_cell(5));
        // Earlier heads remain segments, with lifetimes falling by one per tick.
        for (k, prev) in heads[..t].iter().enumerate() {
            assert_eq!(game.grid.get(prev.0, prev.1), snake_cell((5 - (t - k)) as u16));
        }
        assert_eq!(game.grid.get(15, 20), snake_cell(4 - t as u16));
    }
    assert_eq!(game.step(b"", (5, 7)), TickOutcome::Running);
    assert_eq!(game.head_pos, (10, 20));
    assert_eq!(game.grid.get(15, 20), GameObj::blank());
    assert_eq!(game.grid.get(14, 20), snake_cell(1));
    assert_eq!(game.score, 0);
    assert_eq!(game.snake_length, 5);
}

#[test]
fn snake_keeps_its_length() {
    let mut game = Game::start((1, 1));
    for _ in 0..5 {
        assert_eq!(game.step(b"", (5, 7)), TickOutcome::Running);
    }
    let mut segments = 0;
    for r in 0..HEIGHT {
        for c in 0..WIDTH {
            if game.grid.get(r, c).obj_type == ObjType::Snake {
                segments += 1;
            }
        }
    }
    assert_eq!(segments, 5);
}

#[test]
fn glyphs_of_cells() {
    assert_eq!(GameObj::blank().get_symbol(), ".");
    assert_eq!(food().get_symbol(), "O");
    assert_eq!(snake_cell(3).get_symbol(), "x");
    assert_eq!(wall(SegmentDir::ES).get_symbol(), "┏");
    assert_eq!(get_wall_icon(Some(SegmentDir::NS)), "┃");
    assert_eq!(get_wall_icon(Some(SegmentDir::EW)), "━");
    assert_eq!(get_wall_icon(Some(SegmentDir::NE)), "┗");
    assert_eq!(get_wall_icon(Some(SegmentDir::ES)), "┏");
    assert_eq!(get_wall_icon(Some(SegmentDir::SW)), "┓");
    assert_eq!(get_wall_icon(Some(SegmentDir::WN)), "┛");
}

#[test]
fn constructors() {
    let f = GameObj::permanent(ObjType::Food, None);
    assert_eq!(f, food());
    let w = GameObj::permanent(ObjType::Wall, Some(SegmentDir::SW));
    assert_eq!(w, wall(SegmentDir::SW));
    let b = GameObj::blank();
    assert_eq!(b.obj_type, ObjType::Empty);
    assert_eq!(b.duration, None);
    assert_eq!(b.direction, None);
}

#[test]
fn drawing_the_board() {
    let grid = starting_position(&(3, 4));
    let buf = draw_buffer(&grid);
    assert_eq!(buf.len(), HEIGHT);
    assert!(buf.iter().all(|row| row.len() == WIDTH));
    assert_eq!(buf[0].join(""), format!("┏{}┓", "━".repeat(38)));
    assert_eq!(buf[29].join(""), format!("┗{}┛", "━".repeat(38)));
    assert_eq!(buf[4].join(""), format!("┃..O{}┃", ".".repeat(35)));
    assert_eq!(buf[15][20], "x");
    assert_eq!(buf[15][19], ".");
}

#[test]
fn drawing_twice_gives_same_rows() {
    let mut game = Game::start((3, 4));
    game.step(b"a", (5, 7));
    let first = draw_buffer(&game.grid);
    let second = draw_buffer(&game.grid);
    assert_eq!(first, second);
}

#[test]
fn random_pellets_fall_inside() {
    for _ in 0..2000 {
        let (x, y) = random_pellet();
        assert!(x >= 1 && (x as usize) <= WIDTH - 2);
        assert!(y >= 1 && (y as usize) <= HEIGHT - 2);
    }
}

#[test]
fn new_game_and_ticks() {
    let mut game = Game::new();
    assert_eq!(game.head_pos, (15, 20));
    assert_eq!(game.head_dir, MoveDir::Up);
    assert_eq!(game.score, 0);
    assert_eq!(game.snake_length, STARTING_LENGTH);
    let mut food_cells = 0;
    for r in 1..HEIGHT - 1 {
        for c in 1..WIDTH - 1 {
            if game.grid.get(r, c).obj_type == ObjType::Food {
                food_cells += 1;
            }
        }
    }
    assert!(food_cells <= 1);
    assert_eq!(game.tick(b"d"), TickOutcome::Running);
    assert_eq!(game.head_pos, (15, 21));
    assert_eq!(game.head_dir, MoveDir::Right);
    assert_eq!(game.tick(b"q"), TickOutcome::Quit);
}
