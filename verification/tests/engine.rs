use snake_core::{
    add1, safe_add, sub1, Direction, FoodKind, GameMode, KeyInput, LetterMover, NewSnakeChar,
    RawInput, BUFFER_HEIGHT, BUFFER_WIDTH,
};

fn playing() -> LetterMover {
    let mut m = LetterMover::default();
    m.key(KeyInput::Raw(RawInput::Shift));
    m.food.clear();
    m
}

fn feed(m: &mut LetterMover, x: usize, y: usize, kind: FoodKind) {
    m.food.clear();
    m.food.push(NewSnakeChar { x, y, kind });
}

fn head(m: &LetterMover) -> (usize, usize) {
    m.coordinates[m.coordinates.len() - 1]
}

#[test]
fn wrapping_helpers() {
    assert_eq!(safe_add::<10>(7, 8), 5);
    assert_eq!(add1::<10>(9), 0);
    assert_eq!(add1::<10>(3), 4);
    assert_eq!(sub1::<10>(0), 9);
    assert_eq!(sub1::<10>(4), 3);
}

#[test]
fn initial_state() {
    let m = LetterMover::default();
    assert_eq!(m.mode, GameMode::Welcome);
    assert_eq!(m.score, 0);
    assert_eq!(m.hi_score, 0);
    assert_eq!(m.coordinates.len(), 1);
    assert_eq!(m.coordinates[0], (10, 10));
    assert_eq!(m.food.len(), 0);
    assert_eq!(m.direction, Direction::Right);
    assert!(!m.is_digesting);
}

#[test]
fn welcome_tick_is_idle() {
    let mut m = LetterMover::default();
    m.tick();
    assert_eq!(m.mode, GameMode::Welcome);
    assert_eq!(m.ticks, 1);
    assert_eq!(m.coordinates.len(), 1);
    assert_eq!(m.score, 0);
}

#[test]
fn start_spawns_three_in_bounds() {
    let mut m = LetterMover::default();
    m.key(KeyInput::Raw(RawInput::Shift));
    assert_eq!(m.mode, GameMode::Playing);
    assert_eq!(m.food.len(), 3);
    for item in &m.food {
        assert!(item.x < BUFFER_WIDTH);
        assert!(item.y < BUFFER_HEIGHT);
    }
}

#[test]
fn spawn_replay_is_deterministic() {
    // Equal seeds give equal batches: two fresh games starting at the same
    // tick counter spawn identical food.
    let mut a = LetterMover::default();
    let mut b = LetterMover::default();
    a.key(KeyInput::Raw(RawInput::Shift));
    b.key(KeyInput::Raw(RawInput::Shift));
    assert_eq!(a.food, b.food);
}

#[test]
fn spawn_matches_seeded_generator() {
    // The batch is exactly what the seeded generator draws, in order:
    // column, row, category for each of the three items.
    let mut m = LetterMover::default();
    m.key(KeyInput::Raw(RawInput::Shift));
    let mut g = oorandom::Rand32::new(0);
    assert_eq!(m.food.len(), 3);
    for item in &m.food {
        let x = g.rand_range(0..(BUFFER_WIDTH as u32)) as usize;
        let y = g.rand_range(0..(BUFFER_HEIGHT as u32)) as usize;
        let t = g.rand_range(0..50);
        assert_eq!(*item, NewSnakeChar::from_draw(x, y, t));
    }
}

#[test]
fn shift_ignored_outside_welcome() {
    let mut m = playing();
    m.key(KeyInput::Raw(RawInput::Shift));
    assert_eq!(m.mode, GameMode::Playing);
    assert_eq!(m.food.len(), 0);
}

#[test]
fn food_table_boundaries() {
    let cases: [(u32, FoodKind); 10] = [
        (0, FoodKind::Normal),
        (25, FoodKind::Normal),
        (26, FoodKind::Special),
        (33, FoodKind::Special),
        (34, FoodKind::Evil),
        (44, FoodKind::Evil),
        (45, FoodKind::Bomb),
        (46, FoodKind::Bomb),
        (47, FoodKind::SuperEvil),
        (49, FoodKind::SuperEvil),
    ];
    for (draw, kind) in cases {
        let item = NewSnakeChar::from_draw(3, 4, draw);
        assert_eq!(item.kind, kind);
        assert_eq!(item.x, 3);
        assert_eq!(item.y, 4);
    }
}

#[test]
fn food_glyphs() {
    assert_eq!(NewSnakeChar { x: 0, y: 0, kind: FoodKind::Evil }.glyph(), 'X');
    assert_eq!(NewSnakeChar { x: 0, y: 0, kind: FoodKind::SuperEvil }.glyph(), '!');
    assert_eq!(NewSnakeChar { x: 0, y: 0, kind: FoodKind::Normal }.glyph(), 'o');
    assert_eq!(NewSnakeChar { x: 0, y: 0, kind: FoodKind::Special }.glyph(), 'o');
    assert_eq!(NewSnakeChar { x: 0, y: 0, kind: FoodKind::Bomb }.glyph(), 'o');
}

#[test]
fn placeholder_item() {
    let item = NewSnakeChar::new();
    assert_eq!(item.x, BUFFER_WIDTH / 2 + 10);
    assert_eq!(item.y, BUFFER_HEIGHT / 2 + 10);
    assert_eq!(item.kind, FoodKind::Normal);
}

#[test]
fn plain_move_keeps_length() {
    let mut m = playing();
    m.tick();
    assert_eq!(m.mode, GameMode::Playing);
    assert_eq!(head(&m), (11, 10));
    assert_eq!(m.coordinates.len(), 1);
    assert_eq!(m.score, 0);
}

#[test]
fn reversal_rejected_orthogonal_accepted() {
    let mut m = playing();
    m.key(KeyInput::Raw(RawInput::ArrowRight));
    assert_eq!(m.direction, Direction::Right);
    assert_eq!((m.dx, m.dy), (1, 0));
    // Moving right: pressing left is a no-op.
    m.key(KeyInput::Raw(RawInput::ArrowLeft));
    assert_eq!(m.direction, Direction::Right);
    assert_eq!((m.dx, m.dy), (1, 0));
    // Orthogonal change is accepted.
    m.key(KeyInput::Raw(RawInput::ArrowUp));
    assert_eq!(m.direction, Direction::Up);
    assert_eq!((m.dx, m.dy), (0, -1));
    // Moving up: pressing down is a no-op.
    m.key(KeyInput::Raw(RawInput::ArrowDown));
    assert_eq!(m.direction, Direction::Up);
    assert_eq!((m.dx, m.dy), (0, -1));
}

#[test]
fn direction_keys_filtered_by_state() {
    let mut m = LetterMover::default();
    m.key(KeyInput::Raw(RawInput::ArrowUp));
    assert_eq!(m.direction, Direction::Right);
    assert_eq!((m.dx, m.dy), (0, 0));
    m.key(KeyInput::Raw(RawInput::ArrowDown));
    assert_eq!(m.mode, GameMode::Welcome);
    assert_eq!(m.direction, Direction::Right);
}

#[test]
fn growth_follows_consumption() {
    let mut m = playing();
    feed(&mut m, 11, 10, FoodKind::Normal);
    m.tick();
    // The consumption tick itself keeps the length; growth is pending.
    assert_eq!(m.coordinates.len(), 1);
    assert!(m.is_digesting);
    assert_eq!(m.score, 1);
    assert_eq!(m.food.len(), 3);
    m.food.clear();
    m.tick();
    assert_eq!(m.coordinates.len(), 2);
    assert!(!m.is_digesting);
    assert_eq!(m.score, 1);
}

#[test]
fn consumption_echoes_glyph() {
    let mut m = playing();
    feed(&mut m, 11, 10, FoodKind::Evil);
    m.tick();
    assert_eq!(m.letters[1], 'X');
    assert_eq!(m.num_letters, 2);
    assert_eq!(m.next_letter, 2);
}

#[test]
fn score_special_doubles_evil_halves() {
    let mut m = playing();
    for i in 0..5 {
        feed(&mut m, 11 + i, 10, FoodKind::Normal);
        m.tick();
    }
    assert_eq!(m.score, 5);
    assert_eq!(head(&m), (15, 10));
    feed(&mut m, 16, 10, FoodKind::Evil);
    m.tick();
    // Integer truncation: 5 / 2 == 2.
    assert_eq!(m.score, 2);
    feed(&mut m, 17, 10, FoodKind::Special);
    m.tick();
    assert_eq!(m.score, 4);
    assert_eq!(m.mode, GameMode::Playing);
}

#[test]
fn first_match_wins() {
    let mut m = playing();
    m.food.clear();
    m.food.push(NewSnakeChar { x: 11, y: 10, kind: FoodKind::Normal });
    m.food.push(NewSnakeChar { x: 11, y: 10, kind: FoodKind::Evil });
    m.score = 8;
    m.tick();
    // Only the first of two coinciding items is consumed; the duplicate
    // survives in place, followed by the replenishing batch.
    assert_eq!(m.score, 9);
    assert_eq!(m.food.len(), 4);
    assert_eq!(m.food[0], NewSnakeChar { x: 11, y: 10, kind: FoodKind::Evil });
}

#[test]
fn bomb_clears_inventory_and_respawns() {
    let mut m = playing();
    m.food.push(NewSnakeChar { x: 11, y: 10, kind: FoodKind::Bomb });
    m.food.push(NewSnakeChar { x: 20, y: 20, kind: FoodKind::Normal });
    m.food.push(NewSnakeChar { x: 21, y: 20, kind: FoodKind::Normal });
    m.score = 3;
    m.tick();
    // The whole inventory went away; exactly one fresh batch replaced it.
    assert_eq!(m.food.len(), 3);
    for item in &m.food {
        assert!(!(item.x == 20 && item.y == 20 && item.kind == FoodKind::Normal));
    }
    assert_eq!(m.score, 3);
    assert!(m.is_digesting);
    assert_eq!(m.mode, GameMode::Playing);
}

#[test]
fn super_evil_ends_game_without_growth() {
    let mut m = playing();
    feed(&mut m, 11, 10, FoodKind::SuperEvil);
    m.score = 7;
    m.tick();
    assert_eq!(m.mode, GameMode::GameOver);
    assert_eq!(m.score, 7);
    assert_eq!(m.coordinates.len(), 1);
    assert!(!m.is_digesting);
    // No further inventory mutation: the item is still there.
    assert_eq!(m.food.len(), 1);
}

#[test]
fn wall_exit_right() {
    let mut m = playing();
    // Head starts at (10, 10) heading right: W - 11 ticks reach the wall.
    for _ in 0..(BUFFER_WIDTH - 11) {
        m.tick();
        assert_eq!(m.mode, GameMode::Playing);
    }
    assert_eq!(head(&m), (BUFFER_WIDTH - 1, 10));
    m.tick();
    assert_eq!(m.mode, GameMode::GameOver);
    // Never a wrapped position: the body stands as it was.
    assert_eq!(head(&m), (BUFFER_WIDTH - 1, 10));
    assert_eq!(m.coordinates.len(), 1);
}

#[test]
fn wall_exit_top() {
    let mut m = playing();
    m.key(KeyInput::Raw(RawInput::ArrowUp));
    for _ in 0..10 {
        m.tick();
        assert_eq!(m.mode, GameMode::Playing);
    }
    assert_eq!(head(&m), (10, 0));
    m.tick();
    assert_eq!(m.mode, GameMode::GameOver);
    assert_eq!(head(&m), (10, 0));
}

#[test]
fn self_collision_ends_game() {
    let mut m = playing();
    // Grow to five cells with four normal items along the path.
    for i in 0..4 {
        feed(&mut m, 11 + i, 10, FoodKind::Normal);
        m.tick();
    }
    m.food.clear();
    m.tick();
    assert_eq!(m.coordinates.len(), 5);
    assert_eq!(head(&m), (15, 10));
    // Turn back into the body: up, left, then down.
    m.key(KeyInput::Raw(RawInput::ArrowUp));
    m.tick();
    m.key(KeyInput::Raw(RawInput::ArrowLeft));
    m.tick();
    assert_eq!(m.mode, GameMode::Playing);
    m.key(KeyInput::Raw(RawInput::ArrowDown));
    m.tick();
    assert_eq!(m.mode, GameMode::GameOver);
    assert_eq!(m.coordinates.len(), 5);
    assert_eq!(m.score, 4);
}

#[test]
fn tail_chase_is_legal() {
    // A length-4 snake circling a 2x2 square steps into the cell its tail
    // vacates on every tick: that is a legal move, not a collision.
    let mut m = playing();
    m.coordinates.clear();
    m.coordinates.push((10, 10));
    m.coordinates.push((11, 10));
    m.coordinates.push((11, 9));
    m.coordinates.push((10, 9));
    m.direction = Direction::Down;
    m.dx = 0;
    m.dy = 1;
    let turns = [
        RawInput::ArrowRight,
        RawInput::ArrowUp,
        RawInput::ArrowLeft,
        RawInput::ArrowDown,
    ];
    // Two full laps around the square.
    for turn in turns.iter().cycle().take(8) {
        m.tick();
        assert_eq!(m.mode, GameMode::Playing);
        assert_eq!(m.coordinates.len(), 4);
        m.key(KeyInput::Raw(*turn));
    }
    assert_eq!(head(&m), (10, 9));
}

#[test]
fn tail_chase_fatal_while_growing() {
    // With a digestion pending the tail is not vacated, so stepping onto it
    // is a real collision.
    let mut m = playing();
    m.coordinates.clear();
    m.coordinates.push((10, 10));
    m.coordinates.push((11, 10));
    m.coordinates.push((11, 9));
    m.coordinates.push((10, 9));
    m.direction = Direction::Down;
    m.dx = 0;
    m.dy = 1;
    m.is_digesting = true;
    m.tick();
    assert_eq!(m.mode, GameMode::GameOver);
    assert_eq!(m.coordinates.len(), 4);
    assert_eq!(head(&m), (10, 9));
}

#[test]
fn restart_resets_round_keeps_high_score() {
    let mut m = playing();
    feed(&mut m, 11, 10, FoodKind::Normal);
    m.tick();
    assert_eq!(m.score, 1);
    m.food.clear();
    m.key(KeyInput::Raw(RawInput::ArrowUp));
    for _ in 0..11 {
        m.tick();
    }
    assert_eq!(m.mode, GameMode::GameOver);
    assert_eq!(m.hi_score, 1);
    m.key(KeyInput::Raw(RawInput::ArrowDown));
    assert_eq!(m.mode, GameMode::Playing);
    assert_eq!(m.score, 0);
    assert_eq!(m.coordinates.len(), 1);
    assert_eq!(m.coordinates[0], (10, 10));
    assert_eq!(m.hi_score, 1);
    assert_eq!(m.food.len(), 3);
    assert_eq!(m.ticks, 0);
    assert_eq!(m.direction, Direction::Right);
    assert_eq!((m.dx, m.dy), (1, 0));
}

#[test]
fn game_over_tick_is_idle() {
    let mut m = playing();
    m.key(KeyInput::Raw(RawInput::ArrowUp));
    for _ in 0..11 {
        m.tick();
    }
    assert_eq!(m.mode, GameMode::GameOver);
    let body = m.coordinates.clone();
    let score = m.score;
    m.tick();
    assert_eq!(m.mode, GameMode::GameOver);
    assert_eq!(m.coordinates, body);
    assert_eq!(m.score, score);
    // Movement input is not accepted in game over.
    m.key(KeyInput::Raw(RawInput::ArrowLeft));
    assert_eq!(m.direction, Direction::Up);
}

#[test]
fn letters_buffer_wraps() {
    let mut m = LetterMover::default();
    m.key(KeyInput::Unicode('a'));
    assert_eq!(m.letters[1], 'a');
    assert_eq!(m.next_letter, 2);
    assert_eq!(m.num_letters, 2);
    // A non-drawable character is ignored.
    m.key(KeyInput::Unicode('\n'));
    assert_eq!(m.next_letter, 2);
    assert_eq!(m.num_letters, 2);
    // The write position wraps around the buffer width.
    m.next_letter = BUFFER_WIDTH - 1;
    m.key(KeyInput::Unicode('b'));
    assert_eq!(m.letters[BUFFER_WIDTH - 1], 'b');
    assert_eq!(m.next_letter, 0);
}
