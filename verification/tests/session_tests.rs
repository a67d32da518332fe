use tetris_core::{
    check_collision, clear_lines, init_field, is_filled, Direction, Field, GameSession,
    SessionState, SpinType, SpinVariant, TSpinType, Tetromino, TetrominoKind,
};

const KINDS: [TetrominoKind; 7] = [
    TetrominoKind::I,
    TetrominoKind::O,
    TetrominoKind::T,
    TetrominoKind::S,
    TetrominoKind::Z,
    TetrominoKind::J,
    TetrominoKind::L,
];

#[test]
fn spawn_never_collides_on_empty_grid() {
    // every kind spawns collision-free over an empty grid
    let field = init_field(10, 20);
    for kind in KINDS {
        let piece = Tetromino::spawn(kind);
        assert!(!check_collision(&field, &piece), "kind {:?} collided at spawn", kind);
    }
}

#[test]
fn rotation_round_trip_restores_piece() {
    // on an open grid no kick is needed, so clockwise then
    // counter-clockwise restores the piece exactly
    let field = init_field(10, 20);
    for kind in KINDS {
        for rotation in 0..4u8 {
            let piece = Tetromino { kind, x: 4, y: 8, rotation };
            let there = tetris_core::attempt_srs_rotation(&piece, &field, true);
            assert_eq!(there.kick_index, 0);
            let back = tetris_core::attempt_srs_rotation(&there.tetromino, &field, false);
            assert_eq!(back.kick_index, 0);
            assert_eq!(back.tetromino, piece);
        }
    }
}

#[test]
fn clearing_an_empty_grid_changes_nothing() {
    let mut field = init_field(10, 20);
    let before = field.cells.clone();
    let cleared = clear_lines(&mut field);
    assert_eq!(cleared, 0);
    assert_eq!(field.cells, before);
    // and again: clearing stays idempotent
    let cleared = clear_lines(&mut field);
    assert_eq!(cleared, 0);
    assert_eq!(field.cells, before);
}

#[test]
fn clearing_removes_full_rows_and_shifts() {
    // 4 columns x 3 rows; the bottom row is full, the middle has a gap
    let mut field = Field {
        width: 4,
        height: 3,
        cells: vec![
            0, 1, 0, 0, // top
            1, 1, 0, 1, // middle (not full)
            1, 1, 1, 1, // bottom (full)
        ],
    };
    let cleared = clear_lines(&mut field);
    assert_eq!(cleared, 1);
    assert_eq!(
        field.cells,
        vec![
            0, 0, 0, 0, // fresh empty row on top
            0, 1, 0, 0, // old top
            1, 1, 0, 1, // old middle
        ]
    );
}

#[test]
fn t_spin_triple_scores_ten_thousand() {
    // corner count 3 around the T center, a non-zero kick index without
    // the wall-kick flag, three rows cleared: a Normal T-spin Triple
    let mut field = init_field(10, 20);
    for i in 0..10 {
        field.cells[19 * 10 + i] = 1;
    }
    field.cells[18 * 10 + 4] = 1;
    field.cells[18 * 10 + 6] = 1;
    let piece = Tetromino { kind: TetrominoKind::T, x: 4, y: 18, rotation: 0 };
    let result = tetris_core::detect_spin(&piece, &field, false, 2, 3);
    assert_eq!(result.spin_type, SpinType::TSpin);
    assert_eq!(result.variant, SpinVariant::Triple);
    assert_eq!(result.bonus, 10000);
    assert_eq!(result.lines, 3);
}

#[test]
fn t_spin_triple_locks_through_a_session() {
    // three rows full except for a T-shaped slot; the piece sits in the
    // slot, a rotation was recorded with a non-zero kick index but no
    // wall-kick flag, and the lock clears all three rows
    let mut s = GameSession::new(10, 20);
    for y in 17..20 {
        for x in 0..10 {
            s.field.cells[y * 10 + x] = 1;
        }
    }
    // the slot: the cells the T occupies at (4, 17), rotation 1
    s.field.cells[17 * 10 + 5] = 0;
    s.field.cells[18 * 10 + 5] = 0;
    s.field.cells[18 * 10 + 6] = 0;
    s.field.cells[19 * 10 + 5] = 0;
    s.spawn_with_kind(TetrominoKind::T);
    s.tetromino = Tetromino { kind: TetrominoKind::T, x: 4, y: 17, rotation: 1 };
    s.last_wallkick = false;
    s.last_kick_index = 2;
    // the piece cannot move down, so this locks it
    s.move_tetromino(Direction::Down);
    assert!(matches!(s.state, SessionState::Spawning));
    assert_eq!(s.get_last_tspin_type(), TSpinType::Normal);
    assert_eq!(s.get_stats().lines_cleared, 3);
    assert_eq!(s.get_score(), 10000);
    assert_eq!(s.get_stats().tspin_count, 1);
    assert!(s.field.cells.iter().all(|&c| c == 0));
}

#[test]
fn mini_and_normal_classifications_differ() {
    // the same corner configuration, split only by the kick index
    let mut field = init_field(10, 20);
    for i in 0..10 {
        field.cells[19 * 10 + i] = 1;
    }
    field.cells[18 * 10 + 4] = 1;
    field.cells[18 * 10 + 6] = 1;
    let piece = Tetromino { kind: TetrominoKind::T, x: 4, y: 18, rotation: 0 };
    let normal = tetris_core::detect_t_spin(&piece, &field, false, 0);
    let mini = tetris_core::detect_t_spin(&piece, &field, true, 1);
    assert_eq!(normal, TSpinType::Normal);
    assert_eq!(mini, TSpinType::Mini);
    assert_ne!(normal, mini);
}

fn session_with_garbage(kind: TetrominoKind) -> GameSession {
    let mut s = GameSession::new(10, 20);
    // an uneven floor: the bottom two rows minus a notch
    for x in 0..10 {
        s.field.cells[19 * 10 + x] = 1;
    }
    for x in 3..10 {
        s.field.cells[18 * 10 + x] = 1;
    }
    s.field.cells[19 * 10 + 1] = 0;
    let piece = s.spawn_with_kind(kind);
    assert!(matches!(s.state, SessionState::Falling));
    assert_eq!(piece.x, 4);
    s
}

#[test]
fn hard_drop_matches_repeated_soft_drops() {
    for kind in KINDS {
        // one session hard-drops
        let mut a = session_with_garbage(kind);
        a.move_tetromino(Direction::Left);
        a.rotate_tetromino(true);
        a.hard_drop();

        // the other soft-drops one row at a time until the piece locks
        let mut b = session_with_garbage(kind);
        b.move_tetromino(Direction::Left);
        b.rotate_tetromino(true);
        let mut steps = 0;
        while matches!(b.state, SessionState::Falling) {
            b.move_tetromino(Direction::Down);
            steps += 1;
            assert!(steps < 100, "the piece never locked");
        }

        assert!(matches!(a.state, SessionState::Spawning));
        assert!(matches!(b.state, SessionState::Spawning));
        assert_eq!(a.field.cells, b.field.cells, "grids differ for {:?}", kind);
        assert_eq!(a.get_score(), b.get_score(), "scores differ for {:?}", kind);
        assert_eq!(a.get_last_tspin_type(), b.get_last_tspin_type());
        assert_eq!(a.get_stats(), b.get_stats());
    }
}

#[test]
fn out_of_bounds_is_always_occupied() {
    let field = init_field(10, 20);
    assert!(is_filled(-1, 0, &field));
    assert!(is_filled(10, 0, &field));
    assert!(is_filled(0, -1, &field));
    assert!(is_filled(0, 20, &field));
    assert!(is_filled(-5, -5, &field));
    assert!(is_filled(100, 100, &field));
    // and an in-bounds empty cell is not
    assert!(!is_filled(5, 5, &field));
}

#[test]
fn session_locks_and_counts_a_line() {
    let mut s = GameSession::new(10, 20);
    // fill the bottom row except the four cells an O piece will land on
    for x in 0..10 {
        if !(5 <= x && x <= 6) {
            s.field.cells[19 * 10 + x] = 1;
            s.field.cells[18 * 10 + x] = 1;
        }
    }
    s.spawn_with_kind(TetrominoKind::O);
    assert!(matches!(s.state, SessionState::Falling));
    s.hard_drop();
    // the O piece fills (5,18),(6,18),(5,19),(6,19): both rows clear
    assert_eq!(s.get_stats().lines_cleared, 2);
    assert_eq!(s.get_stats().blocks_placed, 1);
    assert!(s.field.cells.iter().all(|&c| c == 0), "grid should be empty after the clears");
}

#[test]
fn spawn_collision_ends_the_game() {
    let mut s = GameSession::new(10, 20);
    // jam the spawn box
    for x in 0..10 {
        s.field.cells[x] = 1;
        s.field.cells[10 + x] = 1;
        s.field.cells[20 + x] = 1;
    }
    s.spawn_with_kind(TetrominoKind::T);
    assert!(matches!(s.state, SessionState::GameOver));
    // every further command is a no-op
    let before = s.field.cells.clone();
    let piece = s.tetromino;
    s.move_tetromino(Direction::Left);
    s.hard_drop();
    s.update();
    s.rotate_tetromino(true);
    s.spawn_with_kind(TetrominoKind::I);
    assert!(matches!(s.state, SessionState::GameOver));
    assert_eq!(s.field.cells, before);
    assert_eq!(s.tetromino, piece);
}

#[test]
fn rotation_history_is_recorded_and_reset() {
    let mut s = GameSession::new(10, 20);
    s.spawn_with_kind(TetrominoKind::T);
    let r = s.rotate_tetromino(true);
    assert_eq!(r.kick_index, 0);
    assert!(!r.wallkick);
    assert_eq!(s.last_kick_index, 0);
    assert_eq!(s.tetromino.rotation, 1);
    // a fresh spawn resets the history
    s.spawn_with_kind(TetrominoKind::L);
    assert_eq!(s.last_kick_index, 0);
    assert!(!s.last_wallkick);
    assert_eq!(s.get_last_tspin_type(), TSpinType::NoSpin);
}

#[test]
fn random_spawn_yields_a_fresh_piece() {
    let mut s = GameSession::new(10, 20);
    for _ in 0..50 {
        let piece = s.spawn_tetromino();
        assert_eq!(piece.x, 4);
        assert_eq!(piece.y, 0);
        assert_eq!(piece.rotation, 0);
        assert!(matches!(s.state, SessionState::Falling));
    }
}

#[test]
fn moves_respect_walls() {
    let mut s = GameSession::new(10, 20);
    s.spawn_with_kind(TetrominoKind::O);
    // the O piece occupies columns x+1 and x+2: x may go down to -1
    for _ in 0..12 {
        s.move_tetromino(Direction::Left);
    }
    assert_eq!(s.tetromino.x, -1);
    // and up to width - 3 = 7 on the right
    for _ in 0..12 {
        s.move_tetromino(Direction::Right);
    }
    assert_eq!(s.tetromino.x, 7);
}
