use tetris_core::{
    attempt_srs_rotation, check_collision, count_t_spin_corners, detect_spin, detect_t_spin,
    get_t_center_block, get_tetromino_blocks, is_filled, Field, SpinType, TSpinType, Tetromino,
    TetrominoKind,
};

#[test]
fn test_t_spin_detection() {
    // an empty grid
    let field = Field { width: 10, height: 20, cells: vec![0; 200] };

    // a T piece at spawn orientation, near the bottom
    let t_tetromino = Tetromino { kind: TetrominoKind::T, x: 4, y: 18, rotation: 0 };

    // a normal T spin: three corners occupied
    let mut field_with_walls = field.clone();
    // fill the bottom row
    for i in 0..10 {
        field_with_walls.cells[19 * 10 + i] = 1;
    }
    // fill the cells left and right of the T center (5, 19)
    field_with_walls.cells[18 * 10 + 4] = 1; // left (4, 18)
    field_with_walls.cells[18 * 10 + 6] = 1; // right (6, 18)

    let result = detect_t_spin(&t_tetromino, &field_with_walls, false, 0);
    assert_eq!(result, TSpinType::Normal);

    // a T spin reached through a wall kick is Mini
    let result = detect_t_spin(&t_tetromino, &field_with_walls, true, 1);
    assert_eq!(result, TSpinType::Mini);

    // no piece but T can score a T spin
    let i_tetromino = Tetromino { kind: TetrominoKind::I, x: 4, y: 18, rotation: 0 };
    let result = detect_t_spin(&i_tetromino, &field_with_walls, false, 0);
    assert_eq!(result, TSpinType::NoSpin);

    // two corners or fewer is no T spin
    let mut field_partial = field.clone();
    field_partial.cells[19 * 10 + 5] = 1; // below the center only
    let result = detect_t_spin(&t_tetromino, &field_partial, false, 0);
    assert_eq!(result, TSpinType::NoSpin);
}

#[test]
fn test_t_center_block() {
    let t_tetromino = Tetromino { kind: TetrominoKind::T, x: 4, y: 18, rotation: 0 };
    let center = get_t_center_block(&t_tetromino);
    assert_eq!(center, (5, 19)); // x+1, y+1
}

#[test]
fn test_corner_counting() {
    let field = Field { width: 10, height: 20, cells: vec![0; 200] };
    let tetromino = Tetromino { kind: TetrominoKind::T, x: 4, y: 4, rotation: 0 };
    let center = get_t_center_block(&tetromino);
    let corners = count_t_spin_corners(center, &field);
    assert_eq!(corners, 0);
}

#[test]
fn test_srs_rotation() {
    let field = Field { width: 10, height: 20, cells: vec![0; 200] };
    let tetromino = Tetromino { kind: TetrominoKind::T, x: 4, y: 4, rotation: 0 };
    let result = attempt_srs_rotation(&tetromino, &field, true);
    assert_eq!(result.tetromino.rotation, 1);
    assert!(!result.wallkick); // a plain rotation needs no wall kick
}

#[test]
fn test_srs_rotation_with_wallkick() {
    let mut field = Field { width: 10, height: 20, cells: vec![0; 200] };
    // fill the rightmost column
    for y in 0..20 {
        field.cells[y * 10 + 9] = 1;
    }
    let tetromino = Tetromino { kind: TetrominoKind::T, x: 7, y: 4, rotation: 0 };
    let result = attempt_srs_rotation(&tetromino, &field, true);
    assert_eq!(result.tetromino.rotation, 1);
    assert!(result.wallkick); // the wall forces a kick
    assert!(result.kick_index > 0);
}

#[test]
fn test_spin_detection_integration() {
    let mut field = Field {
        width: 10,
        height: 21, // one extra row so that y = 20 is the floor
        cells: vec![0; 210],
    };

    // fill the floor (y = 20)
    for x in 0..10 {
        field.cells[20 * 10 + x] = 1;
    }

    // fill the left and right walls
    for y in 0..21 {
        field.cells[y * 10 + 0] = 1;
        field.cells[y * 10 + 9] = 1;
    }

    // a T piece already rotated a quarter turn, hugging the left wall
    let tetromino = Tetromino { kind: TetrominoKind::T, x: 0, y: 18, rotation: 1 };

    // the center after rotation
    let center_x = tetromino.x + 1;
    let center_y = tetromino.y + 1;
    println!("center: ({}, {})", center_x, center_y);

    // the four corner positions around the center
    let corners = [
        (center_x - 1, center_y - 1),
        (center_x + 1, center_y - 1),
        (center_x - 1, center_y + 1),
        (center_x + 1, center_y + 1),
    ];
    println!("corners: {:?}", corners);

    for (i, &(x, y)) in corners.iter().enumerate() {
        let filled = is_filled(x, y, &field);
        println!(
            "corner {}: ({}, {}) -> filled: {} (field: {}x{})",
            i, x, y, filled, field.width, field.height
        );
    }

    // coordinates outside the grid count as occupied
    println!("field boundary test:");
    println!("(-1, 0) -> filled: {}", is_filled(-1, 0, &field));
    println!("(10, 0) -> filled: {}", is_filled(10, 0, &field));
    println!("(0, -1) -> filled: {}", is_filled(0, -1, &field));
    println!("(0, 21) -> filled: {}", is_filled(0, 21, &field));

    // classify with a recorded wall kick at index 1
    let spin_result = detect_spin(&tetromino, &field, true, 1, 1);
    println!("spin_result: {:?}", spin_result);

    let center = get_t_center_block(&tetromino);
    let corner_count = count_t_spin_corners(center, &field);
    println!("T-spin corner count: {} (center: {:?})", corner_count, center);

    assert_eq!(spin_result.spin_type, SpinType::TSpin, "no T spin was detected");
    assert!(spin_result.bonus > 0, "the bonus score is zero");
}

#[test]
fn test_collision_detection() {
    let mut field = Field { width: 10, height: 20, cells: vec![0; 200] };
    // a free position: the middle of the grid is empty
    let tetromino = Tetromino { kind: TetrominoKind::T, x: 4, y: 9, rotation: 0 };
    let blocks =
        get_tetromino_blocks(tetromino.kind, tetromino.x, tetromino.y, tetromino.rotation);
    println!("tetromino blocks: {:?}", blocks);
    assert!(!check_collision(&field, &tetromino));
    // a colliding position: put a block in the middle
    field.cells[10 * 10 + 5] = 1;
    let colliding_tetromino = tetromino.clone();
    let blocks2 = get_tetromino_blocks(
        colliding_tetromino.kind,
        colliding_tetromino.x,
        colliding_tetromino.y,
        colliding_tetromino.rotation,
    );
    println!("colliding blocks: {:?}", blocks2);
    assert!(check_collision(&field, &colliding_tetromino));
}
