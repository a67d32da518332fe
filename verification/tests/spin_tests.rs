use tetris_core::{
    count_corners, detect_i_spin, detect_jl_spin, detect_spin, detect_sz_spin, get_center_block,
    get_corner_positions, Field, SpinType, SpinVariant, Tetromino, TetrominoKind,
};

fn full_field() -> Field {
    // every cell occupied: all corner probes count as filled
    Field { width: 10, height: 20, cells: vec![1; 200] }
}

fn piece(kind: TetrominoKind, rotation: u8) -> Tetromino {
    Tetromino { kind, x: 4, y: 4, rotation }
}

#[test]
fn family_spins_require_a_wall_kick() {
    let f = full_field();
    assert_eq!(detect_sz_spin(&piece(TetrominoKind::S, 0), &f, true), SpinType::SZSpin);
    assert_eq!(detect_sz_spin(&piece(TetrominoKind::S, 0), &f, false), SpinType::NoSpin);
    assert_eq!(detect_sz_spin(&piece(TetrominoKind::Z, 2), &f, true), SpinType::SZSpin);
    assert_eq!(detect_i_spin(&piece(TetrominoKind::I, 0), &f, true), SpinType::ISpin);
    assert_eq!(detect_i_spin(&piece(TetrominoKind::I, 0), &f, false), SpinType::NoSpin);
    assert_eq!(detect_jl_spin(&piece(TetrominoKind::J, 1), &f, true), SpinType::JLSpin);
    assert_eq!(detect_jl_spin(&piece(TetrominoKind::L, 3), &f, true), SpinType::JLSpin);
    assert_eq!(detect_jl_spin(&piece(TetrominoKind::L, 3), &f, false), SpinType::NoSpin);
    // the wrong family never qualifies
    assert_eq!(detect_sz_spin(&piece(TetrominoKind::T, 0), &f, true), SpinType::NoSpin);
    assert_eq!(detect_i_spin(&piece(TetrominoKind::J, 0), &f, true), SpinType::NoSpin);
    assert_eq!(detect_jl_spin(&piece(TetrominoKind::I, 0), &f, true), SpinType::NoSpin);
}

#[test]
fn bonus_table_per_family() {
    let f = full_field();
    // S/Z: 800, 2000, 4000
    let r = detect_spin(&piece(TetrominoKind::S, 0), &f, true, 1, 1);
    assert_eq!((r.spin_type, r.variant, r.bonus), (SpinType::SZSpin, SpinVariant::Single, 800));
    let r = detect_spin(&piece(TetrominoKind::Z, 0), &f, true, 1, 2);
    assert_eq!((r.spin_type, r.variant, r.bonus), (SpinType::SZSpin, SpinVariant::Double, 2000));
    let r = detect_spin(&piece(TetrominoKind::S, 1), &f, true, 1, 3);
    assert_eq!((r.spin_type, r.variant, r.bonus), (SpinType::SZSpin, SpinVariant::Triple, 4000));
    // I: 600, 1500, 3000
    let r = detect_spin(&piece(TetrominoKind::I, 0), &f, true, 1, 1);
    assert_eq!((r.spin_type, r.variant, r.bonus), (SpinType::ISpin, SpinVariant::Single, 600));
    let r = detect_spin(&piece(TetrominoKind::I, 1), &f, true, 1, 2);
    assert_eq!((r.spin_type, r.variant, r.bonus), (SpinType::ISpin, SpinVariant::Double, 1500));
    let r = detect_spin(&piece(TetrominoKind::I, 2), &f, true, 1, 3);
    assert_eq!((r.spin_type, r.variant, r.bonus), (SpinType::ISpin, SpinVariant::Triple, 3000));
    // J/L: 700, 1800, 3500
    let r = detect_spin(&piece(TetrominoKind::J, 0), &f, true, 1, 1);
    assert_eq!((r.spin_type, r.variant, r.bonus), (SpinType::JLSpin, SpinVariant::Single, 700));
    let r = detect_spin(&piece(TetrominoKind::L, 0), &f, true, 1, 2);
    assert_eq!((r.spin_type, r.variant, r.bonus), (SpinType::JLSpin, SpinVariant::Double, 1800));
    let r = detect_spin(&piece(TetrominoKind::J, 2), &f, true, 1, 3);
    assert_eq!((r.spin_type, r.variant, r.bonus), (SpinType::JLSpin, SpinVariant::Triple, 3500));
    // T Normal: 2000, 5000, 10000; T Mini: 1000, 2000, 3000
    let r = detect_spin(&piece(TetrominoKind::T, 0), &f, false, 0, 1);
    assert_eq!((r.spin_type, r.variant, r.bonus), (SpinType::TSpin, SpinVariant::Single, 2000));
    let r = detect_spin(&piece(TetrominoKind::T, 0), &f, false, 0, 2);
    assert_eq!((r.spin_type, r.variant, r.bonus), (SpinType::TSpin, SpinVariant::Double, 5000));
    let r = detect_spin(&piece(TetrominoKind::T, 0), &f, true, 2, 2);
    assert_eq!((r.spin_type, r.variant, r.bonus), (SpinType::TSpin, SpinVariant::Mini, 2000));
    let r = detect_spin(&piece(TetrominoKind::T, 0), &f, true, 2, 3);
    assert_eq!((r.spin_type, r.variant, r.bonus), (SpinType::TSpin, SpinVariant::Mini, 3000));
}

#[test]
fn no_spin_means_no_bonus() {
    // a credited family needs the wall-kick flag: without it the lock
    // carries its line count but no bonus and no variant
    let f = full_field();
    let r = detect_spin(&piece(TetrominoKind::S, 0), &f, false, 0, 2);
    assert_eq!((r.spin_type, r.variant, r.bonus, r.lines), (SpinType::NoSpin, SpinVariant::NoVariant, 0, 2));
    let r = detect_spin(&piece(TetrominoKind::I, 0), &f, false, 0, 1);
    assert_eq!((r.spin_type, r.variant, r.bonus, r.lines), (SpinType::NoSpin, SpinVariant::NoVariant, 0, 1));
    // the O kind never scores a spin
    let r = detect_spin(&piece(TetrominoKind::O, 0), &f, true, 1, 4);
    assert_eq!((r.spin_type, r.variant, r.bonus, r.lines), (SpinType::NoSpin, SpinVariant::NoVariant, 0, 4));
    // a spin with no lines cleared is credited but worth nothing
    let r = detect_spin(&piece(TetrominoKind::S, 0), &f, true, 1, 0);
    assert_eq!((r.spin_type, r.bonus, r.lines), (SpinType::SZSpin, 0, 0));
}

#[test]
fn i_corner_probes_follow_the_long_axis() {
    let t_horizontal = piece(TetrominoKind::I, 0);
    let center = get_center_block(&t_horizontal);
    assert_eq!(center, (5, 5));
    let corners = get_corner_positions(center, &t_horizontal);
    assert_eq!(corners, [(3, 4), (7, 4), (3, 6), (7, 6)]);
    let t_vertical = piece(TetrominoKind::I, 1);
    let corners = get_corner_positions(center, &t_vertical);
    assert_eq!(corners, [(4, 3), (6, 3), (4, 7), (6, 7)]);
    // other kinds probe the diagonal neighbors
    let t = piece(TetrominoKind::T, 0);
    let corners = get_corner_positions(center, &t);
    assert_eq!(corners, [(4, 4), (6, 4), (4, 6), (6, 6)]);
    // a fully occupied grid shows four filled corners
    assert_eq!(count_corners(center, &t, &full_field()), 4);
}
