use vstd::prelude::*;

use crate::grid::Field;
use crate::piece::Tetromino;
use crate::piece::TetrominoKind;

verus! {

/// Classification of a locked T piece.
#[derive(Clone, Copy, PartialEq, Eq, Structural, Debug)]
pub enum TSpinType {
    NoSpin,
    Mini,
    Normal,
}

/// Which spin family a lock was credited to, if any.
#[derive(Clone, Copy, PartialEq, Eq, Structural, Debug)]
pub enum SpinType {
    NoSpin,
    TSpin,
    SZSpin,
    ISpin,
    JLSpin,
}

/// How many lines a credited spin cleared, or `Mini` for a reduced
/// T spin.
#[derive(Clone, Copy, PartialEq, Eq, Structural, Debug)]
pub enum SpinVariant {
    NoVariant,
    Single,
    Double,
    Triple,
    Mini,
}

/// The outcome of spin classification at lock time: the family, the
/// variant, the bonus score and the number of lines cleared.
#[derive(Clone, Copy, PartialEq, Eq, Structural, Debug)]
pub struct SpinResult {
    pub spin_type: SpinType,
    pub variant: SpinVariant,
    pub bonus: u32,
    pub lines: u32,
}

/// A coordinate loose enough for corner-probe arithmetic: the probes
/// reach at most two cells away, so anything this far from the `i32`
/// boundaries is safe.
pub open spec fn center_ok(c: int) -> bool {
    -0x7000_0000 <= c <= 0x7000_0000
}

/// The center cell of a piece: one step right and down from the anchor,
/// uniformly for every kind.
pub open spec fn spec_center(t: Tetromino) -> (int, int) {
    (t.x + 1, t.y + 1)
}

/// The center cell of a T piece.
pub fn get_t_center_block(tetromino: &Tetromino) -> (r: (i32, i32))
    requires
        tetromino.pos_ok(),
    ensures
        (r.0 as int, r.1 as int) == spec_center(*tetromino),
{
    (tetromino.x + 1, tetromino.y + 1)
}

/// The center cell of any piece; every kind shares the same offset.
pub fn get_center_block(tetromino: &Tetromino) -> (r: (i32, i32))
    requires
        tetromino.pos_ok(),
    ensures
        (r.0 as int, r.1 as int) == spec_center(*tetromino),
{
    match tetromino.kind {
        TetrominoKind::T => (tetromino.x + 1, tetromino.y + 1),
        TetrominoKind::S | TetrominoKind::Z => (tetromino.x + 1, tetromino.y + 1),
        TetrominoKind::I => (tetromino.x + 1, tetromino.y + 1),
        TetrominoKind::J | TetrominoKind::L => (tetromino.x + 1, tetromino.y + 1),
        TetrominoKind::O => (tetromino.x + 1, tetromino.y + 1),
    }
}

/// The four corner probes around a center: the diagonal neighbors, except
/// for the long I kind, whose probes sit two cells out along its axis
/// (horizontal at rotations 0 and 2, vertical at 1 and 3).
pub open spec fn corner_table(t: Tetromino, cx: int, cy: int) -> Seq<(int, int)> {
    if t.kind == TetrominoKind::I {
        if t.rotation == 0 || t.rotation == 2 {
            seq![(cx - 2, cy - 1), (cx + 2, cy - 1), (cx - 2, cy + 1), (cx + 2, cy + 1)]
        } else if t.rotation == 1 || t.rotation == 3 {
            seq![(cx - 1, cy - 2), (cx + 1, cy - 2), (cx - 1, cy + 2), (cx + 1, cy + 2)]
        } else {
            seq![(cx - 1, cy - 1), (cx + 1, cy - 1), (cx - 1, cy + 1), (cx + 1, cy + 1)]
        }
    } else {
        seq![(cx - 1, cy - 1), (cx + 1, cy - 1), (cx - 1, cy + 1), (cx + 1, cy + 1)]
    }
}

/// How many of the piece's four corner probes are occupied.
pub open spec fn spec_count_corners(t: Tetromino, f: Field, cx: int, cy: int) -> int {
    let c = corner_table(t, cx, cy);
    (if f.filled(c[0].0, c[0].1) {
        1int
    } else {
        0int
    }) + (if f.filled(c[1].0, c[1].1) {
        1int
    } else {
        0int
    }) + (if f.filled(c[2].0, c[2].1) {
        1int
    } else {
        0int
    }) + (if f.filled(c[3].0, c[3].1) {
        1int
    } else {
        0int
    })
}

/// How many of the four diagonal neighbors of a T center are occupied.
pub open spec fn spec_count_t_corners(f: Field, cx: int, cy: int) -> int {
    (if f.filled(cx - 1, cy - 1) {
        1int
    } else {
        0int
    }) + (if f.filled(cx + 1, cy - 1) {
        1int
    } else {
        0int
    }) + (if f.filled(cx - 1, cy + 1) {
        1int
    } else {
        0int
    }) + (if f.filled(cx + 1, cy + 1) {
        1int
    } else {
        0int
    })
}

/// The four corner probes of a piece around `center`.
pub fn get_corner_positions(center: (i32, i32), tetromino: &Tetromino) -> (r: [(i32, i32); 4])
    requires
        center_ok(center.0 as int),
        center_ok(center.1 as int),
    ensures
        forall|i: int|
            0 <= i < 4 ==> ((#[trigger] r@[i]).0 as int, r@[i].1 as int) == corner_table(
                *tetromino,
                center.0 as int,
                center.1 as int,
            )[i],
{
    let (cx, cy) = center;
    match tetromino.kind {
        TetrominoKind::I => {
            match tetromino.rotation {
                0 | 2 => [
                    (cx - 2, cy - 1),
                    (cx + 2, cy - 1),
                    (cx - 2, cy + 1),
                    (cx + 2, cy + 1),
                ],
                1 | 3 => [
                    (cx - 1, cy - 2),
                    (cx + 1, cy - 2),
                    (cx - 1, cy + 2),
                    (cx + 1, cy + 2),
                ],
                _ => [(cx - 1, cy - 1), (cx + 1, cy - 1), (cx - 1, cy + 1), (cx + 1, cy + 1)],
            }
        },
        _ => [(cx - 1, cy - 1), (cx + 1, cy - 1), (cx - 1, cy + 1), (cx + 1, cy + 1)],
    }
}

/// Count the occupied corner probes of a piece around `center`.
pub fn count_corners(center: (i32, i32), tetromino: &Tetromino, field: &Field) -> (r: usize)
    requires
        field.wf(),
        center_ok(center.0 as int),
        center_ok(center.1 as int),
    ensures
        r as int == spec_count_corners(*tetromino, *field, center.0 as int, center.1 as int),
{
    let corners = get_corner_positions(center, tetromino);
    let mut count: usize = 0;
    if crate::grid::is_filled(corners[0].0, corners[0].1, field) {
        count = count + 1;
    }
    if crate::grid::is_filled(corners[1].0, corners[1].1, field) {
        count = count + 1;
    }
    if crate::grid::is_filled(corners[2].0, corners[2].1, field) {
        count = count + 1;
    }
    if crate::grid::is_filled(corners[3].0, corners[3].1, field) {
        count = count + 1;
    }
    count
}

/// Count the occupied diagonal corners around a T center.
pub fn count_t_spin_corners(center: (i32, i32), field: &Field) -> (r: usize)
    requires
        field.wf(),
        center_ok(center.0 as int),
        center_ok(center.1 as int),
    ensures
        r as int == spec_count_t_corners(*field, center.0 as int, center.1 as int),
{
    let (cx, cy) = center;
    let mut count: usize = 0;
    if crate::grid::is_filled(cx - 1, cy - 1, field) {
        count = count + 1;
    }
    if crate::grid::is_filled(cx + 1, cy - 1, field) {
        count = count + 1;
    }
    if crate::grid::is_filled(cx - 1, cy + 1, field) {
        count = count + 1;
    }
    if crate::grid::is_filled(cx + 1, cy + 1, field) {
        count = count + 1;
    }
    count
}

/// T-spin classification: only a T piece qualifies, only with at least
/// three occupied corners; a genuine wall kick (positive kick index)
/// reduces it to Mini, otherwise it is Normal.
pub open spec fn spec_detect_t_spin(
    t: Tetromino,
    f: Field,
    wallkick: bool,
    kick_index: int,
) -> TSpinType {
    if t.kind != TetrominoKind::T {
        TSpinType::NoSpin
    } else if spec_count_t_corners(f, t.x + 1, t.y + 1) >= 3 {
        if wallkick && kick_index > 0 {
            TSpinType::Mini
        } else {
            TSpinType::Normal
        }
    } else {
        TSpinType::NoSpin
    }
}

/// Classify a locked T piece from the grid and the rotation history.
pub fn detect_t_spin(tetromino: &Tetromino, field: &Field, wallkick: bool, kick_index: i32) -> (r:
    TSpinType)
    requires
        field.wf(),
        tetromino.pos_ok(),
    ensures
        r == spec_detect_t_spin(*tetromino, *field, wallkick, kick_index as int),
{
    if !matches!(tetromino.kind, TetrominoKind::T) {
        return TSpinType::NoSpin;
    }
    let center = get_t_center_block(tetromino);
    let corners = count_t_spin_corners(center, field);
    if corners >= 3 {
        if wallkick && kick_index > 0 {
            TSpinType::Mini
        } else {
            TSpinType::Normal
        }
    } else {
        TSpinType::NoSpin
    }
}

/// Family classification for S and Z pieces: credited only when the last
/// rotation used a wall kick and at least three corner probes are
/// occupied.
pub open spec fn spec_detect_sz_spin(t: Tetromino, f: Field, wallkick: bool) -> SpinType {
    if (t.kind == TetrominoKind::S || t.kind == TetrominoKind::Z) && wallkick
        && spec_count_corners(t, f, t.x + 1, t.y + 1) >= 3 {
        SpinType::SZSpin
    } else {
        SpinType::NoSpin
    }
}

/// Family classification for the I piece, under the same rule.
pub open spec fn spec_detect_i_spin(t: Tetromino, f: Field, wallkick: bool) -> SpinType {
    if t.kind == TetrominoKind::I && wallkick && spec_count_corners(t, f, t.x + 1, t.y + 1)
        >= 3 {
        SpinType::ISpin
    } else {
        SpinType::NoSpin
    }
}

/// Family classification for J and L pieces, under the same rule.
pub open spec fn spec_detect_jl_spin(t: Tetromino, f: Field, wallkick: bool) -> SpinType {
    if (t.kind == TetrominoKind::J || t.kind == TetrominoKind::L) && wallkick
        && spec_count_corners(t, f, t.x + 1, t.y + 1) >= 3 {
        SpinType::JLSpin
    } else {
        SpinType::NoSpin
    }
}

/// Detect an S/Z spin from the grid and the wall-kick flag.
pub fn detect_sz_spin(tetromino: &Tetromino, field: &Field, wallkick: bool) -> (r: SpinType)
    requires
        field.wf(),
        tetromino.pos_ok(),
    ensures
        r == spec_detect_sz_spin(*tetromino, *field, wallkick),
{
    if !matches!(tetromino.kind, TetrominoKind::S | TetrominoKind::Z) {
        return SpinType::NoSpin;
    }
    if !wallkick {
        return SpinType::NoSpin;
    }
    let center = get_center_block(tetromino);
    let corners = count_corners(center, tetromino, field);
    if corners >= 3 {
        SpinType::SZSpin
    } else {
        SpinType::NoSpin
    }
}

/// Detect an I spin from the grid and the wall-kick flag.
pub fn detect_i_spin(tetromino: &Tetromino, field: &Field, wallkick: bool) -> (r: SpinType)
    requires
        field.wf(),
        tetromino.pos_ok(),
    ensures
        r == spec_detect_i_spin(*tetromino, *field, wallkick),
{
    if !matches!(tetromino.kind, TetrominoKind::I) {
        return SpinType::NoSpin;
    }
    if !wallkick {
        return SpinType::NoSpin;
    }
    let center = get_center_block(tetromino);
    let corners = count_corners(center, tetromino, field);
    if corners >= 3 {
        SpinType::ISpin
    } else {
        SpinType::NoSpin
    }
}

/// Detect a J/L spin from the grid and the wall-kick flag.
pub fn detect_jl_spin(tetromino: &Tetromino, field: &Field, wallkick: bool) -> (r: SpinType)
    requires
        field.wf(),
        tetromino.pos_ok(),
    ensures
        r == spec_detect_jl_spin(*tetromino, *field, wallkick),
{
    if !matches!(tetromino.kind, TetrominoKind::J | TetrominoKind::L) {
        return SpinType::NoSpin;
    }
    if !wallkick {
        return SpinType::NoSpin;
    }
    let center = get_center_block(tetromino);
    let corners = count_corners(center, tetromino, field);
    if corners >= 3 {
        SpinType::JLSpin
    } else {
        SpinType::NoSpin
    }
}

/// The variant a credited spin reports for a number of cleared lines.
pub open spec fn spec_lines_variant(lines: int) -> SpinVariant {
    if lines == 1 {
        SpinVariant::Single
    } else if lines == 2 {
        SpinVariant::Double
    } else if lines == 3 {
        SpinVariant::Triple
    } else {
        SpinVariant::NoVariant
    }
}

/// The bonus table, keyed by family (with the reduced T table when
/// `mini`) and the number of cleared lines; any uncredited combination
/// is worth nothing.
pub open spec fn spec_spin_bonus(family: SpinType, mini: bool, lines: int) -> int {
    match family {
        SpinType::TSpin => if mini {
            if lines == 1 {
                1000
            } else if lines == 2 {
                2000
            } else if lines == 3 {
                3000
            } else {
                0
            }
        } else {
            if lines == 1 {
                2000
            } else if lines == 2 {
                5000
            } else if lines == 3 {
                10000
            } else {
                0
            }
        },
        SpinType::SZSpin => if lines == 1 {
            800
        } else if lines == 2 {
            2000
        } else if lines == 3 {
            4000
        } else {
            0
        },
        SpinType::ISpin => if lines == 1 {
            600
        } else if lines == 2 {
            1500
        } else if lines == 3 {
            3000
        } else {
            0
        },
        SpinType::JLSpin => if lines == 1 {
            700
        } else if lines == 2 {
            1800
        } else if lines == 3 {
            3500
        } else {
            0
        },
        SpinType::NoSpin => 0,
    }
}

/// The full classification of a lock: family from the piece, grid and
/// rotation history; bonus and variant from the family and the cleared
/// line count. A lock with no credited spin carries no bonus and no
/// variant. A Mini T spin reports the `Mini` variant.
pub open spec fn spec_detect_spin(
    t: Tetromino,
    f: Field,
    wallkick: bool,
    kick_index: int,
    lines: int,
) -> SpinResult {
    match t.kind {
        TetrominoKind::T => {
            match spec_detect_t_spin(t, f, wallkick, kick_index) {
                TSpinType::NoSpin => SpinResult {
                    spin_type: SpinType::NoSpin,
                    variant: SpinVariant::NoVariant,
                    bonus: 0,
                    lines: lines as u32,
                },
                TSpinType::Mini => SpinResult {
                    spin_type: SpinType::TSpin,
                    variant: SpinVariant::Mini,
                    bonus: spec_spin_bonus(SpinType::TSpin, true, lines) as u32,
                    lines: lines as u32,
                },
                TSpinType::Normal => SpinResult {
                    spin_type: SpinType::TSpin,
                    variant: spec_lines_variant(lines),
                    bonus: spec_spin_bonus(SpinType::TSpin, false, lines) as u32,
                    lines: lines as u32,
                },
            }
        },
        TetrominoKind::S | TetrominoKind::Z => {
            if spec_detect_sz_spin(t, f, wallkick) == SpinType::SZSpin {
                SpinResult {
                    spin_type: SpinType::SZSpin,
                    variant: spec_lines_variant(lines),
                    bonus: spec_spin_bonus(SpinType::SZSpin, false, lines) as u32,
                    lines: lines as u32,
                }
            } else {
                SpinResult {
                    spin_type: SpinType::NoSpin,
                    variant: SpinVariant::NoVariant,
                    bonus: 0,
                    lines: lines as u32,
                }
            }
        },
        TetrominoKind::I => {
            if spec_detect_i_spin(t, f, wallkick) == SpinType::ISpin {
                SpinResult {
                    spin_type: SpinType::ISpin,
                    variant: spec_lines_variant(lines),
                    bonus: spec_spin_bonus(SpinType::ISpin, false, lines) as u32,
                    lines: lines as u32,
                }
            } else {
                SpinResult {
                    spin_type: SpinType::NoSpin,
                    variant: SpinVariant::NoVariant,
                    bonus: 0,
                    lines: lines as u32,
                }
            }
        },
        TetrominoKind::J | TetrominoKind::L => {
            if spec_detect_jl_spin(t, f, wallkick) == SpinType::JLSpin {
                SpinResult {
                    spin_type: SpinType::JLSpin,
                    variant: spec_lines_variant(lines),
                    bonus: spec_spin_bonus(SpinType::JLSpin, false, lines) as u32,
                    lines: lines as u32,
                }
            } else {
                SpinResult {
                    spin_type: SpinType::NoSpin,
                    variant: SpinVariant::NoVariant,
                    bonus: 0,
                    lines: lines as u32,
                }
            }
        },
        TetrominoKind::O => SpinResult {
            spin_type: SpinType::NoSpin,
            variant: SpinVariant::NoVariant,
            bonus: 0,
            lines: lines as u32,
        },
    }
}

/// The variant a credited spin reports for `lines` cleared lines.
fn lines_variant(lines: u32) -> (r: SpinVariant)
    ensures
        r == spec_lines_variant(lines as int),
{
    if lines == 1 {
        SpinVariant::Single
    } else if lines == 2 {
        SpinVariant::Double
    } else if lines == 3 {
        SpinVariant::Triple
    } else {
        SpinVariant::NoVariant
    }
}

/// Classify a lock completely: spin family, variant, bonus and line
/// count, from the piece, the grid before fixing, the rotation history
/// and the number of lines the lock cleared.
pub fn detect_spin(
    tetromino: &Tetromino,
    field: &Field,
    wallkick: bool,
    kick_index: i32,
    lines_cleared: u32,
) -> (r: SpinResult)
    requires
        field.wf(),
        tetromino.pos_ok(),
    ensures
        r == spec_detect_spin(
            *tetromino,
            *field,
            wallkick,
            kick_index as int,
            lines_cleared as int,
        ),
{
    match tetromino.kind {
        TetrominoKind::T => {
            let tspin = detect_t_spin(tetromino, field, wallkick, kick_index);
            match tspin {
                TSpinType::NoSpin => SpinResult {
                    spin_type: SpinType::NoSpin,
                    variant: SpinVariant::NoVariant,
                    bonus: 0,
                    lines: lines_cleared,
                },
                TSpinType::Mini => {
                    let bonus: u32 = if lines_cleared == 1 {
                        1000
                    } else if lines_cleared == 2 {
                        2000
                    } else if lines_cleared == 3 {
                        3000
                    } else {
                        0
                    };
                    SpinResult {
                        spin_type: SpinType::TSpin,
                        variant: SpinVariant::Mini,
                        bonus,
                        lines: lines_cleared,
                    }
                },
                TSpinType::Normal => {
                    let bonus: u32 = if lines_cleared == 1 {
                        2000
                    } else if lines_cleared == 2 {
                        5000
                    } else if lines_cleared == 3 {
                        10000
                    } else {
                        0
                    };
                    SpinResult {
                        spin_type: SpinType::TSpin,
                        variant: lines_variant(lines_cleared),
                        bonus,
                        lines: lines_cleared,
                    }
                },
            }
        },
        TetrominoKind::S | TetrominoKind::Z => {
            let family = detect_sz_spin(tetromino, field, wallkick);
            if matches!(family, SpinType::SZSpin) {
                let bonus: u32 = if lines_cleared == 1 {
                    800
                } else if lines_cleared == 2 {
                    2000
                } else if lines_cleared == 3 {
                    4000
                } else {
                    0
                };
                SpinResult {
                    spin_type: SpinType::SZSpin,
                    variant: lines_variant(lines_cleared),
                    bonus,
                    lines: lines_cleared,
                }
            } else {
                SpinResult {
                    spin_type: SpinType::NoSpin,
                    variant: SpinVariant::NoVariant,
                    bonus: 0,
                    lines: lines_cleared,
                }
            }
        },
        TetrominoKind::I => {
            let family = detect_i_spin(tetromino, field, wallkick);
            if matches!(family, SpinType::ISpin) {
                let bonus: u32 = if lines_cleared == 1 {
                    600
                } else if lines_cleared == 2 {
                    1500
                } else if lines_cleared == 3 {
                    3000
                } else {
                    0
                };
                SpinResult {
                    spin_type: SpinType::ISpin,
                    variant: lines_variant(lines_cleared),
                    bonus,
                    lines: lines_cleared,
                }
            } else {
                SpinResult {
                    spin_type: SpinType::NoSpin,
                    variant: SpinVariant::NoVariant,
                    bonus: 0,
                    lines: lines_cleared,
                }
            }
        },
        TetrominoKind::J | TetrominoKind::L => {
            let family = detect_jl_spin(tetromino, field, wallkick);
            if matches!(family, SpinType::JLSpin) {
                let bonus: u32 = if lines_cleared == 1 {
                    700
                } else if lines_cleared == 2 {
                    1800
                } else if lines_cleared == 3 {
                    3500
                } else {
                    0
                };
                SpinResult {
                    spin_type: SpinType::JLSpin,
                    variant: lines_variant(lines_cleared),
                    bonus,
                    lines: lines_cleared,
                }
            } else {
                SpinResult {
                    spin_type: SpinType::NoSpin,
                    variant: SpinVariant::NoVariant,
                    bonus: 0,
                    lines: lines_cleared,
                }
            }
        },
        TetrominoKind::O => SpinResult {
            spin_type: SpinType::NoSpin,
            variant: SpinVariant::NoVariant,
            bonus: 0,
            lines: lines_cleared,
        },
    }
}

/// The Mini/Normal boundary: with the same piece and grid and at least
/// three occupied corners, a T piece classifies Normal when no positive
/// kick index was recorded and Mini when the rotation kicked with a
/// positive index; the two classifications always differ.
pub proof fn lemma_t_spin_mini_normal_boundary(t: Tetromino, f: Field, k: i32)
    requires
        t.kind == TetrominoKind::T,
        spec_count_t_corners(f, t.x + 1, t.y + 1) >= 3,
        k > 0,
    ensures
        spec_detect_t_spin(t, f, false, 0) == TSpinType::Normal,
        spec_detect_t_spin(t, f, true, k as int) == TSpinType::Mini,
        spec_detect_t_spin(t, f, false, 0) != spec_detect_t_spin(t, f, true, k as int),
{
}

} // verus!
