use vstd::prelude::*;

use crate::grid::Field;
use crate::grid::check_collision;
use crate::piece::Tetromino;
use crate::piece::TetrominoKind;

verus! {

/// The outcome of a rotation attempt: the piece afterwards (unchanged on
/// failure), whether a genuine wall kick was used, and the index of the
/// accepted kick candidate (`-1` when every candidate collided).
#[derive(Clone, Copy, PartialEq, Eq, Structural, Debug)]
pub struct RotationResult {
    pub tetromino: Tetromino,
    pub wallkick: bool,
    pub kick_index: i32,
}

/// The rotation index reached from `from` by a quarter turn.
pub open spec fn rotated_to(from: int, clockwise: bool) -> int {
    if clockwise {
        (from + 1) % 4
    } else {
        (from + 3) % 4
    }
}

/// The ordered kick candidates the rotation system tries for a
/// transition `from -> to`: one table for the I kind, one shared by all
/// other kinds; candidate 0 is always the plain, unkicked rotation. A
/// transition outside the eight adjacent ones falls back to that single
/// unkicked candidate.
pub open spec fn kick_table(is_i: bool, from: int, to: int) -> Seq<(int, int)> {
    if is_i {
        if from == 0 && to == 1 {
            seq![(0, 0), (-2, 0), (1, 0), (-2, -1), (1, 2)]
        } else if from == 1 && to == 0 {
            seq![(0, 0), (2, 0), (-1, 0), (2, 1), (-1, -2)]
        } else if from == 1 && to == 2 {
            seq![(0, 0), (-1, 0), (2, 0), (-1, 2), (2, -1)]
        } else if from == 2 && to == 1 {
            seq![(0, 0), (1, 0), (-2, 0), (1, -2), (-2, 1)]
        } else if from == 2 && to == 3 {
            seq![(0, 0), (2, 0), (-1, 0), (2, 1), (-1, -2)]
        } else if from == 3 && to == 2 {
            seq![(0, 0), (-2, 0), (1, 0), (-2, -1), (1, 2)]
        } else if from == 3 && to == 0 {
            seq![(0, 0), (1, 0), (-2, 0), (1, -2), (-2, 1)]
        } else if from == 0 && to == 3 {
            seq![(0, 0), (-1, 0), (2, 0), (-1, 2), (2, -1)]
        } else {
            seq![(0, 0)]
        }
    } else {
        if from == 0 && to == 1 {
            seq![(0, 0), (-1, 0), (-1, 1), (0, -2), (-1, -2)]
        } else if from == 1 && to == 0 {
            seq![(0, 0), (1, 0), (1, -1), (0, 2), (1, 2)]
        } else if from == 1 && to == 2 {
            seq![(0, 0), (1, 0), (1, -1), (0, 2), (1, 2)]
        } else if from == 2 && to == 1 {
            seq![(0, 0), (-1, 0), (-1, 1), (0, -2), (-1, -2)]
        } else if from == 2 && to == 3 {
            seq![(0, 0), (1, 0), (1, 1), (0, -2), (1, -2)]
        } else if from == 3 && to == 2 {
            seq![(0, 0), (-1, 0), (-1, -1), (0, 2), (-1, 2)]
        } else if from == 3 && to == 0 {
            seq![(0, 0), (-1, 0), (-1, -1), (0, 2), (-1, 2)]
        } else if from == 0 && to == 3 {
            seq![(0, 0), (1, 0), (1, 1), (0, -2), (1, -2)]
        } else {
            seq![(0, 0)]
        }
    }
}

/// Every kick offset is at most two cells on either axis, the first
/// candidate is always the unkicked one, and the table is never empty.
pub proof fn lemma_kick_offsets_bounded(is_i: bool, from: int, to: int)
    ensures
        1 <= kick_table(is_i, from, to).len() <= 5,
        kick_table(is_i, from, to)[0] == (0int, 0int),
        forall|i: int|
            0 <= i < kick_table(is_i, from, to).len() ==> (-2
                <= (#[trigger] kick_table(is_i, from, to)[i]).0 <= 2 && -2 <= kick_table(
                is_i,
                from,
                to,
            )[i].1 <= 2),
{
    let t = kick_table(is_i, from, to);
    assert forall|i: int| 0 <= i < t.len() implies (-2 <= (#[trigger] t[i]).0 <= 2 && -2
        <= t[i].1 <= 2) by {
        assert(i == 0 || i == 1 || i == 2 || i == 3 || i == 4);
    }
}

/// The trial piece for kick candidate `i` of a quarter turn.
pub open spec fn kick_trial(t: Tetromino, clockwise: bool, i: int) -> Tetromino {
    let to = rotated_to(t.rotation as int, clockwise);
    let k = kick_table(t.kind == TetrominoKind::I, t.rotation as int, to)[i];
    Tetromino { kind: t.kind, x: (t.x + k.0) as i32, y: (t.y + k.1) as i32, rotation: to as u8 }
}

/// The first kick candidate at or after `i` whose trial does not
/// collide, or `-1` when all remaining candidates collide.
pub open spec fn first_fit(f: Field, t: Tetromino, clockwise: bool, i: int) -> int
    decreases
            kick_table(
                t.kind == TetrominoKind::I,
                t.rotation as int,
                rotated_to(t.rotation as int, clockwise),
            ).len() - i,
    when 0 <= i
{
    let n = kick_table(
        t.kind == TetrominoKind::I,
        t.rotation as int,
        rotated_to(t.rotation as int, clockwise),
    ).len() as int;
    if i >= n {
        -1
    } else if !f.collides(kick_trial(t, clockwise, i)) {
        i
    } else {
        first_fit(f, t, clockwise, i + 1)
    }
}

/// `first_fit` yields either `-1` or a candidate index within the table.
pub proof fn lemma_first_fit_range(f: Field, t: Tetromino, clockwise: bool, i: int)
    requires
        0 <= i,
    ensures
        first_fit(f, t, clockwise, i) == -1 || i <= first_fit(f, t, clockwise, i) < kick_table(
            t.kind == TetrominoKind::I,
            t.rotation as int,
            rotated_to(t.rotation as int, clockwise),
        ).len(),
    decreases
            kick_table(
                t.kind == TetrominoKind::I,
                t.rotation as int,
                rotated_to(t.rotation as int, clockwise),
            ).len() - i,
{
    let n = kick_table(
        t.kind == TetrominoKind::I,
        t.rotation as int,
        rotated_to(t.rotation as int, clockwise),
    ).len() as int;
    if i < n && f.collides(kick_trial(t, clockwise, i)) {
        lemma_first_fit_range(f, t, clockwise, i + 1);
    }
}

/// When `first_fit` reports a candidate, that candidate's trial indeed
/// does not collide.
pub proof fn lemma_first_fit_found(f: Field, t: Tetromino, clockwise: bool, i: int)
    requires
        0 <= i,
        first_fit(f, t, clockwise, i) >= 0,
    ensures
        !f.collides(kick_trial(t, clockwise, first_fit(f, t, clockwise, i))),
    decreases
            kick_table(
                t.kind == TetrominoKind::I,
                t.rotation as int,
                rotated_to(t.rotation as int, clockwise),
            ).len() - i,
{
    let n = kick_table(
        t.kind == TetrominoKind::I,
        t.rotation as int,
        rotated_to(t.rotation as int, clockwise),
    ).len() as int;
    if i < n && f.collides(kick_trial(t, clockwise, i)) {
        lemma_first_fit_found(f, t, clockwise, i + 1);
    }
}

/// The full rotation resolution: the first fitting kick candidate wins;
/// if none fits the piece is unchanged and the failure is recorded as
/// kick index `-1` with no wall kick.
pub open spec fn spec_attempt_rotation(f: Field, t: Tetromino, clockwise: bool) -> RotationResult {
    let j = first_fit(f, t, clockwise, 0);
    if j >= 0 {
        RotationResult { tetromino: kick_trial(t, clockwise, j), wallkick: j > 0, kick_index: j as i32 }
    } else {
        RotationResult { tetromino: t, wallkick: false, kick_index: -1 as i32 }
    }
}

/// The ordered kick candidates for the transition `from -> to`.
pub fn kick_candidates(is_i: bool, from: u8, to: u8) -> (r: Vec<(i32, i32)>)
    ensures
        r@.len() == kick_table(is_i, from as int, to as int).len(),
        forall|i: int|
            0 <= i < r@.len() ==> ((#[trigger] r@[i]).0 as int, r@[i].1 as int) == kick_table(
                is_i,
                from as int,
                to as int,
            )[i],
{
    let mut r: Vec<(i32, i32)> = Vec::new();
    if is_i {
        if from == 0 && to == 1 {
            r.push((0, 0));
            r.push((-2, 0));
            r.push((1, 0));
            r.push((-2, -1));
            r.push((1, 2));
        } else if from == 1 && to == 0 {
            r.push((0, 0));
            r.push((2, 0));
            r.push((-1, 0));
            r.push((2, 1));
            r.push((-1, -2));
        } else if from == 1 && to == 2 {
            r.push((0, 0));
            r.push((-1, 0));
            r.push((2, 0));
            r.push((-1, 2));
            r.push((2, -1));
        } else if from == 2 && to == 1 {
            r.push((0, 0));
            r.push((1, 0));
            r.push((-2, 0));
            r.push((1, -2));
            r.push((-2, 1));
        } else if from == 2 && to == 3 {
            r.push((0, 0));
            r.push((2, 0));
            r.push((-1, 0));
            r.push((2, 1));
            r.push((-1, -2));
        } else if from == 3 && to == 2 {
            r.push((0, 0));
            r.push((-2, 0));
            r.push((1, 0));
            r.push((-2, -1));
            r.push((1, 2));
        } else if from == 3 && to == 0 {
            r.push((0, 0));
            r.push((1, 0));
            r.push((-2, 0));
            r.push((1, -2));
            r.push((-2, 1));
        } else if from == 0 && to == 3 {
            r.push((0, 0));
            r.push((-1, 0));
            r.push((2, 0));
            r.push((-1, 2));
            r.push((2, -1));
        } else {
            r.push((0, 0));
        }
    } else {
        if from == 0 && to == 1 {
            r.push((0, 0));
            r.push((-1, 0));
            r.push((-1, 1));
            r.push((0, -2));
            r.push((-1, -2));
        } else if from == 1 && to == 0 {
            r.push((0, 0));
            r.push((1, 0));
            r.push((1, -1));
            r.push((0, 2));
            r.push((1, 2));
        } else if from == 1 && to == 2 {
            r.push((0, 0));
            r.push((1, 0));
            r.push((1, -1));
            r.push((0, 2));
            r.push((1, 2));
        } else if from == 2 && to == 1 {
            r.push((0, 0));
            r.push((-1, 0));
            r.push((-1, 1));
            r.push((0, -2));
            r.push((-1, -2));
        } else if from == 2 && to == 3 {
            r.push((0, 0));
            r.push((1, 0));
            r.push((1, 1));
            r.push((0, -2));
            r.push((1, -2));
        } else if from == 3 && to == 2 {
            r.push((0, 0));
            r.push((-1, 0));
            r.push((-1, -1));
            r.push((0, 2));
            r.push((-1, 2));
        } else if from == 3 && to == 0 {
            r.push((0, 0));
            r.push((-1, 0));
            r.push((-1, -1));
            r.push((0, 2));
            r.push((-1, 2));
        } else if from == 0 && to == 3 {
            r.push((0, 0));
            r.push((1, 0));
            r.push((1, 1));
            r.push((0, -2));
            r.push((1, -2));
        } else {
            r.push((0, 0));
        }
    }
    r
}

/// Try to rotate the piece a quarter turn against the grid: each kick
/// candidate is tried in table order and the first trial position that
/// does not collide is accepted; if all collide, the rotation fails
/// silently and the piece stands unchanged.
pub fn attempt_srs_rotation(tetromino: &Tetromino, field: &Field, clockwise: bool) -> (r:
    RotationResult)
    requires
        field.wf(),
        tetromino.pos_ok(),
        tetromino.rotation < 4,
    ensures
        r == spec_attempt_rotation(*field, *tetromino, clockwise),
{
    let from = tetromino.rotation;
    let to = if clockwise {
        (from + 1) % 4
    } else {
        (from + 3) % 4
    };
    let is_i = matches!(tetromino.kind, TetrominoKind::I);
    let kicks = kick_candidates(is_i, from, to);
    proof {
        lemma_kick_offsets_bounded(is_i, from as int, to as int);
    }
    let mut i: usize = 0;
    while i < kicks.len()
        invariant
            field.wf(),
            tetromino.pos_ok(),
            tetromino.rotation < 4,
            from == tetromino.rotation,
            to as int == rotated_to(from as int, clockwise),
            to < 4,
            is_i == (tetromino.kind == TetrominoKind::I),
            kicks@.len() == kick_table(is_i, from as int, to as int).len(),
            forall|j: int|
                0 <= j < kicks@.len() ==> ((#[trigger] kicks@[j]).0 as int, kicks@[j].1 as int)
                    == kick_table(is_i, from as int, to as int)[j],
            i <= kicks@.len(),
            first_fit(*field, *tetromino, clockwise, 0) == first_fit(
                *field,
                *tetromino,
                clockwise,
                i as int,
            ),
        decreases kicks@.len() - i,
    {
        proof {
            lemma_kick_offsets_bounded(is_i, from as int, to as int);
        }
        let (kx, ky) = kicks[i];
        let test = Tetromino {
            kind: tetromino.kind,
            x: tetromino.x + kx,
            y: tetromino.y + ky,
            rotation: to,
        };
        assert(test == kick_trial(*tetromino, clockwise, i as int));
        if !check_collision(field, &test) {
            return RotationResult { tetromino: test, wallkick: i > 0, kick_index: i as i32 };
        }
        i = i + 1;
    }
    RotationResult { tetromino: *tetromino, wallkick: false, kick_index: -1 }
}

/// Rotation is closed: a clockwise quarter turn followed by a
/// counter-clockwise one (or the reverse) restores the rotation index,
/// and when neither leg needs a kick the whole piece returns to its
/// original state.
pub proof fn lemma_rotation_closed(f: Field, t: Tetromino, clockwise: bool)
    requires
        t.rotation < 4,
    ensures
        rotated_to(rotated_to(t.rotation as int, clockwise), !clockwise) == t.rotation as int,
        ({
            let there = spec_attempt_rotation(f, t, clockwise);
            let back = spec_attempt_rotation(f, there.tetromino, !clockwise);
            (there.kick_index == 0 && back.kick_index == 0) ==> back.tetromino == t
        }),
{
    let there = spec_attempt_rotation(f, t, clockwise);
    if there.kick_index == 0 {
        let to = rotated_to(t.rotation as int, clockwise);
        lemma_kick_offsets_bounded(t.kind == TetrominoKind::I, t.rotation as int, to);
        lemma_first_fit_range(f, t, clockwise, 0);
        assert(first_fit(f, t, clockwise, 0) == 0);
        assert(there.tetromino == kick_trial(t, clockwise, 0));
        assert(kick_table(t.kind == TetrominoKind::I, t.rotation as int, to)[0] == (0int, 0int));
        assert((t.x as int + 0) as i32 == t.x);
        assert(there.tetromino.x == t.x && there.tetromino.y == t.y && there.tetromino.kind
            == t.kind && there.tetromino.rotation as int == to);
        let back = spec_attempt_rotation(f, there.tetromino, !clockwise);
        if back.kick_index == 0 {
            let back_to = rotated_to(to, !clockwise);
            lemma_kick_offsets_bounded(
                t.kind == TetrominoKind::I,
                there.tetromino.rotation as int,
                back_to,
            );
            lemma_first_fit_range(f, there.tetromino, !clockwise, 0);
            assert(back.tetromino == kick_trial(there.tetromino, !clockwise, 0));
            assert(back.tetromino.x == t.x && back.tetromino.y == t.y && back.tetromino.kind
                == t.kind && back.tetromino.rotation as int == back_to);
            assert(back_to == t.rotation as int);
            assert(back.tetromino == t);
        }
    }
}

} // verus!
