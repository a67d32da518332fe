use vstd::prelude::*;

verus! {

/// The seven tetromino kinds. Geometry per kind is fixed by `shape_table`.
#[derive(Clone, Copy, PartialEq, Eq, Structural, Debug)]
pub enum TetrominoKind {
    I,
    O,
    T,
    S,
    Z,
    J,
    L,
}

/// The active piece: a kind, an integer anchor position and a rotation
/// index counted in clockwise quarter-turns from the spawn orientation.
#[derive(Clone, Copy, PartialEq, Eq, Structural, Debug)]
pub struct Tetromino {
    pub kind: TetrominoKind,
    pub x: i32,
    pub y: i32,
    pub rotation: u8,
}

/// Coordinates the engine computes with stay well inside `i32`, so that
/// adding a shape or kick offset can never overflow.
pub open spec fn coord_ok(c: int) -> bool {
    -0x7000_0000 <= c <= 0x7000_0000
}

/// The four cell offsets of `kind` at `rotation` (expected in `0..4`;
/// other values read as rotation 3), relative to the piece anchor.
/// The O kind shows the same cells in every orientation.
pub open spec fn shape_table(kind: TetrominoKind, rotation: int) -> Seq<(int, int)> {
    match kind {
        TetrominoKind::I => if rotation == 0 {
            seq![(0, 1), (1, 1), (2, 1), (3, 1)]
        } else if rotation == 1 {
            seq![(2, 0), (2, 1), (2, 2), (2, 3)]
        } else if rotation == 2 {
            seq![(0, 2), (1, 2), (2, 2), (3, 2)]
        } else {
            seq![(1, 0), (1, 1), (1, 2), (1, 3)]
        },
        TetrominoKind::O => seq![(1, 0), (2, 0), (1, 1), (2, 1)],
        TetrominoKind::T => if rotation == 0 {
            seq![(1, 0), (0, 1), (1, 1), (2, 1)]
        } else if rotation == 1 {
            seq![(1, 0), (1, 1), (2, 1), (1, 2)]
        } else if rotation == 2 {
            seq![(0, 1), (1, 1), (2, 1), (1, 2)]
        } else {
            seq![(1, 0), (0, 1), (1, 1), (1, 2)]
        },
        TetrominoKind::S => if rotation == 0 {
            seq![(1, 0), (2, 0), (0, 1), (1, 1)]
        } else if rotation == 1 {
            seq![(1, 0), (1, 1), (2, 1), (2, 2)]
        } else if rotation == 2 {
            seq![(1, 1), (2, 1), (0, 2), (1, 2)]
        } else {
            seq![(0, 0), (0, 1), (1, 1), (1, 2)]
        },
        TetrominoKind::Z => if rotation == 0 {
            seq![(0, 0), (1, 0), (1, 1), (2, 1)]
        } else if rotation == 1 {
            seq![(2, 0), (1, 1), (2, 1), (1, 2)]
        } else if rotation == 2 {
            seq![(0, 1), (1, 1), (1, 2), (2, 2)]
        } else {
            seq![(1, 0), (0, 1), (1, 1), (0, 2)]
        },
        TetrominoKind::J => if rotation == 0 {
            seq![(0, 0), (0, 1), (1, 1), (2, 1)]
        } else if rotation == 1 {
            seq![(1, 0), (2, 0), (1, 1), (1, 2)]
        } else if rotation == 2 {
            seq![(0, 1), (1, 1), (2, 1), (2, 2)]
        } else {
            seq![(1, 0), (1, 1), (0, 2), (1, 2)]
        },
        TetrominoKind::L => if rotation == 0 {
            seq![(2, 0), (0, 1), (1, 1), (2, 1)]
        } else if rotation == 1 {
            seq![(1, 0), (1, 1), (1, 2), (2, 2)]
        } else if rotation == 2 {
            seq![(0, 1), (1, 1), (2, 1), (0, 2)]
        } else {
            seq![(0, 0), (1, 0), (1, 1), (1, 2)]
        },
    }
}

impl Tetromino {
    /// The rotation index the shape table is read at.
    pub open spec fn rot(self) -> int {
        (self.rotation % 4) as int
    }

    /// Absolute grid position of the piece's `i`-th cell.
    pub open spec fn block(self, i: int) -> (int, int) {
        let o = shape_table(self.kind, self.rot())[i];
        (self.x + o.0, self.y + o.1)
    }

    /// Loose bound: shape, corner and kick arithmetic on the anchor
    /// stays inside `i32`.
    pub open spec fn coords_ok(self) -> bool {
        coord_ok(self.x as int) && coord_ok(self.y as int)
    }

    /// Strict bound: the anchor leaves room for a kick trial on top of
    /// the loose bound. Every piece a session holds satisfies it.
    pub open spec fn pos_ok(self) -> bool {
        -0x4000_0000 <= self.x <= 0x4000_0000 && -0x4000_0000 <= self.y <= 0x4000_0000
    }

    /// A fresh piece of `kind` at the spawn position and orientation.
    pub open spec fn spec_spawn(kind: TetrominoKind) -> Tetromino {
        Tetromino { kind, x: 4, y: 0, rotation: 0 }
    }

    /// Spawn a new piece of `kind` at the fixed spawn anchor.
    pub fn spawn(kind: TetrominoKind) -> (r: Tetromino)
        ensures
            r == Tetromino::spec_spawn(kind),
    {
        Tetromino { kind, x: 4, y: 0, rotation: 0 }
    }
}

/// Every shape offset lies in `0..=3` on both axes: a piece occupies a
/// 4x4 box whose corner is the anchor.
pub proof fn lemma_shape_offsets_bounded(kind: TetrominoKind, rotation: int)
    ensures
        forall|i: int|
            0 <= i < 4 ==> (0 <= #[trigger] shape_table(kind, rotation)[i].0 <= 3
                && 0 <= shape_table(kind, rotation)[i].1 <= 3),
{
    let t = shape_table(kind, rotation);
    assert(0 <= t[0].0 <= 3 && 0 <= t[0].1 <= 3);
    assert(0 <= t[1].0 <= 3 && 0 <= t[1].1 <= 3);
    assert(0 <= t[2].0 <= 3 && 0 <= t[2].1 <= 3);
    assert(0 <= t[3].0 <= 3 && 0 <= t[3].1 <= 3);
    assert forall|i: int| 0 <= i < 4 implies (0 <= #[trigger] shape_table(kind, rotation)[i].0
        <= 3 && 0 <= shape_table(kind, rotation)[i].1 <= 3) by {
        assert(i == 0 || i == 1 || i == 2 || i == 3);
    }
}

/// The relative offset of the piece's `i`-th cell, read from the fixed
/// shape table at `rotation % 4`.
pub fn shape_offset(kind: TetrominoKind, rotation: u8, i: usize) -> (r: (i32, i32))
    requires
        i < 4,
    ensures
        r.0 as int == shape_table(kind, (rotation % 4) as int)[i as int].0,
        r.1 as int == shape_table(kind, (rotation % 4) as int)[i as int].1,
{
    let rot = rotation % 4;
    match kind {
        TetrominoKind::I => {
            if rot == 0 {
                if i == 0 { (0, 1) } else if i == 1 { (1, 1) } else if i == 2 { (2, 1) } else { (3, 1) }
            } else if rot == 1 {
                if i == 0 { (2, 0) } else if i == 1 { (2, 1) } else if i == 2 { (2, 2) } else { (2, 3) }
            } else if rot == 2 {
                if i == 0 { (0, 2) } else if i == 1 { (1, 2) } else if i == 2 { (2, 2) } else { (3, 2) }
            } else {
                if i == 0 { (1, 0) } else if i == 1 { (1, 1) } else if i == 2 { (1, 2) } else { (1, 3) }
            }
        },
        TetrominoKind::O => {
            if i == 0 { (1, 0) } else if i == 1 { (2, 0) } else if i == 2 { (1, 1) } else { (2, 1) }
        },
        TetrominoKind::T => {
            if rot == 0 {
                if i == 0 { (1, 0) } else if i == 1 { (0, 1) } else if i == 2 { (1, 1) } else { (2, 1) }
            } else if rot == 1 {
                if i == 0 { (1, 0) } else if i == 1 { (1, 1) } else if i == 2 { (2, 1) } else { (1, 2) }
            } else if rot == 2 {
                if i == 0 { (0, 1) } else if i == 1 { (1, 1) } else if i == 2 { (2, 1) } else { (1, 2) }
            } else {
                if i == 0 { (1, 0) } else if i == 1 { (0, 1) } else if i == 2 { (1, 1) } else { (1, 2) }
            }
        },
        TetrominoKind::S => {
            if rot == 0 {
                if i == 0 { (1, 0) } else if i == 1 { (2, 0) } else if i == 2 { (0, 1) } else { (1, 1) }
            } else if rot == 1 {
                if i == 0 { (1, 0) } else if i == 1 { (1, 1) } else if i == 2 { (2, 1) } else { (2, 2) }
            } else if rot == 2 {
                if i == 0 { (1, 1) } else if i == 1 { (2, 1) } else if i == 2 { (0, 2) } else { (1, 2) }
            } else {
                if i == 0 { (0, 0) } else if i == 1 { (0, 1) } else if i == 2 { (1, 1) } else { (1, 2) }
            }
        },
        TetrominoKind::Z => {
            if rot == 0 {
                if i == 0 { (0, 0) } else if i == 1 { (1, 0) } else if i == 2 { (1, 1) } else { (2, 1) }
            } else if rot == 1 {
                if i == 0 { (2, 0) } else if i == 1 { (1, 1) } else if i == 2 { (2, 1) } else { (1, 2) }
            } else if rot == 2 {
                if i == 0 { (0, 1) } else if i == 1 { (1, 1) } else if i == 2 { (1, 2) } else { (2, 2) }
            } else {
                if i == 0 { (1, 0) } else if i == 1 { (0, 1) } else if i == 2 { (1, 1) } else { (0, 2) }
            }
        },
        TetrominoKind::J => {
            if rot == 0 {
                if i == 0 { (0, 0) } else if i == 1 { (0, 1) } else if i == 2 { (1, 1) } else { (2, 1) }
            } else if rot == 1 {
                if i == 0 { (1, 0) } else if i == 1 { (2, 0) } else if i == 2 { (1, 1) } else { (1, 2) }
            } else if rot == 2 {
                if i == 0 { (0, 1) } else if i == 1 { (1, 1) } else if i == 2 { (2, 1) } else { (2, 2) }
            } else {
                if i == 0 { (1, 0) } else if i == 1 { (1, 1) } else if i == 2 { (0, 2) } else { (1, 2) }
            }
        },
        TetrominoKind::L => {
            if rot == 0 {
                if i == 0 { (2, 0) } else if i == 1 { (0, 1) } else if i == 2 { (1, 1) } else { (2, 1) }
            } else if rot == 1 {
                if i == 0 { (1, 0) } else if i == 1 { (1, 1) } else if i == 2 { (1, 2) } else { (2, 2) }
            } else if rot == 2 {
                if i == 0 { (0, 1) } else if i == 1 { (1, 1) } else if i == 2 { (2, 1) } else { (0, 2) }
            } else {
                if i == 0 { (0, 0) } else if i == 1 { (1, 0) } else if i == 2 { (1, 1) } else { (1, 2) }
            }
        },
    }
}

/// The absolute positions of the four cells the piece occupies.
pub fn get_tetromino_blocks(kind: TetrominoKind, x: i32, y: i32, rotation: u8) -> (r: Vec<
    (i32, i32),
>)
    requires
        coord_ok(x as int),
        coord_ok(y as int),
    ensures
        r@.len() == 4,
        forall|i: int|
            0 <= i < 4 ==> (#[trigger] r@[i]).0 as int == x + shape_table(
                kind,
                (rotation % 4) as int,
            )[i].0 && r@[i].1 as int == y + shape_table(kind, (rotation % 4) as int)[i].1,
{
    proof {
        lemma_shape_offsets_bounded(kind, (rotation % 4) as int);
    }
    let mut r: Vec<(i32, i32)> = Vec::new();
    let mut i: usize = 0;
    while i < 4
        invariant
            coord_ok(x as int),
            coord_ok(y as int),
            i <= 4,
            r@.len() == i,
            forall|j: int|
                0 <= j < i ==> (#[trigger] r@[j]).0 as int == x + shape_table(
                    kind,
                    (rotation % 4) as int,
                )[j].0 && r@[j].1 as int == y + shape_table(kind, (rotation % 4) as int)[j].1,
        decreases 4 - i,
    {
        proof {
            lemma_shape_offsets_bounded(kind, (rotation % 4) as int);
        }
        let (dx, dy) = shape_offset(kind, rotation, i);
        r.push((x + dx, y + dy));
        i = i + 1;
    }
    r
}

} // verus!
