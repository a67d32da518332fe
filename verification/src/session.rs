use vstd::prelude::*;

use crate::achievement::GameStats;
use crate::grid::Field;
use crate::grid::check_collision;
use crate::grid::clear_lines;
use crate::grid::fix_tetromino;
use crate::grid::full_rows_up_to;
use crate::grid::init_field;
use crate::grid::kept_rows_up_to;
use crate::grid::spec_fixed_cells;
use crate::piece::Tetromino;
use crate::piece::TetrominoKind;
use crate::piece::lemma_shape_offsets_bounded;
use crate::rotation::RotationResult;
use crate::rotation::attempt_srs_rotation;
use crate::rotation::lemma_first_fit_found;
use crate::rotation::lemma_first_fit_range;
use crate::rotation::spec_attempt_rotation;
use crate::spin::SpinResult;
use crate::spin::SpinType;
use crate::spin::TSpinType;
use crate::spin::detect_spin;
use crate::spin::detect_t_spin;
use crate::spin::spec_detect_spin;
use crate::spin::spec_detect_t_spin;
use crate::util::random_below;

verus! {

/// A horizontal or downward move command.
#[derive(Clone, Copy, PartialEq, Eq, Structural, Debug)]
pub enum Direction {
    Left,
    Right,
    Down,
}

/// Where a session stands: waiting for a spawn, playing a piece, or
/// finished for good.
#[derive(Clone, Copy, PartialEq, Eq, Structural, Debug)]
pub enum SessionState {
    Spawning,
    Falling,
    GameOver,
}

/// An outward snapshot of a session: the grid, the active piece and the
/// transient rotation history.
#[derive(Debug)]
pub struct GameStateSnapshot {
    pub field: Field,
    pub tetromino: Tetromino,
    pub last_tspin: TSpinType,
    pub last_wallkick: bool,
    pub last_kick_index: i32,
}

/// The piece displaced by `(dx, dy)` cells.
pub open spec fn shifted(t: Tetromino, dx: int, dy: int) -> Tetromino {
    Tetromino { x: (t.x + dx) as i32, y: (t.y + dy) as i32, ..t }
}

/// A piece that does not collide sits with every cell inside the grid,
/// which bounds its anchor on all sides.
pub proof fn lemma_noncolliding_bounds(f: Field, t: Tetromino)
    requires
        f.wf(),
        !f.collides(t),
    ensures
        -3 <= t.x < f.width as int,
        -3 <= t.y < f.height as int,
        t.pos_ok(),
{
    lemma_shape_offsets_bounded(t.kind, t.rot());
    assert(!f.filled(t.block(0).0, t.block(0).1));
}

/// Where the piece comes to rest: the last position in an unbroken
/// downward run of collision-free positions. (The first branch only
/// keeps the definition total; a piece below the floor collides anyway.)
pub open spec fn spec_settled(f: Field, t: Tetromino) -> Tetromino
    decreases f.height as int + 2 - t.y,
    when t.y <= f.height as int + 1 && f.height <= 0x4000_0000
{
    if t.y + 1 > f.height as int {
        t
    } else if f.collides(shifted(t, 0, 1)) {
        t
    } else {
        spec_settled(f, shifted(t, 0, 1))
    }
}

/// Settling is invariant under one accepted soft drop: a piece and the
/// same piece moved down one legal step come to rest at the same place.
pub proof fn lemma_settle_step(f: Field, t: Tetromino)
    requires
        f.wf(),
        !f.collides(t),
        !f.collides(shifted(t, 0, 1)),
    ensures
        spec_settled(f, t) == spec_settled(f, shifted(t, 0, 1)),
{
    lemma_noncolliding_bounds(f, t);
}

/// Hard-drop equivalence: a piece that cannot move down settles where it
/// stands, and otherwise settles exactly where the piece after one
/// accepted soft drop settles. By induction the hard-drop endpoint is
/// the endpoint of repeated soft drops until rejection; locking (fix,
/// classify, clear, score) is a function of that piece and the grid, so
/// both paths produce the same final grid and spin result.
pub proof fn lemma_hard_drop_equivalence(f: Field, t: Tetromino)
    requires
        f.wf(),
        !f.collides(t),
    ensures
        f.collides(shifted(t, 0, 1)) ==> spec_settled(f, t) == t,
        !f.collides(shifted(t, 0, 1)) ==> spec_settled(f, t) == spec_settled(f, shifted(t, 0, 1)),
{
    lemma_noncolliding_bounds(f, t);
    if !f.collides(shifted(t, 0, 1)) {
        lemma_settle_step(f, t);
    }
}

/// A freshly spawned piece of any kind never collides over an empty grid
/// at least eight columns wide and two rows tall. (On narrower or
/// shallower grids the spawn box itself leaves the grid.)
pub proof fn lemma_spawn_no_collision(f: Field, kind: TetrominoKind)
    requires
        f.wf(),
        f.all_empty(),
        f.width >= 8,
        f.height >= 2,
    ensures
        !f.collides(Tetromino::spec_spawn(kind)),
{
    let t = Tetromino::spec_spawn(kind);
    lemma_shape_offsets_bounded(kind, 0);
    assert forall|i: int| 0 <= i < 4 implies !f.filled(
        (#[trigger] t.block(i)).0,
        t.block(i).1,
    ) by {
        let o = crate::piece::shape_table(kind, 0)[i];
        assert(0 <= crate::piece::shape_table(kind, 0)[0].1 <= 1 && 0 <= crate::piece::shape_table(
            kind,
            0,
        )[1].1 <= 1 && 0 <= crate::piece::shape_table(kind, 0)[2].1 <= 1 && 0
            <= crate::piece::shape_table(kind, 0)[3].1 <= 1);
        assert(i == 0 || i == 1 || i == 2 || i == 3);
        let (bx, by) = t.block(i);
        assert(4 <= bx <= 7 && 0 <= by <= 1);
        assert(0 <= by * (f.width as int) + bx && by * (f.width as int) + bx < (f.width as int) * (
        f.height as int)) by (nonlinear_arith)
            requires
                0 <= by <= f.height as int - 1,
                0 <= bx <= f.width as int - 1,
                f.width >= 1,
                f.height >= 1,
        ;
        assert(f.cells@[by * (f.width as int) + bx] == 0);
    }
}

/// How many rows locking `t` into `f` clears.
pub open spec fn spec_lock_cleared(f: Field, t: Tetromino) -> int {
    full_rows_up_to(spec_fixed_cells(f, t), f.width as int, f.height as int)
}

/// The grid cells after locking `t` into `f`: the piece fixed, full rows
/// removed, and as many empty rows put back on top.
pub open spec fn spec_lock_cells(f: Field, t: Tetromino) -> Seq<u8> {
    Seq::new((spec_lock_cleared(f, t) * (f.width as int)) as nat, |i: int| 0u8)
        + kept_rows_up_to(spec_fixed_cells(f, t), f.width as int, f.height as int)
}

/// The spin result a lock reports: classified against the grid as it
/// stood before the piece was fixed, with the line count the lock
/// cleared.
pub open spec fn spec_lock_spin(f: Field, t: Tetromino, wallkick: bool, kick_index: int) -> SpinResult {
    spec_detect_spin(t, f, wallkick, kick_index, spec_lock_cleared(f, t))
}

/// The cumulative stats after a lock: the bonus is added to the score,
/// the cleared lines and the placed block are counted, and a four-line
/// clear or a credited T spin bumps its counter. All counters saturate.
pub open spec fn spec_stats_after_lock(s: GameStats, spin: SpinResult) -> GameStats {
    GameStats {
        score: s.score.saturating_add(spin.bonus),
        lines_cleared: s.lines_cleared.saturating_add(spin.lines),
        blocks_placed: s.blocks_placed.saturating_add(1),
        tetris_count: if spin.lines >= 4 {
            s.tetris_count.saturating_add(1)
        } else {
            s.tetris_count
        },
        tspin_count: if spin.spin_type == SpinType::TSpin {
            s.tspin_count.saturating_add(1)
        } else {
            s.tspin_count
        },
        ..s
    }
}

/// The all-zero statistics a fresh session starts with.
pub open spec fn spec_initial_stats() -> GameStats {
    GameStats {
        score: 0,
        lines_cleared: 0,
        blocks_placed: 0,
        tetris_count: 0,
        tspin_count: 0,
        max_combo: 0,
        perfect_clear_count: 0,
        fever_count: 0,
        exchange_count: 0,
        hold_count: 0,
        level: 0,
        dan_rank: 0,
        play_time: 0,
        games_played: 0,
    }
}

/// One game session: the grid, the active piece, the state machine
/// position, the rotation history the spin classifier consumes, and the
/// cumulative statistics.
#[derive(Debug)]
pub struct GameSession {
    pub field: Field,
    pub tetromino: Tetromino,
    pub state: SessionState,
    pub last_tspin: TSpinType,
    pub last_wallkick: bool,
    pub last_kick_index: i32,
    pub stats: GameStats,
}

impl GameSession {
    /// Session well-formedness: the grid is well-formed, the piece is a
    /// valid one within coordinate bounds, and while a piece is falling
    /// it never overlaps the grid.
    pub open spec fn wf(self) -> bool {
        &&& self.field.wf()
        &&& self.tetromino.rotation < 4
        &&& self.tetromino.pos_ok()
        &&& (self.state == SessionState::Falling ==> !self.field.collides(self.tetromino))
    }

    /// Open a session on a fresh, empty grid. No piece is active until
    /// the first spawn.
    pub fn new(width: u32, height: u32) -> (s: GameSession)
        requires
            1 <= width <= 0x4000_0000,
            1 <= height <= 0x4000_0000,
            (width as int) * (height as int) < 0x1_0000_0000,
        ensures
            s.wf(),
            s.field.width == width,
            s.field.height == height,
            s.field.all_empty(),
            s.state == SessionState::Spawning,
            s.last_tspin == TSpinType::NoSpin,
            s.last_wallkick == false,
            s.last_kick_index == 0,
            s.stats == spec_initial_stats(),
    {
        GameSession {
            field: init_field(width, height),
            tetromino: Tetromino::spawn(TetrominoKind::I),
            state: SessionState::Spawning,
            last_tspin: TSpinType::NoSpin,
            last_wallkick: false,
            last_kick_index: 0,
            stats: GameStats {
                score: 0,
                lines_cleared: 0,
                blocks_placed: 0,
                tetris_count: 0,
                tspin_count: 0,
                max_combo: 0,
                perfect_clear_count: 0,
                fever_count: 0,
                exchange_count: 0,
                hold_count: 0,
                level: 0,
                dan_rank: 0,
                play_time: 0,
                games_played: 0,
            },
        }
    }

    /// Spawn a piece of the given kind at the spawn anchor and reset the
    /// rotation history. A spawn that collides immediately ends the game.
    /// In a finished session this is a no-op.
    pub fn spawn_with_kind(&mut self, kind: TetrominoKind) -> (r: Tetromino)
        requires
            old(self).wf(),
        ensures
            final(self).wf(),
            r == final(self).tetromino,
            old(self).state == SessionState::GameOver ==> *final(self) == *old(self),
            old(self).state != SessionState::GameOver ==> {
                let t = Tetromino::spec_spawn(kind);
                *final(self) == (GameSession {
                    tetromino: t,
                    state: if old(self).field.collides(t) {
                        SessionState::GameOver
                    } else {
                        SessionState::Falling
                    },
                    last_tspin: TSpinType::NoSpin,
                    last_wallkick: false,
                    last_kick_index: 0,
                    ..*old(self)
                })
            },
    {
        if matches!(self.state, SessionState::GameOver) {
            return self.tetromino;
        }
        let t = Tetromino::spawn(kind);
        self.tetromino = t;
        self.last_tspin = TSpinType::NoSpin;
        self.last_wallkick = false;
        self.last_kick_index = 0;
        if check_collision(&self.field, &t) {
            self.state = SessionState::GameOver;
        } else {
            self.state = SessionState::Falling;
        }
        self.tetromino
    }

    /// Spawn a piece of a randomly drawn kind; otherwise exactly
    /// `spawn_with_kind`.
    pub fn spawn_tetromino(&mut self) -> (r: Tetromino)
        requires
            old(self).wf(),
        ensures
            final(self).wf(),
            r == final(self).tetromino,
            old(self).state == SessionState::GameOver ==> *final(self) == *old(self),
            old(self).state != SessionState::GameOver ==> {
                let t = final(self).tetromino;
                t == Tetromino::spec_spawn(t.kind) && *final(self) == (GameSession {
                    tetromino: t,
                    state: if old(self).field.collides(t) {
                        SessionState::GameOver
                    } else {
                        SessionState::Falling
                    },
                    last_tspin: TSpinType::NoSpin,
                    last_wallkick: false,
                    last_kick_index: 0,
                    ..*old(self)
                })
            },
    {
        let kind = random_tetromino_kind();
        self.spawn_with_kind(kind)
    }

    /// Lock the piece `t` into the grid: classify the spin against the
    /// grid as it stands, fix the piece, clear full rows, update the
    /// statistics, and hand the turn back to spawning.
    fn lock_at(&mut self, t: Tetromino) -> (spin: SpinResult)
        requires
            old(self).wf(),
            t.pos_ok(),
            t.rotation < 4,
        ensures
            final(self).wf(),
            spin == spec_lock_spin(
                old(self).field,
                t,
                old(self).last_wallkick,
                old(self).last_kick_index as int,
            ),
            final(self).field.width == old(self).field.width,
            final(self).field.height == old(self).field.height,
            final(self).field.cells@ == spec_lock_cells(old(self).field, t),
            final(self).tetromino == t,
            final(self).state == SessionState::Spawning,
            final(self).last_tspin == spec_detect_t_spin(
                t,
                old(self).field,
                old(self).last_wallkick,
                old(self).last_kick_index as int,
            ),
            final(self).last_wallkick == old(self).last_wallkick,
            final(self).last_kick_index == old(self).last_kick_index,
            final(self).stats == spec_stats_after_lock(old(self).stats, spin),
    {
        let wallkick = self.last_wallkick;
        let kick_index = self.last_kick_index;
        let mut new_field = self.field.clone();
        fix_tetromino(&mut new_field, &t);
        proof {
            assert(new_field.cells@ =~= spec_fixed_cells(self.field, t));
        }
        let cleared = clear_lines(&mut new_field);
        let spin = detect_spin(&t, &self.field, wallkick, kick_index, cleared);
        self.last_tspin = detect_t_spin(&t, &self.field, wallkick, kick_index);
        self.field = new_field;
        self.tetromino = t;
        self.state = SessionState::Spawning;
        self.stats = GameStats {
            score: self.stats.score.saturating_add(spin.bonus),
            lines_cleared: self.stats.lines_cleared.saturating_add(spin.lines),
            blocks_placed: self.stats.blocks_placed.saturating_add(1),
            tetris_count: if spin.lines >= 4 {
                self.stats.tetris_count.saturating_add(1)
            } else {
                self.stats.tetris_count
            },
            tspin_count: if matches!(spin.spin_type, SpinType::TSpin) {
                self.stats.tspin_count.saturating_add(1)
            } else {
                self.stats.tspin_count
            },
            ..self.stats
        };
        spin
    }

    /// Apply one move command. A rejected sideways move changes nothing;
    /// a rejected downward move is the lock trigger: the piece is fixed,
    /// the lock processed, and the session hands the turn to spawning.
    /// Outside the falling state the command is a no-op.
    pub fn move_tetromino(&mut self, dir: Direction) -> (r: Tetromino)
        requires
            old(self).wf(),
        ensures
            final(self).wf(),
            r == final(self).tetromino,
            old(self).state != SessionState::Falling ==> *final(self) == *old(self),
            (old(self).state == SessionState::Falling && dir == Direction::Left) ==> {
                let trial = shifted(old(self).tetromino, -1, 0);
                *final(self) == (if !old(self).field.collides(trial) {
                    GameSession { tetromino: trial, ..*old(self) }
                } else {
                    *old(self)
                })
            },
            (old(self).state == SessionState::Falling && dir == Direction::Right) ==> {
                let trial = shifted(old(self).tetromino, 1, 0);
                *final(self) == (if !old(self).field.collides(trial) {
                    GameSession { tetromino: trial, ..*old(self) }
                } else {
                    *old(self)
                })
            },
            (old(self).state == SessionState::Falling && dir == Direction::Down) ==> {
                let trial = shifted(old(self).tetromino, 0, 1);
                if !old(self).field.collides(trial) {
                    *final(self) == (GameSession { tetromino: trial, ..*old(self) })
                } else {
                    let spin = spec_lock_spin(
                        old(self).field,
                        old(self).tetromino,
                        old(self).last_wallkick,
                        old(self).last_kick_index as int,
                    );
                    &&& final(self).field.width == old(self).field.width
                    &&& final(self).field.height == old(self).field.height
                    &&& final(self).field.cells@ == spec_lock_cells(
                        old(self).field,
                        old(self).tetromino,
                    )
                    &&& final(self).tetromino == old(self).tetromino
                    &&& final(self).state == SessionState::Spawning
                    &&& final(self).last_tspin == spec_detect_t_spin(
                        old(self).tetromino,
                        old(self).field,
                        old(self).last_wallkick,
                        old(self).last_kick_index as int,
                    )
                    &&& final(self).last_wallkick == old(self).last_wallkick
                    &&& final(self).last_kick_index == old(self).last_kick_index
                    &&& final(self).stats == spec_stats_after_lock(old(self).stats, spin)
                }
            },
    {
        if !matches!(self.state, SessionState::Falling) {
            return self.tetromino;
        }
        let t = self.tetromino;
        match dir {
            Direction::Left => {
                let trial = Tetromino { x: t.x - 1, ..t };
                if !check_collision(&self.field, &trial) {
                    proof {
                        lemma_noncolliding_bounds(self.field, trial);
                    }
                    self.tetromino = trial;
                }
            },
            Direction::Right => {
                let trial = Tetromino { x: t.x + 1, ..t };
                if !check_collision(&self.field, &trial) {
                    proof {
                        lemma_noncolliding_bounds(self.field, trial);
                    }
                    self.tetromino = trial;
                }
            },
            Direction::Down => {
                let trial = Tetromino { y: t.y + 1, ..t };
                if !check_collision(&self.field, &trial) {
                    proof {
                        lemma_noncolliding_bounds(self.field, trial);
                    }
                    self.tetromino = trial;
                } else {
                    let _ = self.lock_at(t);
                }
            },
        }
        self.tetromino
    }

    /// Apply one tick of gravity: exactly a downward move command.
    pub fn update(&mut self) -> (r: Tetromino)
        requires
            old(self).wf(),
        ensures
            final(self).wf(),
            r == final(self).tetromino,
            old(self).state != SessionState::Falling ==> *final(self) == *old(self),
            old(self).state == SessionState::Falling ==> {
                let trial = shifted(old(self).tetromino, 0, 1);
                if !old(self).field.collides(trial) {
                    *final(self) == (GameSession { tetromino: trial, ..*old(self) })
                } else {
                    let spin = spec_lock_spin(
                        old(self).field,
                        old(self).tetromino,
                        old(self).last_wallkick,
                        old(self).last_kick_index as int,
                    );
                    &&& final(self).field.width == old(self).field.width
                    &&& final(self).field.height == old(self).field.height
                    &&& final(self).field.cells@ == spec_lock_cells(
                        old(self).field,
                        old(self).tetromino,
                    )
                    &&& final(self).tetromino == old(self).tetromino
                    &&& final(self).state == SessionState::Spawning
                    &&& final(self).last_tspin == spec_detect_t_spin(
                        old(self).tetromino,
                        old(self).field,
                        old(self).last_wallkick,
                        old(self).last_kick_index as int,
                    )
                    &&& final(self).last_wallkick == old(self).last_wallkick
                    &&& final(self).last_kick_index == old(self).last_kick_index
                    &&& final(self).stats == spec_stats_after_lock(old(self).stats, spin)
                }
            },
    {
        self.move_tetromino(Direction::Down)
    }

    /// Try a quarter turn through the rotation system; the piece and the
    /// rotation history take whatever the resolver reports. Outside the
    /// falling state nothing changes and a failed result is returned.
    pub fn rotate_tetromino(&mut self, clockwise: bool) -> (r: RotationResult)
        requires
            old(self).wf(),
        ensures
            final(self).wf(),
            old(self).state != SessionState::Falling ==> (*final(self) == *old(self) && r == (
            RotationResult {
                tetromino: old(self).tetromino,
                wallkick: false,
                kick_index: -1 as i32,
            })),
            old(self).state == SessionState::Falling ==> (r == spec_attempt_rotation(
                old(self).field,
                old(self).tetromino,
                clockwise,
            ) && *final(self) == (GameSession {
                tetromino: r.tetromino,
                last_wallkick: r.wallkick,
                last_kick_index: r.kick_index,
                ..*old(self)
            })),
    {
        if !matches!(self.state, SessionState::Falling) {
            return RotationResult { tetromino: self.tetromino, wallkick: false, kick_index: -1 };
        }
        let res = attempt_srs_rotation(&self.tetromino, &self.field, clockwise);
        proof {
            lemma_first_fit_range(self.field, self.tetromino, clockwise, 0);
            if res.kick_index >= 0 {
                lemma_first_fit_found(self.field, self.tetromino, clockwise, 0);
                lemma_noncolliding_bounds(self.field, res.tetromino);
            }
        }
        self.tetromino = res.tetromino;
        self.last_wallkick = res.wallkick;
        self.last_kick_index = res.kick_index;
        res
    }

    /// Drop the piece straight down to its settled position and lock it
    /// there: the same outcome as soft-dropping until rejection and then
    /// locking. Outside the falling state this is a no-op.
    pub fn hard_drop(&mut self) -> (r: Tetromino)
        requires
            old(self).wf(),
        ensures
            final(self).wf(),
            r == final(self).tetromino,
            old(self).state != SessionState::Falling ==> *final(self) == *old(self),
            old(self).state == SessionState::Falling ==> {
                let settled = spec_settled(old(self).field, old(self).tetromino);
                let spin = spec_lock_spin(
                    old(self).field,
                    settled,
                    old(self).last_wallkick,
                    old(self).last_kick_index as int,
                );
                &&& final(self).tetromino == settled
                &&& final(self).field.width == old(self).field.width
                &&& final(self).field.height == old(self).field.height
                &&& final(self).field.cells@ == spec_lock_cells(old(self).field, settled)
                &&& final(self).state == SessionState::Spawning
                &&& final(self).last_tspin == spec_detect_t_spin(
                    settled,
                    old(self).field,
                    old(self).last_wallkick,
                    old(self).last_kick_index as int,
                )
                &&& final(self).last_wallkick == old(self).last_wallkick
                &&& final(self).last_kick_index == old(self).last_kick_index
                &&& final(self).stats == spec_stats_after_lock(old(self).stats, spin)
            },
    {
        if !matches!(self.state, SessionState::Falling) {
            return self.tetromino;
        }
        let t0 = self.tetromino;
        let mut t = t0;
        let first_trial = Tetromino { y: t.y + 1, ..t };
        let mut landed = check_collision(&self.field, &first_trial);
        proof {
            lemma_noncolliding_bounds(self.field, t);
        }
        while !landed
            invariant
                *self == *old(self),
                old(self).wf(),
                self.state == SessionState::Falling,
                t.kind == t0.kind,
                t.rotation == t0.rotation,
                t.x == t0.x,
                t0.y <= t.y,
                t.pos_ok(),
                t.rotation < 4,
                !self.field.collides(t),
                -3 <= t.y < self.field.height as int,
                landed == self.field.collides(shifted(t, 0, 1)),
                spec_settled(self.field, t0) == spec_settled(self.field, t),
            decreases self.field.height as int - t.y,
        {
            proof {
                lemma_settle_step(self.field, t);
                lemma_noncolliding_bounds(self.field, shifted(t, 0, 1));
            }
            t = Tetromino { y: t.y + 1, ..t };
            let trial = Tetromino { y: t.y + 1, ..t };
            landed = check_collision(&self.field, &trial);
        }
        proof {
            assert(spec_settled(self.field, t) == t);
        }
        let _ = self.lock_at(t);
        self.tetromino
    }

    /// A copy of the grid.
    pub fn get_field(&self) -> (r: Field)
        ensures
            r.width == self.field.width,
            r.height == self.field.height,
            r.cells@ == self.field.cells@,
    {
        self.field.clone()
    }

    /// The active piece.
    pub fn get_current_tetromino(&self) -> (r: Tetromino)
        ensures
            r == self.tetromino,
    {
        self.tetromino
    }

    /// The cumulative statistics.
    pub fn get_stats(&self) -> (r: GameStats)
        ensures
            r == self.stats,
    {
        self.stats
    }

    /// The cumulative score.
    pub fn get_score(&self) -> (r: u32)
        ensures
            r == self.stats.score,
    {
        self.stats.score
    }

    /// The player rank; rank tracking is not implemented and always
    /// reports zero.
    pub fn get_rank(&self) -> (r: u8)
        ensures
            r == 0,
    {
        0
    }

    /// The T-spin classification recorded by the most recent lock.
    pub fn get_last_tspin_type(&self) -> (r: TSpinType)
        ensures
            r == self.last_tspin,
    {
        self.last_tspin
    }

    /// A full outward snapshot of the session.
    pub fn get_game_state(&self) -> (r: GameStateSnapshot)
        ensures
            r.field.width == self.field.width,
            r.field.height == self.field.height,
            r.field.cells@ == self.field.cells@,
            r.tetromino == self.tetromino,
            r.last_tspin == self.last_tspin,
            r.last_wallkick == self.last_wallkick,
            r.last_kick_index == self.last_kick_index,
    {
        GameStateSnapshot {
            field: self.field.clone(),
            tetromino: self.tetromino,
            last_tspin: self.last_tspin,
            last_wallkick: self.last_wallkick,
            last_kick_index: self.last_kick_index,
        }
    }
}

/// Draw a uniformly random piece kind.
pub fn random_tetromino_kind() -> TetrominoKind {
    let idx = random_below(7);
    if idx == 0 {
        TetrominoKind::I
    } else if idx == 1 {
        TetrominoKind::O
    } else if idx == 2 {
        TetrominoKind::T
    } else if idx == 3 {
        TetrominoKind::S
    } else if idx == 4 {
        TetrominoKind::Z
    } else if idx == 5 {
        TetrominoKind::J
    } else {
        TetrominoKind::L
    }
}

} // verus!
