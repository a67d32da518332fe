use vstd::prelude::*;
use vstd::string::StringExecFns;

verus! {

/// A cumulative snapshot of one player's statistics, consumed by the
/// achievement tracker.
#[derive(Clone, Copy, PartialEq, Eq, Structural, Debug)]
pub struct GameStats {
    pub score: u32,
    pub lines_cleared: u32,
    pub blocks_placed: u32,
    pub tetris_count: u32,
    pub tspin_count: u32,
    pub max_combo: u32,
    pub perfect_clear_count: u32,
    pub fever_count: u32,
    pub exchange_count: u32,
    pub hold_count: u32,
    pub level: u32,
    pub dan_rank: u32,
    pub play_time: u32,
    pub games_played: u32,
}

/// Where an achievement is shown in the collection.
#[derive(Clone, Copy, PartialEq, Eq, Structural, Debug)]
pub enum AchievementCategory {
    Basic,
    Score,
    Technical,
    Challenge,
    Special,
    Rank,
    Progress,
    Fun,
}

/// Which statistic an achievement condition is matched against.
#[derive(Clone, Copy, PartialEq, Eq, Structural, Debug)]
pub enum ConditionType {
    Score,
    LinesCleared,
    BlocksPlaced,
    Tetris,
    TSpin,
    MaxCombo,
    PerfectClear,
    FeverCount,
    ExchangeCount,
    HoldCount,
    Level,
    DanRank,
    GamesPlayed,
}

/// The unlock condition of an achievement: the statistic it watches and
/// its target value, with optional extra qualifiers.
#[derive(Clone, Copy, PartialEq, Eq, Structural, Debug)]
pub struct AchievementCondition {
    pub condition_type: ConditionType,
    pub value: u32,
    pub score: Option<u32>,
    pub time: Option<u32>,
    pub max_blocks: Option<u32>,
}

/// One achievement: identity and display data, its reward, its unlock
/// state, and the progress made toward its condition.
#[derive(Debug)]
pub struct Achievement {
    pub id: String,
    pub name: String,
    pub description: String,
    pub category: AchievementCategory,
    pub icon: String,
    pub point_reward: u32,
    pub unlocked: bool,
    pub unlocked_at: Option<String>,
    pub progress: u32,
    pub max_progress: u32,
    pub condition: AchievementCondition,
    pub hidden: bool,
}

impl Clone for Achievement {
    /// Cloning yields an identical achievement.
    fn clone(&self) -> (r: Achievement)
        ensures
            r == *self,
    {
        Achievement {
            id: self.id.clone(),
            name: self.name.clone(),
            description: self.description.clone(),
            category: self.category,
            icon: self.icon.clone(),
            point_reward: self.point_reward,
            unlocked: self.unlocked,
            unlocked_at: match &self.unlocked_at {
                Some(s) => Some(s.clone()),
                None => None,
            },
            progress: self.progress,
            max_progress: self.max_progress,
            condition: self.condition,
            hidden: self.hidden,
        }
    }
}

/// The statistic an achievement condition watches.
pub open spec fn spec_stat_value(ct: ConditionType, s: GameStats) -> u32 {
    match ct {
        ConditionType::Score => s.score,
        ConditionType::LinesCleared => s.lines_cleared,
        ConditionType::BlocksPlaced => s.blocks_placed,
        ConditionType::Tetris => s.tetris_count,
        ConditionType::TSpin => s.tspin_count,
        ConditionType::MaxCombo => s.max_combo,
        ConditionType::PerfectClear => s.perfect_clear_count,
        ConditionType::FeverCount => s.fever_count,
        ConditionType::ExchangeCount => s.exchange_count,
        ConditionType::HoldCount => s.hold_count,
        ConditionType::Level => s.level,
        ConditionType::DanRank => s.dan_rank,
        ConditionType::GamesPlayed => s.games_played,
    }
}

/// Progress toward an achievement: the watched statistic, capped at the
/// achievement's target.
pub open spec fn spec_progress(a: Achievement, s: GameStats) -> u32 {
    let v = spec_stat_value(a.condition.condition_type, s);
    if v < a.max_progress {
        v
    } else {
        a.max_progress
    }
}

/// Whether a submission completes a still-locked achievement: unlock
/// fires exactly when progress reaches the target, and only for
/// achievements not yet unlocked.
pub open spec fn completes(a: Achievement, s: GameStats) -> bool {
    !a.unlocked && spec_progress(a, s) >= a.max_progress
}

/// How one tracked achievement changes under one stat submission: the
/// identity, display data, reward, target and condition never change;
/// the unlock flag is the old flag or completion (so it never falls);
/// progress of a locked achievement follows the submission; a completing
/// achievement gets an unlock timestamp, all others keep theirs.
pub open spec fn achievement_step(a0: Achievement, a1: Achievement, s: GameStats) -> bool {
    &&& a1.id == a0.id
    &&& a1.name == a0.name
    &&& a1.description == a0.description
    &&& a1.category == a0.category
    &&& a1.icon == a0.icon
    &&& a1.point_reward == a0.point_reward
    &&& a1.max_progress == a0.max_progress
    &&& a1.condition == a0.condition
    &&& a1.hidden == a0.hidden
    &&& a1.unlocked == (a0.unlocked || completes(a0, s))
    &&& a1.progress == (if a0.unlocked {
        a0.progress
    } else {
        spec_progress(a0, s)
    })
    &&& (completes(a0, s) ==> a1.unlocked_at is Some)
    &&& (!completes(a0, s) ==> a1.unlocked_at == a0.unlocked_at)
}

/// Unlocking is monotonic and exactly-once: after a submission step, an
/// achievement that was unlocked before the step, or that the step
/// unlocked, is unlocked afterwards and can never complete again — so no
/// later submission, with equal, greater or any other stats, ever
/// reports it as newly unlocked a second time.
pub proof fn lemma_unlock_exactly_once(
    a0: Achievement,
    a1: Achievement,
    s1: GameStats,
    s2: GameStats,
)
    requires
        achievement_step(a0, a1, s1),
        a0.unlocked || completes(a0, s1),
    ensures
        a1.unlocked,
        !completes(a1, s2),
{
}

/// Whether `a` is one of the achievements of `s_new` whose `s_old`
/// counterpart the submission `st` completes: the shape of every entry
/// in a `check_achievements` report.
pub open spec fn reported_from(
    s_old: Seq<Achievement>,
    s_new: Seq<Achievement>,
    st: GameStats,
    a: Achievement,
) -> bool {
    exists|i: int|
        0 <= i < s_old.len() && completes(#[trigger] s_old[i], st) && a == s_new[i]
}

/// The points of the unlocked achievements among `s[a..b]`.
pub open spec fn points_range(s: Seq<Achievement>, a: int, b: int) -> int
    decreases b - a,
{
    if a >= b {
        0
    } else {
        points_range(s, a, b - 1) + (if s[b - 1].unlocked {
            s[b - 1].point_reward as int
        } else {
            0int
        })
    }
}

/// How many achievements among `s[a..b]` are unlocked.
pub open spec fn count_range(s: Seq<Achievement>, a: int, b: int) -> int
    decreases b - a,
{
    if a >= b {
        0
    } else {
        count_range(s, a, b - 1) + (if s[b - 1].unlocked {
            1int
        } else {
            0int
        })
    }
}

/// The points of all achievements among `s[a..b]`.
pub open spec fn reward_range(s: Seq<Achievement>, a: int, b: int) -> int
    decreases b - a,
{
    if a >= b {
        0
    } else {
        reward_range(s, a, b - 1) + s[b - 1].point_reward as int
    }
}

/// How many achievements among `s[a..b]` a submission completes.
pub open spec fn completing_range(s: Seq<Achievement>, st: GameStats, a: int, b: int) -> int
    decreases b - a,
{
    if a >= b {
        0
    } else {
        completing_range(s, st, a, b - 1) + (if completes(s[b - 1], st) {
            1int
        } else {
            0int
        })
    }
}

/// The range sums are bounded: unlocked points never exceed all points,
/// and the unlocked count never exceeds the range's width.
pub proof fn lemma_ranges_bounded(s: Seq<Achievement>, a: int, b: int)
    requires
        a <= b,
    ensures
        0 <= points_range(s, a, b) <= reward_range(s, a, b),
        0 <= count_range(s, a, b) <= b - a,
    decreases b - a,
{
    if a < b {
        lemma_ranges_bounded(s, a, b - 1);
    }
}

/// The range sums read only the elements in range, so they agree on any
/// two sequences equal there.
pub proof fn lemma_ranges_congruent(s1: Seq<Achievement>, s2: Seq<Achievement>, a: int, b: int)
    requires
        forall|j: int| a <= j < b ==> s1[j] == s2[j],
    ensures
        points_range(s1, a, b) == points_range(s2, a, b),
        count_range(s1, a, b) == count_range(s2, a, b),
        reward_range(s1, a, b) == reward_range(s2, a, b),
    decreases b - a,
{
    if a < b {
        lemma_ranges_congruent(s1, s2, a, b - 1);
    }
}

/// How the range sums move when one element in range is replaced.
pub proof fn lemma_ranges_update(s: Seq<Achievement>, i: int, v: Achievement, a: int, b: int)
    requires
        0 <= a,
        0 <= i < s.len(),
        a <= i < b,
        b <= s.len(),
    ensures
        points_range(s.update(i, v), a, b) == points_range(s, a, b) - (if s[i].unlocked {
            s[i].point_reward as int
        } else {
            0int
        }) + (if v.unlocked {
            v.point_reward as int
        } else {
            0int
        }),
        count_range(s.update(i, v), a, b) == count_range(s, a, b) - (if s[i].unlocked {
            1int
        } else {
            0int
        }) + (if v.unlocked {
            1int
        } else {
            0int
        }),
        reward_range(s.update(i, v), a, b) == reward_range(s, a, b) - s[i].point_reward + v.point_reward,
    decreases b - a,
{
    if a < b {
        if i == b - 1 {
            assert forall|j: int| a <= j < b - 1 implies s.update(i, v)[j] == s[j] by {}
            lemma_ranges_congruent(s.update(i, v), s, a, b - 1);
        } else {
            lemma_ranges_update(s, i, v, a, b - 1);
        }
    }
}

/// Unlocked points plus the reward of one still-locked element in range
/// stay within the range's total rewards, and likewise for the unlocked
/// count against the range's width.
pub proof fn lemma_locked_points_bound(s: Seq<Achievement>, i: int, a: int, b: int)
    requires
        a <= i < b,
        !s[i].unlocked,
    ensures
        points_range(s, a, b) + s[i].point_reward <= reward_range(s, a, b),
        count_range(s, a, b) + 1 <= b - a,
    decreases b - a,
{
    if i == b - 1 {
        lemma_ranges_bounded(s, a, b - 1);
    } else {
        lemma_locked_points_bound(s, i, a, b - 1);
    }
}

/// The achievement tracker: the tracked achievements with their unlock
/// state, and running totals over the unlocked ones.
pub struct AchievementManager {
    achievements: Vec<Achievement>,
    total_points: u32,
    unlocked_count: u32,
}

/// Relies on chrono::Utc::now and chrono::DateTime::to_rfc3339: the
/// current UTC time rendered as an RFC 3339 timestamp. The clock pins
/// nothing about the value, so nothing further is stated.
#[verifier::external_body]
fn now_rfc3339() -> String {
    chrono::Utc::now().to_rfc3339()
}

impl AchievementManager {
    /// The tracker's invariant: the running totals agree with the
    /// achievement list, and the total rewards on offer fit in `u32`.
    pub closed spec fn wf(self) -> bool {
        &&& self.total_points as int == points_range(self.achievements@, 0, self.achievements@.len() as int)
        &&& self.unlocked_count as int == count_range(self.achievements@, 0, self.achievements@.len() as int)
        &&& reward_range(self.achievements@, 0, self.achievements@.len() as int) <= u32::MAX
        &&& self.achievements@.len() <= u32::MAX
    }

    /// The tracked achievements.
    pub closed spec fn spec_achievements(self) -> Seq<Achievement> {
        self.achievements@
    }

    /// The built-in achievement list: everything starts locked with no
    /// progress.
    fn create_achievements() -> (r: Vec<Achievement>)
        ensures
            r@.len() == 2,
            forall|i: int|
                0 <= i < r@.len() ==> !(#[trigger] r@[i]).unlocked && r@[i].progress == 0
                    && r@[i].unlocked_at is None,
            r@[0].id@ == "first_line"@,
            r@[0].condition.condition_type == ConditionType::LinesCleared,
            r@[0].max_progress == 1,
            r@[0].point_reward == 10,
            r@[1].id@ == "first_game"@,
            r@[1].condition.condition_type == ConditionType::GamesPlayed,
            r@[1].max_progress == 1,
            r@[1].point_reward == 5,
            reward_range(r@, 0, 2) == 15,
    {
        let mut r: Vec<Achievement> = Vec::new();
        r.push(
            Achievement {
                id: String::from_str("first_line"),
                name: String::from_str("First line clear"),
                description: String::from_str("Clear a line for the first time"),
                category: AchievementCategory::Basic,
                icon: String::from_str("flag"),
                point_reward: 10,
                unlocked: false,
                unlocked_at: None,
                progress: 0,
                max_progress: 1,
                condition: AchievementCondition {
                    condition_type: ConditionType::LinesCleared,
                    value: 1,
                    score: None,
                    time: None,
                    max_blocks: None,
                },
                hidden: false,
            },
        );
        r.push(
            Achievement {
                id: String::from_str("first_game"),
                name: String::from_str("First step"),
                description: String::from_str("Play a game for the first time"),
                category: AchievementCategory::Basic,
                icon: String::from_str("controller"),
                point_reward: 5,
                unlocked: false,
                unlocked_at: None,
                progress: 0,
                max_progress: 1,
                condition: AchievementCondition {
                    condition_type: ConditionType::GamesPlayed,
                    value: 1,
                    score: None,
                    time: None,
                    max_blocks: None,
                },
                hidden: false,
            },
        );
        proof {
            assert(reward_range(r@, 0, 0) == 0);
            assert(reward_range(r@, 0, 1) == 10);
            assert(reward_range(r@, 0, 2) == 15);
        }
        r
    }

    /// A fresh tracker over the built-in achievement list: nothing is
    /// unlocked and no points are earned.
    pub fn new() -> (m: AchievementManager)
        ensures
            m.wf(),
            m.spec_achievements().len() == 2,
            m.total_points() == 0,
            m.unlocked_count() == 0,
            forall|i: int|
                0 <= i < m.spec_achievements().len() ==> !(#[trigger] m.spec_achievements()[i]).unlocked,
            m.spec_achievements()[0].id@ == "first_line"@,
            m.spec_achievements()[0].condition.condition_type == ConditionType::LinesCleared,
            m.spec_achievements()[0].max_progress == 1,
            m.spec_achievements()[1].id@ == "first_game"@,
            m.spec_achievements()[1].condition.condition_type == ConditionType::GamesPlayed,
            m.spec_achievements()[1].max_progress == 1,
    {
        let achievements = Self::create_achievements();
        proof {
            assert(points_range(achievements@, 0, 0) == 0);
            assert(points_range(achievements@, 0, 1) == 0);
            assert(points_range(achievements@, 0, 2) == 0);
            assert(count_range(achievements@, 0, 0) == 0);
            assert(count_range(achievements@, 0, 1) == 0);
            assert(count_range(achievements@, 0, 2) == 0);
        }
        AchievementManager { achievements, total_points: 0, unlocked_count: 0 }
    }

    /// The points earned so far.
    pub closed spec fn total_points(self) -> u32 {
        self.total_points
    }

    /// How many achievements are unlocked so far.
    pub closed spec fn unlocked_count(self) -> u32 {
        self.unlocked_count
    }

    /// The tracked achievements, for display.
    pub fn get_achievements(&self) -> (r: &Vec<Achievement>)
        ensures
            r@ == self.spec_achievements(),
    {
        &self.achievements
    }

    /// The points earned over all unlocked achievements.
    pub fn get_total_points(&self) -> (r: u32)
        requires
            self.wf(),
        ensures
            r as int == points_range(self.spec_achievements(), 0, self.spec_achievements().len() as int),
    {
        self.total_points
    }

    /// How many achievements are unlocked.
    pub fn get_unlocked_count(&self) -> (r: u32)
        requires
            self.wf(),
        ensures
            r as int == count_range(self.spec_achievements(), 0, self.spec_achievements().len() as int),
    {
        self.unlocked_count
    }

    /// Progress toward one achievement under a stat snapshot: the
    /// watched statistic, capped at the target.
    pub fn calculate_progress(achievement: &Achievement, stats: &GameStats) -> (r: u32)
        ensures
            r == spec_progress(*achievement, *stats),
    {
        let v = match achievement.condition.condition_type {
            ConditionType::Score => stats.score,
            ConditionType::LinesCleared => stats.lines_cleared,
            ConditionType::BlocksPlaced => stats.blocks_placed,
            ConditionType::Tetris => stats.tetris_count,
            ConditionType::TSpin => stats.tspin_count,
            ConditionType::MaxCombo => stats.max_combo,
            ConditionType::PerfectClear => stats.perfect_clear_count,
            ConditionType::FeverCount => stats.fever_count,
            ConditionType::ExchangeCount => stats.exchange_count,
            ConditionType::HoldCount => stats.hold_count,
            ConditionType::Level => stats.level,
            ConditionType::DanRank => stats.dan_rank,
            ConditionType::GamesPlayed => stats.games_played,
        };
        if v < achievement.max_progress {
            v
        } else {
            achievement.max_progress
        }
    }

    /// Submit a stat snapshot: update every locked achievement's
    /// progress, unlock each one whose progress reaches its target, add
    /// its points, and return exactly the newly unlocked achievements.
    /// Achievements already unlocked are never touched and never
    /// reported again.
    #[verifier::rlimit(60)]
    pub fn check_achievements(&mut self, stats: &GameStats) -> (newly: Vec<Achievement>)
        requires
            old(self).wf(),
        ensures
            final(self).wf(),
            final(self).spec_achievements().len() == old(self).spec_achievements().len(),
            forall|i: int|
                0 <= i < old(self).spec_achievements().len() ==> achievement_step(
                    old(self).spec_achievements()[i],
                    final(self).spec_achievements()[i],
                    *stats,
                ),
            newly@.len() == completing_range(
                old(self).spec_achievements(),
                *stats,
                0,
                old(self).spec_achievements().len() as int,
            ),
            forall|j: int|
                0 <= j < newly@.len() ==> reported_from(
                    old(self).spec_achievements(),
                    final(self).spec_achievements(),
                    *stats,
                    #[trigger] newly@[j],
                ),
            forall|i: int|
                0 <= i < old(self).spec_achievements().len() && completes(
                    #[trigger] old(self).spec_achievements()[i],
                    *stats,
                ) ==> exists|j: int| 0 <= j < newly@.len() && newly@[j] == final(self).spec_achievements()[i],
    {
        let ghost s0 = self.achievements@;
        let ghost n_int = self.achievements@.len() as int;
        let mut newly: Vec<Achievement> = Vec::new();
        let ghost mut witness: Seq<int> = Seq::empty();
        let n = self.achievements.len();
        let mut k: usize = 0;
        while k < n
            invariant
                old(self).wf(),
                n == self.achievements@.len(),
                s0 == old(self).spec_achievements(),
                n_int == n as int,
                s0.len() == n,
                k <= n,
                self.total_points as int == points_range(self.achievements@, 0, n_int),
                self.unlocked_count as int == count_range(self.achievements@, 0, n_int),
                reward_range(self.achievements@, 0, n_int) == reward_range(s0, 0, n_int),
                reward_range(self.achievements@, 0, n_int) <= u32::MAX,
                forall|j: int| k <= j < n_int ==> self.achievements@[j] == s0[j],
                forall|j: int|
                    0 <= j < k ==> achievement_step(s0[j], #[trigger] self.achievements@[j], *stats),
                newly@.len() == completing_range(s0, *stats, 0, k as int),
                witness.len() == newly@.len(),
                forall|j: int| 0 <= j < witness.len() ==> 0 <= #[trigger] witness[j] < k,
                forall|j: int| 0 <= j < witness.len() ==> completes(s0[#[trigger] witness[j]], *stats),
                forall|j: int|
                    0 <= j < witness.len() ==> (#[trigger] newly@[j]) == self.achievements@[witness[j]],
                forall|i: int|
                    0 <= i < k && completes(#[trigger] s0[i], *stats) ==> exists|j: int|
                        0 <= j < witness.len() && #[trigger] witness[j] == i,
            decreases n - k,
        {
            let ghost pre = self.achievements@;
            let ghost newly_pre = newly@;
            let ghost witness_pre = witness;
            let ghost ki = k as int;
            if !self.achievements[k].unlocked {
                let prog = Self::calculate_progress(&self.achievements[k], stats);
                if prog >= self.achievements[k].max_progress {
                    let reward = self.achievements[k].point_reward;
                    proof {
                        lemma_locked_points_bound(pre, ki, 0, n_int);
                        lemma_ranges_bounded(pre, 0, n_int);
                    }
                    let updated = Achievement {
                        unlocked: true,
                        unlocked_at: Some(now_rfc3339()),
                        progress: prog,
                        ..self.achievements[k].clone()
                    };
                    self.achievements[k] = updated;
                    self.total_points = self.total_points + reward;
                    self.unlocked_count = self.unlocked_count + 1;
                    newly.push(self.achievements[k].clone());
                    proof {
                        lemma_ranges_update(pre, ki, self.achievements@[ki], 0, n_int);
                        assert(completes(s0[ki], *stats));
                        witness = witness.push(ki);
                        assert forall|i: int|
                            0 <= i < ki + 1 && completes(#[trigger] s0[i], *stats) implies exists|
                            j: int,
                        |
                            0 <= j < witness.len() && #[trigger] witness[j] == i by {
                            if i < ki {
                                let j = choose|j: int|
                                    0 <= j < witness_pre.len() && #[trigger] witness_pre[j] == i;
                                assert(witness[j] == witness_pre[j]);
                                assert(0 <= j < witness.len() && witness[j] == i);
                            } else {
                                assert(witness[witness.len() - 1] == ki);
                            }
                        }
                    }
                } else {
                    let updated = Achievement {
                        progress: prog,
                        ..self.achievements[k].clone()
                    };
                    self.achievements[k] = updated;
                    proof {
                        lemma_ranges_update(pre, ki, self.achievements@[ki], 0, n_int);
                        assert(!completes(s0[ki], *stats));
                    }
                }
            } else {
                proof {
                    assert(!completes(s0[ki], *stats));
                    assert(achievement_step(s0[ki], self.achievements@[ki], *stats));
                }
            }
            k = k + 1;
        }
        proof {
            assert forall|j: int| 0 <= j < newly@.len() implies reported_from(
                old(self).spec_achievements(),
                self.spec_achievements(),
                *stats,
                #[trigger] newly@[j],
            ) by {
                let i = witness[j];
                assert(0 <= i < n_int && completes(s0[i], *stats) && newly@[j]
                    == self.achievements@[i]);
                assert(old(self).spec_achievements()[i] == s0[i]);
                assert(self.spec_achievements()[i] == self.achievements@[i]);
            }
            assert forall|i: int|
                0 <= i < old(self).spec_achievements().len() && completes(
                    #[trigger] old(self).spec_achievements()[i],
                    *stats,
                ) implies exists|j: int|
                0 <= j < newly@.len() && newly@[j] == self.spec_achievements()[i] by {
                let j = choose|j: int| 0 <= j < witness.len() && #[trigger] witness[j] == i;
                assert(0 <= j < newly@.len() && newly@[j] == self.achievements@[i]);
                assert(self.spec_achievements()[i] == self.achievements@[i]);
            }
        }
        newly
    }
}

} // verus!
