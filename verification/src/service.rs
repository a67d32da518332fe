use vstd::prelude::*;
use vstd::string::StringExecFns;

verus! {

/// The external identifier type used for users and records.
#[verifier::external_type_specification]
#[verifier::external_body]
pub struct ExUuid(uuid::Uuid);

/// A request to record one unlocked achievement for a user.
pub struct CreateAchievementRequest {
    pub user_id: uuid::Uuid,
    pub achievement_type: String,
    pub title: String,
    pub description: String,
}

/// A score-listing query: an optional game mode filter and an optional
/// row limit.
pub struct ScoreQuery {
    pub game_mode: Option<String>,
    pub limit: Option<i64>,
}

/// Relies on uuid::Uuid::nil: the all-zero placeholder identifier, used
/// until a real user id is attached.
#[verifier::external_body]
fn nil_uuid() -> uuid::Uuid {
    uuid::Uuid::nil()
}

/// The base score of a simultaneous line clear.
pub open spec fn spec_base_score(lines: int) -> int {
    if lines == 1 {
        100
    } else if lines == 2 {
        300
    } else if lines == 3 {
        500
    } else if lines == 4 {
        800
    } else {
        0
    }
}

/// The score-threshold award.
pub open spec fn is_score_award(c: CreateAchievementRequest) -> bool {
    c.achievement_type@ == "score"@ && c.title@ == "High Scorer"@ && c.description@
        == "Reach 10,000 points"@
}

/// The line-count award.
pub open spec fn is_lines_award(c: CreateAchievementRequest) -> bool {
    c.achievement_type@ == "lines"@ && c.title@ == "Line Master"@ && c.description@
        == "Clear 100 lines"@
}

/// The level award.
pub open spec fn is_level_award(c: CreateAchievementRequest) -> bool {
    c.achievement_type@ == "level"@ && c.title@ == "Level Up"@ && c.description@
        == "Reach level 10"@
}

/// Scoring and milestone rules for finished games.
pub struct GameService;

impl GameService {
    /// The score a clear is worth: the base score of the cleared line
    /// count, scaled by the level.
    pub fn calculate_score(lines_cleared: i32, level: i32) -> (r: i32)
        requires
            (1 <= lines_cleared <= 4) ==> -2684354 <= level <= 2684354,
        ensures
            r as int == spec_base_score(lines_cleared as int) * (level as int),
    {
        let base_score: i32 = if lines_cleared == 1 {
            100
        } else if lines_cleared == 2 {
            300
        } else if lines_cleared == 3 {
            500
        } else if lines_cleared == 4 {
            800
        } else {
            0
        };
        assert(-0x8000_0000 <= (base_score as int) * (level as int) <= 0x7fff_ffff) by (
        nonlinear_arith)
            requires
                base_score == 0 || (100 <= base_score <= 800 && -2684354 <= level <= 2684354),
        ;
        base_score * level
    }

    /// The milestone awards a finished game earns: the score award at
    /// ten thousand points, the line award at a hundred cleared lines,
    /// and the level award at level ten, in that order and nothing else.
    pub fn check_achievements(score: i32, lines_cleared: i32, level: i32) -> (r: Vec<
        CreateAchievementRequest,
    >)
        ensures
            r@.len() == (if score >= 10000 {
                1int
            } else {
                0int
            }) + (if lines_cleared >= 100 {
                1int
            } else {
                0int
            }) + (if level >= 10 {
                1int
            } else {
                0int
            }),
            score >= 10000 ==> is_score_award(r@[0]),
            lines_cleared >= 100 ==> is_lines_award(
                r@[if score >= 10000 {
                    1int
                } else {
                    0int
                }],
            ),
            level >= 10 ==> is_level_award(r@[r@.len() - 1]),
    {
        let mut achievements: Vec<CreateAchievementRequest> = Vec::new();
        if score >= 10000 {
            achievements.push(
                CreateAchievementRequest {
                    user_id: nil_uuid(),
                    achievement_type: String::from_str("score"),
                    title: String::from_str("High Scorer"),
                    description: String::from_str("Reach 10,000 points"),
                },
            );
        }
        if lines_cleared >= 100 {
            achievements.push(
                CreateAchievementRequest {
                    user_id: nil_uuid(),
                    achievement_type: String::from_str("lines"),
                    title: String::from_str("Line Master"),
                    description: String::from_str("Clear 100 lines"),
                },
            );
        }
        if level >= 10 {
            achievements.push(
                CreateAchievementRequest {
                    user_id: nil_uuid(),
                    achievement_type: String::from_str("level"),
                    title: String::from_str("Level Up"),
                    description: String::from_str("Reach level 10"),
                },
            );
        }
        achievements
    }
}

} // verus!
