//! Rules engine for a falling-block puzzle game: grid occupancy and
//! collision, piece geometry, SRS rotation with wall kicks, spin
//! classification and its bonus table, line clearing, a session
//! controller, and the achievement tracker that consumes stat snapshots.

mod achievement;
mod auth;
mod grid;
mod piece;
mod rotation;
mod service;
mod session;
mod spin;
mod util;

pub use achievement::Achievement;
pub use achievement::AchievementCategory;
pub use achievement::AchievementCondition;
pub use achievement::AchievementManager;
pub use achievement::ConditionType;
pub use achievement::GameStats;
pub use auth::AppConfig;
pub use auth::AuthService;
pub use auth::Claims;
pub use auth::LoginRequest;
pub use auth::LoginResponse;
pub use auth::VerifyTokenRequest;
pub use auth::VerifyTokenResponse;
pub use grid::Field;
pub use grid::check_collision;
pub use grid::clear_lines;
pub use grid::fix_tetromino;
pub use grid::init_field;
pub use grid::is_filled;
pub use piece::Tetromino;
pub use piece::TetrominoKind;
pub use piece::get_tetromino_blocks;
pub use rotation::RotationResult;
pub use rotation::attempt_srs_rotation;
pub use rotation::kick_candidates;
pub use service::CreateAchievementRequest;
pub use service::GameService;
pub use service::ScoreQuery;
pub use session::Direction;
pub use session::GameSession;
pub use session::GameStateSnapshot;
pub use session::SessionState;
pub use session::random_tetromino_kind;
pub use spin::SpinResult;
pub use spin::SpinType;
pub use spin::SpinVariant;
pub use spin::TSpinType;
pub use spin::count_corners;
pub use spin::count_t_spin_corners;
pub use spin::detect_i_spin;
pub use spin::detect_jl_spin;
pub use spin::detect_spin;
pub use spin::detect_sz_spin;
pub use spin::detect_t_spin;
pub use spin::get_center_block;
pub use spin::get_corner_positions;
pub use spin::get_t_center_block;
pub use util::clamp;
pub use util::random_int;
