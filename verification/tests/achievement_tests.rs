use tetris_core::{AchievementManager, GameStats};

fn stats(lines_cleared: u32, games_played: u32) -> GameStats {
    GameStats {
        score: 0,
        lines_cleared,
        blocks_placed: 0,
        tetris_count: 0,
        tspin_count: 0,
        max_combo: 0,
        perfect_clear_count: 0,
        fever_count: 0,
        exchange_count: 0,
        hold_count: 0,
        level: 0,
        dan_rank: 0,
        play_time: 0,
        games_played,
    }
}

#[test]
fn fresh_tracker_has_nothing_unlocked() {
    let m = AchievementManager::new();
    assert_eq!(m.get_total_points(), 0);
    assert_eq!(m.get_unlocked_count(), 0);
    let list = m.get_achievements();
    assert_eq!(list.len(), 2);
    assert_eq!(list[0].id, "first_line");
    assert_eq!(list[1].id, "first_game");
    assert!(list.iter().all(|a| !a.unlocked));
}

#[test]
fn unlock_fires_exactly_once() {
    let mut m = AchievementManager::new();

    // the first line clear unlocks "first_line", once
    let newly = m.check_achievements(&stats(1, 0));
    assert_eq!(newly.len(), 1);
    assert_eq!(newly[0].id, "first_line");
    assert!(newly[0].unlocked);
    assert!(newly[0].unlocked_at.is_some());
    assert_eq!(m.get_total_points(), 10);
    assert_eq!(m.get_unlocked_count(), 1);

    // an equal submission reports nothing new
    let newly = m.check_achievements(&stats(1, 0));
    assert_eq!(newly.len(), 0);
    assert_eq!(m.get_total_points(), 10);
    assert_eq!(m.get_unlocked_count(), 1);

    // a greater submission reports nothing new either
    let newly = m.check_achievements(&stats(50, 0));
    assert_eq!(newly.len(), 0);

    // the first game unlocks the other achievement, once
    let newly = m.check_achievements(&stats(50, 1));
    assert_eq!(newly.len(), 1);
    assert_eq!(newly[0].id, "first_game");
    assert_eq!(m.get_total_points(), 15);
    assert_eq!(m.get_unlocked_count(), 2);

    let newly = m.check_achievements(&stats(999, 999));
    assert_eq!(newly.len(), 0);
    assert_eq!(m.get_total_points(), 15);
    assert_eq!(m.get_unlocked_count(), 2);
}

#[test]
fn both_achievements_can_unlock_together() {
    let mut m = AchievementManager::new();
    let newly = m.check_achievements(&stats(3, 2));
    assert_eq!(newly.len(), 2);
    assert_eq!(newly[0].id, "first_line");
    assert_eq!(newly[1].id, "first_game");
    assert_eq!(m.get_total_points(), 15);
    assert_eq!(m.get_unlocked_count(), 2);
}

#[test]
fn progress_is_capped_at_the_target() {
    let mut m = AchievementManager::new();
    let newly = m.check_achievements(&stats(7, 0));
    assert_eq!(newly.len(), 1);
    // progress never exceeds max_progress
    let list = m.get_achievements();
    assert_eq!(list[0].progress, 1);
    assert_eq!(list[0].max_progress, 1);
}

#[test]
fn no_progress_means_no_unlock() {
    let mut m = AchievementManager::new();
    let newly = m.check_achievements(&stats(0, 0));
    assert_eq!(newly.len(), 0);
    assert_eq!(m.get_total_points(), 0);
    assert_eq!(m.get_unlocked_count(), 0);
    assert!(m.get_achievements().iter().all(|a| !a.unlocked));
}
