use tetris_core::{
    clamp, get_tetromino_blocks, kick_candidates, random_int, random_tetromino_kind, AuthService,
    GameService, LoginRequest, TetrominoKind,
};

#[test]
fn calculate_score_follows_the_table() {
    assert_eq!(GameService::calculate_score(1, 1), 100);
    assert_eq!(GameService::calculate_score(2, 3), 900);
    assert_eq!(GameService::calculate_score(3, 2), 1000);
    assert_eq!(GameService::calculate_score(4, 5), 4000);
    assert_eq!(GameService::calculate_score(0, 10), 0);
    assert_eq!(GameService::calculate_score(5, 10), 0);
}

#[test]
fn milestone_awards_come_in_order() {
    let all = GameService::check_achievements(10000, 100, 10);
    assert_eq!(all.len(), 3);
    assert_eq!(all[0].achievement_type, "score");
    assert_eq!(all[0].title, "High Scorer");
    assert_eq!(all[0].description, "Reach 10,000 points");
    assert_eq!(all[0].user_id, uuid::Uuid::nil());
    assert_eq!(all[1].achievement_type, "lines");
    assert_eq!(all[1].title, "Line Master");
    assert_eq!(all[2].achievement_type, "level");
    assert_eq!(all[2].title, "Level Up");

    let none = GameService::check_achievements(9999, 99, 9);
    assert_eq!(none.len(), 0);

    let lines_only = GameService::check_achievements(0, 100, 0);
    assert_eq!(lines_only.len(), 1);
    assert_eq!(lines_only[0].achievement_type, "lines");

    let level_only = GameService::check_achievements(0, 0, 10);
    assert_eq!(level_only.len(), 1);
    assert_eq!(level_only[0].achievement_type, "level");
}

#[test]
fn claims_expire_one_day_after_issue() {
    let claims = AuthService::build_claims("user-42", 1_700_000_000);
    assert_eq!(claims.sub, "user-42");
    assert_eq!(claims.iat, 1_700_000_000);
    assert_eq!(claims.exp, 1_700_000_000 + 86400);
}

#[test]
fn only_the_test_account_logs_in() {
    let good = LoginRequest {
        email: "test@example.com".to_string(),
        password: "password".to_string(),
    };
    assert!(AuthService::login_allowed(&good));
    let bad_password = LoginRequest {
        email: "test@example.com".to_string(),
        password: "wrong".to_string(),
    };
    assert!(!AuthService::login_allowed(&bad_password));
    let bad_email = LoginRequest {
        email: "someone@example.com".to_string(),
        password: "password".to_string(),
    };
    assert!(!AuthService::login_allowed(&bad_email));
}

#[test]
fn clamp_pins_values_into_the_interval() {
    assert_eq!(clamp(5, 0, 10), 5);
    assert_eq!(clamp(-1, 0, 10), 0);
    assert_eq!(clamp(11, 0, 10), 10);
    assert_eq!(clamp(0, 0, 10), 0);
    assert_eq!(clamp(10, 0, 10), 10);
}

#[test]
fn random_int_stays_in_range() {
    for _ in 0..200 {
        let v = random_int(-3, 7);
        assert!(-3 <= v && v <= 7);
    }
    assert_eq!(random_int(4, 4), 4);
}

#[test]
fn random_kind_is_one_of_seven() {
    for _ in 0..100 {
        let k = random_tetromino_kind();
        assert!(matches!(
            k,
            TetrominoKind::I
                | TetrominoKind::O
                | TetrominoKind::T
                | TetrominoKind::S
                | TetrominoKind::Z
                | TetrominoKind::J
                | TetrominoKind::L
        ));
    }
}

#[test]
fn shape_table_matches_known_positions() {
    let blocks = get_tetromino_blocks(TetrominoKind::T, 4, 18, 0);
    assert_eq!(blocks, vec![(5, 18), (4, 19), (5, 19), (6, 19)]);
    let blocks = get_tetromino_blocks(TetrominoKind::I, 0, 0, 1);
    assert_eq!(blocks, vec![(2, 0), (2, 1), (2, 2), (2, 3)]);
    // the O piece never changes shape with rotation
    for r in 0..4u8 {
        assert_eq!(get_tetromino_blocks(TetrominoKind::O, 2, 3, r), vec![(3, 3), (4, 3), (3, 4), (4, 4)]);
    }
}

#[test]
fn kick_tables_start_with_the_unkicked_candidate() {
    let kicks = kick_candidates(false, 0, 1);
    assert_eq!(kicks.len(), 5);
    assert_eq!(kicks[0], (0, 0));
    assert_eq!(kicks[1], (-1, 0));
    let kicks = kick_candidates(true, 0, 1);
    assert_eq!(kicks.len(), 5);
    assert_eq!(kicks[0], (0, 0));
    assert_eq!(kicks[1], (-2, 0));
}
