use counter_duel::game::Game;

#[test]
fn test_game_creation() {
    let game = Game::new(
        "Player1".to_string(),
        "Player2".to_string(),
        100,
        60,
        70,
        5,
    );

    assert_eq!(game.player(0).name(), "Player1");
    assert_eq!(game.player(1).name(), "Player2");
    assert_eq!(game.player(0).vitality(), 100);
    assert_eq!(game.player(1).vitality(), 100);
    assert_eq!(game.player(0).speed(), 60);
    assert_eq!(game.player(0).strength(), 70);
}

#[test]
fn test_generate_targets() {
    let game = Game::new(
        "Player1".to_string(),
        "Player2".to_string(),
        100,
        60,  // speed
        70,  // strength
        5,   // target_count
    );

    let targets = game.generate_targets();

    // Check that the correct number of targets is generated
    assert_eq!(targets.len(), 5);

    // Check that all targets are within range
    for target in targets {
        assert!(target <= 100);
    }
}

#[test]
fn test_process_round_result_player1_wins() {
    let mut game = Game::new(
        "Player1".to_string(),
        "Player2".to_string(),
        100, 60, 70, 5,
    );

    // Use a test choice (0 = decrease speed)
    let result = game.process_round_result(100, 50, Some(0));

    assert!(result.is_ok());

    // Verify that player2's vitality and speed were reduced
    assert_eq!(game.player(1).vitality(), 50); // 100 - (100 - 50)
    assert_eq!(game.player(1).speed(), 55); // 60 - 5
}

#[test]
fn test_process_round_result_player2_wins() {
    let mut game = Game::new(
        "Player1".to_string(),
        "Player2".to_string(),
        100, 60, 70, 5,
    );

    // Use a test choice (1 = decrease strength)
    let result = game.process_round_result(50, 100, Some(1));

    assert!(result.is_ok());

    // Verify that player1's vitality and strength were reduced
    assert_eq!(game.player(0).vitality(), 50); // 100 - (100 - 50)
    assert_eq!(game.player(0).strength(), 65); // 70 - 5
}

#[test]
fn test_process_round_result_draw() {
    let mut game = Game::new(
        "Player1".to_string(),
        "Player2".to_string(),
        100, 60, 70, 5,
    );

    // In a draw, no penalties are applied
    let result = game.process_round_result(50, 50, None);

    assert!(result.is_ok());

    // Verify that no attributes were changed
    assert_eq!(game.player(0).vitality(), 100);
    assert_eq!(game.player(1).vitality(), 100);
    assert_eq!(game.player(0).speed(), 60);
    assert_eq!(game.player(1).speed(), 60);
    assert_eq!(game.player(0).strength(), 70);
    assert_eq!(game.player(1).strength(), 70);
}

#[test]
fn test_penalty_ending_game_on_zero_speed() {
    let mut game = Game::new(
        "Player1".to_string(),
        "Player2".to_string(),
        100, 5, 70, 5,
    );

    // Player1 wins; the speed penalty drives player2's speed to zero.
    let result = game.process_round_result(80, 50, Some(0));
    assert!(result.is_ok());
    assert_eq!(game.player(1).speed(), 0);
    assert!(game.is_finished());
    assert_eq!(game.winner_name(), "Player1");
}

#[test]
fn test_lethal_damage_skips_penalty() {
    let mut game = Game::new(
        "Player1".to_string(),
        "Player2".to_string(),
        40, 60, 70, 5,
    );

    // The damage alone finishes player2, so no penalty is applied.
    let result = game.process_round_result(90, 30, None);
    assert!(result.is_ok());
    assert_eq!(game.player(1).vitality(), 0);
    assert_eq!(game.player(1).speed(), 60);
    assert_eq!(game.player(1).strength(), 70);
    assert!(game.is_finished());
    assert_eq!(game.winner_name(), "Player1");
}

#[test]
fn test_out_of_range_choice_falls_back_to_speed() {
    let mut game = Game::new(
        "Player1".to_string(),
        "Player2".to_string(),
        100, 60, 70, 5,
    );

    let result = game.process_round_result(100, 50, Some(9));
    assert!(result.is_ok());
    assert_eq!(game.player(1).speed(), 55);
    assert_eq!(game.player(1).strength(), 70);
}
