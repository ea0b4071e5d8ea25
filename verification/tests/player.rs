use counter_duel::player::Player;

#[test]
fn test_new_player() {
    let player = Player::new("TestPlayer".to_string(), 100, 60, 70);
    assert_eq!(player.name(), "TestPlayer");
    assert_eq!(player.vitality(), 100);
    assert_eq!(player.speed(), 60);
    assert_eq!(player.strength(), 70);
}

#[test]
fn test_decrease_vitality() {
    let mut player = Player::new("TestPlayer".to_string(), 100, 50, 50);
    player.decrease_vitality(30);
    assert_eq!(player.vitality(), 70);

    // Test that vitality doesn't go below 0
    player.decrease_vitality(100);
    assert_eq!(player.vitality(), 0);
}

#[test]
fn test_decrease_speed() {
    let mut player = Player::new("TestPlayer".to_string(), 100, 50, 50);
    player.decrease_speed(20);
    assert_eq!(player.speed(), 30);

    // Test that speed doesn't go below 0
    player.decrease_speed(50);
    assert_eq!(player.speed(), 0);
}

#[test]
fn test_decrease_strength() {
    let mut player = Player::new("TestPlayer".to_string(), 100, 50, 50);
    player.decrease_strength(10);
    assert_eq!(player.strength(), 40);

    // Test that strength doesn't go below 0
    player.decrease_strength(50);
    assert_eq!(player.strength(), 0);
}

#[test]
fn test_player_clone() {
    let player1 = Player::new("TestPlayer".to_string(), 100, 60, 70);
    let player2 = player1.clone();

    assert_eq!(player1.name(), player2.name());
    assert_eq!(player1.vitality(), player2.vitality());
    assert_eq!(player1.speed(), player2.speed());
    assert_eq!(player1.strength(), player2.strength());
}
