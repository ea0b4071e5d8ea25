use counter_duel::error::GameError;
use std::io;

#[test]
fn test_game_error_display() {
    let io_error = GameError::IoError(io::Error::new(io::ErrorKind::Other, "test io error"));
    let logic_error = GameError::LogicError("game state error".to_string());

    assert!(io_error.message().contains("I/O error"));
    assert!(logic_error.message().contains("Game logic error: game state error"));
}

#[test]
fn test_from_io_error() {
    let io_error = io::Error::new(io::ErrorKind::NotFound, "file not found");
    let game_error = GameError::from(io_error);

    match game_error {
        GameError::IoError(_) => assert!(true),
        _ => assert!(false, "Expected IoError variant"),
    }
}

#[test]
fn test_io_error_message_carries_text() {
    let game_error = GameError::IoError(io::Error::new(io::ErrorKind::Other, "disk on fire"));
    let message = game_error.message();
    assert!(message.starts_with("I/O error: "));
    assert!(message.contains("disk on fire"));
}
