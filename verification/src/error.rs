//! Error type shared by the game's components.
//!
//! The game itself has no recoverable runtime fault of its own; errors come
//! from the surrounding program's input and output, or mark a broken game
//! rule. Both are carried by [`GameError`].

use vstd::prelude::*;
use vstd::string::StringExecFns;

verus! {

/// `std::io::Error`, declared so that it can be carried inside [`GameError`].
/// The value is opaque here; only the surrounding program creates or reads
/// one.
#[verifier::external_type_specification]
#[verifier::external_body]
pub struct ExIoError(std::io::Error);

/// Represents errors that can occur within the game.
#[derive(Debug)]
pub enum GameError {
    /// An error occurred during an input or output operation.
    IoError(std::io::Error),
    /// An error related to game logic.
    LogicError(String),
}

/// Shorthand result type for the game.
pub type GameResult<T> = Result<T, GameError>;

impl GameError {
    /// Builds a game-logic error carrying the given description.
    pub fn logic(msg: &str) -> (r: Self)
        ensures
            r matches GameError::LogicError(m) && m@ == msg@,
    {
        GameError::LogicError(msg.to_owned())
    }

    /// A readable description of the error: the same text for every error
    /// regardless of how the surrounding program displays it.
    ///
    /// Relies on `std::io::Error`'s standard display for the text of a
    /// carried input/output error.
    pub fn message(&self) -> (r: String)
        ensures
            self matches GameError::LogicError(m) ==> r@ == "Game logic error: "@ + m@,
            self is IoError ==> r@.len() >= 11 && r@.subrange(0, 11) == "I/O error: "@,
    {
        match self {
            GameError::IoError(err) => {
                let mut s = "I/O error: ".to_owned();
                let ghost prefix = s@;
                let txt = err.to_string();
                s.append(txt.as_str());
                proof {
                    reveal_strlit("I/O error: ");
                    assert(s@.subrange(0, 11) =~= prefix);
                }
                s
            },
            GameError::LogicError(msg) => {
                let mut s = "Game logic error: ".to_owned();
                s.append(msg.as_str());
                s
            },
        }
    }
}

impl From<std::io::Error> for GameError {
    /// Wraps an input/output error of the surrounding program.
    fn from(err: std::io::Error) -> (r: Self)
        ensures
            r == GameError::IoError(err),
    {
        GameError::IoError(err)
    }
}

impl vstd::std_specs::convert::FromSpecImpl<std::io::Error> for GameError {
    open spec fn obeys_from_spec() -> bool {
        true
    }

    open spec fn from_spec(err: std::io::Error) -> Self {
        GameError::IoError(err)
    }
}

} // verus!
