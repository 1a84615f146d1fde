//! Rules engine for a grid-based snake game: movement, growth, collision
//! detection, weighted food spawning, scoring, and a three-state lifecycle
//! (welcome, playing, game over). Rendering and raw input decoding are left
//! to callers; this crate holds the verified game logic.
use vstd::prelude::*;

pub mod food;
pub mod game;
pub mod laws;
mod rng;

pub use food::{FoodKind, NewSnakeChar};
pub use game::{Direction, GameMode, KeyInput, LetterMover, MoveOutcome, RawInput};

verus! {

/// Width of the fixed character grid the game runs in.
pub const BUFFER_WIDTH: usize = 80;
/// Height of the fixed character grid the game runs in.
pub const BUFFER_HEIGHT: usize = 25;

/// Adds two numbers and wraps the sum into `[0, LIMIT)`.
pub fn safe_add<const LIMIT: usize>(a: usize, b: usize) -> (r: usize)
    requires
        LIMIT > 0,
        a + b <= usize::MAX,
    ensures
        r == (a + b) % (LIMIT as int),
{
    (a + b) % LIMIT
}

/// Increments a value, wrapping into `[0, LIMIT)`.
pub fn add1<const LIMIT: usize>(value: usize) -> (r: usize)
    requires
        LIMIT > 0,
        value < usize::MAX,
    ensures
        r == (value + 1) % (LIMIT as int),
{
    safe_add::<LIMIT>(value, 1)
}

/// Decrements a value, wrapping into `[0, LIMIT)`.
pub fn sub1<const LIMIT: usize>(value: usize) -> (r: usize)
    requires
        LIMIT > 0,
        value + LIMIT - 1 <= usize::MAX,
    ensures
        r == (value + LIMIT - 1) % (LIMIT as int),
{
    safe_add::<LIMIT>(value, LIMIT - 1)
}

} // verus!
