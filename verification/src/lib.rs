//! Verified game rules of a small third-person archery game: cooldown timers,
//! the charge-and-release bow, scoring, enemy warnings, enemy spawning and the
//! game-state machine. Rendering, input and floating-point geometry live in the
//! application around this library.

pub mod timer;
pub mod player;
pub mod game_state;
pub mod combat;
pub mod warnings;
pub mod draw;
pub mod spawning;
pub mod hud;
