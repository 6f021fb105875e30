//! Rules engine of a two-fencer duel: move timing, guards, right of way,
//! touches and bout resets.
//!
//! Positions are measured in micrometres from the centre of the piste and
//! time in microseconds, so every rule is exact integer arithmetic.

pub mod ai;
pub mod combat;
pub mod fighter;
pub mod piste;
pub mod player;
pub mod state;

pub use ai::{decide, fighter_2_movement, P2Timer};
pub use combat::{
    apply_controls, apply_move, bounds_limiter, clamp_position, duel_tick, side_flip_detect,
    solo_tick, touch_scored, Controls, Outcome, PISTE_HALF_LENGTH, TOUCH_RANGE,
};
pub use fighter::{distance, Action, Controller, Fighter, Gaurd, Handed, Move, Player, Stance};
pub use piste::{cleanup_after_bout, Piste};
pub use player::{player_blade_play, player_controls, player_movement, Keys};
pub use state::{GameState, Score, Screen, TOUCHES_TO_WIN};
