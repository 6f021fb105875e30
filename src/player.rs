use vstd::prelude::*;
use crate::combat::Controls;
use crate::fighter::{Gaurd, Move};

verus! {

/// The keys a human fencer holds during a tick.
#[derive(Debug, Clone, Copy, PartialEq, Eq, Structural, Default)]
pub struct Keys {
    pub retreat: bool,
    pub advance: bool,
    pub lunge: bool,
    pub crouch: bool,
    pub guard_left: bool,
    pub guard_right: bool,
    pub guard_up: bool,
    pub guard_down: bool,
}

/// The move the held keys ask for: retreat before advance before lunge.
/// Crouching asks for no move.
pub open spec fn spec_player_movement(k: Keys) -> Option<Move> {
    if k.retreat {
        Some(Move::Retreat)
    } else if k.advance {
        Some(Move::Advance)
    } else if k.lunge {
        Some(Move::Lunge)
    } else {
        None
    }
}

/// The guard the held keys ask for: left, right, up, down, in that order.
pub open spec fn spec_player_blade_play(k: Keys) -> Option<Gaurd> {
    if k.guard_left {
        Some(Gaurd::Left)
    } else if k.guard_right {
        Some(Gaurd::Right)
    } else if k.guard_up {
        Some(Gaurd::Up)
    } else if k.guard_down {
        Some(Gaurd::Down)
    } else {
        None
    }
}

pub fn player_movement(k: &Keys) -> (r: Option<Move>)
    ensures
        r == spec_player_movement(*k),
{
    if k.retreat {
        Some(Move::Retreat)
    } else if k.advance {
        Some(Move::Advance)
    } else if k.lunge {
        Some(Move::Lunge)
    } else {
        None
    }
}

pub fn player_blade_play(k: &Keys) -> (r: Option<Gaurd>)
    ensures
        r == spec_player_blade_play(*k),
{
    if k.guard_left {
        Some(Gaurd::Left)
    } else if k.guard_right {
        Some(Gaurd::Right)
    } else if k.guard_up {
        Some(Gaurd::Up)
    } else if k.guard_down {
        Some(Gaurd::Down)
    } else {
        None
    }
}

/// A human fencer's requests for a tick.
pub fn player_controls(k: &Keys) -> (r: Controls)
    ensures
        r == (Controls { movement: spec_player_movement(*k), gaurd: spec_player_blade_play(*k) }),
{
    Controls { movement: player_movement(k), gaurd: player_blade_play(k) }
}

} // verus!
