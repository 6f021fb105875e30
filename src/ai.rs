use vstd::prelude::*;
use crate::combat::Controls;
use crate::fighter::{distance, spec_distance, Fighter, Move, Player};

verus! {

/// Time between two decisions of the computer fencer, in microseconds.
pub const AI_PERIOD: u64 = 250_000;

/// The computer advances when at least this far from its opponent.
pub const AI_ADVANCE_FROM: u64 = 4_000_000;

/// The computer retreats from an opponent with the right of way within this distance.
pub const AI_RETREAT_WITHIN: u64 = 3_250_000;

/// The computer lunges, or parries a lunge, within this distance.
pub const AI_LUNGE_WITHIN: u64 = 1_750_000;

/// Time since the computer fencer last made a decision.
#[derive(Debug, Clone, Copy, PartialEq, Eq, Structural)]
pub struct P2Timer {
    /// Microseconds since the last decision; always under `AI_PERIOD`.
    pub elapsed: u64,
}

impl P2Timer {
    pub open spec fn wf(self) -> bool {
        self.elapsed < AI_PERIOD
    }

    pub fn new() -> (r: P2Timer)
        ensures
            r == (P2Timer { elapsed: 0 }),
            r.wf(),
    {
        P2Timer { elapsed: 0 }
    }
}

pub open spec fn no_controls() -> Controls {
    Controls { movement: None, gaurd: None }
}

pub open spec fn move_controls(mv: Move) -> Controls {
    Controls { movement: Some(mv), gaurd: None }
}

/// What the computer fencer `me` asks for, facing `opp` with the right of way
/// at `row`:
/// - advance when far;
/// - take the opponent's guard against its lunge when it has the right of way
///   and is in reach;
/// - retreat from an opponent with the right of way when near;
/// - lunge with the right of way when in reach;
/// - else advance when the right of way is free or its own, or the opponent
///   stands ready.
pub open spec fn spec_decide(me: Fighter, opp: Fighter, row: Option<Player>) -> Controls {
    let d = spec_distance(opp.position as int, me.position as int);
    if d >= AI_ADVANCE_FROM {
        move_controls(Move::Advance)
    } else if opp.is_lunging() && row == Some(opp.player) && d <= AI_LUNGE_WITHIN {
        Controls { movement: None, gaurd: Some(opp.gaurd) }
    } else if d <= AI_RETREAT_WITHIN && row == Some(opp.player) {
        move_controls(Move::Retreat)
    } else if d <= AI_LUNGE_WITHIN && row == Some(me.player) {
        move_controls(Move::Lunge)
    } else if row == Some(me.player) || row is None || opp.action.move_kind == Move::EnGarde {
        move_controls(Move::Advance)
    } else {
        no_controls()
    }
}

/// The computer fencer's decision, as `spec_decide` states it.
pub fn decide(me: &Fighter, opp: &Fighter, row: Option<Player>) -> (r: Controls)
    ensures
        r == spec_decide(*me, *opp, row),
{
    let d = distance(opp.position, me.position);
    let opp_row = matches!(row, Some(p) if p == opp.player);
    let own_row = matches!(row, Some(p) if p == me.player);
    if d >= AI_ADVANCE_FROM {
        Controls { movement: Some(Move::Advance), gaurd: None }
    } else if opp.lunged() && opp_row && d <= AI_LUNGE_WITHIN {
        Controls { movement: None, gaurd: Some(opp.gaurd) }
    } else if d <= AI_RETREAT_WITHIN && opp_row {
        Controls { movement: Some(Move::Retreat), gaurd: None }
    } else if d <= AI_LUNGE_WITHIN && own_row {
        Controls { movement: Some(Move::Lunge), gaurd: None }
    } else if own_row || row.is_none() || opp.action.move_kind == Move::EnGarde {
        Controls { movement: Some(Move::Advance), gaurd: None }
    } else {
        Controls { movement: None, gaurd: None }
    }
}

/// The computer fencer's requests for a tick of `dt` microseconds. It decides
/// once a period has gone by, and only when its move no longer blocks; the
/// period restarts either way.
pub fn fighter_2_movement(
    me: &Fighter,
    opp: &Fighter,
    row: Option<Player>,
    timer: &mut P2Timer,
    dt: u32,
) -> (r: Controls)
    requires
        old(timer).wf(),
    ensures
        final(timer).wf(),
        ({
            let ready = old(timer).elapsed + dt >= AI_PERIOD;
            &&& final(timer).elapsed == if ready {
                0
            } else {
                old(timer).elapsed + dt
            }
            &&& r == if ready && !me.action.is_blocked() {
                spec_decide(*me, *opp, row)
            } else {
                no_controls()
            }
        }),
{
    let elapsed = timer.elapsed + dt as u64;
    if elapsed >= AI_PERIOD {
        timer.elapsed = 0;
        if !me.action.blocked() {
            decide(me, opp, row)
        } else {
            Controls { movement: None, gaurd: None }
        }
    } else {
        timer.elapsed = elapsed;
        Controls { movement: None, gaurd: None }
    }
}

} // verus!
