use vstd::prelude::*;
use crate::fighter::{distance, spec_distance, Action, Fighter, Gaurd, Move, Player};
use crate::state::GameState;

verus! {

/// Half the length of the piste, in micrometres: positions lie in
/// `[-PISTE_HALF_LENGTH, PISTE_HALF_LENGTH]`.
pub const PISTE_HALF_LENGTH: i64 = 7_000_000;

/// Reach of a lunge, in micrometres.
pub const TOUCH_RANGE: u64 = 500_000;

/// What a fencer's controller asks for in one tick.
#[derive(Debug, Clone, Copy, PartialEq, Eq, Structural)]
pub struct Controls {
    /// A move to start, if any.
    pub movement: Option<Move>,
    /// A guard to take, if any.
    pub gaurd: Option<Gaurd>,
}

/// How a tick leaves the bout.
#[derive(Debug, Clone, Copy, PartialEq, Eq, Structural)]
pub enum Outcome {
    /// The bout goes on.
    Continue,
    /// The fencer scored a touch; the bout is over.
    Touch(Player),
    /// The fencers passed each other; the bout is over with no touch.
    SideFlip,
}

/// A position pulled back onto the piste.
pub open spec fn spec_clamp(p: int) -> int {
    if p < -PISTE_HALF_LENGTH {
        -PISTE_HALF_LENGTH as int
    } else if p > PISTE_HALF_LENGTH {
        PISTE_HALF_LENGTH as int
    } else {
        p
    }
}

pub open spec fn on_piste(p: int) -> bool {
    -PISTE_HALF_LENGTH <= p <= PISTE_HALF_LENGTH
}

/// Whether `f` parries after a tick in which its guard was `prev` before: it
/// starts to when a guard change meets the lunging opponent's guard, and keeps
/// parrying only while that lunge and that guard both hold.
pub open spec fn spec_parrying(f: Fighter, prev: Gaurd, o: Fighter) -> bool {
    o.is_lunging() && f.gaurd == o.gaurd && (f.gaurd != prev || f.parrying)
}

/// Whether `f` lands a touch on `o`: it is lunging, it made the first lunge of
/// the exchange, it holds the right of way, `o` is not parrying, and `o` is
/// within reach.
pub open spec fn spec_scores(f: Fighter, o: Fighter, st: GameState) -> bool {
    &&& f.is_lunging()
    &&& st.lunger == Some(f.player)
    &&& st.row == Some(f.player)
    &&& !o.parrying
    &&& spec_distance(f.position as int, o.position as int) <= TOUCH_RANGE
}

/// Who scores when fighter one and fighter two meet with state `st`;
/// fighter one is looked at first.
pub open spec fn spec_touch(one: Fighter, two: Fighter, st: GameState) -> Option<Player> {
    if spec_scores(one, two, st) {
        Some(one.player)
    } else if spec_scores(two, one, st) {
        Some(two.player)
    } else {
        None
    }
}

/// The fencers have passed each other while neither lunges.
pub open spec fn spec_side_flip(one: Fighter, two: Fighter) -> bool {
    one.position > two.position && !one.is_lunging() && !two.is_lunging()
}

/// The fencer and the state once a controller has asked for `mv`; nothing
/// changes while the current move blocks.
pub open spec fn spec_move(f: Fighter, st: GameState, mv: Move) -> (Fighter, GameState) {
    if f.action.is_blocked() {
        (f, st)
    } else {
        (f.spec_set_action(mv), st.spec_record_move(f.player, mv))
    }
}

/// The fencer and the state once a controller's requests have been applied.
pub open spec fn spec_controls(f: Fighter, st: GameState, c: Controls) -> (Fighter, GameState) {
    let (f1, st1) = match c.movement {
        Some(mv) => spec_move(f, st, mv),
        None => (f, st),
    };
    match c.gaurd {
        Some(g) => (Fighter { gaurd: g, ..f1 }, st1),
        None => (f1, st1),
    }
}

/// The fencer after `dt` microseconds of its move, before any clamp.
pub open spec fn spec_travel(f: Fighter, dt: u32) -> Fighter {
    Fighter {
        action: Fighter::spec_action_after(f.action, dt),
        position: (f.position + f.player.spec_facing() * f.action.spec_delta(dt)) as i64,
        ..f
    }
}

/// The fencer pulled back onto the piste.
pub open spec fn spec_bounded(f: Fighter) -> Fighter {
    Fighter { position: spec_clamp(f.position as int) as i64, ..f }
}

/// Pulls a position back onto the piste.
pub fn clamp_position(p: i64) -> (r: i64)
    ensures
        r == spec_clamp(p as int),
        on_piste(r as int),
{
    if p < -PISTE_HALF_LENGTH {
        -PISTE_HALF_LENGTH
    } else if p > PISTE_HALF_LENGTH {
        PISTE_HALF_LENGTH
    } else {
        p
    }
}

/// Keeps a fencer on the piste.
pub fn bounds_limiter(f: &mut Fighter)
    ensures
        *final(f) == spec_bounded(*old(f)),
        on_piste(final(f).position as int),
{
    f.position = clamp_position(f.position);
}

/// Starts `mv` for the fencer unless its current move blocks, and updates the
/// right of way and the lunger for it.
pub fn apply_move(f: &mut Fighter, st: &mut GameState, mv: Move)
    ensures
        (*final(f), *final(st)) == spec_move(*old(f), *old(st), mv),
{
    if !f.action.blocked() {
        f.set_action(mv);
        st.record_move(f.player, mv);
    }
}

/// Applies a controller's requests: the move first, then the guard. Guard
/// changes are free and never blocked.
pub fn apply_controls(f: &mut Fighter, st: &mut GameState, c: Controls)
    ensures
        (*final(f), *final(st)) == spec_controls(*old(f), *old(st), c),
{
    match c.movement {
        Some(mv) => apply_move(f, st, mv),
        None => {},
    }
    match c.gaurd {
        Some(g) => {
            f.gaurd = g;
        },
        None => {},
    }
}

/// Updates whether `f` parries, given its guard `prev` before this tick and
/// the opponent `o`.
pub fn update_parry(f: &mut Fighter, prev: Gaurd, o: &Fighter)
    ensures
        *final(f) == (Fighter { parrying: spec_parrying(*old(f), prev, *o), ..*old(f) }),
{
    let changed = !(f.gaurd == prev);
    if changed && o.lunged() && f.gaurd.parries(o.gaurd) {
        f.parrying = true;
    } else if !(o.lunged() && f.gaurd.parries(o.gaurd)) {
        f.parrying = false;
    }
}

/// Runs the fencer's move for `dt` microseconds and carries it along the
/// piste in the direction it faces. The position is not clamped here.
pub fn travel(f: &mut Fighter, dt: u32)
    requires
        on_piste(old(f).position as int),
    ensures
        *final(f) == spec_travel(*old(f), dt),
{
    let delta = f.update_movement(dt);
    proof {
        old(f).action.lemma_delta_bound(dt);
    }
    match f.player {
        Player::One => {
            f.position = f.position + delta;
        },
        Player::Two => {
            f.position = f.position - delta;
        },
    }
}

/// Whether `f` lands a touch on `o`.
pub fn scores(f: &Fighter, o: &Fighter, st: &GameState) -> (r: bool)
    ensures
        r == spec_scores(*f, *o, *st),
{
    f.lunged() && matches!(st.lunger, Some(p) if p == f.player) && matches!(st.row, Some(p) if p
        == f.player) && !o.parrying && distance(f.position, o.position) <= TOUCH_RANGE
}

/// Looks for a touch, fighter one first. A touch is added to the scorer's
/// tally and clears the exchange.
pub fn touch_scored(one: &Fighter, two: &Fighter, st: &mut GameState) -> (r: Option<Player>)
    requires
        old(st).wf(),
        old(st).can_score(),
    ensures
        r == spec_touch(*one, *two, *old(st)),
        *final(st) == match r {
            Some(p) => old(st).spec_score_touch(p).spec_reset(),
            None => *old(st),
        },
        final(st).wf(),
{
    if scores(one, two, st) {
        st.score_touch(one.player);
        st.reset();
        Some(one.player)
    } else if scores(two, one, st) {
        st.score_touch(two.player);
        st.reset();
        Some(two.player)
    } else {
        None
    }
}

/// Whether the fencers have passed each other while neither lunges.
pub fn side_flip_detect(one: &Fighter, two: &Fighter) -> (r: bool)
    ensures
        r == spec_side_flip(*one, *two),
{
    one.position > two.position && !one.lunged() && !two.lunged()
}

/// Both fencers and the state after one tick, and how the tick leaves the
/// bout. In order: each controller's requests, fighter one first; parries;
/// movement; the touch; the clamp onto the piste; the side flip.
pub open spec fn spec_duel(
    one: Fighter,
    two: Fighter,
    st: GameState,
    c1: Controls,
    c2: Controls,
    dt: u32,
) -> (Fighter, Fighter, GameState, Outcome) {
    let (one1, st1) = spec_controls(one, st, c1);
    let (two1, st2) = spec_controls(two, st1, c2);
    let one2 = Fighter { parrying: spec_parrying(one1, one.gaurd, two1), ..one1 };
    let two2 = Fighter { parrying: spec_parrying(two1, two.gaurd, one1), ..two1 };
    let one3 = spec_travel(one2, dt);
    let two3 = spec_travel(two2, dt);
    let one4 = spec_bounded(one3);
    let two4 = spec_bounded(two3);
    match spec_touch(one3, two3, st2) {
        Some(p) => (one4, two4, st2.spec_score_touch(p).spec_reset(), Outcome::Touch(p)),
        None => if spec_side_flip(one4, two4) {
            (one4, two4, st2.spec_reset(), Outcome::SideFlip)
        } else {
            (one4, two4, st2, Outcome::Continue)
        },
    }
}

/// A fencer alone on the piste after one tick: its requests, its movement and
/// the clamp; everything that needs an opponent is skipped.
pub open spec fn spec_solo(f: Fighter, st: GameState, c: Controls, dt: u32) -> (Fighter, GameState) {
    let (f1, st1) = spec_controls(f, st, c);
    (spec_bounded(spec_travel(f1, dt)), st1)
}

/// Runs one tick of a bout between fighter one and fighter two.
pub fn duel_tick(
    one: &mut Fighter,
    two: &mut Fighter,
    st: &mut GameState,
    c1: Controls,
    c2: Controls,
    dt: u32,
) -> (r: Outcome)
    requires
        old(one).player == Player::One,
        old(two).player == Player::Two,
        on_piste(old(one).position as int),
        on_piste(old(two).position as int),
        old(st).wf(),
        old(st).can_score(),
    ensures
        (*final(one), *final(two), *final(st), r) == spec_duel(
            *old(one),
            *old(two),
            *old(st),
            c1,
            c2,
            dt,
        ),
        final(one).player == Player::One,
        final(two).player == Player::Two,
        on_piste(final(one).position as int),
        on_piste(final(two).position as int),
        final(st).wf(),
        old(st).lunger is Some ==> final(st).lunger == old(st).lunger || final(st).lunger is None,
{
    let prev1 = one.gaurd;
    let prev2 = two.gaurd;
    apply_controls(one, st, c1);
    apply_controls(two, st, c2);
    let snapshot = *one;
    update_parry(one, prev1, two);
    update_parry(two, prev2, &snapshot);
    travel(one, dt);
    travel(two, dt);
    let touch = touch_scored(one, two, st);
    bounds_limiter(one);
    bounds_limiter(two);
    match touch {
        Some(p) => Outcome::Touch(p),
        None => {
            if side_flip_detect(one, two) {
                st.reset();
                Outcome::SideFlip
            } else {
                Outcome::Continue
            }
        },
    }
}

/// Runs one tick for a fencer alone on the piste.
pub fn solo_tick(f: &mut Fighter, st: &mut GameState, c: Controls, dt: u32)
    requires
        on_piste(old(f).position as int),
    ensures
        (*final(f), *final(st)) == spec_solo(*old(f), *old(st), c, dt),
        final(f).player == old(f).player,
        on_piste(final(f).position as int),
{
    apply_controls(f, st, c);
    travel(f, dt);
    bounds_limiter(f);
}

} // verus!
