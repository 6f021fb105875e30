use vstd::prelude::*;
use crate::combat::{duel_tick, on_piste, solo_tick, spec_duel, spec_solo, Controls, Outcome};
use crate::fighter::{Fighter, Player};
use crate::state::GameState;

verus! {

/// The two places for fencers. Either may be empty while a bout is being
/// torn down or set up.
#[derive(Debug, Clone, Copy)]
pub struct Piste {
    /// Fighter one, if on the piste.
    pub one: Option<Fighter>,
    /// Fighter two, if on the piste.
    pub two: Option<Fighter>,
}

impl Piste {
    /// Each place holds the fencer it is for, standing on the piste.
    pub open spec fn wf(self) -> bool {
        &&& (self.one matches Some(f) ==> f.player == Player::One && on_piste(f.position as int))
        &&& (self.two matches Some(f) ==> f.player == Player::Two && on_piste(f.position as int))
    }

    /// The piste, the state and the outcome after one tick.
    pub open spec fn spec_tick(self, st: GameState, c1: Controls, c2: Controls, dt: u32) -> (
        Piste,
        GameState,
        Outcome,
    ) {
        match (self.one, self.two) {
            (Some(a), Some(b)) => {
                let (a1, b1, st1, out) = spec_duel(a, b, st, c1, c2, dt);
                (Piste { one: Some(a1), two: Some(b1) }, st1, out)
            },
            (Some(a), None) => {
                let (a1, st1) = spec_solo(a, st, c1, dt);
                (Piste { one: Some(a1), two: None }, st1, Outcome::Continue)
            },
            (None, Some(b)) => {
                let (b1, st1) = spec_solo(b, st, c2, dt);
                (Piste { one: None, two: Some(b1) }, st1, Outcome::Continue)
            },
            (None, None) => (self, st, Outcome::Continue),
        }
    }

    /// A bout at its start: both fencers at their marks, standing ready.
    pub fn new() -> (r: Piste)
        ensures
            r == (Piste {
                one: Some(Fighter::spec_new(Player::One)),
                two: Some(Fighter::spec_new(Player::Two)),
            }),
            r.wf(),
    {
        Piste { one: Some(Fighter::new(Player::One)), two: Some(Fighter::new(Player::Two)) }
    }

    /// Runs one tick: `c1` drives fighter one and `c2` fighter two. Whatever
    /// needs a missing fencer is skipped.
    pub fn tick(&mut self, st: &mut GameState, c1: Controls, c2: Controls, dt: u32) -> (r: Outcome)
        requires
            old(self).wf(),
            old(st).wf(),
            old(st).can_score(),
        ensures
            (*final(self), *final(st), r) == old(self).spec_tick(*old(st), c1, c2, dt),
            final(self).wf(),
            final(st).wf(),
    {
        match (self.one, self.two) {
            (Some(mut a), Some(mut b)) => {
                let r = duel_tick(&mut a, &mut b, st, c1, c2, dt);
                self.one = Some(a);
                self.two = Some(b);
                r
            },
            (Some(mut a), None) => {
                solo_tick(&mut a, st, c1, dt);
                self.one = Some(a);
                Outcome::Continue
            },
            (None, Some(mut b)) => {
                solo_tick(&mut b, st, c2, dt);
                self.two = Some(b);
                Outcome::Continue
            },
            (None, None) => Outcome::Continue,
        }
    }
}

/// The piste and the state after running the ticks of `steps` in turn; each
/// step gives fighter one's requests, fighter two's requests and the tick's
/// length.
pub open spec fn spec_run(p: Piste, st: GameState, steps: Seq<(Controls, Controls, u32)>) -> (
    Piste,
    GameState,
) 
    decreases steps.len(),
{
    if steps.len() == 0 {
        (p, st)
    } else {
        let (c1, c2, dt) = steps[0];
        let (p1, st1, _) = p.spec_tick(st, c1, c2, dt);
        spec_run(p1, st1, steps.subrange(1, steps.len() as int))
    }
}

/// A tick keeps every fencer on the piste and in its own place.
pub proof fn lemma_tick_keeps_piste(p: Piste, st: GameState, c1: Controls, c2: Controls, dt: u32)
    requires
        p.wf(),
    ensures
        p.spec_tick(st, c1, c2, dt).0.wf(),
{
}

/// However many ticks run, with whatever requests, every fencer stays on the
/// piste.
pub proof fn lemma_run_stays_on_piste(
    p: Piste,
    st: GameState,
    steps: Seq<(Controls, Controls, u32)>,
)
    requires
        p.wf(),
    ensures
        spec_run(p, st, steps).0.wf(),
    decreases steps.len(),
{
    if steps.len() > 0 {
        let (c1, c2, dt) = steps[0];
        lemma_tick_keeps_piste(p, st, c1, c2, dt);
        let (p1, st1, _) = p.spec_tick(st, c1, c2, dt);
        lemma_run_stays_on_piste(p1, st1, steps.subrange(1, steps.len() as int));
    }
}

/// Takes both fencers off the piste once a bout is over.
pub fn cleanup_after_bout(piste: &mut Piste)
    ensures
        *final(piste) == (Piste { one: None, two: None }),
        final(piste).wf(),
{
    piste.one = None;
    piste.two = None;
}

} // verus!
