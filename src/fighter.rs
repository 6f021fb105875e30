use vstd::prelude::*;

verus! {

/// Speed of a step in micrometres per second: a stride of three quarters
/// scaled by the base fencer speed of 0.75 m/s.
pub const STRIDE_SPEED: i64 = 562_500;

/// Largest distance a single step can carry a fencer, in micrometres: a
/// lunge over the longest step a `u32` of microseconds can give.
pub const MAX_STEP: i64 = 9_663_676_413;

/// Microseconds in a second.
pub const MICROS_PER_SECOND: i64 = 1_000_000;

/// Where fighter one stands when a bout starts, in micrometres.
pub const START_ONE: i64 = -2_000_000;

/// Where fighter two stands when a bout starts, in micrometres.
pub const START_TWO: i64 = 2_000_000;

/// One of the four blade positions a fencer can hold.
#[derive(Debug, Clone, Copy, PartialEq, Eq, Structural)]
pub enum Gaurd {
    Right,
    Down,
    Left,
    Up,
}

impl Gaurd {
    /// A guard stops a lunge only when it is the very guard the lunge goes through.
    pub fn parries(&self, other: Self) -> (r: bool)
        ensures
            r == (*self == other),
    {
        *self == other
    }

    /// Frame of the guard icon that shows this guard.
    pub open spec fn spec_icon_index(self) -> nat {
        match self {
            Gaurd::Down => 0,
            Gaurd::Left => 1,
            Gaurd::Right => 2,
            Gaurd::Up => 3,
        }
    }

    /// Frame of the guard icon that shows this guard.
    pub fn icon_index(self) -> (r: usize)
        ensures
            r == self.spec_icon_index(),
    {
        match self {
            Gaurd::Down => 0,
            Gaurd::Left => 1,
            Gaurd::Right => 2,
            Gaurd::Up => 3,
        }
    }
}

/// Which of the two fencers.
#[derive(Debug, Clone, Copy, PartialEq, Eq, Structural)]
pub enum Player {
    /// Fighter one, who starts on the negative side and advances towards positive positions.
    One,
    /// Fighter two, who starts on the positive side and advances towards negative positions.
    Two,
}

impl Player {
    /// The other fencer.
    pub open spec fn spec_opponent(self) -> Player {
        match self {
            Player::One => Player::Two,
            Player::Two => Player::One,
        }
    }

    /// The sign by which a forward move changes this fencer's position.
    pub open spec fn spec_facing(self) -> int {
        match self {
            Player::One => 1,
            Player::Two => -1,
        }
    }
}

/// Who or what gives a fencer its moves.
#[derive(Debug, Clone, Copy, PartialEq, Eq, Structural)]
pub enum Controller {
    Player,
    Computer,
}

/// How a fencer holds the sword.
#[derive(Debug, Clone, Copy, PartialEq, Eq, Structural)]
pub enum Stance {
    /// Sword hand in front.
    Offence,
    /// Sword hand behind.
    Defence,
    /// Lunged forward from an offensive stance.
    Lunged,
}

/// The fencer's sword hand.
#[derive(Debug, Clone, Copy, PartialEq, Eq, Structural)]
pub enum Handed {
    Right,
    Left,
}

/// A discrete move of a fencer.
#[derive(Debug, Clone, Copy, PartialEq, Eq, Structural)]
pub enum Move {
    Advance,
    Retreat,
    Lunge,
    /// Standing ready: the idle move, which never blocks.
    EnGarde,
}

impl Move {
    /// How long the move keeps the fencer from starting another, in
    /// microseconds; negative for the ready stance, which never blocks.
    pub open spec fn spec_block_time(self) -> int {
        match self {
            Move::Advance => 500_000,
            Move::Retreat => 500_000,
            Move::Lunge => 750_000,
            Move::EnGarde => -1,
        }
    }

    /// How long the move carries the fencer along the piste, in microseconds.
    pub open spec fn spec_travel_time(self) -> int {
        match self {
            Move::Advance => 350_000,
            Move::Retreat => 350_000,
            Move::Lunge => 200_000,
            Move::EnGarde => 0,
        }
    }

    /// Sign of the move's direction, forward being positive.
    pub open spec fn spec_direction(self) -> int {
        match self {
            Move::Advance => 1,
            Move::Retreat => -1,
            Move::Lunge => 1,
            Move::EnGarde => 0,
        }
    }

    /// Factor by which the move scales the stride speed.
    pub open spec fn spec_multiplier(self) -> int {
        match self {
            Move::Advance => 1,
            Move::Retreat => 1,
            Move::Lunge => 4,
            Move::EnGarde => 0,
        }
    }

    /// Speed of the move in micrometres per second, without its direction.
    pub open spec fn spec_speed(self) -> int {
        STRIDE_SPEED * self.spec_multiplier()
    }

    pub fn block_time(self) -> (r: i64)
        ensures
            r == self.spec_block_time(),
    {
        match self {
            Move::Advance => 500_000,
            Move::Retreat => 500_000,
            Move::Lunge => 750_000,
            Move::EnGarde => -1,
        }
    }

    pub fn travel_time(self) -> (r: i64)
        ensures
            r == self.spec_travel_time(),
    {
        match self {
            Move::Advance => 350_000,
            Move::Retreat => 350_000,
            Move::Lunge => 200_000,
            Move::EnGarde => 0,
        }
    }

    pub fn direction(self) -> (r: i64)
        ensures
            r == self.spec_direction(),
    {
        match self {
            Move::Advance => 1,
            Move::Retreat => -1,
            Move::Lunge => 1,
            Move::EnGarde => 0,
        }
    }

    pub fn speed(self) -> (r: i64)
        ensures
            r == self.spec_speed(),
    {
        match self {
            Move::Advance => STRIDE_SPEED,
            Move::Retreat => STRIDE_SPEED,
            Move::Lunge => 4 * STRIDE_SPEED,
            Move::EnGarde => 0,
        }
    }
}

/// The move a fencer is making, with what is left of its two countdowns.
#[derive(Debug, Clone, Copy)]
pub struct Action {
    pub move_kind: Move,
    /// Microseconds the move still blocks new input; blocking while not negative.
    pub block_remaining: i64,
    /// Microseconds the move still carries the fencer; moving while not negative.
    pub travel_remaining: i64,
}

/// A countdown after `dt` more microseconds: it goes down by `dt` on every
/// step, negative or not, and only the bottom of `i64` stops it.
pub open spec fn spec_countdown(left: i64, dt: u32) -> i64 {
    if left >= i64::MIN + dt {
        (left - dt) as i64
    } else {
        i64::MIN
    }
}

/// Runs a countdown down by `dt` microseconds.
pub fn countdown(left: i64, dt: u32) -> (r: i64)
    ensures
        r == spec_countdown(left, dt),
{
    if left >= i64::MIN + dt as i64 {
        left - dt as i64
    } else {
        i64::MIN
    }
}

impl Action {
    /// The fresh action of a move, with both countdowns full.
    pub open spec fn spec_from(m: Move) -> Action {
        Action {
            move_kind: m,
            block_remaining: m.spec_block_time() as i64,
            travel_remaining: m.spec_travel_time() as i64,
        }
    }

    pub open spec fn is_blocked(self) -> bool {
        self.block_remaining >= 0
    }

    /// Signed distance the action carries the fencer forward during `dt`
    /// microseconds.
    pub open spec fn spec_delta(self, dt: u32) -> int {
        if self.travel_remaining >= 0 {
            self.move_kind.spec_direction() * (self.move_kind.spec_speed() * dt
                / MICROS_PER_SECOND as int)
        } else {
            0
        }
    }

    /// The action after `dt` microseconds: both countdowns run down.
    pub open spec fn spec_stepped(self, dt: u32) -> Action {
        Action {
            move_kind: self.move_kind,
            block_remaining: spec_countdown(self.block_remaining, dt),
            travel_remaining: spec_countdown(self.travel_remaining, dt),
        }
    }

    /// No step carries a fencer further than `MAX_STEP`.
    pub proof fn lemma_delta_bound(self, dt: u32)
        ensures
            -MAX_STEP <= self.spec_delta(dt) <= MAX_STEP,
    {
        let speed = self.move_kind.spec_speed();
        let x = speed * dt;
        assert(0 <= x <= 4 * STRIDE_SPEED * 0xffff_ffff) by (nonlinear_arith)
            requires
                0 <= speed <= 4 * STRIDE_SPEED,
                0 <= dt <= 0xffff_ffff,
                x == speed * dt,
        ;
        assert(x / MICROS_PER_SECOND as int <= MAX_STEP) by (nonlinear_arith)
            requires
                0 <= x <= 4 * STRIDE_SPEED * 0xffff_ffff,
        ;
        assert(x / MICROS_PER_SECOND as int >= 0) by (nonlinear_arith)
            requires
                0 <= x,
        ;
    }

    /// True while the move keeps the fencer from starting another.
    pub fn blocked(&self) -> (r: bool)
        ensures
            r == self.is_blocked(),
    {
        self.block_remaining >= 0
    }

    /// Runs both countdowns down by `dt` and returns how far the move carried
    /// the fencer forward, measured before the travel countdown ran down.
    pub fn step(&mut self, dt: u32) -> (r: i64)
        ensures
            r == old(self).spec_delta(dt),
            *final(self) == old(self).spec_stepped(dt),
    {
        let res: i64 = if self.travel_remaining >= 0 {
            let speed = self.move_kind.speed();
            proof {
                assert(0 <= speed * dt <= 4 * STRIDE_SPEED * 0xffff_ffff) by (nonlinear_arith)
                    requires
                        0 <= speed <= 4 * STRIDE_SPEED,
                        0 <= dt <= 0xffff_ffff,
                ;
            }
            self.move_kind.direction() * ((speed * dt as i64) / MICROS_PER_SECOND)
        } else {
            0
        };
        self.block_remaining = countdown(self.block_remaining, dt);
        self.travel_remaining = countdown(self.travel_remaining, dt);
        res
    }
}

impl From<Move> for Action {
    fn from(value: Move) -> (r: Action)
        ensures
            r == Action::spec_from(value),
    {
        Action {
            move_kind: value,
            block_remaining: value.block_time(),
            travel_remaining: value.travel_time(),
        }
    }
}

impl vstd::std_specs::convert::FromSpecImpl<Move> for Action {
    open spec fn obeys_from_spec() -> bool {
        true
    }

    open spec fn from_spec(v: Move) -> Action {
        Action::spec_from(v)
    }
}

/// One fencer on the piste.
#[derive(Debug, Clone, Copy)]
pub struct Fighter {
    /// The guard the fencer holds.
    pub gaurd: Gaurd,
    /// Position of the front foot, in micrometres from the centre of the piste;
    /// negative on fighter one's side.
    pub position: i64,
    pub stance: Stance,
    pub handed: Handed,
    /// Which fencer this is; fixed for the fencer's lifetime.
    pub player: Player,
    /// Set while a guard change has just met the lunging opponent's guard.
    pub parrying: bool,
    /// The move under way; it blocks other moves until done.
    pub action: Action,
    pub crouched: bool,
}

impl Fighter {
    /// Where a fencer stands when a bout starts.
    pub open spec fn spec_start(player: Player) -> int {
        match player {
            Player::One => START_ONE as int,
            Player::Two => START_TWO as int,
        }
    }

    /// A fencer as a bout finds it: at its starting mark, in the left guard,
    /// standing ready.
    pub open spec fn spec_new(player: Player) -> Fighter {
        Fighter {
            gaurd: Gaurd::Left,
            position: Fighter::spec_start(player) as i64,
            stance: Stance::Offence,
            handed: Handed::Right,
            player,
            parrying: false,
            action: Action::spec_from(Move::EnGarde),
            crouched: false,
        }
    }

    /// The fencer once `set_action(act)` has been called.
    pub open spec fn spec_set_action(self, act: Move) -> Fighter {
        if self.action.is_blocked() {
            self
        } else {
            Fighter { action: Action::spec_from(act), ..self }
        }
    }

    /// The action once a step of `dt` microseconds is over: the stepped action,
    /// or the ready stance where the step ended the move's block.
    pub open spec fn spec_action_after(action: Action, dt: u32) -> Action {
        let stepped = action.spec_stepped(dt);
        if action.is_blocked() && !stepped.is_blocked() {
            Action::spec_from(Move::EnGarde)
        } else {
            stepped
        }
    }

    pub open spec fn is_lunging(self) -> bool {
        self.action.move_kind == Move::Lunge
    }

    pub fn new(player: Player) -> (r: Fighter)
        ensures
            r == Fighter::spec_new(player),
    {
        let position = match player {
            Player::One => START_ONE,
            Player::Two => START_TWO,
        };
        Fighter {
            gaurd: Gaurd::Left,
            position,
            stance: Stance::Offence,
            handed: Handed::Right,
            player,
            parrying: false,
            action: Action::from(Move::EnGarde),
            crouched: false,
        }
    }

    /// Advances the fencer's move by `dt` microseconds and returns how far it
    /// carried the fencer forward. A move whose block ends during this step
    /// gives way to the ready stance.
    pub fn update_movement(&mut self, dt: u32) -> (r: i64)
        ensures
            r == old(self).action.spec_delta(dt),
            *final(self) == (Fighter {
                action: Fighter::spec_action_after(old(self).action, dt),
                ..*old(self)
            }),
            old(self).action.is_blocked() && !old(self).action.spec_stepped(dt).is_blocked()
                ==> final(self).action.move_kind == Move::EnGarde,
    {
        let b1 = self.action.blocked();
        let res = self.action.step(dt);
        let b2 = self.action.blocked();
        if b1 && !b2 {
            self.set_action(Move::EnGarde);
        }
        res
    }

    /// Starts a move, unless the current one still blocks; then nothing changes.
    pub fn set_action(&mut self, act: Move)
        ensures
            *final(self) == old(self).spec_set_action(act),
            old(self).action.is_blocked() ==> final(self).action.move_kind
                == old(self).action.move_kind,
    {
        if !self.action.blocked() {
            self.action = Action::from(act);
        }
    }

    pub fn lunged(&self) -> (r: bool)
        ensures
            r == self.is_lunging(),
    {
        self.action.move_kind == Move::Lunge
    }
}

/// Distance between two points of the piste.
pub open spec fn spec_distance(a: int, b: int) -> int {
    if a <= b {
        b - a
    } else {
        a - b
    }
}

/// Absolute difference of two positions.
pub fn distance(pos1: i64, pos2: i64) -> (r: u64)
    ensures
        r == spec_distance(pos1 as int, pos2 as int),
{
    if pos1 <= pos2 {
        (pos2 as i128 - pos1 as i128) as u64
    } else {
        (pos1 as i128 - pos2 as i128) as u64
    }
}

/// Distance is symmetric, and a point is at distance zero from itself.
pub proof fn lemma_distance_symmetric(a: int, b: int)
    ensures
        spec_distance(a, b) == spec_distance(b, a),
        spec_distance(a, a) == 0,
        spec_distance(a, b) >= 0,
{
}

} // verus!
