use fencing::{
    apply_move, bounds_limiter, cleanup_after_bout, clamp_position, decide, distance, duel_tick,
    fighter_2_movement, player_blade_play, player_controls, player_movement, side_flip_detect,
    touch_scored, Action, Controls, Fighter, GameState, Gaurd, Keys, Move, Outcome, P2Timer, Piste,
    Player, Score, Screen, PISTE_HALF_LENGTH, TOUCH_RANGE,
};

fn idle() -> Controls {
    Controls { movement: None, gaurd: None }
}

fn moving(mv: Move) -> Controls {
    Controls { movement: Some(mv), gaurd: None }
}

/// Fighter one has advanced, claimed the right of way, and stands ready again.
fn after_advance() -> (Fighter, Fighter, GameState) {
    let mut st = GameState::new();
    let mut one = Fighter::new(Player::One);
    let mut two = Fighter::new(Player::Two);
    let out = duel_tick(&mut one, &mut two, &mut st, moving(Move::Advance), idle(), 0);
    assert_eq!(out, Outcome::Continue);
    assert_eq!(st.row, Some(Player::One));
    assert_eq!(one.action.move_kind, Move::Advance);
    let out = duel_tick(&mut one, &mut two, &mut st, idle(), idle(), 500_001);
    assert_eq!(out, Outcome::Continue);
    assert_eq!(one.action.move_kind, Move::EnGarde);
    assert_eq!(st.row, Some(Player::One));
    (one, two, st)
}

#[test]
fn lunge_and_score() {
    let (mut one, mut two, mut st) = after_advance();
    one.position = -300_000;
    two.position = 100_000;
    let out = duel_tick(&mut one, &mut two, &mut st, moving(Move::Lunge), idle(), 1_000);
    assert_eq!(out, Outcome::Touch(Player::One));
    assert_eq!(st.p1_score.touches, 1);
    assert_eq!(st.p2_score.touches, 0);
    assert_eq!(st.row, None);
    assert_eq!(st.lunger, None);
    assert_eq!(one.position, -297_750);
}

#[test]
fn parry_prevents_touch() {
    let (mut one, mut two, mut st) = after_advance();
    one.position = -300_000;
    two.position = 100_000;
    one.gaurd = Gaurd::Up;
    let c2 = Controls { movement: None, gaurd: Some(Gaurd::Up) };
    let out = duel_tick(&mut one, &mut two, &mut st, moving(Move::Lunge), c2, 1_000);
    assert_eq!(out, Outcome::Continue);
    assert!(two.parrying);
    assert_eq!(st.p1_score.touches, 0);
    assert_eq!(st.lunger, Some(Player::One));
    assert_eq!(st.row, Some(Player::One));
}

#[test]
fn parry_is_sticky_only_while_the_lunge_holds() {
    let (mut one, mut two, mut st) = after_advance();
    one.position = -300_000;
    two.position = 100_000;
    one.gaurd = Gaurd::Up;
    let c2 = Controls { movement: None, gaurd: Some(Gaurd::Up) };
    duel_tick(&mut one, &mut two, &mut st, moving(Move::Lunge), c2, 1_000);
    assert!(two.parrying);
    duel_tick(&mut one, &mut two, &mut st, idle(), idle(), 1_000);
    assert!(two.parrying);
    two.gaurd = Gaurd::Down;
    duel_tick(&mut one, &mut two, &mut st, idle(), idle(), 1_000);
    assert!(!two.parrying);
}

#[test]
fn matching_guard_without_change_does_not_parry() {
    let (mut one, mut two, mut st) = after_advance();
    one.position = -300_000;
    two.position = 100_000;
    assert_eq!(one.gaurd, two.gaurd);
    let out = duel_tick(&mut one, &mut two, &mut st, moving(Move::Lunge), idle(), 1_000);
    assert!(!two.parrying);
    assert_eq!(out, Outcome::Touch(Player::One));
}

#[test]
fn retreat_relinquishes_priority() {
    let (mut one, mut two, mut st) = after_advance();
    let out = duel_tick(&mut one, &mut two, &mut st, moving(Move::Retreat), idle(), 1_000);
    assert_eq!(out, Outcome::Continue);
    assert_eq!(st.row, None);
    assert_eq!(one.action.move_kind, Move::Retreat);
}

#[test]
fn retreat_keeps_the_opponents_priority() {
    let mut st = GameState::new();
    st.row = Some(Player::Two);
    let mut one = Fighter::new(Player::One);
    apply_move(&mut one, &mut st, Move::Retreat);
    assert_eq!(st.row, Some(Player::Two));
}

#[test]
fn advance_claims_only_free_priority() {
    let mut st = GameState::new();
    st.row = Some(Player::Two);
    let mut one = Fighter::new(Player::One);
    apply_move(&mut one, &mut st, Move::Advance);
    assert_eq!(one.action.move_kind, Move::Advance);
    assert_eq!(st.row, Some(Player::Two));
}

#[test]
fn first_lunge_keeps_the_lunger_slot() {
    let mut st = GameState::new();
    let mut one = Fighter::new(Player::One);
    let mut two = Fighter::new(Player::Two);
    one.position = -3_000_000;
    two.position = 3_000_000;
    duel_tick(&mut one, &mut two, &mut st, moving(Move::Lunge), moving(Move::Lunge), 0);
    assert_eq!(st.lunger, Some(Player::One));
    st.lunge(Player::Two);
    assert_eq!(st.lunger, Some(Player::One));
}

#[test]
fn blocked_move_is_ignored_by_apply_move() {
    let mut st = GameState::new();
    let mut one = Fighter::new(Player::One);
    apply_move(&mut one, &mut st, Move::Retreat);
    apply_move(&mut one, &mut st, Move::Lunge);
    assert_eq!(one.action.move_kind, Move::Retreat);
    assert_eq!(st.lunger, None);
}

#[test]
fn match_completion() {
    let mut st = GameState::new();
    st.p1_score = Score { touches: 14, matches: 2 };
    st.p2_score = Score { touches: 9, matches: 1 };
    let screen = st.score_touch(Player::One);
    assert_eq!(screen, Screen::NewBout);
    assert_eq!(st.p1_score, Score { touches: 0, matches: 3 });
    assert_eq!(st.p2_score, Score { touches: 0, matches: 1 });
}

#[test]
fn match_completion_for_fighter_two() {
    let mut st = GameState::new();
    st.p1_score = Score { touches: 7, matches: 0 };
    st.p2_score = Score { touches: 14, matches: 0 };
    st.score_touch(Player::Two);
    assert_eq!(st.p1_score, Score { touches: 0, matches: 0 });
    assert_eq!(st.p2_score, Score { touches: 0, matches: 1 });
}

#[test]
fn fifteenth_touch_through_a_tick() {
    let (mut one, mut two, mut st) = after_advance();
    st.p1_score = Score { touches: 14, matches: 0 };
    st.p2_score = Score { touches: 5, matches: 0 };
    one.position = -300_000;
    two.position = 100_000;
    let out = duel_tick(&mut one, &mut two, &mut st, moving(Move::Lunge), idle(), 1_000);
    assert_eq!(out, Outcome::Touch(Player::One));
    assert_eq!(st.p1_score, Score { touches: 0, matches: 1 });
    assert_eq!(st.p2_score, Score { touches: 0, matches: 0 });
}

#[test]
fn ordinary_touch_keeps_the_other_tally() {
    let mut s = Score { touches: 3, matches: 4 };
    s.score_touch();
    assert_eq!(s, Score { touches: 4, matches: 4 });
    let mut st = GameState::new();
    st.p2_score = Score { touches: 6, matches: 0 };
    st.score_touch(Player::One);
    assert_eq!(st.p1_score.touches, 1);
    assert_eq!(st.p2_score.touches, 6);
}

#[test]
fn side_flip() {
    let mut st = GameState::new();
    st.row = Some(Player::One);
    st.p1_score = Score { touches: 2, matches: 0 };
    let mut one = Fighter::new(Player::One);
    let mut two = Fighter::new(Player::Two);
    one.position = 1_000_000;
    two.position = 500_000;
    assert!(side_flip_detect(&one, &two));
    let out = duel_tick(&mut one, &mut two, &mut st, idle(), idle(), 0);
    assert_eq!(out, Outcome::SideFlip);
    assert_eq!(st.p1_score, Score { touches: 2, matches: 0 });
    assert_eq!(st.p2_score, Score { touches: 0, matches: 0 });
    assert_eq!(st.row, None);
    assert_eq!(st.lunger, None);
}

#[test]
fn no_side_flip_while_lunging() {
    let mut one = Fighter::new(Player::One);
    let mut two = Fighter::new(Player::Two);
    one.position = 1_000_000;
    two.position = 500_000;
    two.action = Action::from(Move::Lunge);
    assert!(!side_flip_detect(&one, &two));
    two.action = Action::from(Move::EnGarde);
    one.action = Action::from(Move::Lunge);
    assert!(!side_flip_detect(&one, &two));
}

#[test]
fn positions_stay_on_the_piste() {
    let mut st = GameState::new();
    let mut one = Fighter::new(Player::One);
    let mut two = Fighter::new(Player::Two);
    one.position = -6_950_000;
    two.position = 6_950_000;
    duel_tick(&mut one, &mut two, &mut st, moving(Move::Retreat), moving(Move::Retreat), 350_000);
    assert_eq!(one.position, -PISTE_HALF_LENGTH);
    assert_eq!(two.position, PISTE_HALF_LENGTH);
    for _ in 0..100 {
        duel_tick(&mut one, &mut two, &mut st, moving(Move::Retreat), moving(Move::Retreat), 16_667);
        assert!(one.position >= -PISTE_HALF_LENGTH && one.position <= PISTE_HALF_LENGTH);
        assert!(two.position >= -PISTE_HALF_LENGTH && two.position <= PISTE_HALF_LENGTH);
    }
}

#[test]
fn clamp_pulls_back_both_ends() {
    assert_eq!(clamp_position(-9_000_000), -7_000_000);
    assert_eq!(clamp_position(9_000_000), 7_000_000);
    assert_eq!(clamp_position(123), 123);
    let mut f = Fighter::new(Player::Two);
    f.position = -8_000_000;
    bounds_limiter(&mut f);
    assert_eq!(f.position, -7_000_000);
}

#[test]
fn set_action_while_blocked_is_ignored() {
    let mut f = Fighter::new(Player::One);
    f.set_action(Move::Lunge);
    assert!(f.action.blocked());
    f.set_action(Move::Retreat);
    assert_eq!(f.action.move_kind, Move::Lunge);
    assert_eq!(f.action.block_remaining, 750_000);
}

#[test]
fn en_garde_never_blocks() {
    let mut f = Fighter::new(Player::One);
    assert!(!f.action.blocked());
    f.update_movement(10_000_000);
    assert!(!f.action.blocked());
    f.set_action(Move::Advance);
    assert_eq!(f.action.move_kind, Move::Advance);
}

#[test]
fn block_end_returns_to_en_garde() {
    let mut f = Fighter::new(Player::One);
    f.set_action(Move::Advance);
    let d = f.update_movement(499_999);
    assert_eq!(d, 281_249);
    assert_eq!(f.action.move_kind, Move::Advance);
    assert_eq!(f.action.block_remaining, 1);
    let d = f.update_movement(2);
    assert_eq!(d, 0);
    assert_eq!(f.action.move_kind, Move::EnGarde);
    assert!(!f.action.blocked());
}

#[test]
fn travel_and_block_are_independent() {
    let mut f = Fighter::new(Player::One);
    f.set_action(Move::Lunge);
    assert_eq!(f.update_movement(200_000), 450_000);
    assert_eq!(f.update_movement(1), 2);
    assert_eq!(f.update_movement(1), 0);
    assert!(f.action.blocked());
    assert_eq!(f.action.move_kind, Move::Lunge);
}

#[test]
fn step_deltas() {
    let mut a = Action::from(Move::Advance);
    assert_eq!(a.step(100_000), 56_250);
    let mut r = Action::from(Move::Retreat);
    assert_eq!(r.step(100_000), -56_250);
    let mut l = Action::from(Move::Lunge);
    assert_eq!(l.step(100_000), 225_000);
    assert_eq!(l.block_remaining, 650_000);
    assert_eq!(l.travel_remaining, 100_000);
    let mut e = Action::from(Move::EnGarde);
    assert_eq!(e.step(100_000), 0);
}

#[test]
fn fighter_two_moves_the_other_way() {
    let mut st = GameState::new();
    let mut one = Fighter::new(Player::One);
    let mut two = Fighter::new(Player::Two);
    duel_tick(&mut one, &mut two, &mut st, moving(Move::Advance), moving(Move::Advance), 100_000);
    assert_eq!(one.position, -1_943_750);
    assert_eq!(two.position, 1_943_750);
    assert_eq!(st.row, Some(Player::One));
}

#[test]
fn guard_parries_only_itself() {
    assert!(Gaurd::Up.parries(Gaurd::Up));
    assert!(!Gaurd::Up.parries(Gaurd::Down));
    assert!(!Gaurd::Left.parries(Gaurd::Right));
    assert!(Gaurd::Right.parries(Gaurd::Right));
    assert_eq!(Gaurd::Down.icon_index(), 0);
    assert_eq!(Gaurd::Up.icon_index(), 3);
}

#[test]
fn distance_is_symmetric() {
    assert_eq!(distance(-300_000, 100_000), 400_000);
    assert_eq!(distance(100_000, -300_000), 400_000);
    assert_eq!(distance(5, 5), 0);
    assert_eq!(distance(i64::MIN, i64::MAX), u64::MAX);
    assert_eq!(distance(i64::MAX, i64::MIN), u64::MAX);
}

#[test]
fn touch_needs_reach() {
    let mut st = GameState::new();
    st.row = Some(Player::Two);
    st.lunger = Some(Player::Two);
    let one = Fighter::new(Player::One);
    let mut two = Fighter::new(Player::Two);
    two.action = Action::from(Move::Lunge);
    two.position = one.position + TOUCH_RANGE as i64 + 1;
    assert_eq!(touch_scored(&one, &two, &mut st), None);
    two.position = one.position + TOUCH_RANGE as i64;
    assert_eq!(touch_scored(&one, &two, &mut st), Some(Player::Two));
    assert_eq!(st.p2_score.touches, 1);
    assert_eq!(st.row, None);
}

#[test]
fn touch_needs_right_of_way() {
    let mut st = GameState::new();
    st.lunger = Some(Player::One);
    let mut one = Fighter::new(Player::One);
    let two = Fighter::new(Player::Two);
    one.action = Action::from(Move::Lunge);
    one.position = two.position;
    assert_eq!(touch_scored(&one, &two, &mut st), None);
    st.row = Some(Player::One);
    assert_eq!(touch_scored(&one, &two, &mut st), Some(Player::One));
}

#[test]
fn missing_fighter_skips_the_duel() {
    let mut st = GameState::new();
    let mut piste = Piste::new();
    piste.two = None;
    let out = piste.tick(&mut st, moving(Move::Advance), idle(), 100_000);
    assert_eq!(out, Outcome::Continue);
    assert_eq!(piste.one.unwrap().position, -1_943_750);
    assert_eq!(st.row, Some(Player::One));
    cleanup_after_bout(&mut piste);
    assert!(piste.one.is_none() && piste.two.is_none());
    let out = piste.tick(&mut st, moving(Move::Lunge), moving(Move::Lunge), 100_000);
    assert_eq!(out, Outcome::Continue);
    assert_eq!(st.lunger, None);
}

#[test]
fn new_bout_setup() {
    let piste = Piste::new();
    let one = piste.one.unwrap();
    let two = piste.two.unwrap();
    assert_eq!(one.position, -2_000_000);
    assert_eq!(two.position, 2_000_000);
    assert_eq!(one.player, Player::One);
    assert_eq!(two.player, Player::Two);
    assert_eq!(one.action.move_kind, Move::EnGarde);
    assert!(!one.parrying && !two.parrying);
    assert_eq!(one.gaurd, Gaurd::Left);
}

#[test]
fn computer_decisions() {
    let one = Fighter::new(Player::One);
    let mut two = Fighter::new(Player::Two);
    assert_eq!(decide(&two, &one, None), moving(Move::Advance));
    two.position = 0;
    assert_eq!(decide(&two, &one, Some(Player::One)), moving(Move::Retreat));
    assert_eq!(decide(&two, &one, Some(Player::Two)), moving(Move::Advance));
    two.position = -500_000;
    assert_eq!(decide(&two, &one, Some(Player::Two)), moving(Move::Lunge));
    let mut lunging = one;
    lunging.action = Action::from(Move::Lunge);
    lunging.gaurd = Gaurd::Up;
    assert_eq!(
        decide(&two, &lunging, Some(Player::One)),
        Controls { movement: None, gaurd: Some(Gaurd::Up) }
    );
    let mut retreating = one;
    retreating.action = Action::from(Move::Retreat);
    two.position = 1_500_000;
    assert_eq!(decide(&two, &retreating, Some(Player::One)), idle());
}

#[test]
fn computer_waits_for_its_period() {
    let one = Fighter::new(Player::One);
    let two = Fighter::new(Player::Two);
    let mut timer = P2Timer::new();
    assert_eq!(fighter_2_movement(&two, &one, None, &mut timer, 100_000), idle());
    assert_eq!(timer.elapsed, 100_000);
    assert_eq!(fighter_2_movement(&two, &one, None, &mut timer, 150_000), moving(Move::Advance));
    assert_eq!(timer.elapsed, 0);
    let mut busy = two;
    busy.set_action(Move::Retreat);
    assert_eq!(fighter_2_movement(&busy, &one, None, &mut timer, 300_000), idle());
    assert_eq!(timer.elapsed, 0);
}

#[test]
fn keys_map_to_controls() {
    let mut k = Keys::default();
    assert_eq!(player_movement(&k), None);
    k.lunge = true;
    assert_eq!(player_movement(&k), Some(Move::Lunge));
    k.advance = true;
    assert_eq!(player_movement(&k), Some(Move::Advance));
    k.retreat = true;
    assert_eq!(player_movement(&k), Some(Move::Retreat));
    k.guard_down = true;
    assert_eq!(player_blade_play(&k), Some(Gaurd::Down));
    k.guard_left = true;
    assert_eq!(player_blade_play(&k), Some(Gaurd::Left));
    let c = player_controls(&k);
    assert_eq!(c, Controls { movement: Some(Move::Retreat), gaurd: Some(Gaurd::Left) });
    let crouch = Keys { crouch: true, ..Keys::default() };
    assert_eq!(player_controls(&crouch), idle());
}

#[test]
fn countdowns_keep_running_below_zero() {
    let mut a = Action::from(Move::Advance);
    assert_eq!(a.step(350_005), 196_877);
    assert_eq!(a.travel_remaining, -5);
    assert_eq!(a.step(10), 0);
    assert_eq!(a.travel_remaining, -15);
    assert_eq!(a.block_remaining, 149_985);
    let mut f = Fighter::new(Player::One);
    f.update_movement(10);
    assert_eq!(f.action.move_kind, Move::EnGarde);
    assert_eq!(f.action.block_remaining, -11);
    assert_eq!(f.action.travel_remaining, -10);
    f.update_movement(10);
    assert_eq!(f.action.travel_remaining, -20);
    assert!(!f.action.blocked());
}

#[test]
fn countdown_stops_at_the_bottom() {
    let mut a = Action::from(Move::EnGarde);
    a.block_remaining = i64::MIN + 3;
    a.step(10);
    assert_eq!(a.block_remaining, i64::MIN);
    assert!(!a.blocked());
}
