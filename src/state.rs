use vstd::prelude::*;
use crate::fighter::{Move, Player};

verus! {

/// Touches that win a match.
pub const TOUCHES_TO_WIN: u8 = 15;

/// The screens a duel moves through.
#[derive(Debug, Clone, Copy, PartialEq, Eq, Structural, Hash)]
pub enum Screen {
    /// Window setup, entered once when the game starts.
    Setup,
    /// The welcome screen.
    Welcome,
    /// Choice between dueling the computer, a human, or watching.
    ModeSelect,
    /// A bout under way.
    Game,
    /// The pause menu.
    PauseMenu,
    /// Clearing up after a bout and setting up the next.
    NewBout,
    /// Announces a scored touch.
    ScoreBoard,
    /// Announces the winner of a match.
    Victory,
    /// Shows the controls.
    Controls,
    /// Explains the rules, icons and interface.
    HowToPlay,
    /// Announces which fencer scored the touch.
    TouchScored,
    /// Announces which fencer won the match.
    MatchWon,
}

/// One fencer's tally.
#[derive(Debug, Clone, Copy, PartialEq, Eq, Structural)]
pub struct Score {
    /// Touches scored in the current match.
    pub touches: u8,
    /// Matches won.
    pub matches: u16,
}

impl Default for Score {
    fn default() -> (r: Score)
        ensures
            r == (Score { touches: 0, matches: 0 }),
    {
        Score { touches: 0, matches: 0 }
    }
}

impl Score {
    /// A match is never already won.
    pub open spec fn wf(self) -> bool {
        self.touches < TOUCHES_TO_WIN
    }

    /// One more touch fits: a won match still has room in the match count.
    pub open spec fn can_score(self) -> bool {
        self.wf() && (self.touches + 1 == TOUCHES_TO_WIN ==> self.matches < u16::MAX)
    }

    /// The tally after one more touch; the touch that wins the match starts
    /// the count of touches again.
    pub open spec fn spec_scored(self) -> Score {
        if self.touches + 1 == TOUCHES_TO_WIN {
            Score { touches: 0, matches: (self.matches + 1) as u16 }
        } else {
            Score { touches: (self.touches + 1) as u8, matches: self.matches }
        }
    }

    pub fn score_touch(&mut self)
        requires
            old(self).can_score(),
        ensures
            *final(self) == old(self).spec_scored(),
            final(self).wf(),
    {
        self.touches += 1;
        if self.touches == TOUCHES_TO_WIN {
            self.matches += 1;
            self.touches = 0;
        }
    }
}

/// The touch that wins a match leaves both fencers at no touches: the winner
/// gains a match, the loser keeps its match count.
pub proof fn lemma_match_completion(st: GameState, player: Player)
    requires
        st.wf(),
        st.score_of(player).touches + 1 == TOUCHES_TO_WIN,
        st.score_of(player).matches < u16::MAX,
    ensures
        st.spec_score_touch(player).p1_score.touches == 0,
        st.spec_score_touch(player).p2_score.touches == 0,
        st.spec_score_touch(player).score_of(player).matches == st.score_of(player).matches + 1,
        st.spec_score_touch(player).score_of(player.spec_opponent()).matches == st.score_of(
            player.spec_opponent(),
        ).matches,
        st.spec_score_touch(player).row == st.row,
        st.spec_score_touch(player).lunger == st.lunger,
{
}

/// The state shared by both fencers over a bout.
#[derive(Debug, Clone, Copy, PartialEq, Eq, Structural)]
pub struct GameState {
    /// The fencer who holds the right of way, if anyone does.
    pub row: Option<Player>,
    pub p1_score: Score,
    pub p2_score: Score,
    /// The first fencer to lunge in this exchange.
    pub lunger: Option<Player>,
}

impl GameState {
    pub open spec fn wf(self) -> bool {
        self.p1_score.wf() && self.p2_score.wf()
    }

    pub open spec fn score_of(self, player: Player) -> Score {
        match player {
            Player::One => self.p1_score,
            Player::Two => self.p2_score,
        }
    }

    /// Either fencer's next touch fits in its tally.
    pub open spec fn can_score(self) -> bool {
        self.p1_score.can_score() && self.p2_score.can_score()
    }

    /// The state with the exchange cleared and the scores kept.
    pub open spec fn spec_reset(self) -> GameState {
        GameState { row: None, lunger: None, ..self }
    }

    /// The state once `player` has started a lunge.
    pub open spec fn spec_lunge(self, player: Player) -> GameState {
        if self.lunger is None {
            GameState { lunger: Some(player), ..self }
        } else {
            self
        }
    }

    /// The state once `player` has scored a touch. When it wins the match,
    /// the opponent's touches are cleared too.
    pub open spec fn spec_score_touch(self, player: Player) -> GameState {
        match player {
            Player::One => GameState {
                p1_score: self.p1_score.spec_scored(),
                p2_score: if self.p1_score.touches + 1 == TOUCHES_TO_WIN {
                    Score { touches: 0, ..self.p2_score }
                } else {
                    self.p2_score
                },
                ..self
            },
            Player::Two => GameState {
                p2_score: self.p2_score.spec_scored(),
                p1_score: if self.p2_score.touches + 1 == TOUCHES_TO_WIN {
                    Score { touches: 0, ..self.p1_score }
                } else {
                    self.p1_score
                },
                ..self
            },
        }
    }

    /// The right of way and the lunger once `player` has started `mv`: an
    /// advance claims a free right of way, a retreat gives up one's own, and a
    /// lunge takes a free lunger slot.
    pub open spec fn spec_record_move(self, player: Player, mv: Move) -> GameState {
        match mv {
            Move::Advance => if self.row is None {
                GameState { row: Some(player), ..self }
            } else {
                self
            },
            Move::Retreat => if self.row == Some(player) {
                GameState { row: None, ..self }
            } else {
                self
            },
            Move::Lunge => self.spec_lunge(player),
            Move::EnGarde => self,
        }
    }

    /// A match at its start: no right of way, no lunger, no touches.
    pub fn new() -> (r: GameState)
        ensures
            r == (GameState {
                row: None,
                p1_score: Score { touches: 0, matches: 0 },
                p2_score: Score { touches: 0, matches: 0 },
                lunger: None,
            }),
            r.wf(),
    {
        GameState { row: None, p1_score: Score::default(), p2_score: Score::default(), lunger: None }
    }

    /// Clears the right of way and the lunger; the scores stay.
    pub fn reset(&mut self)
        ensures
            *final(self) == old(self).spec_reset(),
    {
        self.row = None;
        self.lunger = None;
    }

    /// Records a lunge by `player`; only the first lunge of an exchange counts.
    pub fn lunge(&mut self, player: Player)
        ensures
            *final(self) == old(self).spec_lunge(player),
    {
        if self.lunger.is_none() {
            self.lunger = Some(player);
        }
    }

    /// Records a touch by `player` and names the screen that follows.
    pub fn score_touch(&mut self, player: Player) -> (r: Screen)
        requires
            old(self).wf(),
            old(self).score_of(player).can_score(),
        ensures
            *final(self) == old(self).spec_score_touch(player),
            final(self).wf(),
            r == Screen::NewBout,
    {
        match player {
            Player::One => {
                if self.p1_score.touches + 1 == TOUCHES_TO_WIN {
                    self.p2_score.touches = 0;
                }
                self.p1_score.score_touch();
            },
            Player::Two => {
                if self.p2_score.touches + 1 == TOUCHES_TO_WIN {
                    self.p1_score.touches = 0;
                }
                self.p2_score.score_touch();
            },
        }
        Screen::NewBout
    }

    /// Updates the right of way and the lunger for a move that `player` has
    /// just started.
    pub fn record_move(&mut self, player: Player, mv: Move)
        ensures
            *final(self) == old(self).spec_record_move(player, mv),
    {
        match mv {
            Move::Advance => {
                if self.row.is_none() {
                    self.row = Some(player);
                }
            },
            Move::Retreat => {
                if matches!(self.row, Some(p) if p == player) {
                    self.row = None;
                }
            },
            Move::Lunge => self.lunge(player),
            Move::EnGarde => {},
        }
    }
}

} // verus!
