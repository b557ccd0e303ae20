//! The match state machine: a menu, a round, and the ruling that ends the
//! round when a fighter has no life left.

use vstd::prelude::*;
use crate::actor::Tint;
use crate::opponent::{Opponent, OPPONENT_LIVES};
use crate::player::Player;

verus! {

/// Lives of the player at the start of every round after the first.
pub const PLAYER_ROUND_LIVES: u32 = 3;

/// Whether a round is being fought.
#[derive(Clone, Copy, Debug, PartialEq, Eq, Structural)]
pub enum MatchState {
    /// Waiting for the start button; fighters and weapons are inert.
    Menu,
    /// A round is under way.
    Fighting,
}

/// Who won a round.
#[derive(Clone, Copy, Debug, PartialEq, Eq, Structural)]
pub enum Verdict {
    /// The player ran out of lives.
    OpponentWins,
    /// The opponent ran out of lives.
    PlayerWins,
}

/// The match: its state and what its status line shows.
#[derive(Clone, Copy, Debug, PartialEq, Eq, Structural)]
pub struct Match {
    pub state: MatchState,
    /// The invitation to start is shown.
    pub prompt: bool,
    /// The result of the last round, shown until the next round starts.
    pub verdict: Option<Verdict>,
}

/// The ruling on a pair of life counters: the round is lost by the fighter
/// with no life left. The player is looked at first, so with both at zero
/// the opponent wins.
pub open spec fn ruling_on(player_lives: u32, opponent_lives: u32) -> Option<Verdict> {
    if player_lives == 0 {
        Some(Verdict::OpponentWins)
    } else if opponent_lives == 0 {
        Some(Verdict::PlayerWins)
    } else {
        None
    }
}

impl Match {
    /// The match as it is set up: in the menu, with an empty status line.
    pub open spec fn initial() -> Match {
        Match { state: MatchState::Menu, prompt: false, verdict: None }
    }

    pub fn new() -> (m: Match)
        ensures
            m == Match::initial(),
    {
        Match { state: MatchState::Menu, prompt: false, verdict: None }
    }

    /// The menu shows the invitation to start until the start button goes
    /// down, which starts a round and clears the status line. A round in
    /// progress takes no notice of the button.
    pub open spec fn with_start(self, start_pressed: bool) -> Match {
        match self.state {
            MatchState::Menu => if start_pressed {
                Match { state: MatchState::Fighting, prompt: false, verdict: None }
            } else {
                Match { prompt: true, ..self }
            },
            MatchState::Fighting => self,
        }
    }

    /// A ruling sends the match back to the menu and shows the result.
    pub open spec fn with_ruling(self, ruling: Option<Verdict>) -> Match {
        match ruling {
            Some(verdict) => Match {
                state: MatchState::Menu,
                prompt: self.prompt,
                verdict: Some(verdict),
            },
            None => self,
        }
    }

    /// The match after one tick on which the fighters have the given lives.
    pub open spec fn after_tick(
        self,
        start_pressed: bool,
        player_lives: u32,
        opponent_lives: u32,
    ) -> Match {
        self.with_start(start_pressed).with_ruling(ruling_on(player_lives, opponent_lives))
    }
}

/// The player's lives after a tick of the match: the round's allowance
/// after a ruling, else what they were.
pub open spec fn player_lives_after(player_lives: u32, opponent_lives: u32) -> u32 {
    if ruling_on(player_lives, opponent_lives).is_some() {
        PLAYER_ROUND_LIVES
    } else {
        player_lives
    }
}

/// The opponent's lives after a tick of the match: the round's allowance
/// after a ruling, else what they were.
pub open spec fn opponent_lives_after(player_lives: u32, opponent_lives: u32) -> u32 {
    if ruling_on(player_lives, opponent_lives).is_some() {
        OPPONENT_LIVES
    } else {
        opponent_lives
    }
}

/// The player after a tick of the match: only the lives can change.
pub open spec fn player_after_ruling(player: Player, opponent: Opponent) -> Player {
    Player { lives: player_lives_after(player.lives, opponent.lives), ..player }
}

/// The opponent after a tick of the match: only the lives can change, and a
/// beaten opponent is shown again.
pub open spec fn opponent_after_ruling(player: Player, opponent: Opponent) -> Opponent {
    Opponent {
        lives: opponent_lives_after(player.lives, opponent.lives),
        tint: if ruling_on(player.lives, opponent.lives) == Some(Verdict::PlayerWins) {
            Tint::Normal
        } else {
            opponent.tint
        },
        ..opponent
    }
}

/// One tick of the match state machine.
///
/// The start button, on the tick it goes down, takes the match from the menu
/// into a round. Whenever a fighter has no life left the round is ruled on:
/// the match returns to the menu, both fighters get the lives of a new round,
/// and the result is shown; a beaten opponent is shown again. Nothing else
/// about the fighters changes. Returns the ruling.
pub fn update_match(
    game: &mut Match,
    player: &mut Player,
    opponent: &mut Opponent,
    start_pressed: bool,
) -> (ruling: Option<Verdict>)
    ensures
        ruling == ruling_on(old(player).lives, old(opponent).lives),
        *final(game) == old(game).after_tick(start_pressed, old(player).lives, old(opponent).lives),
        *final(player) == player_after_ruling(*old(player), *old(opponent)),
        *final(opponent) == opponent_after_ruling(*old(player), *old(opponent)),
        old(player).wf() ==> final(player).wf(),
{
    match game.state {
        MatchState::Menu => {
            if start_pressed {
                game.state = MatchState::Fighting;
                game.prompt = false;
                game.verdict = None;
            } else {
                game.prompt = true;
            }
        },
        MatchState::Fighting => {},
    }
    let mut ruling: Option<Verdict> = None;
    if player.lives == 0 {
        ruling = Some(Verdict::OpponentWins);
    } else if opponent.lives == 0 {
        ruling = Some(Verdict::PlayerWins);
        opponent.tint = Tint::Normal;
    }
    if ruling.is_some() {
        game.state = MatchState::Menu;
        game.verdict = ruling;
        player.lives = PLAYER_ROUND_LIVES;
        opponent.lives = OPPONENT_LIVES;
    }
    ruling
}

/// From the menu the start button leads into a round, and from the round
/// the loss of a fighter's last life leads back to the menu, with both
/// fighters at the lives of a new round.
pub proof fn lemma_round_trip(
    game: Match,
    player_lives: u32,
    opponent_lives: u32,
    later_pressed: bool,
    later_player_lives: u32,
    later_opponent_lives: u32,
)
    requires
        game.state == MatchState::Menu,
        player_lives > 0,
        opponent_lives > 0,
        later_player_lives == 0 || later_opponent_lives == 0,
    ensures
        game.after_tick(true, player_lives, opponent_lives).state == MatchState::Fighting,
        game.after_tick(true, player_lives, opponent_lives).after_tick(
            later_pressed,
            later_player_lives,
            later_opponent_lives,
        ).state == MatchState::Menu,
        player_lives_after(later_player_lives, later_opponent_lives) == PLAYER_ROUND_LIVES,
        opponent_lives_after(later_player_lives, later_opponent_lives) == OPPONENT_LIVES,
{
}

} // verus!
