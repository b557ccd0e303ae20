//! The duel as a whole: the match and its two fighters, and what holds of
//! their lives however the ticks of the controllers and of the match are
//! interleaved.

use vstd::prelude::*;
use crate::opponent::{Opponent, OpponentTick, OPPONENT_LIVES};
use crate::player::{Player, PlayerTick, PLAYER_START_LIVES};
use crate::round::{
    opponent_after_ruling, player_after_ruling, Match, MatchState, PLAYER_ROUND_LIVES,
};

verus! {

/// The match and the two fighters.
#[derive(Clone, Copy, Debug, PartialEq, Eq, Structural)]
pub struct Duel {
    pub game: Match,
    pub player: Player,
    pub opponent: Opponent,
}

/// One step of one of the three state machines.
#[derive(Clone, Copy, Debug, PartialEq, Eq, Structural)]
pub enum Event {
    /// A tick of the player's controller.
    PlayerTurn(PlayerTick),
    /// A tick of the opponent's controller.
    OpponentTurn(OpponentTick),
    /// A tick of the match state machine.
    Referee { start_pressed: bool },
}

impl Duel {
    /// The duel as it is set up at `now_ms`.
    pub open spec fn initial(now_ms: u64) -> Duel {
        Duel {
            game: Match::initial(),
            player: Player::initial(now_ms),
            opponent: Opponent::initial(now_ms),
        }
    }

    /// The duel after one event. The controllers act only in a round.
    pub open spec fn after(self, event: Event) -> Duel {
        match event {
            Event::PlayerTurn(tick) => if self.game.state == MatchState::Fighting {
                Duel {
                    player: self.player.after_tick(tick.input, tick.contacts, tick.now_ms),
                    ..self
                }
            } else {
                self
            },
            Event::OpponentTurn(tick) => if self.game.state == MatchState::Fighting {
                Duel {
                    opponent: self.opponent.after_tick(tick.contacts, tick.whim, tick.now_ms),
                    ..self
                }
            } else {
                self
            },
            Event::Referee { start_pressed } => Duel {
                game: self.game.after_tick(start_pressed, self.player.lives, self.opponent.lives),
                player: player_after_ruling(self.player, self.opponent),
                opponent: opponent_after_ruling(self.player, self.opponent),
            },
        }
    }

    /// The duel after a run of events, the first of the sequence first.
    pub open spec fn after_all(self, events: Seq<Event>) -> Duel
        decreases events.len(),
    {
        if events.len() == 0 {
            self
        } else {
            self.after_all(events.drop_last()).after(events.last())
        }
    }

    /// Neither fighter has more lives than it was set up with.
    pub open spec fn lives_in_range(self) -> bool {
        self.player.lives <= PLAYER_START_LIVES && self.opponent.lives <= OPPONENT_LIVES
    }
}

/// No event raises a fighter's lives above what the fighter was set up
/// with.
pub proof fn lemma_event_keeps_lives_in_range(duel: Duel, event: Event)
    requires
        duel.lives_in_range(),
    ensures
        duel.after(event).lives_in_range(),
{
}

/// Through every run of events both life counters stay between zero and what
/// the fighters were set up with.
pub proof fn lemma_lives_stay_in_range(duel: Duel, events: Seq<Event>)
    requires
        duel.lives_in_range(),
    ensures
        duel.after_all(events).lives_in_range(),
        0 <= duel.after_all(events).player.lives <= PLAYER_START_LIVES,
        0 <= duel.after_all(events).opponent.lives <= OPPONENT_LIVES,
    decreases events.len(),
{
    if events.len() > 0 {
        lemma_lives_stay_in_range(duel, events.drop_last());
        lemma_event_keeps_lives_in_range(duel.after_all(events.drop_last()), events.last());
    }
}

/// A duel that has just been set up has its lives in range, so they stay in
/// range through every run of events that follows.
pub proof fn lemma_lives_in_range_from_setup(now_ms: u64, events: Seq<Event>)
    ensures
        Duel::initial(now_ms).after_all(events).lives_in_range(),
{
    lemma_lives_stay_in_range(Duel::initial(now_ms), events);
}

/// The event is a tick of one of the two controllers.
pub open spec fn is_turn(event: Event) -> bool {
    event is PlayerTurn || event is OpponentTurn
}

/// Within a round the lives only go down: through every run of ticks of the
/// controllers neither fighter has more lives than it had when the run
/// began.
pub proof fn lemma_lives_never_grow_in_a_round(duel: Duel, events: Seq<Event>)
    requires
        forall|i: int| 0 <= i < events.len() ==> is_turn(#[trigger] events[i]),
    ensures
        duel.after_all(events).player.lives <= duel.player.lives,
        duel.after_all(events).opponent.lives <= duel.opponent.lives,
        duel.after_all(events).game == duel.game,
    decreases events.len(),
{
    if events.len() > 0 {
        let earlier = events.drop_last();
        assert forall|i: int| 0 <= i < earlier.len() implies is_turn(#[trigger] earlier[i]) by {
            assert(earlier[i] == events[i]);
        }
        lemma_lives_never_grow_in_a_round(duel, earlier);
        assert(is_turn(events[events.len() - 1]));
    }
}

/// A tick of the match either leaves both life counters alone or, on a
/// ruling, sets both to the lives of a new round.
pub proof fn lemma_referee_keeps_or_resets(duel: Duel, start_pressed: bool)
    ensures
        ({
            let next = duel.after(Event::Referee { start_pressed });
            ||| (next.player.lives == duel.player.lives && next.opponent.lives
                == duel.opponent.lives && duel.player.lives > 0 && duel.opponent.lives > 0)
            ||| (next.player.lives == PLAYER_ROUND_LIVES && next.opponent.lives == OPPONENT_LIVES
                && next.game.state == MatchState::Menu && (duel.player.lives == 0
                || duel.opponent.lives == 0))
        }),
{
}

} // verus!
