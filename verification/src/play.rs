//! A player at the table: the hands in front of them, their funds, and the
//! moves on a hand as the table's rules allow them to this player.

use vstd::prelude::*;
use crate::amount::Amount;
use crate::card::Card;
use crate::hand::{Hand, HandError, HandView};
use crate::rule::{RuleSet, RuleSetView};

verus! {

/// What a player may ask for on a hand. A split and a double-down name the
/// wager that the player puts up for it, which has to match the hand's.
#[derive(Debug, PartialEq, Eq, Structural, PartialOrd, Ord, Clone, Copy, Hash)]
pub enum Action {
    Hit,
    Stand,
    Split { second_bet: Amount },
    DoubleDown { added_bet: Amount },
    Surrender,
}

/// A player as specifications see it.
pub struct PlayerView {
    pub hands: Seq<HandView>,
    /// The player's funds, in ticks.
    pub funds: nat,
    pub rules: RuleSetView,
}

/// A player: their hands, their funds and the rules they play under.
#[derive(Debug, PartialEq, PartialOrd)]
pub struct Player {
    hands: Vec<Hand>,
    funds: Amount,
    rules: RuleSet,
}

/// The hands as specifications see them.
pub open spec fn hand_views(hands: Seq<Hand>) -> Seq<HandView> {
    hands.map_values(|hand: Hand| hand@)
}

impl View for Player {
    type V = PlayerView;

    closed spec fn view(&self) -> PlayerView {
        PlayerView {
            hands: hand_views(self.hands@),
            funds: self.funds.ticks as nat,
            rules: self.rules@,
        }
    }
}

impl PlayerView {
    /// Whether this player may split `hand`: the table's rules have to allow
    /// it to someone with as many hands as the player has.
    pub open spec fn can_split_hand(self, hand: HandView) -> bool {
        hand.can_split(self.rules, self.hands.len())
    }
}

impl Clone for Player {
    fn clone(&self) -> (copy: Self)
        ensures
            copy@ == self@,
    {
        Self { hands: self.hands(), funds: self.funds, rules: self.rules.clone() }
    }
}

impl Player {
    /// A player with these hands and funds, who plays under `rules`.
    pub fn new(hands: Vec<Hand>, funds: Amount, rules: RuleSet) -> (player: Self)
        ensures
            player@ == (PlayerView {
                hands: hand_views(hands@),
                funds: funds.ticks as nat,
                rules: rules@,
            }),
    {
        Self { hands, funds, rules }
    }

    /// A copy of the player's hands, in their order.
    pub fn hands(&self) -> (hands: Vec<Hand>)
        ensures
            hand_views(hands@) == self@.hands,
    {
        let hands = self.hands.clone();
        assert(hand_views(hands@) =~= hand_views(self.hands@));
        hands
    }

    /// What the player has left to bet.
    pub fn funds(&self) -> (funds: Amount)
        ensures
            funds.ticks == self@.funds,
    {
        self.funds
    }

    /// A copy of the rules that the player plays under.
    pub fn rules(&self) -> (rules: RuleSet)
        ensures
            rules@ == self@.rules,
    {
        self.rules.clone()
    }

    /// Whether `hand` may draw.
    pub fn can_hit_hand(hand: &Hand) -> (allowed: bool)
        ensures
            allowed == hand@.can_hit(),
    {
        hand.can_hit()
    }

    /// `hand` after it has drawn `added_card`, where it may draw.
    pub fn hit(hand: Hand, added_card: Card) -> (outcome: Result<Hand, HandError>)
        ensures
            match hand@.hit(added_card) {
                Ok(next) => outcome matches Ok(after) && after@ == next,
                Err(fault) => outcome == Err::<Hand, HandError>(fault),
            },
    {
        let mut hand = hand;
        match hand.hit(added_card) {
            Ok(()) => Ok(hand),
            Err(fault) => Err(fault),
        }
    }

    /// Whether `hand` may stand.
    pub fn can_stand_hand(hand: &Hand) -> (allowed: bool)
        ensures
            allowed == hand@.can_stand(),
    {
        hand.can_stand()
    }

    /// `hand` after it has stood, where it may stand.
    pub fn stand(hand: Hand) -> (outcome: Result<Hand, HandError>)
        ensures
            match hand@.stand() {
                Ok(next) => outcome matches Ok(after) && after@ == next,
                Err(fault) => outcome == Err::<Hand, HandError>(fault),
            },
    {
        let mut hand = hand;
        match hand.stand() {
            Ok(()) => Ok(hand),
            Err(fault) => Err(fault),
        }
    }

    /// Whether this player may split `hand`: the rules have to allow it to
    /// someone who holds as many hands as the player does.
    pub fn can_split_hand(&self, hand: &Hand) -> (allowed: bool)
        ensures
            allowed == self@.can_split_hand(hand@),
    {
        hand.can_split(&self.rules, self.hands.len())
    }

    /// The two hands that `hand` splits into, where this player may split it
    /// and puts up `second_bet`, the hand's own wager, for the second.
    pub fn split(&self, hand: Hand, second_bet: Amount, card1: Card, card2: Card) -> (outcome:
        Result<[Hand; 2], HandError>)
        ensures
            match hand@.split(card1, card2, self@.rules, self@.hands.len()) {
                Ok((first, second)) if second_bet.ticks == hand@.bet => {
                    &&& outcome matches Ok(hands)
                    &&& hands[0]@ == first
                    &&& hands[1]@ == second
                },
                _ => outcome == Err::<[Hand; 2], HandError>(HandError::IllegalTransition),
            },
    {
        if hand.bet().ticks() != second_bet.ticks() {
            return Err(HandError::IllegalTransition);
        }
        let mut hand = hand;
        match hand.split(card1, card2, &self.rules, self.hands.len()) {
            Ok(other) => Ok([hand, other]),
            Err(fault) => Err(fault),
        }
    }

    /// Whether `hand` may surrender under the player's rules.
    pub fn can_surrender_hand(&self, hand: &Hand) -> (allowed: bool)
        ensures
            allowed == hand@.can_surrender(self@.rules),
    {
        hand.can_surrender(&self.rules)
    }

    /// `hand` after it has surrendered, where the player's rules allow it.
    pub fn surrender(&self, hand: Hand) -> (outcome: Result<Hand, HandError>)
        ensures
            match hand@.surrender(self@.rules) {
                Ok(next) => outcome matches Ok(after) && after@ == next,
                Err(fault) => outcome == Err::<Hand, HandError>(fault),
            },
    {
        let mut hand = hand;
        match hand.surrender(&self.rules) {
            Ok(()) => Ok(hand),
            Err(fault) => Err(fault),
        }
    }

    /// Whether `hand` may double down under the player's rules.
    pub fn can_double_down_hand(&self, hand: &Hand) -> (allowed: bool)
        ensures
            allowed == hand@.can_double_down(self@.rules),
    {
        hand.can_double_down(&self.rules)
    }

    /// `hand` after it has doubled down, where the player's rules allow it
    /// and the player adds `added_bet`, the hand's own wager, to it.
    pub fn double_down_hand(&self, hand: Hand, added_bet: Amount) -> (outcome: Result<
        Hand,
        HandError,
    >)
        ensures
            match hand@.double_down(self@.rules) {
                Ok(next) if added_bet.ticks == hand@.bet => {
                    &&& outcome matches Ok(after)
                    &&& after@ == next
                    &&& after@.bet == hand@.bet + added_bet.ticks
                },
                _ => outcome == Err::<Hand, HandError>(HandError::IllegalTransition),
            },
    {
        if hand.bet().ticks() != added_bet.ticks() {
            return Err(HandError::IllegalTransition);
        }
        let mut hand = hand;
        match hand.double_down(&self.rules) {
            Ok(()) => Ok(hand),
            Err(fault) => Err(fault),
        }
    }

    /// Asks `ai` what to do on each of the player's hands, in their order,
    /// and pairs each hand with the answer.
    pub fn gen_actions_for_hands<F: Fn(&Hand) -> Action>(&self, ai: F) -> (asked: Vec<
        (Hand, Action),
    >)
        requires
            forall|hand: &Hand| call_requires(ai, (hand,)),
        ensures
            asked@.len() == self@.hands.len(),
            forall|i: int|
                0 <= i < asked@.len() ==> {
                    &&& (#[trigger] asked@[i]).0@ == self@.hands[i]
                    &&& exists|hand: &Hand|
                        hand@ == self@.hands[i] && call_ensures(ai, (hand,), asked@[i].1)
                },
    {
        let mut asked: Vec<(Hand, Action)> = Vec::new();
        let mut i: usize = 0;
        while i < self.hands.len()
            invariant
                i <= self.hands.len(),
                asked@.len() == i,
                forall|hand: &Hand| call_requires(ai, (hand,)),
                forall|j: int|
                    0 <= j < i ==> {
                        &&& (#[trigger] asked@[j]).0@ == self.hands@[j]@
                        &&& call_ensures(ai, (&self.hands@[j],), asked@[j].1)
                    },
            decreases self.hands.len() - i,
        {
            let action = ai(&self.hands[i]);
            asked.push((self.hands[i].clone(), action));
            i += 1;
        }
        asked
    }
}

} // verus!
