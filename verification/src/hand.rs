//! A player's hand: its cards, its wager and where it stands in the round.

use vstd::prelude::*;
use crate::amount::Amount;
use crate::card::{Card, Rank};
use crate::rule::{RuleSet, RuleSetView};

verus! {

/// What a hand counts for. With an Ace in the hand the count is soft: `lower`
/// takes every Ace as 1 and `upper` takes one of them as 11.
#[derive(Debug, PartialEq, Eq, Structural, PartialOrd, Ord, Clone, Copy, Hash)]
pub enum HandValue {
    Hard(u64),
    Soft { lower: u64, upper: u64 },
}

/// Where a hand stands in the round.
///
/// `Fresh` is a hand as dealt and `Split` one that came out of a split; both
/// are still in play. The others are final: `SpltA` is a split Ace that may
/// draw no further, `Stand` has stood, `Busts` has gone over 21, `DDown` has
/// doubled down and `Srndr` has surrendered.
#[derive(Debug, PartialEq, Eq, Structural, PartialOrd, Ord, Clone, Copy, Hash)]
pub enum HandState {
    Fresh,
    Split,
    SpltA,
    Stand,
    Busts,
    DDown,
    Srndr,
}

/// Why a move on a hand was turned down.
#[derive(Debug, PartialEq, Eq, Structural, PartialOrd, Ord, Clone, Copy, Hash)]
pub enum HandError {
    /// The hand's state, its cards or the table's rules do not allow the move.
    IllegalTransition,
}

impl HandState {
    /// Whether play on a hand in this state is over.
    pub open spec fn is_terminal(self) -> bool {
        !(self is Fresh || self is Split)
    }
}

impl HandValue {
    /// The count with every Ace taken as 1: the one a bust is judged by.
    pub open spec fn lower_bound(self) -> nat {
        match self {
            HandValue::Hard(total) => total as nat,
            HandValue::Soft { lower, .. } => lower as nat,
        }
    }

    /// Whether `total` is one of the counts this value stands for.
    pub open spec fn counts_as(self, total: nat) -> bool {
        match self {
            HandValue::Hard(hard) => hard == total,
            HandValue::Soft { lower, upper } => lower == total || upper == total,
        }
    }
}

/// The sum of the cards' points, every Ace taken as 1.
pub open spec fn base_total(cards: Seq<Card>) -> nat
    decreases cards.len(),
{
    if cards.len() == 0 {
        0
    } else {
        base_total(cards.drop_last()) + cards.last().rank.spec_points()
    }
}

/// Whether one of the cards is an Ace.
pub open spec fn has_ace(cards: Seq<Card>) -> bool {
    exists|i: int| 0 <= i < cards.len() && #[trigger] cards[i].rank == Rank::Ace
}

/// Whether `value` is what `cards` count for: hard at the base total without
/// an Ace, soft at the base total and ten above it with one.
pub open spec fn is_value_of(value: HandValue, cards: Seq<Card>) -> bool {
    match value {
        HandValue::Hard(total) => !has_ace(cards) && total == base_total(cards),
        HandValue::Soft { lower, upper } => {
            &&& has_ace(cards)
            &&& lower == base_total(cards)
            &&& upper == base_total(cards) + 10
        },
    }
}

/// A hand as specifications see it.
pub struct HandView {
    pub cards: Seq<Card>,
    /// The wager, in ticks.
    pub bet: nat,
    pub state: HandState,
}

impl HandView {
    /// What every hand satisfies. It holds at least one card, and its counts
    /// and its wager fit in 64 bits. While it is in play it is not bust, and
    /// its wager is positive and can be both doubled and halved exactly.
    pub open spec fn well_formed(self) -> bool {
        &&& self.cards.len() >= 1
        &&& base_total(self.cards) + 10 <= u64::MAX
        &&& self.bet <= u64::MAX
        &&& !self.state.is_terminal() ==> {
            &&& base_total(self.cards) <= 21
            &&& self.bet > 0
            &&& self.bet % 2 == 0
            &&& 2 * self.bet <= u64::MAX
        }
    }

    /// The total a bust is judged by.
    pub open spec fn total(self) -> nat {
        base_total(self.cards)
    }

    /// Whether the hand has gone over 21, every Ace taken as 1.
    pub open spec fn is_bust(self) -> bool {
        self.total() > 21
    }

    /// Whether the hand counts 21, hard or on either side of a soft count.
    pub open spec fn is_21(self) -> bool {
        self.total() == 21 || (has_ace(self.cards) && self.total() == 11)
    }

    /// Whether the hand is two cards of one rank.
    pub open spec fn is_pair(self) -> bool {
        self.cards.len() == 2 && self.cards[0].rank == self.cards[1].rank
    }

    /// Whether the hand is a blackjack: two cards that count 21.
    pub open spec fn is_natural(self) -> bool {
        self.cards.len() == 2 && self.is_21()
    }

    /// A hand in play may always draw.
    pub open spec fn can_hit(self) -> bool {
        !self.state.is_terminal()
    }

    /// Drawing `card`: the card joins the hand, which is bust from then on if
    /// it has gone over 21 and stays in its state otherwise.
    pub open spec fn hit(self, card: Card) -> Result<HandView, HandError> {
        if self.can_hit() {
            let cards = self.cards.push(card);
            Ok(
                HandView {
                    cards,
                    bet: self.bet,
                    state: if base_total(cards) > 21 {
                        HandState::Busts
                    } else {
                        self.state
                    },
                },
            )
        } else {
            Err(HandError::IllegalTransition)
        }
    }

    /// A hand in play may always stand.
    pub open spec fn can_stand(self) -> bool {
        !self.state.is_terminal()
    }

    /// Standing: the hand is final as it is.
    pub open spec fn stand(self) -> Result<HandView, HandError> {
        if self.can_stand() {
            Ok(HandView { cards: self.cards, bet: self.bet, state: HandState::Stand })
        } else {
            Err(HandError::IllegalTransition)
        }
    }

    /// A hand in play may double down while it holds two cards and counts,
    /// on either side of a soft count, a total that the rules allow; one
    /// that came out of a split only where the rules let such a hand double.
    pub open spec fn can_double_down(self, rules: RuleSetView) -> bool {
        &&& !self.state.is_terminal()
        &&& self.cards.len() == 2
        &&& self.state is Split ==> rules.das
        &&& {
            ||| rules.allows_double_on(self.total())
            ||| has_ace(self.cards) && rules.allows_double_on(self.total() + 10)
        }
    }

    /// Doubling down: the wager doubles and the hand is final.
    pub open spec fn double_down(self, rules: RuleSetView) -> Result<HandView, HandError> {
        if self.can_double_down(rules) {
            Ok(HandView { cards: self.cards, bet: 2 * self.bet, state: HandState::DDown })
        } else {
            Err(HandError::IllegalTransition)
        }
    }

    /// A hand in play may be split while it is a pair and the player, who
    /// has `hands_in_play` hands, would not hold more than the rules allow.
    pub open spec fn can_split(self, rules: RuleSetView, hands_in_play: nat) -> bool {
        &&& !self.state.is_terminal()
        &&& self.is_pair()
        &&& hands_in_play < rules.max_hands
    }

    /// The state of both hands after a split: split Aces are final at once
    /// where the rules do not let them be played on.
    pub open spec fn state_after_split(self, rules: RuleSetView) -> HandState {
        if self.cards[0].rank == Rank::Ace && !rules.can_play_split_aces {
            HandState::SpltA
        } else {
            HandState::Split
        }
    }

    /// Splitting: this hand keeps its first card and takes `card1`, a second
    /// hand takes the other card and `card2`, and both carry the wager.
    pub open spec fn split(
        self,
        card1: Card,
        card2: Card,
        rules: RuleSetView,
        hands_in_play: nat,
    ) -> Result<(HandView, HandView), HandError> {
        if self.can_split(rules, hands_in_play) {
            let state = self.state_after_split(rules);
            Ok(
                (
                    HandView { cards: seq![self.cards[0], card1], bet: self.bet, state },
                    HandView { cards: seq![self.cards[1], card2], bet: self.bet, state },
                ),
            )
        } else {
            Err(HandError::IllegalTransition)
        }
    }

    /// A hand in play may surrender where the table offers it.
    pub open spec fn can_surrender(self, rules: RuleSetView) -> bool {
        !self.state.is_terminal() && rules.can_surrender()
    }

    /// Surrendering: half the wager is given up and the hand is final.
    pub open spec fn surrender(self, rules: RuleSetView) -> Result<HandView, HandError> {
        if self.can_surrender(rules) {
            Ok(HandView { cards: self.cards, bet: self.bet / 2, state: HandState::Srndr })
        } else {
            Err(HandError::IllegalTransition)
        }
    }
}

/// Whether a move that the model answers with `expected` took the hand from
/// `before` to `after` and reported `outcome`: a move that is allowed reports
/// `Ok` and leaves the hand as the model says, one that is not reports the
/// model's error and leaves the hand as it was.
pub open spec fn moved_as(
    before: HandView,
    after: HandView,
    outcome: Result<(), HandError>,
    expected: Result<HandView, HandError>,
) -> bool {
    match expected {
        Ok(next) => outcome is Ok && after == next,
        Err(fault) => outcome == Err::<(), HandError>(fault) && after == before,
    }
}

/// Adding a card adds its points.
pub proof fn lemma_base_total_push(cards: Seq<Card>, card: Card)
    ensures
        base_total(cards.push(card)) == base_total(cards) + card.rank.spec_points(),
{
    assert(cards.push(card).drop_last() =~= cards);
}

/// A card added to a hand brings an Ace exactly if it is one or the hand had one.
pub proof fn lemma_has_ace_push(cards: Seq<Card>, card: Card)
    ensures
        has_ace(cards.push(card)) <==> has_ace(cards) || card.rank == Rank::Ace,
{
    let more = cards.push(card);
    if has_ace(cards) {
        let i = choose|i: int| 0 <= i < cards.len() && #[trigger] cards[i].rank == Rank::Ace;
        assert(more[i].rank == Rank::Ace);
    }
    if card.rank == Rank::Ace {
        assert(more[cards.len() as int].rank == Rank::Ace);
    }
    if has_ace(more) {
        let i = choose|i: int| 0 <= i < more.len() && #[trigger] more[i].rank == Rank::Ace;
        if i < cards.len() {
            assert(cards[i].rank == Rank::Ace);
        }
    }
}

/// The first cards of a hand count no more than all of them.
pub proof fn lemma_base_total_prefix(cards: Seq<Card>, n: int)
    requires
        0 <= n <= cards.len(),
    ensures
        base_total(cards.take(n)) <= base_total(cards),
    decreases cards.len() - n,
{
    if n < cards.len() {
        lemma_base_total_prefix(cards, n + 1);
        assert(cards.take(n + 1) =~= cards.take(n).push(cards[n]));
        lemma_base_total_push(cards.take(n), cards[n]);
    } else {
        assert(cards.take(n) =~= cards);
    }
}

/// Two cards count the sum of their points.
pub proof fn lemma_total_of_two(first: Card, second: Card)
    ensures
        base_total(seq![first, second]) == first.rank.spec_points() + second.rank.spec_points(),
{
    assert(seq![first, second] =~= Seq::<Card>::empty().push(first).push(second));
    lemma_base_total_push(Seq::<Card>::empty(), first);
    lemma_base_total_push(Seq::<Card>::empty().push(first), second);
}

/// Cards count for one value only.
pub proof fn lemma_value_is_unique(cards: Seq<Card>, one: HandValue, other: HandValue)
    requires
        is_value_of(one, cards),
        is_value_of(other, cards),
    ensures
        one == other,
{
}

/// A move on a hand is carried out exactly where the test for that move,
/// `can_hit` and its like, says that it is allowed.
pub proof fn lemma_moves_match_legality(
    hand: HandView,
    rules: RuleSetView,
    hands_in_play: nat,
    card1: Card,
    card2: Card,
)
    ensures
        hand.can_hit() <==> hand.hit(card1) is Ok,
        hand.can_stand() <==> hand.stand() is Ok,
        hand.can_double_down(rules) <==> hand.double_down(rules) is Ok,
        hand.can_split(rules, hands_in_play) <==> hand.split(card1, card2, rules, hands_in_play)
            is Ok,
        hand.can_surrender(rules) <==> hand.surrender(rules) is Ok,
{
}

/// Once a hand is final no move on it is carried out, and none is allowed.
pub proof fn lemma_final_hand_stays(
    hand: HandView,
    rules: RuleSetView,
    hands_in_play: nat,
    card1: Card,
    card2: Card,
)
    requires
        hand.state.is_terminal(),
    ensures
        hand.hit(card1) is Err,
        hand.stand() is Err,
        hand.double_down(rules) is Err,
        hand.split(card1, card2, rules, hands_in_play) is Err,
        hand.surrender(rules) is Err,
        !hand.can_hit(),
        !hand.can_stand(),
        !hand.can_double_down(rules),
        !hand.can_split(rules, hands_in_play),
        !hand.can_surrender(rules),
{
}

/// Surrender halves the wager exactly, doubling down doubles it exactly, and
/// no other move changes it.
pub proof fn lemma_wager_after_move(
    hand: HandView,
    rules: RuleSetView,
    hands_in_play: nat,
    card1: Card,
    card2: Card,
)
    requires
        hand.well_formed(),
    ensures
        hand.surrender(rules) matches Ok(next) ==> 2 * next.bet == hand.bet,
        hand.double_down(rules) matches Ok(next) ==> next.bet == 2 * hand.bet,
        hand.hit(card1) matches Ok(next) ==> next.bet == hand.bet,
        hand.stand() matches Ok(next) ==> next.bet == hand.bet,
        hand.split(card1, card2, rules, hands_in_play) matches Ok((first, second)) ==> first.bet
            == hand.bet && second.bet == hand.bet,
{
}

/// The two hands of a split hold, between them, the pair and the two cards
/// drawn to it, and each carries the wager of the hand that was split.
pub proof fn lemma_split_keeps_cards_and_wager(
    hand: HandView,
    rules: RuleSetView,
    hands_in_play: nat,
    card1: Card,
    card2: Card,
)
    requires
        hand.can_split(rules, hands_in_play),
    ensures
        hand.split(card1, card2, rules, hands_in_play) matches Ok((first, second)) && {
            &&& first.cards.to_multiset().add(second.cards.to_multiset())
                == hand.cards.to_multiset().insert(card1).insert(card2)
            &&& first.bet == hand.bet
            &&& second.bet == hand.bet
        },
{
    broadcast use vstd::multiset::group_multiset_axioms;
    broadcast use vstd::multiset::group_multiset_properties;

    let none = Seq::<Card>::empty();
    let (kept, moved) = (hand.cards[0], hand.cards[1]);
    assert(hand.cards =~= none.push(kept).push(moved));
    assert(seq![kept, card1] =~= none.push(kept).push(card1));
    assert(seq![moved, card2] =~= none.push(moved).push(card2));
    vstd::seq_lib::to_multiset_len(none);
    vstd::multiset::lemma_multiset_empty_len(none.to_multiset());
    vstd::seq_lib::to_multiset_build(none, kept);
    vstd::seq_lib::to_multiset_build(none, moved);
    vstd::seq_lib::to_multiset_build(none.push(kept), moved);
    vstd::seq_lib::to_multiset_build(none.push(kept), card1);
    vstd::seq_lib::to_multiset_build(none.push(moved), card2);
    assert(seq![kept, card1].to_multiset().add(seq![moved, card2].to_multiset())
        =~= hand.cards.to_multiset().insert(card1).insert(card2));
}

/// A move that is carried out on a well-formed hand leaves well-formed hands.
pub proof fn lemma_moves_keep_well_formed(
    hand: HandView,
    rules: RuleSetView,
    hands_in_play: nat,
    card1: Card,
    card2: Card,
)
    requires
        hand.well_formed(),
    ensures
        hand.hit(card1) matches Ok(next) ==> next.well_formed(),
        hand.stand() matches Ok(next) ==> next.well_formed(),
        hand.double_down(rules) matches Ok(next) ==> next.well_formed(),
        hand.surrender(rules) matches Ok(next) ==> next.well_formed(),
        hand.split(card1, card2, rules, hands_in_play) matches Ok((first, second))
            ==> first.well_formed() && second.well_formed(),
{
    lemma_base_total_push(hand.cards, card1);
    if hand.can_split(rules, hands_in_play) {
        lemma_total_of_two(hand.cards[0], card1);
        lemma_total_of_two(hand.cards[1], card2);
    }
}

/// A hand of cards with its wager and its state. Every hand is well formed,
/// as [`HandView::well_formed`] says, from the moment it is made.
#[derive(Debug, PartialEq, PartialOrd)]
pub struct Hand {
    cards: Vec<Card>,
    bet: Amount,
    state: HandState,
}

impl View for Hand {
    type V = HandView;

    closed spec fn view(&self) -> HandView {
        HandView { cards: self.cards@, bet: self.bet.ticks as nat, state: self.state }
    }
}

impl Clone for Hand {
    fn clone(&self) -> (copy: Self)
        ensures
            copy@ == self@,
    {
        proof {
            use_type_invariant(self);
        }
        Self { cards: self.cards.clone(), bet: self.bet, state: self.state }
    }
}

impl Hand {
    #[verifier::type_invariant]
    spec fn holds_together(&self) -> bool {
        self@.well_formed()
    }

    /// A hand of these cards, with this wager, in this state. The three have
    /// to make a well-formed hand; [`Hand::try_new`] finds out whether they do.
    pub fn new(cards: Vec<Card>, bet: Amount, state: HandState) -> (hand: Self)
        requires
            (HandView { cards: cards@, bet: bet.ticks as nat, state }).well_formed(),
        ensures
            hand@ == (HandView { cards: cards@, bet: bet.ticks as nat, state }),
    {
        Self { cards, bet, state }
    }

    /// A hand of these cards, with this wager, in this state, where the three
    /// make a well-formed hand, and `None` where they do not.
    pub fn try_new(cards: Vec<Card>, bet: Amount, state: HandState) -> (made: Option<Self>)
        ensures
            ({
                let parts = HandView { cards: cards@, bet: bet.ticks as nat, state };
                match made {
                    Some(hand) => parts.well_formed() && hand@ == parts,
                    None => !parts.well_formed(),
                }
            }),
    {
        if cards.len() == 0 {
            return None;
        }
        let mut total: u64 = 0;
        let mut i: usize = 0;
        while i < cards.len()
            invariant
                i <= cards.len(),
                total == base_total(cards@.take(i as int)),
                total + 10 <= u64::MAX,
            decreases cards.len() - i,
        {
            let points = cards[i].rank().points();
            proof {
                assert(cards@.take(i + 1) =~= cards@.take(i as int).push(cards@[i as int]));
                lemma_base_total_push(cards@.take(i as int), cards@[i as int]);
                lemma_base_total_prefix(cards@, i + 1);
            }
            if total > u64::MAX - 10 - points {
                return None;
            }
            total += points;
            i += 1;
        }
        proof {
            assert(cards@.take(i as int) =~= cards@);
        }
        let live = match state {
            HandState::Fresh | HandState::Split => true,
            _ => false,
        };
        if live && (total > 21 || bet.ticks() == 0 || bet.ticks() % 2 != 0 || bet.ticks()
            > u64::MAX / 2) {
            return None;
        }
        Some(Self { cards, bet, state })
    }

    /// A copy of the cards, in the order in which they came.
    pub fn cards(&self) -> (cards: Vec<Card>)
        ensures
            cards@ == self@.cards,
            self@.well_formed(),
    {
        proof {
            use_type_invariant(self);
        }
        self.cards.clone()
    }

    /// The wager that stands on the hand.
    pub fn bet(&self) -> (bet: Amount)
        ensures
            bet.ticks == self@.bet,
            self@.well_formed(),
    {
        proof {
            use_type_invariant(self);
        }
        self.bet
    }

    /// Where the hand stands in the round.
    pub fn state(&self) -> (state: HandState)
        ensures
            state == self@.state,
            self@.well_formed(),
    {
        proof {
            use_type_invariant(self);
        }
        self.state
    }

    /// Whether play on this hand is over.
    pub fn is_terminal(&self) -> (terminal: bool)
        ensures
            terminal == self@.state.is_terminal(),
    {
        match self.state {
            HandState::Fresh => false,
            HandState::Split => false,
            HandState::SpltA => true,
            HandState::Stand => true,
            HandState::Busts => true,
            HandState::DDown => true,
            HandState::Srndr => true,
        }
    }

    /// Whether the hand holds no Ace.
    pub fn is_hard(&self) -> (hard: bool)
        ensures
            hard == !has_ace(self@.cards),
    {
        let mut i: usize = 0;
        while i < self.cards.len()
            invariant
                i <= self.cards.len(),
                !has_ace(self.cards@.take(i as int)),
            decreases self.cards.len() - i,
        {
            if self.cards[i].rank() == Rank::Ace {
                return false;
            }
            proof {
                let seen = self.cards@.take(i as int);
                assert(self.cards@.take(i + 1) =~= seen.push(self.cards@[i as int]));
                lemma_has_ace_push(seen, self.cards@[i as int]);
            }
            i += 1;
        }
        proof {
            assert(self.cards@.take(i as int) =~= self.cards@);
        }
        true
    }

    /// What the hand counts for.
    pub fn value(&self) -> (value: HandValue)
        ensures
            is_value_of(value, self@.cards),
            self@.well_formed(),
    {
        proof {
            use_type_invariant(self);
        }
        let mut total: u64 = 0;
        let mut i: usize = 0;
        while i < self.cards.len()
            invariant
                i <= self.cards.len(),
                total == base_total(self.cards@.take(i as int)),
                base_total(self.cards@) + 10 <= u64::MAX,
            decreases self.cards.len() - i,
        {
            proof {
                let seen = self.cards@.take(i as int);
                assert(self.cards@.take(i + 1) =~= seen.push(self.cards@[i as int]));
                lemma_base_total_push(seen, self.cards@[i as int]);
                lemma_base_total_prefix(self.cards@, i + 1);
            }
            total += self.cards[i].rank().points();
            i += 1;
        }
        proof {
            assert(self.cards@.take(i as int) =~= self.cards@);
        }
        if self.is_hard() {
            HandValue::Hard(total)
        } else {
            HandValue::Soft { lower: total, upper: total + 10 }
        }
    }

    /// Whether the hand has gone over 21, every Ace taken as 1.
    pub fn is_bust(&self) -> (bust: bool)
        ensures
            bust == self@.is_bust(),
            forall|value: HandValue|
                is_value_of(value, self@.cards) ==> (bust <==> value.lower_bound() > 21),
    {
        match self.value() {
            HandValue::Hard(total) => total > 21,
            HandValue::Soft { lower, .. } => lower > 21,
        }
    }

    /// Whether the hand counts 21, hard or on either side of a soft count.
    pub fn is_21(&self) -> (yes: bool)
        ensures
            yes == self@.is_21(),
            forall|value: HandValue|
                is_value_of(value, self@.cards) ==> (yes <==> value.counts_as(21)),
    {
        match self.value() {
            HandValue::Hard(total) => total == 21,
            HandValue::Soft { lower, upper } => lower == 21 || upper == 21,
        }
    }

    /// Whether the hand is two cards of one rank, whatever their suits.
    pub fn is_pair(&self) -> (yes: bool)
        ensures
            yes == self@.is_pair(),
    {
        self.cards.len() == 2 && self.cards[0].rank() == self.cards[1].rank()
    }

    /// Whether the hand is a blackjack: two cards that count 21.
    pub fn is_natural(&self) -> (yes: bool)
        ensures
            yes == self@.is_natural(),
    {
        self.cards.len() == 2 && self.is_21()
    }

    /// Whether the hand may draw: it may while it is in play.
    pub fn can_hit(&self) -> (allowed: bool)
        ensures
            allowed == self@.can_hit(),
    {
        !self.is_terminal()
    }

    /// Draws `added_card`, where the hand may draw. The hand is bust from
    /// then on if the card takes it over 21. Where it may not draw, the move
    /// is refused and the hand stays as it is.
    pub fn hit(&mut self, added_card: Card) -> (outcome: Result<(), HandError>)
        ensures
            moved_as(old(self)@, final(self)@, outcome, old(self)@.hit(added_card)),
            old(self)@.well_formed(),
            final(self)@.well_formed(),
    {
        proof {
            use_type_invariant(&*self);
        }
        if !self.can_hit() {
            return Err(HandError::IllegalTransition);
        }
        let total = match self.value() {
            HandValue::Hard(total) => total,
            HandValue::Soft { lower, .. } => lower,
        };
        let mut cards = self.cards.clone();
        cards.push(added_card);
        proof {
            lemma_base_total_push(self.cards@, added_card);
        }
        if total + added_card.rank().points() > 21 {
            self.state = HandState::Busts;
        }
        self.cards = cards;
        Ok(())
    }

    /// Whether the hand may stand: it may while it is in play.
    pub fn can_stand(&self) -> (allowed: bool)
        ensures
            allowed == self@.can_stand(),
    {
        !self.is_terminal()
    }

    /// Stands, where the hand may stand. Where it may not, the move is
    /// refused and the hand stays as it is.
    pub fn stand(&mut self) -> (outcome: Result<(), HandError>)
        ensures
            moved_as(old(self)@, final(self)@, outcome, old(self)@.stand()),
            old(self)@.well_formed(),
            final(self)@.well_formed(),
    {
        proof {
            use_type_invariant(&*self);
        }
        if !self.can_stand() {
            return Err(HandError::IllegalTransition);
        }
        self.state = HandState::Stand;
        Ok(())
    }

    /// Whether the hand may double down under `rules`: it has to be in play
    /// and hold two cards that count, on either side of a soft count, a total
    /// that the rules allow, and a hand that came out of a split may double
    /// only where the rules say so.
    pub fn can_double_down(&self, rules: &RuleSet) -> (allowed: bool)
        ensures
            allowed == self@.can_double_down(rules@),
    {
        if self.is_terminal() {
            return false;
        }
        if self.cards.len() != 2 {
            return false;
        }
        if self.state == HandState::Split && !rules.das() {
            return false;
        }
        match self.value() {
            HandValue::Hard(total) => rules.allows_double_on(total),
            HandValue::Soft { lower, upper } => {
                rules.allows_double_on(lower) || rules.allows_double_on(upper)
            },
        }
    }

    /// Doubles down, where `rules` allow it on this hand: the wager doubles
    /// and the hand is final. Where they do not, the move is refused and the
    /// hand stays as it is.
    pub fn double_down(&mut self, rules: &RuleSet) -> (outcome: Result<(), HandError>)
        ensures
            moved_as(old(self)@, final(self)@, outcome, old(self)@.double_down(rules@)),
            outcome is Ok ==> final(self)@.bet == 2 * old(self)@.bet,
            old(self)@.well_formed(),
            final(self)@.well_formed(),
    {
        proof {
            use_type_invariant(&*self);
        }
        if !self.can_double_down(rules) {
            return Err(HandError::IllegalTransition);
        }
        self.state = HandState::DDown;
        self.bet = Amount::from_ticks(self.bet.ticks() * 2);
        Ok(())
    }

    /// Whether the hand may be split under `rules` by a player who has
    /// `hands_in_play` hands: it has to be in play and a pair, and the player
    /// has to hold fewer hands than the rules allow at most.
    pub fn can_split(&self, rules: &RuleSet, hands_in_play: usize) -> (allowed: bool)
        ensures
            allowed == self@.can_split(rules@, hands_in_play as nat),
    {
        !self.is_terminal() && self.is_pair() && (hands_in_play as u64) < rules.max_hands()
    }

    /// Splits the pair, where `rules` allow it to a player who has
    /// `hands_in_play` hands: this hand keeps its first card and takes
    /// `card1`, and the hand that is returned holds the other card and
    /// `card2`. Both carry the wager and are hands out of a split; split Aces
    /// are final at once where the rules do not let them be played on. Where
    /// the split is not allowed, it is refused and the hand stays as it is.
    pub fn split(
        &mut self,
        card1: Card,
        card2: Card,
        rules: &RuleSet,
        hands_in_play: usize,
    ) -> (outcome: Result<Self, HandError>)
        ensures
            match old(self)@.split(card1, card2, rules@, hands_in_play as nat) {
                Ok((first, second)) => {
                    &&& final(self)@ == first
                    &&& outcome matches Ok(other)
                    &&& other@ == second
                },
                Err(fault) => {
                    &&& outcome == Err::<Self, HandError>(fault)
                    &&& final(self)@ == old(self)@
                },
            },
            old(self)@.well_formed(),
            final(self)@.well_formed(),
            outcome matches Ok(other) ==> other@.well_formed(),
    {
        proof {
            use_type_invariant(&*self);
        }
        if !self.can_split(rules, hands_in_play) {
            return Err(HandError::IllegalTransition);
        }
        let first = self.cards[0];
        let second = self.cards[1];
        let state = if first.rank() == Rank::Ace && !rules.can_play_slit_aces() {
            HandState::SpltA
        } else {
            HandState::Split
        };
        let mut cards1: Vec<Card> = Vec::new();
        cards1.push(first);
        cards1.push(card1);
        let mut cards2: Vec<Card> = Vec::new();
        cards2.push(second);
        cards2.push(card2);
        proof {
            lemma_total_of_two(first, card1);
            lemma_total_of_two(second, card2);
            assert(cards1@ =~= seq![first, card1]);
            assert(cards2@ =~= seq![second, card2]);
        }
        self.state = state;
        self.cards = cards1;
        Ok(Self { cards: cards2, bet: self.bet, state })
    }

    /// Whether the hand may surrender under `rules`: it has to be in play,
    /// and the table has to offer surrender.
    pub fn can_surrender(&self, rules: &RuleSet) -> (allowed: bool)
        ensures
            allowed == self@.can_surrender(rules@),
    {
        !self.is_terminal() && rules.can_surrender()
    }

    /// Surrenders, where `rules` allow it on this hand: half the wager is
    /// given up and the hand is final. Where they do not, the move is refused
    /// and the hand stays as it is.
    pub fn surrender(&mut self, rules: &RuleSet) -> (outcome: Result<(), HandError>)
        ensures
            moved_as(old(self)@, final(self)@, outcome, old(self)@.surrender(rules@)),
            outcome is Ok ==> 2 * final(self)@.bet == old(self)@.bet,
            old(self)@.well_formed(),
            final(self)@.well_formed(),
    {
        proof {
            use_type_invariant(&*self);
        }
        if !self.can_surrender(rules) {
            return Err(HandError::IllegalTransition);
        }
        self.state = HandState::Srndr;
        self.bet = Amount::from_ticks(self.bet.ticks() / 2);
        Ok(())
    }
}

} // verus!
