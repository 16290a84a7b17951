//! The shoe that the table deals from.

use rand::seq::SliceRandom;
use vstd::prelude::*;
use crate::card::{card_of_code, Card, Rank};

verus! {

/// How many cards one deck holds.
pub const SINGLE_DECK_SIZE: usize = 52;

/// A stack of cards. Cards are drawn from its end. A stack never holds more
/// cards than `i64::MAX`, so that its running count can be told.
#[derive(Debug, PartialEq, Eq, PartialOrd, Ord, Hash)]
pub struct Deck {
    stack: Vec<Card>,
}

/// What a card adds to the running count: a low card, Two to Six, adds one,
/// an Ace or a card that counts ten takes one away, and Seven to Nine leave
/// it as it is.
pub open spec fn count_weight(rank: Rank) -> int {
    match rank {
        Rank::Two | Rank::Three | Rank::Four | Rank::Five | Rank::Six => 1,
        Rank::Seven | Rank::Eight | Rank::Nine => 0,
        Rank::Ace | Rank::Ten | Rank::Jack | Rank::Queen | Rank::King => -1,
    }
}

/// The sum of the cards' weights.
pub open spec fn running_count(cards: Seq<Card>) -> int
    decreases cards.len(),
{
    if cards.len() == 0 {
        0
    } else {
        running_count(cards.drop_last()) + count_weight(cards.last().rank)
    }
}

/// The cards of `decks` decks as they come out of the box: deck after deck,
/// each in the order of the card codes.
pub open spec fn boxed_order(decks: nat) -> Seq<Card> {
    Seq::new(SINGLE_DECK_SIZE as nat * decks, |i: int| card_of_code(i % 52))
}

/// The running count of a stack is no more than its size, either way.
pub proof fn lemma_running_count_bounds(cards: Seq<Card>)
    ensures
        -cards.len() <= running_count(cards) <= cards.len(),
    decreases cards.len(),
{
    if cards.len() > 0 {
        lemma_running_count_bounds(cards.drop_last());
    }
}

/// Shuffles `cards` with `rand::seq::SliceRandom::shuffle`, drawing on the
/// generator that `rand::thread_rng` hands out.
///
/// Taken on trust: the shuffle only swaps cards of the slice with one
/// another, so the vector holds the same cards afterwards, each as often as
/// before. Nothing is said of their order, which is left to chance. The
/// generator is seeded by the system and gives up where the system has no
/// randomness to offer.
#[verifier::external_body]
fn shuffle_cards(cards: &mut Vec<Card>)
    ensures
        final(cards)@.to_multiset() == old(cards)@.to_multiset(),
{
    cards.shuffle(&mut rand::thread_rng());
}

impl View for Deck {
    type V = Seq<Card>;

    closed spec fn view(&self) -> Seq<Card> {
        self.stack@
    }
}

impl Clone for Deck {
    fn clone(&self) -> (copy: Self)
        ensures
            copy@ == self@,
    {
        proof {
            use_type_invariant(self);
        }
        Self { stack: self.stack.clone() }
    }
}

impl Deck {
    /// The running count of the stack has to fit in 64 bits.
    #[verifier::type_invariant]
    spec fn countable(&self) -> bool {
        self.stack@.len() <= i64::MAX
    }

    /// A shoe of `decks` decks, in the order in which they come out of the box.
    pub fn new_shoe(decks: usize) -> (shoe: Self)
        requires
            SINGLE_DECK_SIZE * decks <= usize::MAX,
            SINGLE_DECK_SIZE * decks <= i64::MAX,
        ensures
            shoe@ == boxed_order(decks as nat),
    {
        let size = SINGLE_DECK_SIZE * decks;
        let mut stack: Vec<Card> = Vec::new();
        let mut i: usize = 0;
        while i < size
            invariant
                i <= size,
                size == SINGLE_DECK_SIZE * decks,
                stack@.len() == i,
                forall|j: int| 0 <= j < i ==> #[trigger] stack@[j] == card_of_code(j % 52),
            decreases size - i,
        {
            let code = (i % SINGLE_DECK_SIZE) as u8;
            stack.push(Card::try_from(code).unwrap());
            i += 1;
        }
        assert(stack@ =~= boxed_order(decks as nat));
        Self { stack }
    }

    /// A copy of the stack, the card that is drawn next at its end.
    pub fn stack(&self) -> (stack: Vec<Card>)
        ensures
            stack@ == self@,
    {
        self.stack.clone()
    }

    /// Takes the last card off the stack; `None` where the stack is empty.
    pub fn draw(&mut self) -> (drawn: Option<Card>)
        ensures
            match drawn {
                Some(card) => {
                    &&& old(self)@.len() > 0
                    &&& card == old(self)@.last()
                    &&& final(self)@ == old(self)@.drop_last()
                },
                None => old(self)@.len() == 0 && final(self)@ == old(self)@,
            },
    {
        proof {
            use_type_invariant(&*self);
        }
        let mut stack: Vec<Card> = Vec::new();
        core::mem::swap(&mut self.stack, &mut stack);
        let drawn = stack.pop();
        self.stack = stack;
        drawn
    }

    /// How many cards are left in the stack.
    pub fn cards_left(&self) -> (left: usize)
        ensures
            left == self@.len(),
            left <= i64::MAX,
    {
        proof {
            use_type_invariant(self);
        }
        self.stack.len()
    }

    /// The running count of the cards that are still in the stack.
    pub fn mega_true_count(&self) -> (count: i64)
        ensures
            count == running_count(self@),
    {
        proof {
            use_type_invariant(self);
        }
        let mut count: i64 = 0;
        let mut i: usize = 0;
        while i < self.stack.len()
            invariant
                i <= self.stack.len(),
                self.stack@.len() <= i64::MAX,
                count == running_count(self.stack@.take(i as int)),
            decreases self.stack.len() - i,
        {
            proof {
                assert(self.stack@.take(i + 1).drop_last() =~= self.stack@.take(i as int));
                lemma_running_count_bounds(self.stack@.take(i as int));
            }
            match self.stack[i].rank() {
                Rank::Ace => count += -1,
                Rank::Two => count += 1,
                Rank::Three => count += 1,
                Rank::Four => count += 1,
                Rank::Five => count += 1,
                Rank::Six => count += 1,
                Rank::Ten => count += -1,
                Rank::Jack => count += -1,
                Rank::Queen => count += -1,
                Rank::King => count += -1,
                _ => {},
            }
            i += 1;
        }
        proof {
            assert(self.stack@.take(i as int) =~= self.stack@);
        }
        count
    }

    /// Shuffles the stack: it holds the same cards afterwards, in an order
    /// that is left to chance.
    pub fn shuffle(&mut self)
        ensures
            final(self)@.to_multiset() == old(self)@.to_multiset(),
            final(self)@.len() == old(self)@.len(),
    {
        proof {
            use_type_invariant(&*self);
        }
        let mut stack: Vec<Card> = Vec::new();
        core::mem::swap(&mut self.stack, &mut stack);
        shuffle_cards(&mut stack);
        proof {
            vstd::seq_lib::to_multiset_len(stack@);
            vstd::seq_lib::to_multiset_len(old(self)@);
        }
        self.stack = stack;
    }
}

} // verus!
