//! The rules engine of a blackjack table.
//!
//! [`card`] holds the cards and [`deck`] the shoe they are dealt from.
//! [`rule`] holds the table's rules, which are checked once, when a rule set
//! is made. [`hand`] is the heart of the crate: a hand's cards, wager and
//! state, what the hand counts for, and the moves that the rules allow on
//! it. [`play`] puts hands, funds and rules together into a player, and
//! [`amount`] holds the exact amounts that wagers and funds are counted in.
//!
//! Every type with something to hide has a view, and the contracts are stated
//! over the views: [`hand::HandView`] says what each move does to a hand, and
//! the functions of [`hand::Hand`] are proved to do just that.

pub mod amount;
pub mod card;
pub mod deck;
pub mod hand;
pub mod play;
pub mod rule;
