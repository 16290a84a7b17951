use blackjack::card::{Card, Rank, Suit};
use blackjack::deck::{Deck, SINGLE_DECK_SIZE};

#[test]
fn new_shoe_holds_whole_decks_in_code_order() {
    assert_eq!(52, SINGLE_DECK_SIZE);
    for decks in [0usize, 1, 2, 6] {
        let shoe = Deck::new_shoe(decks);
        assert_eq!(52 * decks, shoe.cards_left());
        let stack = shoe.stack();
        assert_eq!(52 * decks, stack.len());
        for (i, card) in stack.iter().enumerate() {
            assert_eq!(Card::try_from((i % 52) as u8).unwrap(), *card);
        }
    }
}

#[test]
fn one_deck_has_every_card_once() {
    let stack = Deck::new_shoe(1).stack();
    assert_eq!(Card::new(Suit::Clubs, Rank::Ace), stack[0]);
    assert_eq!(Card::new(Suit::Diamonds, Rank::Ace), stack[1]);
    assert_eq!(Card::new(Suit::Clubs, Rank::Two), stack[4]);
    assert_eq!(Card::new(Suit::Spades, Rank::King), stack[51]);
    let mut sorted = stack.clone();
    sorted.sort();
    sorted.dedup();
    assert_eq!(52, sorted.len());
}

#[test]
fn draw_takes_the_last_card() {
    let mut shoe = Deck::new_shoe(1);
    assert_eq!(Some(Card::new(Suit::Spades, Rank::King)), shoe.draw());
    assert_eq!(51, shoe.cards_left());
    assert_eq!(Some(Card::new(Suit::Hearts, Rank::King)), shoe.draw());
    assert_eq!(50, shoe.cards_left());
    assert_eq!(Deck::new_shoe(1).stack()[..50], shoe.stack()[..]);
}

#[test]
fn draw_from_an_empty_shoe() {
    let mut shoe = Deck::new_shoe(1);
    for _ in 0..52 {
        assert!(shoe.draw().is_some());
    }
    assert_eq!(0, shoe.cards_left());
    assert_eq!(None, shoe.draw());
    assert_eq!(None, shoe.draw());
    assert_eq!(0, shoe.cards_left());

    let mut empty = Deck::new_shoe(0);
    assert_eq!(None, empty.draw());
}

#[test]
fn running_count_of_a_full_shoe_is_zero() {
    for decks in [0usize, 1, 4] {
        assert_eq!(0, Deck::new_shoe(decks).mega_true_count());
    }
}

#[test]
fn running_count_follows_the_cards_drawn() {
    let mut shoe = Deck::new_shoe(1);
    // the sixteen cards that count ten leave first
    for drawn in 1..=16 {
        shoe.draw().unwrap();
        assert_eq!(drawn, shoe.mega_true_count());
    }
    // nine, eight and seven weigh nothing
    for _ in 0..12 {
        shoe.draw().unwrap();
        assert_eq!(16, shoe.mega_true_count());
    }
    // six down to two are low cards
    for drawn in 1..=20 {
        shoe.draw().unwrap();
        assert_eq!(16 - drawn, shoe.mega_true_count());
    }
    // the four aces are left
    assert_eq!(4, shoe.cards_left());
    assert_eq!(-4, shoe.mega_true_count());
    for drawn in 1..=4 {
        shoe.draw().unwrap();
        assert_eq!(-4 + drawn, shoe.mega_true_count());
    }
}

#[test]
fn shuffle_keeps_the_cards() {
    let fresh = Deck::new_shoe(4);
    let mut shoe = fresh.clone();
    shoe.shuffle();
    assert_eq!(fresh.cards_left(), shoe.cards_left());
    let mut before = fresh.stack();
    let mut after = shoe.stack();
    before.sort();
    after.sort();
    assert_eq!(before, after);
    assert_eq!(fresh.mega_true_count(), shoe.mega_true_count());
}

#[test]
fn shuffle_changes_the_order() {
    let fresh = Deck::new_shoe(4);
    let mut shoe = fresh.clone();
    shoe.shuffle();
    assert_ne!(fresh, shoe);
    assert_ne!(fresh.stack(), shoe.stack());
}

#[test]
fn shuffle_of_nothing_and_of_one_card() {
    let mut empty = Deck::new_shoe(0);
    empty.shuffle();
    assert_eq!(0, empty.cards_left());

    let mut one = Deck::new_shoe(1);
    for _ in 0..51 {
        one.draw().unwrap();
    }
    one.shuffle();
    assert_eq!(vec![Card::new(Suit::Clubs, Rank::Ace)], one.stack());
}

#[test]
fn deck_clone_is_equal() {
    let mut shoe = Deck::new_shoe(2);
    shoe.draw().unwrap();
    let copy = shoe.clone();
    assert_eq!(shoe, copy);
    assert_eq!(shoe.stack(), copy.stack());
}
