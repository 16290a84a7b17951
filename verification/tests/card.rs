use blackjack::card::{Card, CardError, Rank, Suit};

#[test]
fn parse_suit_from_u8() {
    assert_eq!(Ok(Suit::Clubs), Suit::try_from(0u8));
    assert_eq!(Ok(Suit::Diamonds), Suit::try_from(1u8));
    assert_eq!(Ok(Suit::Hearts), Suit::try_from(2u8));
    assert_eq!(Ok(Suit::Spades), Suit::try_from(3u8));

    assert_eq!(Err(CardError::ParseSuitError), Suit::try_from(4u8));
}

#[test]
fn parse_rank_from_u8() {
    assert_eq!(Ok(Rank::Ace), Rank::try_from(0u8));
    assert_eq!(Ok(Rank::Two), Rank::try_from(1u8));
    assert_eq!(Ok(Rank::Three), Rank::try_from(2u8));
    assert_eq!(Ok(Rank::Four), Rank::try_from(3u8));
    assert_eq!(Ok(Rank::Five), Rank::try_from(4u8));
    assert_eq!(Ok(Rank::Six), Rank::try_from(5u8));
    assert_eq!(Ok(Rank::Seven), Rank::try_from(6u8));
    assert_eq!(Ok(Rank::Eight), Rank::try_from(7u8));
    assert_eq!(Ok(Rank::Nine), Rank::try_from(8u8));
    assert_eq!(Ok(Rank::Ten), Rank::try_from(9u8));
    assert_eq!(Ok(Rank::Jack), Rank::try_from(10u8));
    assert_eq!(Ok(Rank::Queen), Rank::try_from(11u8));
    assert_eq!(Ok(Rank::King), Rank::try_from(12u8));

    assert_eq!(Err(CardError::ParseRankError), Rank::try_from(13u8))
}

#[test]
fn basic_card_methods() {
    let ace_of_spades: Card = Card::new(Suit::Spades, Rank::Ace);

    assert_eq!(Suit::Spades, ace_of_spades.suit());
    assert_eq!(Rank::Ace, ace_of_spades.rank());
}

#[test]
fn parse_card_from_u8() {
    let king_of_spades: Card = Card::new(Suit::Spades, Rank::King);
    assert_eq!(Ok(king_of_spades), Card::try_from(0b0011_0011));

    // a suit code is two bits wide, so no card code ever fails on its suit

    assert_eq!(Err(CardError::ParseRankError), Card::try_from(0b0011_0100));

    assert_eq!(Err(CardError::ParseCardError), Card::try_from(0b1100_0000));
}

#[test]
fn every_code_below_52_is_a_card() {
    for code in 0u8..52 {
        let card = Card::try_from(code).unwrap();
        assert_eq!(Suit::try_from(code % 4).unwrap(), card.suit());
        assert_eq!(Rank::try_from(code / 4).unwrap(), card.rank());
    }
}

#[test]
fn codes_from_52_up_are_refused() {
    for code in 52u8..64 {
        assert_eq!(Err(CardError::ParseRankError), Card::try_from(code));
    }
    for code in 64u8..=255 {
        assert_eq!(Err(CardError::ParseCardError), Card::try_from(code));
    }
}

#[test]
fn cards_compare_by_suit_and_rank() {
    let one = Card::new(Suit::Hearts, Rank::Nine);
    let same = Card::new(Suit::Hearts, Rank::Nine);
    assert_eq!(one, same);
    assert_ne!(one, Card::new(Suit::Clubs, Rank::Nine));
    assert_ne!(one, Card::new(Suit::Hearts, Rank::Ten));
}

#[test]
fn rank_points() {
    assert_eq!(1, Rank::Ace.points());
    assert_eq!(2, Rank::Two.points());
    assert_eq!(3, Rank::Three.points());
    assert_eq!(4, Rank::Four.points());
    assert_eq!(5, Rank::Five.points());
    assert_eq!(6, Rank::Six.points());
    assert_eq!(7, Rank::Seven.points());
    assert_eq!(8, Rank::Eight.points());
    assert_eq!(9, Rank::Nine.points());
    assert_eq!(10, Rank::Ten.points());
    assert_eq!(10, Rank::Jack.points());
    assert_eq!(10, Rank::Queen.points());
    assert_eq!(10, Rank::King.points());
}

#[test]
fn cards_written_out() {
    assert_eq!("♣", Suit::Clubs.symbol());
    assert_eq!("♦", Suit::Diamonds.symbol());
    assert_eq!("♥", Suit::Hearts.symbol());
    assert_eq!("♠", Suit::Spades.symbol());
    assert_eq!("A", Rank::Ace.symbol());
    assert_eq!("T", Rank::Ten.symbol());
    assert_eq!("K", Rank::King.symbol());
    assert_eq!("♠A", Card::new(Suit::Spades, Rank::Ace).label());
    assert_eq!("♥7", Card::new(Suit::Hearts, Rank::Seven).label());
}

#[test]
fn card_error_messages() {
    assert_eq!("failed to parse to Suit", CardError::ParseSuitError.message());
    assert_eq!("failed to parse to Rank", CardError::ParseRankError.message());
    assert_eq!("failed to parse to Card", CardError::ParseCardError.message());
}
