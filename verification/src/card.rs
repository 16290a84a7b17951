//! Playing cards: suits, ranks and the one-byte card code.

use vstd::prelude::*;
use vstd::std_specs::convert::TryFromSpecImpl;
use vstd::string::StringExecFns;

verus! {

/// The four suits, in code order.
#[derive(Debug, PartialEq, Eq, Structural, PartialOrd, Ord, Clone, Copy, Hash)]
pub enum Suit {
    Clubs,
    Diamonds,
    Hearts,
    Spades,
}

/// The thirteen ranks, in code order.
#[derive(Debug, PartialEq, Eq, Structural, PartialOrd, Ord, Clone, Copy, Hash)]
pub enum Rank {
    Ace,
    Two,
    Three,
    Four,
    Five,
    Six,
    Seven,
    Eight,
    Nine,
    Ten,
    Jack,
    Queen,
    King,
}

/// Why a number is not the code of a suit, a rank or a card.
#[derive(Debug, PartialEq, Eq, Structural, PartialOrd, Ord, Clone, Copy, Hash)]
pub enum CardError {
    ParseSuitError,
    ParseRankError,
    ParseCardError,
}

/// A playing card. Two cards of the same suit and rank are the same card.
#[derive(Debug, PartialEq, Eq, Structural, PartialOrd, Ord, Clone, Copy, Hash)]
pub struct Card {
    pub suit: Suit,
    pub rank: Rank,
}

/// The suit with code `code`, for `0 <= code < 4`.
pub open spec fn suit_of_code(code: int) -> Suit {
    if code == 0 {
        Suit::Clubs
    } else if code == 1 {
        Suit::Diamonds
    } else if code == 2 {
        Suit::Hearts
    } else {
        Suit::Spades
    }
}

/// The rank with code `code`, for `0 <= code < 13`.
pub open spec fn rank_of_code(code: int) -> Rank {
    if code == 0 {
        Rank::Ace
    } else if code == 1 {
        Rank::Two
    } else if code == 2 {
        Rank::Three
    } else if code == 3 {
        Rank::Four
    } else if code == 4 {
        Rank::Five
    } else if code == 5 {
        Rank::Six
    } else if code == 6 {
        Rank::Seven
    } else if code == 7 {
        Rank::Eight
    } else if code == 8 {
        Rank::Nine
    } else if code == 9 {
        Rank::Ten
    } else if code == 10 {
        Rank::Jack
    } else if code == 11 {
        Rank::Queen
    } else {
        Rank::King
    }
}

/// What a suit code parses to: the suit for codes below 4, an error above.
pub open spec fn parse_suit(code: u8) -> Result<Suit, CardError> {
    if code < 4 {
        Ok(suit_of_code(code as int))
    } else {
        Err(CardError::ParseSuitError)
    }
}

/// What a rank code parses to: the rank for codes below 13, an error above.
pub open spec fn parse_rank(code: u8) -> Result<Rank, CardError> {
    if code < 13 {
        Ok(rank_of_code(code as int))
    } else {
        Err(CardError::ParseRankError)
    }
}

/// The card with code `code`, for `0 <= code < 52`: the code is four times
/// the rank's code plus the suit's.
pub open spec fn card_of_code(code: int) -> Card {
    Card { suit: suit_of_code(code % 4), rank: rank_of_code(code / 4) }
}

/// What a card code parses to. A code lies below 64: a larger number is no
/// card code at all, and one below 64 whose rank part is 13 or more names no
/// rank.
pub open spec fn parse_card(code: u8) -> Result<Card, CardError> {
    if code >= 64 {
        Err(CardError::ParseCardError)
    } else if code / 4 >= 13 {
        Err(CardError::ParseRankError)
    } else {
        Ok(card_of_code(code as int))
    }
}

impl Suit {
    /// The sign that stands for this suit when a card is written out.
    pub open spec fn spec_symbol(&self) -> Seq<char> {
        match self {
            Suit::Clubs => "♣"@,
            Suit::Diamonds => "♦"@,
            Suit::Hearts => "♥"@,
            Suit::Spades => "♠"@,
        }
    }

    /// The sign that stands for this suit when a card is written out.
    pub fn symbol(&self) -> (symbol: &'static str)
        ensures
            symbol@ == self.spec_symbol(),
    {
        match self {
            Suit::Clubs => "♣",
            Suit::Diamonds => "♦",
            Suit::Hearts => "♥",
            Suit::Spades => "♠",
        }
    }
}

impl CardError {
    /// What went wrong, in words.
    pub open spec fn spec_message(&self) -> Seq<char> {
        match self {
            CardError::ParseSuitError => "failed to parse to Suit"@,
            CardError::ParseRankError => "failed to parse to Rank"@,
            CardError::ParseCardError => "failed to parse to Card"@,
        }
    }

    /// What went wrong, in words.
    pub fn message(&self) -> (message: &'static str)
        ensures
            message@ == self.spec_message(),
    {
        match self {
            CardError::ParseSuitError => "failed to parse to Suit",
            CardError::ParseRankError => "failed to parse to Rank",
            CardError::ParseCardError => "failed to parse to Card",
        }
    }
}

impl Rank {
    /// The letter or digit that stands for this rank when a card is written
    /// out.
    pub open spec fn spec_symbol(&self) -> Seq<char> {
        match self {
            Rank::Ace => "A"@,
            Rank::Two => "2"@,
            Rank::Three => "3"@,
            Rank::Four => "4"@,
            Rank::Five => "5"@,
            Rank::Six => "6"@,
            Rank::Seven => "7"@,
            Rank::Eight => "8"@,
            Rank::Nine => "9"@,
            Rank::Ten => "T"@,
            Rank::Jack => "J"@,
            Rank::Queen => "Q"@,
            Rank::King => "K"@,
        }
    }

    /// The letter or digit that stands for this rank when a card is written
    /// out.
    pub fn symbol(&self) -> (symbol: &'static str)
        ensures
            symbol@ == self.spec_symbol(),
    {
        match self {
            Rank::Ace => "A",
            Rank::Two => "2",
            Rank::Three => "3",
            Rank::Four => "4",
            Rank::Five => "5",
            Rank::Six => "6",
            Rank::Seven => "7",
            Rank::Eight => "8",
            Rank::Nine => "9",
            Rank::Ten => "T",
            Rank::Jack => "J",
            Rank::Queen => "Q",
            Rank::King => "K",
        }
    }

    /// The points this rank counts for, an Ace taken as 1.
    pub open spec fn spec_points(&self) -> nat {
        match self {
            Rank::Ace => 1,
            Rank::Two => 2,
            Rank::Three => 3,
            Rank::Four => 4,
            Rank::Five => 5,
            Rank::Six => 6,
            Rank::Seven => 7,
            Rank::Eight => 8,
            Rank::Nine => 9,
            Rank::Ten | Rank::Jack | Rank::Queen | Rank::King => 10,
        }
    }

    /// The points this rank counts for, an Ace taken as 1.
    pub fn points(&self) -> (points: u64)
        ensures
            points == self.spec_points(),
    {
        match self {
            Rank::Ace => 1,
            Rank::Two => 2,
            Rank::Three => 3,
            Rank::Four => 4,
            Rank::Five => 5,
            Rank::Six => 6,
            Rank::Seven => 7,
            Rank::Eight => 8,
            Rank::Nine => 9,
            Rank::Ten | Rank::Jack | Rank::Queen | Rank::King => 10,
        }
    }
}

impl Card {
    /// The card of this suit and rank.
    pub fn new(suit: Suit, rank: Rank) -> (card: Self)
        ensures
            card == (Card { suit, rank }),
    {
        Self { suit, rank }
    }

    /// The suit of the card.
    pub fn suit(&self) -> (suit: Suit)
        ensures
            suit == self.suit,
    {
        self.suit
    }

    /// The rank of the card.
    pub fn rank(&self) -> (rank: Rank)
        ensures
            rank == self.rank,
    {
        self.rank
    }

    /// The card written out: the sign of its suit, then that of its rank.
    pub fn label(&self) -> (label: String)
        ensures
            label@ == self.suit.spec_symbol() + self.rank.spec_symbol(),
    {
        String::from_str(self.suit.symbol()).concat(self.rank.symbol())
    }
}

impl TryFrom<u8> for Suit {
    type Error = CardError;

    /// The suit with code `value`, as [`parse_suit`] says.
    fn try_from(value: u8) -> (parsed: Result<Self, CardError>) {
        match value {
            0 => Ok(Suit::Clubs),
            1 => Ok(Suit::Diamonds),
            2 => Ok(Suit::Hearts),
            3 => Ok(Suit::Spades),
            _ => Err(CardError::ParseSuitError),
        }
    }
}

impl TryFromSpecImpl<u8> for Suit {
    open spec fn obeys_try_from_spec() -> bool {
        true
    }

    open spec fn try_from_spec(value: u8) -> Result<Self, CardError> {
        parse_suit(value)
    }
}

impl TryFrom<u8> for Rank {
    type Error = CardError;

    /// The rank with code `value`, as [`parse_rank`] says.
    fn try_from(value: u8) -> (parsed: Result<Self, CardError>) {
        match value {
            0 => Ok(Rank::Ace),
            1 => Ok(Rank::Two),
            2 => Ok(Rank::Three),
            3 => Ok(Rank::Four),
            4 => Ok(Rank::Five),
            5 => Ok(Rank::Six),
            6 => Ok(Rank::Seven),
            7 => Ok(Rank::Eight),
            8 => Ok(Rank::Nine),
            9 => Ok(Rank::Ten),
            10 => Ok(Rank::Jack),
            11 => Ok(Rank::Queen),
            12 => Ok(Rank::King),
            _ => Err(CardError::ParseRankError),
        }
    }
}

impl TryFromSpecImpl<u8> for Rank {
    open spec fn obeys_try_from_spec() -> bool {
        true
    }

    open spec fn try_from_spec(value: u8) -> Result<Self, CardError> {
        parse_rank(value)
    }
}

impl TryFrom<u8> for Card {
    type Error = CardError;

    /// The card with code `value`, as [`parse_card`] says: the two lowest
    /// bits are the suit's code and the four above them the rank's.
    fn try_from(value: u8) -> (parsed: Result<Self, CardError>) {
        if (value & 0b1100_0000) != 0 {
            assert(value >= 64) by (bit_vector)
                requires
                    (value & 0b1100_0000) != 0,
            ;
            return Err(CardError::ParseCardError);
        }
        assert(value < 64 && (value & 0b0000_0011) == value % 4 && ((value & 0b0011_1100) >> 2)
            == value / 4) by (bit_vector)
            requires
                (value & 0b1100_0000) == 0,
        ;
        let suit = match Suit::try_from(value & 0b0000_0011) {
            Ok(suit) => suit,
            Err(fault) => {
                return Err(fault);
            },
        };
        let rank = match Rank::try_from((value & 0b0011_1100) >> 2) {
            Ok(rank) => rank,
            Err(fault) => {
                return Err(fault);
            },
        };
        Ok(Self { suit, rank })
    }
}

impl TryFromSpecImpl<u8> for Card {
    open spec fn obeys_try_from_spec() -> bool {
        true
    }

    open spec fn try_from_spec(value: u8) -> Result<Self, CardError> {
        parse_card(value)
    }
}

} // verus!
