//! The rules of a table, checked once when the rule set is made.

use vstd::prelude::*;
use crate::amount::Amount;

verus! {

/// What the dealer does on a soft 17: hit (`H17`) or stand (`S17`).
#[derive(Debug, PartialEq, Eq, Structural, PartialOrd, Ord, Clone, Copy, Hash)]
pub enum DealerOnSoft17 {
    H17,
    S17,
}

/// When the shoe is shuffled: after every round, or once fewer cards than
/// the threshold are left.
#[derive(Debug, PartialEq, Eq, Structural, PartialOrd, Ord, Clone, Copy, Hash)]
pub enum ShuffleKind {
    Continuous,
    Threshold(u64),
}

/// Whether a player may surrender, and if so whether before (`Early`) or
/// after (`Late`) the dealer has looked for a blackjack.
#[derive(Debug, PartialEq, Eq, Structural, PartialOrd, Ord, Clone, Copy, Hash)]
pub enum SurrenderPolicy {
    Never,
    Early,
    Late,
}

/// Why a set of rules was turned down.
#[derive(Debug, PartialEq, Eq, Structural, PartialOrd, Ord, Clone, Copy, Hash)]
pub enum RuleSetError {
    /// There is no deck.
    InvalidDeckNumer,
    /// There is no player.
    InvalidPlayerNumber,
    /// The smallest bet is nothing, or more than the largest.
    InvalidBetRange,
    /// Fewer than two hands are allowed, so nothing could be split.
    InvalidMaxHands,
    /// A total on the double-down list lies outside 3 to 20.
    InvalidDoubleDownWhitelist,
}

impl RuleSetError {
    /// What the rule asks for, in words.
    pub open spec fn spec_message(&self) -> Seq<char> {
        match self {
            RuleSetError::InvalidDeckNumer => "must have at least 1 deck"@,
            RuleSetError::InvalidPlayerNumber => "must have at least 1 player"@,
            RuleSetError::InvalidBetRange => "min bet must be more than 0 and not exceed max bet"@,
            RuleSetError::InvalidMaxHands => "must have at least 2 max hands"@,
            RuleSetError::InvalidDoubleDownWhitelist => {
                "double down whitelist must hold only values from 3 to 20"@
            },
        }
    }

    /// What the rule asks for, in words.
    pub fn message(&self) -> (message: &'static str)
        ensures
            message@ == self.spec_message(),
    {
        match self {
            RuleSetError::InvalidDeckNumer => "must have at least 1 deck",
            RuleSetError::InvalidPlayerNumber => "must have at least 1 player",
            RuleSetError::InvalidBetRange => "min bet must be more than 0 and not exceed max bet",
            RuleSetError::InvalidMaxHands => "must have at least 2 max hands",
            RuleSetError::InvalidDoubleDownWhitelist => {
                "double down whitelist must hold only values from 3 to 20"
            },
        }
    }
}

/// The lowest total that a double-down list may name.
pub const MIN_DOUBLE_DOWN_TOTAL: u64 = 3;

/// The highest total that a double-down list may name.
pub const MAX_DOUBLE_DOWN_TOTAL: u64 = 20;

/// A rule set as specifications see it.
pub struct RuleSetView {
    pub decks: nat,
    pub players: nat,
    /// The smallest bet, in ticks.
    pub min_bet: nat,
    /// The largest bet, in ticks.
    pub max_bet: nat,
    pub shuffle_kind: ShuffleKind,
    pub dealer_on_soft_17: DealerOnSoft17,
    /// What a blackjack pays for each unit wagered, in ticks.
    pub blackjack_payout: nat,
    /// The totals on which a hand may double down; `None` where any will do.
    pub double_down_whitelist: Option<Seq<u64>>,
    pub max_hands: nat,
    pub can_play_split_aces: bool,
    /// Whether a hand that came out of a split may double down.
    pub das: bool,
    pub surrender: SurrenderPolicy,
}

/// Whether every total on the list lies within 3 to 20.
pub open spec fn whitelist_in_range(list: Seq<u64>) -> bool {
    forall|i: int|
        0 <= i < list.len() ==> MIN_DOUBLE_DOWN_TOTAL <= #[trigger] list[i]
            <= MAX_DOUBLE_DOWN_TOTAL
}

impl RuleSetView {
    /// The first rule that these settings break, in the order in which they
    /// are checked, or `None` where they break none.
    pub open spec fn first_fault(self) -> Option<RuleSetError> {
        if self.decks < 1 {
            Some(RuleSetError::InvalidDeckNumer)
        } else if self.players < 1 {
            Some(RuleSetError::InvalidPlayerNumber)
        } else if self.min_bet == 0 || self.min_bet > self.max_bet {
            Some(RuleSetError::InvalidBetRange)
        } else if self.max_hands < 2 {
            Some(RuleSetError::InvalidMaxHands)
        } else if self.double_down_whitelist matches Some(list) && !whitelist_in_range(list) {
            Some(RuleSetError::InvalidDoubleDownWhitelist)
        } else {
            None
        }
    }

    /// Whether these settings break no rule.
    pub open spec fn valid(self) -> bool {
        self.first_fault() is None
    }

    /// Whether a hand may double down on a count of `total`.
    pub open spec fn allows_double_on(self, total: nat) -> bool {
        match self.double_down_whitelist {
            Some(list) => exists|i: int| 0 <= i < list.len() && #[trigger] list[i] == total,
            None => true,
        }
    }

    /// Whether the table lets a player surrender at all.
    pub open spec fn can_surrender(self) -> bool {
        self.surrender != SurrenderPolicy::Never
    }
}

/// The rules of a table. A rule set is checked when it is made and never
/// changes afterwards: every rule set is valid, as [`RuleSetView::valid`] says.
#[derive(Debug, PartialEq, PartialOrd)]
pub struct RuleSet {
    decks: usize,
    players: usize,
    min_bet: Amount,
    max_bet: Amount,
    shuffle_kind: ShuffleKind,
    dealer_on_soft_17: DealerOnSoft17,
    blackjack_payout: Amount,
    double_down_whitelist: Option<Vec<u64>>,
    max_hands: u64,
    can_play_slit_aces: bool,
    das: bool,
    surrender: SurrenderPolicy,
}

/// The double-down list as specifications see it.
pub open spec fn whitelist_view(list: Option<Vec<u64>>) -> Option<Seq<u64>> {
    match list {
        Some(totals) => Some(totals@),
        None => None,
    }
}

/// Whether every total on the list lies within 3 to 20.
fn check_whitelist(list: &Vec<u64>) -> (in_range: bool)
    ensures
        in_range == whitelist_in_range(list@),
{
    let mut i: usize = 0;
    while i < list.len()
        invariant
            i <= list.len(),
            whitelist_in_range(list@.take(i as int)),
        decreases list.len() - i,
    {
        if list[i] < MIN_DOUBLE_DOWN_TOTAL || list[i] > MAX_DOUBLE_DOWN_TOTAL {
            return false;
        }
        i += 1;
    }
    proof {
        assert(list@.take(i as int) =~= list@);
    }
    true
}

impl View for RuleSet {
    type V = RuleSetView;

    closed spec fn view(&self) -> RuleSetView {
        RuleSetView {
            decks: self.decks as nat,
            players: self.players as nat,
            min_bet: self.min_bet.ticks as nat,
            max_bet: self.max_bet.ticks as nat,
            shuffle_kind: self.shuffle_kind,
            dealer_on_soft_17: self.dealer_on_soft_17,
            blackjack_payout: self.blackjack_payout.ticks as nat,
            double_down_whitelist: whitelist_view(self.double_down_whitelist),
            max_hands: self.max_hands as nat,
            can_play_split_aces: self.can_play_slit_aces,
            das: self.das,
            surrender: self.surrender,
        }
    }
}

impl Clone for RuleSet {
    fn clone(&self) -> (copy: Self)
        ensures
            copy@ == self@,
    {
        proof {
            use_type_invariant(self);
        }
        Self {
            decks: self.decks,
            players: self.players,
            min_bet: self.min_bet,
            max_bet: self.max_bet,
            shuffle_kind: self.shuffle_kind,
            dealer_on_soft_17: self.dealer_on_soft_17,
            blackjack_payout: self.blackjack_payout,
            double_down_whitelist: self.double_down_whitelist(),
            max_hands: self.max_hands,
            can_play_slit_aces: self.can_play_slit_aces,
            das: self.das,
            surrender: self.surrender,
        }
    }
}

impl RuleSet {
    #[verifier::type_invariant]
    spec fn checked(&self) -> bool {
        self@.valid()
    }

    /// The rule set with these settings, or the first rule that they break.
    /// An absent double-down list allows doubling on any total.
    pub fn new(
        decks: usize,
        players: usize,
        min_bet: Amount,
        max_bet: Amount,
        shuffle_kind: ShuffleKind,
        dealer_on_soft_17: DealerOnSoft17,
        blackjack_payout: Amount,
        double_down_whitelist: Option<Vec<u64>>,
        max_hands: u64,
        can_play_slit_aces: bool,
        das: bool,
        surrender: SurrenderPolicy,
    ) -> (made: Result<Self, RuleSetError>)
        ensures
            ({
                let settings = RuleSetView {
                    decks: decks as nat,
                    players: players as nat,
                    min_bet: min_bet.ticks as nat,
                    max_bet: max_bet.ticks as nat,
                    shuffle_kind,
                    dealer_on_soft_17,
                    blackjack_payout: blackjack_payout.ticks as nat,
                    double_down_whitelist: whitelist_view(double_down_whitelist),
                    max_hands: max_hands as nat,
                    can_play_split_aces: can_play_slit_aces,
                    das,
                    surrender,
                };
                match made {
                    Ok(rules) => settings.first_fault() is None && rules@ == settings,
                    Err(fault) => settings.first_fault() == Some(fault),
                }
            }),
    {
        if decks == 0 {
            return Err(RuleSetError::InvalidDeckNumer);
        }
        if players == 0 {
            return Err(RuleSetError::InvalidPlayerNumber);
        }
        if min_bet.ticks() == 0 {
            return Err(RuleSetError::InvalidBetRange);
        }
        if min_bet.ticks() > max_bet.ticks() {
            return Err(RuleSetError::InvalidBetRange);
        }
        if max_hands < 2 {
            return Err(RuleSetError::InvalidMaxHands);
        }
        match &double_down_whitelist {
            Some(list) => {
                if !check_whitelist(list) {
                    return Err(RuleSetError::InvalidDoubleDownWhitelist);
                }
            },
            None => {},
        }
        Ok(
            Self {
                decks,
                players,
                min_bet,
                max_bet,
                shuffle_kind,
                dealer_on_soft_17,
                blackjack_payout,
                double_down_whitelist,
                max_hands,
                can_play_slit_aces,
                das,
                surrender,
            },
        )
    }

    /// How many decks the shoe holds.
    pub fn decks(&self) -> (decks: usize)
        ensures
            decks == self@.decks,
            self@.valid(),
    {
        proof {
            use_type_invariant(self);
        }
        self.decks
    }

    /// How many players the table seats.
    pub fn players(&self) -> (players: usize)
        ensures
            players == self@.players,
            self@.valid(),
    {
        proof {
            use_type_invariant(self);
        }
        self.players
    }

    /// The smallest bet the table takes.
    pub fn min_bet(&self) -> (min_bet: Amount)
        ensures
            min_bet.ticks == self@.min_bet,
            self@.valid(),
    {
        proof {
            use_type_invariant(self);
        }
        self.min_bet
    }

    /// The largest bet the table takes.
    pub fn max_bet(&self) -> (max_bet: Amount)
        ensures
            max_bet.ticks == self@.max_bet,
            self@.valid(),
    {
        proof {
            use_type_invariant(self);
        }
        self.max_bet
    }

    /// When the shoe is shuffled.
    pub fn shuffle_kind(&self) -> (shuffle_kind: ShuffleKind)
        ensures
            shuffle_kind == self@.shuffle_kind,
    {
        self.shuffle_kind
    }

    /// What the dealer does on a soft 17.
    pub fn dealer_on_soft_17(&self) -> (dealer_on_soft_17: DealerOnSoft17)
        ensures
            dealer_on_soft_17 == self@.dealer_on_soft_17,
    {
        self.dealer_on_soft_17
    }

    /// What a blackjack pays for each unit wagered.
    pub fn blackjack_payout(&self) -> (blackjack_payout: Amount)
        ensures
            blackjack_payout.ticks == self@.blackjack_payout,
    {
        self.blackjack_payout
    }

    /// The totals on which a hand may double down; `None` where any will do.
    pub fn double_down_whitelist(&self) -> (list: Option<Vec<u64>>)
        ensures
            whitelist_view(list) == self@.double_down_whitelist,
            self@.valid(),
    {
        proof {
            use_type_invariant(self);
        }
        match &self.double_down_whitelist {
            Some(totals) => Some(totals.clone()),
            None => None,
        }
    }

    /// Whether a hand may double down on a count of `total`.
    pub fn allows_double_on(&self, total: u64) -> (allowed: bool)
        ensures
            allowed == self@.allows_double_on(total as nat),
    {
        match &self.double_down_whitelist {
            Some(totals) => {
                let mut i: usize = 0;
                while i < totals.len()
                    invariant
                        i <= totals.len(),
                        self@.double_down_whitelist == Some(totals@),
                        forall|j: int| 0 <= j < i ==> totals@[j] != total,
                    decreases totals.len() - i,
                {
                    if totals[i] == total {
                        assert(self@.double_down_whitelist->0[i as int] == total as nat);
                        return true;
                    }
                    i += 1;
                }
                false
            },
            None => true,
        }
    }

    /// How many hands a player may hold at once, splits counted in.
    pub fn max_hands(&self) -> (max_hands: u64)
        ensures
            max_hands == self@.max_hands,
            self@.valid(),
    {
        proof {
            use_type_invariant(self);
        }
        self.max_hands
    }

    /// Whether a hand that came out of splitting Aces may be played on.
    pub fn can_play_slit_aces(&self) -> (playable: bool)
        ensures
            playable == self@.can_play_split_aces,
    {
        self.can_play_slit_aces
    }

    /// Whether a hand that came out of a split may double down.
    pub fn das(&self) -> (das: bool)
        ensures
            das == self@.das,
    {
        self.das
    }

    /// Whether and when a player may surrender.
    pub fn surrender_policy(&self) -> (policy: SurrenderPolicy)
        ensures
            policy == self@.surrender,
    {
        self.surrender
    }

    /// Whether the table lets a player surrender at all.
    pub fn can_surrender(&self) -> (allowed: bool)
        ensures
            allowed == self@.can_surrender(),
    {
        match self.surrender {
            SurrenderPolicy::Never => false,
            SurrenderPolicy::Early => true,
            SurrenderPolicy::Late => true,
        }
    }
}

} // verus!
