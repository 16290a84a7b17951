use blackjack::amount::{Amount, TICKS_PER_UNIT};
use blackjack::card::{Card, Rank, Suit};
use blackjack::hand::{Hand, HandError, HandState, HandValue};
use blackjack::play::{Action, Player};
use blackjack::rule::{DealerOnSoft17, RuleSet, ShuffleKind, SurrenderPolicy};

fn amount(units: f64) -> Amount {
    Amount::from_ticks((units * TICKS_PER_UNIT as f64) as u64)
}

fn rules_with(
    whitelist: Option<Vec<u64>>,
    max_hands: u64,
    can_play_split_aces: bool,
    das: bool,
    surrender: SurrenderPolicy,
) -> RuleSet {
    RuleSet::new(
        4,
        4,
        amount(1.0),
        amount(10.0),
        ShuffleKind::Continuous,
        DealerOnSoft17::H17,
        amount(1.5),
        whitelist,
        max_hands,
        can_play_split_aces,
        das,
        surrender,
    )
    .unwrap()
}

fn hand_of(first: Rank, second: Rank, state: HandState) -> Hand {
    Hand::new(
        vec![Card::new(Suit::Clubs, first), Card::new(Suit::Hearts, second)],
        amount(2.0),
        state,
    )
}

fn player_with(hands: usize, rules: RuleSet) -> Player {
    let mut held = Vec::new();
    for _ in 0..hands {
        held.push(hand_of(Rank::Eight, Rank::Eight, HandState::Fresh));
    }
    Player::new(held, amount(100.0), rules)
}

fn basic_ai(hand: &Hand) -> Action {
    if hand.is_pair() {
        Action::Split { second_bet: hand.bet() }
    } else {
        match hand.value() {
            HandValue::Hard(11) => Action::DoubleDown { added_bet: hand.bet() },
            HandValue::Hard(total) if total < 12 => Action::Hit,
            HandValue::Hard(16) => Action::Surrender,
            _ => Action::Stand,
        }
    }
}

#[test]
fn player_queries() {
    let rules = rules_with(None, 4, true, true, SurrenderPolicy::Late);
    let hands = vec![
        hand_of(Rank::Eight, Rank::Eight, HandState::Fresh),
        hand_of(Rank::Ten, Rank::Six, HandState::Stand),
    ];
    let player = Player::new(hands.clone(), amount(100.0), rules.clone());
    assert_eq!(hands, player.hands());
    assert_eq!(amount(100.0), player.funds());
    assert_eq!(rules, player.rules());
}

#[test]
fn player_hit_and_stand() {
    let card = Card::new(Suit::Spades, Rank::Ten);
    let live = hand_of(Rank::Ten, Rank::Six, HandState::Fresh);
    assert!(Player::can_hit_hand(&live));
    assert!(Player::can_stand_hand(&live));

    let hit = Player::hit(live.clone(), card).unwrap();
    assert_eq!(vec![live.cards()[0], live.cards()[1], card], hit.cards());
    assert_eq!(HandState::Busts, hit.state());
    assert_eq!(live.bet(), hit.bet());

    let stood = Player::stand(live.clone()).unwrap();
    assert_eq!(live.cards(), stood.cards());
    assert_eq!(HandState::Stand, stood.state());

    assert!(!Player::can_hit_hand(&stood));
    assert!(!Player::can_stand_hand(&stood));
    assert_eq!(Err(HandError::IllegalTransition), Player::hit(stood.clone(), card));
    assert_eq!(Err(HandError::IllegalTransition), Player::stand(stood));
}

#[test]
fn player_split_counts_the_hands_held() {
    let card1 = Card::new(Suit::Spades, Rank::Two);
    let card2 = Card::new(Suit::Spades, Rank::Three);
    let pair = hand_of(Rank::Eight, Rank::Eight, HandState::Fresh);
    for held in 0..5 {
        let player = player_with(held, rules_with(None, 3, true, true, SurrenderPolicy::Late));
        assert_eq!(held < 3, player.can_split_hand(&pair));
        let outcome = player.split(pair.clone(), pair.bet(), card1, card2);
        assert_eq!(held < 3, outcome.is_ok());
        if let Ok([first, second]) = outcome {
            assert_eq!(vec![pair.cards()[0], card1], first.cards());
            assert_eq!(vec![pair.cards()[1], card2], second.cards());
            assert_eq!(pair.bet(), first.bet());
            assert_eq!(pair.bet(), second.bet());
            assert_eq!(HandState::Split, first.state());
            assert_eq!(HandState::Split, second.state());
        }
    }
}

#[test]
fn player_split_needs_the_matching_wager() {
    let card = Card::new(Suit::Spades, Rank::Two);
    let player = player_with(1, rules_with(None, 3, true, true, SurrenderPolicy::Late));
    let pair = hand_of(Rank::Eight, Rank::Eight, HandState::Fresh);
    assert!(player.can_split_hand(&pair));
    assert_eq!(
        Err(HandError::IllegalTransition),
        player.split(pair.clone(), amount(1.0), card, card)
    );
    assert!(player.split(pair, amount(2.0), card, card).is_ok());

    let other = hand_of(Rank::Eight, Rank::Nine, HandState::Fresh);
    assert!(!player.can_split_hand(&other));
    assert_eq!(
        Err(HandError::IllegalTransition),
        player.split(other, amount(2.0), card, card)
    );
}

#[test]
fn player_split_aces() {
    let card = Card::new(Suit::Spades, Rank::Ten);
    let aces = hand_of(Rank::Ace, Rank::Ace, HandState::Fresh);
    let locking = player_with(1, rules_with(None, 3, false, true, SurrenderPolicy::Late));
    let [first, second] = locking.split(aces.clone(), aces.bet(), card, card).unwrap();
    assert_eq!(HandState::SpltA, first.state());
    assert_eq!(HandState::SpltA, second.state());
    assert!(!Player::can_hit_hand(&first));
    assert!(!locking.can_double_down_hand(&second));

    let playable = player_with(1, rules_with(None, 3, true, true, SurrenderPolicy::Late));
    let [first, second] = playable.split(aces.clone(), aces.bet(), card, card).unwrap();
    assert_eq!(HandState::Split, first.state());
    assert_eq!(HandState::Split, second.state());
}

#[test]
fn player_surrender() {
    let hand = hand_of(Rank::Ten, Rank::Six, HandState::Fresh);
    let offered = player_with(1, rules_with(None, 3, true, true, SurrenderPolicy::Early));
    assert!(offered.can_surrender_hand(&hand));
    let given_up = offered.surrender(hand.clone()).unwrap();
    assert_eq!(HandState::Srndr, given_up.state());
    assert_eq!(amount(1.0), given_up.bet());
    assert!(!offered.can_surrender_hand(&given_up));
    assert_eq!(Err(HandError::IllegalTransition), offered.surrender(given_up));

    let refused = player_with(1, rules_with(None, 3, true, true, SurrenderPolicy::Never));
    assert!(!refused.can_surrender_hand(&hand));
    assert_eq!(Err(HandError::IllegalTransition), refused.surrender(hand));
}

#[test]
fn player_double_down() {
    let player = player_with(1, rules_with(Some(vec![9, 10, 11]), 3, true, false, SurrenderPolicy::Late));
    let eleven = hand_of(Rank::Five, Rank::Six, HandState::Fresh);
    assert!(player.can_double_down_hand(&eleven));
    let doubled = player.double_down_hand(eleven.clone(), amount(2.0)).unwrap();
    assert_eq!(HandState::DDown, doubled.state());
    assert_eq!(amount(4.0), doubled.bet());
    assert_eq!(eleven.cards(), doubled.cards());

    // the added wager has to match the hand's
    assert_eq!(
        Err(HandError::IllegalTransition),
        player.double_down_hand(eleven.clone(), amount(1.0))
    );
    // not on this total
    let twelve = hand_of(Rank::Six, Rank::Six, HandState::Fresh);
    assert!(!player.can_double_down_hand(&twelve));
    assert_eq!(
        Err(HandError::IllegalTransition),
        player.double_down_hand(twelve, amount(2.0))
    );
    // not after a split, under these rules
    let split = hand_of(Rank::Five, Rank::Six, HandState::Split);
    assert!(!player.can_double_down_hand(&split));
    assert_eq!(
        Err(HandError::IllegalTransition),
        player.double_down_hand(split, amount(2.0))
    );
}

#[test]
fn player_asks_for_each_hand_in_order() {
    let hands = vec![
        hand_of(Rank::Eight, Rank::Eight, HandState::Fresh),
        hand_of(Rank::Five, Rank::Six, HandState::Fresh),
        hand_of(Rank::Two, Rank::Three, HandState::Fresh),
        hand_of(Rank::Ten, Rank::Six, HandState::Fresh),
        hand_of(Rank::Ten, Rank::Nine, HandState::Fresh),
    ];
    let player = Player::new(
        hands.clone(),
        amount(100.0),
        rules_with(None, 4, true, true, SurrenderPolicy::Late),
    );
    let asked = player.gen_actions_for_hands(basic_ai);
    let expected = vec![
        (hands[0].clone(), Action::Split { second_bet: amount(2.0) }),
        (hands[1].clone(), Action::DoubleDown { added_bet: amount(2.0) }),
        (hands[2].clone(), Action::Hit),
        (hands[3].clone(), Action::Surrender),
        (hands[4].clone(), Action::Stand),
    ];
    assert_eq!(expected, asked);

    let nobody = Player::new(vec![], amount(0.0), rules_with(None, 4, true, true, SurrenderPolicy::Late));
    assert!(nobody.gen_actions_for_hands(basic_ai).is_empty());
}
