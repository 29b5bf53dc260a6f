use blackjack::domain::engine::event::{
    EventSeqId, GameResult, Multiplier, Payout, PlayerOutcome, PlayerResult,
};
use blackjack::domain::player::PlayerId;

#[test]
fn total_is_the_bet_times_the_factor_rounded_down() {
    assert_eq!(Payout::new(100, Multiplier::Loss).total(), 0);
    assert_eq!(Payout::new(100, Multiplier::Push).total(), 100);
    assert_eq!(Payout::new(100, Multiplier::Win).total(), 200);
    assert_eq!(Payout::new(100, Multiplier::Blackjack).total(), 250);
    // 2.5 times 5 is 12.5.
    assert_eq!(Payout::new(5, Multiplier::Blackjack).total(), 12);
    assert_eq!(Payout::new(1, Multiplier::Blackjack).total(), 2);
    assert_eq!(Payout::new(3, Multiplier::Blackjack).total(), 7);
    assert_eq!(Payout::new(0, Multiplier::Blackjack).total(), 0);
}

#[test]
fn total_of_the_largest_bet() {
    assert_eq!(Payout::new(u32::MAX, Multiplier::Loss).total(), 0);
    assert_eq!(Payout::new(u32::MAX, Multiplier::Push).total(), 4_294_967_295);
    assert_eq!(Payout::new(u32::MAX, Multiplier::Win).total(), 8_589_934_590);
    assert_eq!(
        Payout::new(u32::MAX, Multiplier::Blackjack).total(),
        10_737_418_237
    );
}

#[test]
fn payout_keeps_its_parts() {
    let payout = Payout::new(40, Multiplier::Win);
    assert_eq!(payout.bet, 40);
    assert_eq!(payout.multiplier, Multiplier::Win);
}

#[test]
fn tenths_of_the_factors() {
    assert_eq!(Multiplier::Loss.tenths(), 0);
    assert_eq!(Multiplier::Push.tenths(), 10);
    assert_eq!(Multiplier::Win.tenths(), 20);
    assert_eq!(Multiplier::Blackjack.tenths(), 25);
}

#[test]
fn factor_of_each_outcome() {
    assert_eq!(PlayerOutcome::Won.multiplier(), Multiplier::Win);
    assert_eq!(PlayerOutcome::Lost.multiplier(), Multiplier::Loss);
    assert_eq!(PlayerOutcome::Push.multiplier(), Multiplier::Push);
    assert_eq!(PlayerOutcome::Blackjack.multiplier(), Multiplier::Blackjack);
    assert_eq!(PlayerOutcome::Bust.multiplier(), Multiplier::Loss);
}

#[test]
fn clone_of_a_result_is_the_same_result() {
    let result = GameResult {
        player_results: vec![
            PlayerResult {
                player: PlayerId(1),
                outcome: PlayerOutcome::Won,
                payout: Payout::new(10, Multiplier::Win),
            },
            PlayerResult {
                player: PlayerId(2),
                outcome: PlayerOutcome::Bust,
                payout: Payout::new(20, Multiplier::Loss),
            },
        ],
        dealer_busted: true,
    };
    let copy = result.clone();
    assert_eq!(copy.player_results, result.player_results);
    assert_eq!(copy.dealer_busted, result.dealer_busted);
    let empty = GameResult {
        player_results: vec![],
        dealer_busted: false,
    };
    assert!(empty.clone().player_results.is_empty());
    assert!(!empty.clone().dealer_busted);
}

#[test]
fn event_numbers_start_at_zero_and_go_up_by_one() {
    assert_eq!(EventSeqId::start(), EventSeqId(0));
    assert_eq!(EventSeqId::start().next(), EventSeqId(1));
    assert_eq!(EventSeqId(41).next(), EventSeqId(42));
    assert_eq!(EventSeqId(u64::MAX - 1).next(), EventSeqId(u64::MAX));
}
