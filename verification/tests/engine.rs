use guessing_game::engine::{guess, initialize, GameError, Guess, GuessOutcome};
use guessing_game::ledger::transfer;

#[test]
fn initialize_starts_with_empty_pot() {
    let game = initialize(42);
    assert_eq!(game.secret(), 42);
    assert_eq!(game.pot(), 0);
}

#[test]
fn full_round_scenario() {
    // Initialize(secret=7), fee=100, participant starts with 1000.
    let game = initialize(7);
    let mut ctx = Guess { game, player_balance: 1000, game_balance: 50 };

    // Guess(5): too low, fee forfeited into the pot.
    let r = guess(&mut ctx, 100, 5);
    assert_eq!(r, Ok(GuessOutcome::TooLow));
    assert_eq!(ctx.game.pot(), 100);
    assert_eq!(ctx.player_balance, 900);
    assert_eq!(ctx.game_balance, 150);

    // Guess(7): fee collected first (pot=200), then the match drains the
    // pot to the participant: 800 + 200 = 1000.
    let r = guess(&mut ctx, 100, 7);
    assert_eq!(r, Ok(GuessOutcome::Won(200)));
    assert_eq!(ctx.game.pot(), 0);
    assert_eq!(ctx.player_balance, 1000);
    assert_eq!(ctx.game_balance, 50);

    // The game restarts implicitly at pot=0.
    let r = guess(&mut ctx, 100, 5);
    assert_eq!(r, Ok(GuessOutcome::TooLow));
    assert_eq!(ctx.game.pot(), 100);
}

#[test]
fn directional_hints() {
    let game = initialize(128);
    let mut ctx = Guess { game, player_balance: 10_000, game_balance: 0 };

    assert_eq!(guess(&mut ctx, 100, 50), Ok(GuessOutcome::TooLow));
    assert_eq!(guess(&mut ctx, 100, 200), Ok(GuessOutcome::TooHigh));
    assert_eq!(guess(&mut ctx, 100, 128), Ok(GuessOutcome::Won(300)));
}

#[test]
fn insufficient_funds_leaves_everything_unchanged() {
    let game = initialize(128);
    let mut ctx = Guess { game, player_balance: 99, game_balance: 500 };

    // Even a would-be winning guess is turned away below the fee.
    let r = guess(&mut ctx, 100, 128);
    assert_eq!(r, Err(GameError::InsufficientFunds));
    assert_eq!(ctx.game.pot(), 0);
    assert_eq!(ctx.game.secret(), 128);
    assert_eq!(ctx.player_balance, 99);
    assert_eq!(ctx.game_balance, 500);
}

#[test]
fn losing_streak_accumulates_pot_and_conserves_value() {
    let game = initialize(42);
    let mut ctx = Guess { game, player_balance: 1_000, game_balance: 300 };
    let total_before = ctx.player_balance + ctx.game_balance;

    for g in [1u8, 2, 3, 100, 255] {
        let r = guess(&mut ctx, 100, g);
        assert!(matches!(r, Ok(GuessOutcome::TooLow) | Ok(GuessOutcome::TooHigh)));
    }

    assert_eq!(ctx.game.pot(), 500);
    assert_eq!(ctx.player_balance, 500);
    assert_eq!(ctx.game_balance, 800);
    assert_eq!(ctx.player_balance + ctx.game_balance, total_before);
}

#[test]
fn consecutive_wins_pay_only_their_own_pot() {
    let game = initialize(9);
    let mut ctx = Guess { game, player_balance: 2_000, game_balance: 0 };

    // Build up a pot of 300, then win it (plus the winning fee).
    assert_eq!(guess(&mut ctx, 100, 1), Ok(GuessOutcome::TooLow));
    assert_eq!(guess(&mut ctx, 100, 2), Ok(GuessOutcome::TooLow));
    assert_eq!(guess(&mut ctx, 100, 3), Ok(GuessOutcome::TooLow));
    assert_eq!(guess(&mut ctx, 100, 9), Ok(GuessOutcome::Won(400)));
    assert_eq!(ctx.game.pot(), 0);
    assert_eq!(ctx.player_balance, 2_000);

    // A second win pays only what was collected after the first one: a
    // single losing fee plus its own fee, never the earlier 400 again.
    assert_eq!(guess(&mut ctx, 100, 30), Ok(GuessOutcome::TooHigh));
    assert_eq!(guess(&mut ctx, 100, 9), Ok(GuessOutcome::Won(200)));
    assert_eq!(ctx.game.pot(), 0);
    assert_eq!(ctx.player_balance, 2_000);
}

#[test]
fn fee_transfer_failure_leaves_everything_unchanged() {
    let game = initialize(5);
    // The custodian's balance cannot take one more unit: the ledger
    // rejects the fee credit and nothing at all happens.
    let mut ctx = Guess { game, player_balance: 1_000, game_balance: u64::MAX };

    let r = guess(&mut ctx, 100, 5);
    assert_eq!(r, Err(GameError::TransferFailure));
    assert_eq!(ctx.game.pot(), 0);
    assert_eq!(ctx.player_balance, 1_000);
    assert_eq!(ctx.game_balance, u64::MAX);
}

#[test]
fn failed_payout_is_surfaced_and_destroys_no_value() {
    // One participant builds up the pot...
    let game = initialize(77);
    let mut ctx = Guess { game, player_balance: 1_000, game_balance: 0 };
    assert_eq!(guess(&mut ctx, 100, 10), Ok(GuessOutcome::TooLow));
    assert_eq!(guess(&mut ctx, 100, 20), Ok(GuessOutcome::TooLow));
    assert_eq!(guess(&mut ctx, 100, 30), Ok(GuessOutcome::TooLow));
    assert_eq!(ctx.game.pot(), 300);

    // ...and another, whose balance cannot take the payout credit, wins.
    // The fee was already collected (pot=400), the payout itself fails:
    // the inconsistency is reported and the pot is left intact.
    let mut rich = Guess {
        game: ctx.game,
        player_balance: u64::MAX - 150,
        game_balance: ctx.game_balance,
    };
    let r = guess(&mut rich, 100, 77);
    assert_eq!(r, Err(GameError::PayoutInconsistency));
    assert_eq!(rich.game.pot(), 400);
    assert_eq!(rich.player_balance, u64::MAX - 250);
    assert_eq!(rich.game_balance, 400);
}

#[test]
fn resume_admits_only_consistent_state() {
    let ctx = Guess::resume(7, 300, 1_000, 300).expect("custody invariant holds");
    assert_eq!(ctx.game.secret(), 7);
    assert_eq!(ctx.game.pot(), 300);
    assert_eq!(ctx.player_balance, 1_000);
    assert_eq!(ctx.game_balance, 300);

    // A record claiming a pot its account does not hold is refused.
    assert!(Guess::resume(7, 301, 1_000, 300).is_none());
}

#[test]
fn fee_is_a_configuration_value() {
    let game = initialize(200);
    let mut ctx = Guess { game, player_balance: 20, game_balance: 0 };

    assert_eq!(guess(&mut ctx, 7, 100), Ok(GuessOutcome::TooLow));
    assert_eq!(ctx.game.pot(), 7);
    assert_eq!(ctx.player_balance, 13);
    assert_eq!(guess(&mut ctx, 7, 200), Ok(GuessOutcome::Won(14)));
    assert_eq!(ctx.player_balance, 20);

    // A zero fee is allowed and pays out exactly the standing pot.
    assert_eq!(guess(&mut ctx, 0, 200), Ok(GuessOutcome::Won(0)));
}

#[test]
fn ledger_transfer_is_atomic() {
    let mut from: u64 = 500;
    let mut to: u64 = 100;
    assert!(transfer(&mut from, &mut to, 200));
    assert_eq!(from, 300);
    assert_eq!(to, 300);

    // Source cannot cover the amount: nothing moves.
    assert!(!transfer(&mut from, &mut to, 301));
    assert_eq!(from, 300);
    assert_eq!(to, 300);

    // Destination would overflow: nothing moves.
    let mut full: u64 = u64::MAX - 10;
    assert!(!transfer(&mut from, &mut full, 11));
    assert_eq!(from, 300);
    assert_eq!(full, u64::MAX - 10);
}
