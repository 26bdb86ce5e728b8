use vstd::prelude::*;

use crate::game::{Game, GameView};
use crate::ledger;

verus! {

/// Why a call to `guess` can fail.
#[derive(Clone, Copy, PartialEq, Eq, Structural, Debug)]
pub enum GameError {
    /// The participant's balance does not cover the entry fee; nothing was
    /// moved or recorded.
    InsufficientFunds,
    /// The ledger rejected the fee transfer (the pot custodian's balance
    /// cannot take the credit); nothing was moved or recorded.
    TransferFailure,
    /// The fee was collected, the guess won, but the payout credit to the
    /// participant could not be completed. The pot is left intact so that
    /// no value is destroyed, and the failure is surfaced for manual
    /// reconciliation rather than swallowed.
    PayoutInconsistency,
}

/// What a completed call to `guess` reports back.
#[derive(Clone, Copy, PartialEq, Eq, Structural, Debug)]
pub enum GuessOutcome {
    /// The guess matched the secret; the whole pot, fee included, was paid
    /// out. Carries the amount credited to the participant.
    Won(u64),
    /// The guess was below the secret; the fee stays in the pot.
    TooLow,
    /// The guess was above the secret; the fee stays in the pot.
    TooHigh,
}

/// Everything one call to `guess` reads and writes: the game record, the
/// guessing participant's ledger balance, and the balance of the account
/// holding the pot in custody.
///
/// Taking the context by exclusive reference is what serializes guesses
/// against one record: two calls against the same `Guess` value can never
/// interleave their reads and writes of the pot.
#[derive(Clone, Copy, PartialEq, Eq, Structural, Debug)]
pub struct Guess {
    pub game: Game,
    pub player_balance: u64,
    pub game_balance: u64,
}

/// Mathematical model of a `Guess` context.
pub struct GuessView {
    pub game: GameView,
    pub player_balance: u64,
    pub game_balance: u64,
}

impl View for Guess {
    type V = GuessView;

    open spec fn view(&self) -> GuessView {
        GuessView {
            game: self.game@,
            player_balance: self.player_balance,
            game_balance: self.game_balance,
        }
    }
}

impl GuessView {
    /// The custody invariant: the account holding the pot really holds at
    /// least the amount the record promises to the next winner.
    pub open spec fn wf(self) -> bool {
        self.game.pot <= self.game_balance
    }

    /// The participant can cover the entry fee.
    pub open spec fn can_pay_fee(self, fee: u64) -> bool {
        self.player_balance >= fee
    }

    /// The custodian's balance can take the fee credit.
    pub open spec fn fee_fits(self, fee: u64) -> bool {
        self.game_balance + fee <= u64::MAX
    }

    /// The state after the fee has been collected: the fee has moved from
    /// the participant to the custodian, and the record mirrors the credit.
    pub open spec fn after_fee(self, fee: u64) -> GuessView {
        GuessView {
            game: GameView { secret: self.game.secret, pot: (self.game.pot + fee) as u64 },
            player_balance: (self.player_balance - fee) as u64,
            game_balance: (self.game_balance + fee) as u64,
        }
    }

    /// The participant's balance can take the whole pot as a credit.
    pub open spec fn payout_fits(self) -> bool {
        self.player_balance + self.game.pot <= u64::MAX
    }

    /// The state after a payout: the pot is zero and its full former value
    /// has moved from the custodian to the participant.
    pub open spec fn after_payout(self) -> GuessView {
        GuessView {
            game: GameView { secret: self.game.secret, pot: 0 },
            player_balance: (self.player_balance + self.game.pot) as u64,
            game_balance: (self.game_balance - self.game.pot) as u64,
        }
    }
}

/// The state `guess` leaves behind, as a function of the state it found.
pub open spec fn guess_post(s: GuessView, fee: u64, g: u8) -> GuessView {
    if !s.can_pay_fee(fee) || !s.fee_fits(fee) {
        s
    } else {
        let paid = s.after_fee(fee);
        if g == s.game.secret && paid.payout_fits() {
            paid.after_payout()
        } else {
            paid
        }
    }
}

/// What `guess` reports, as a function of the state it found.
pub open spec fn guess_result(s: GuessView, fee: u64, g: u8) -> Result<GuessOutcome, GameError> {
    if !s.can_pay_fee(fee) {
        Err(GameError::InsufficientFunds)
    } else if !s.fee_fits(fee) {
        Err(GameError::TransferFailure)
    } else if g == s.game.secret {
        if s.after_fee(fee).payout_fits() {
            Ok(GuessOutcome::Won(s.after_fee(fee).game.pot))
        } else {
            Err(GameError::PayoutInconsistency)
        }
    } else if g < s.game.secret {
        Ok(GuessOutcome::TooLow)
    } else {
        Ok(GuessOutcome::TooHigh)
    }
}

/// The state left behind by a whole sequence of guesses, first guess
/// first, each one paying the same fee.
pub open spec fn run(s: GuessView, fee: u64, guesses: Seq<u8>) -> GuessView
    decreases guesses.len(),
{
    if guesses.len() == 0 {
        s
    } else {
        run(guess_post(s, fee, guesses[0]), fee, guesses.drop_first())
    }
}

/// Pot conservation: a sequence of solvent, non-winning guesses raises the
/// pot by exactly one fee per guess, and the total value held by the
/// participant and the pot custodian together never changes — value only
/// moves, it is neither created nor destroyed. The secret and the custody
/// invariant survive the whole sequence.
pub proof fn lemma_pot_conservation(s: GuessView, fee: u64, guesses: Seq<u8>)
    requires
        s.wf(),
        forall|i: int| 0 <= i < guesses.len() ==> guesses[i] != s.game.secret,
        s.player_balance >= guesses.len() * fee,
        s.game_balance + guesses.len() * fee <= u64::MAX,
    ensures
        run(s, fee, guesses).game.pot == s.game.pot + guesses.len() * fee,
        run(s, fee, guesses).player_balance == s.player_balance - guesses.len() * fee,
        run(s, fee, guesses).game_balance == s.game_balance + guesses.len() * fee,
        run(s, fee, guesses).player_balance + run(s, fee, guesses).game_balance
            == s.player_balance + s.game_balance,
        run(s, fee, guesses).game.secret == s.game.secret,
        run(s, fee, guesses).wf(),
    decreases guesses.len(),
{
    if guesses.len() > 0 {
        let n = guesses.len() as int;
        assert(fee <= n * fee && (n - 1) * fee == n * fee - fee) by (nonlinear_arith)
            requires
                n >= 1,
                fee >= 0,
        ;
        let s1 = guess_post(s, fee, guesses[0]);
        assert(s1 == s.after_fee(fee));
        let rest = guesses.drop_first();
        assert forall|i: int| 0 <= i < rest.len() implies rest[i] != s1.game.secret by {
            assert(rest[i] == guesses[i + 1]);
        }
        lemma_pot_conservation(s1, fee, rest);
    }
}

/// No double payout: a winning guess pays out exactly the pot accumulated
/// up to and including its own fee, and resets the pot to zero; after any
/// number of losing guesses in between, a second winning guess pays out
/// exactly the fees collected strictly after the first win — never the
/// earlier pot again.
pub proof fn lemma_no_double_payout(s: GuessView, fee: u64, losses: Seq<u8>)
    requires
        s.wf(),
        s.can_pay_fee(fee),
        s.fee_fits(fee),
        s.after_fee(fee).payout_fits(),
        forall|i: int| 0 <= i < losses.len() ==> losses[i] != s.game.secret,
        // the participant stays solvent for the in-between losses and the
        // second winning guess, and the custodian can take their fees
        s.player_balance + s.game.pot >= (losses.len() + 1) * fee,
        s.game_balance - s.game.pot + (losses.len() + 1) * fee <= u64::MAX,
    ensures
        ({
            let s1 = guess_post(s, fee, s.game.secret);
            let s2 = run(s1, fee, losses);
            &&& guess_result(s, fee, s.game.secret) == Ok::<GuessOutcome, GameError>(
                GuessOutcome::Won((s.game.pot + fee) as u64),
            )
            &&& s1.game.pot == 0
            &&& s2.game.pot == losses.len() * fee
            &&& guess_result(s2, fee, s.game.secret) == Ok::<GuessOutcome, GameError>(
                GuessOutcome::Won((losses.len() * fee + fee) as u64),
            )
            &&& guess_post(s2, fee, s.game.secret).game.pot == 0
        }),
{
    let n = losses.len() as int;
    assert(n * fee <= (n + 1) * fee && (n + 1) * fee == n * fee + fee) by (nonlinear_arith)
        requires
            n >= 0,
            fee >= 0,
    ;
    let s1 = guess_post(s, fee, s.game.secret);
    assert(s1 == s.after_fee(fee).after_payout());
    lemma_pot_conservation(s1, fee, losses);
    let s2 = run(s1, fee, losses);
    assert(s2.after_fee(fee).payout_fits());
}

/// Creates the one game record: the caller-supplied secret and an empty
/// pot. How the record is registered in the host's storage is the host's
/// concern; exactly one record is produced per call.
pub fn initialize(secret: u8) -> (game: Game)
    ensures
        game@.secret == secret,
        game@.pot == 0,
{
    Game { secret, pot: 0 }
}

impl Guess {
    /// Rebuilds a call context from a stored record and the two ledger
    /// balances the host read. Stored state is admitted only when the
    /// custody invariant holds: a record whose pot exceeds what its
    /// account holds is refused as corrupt.
    pub fn resume(secret: u8, pot: u64, player_balance: u64, game_balance: u64) -> (c: Option<
        Guess,
    >)
        ensures
            c matches Some(c0) ==> c0@ == (GuessView {
                game: GameView { secret, pot },
                player_balance,
                game_balance,
            }) && c0@.wf(),
            c is None <==> pot > game_balance,
    {
        if pot <= game_balance {
            Some(Guess { game: Game { secret, pot }, player_balance, game_balance })
        } else {
            None
        }
    }
}

/// One guess, executed as a single logical transaction: check solvency,
/// collect the fee into the pot, then either pay the whole pot out (on a
/// match) or report a directional hint (otherwise). A losing guess
/// permanently forfeits the fee into the pot; no path refunds it.
pub fn guess(ctx: &mut Guess, fee: u64, user_guess: u8) -> (r: Result<GuessOutcome, GameError>)
    requires
        old(ctx)@.wf(),
    ensures
        final(ctx)@ == guess_post(old(ctx)@, fee, user_guess),
        r == guess_result(old(ctx)@, fee, user_guess),
        // the custody invariant is preserved
        final(ctx)@.wf(),
        // the secret is immutable after creation
        final(ctx)@.game.secret == old(ctx)@.game.secret,
        // value is conserved: it only ever moves between the two balances
        final(ctx)@.player_balance + final(ctx)@.game_balance
            == old(ctx)@.player_balance + old(ctx)@.game_balance,
        // an insolvent participant is turned away with no side effects
        r == Err::<GuessOutcome, GameError>(GameError::InsufficientFunds)
            <==> old(ctx)@.player_balance < fee,
        (r == Err::<GuessOutcome, GameError>(GameError::InsufficientFunds)
            || r == Err::<GuessOutcome, GameError>(GameError::TransferFailure))
            ==> final(ctx)@ == old(ctx)@,
        // a win drains the pot exactly: the payout is the pot as captured
        // after the fee credit, no staler and no larger a value
        (r matches Ok(GuessOutcome::Won(amount))
            ==> amount == old(ctx)@.game.pot + fee
                && final(ctx)@.game.pot == 0
                && final(ctx)@.player_balance == old(ctx)@.player_balance - fee + amount
                && final(ctx)@.game_balance == old(ctx)@.game_balance + fee - amount),
        // directional hints are truthful, and are the only outcomes of a
        // paid losing guess
        r == Ok::<GuessOutcome, GameError>(GuessOutcome::TooLow)
            <==> old(ctx)@.can_pay_fee(fee) && old(ctx)@.fee_fits(fee)
                && user_guess < old(ctx)@.game.secret,
        r == Ok::<GuessOutcome, GameError>(GuessOutcome::TooHigh)
            <==> old(ctx)@.can_pay_fee(fee) && old(ctx)@.fee_fits(fee)
                && user_guess > old(ctx)@.game.secret,
        // a losing guess changes nothing but the fee accounting
        (r is Ok && user_guess != old(ctx)@.game.secret)
            ==> final(ctx)@ == old(ctx)@.after_fee(fee),
        // a payout the ledger cannot complete is surfaced, never swallowed:
        // the fee stays collected, the pot stays intact, no value is lost
        r == Err::<GuessOutcome, GameError>(GameError::PayoutInconsistency)
            <==> old(ctx)@.can_pay_fee(fee) && old(ctx)@.fee_fits(fee)
                && user_guess == old(ctx)@.game.secret
                && !old(ctx)@.after_fee(fee).payout_fits(),
        r == Err::<GuessOutcome, GameError>(GameError::PayoutInconsistency)
            ==> final(ctx)@ == old(ctx)@.after_fee(fee),
{
    if ctx.player_balance < fee {
        return Err(GameError::InsufficientFunds);
    }
    // Fee transfer: participant -> pot custodian, mirrored in the record
    // only once the ledger confirms the credit.
    let fee_moved = ledger::transfer(&mut ctx.player_balance, &mut ctx.game_balance, fee);
    if !fee_moved {
        return Err(GameError::TransferFailure);
    }
    ctx.game.pot = ctx.game.pot + fee;
    if user_guess == ctx.game.secret {
        // Capture the pot and zero it before the payout transfer.
        let pot = ctx.game.pot;
        ctx.game.pot = 0;
        let paid = ledger::transfer(&mut ctx.game_balance, &mut ctx.player_balance, pot);
        if paid {
            Ok(GuessOutcome::Won(pot))
        } else {
            // The ledger moved nothing, so restoring the captured value
            // keeps the record true; the inconsistency is surfaced.
            ctx.game.pot = pot;
            Err(GameError::PayoutInconsistency)
        }
    } else if user_guess < ctx.game.secret {
        Ok(GuessOutcome::TooLow)
    } else {
        Ok(GuessOutcome::TooHigh)
    }
}

} // verus!
