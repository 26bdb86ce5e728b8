use vstd::prelude::*;

verus! {

/// Mathematical model of a game record: the secret target value and the
/// pot currently held in custody for the next winner.
pub struct GameView {
    pub secret: u8,
    pub pot: u64,
}

/// The sole persisted record of one game.
///
/// The fields are crate-private on purpose: from outside the crate a record
/// can be created only by `engine::initialize` (which starts the pot at
/// zero) or `engine::Guess::resume` (which re-admits stored state only
/// after checking the custody invariant), and mutated only by
/// `engine::guess`. No direct write path to the pot is exposed.
#[derive(Clone, Copy, PartialEq, Eq, Structural, Debug)]
pub struct Game {
    pub(crate) secret: u8,
    pub(crate) pot: u64,
}

impl View for Game {
    type V = GameView;

    open(crate) spec fn view(&self) -> GameView {
        GameView { secret: self.secret, pot: self.pot }
    }
}

impl Game {
    /// The secret target value. It is readable on purpose: in the host's
    /// storage the record is world-readable anyway, a known limitation of
    /// the game's design.
    pub fn secret(&self) -> (r: u8)
        ensures
            r == self@.secret,
    {
        self.secret
    }

    /// The value currently held in custody, in the smallest unit of the
    /// external ledger.
    pub fn pot(&self) -> (r: u64)
        ensures
            r == self@.pot,
    {
        self.pot
    }
}

} // verus!
