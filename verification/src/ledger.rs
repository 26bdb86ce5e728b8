use vstd::prelude::*;

verus! {

/// In-memory model of the external value ledger's transfer primitive.
///
/// A transfer is atomic per call: either the full amount moves from one
/// balance to the other, or nothing moves at all. It fails exactly when
/// the source cannot cover the amount or the destination would overflow
/// its representation.
pub fn transfer(from: &mut u64, to: &mut u64, amount: u64) -> (ok: bool)
    ensures
        ok <==> *old(from) >= amount && *old(to) + amount <= u64::MAX,
        ok ==> *final(from) == *old(from) - amount && *final(to) == *old(to) + amount,
        !ok ==> *final(from) == *old(from) && *final(to) == *old(to),
{
    if *from >= amount {
        match (*to).checked_add(amount) {
            Some(credited) => {
                *from = *from - amount;
                *to = credited;
                true
            }
            None => false,
        }
    } else {
        false
    }
}

} // verus!
