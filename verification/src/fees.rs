//! The withdrawal fee: a fixed share of the denomination, in basis points.

use crate::state::{MixerError, BASIS_POINTS_DIVISOR, FEE_BASIS_POINTS};
use vstd::prelude::*;

verus! {

/// The fee on `amount`: `FEE_BASIS_POINTS` ten-thousandths, rounded down.
pub open spec fn spec_fee(amount: int) -> int {
    amount * FEE_BASIS_POINTS / (BASIS_POINTS_DIVISOR as int)
}

/// What is left of `amount` once the fee is taken.
pub open spec fn spec_net(amount: int) -> int {
    amount - spec_fee(amount)
}

/// An amount split into the fee and what the recipient gets.
#[derive(Clone, Copy, Debug, PartialEq, Eq, Structural)]
pub struct FeeSplit {
    pub fee: u64,
    pub net: u64,
}

/// Splits `amount` into fee and net amount. The product of the amount and
/// the fee rate is formed in 64 bits; where it does not fit, the split is
/// refused.
pub fn split_fee(amount: u64) -> (result: Result<FeeSplit, MixerError>)
    ensures
        amount * FEE_BASIS_POINTS <= u64::MAX ==> result == Ok::<FeeSplit, MixerError>(
            (FeeSplit { fee: spec_fee(amount as int) as u64, net: spec_net(amount as int) as u64 }),
        ),
        amount * FEE_BASIS_POINTS > u64::MAX ==> result == Err::<FeeSplit, MixerError>(
            MixerError::ArithmeticOverflow,
        ),
        result matches Ok(split) ==> split.fee + split.net == amount && split.fee <= amount,
{
    let scaled: u64 = match amount.checked_mul(FEE_BASIS_POINTS) {
        Some(v) => v,
        None => { return Err(MixerError::ArithmeticOverflow); },
    };
    let fee: u64 = match scaled.checked_div(BASIS_POINTS_DIVISOR) {
        Some(v) => v,
        None => { return Err(MixerError::ArithmeticOverflow); },
    };
    proof {
        lemma_fee_split_exact(amount as int);
    }
    let net: u64 = match amount.checked_sub(fee) {
        Some(v) => v,
        None => { return Err(MixerError::ArithmeticOverflow); },
    };
    Ok(FeeSplit { fee, net })
}

/// Fee and net amount add up to the amount exactly, and the fee is never
/// more than the amount.
pub proof fn lemma_fee_split_exact(amount: int)
    requires
        amount >= 0,
    ensures
        spec_fee(amount) == amount * 10 / 10000,
        spec_net(amount) == amount - spec_fee(amount),
        spec_fee(amount) + spec_net(amount) == amount,
        0 <= spec_fee(amount) <= amount,
        0 <= spec_net(amount) <= amount,
{
}

} // verus!
