use vstd::prelude::*;

use crate::errors::ErrorKind;

verus! {

/// Largest admissible fee-rate setting of a root configuration, in basis
/// points (10000 = 100%).
pub const MAX_FEE_BPS: u16 = 10_000;

/// How a settlement price is divided between the owner and the treasury.
#[derive(Clone, Copy, Debug, PartialEq, Eq, Structural)]
pub struct Split {
    /// What the original owner receives.
    pub proceeds: u64,
    /// What the treasury receives.
    pub fee: u64,
}

/// Computes the settlement split of `price` under fee setting `fee_rate`.
///
/// The fee field of a root configuration is denominated like basis points
/// but the settlement rule applies it as an absolute deduction from the
/// price: `fee = fee_rate`, `proceeds = price - fee`. The subtraction is
/// checked; a fee larger than the price is an arithmetic error, never a
/// wrap-around.
pub fn settlement_split(price: u64, fee_rate: u16) -> (r: Result<Split, ErrorKind>)
    ensures
        fee_rate as u64 <= price ==> r is Ok
            && r->Ok_0.fee == fee_rate as u64
            && r->Ok_0.proceeds == price - fee_rate as u64
            && r->Ok_0.proceeds + r->Ok_0.fee == price,
        fee_rate as u64 > price ==> r == Err::<Split, ErrorKind>(ErrorKind::ArithmeticError),
{
    let fee = fee_rate as u64;
    if fee > price {
        return Err(ErrorKind::ArithmeticError);
    }
    Ok(Split { proceeds: price - fee, fee })
}

} // verus!
