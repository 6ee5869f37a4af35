//! A custody and settlement engine for a single non-fungible asset that can
//! simultaneously be collateral for a loan, the subject of a time-rental, and
//! the underlying of a call option. The three agreement state machines share
//! one custody record; a terminal transition of one agreement may force-settle
//! a concurrently active rental before custody of the asset can move.
//!
//! All monetary values are non-negative integers in the smallest currency
//! unit, and every piece of fee and proration arithmetic is checked: an
//! operation either commits all of its state changes or fails validation
//! before any mutation.
use vstd::prelude::*;

pub mod call_option;
pub mod custody;
pub mod error;
pub mod fees;
pub mod loan;
pub mod rental;
pub mod schema;

verus! {

/// An account address, held as its raw 32 bytes.
pub type Pubkey = [u8; 32];

/// Fee denominator: basis points are 1/100th of a percent.
pub const BASIS_POINTS_DIVISOR: u64 = 10_000;

/// Interest accrues linearly over a 365-day year.
pub const SECONDS_PER_YEAR: u64 = 31_536_000;

/// Rental periods are billed per day.
pub const SECONDS_PER_DAY: i64 = 86_400;

/// Fixed surcharge, in basis points of the principal, added once a loan
/// repayment arrives after the agreed duration.
pub const LATE_REPAYMENT_FEE_BASIS_POINTS: u64 = 500;

/// Byte-wise address equality.
pub fn pubkey_eq(a: &Pubkey, b: &Pubkey) -> (r: bool)
    ensures
        r <==> a@ == b@,
{
    let mut i: usize = 0;
    while i < 32
        invariant
            0 <= i <= 32,
            forall|j: int| 0 <= j < i ==> a@[j] == b@[j],
        decreases 32 - i,
    {
        if a[i] != b[i] {
            assert(a@ != b@);
            return false;
        }
        i += 1;
    }
    assert(a@ =~= b@);
    true
}

} // verus!
