//! Creator-royalty distribution: splitting a payment into per-creator shares
//! plus a remainder, and linear interest proration for loan repayments.
//!
//! Rounding policy: every division floors, and the leftover units from
//! rounding accrue to the payer, never to a creator.
use vstd::prelude::*;

use crate::error::ErrorCode;
use crate::{Pubkey, pubkey_eq, BASIS_POINTS_DIVISOR, LATE_REPAYMENT_FEE_BASIS_POINTS,
    SECONDS_PER_YEAR};

verus! {

/// An entry of the asset's on-record creator list: an address and its
/// percentage share (out of 100) of every royalty fee.
#[derive(Clone, Copy, Debug, PartialEq, Eq)]
pub struct Creator {
    pub address: Pubkey,
    pub share: u8,
}

/// One computed royalty payout: `amount` owed to `address`.
#[derive(Clone, Copy, Debug, PartialEq, Eq)]
pub struct CreatorFee {
    pub amount: u64,
    pub address: Pubkey,
}

/// The royalty fee on `amount` at `basis_points`, floored at the division.
pub open spec fn fee_of(amount: int, basis_points: int) -> int {
    amount * basis_points / (BASIS_POINTS_DIVISOR as int)
}

/// One creator's slice of `total_fee` at `share` percent, floored.
pub open spec fn share_of(total_fee: int, share: int) -> int {
    share * total_fee / 100
}

/// Total of the computed per-creator payouts.
pub open spec fn sum_fee_amounts(fees: Seq<CreatorFee>) -> int
    decreases fees.len(),
{
    if fees.len() == 0 {
        0
    } else {
        sum_fee_amounts(fees.drop_last()) + fees.last().amount
    }
}

/// The exact outcome of walking the creator list in order with `remaining_fee`
/// still undistributed: either every creator's share, or the first failure.
/// A share that cannot be represented, or that exceeds what is left of the
/// fee, is an overflow; a supplied address that is missing or differs from
/// the on-record one is rejected.
pub open spec fn creator_split(
    total_fee: int,
    remaining_fee: int,
    creators: Seq<Creator>,
    supplied: Seq<Pubkey>,
) -> Result<Seq<u64>, ErrorCode>
    decreases creators.len(),
{
    if creators.len() == 0 {
        Ok(Seq::empty())
    } else {
        let share = share_of(total_fee, creators[0].share as int);
        if share > u64::MAX {
            Err(ErrorCode::NumericalOverflow)
        } else if share > remaining_fee {
            Err(ErrorCode::NumericalOverflow)
        } else if supplied.len() == 0 || supplied[0]@ != creators[0].address@ {
            Err(ErrorCode::InvalidCreatorAddress)
        } else {
            match creator_split(total_fee, remaining_fee - share, creators.skip(1),
                supplied.skip(1)) {
                Ok(rest) => Ok(seq![share as u64] + rest),
                Err(e) => Err(e),
            }
        }
    }
}

/// `floor(amount * basis_points / 10_000)`, widened to 128 bits before the
/// narrowing back to a 64-bit fee.
pub fn calculate_fee_from_basis_points(amount: u128, basis_points: u128) -> (r: Result<
    u64,
    ErrorCode,
>)
    ensures
        r is Ok <==> amount * basis_points <= u128::MAX && fee_of(
            amount as int,
            basis_points as int,
        ) <= u64::MAX,
        r is Ok ==> r->Ok_0 == fee_of(amount as int, basis_points as int),
        r is Err ==> r->Err_0 == ErrorCode::NumericalOverflow,
{
    proof {
        assert(basis_points * amount == amount * basis_points) by (nonlinear_arith);
    }
    let product = match basis_points.checked_mul(amount) {
        Some(p) => p,
        None => {
            return Err(ErrorCode::NumericalOverflow);
        },
    };
    let total_fee = product / (BASIS_POINTS_DIVISOR as u128);
    if total_fee > u64::MAX as u128 {
        return Err(ErrorCode::NumericalOverflow);
    }
    Ok(total_fee as u64)
}

/// Splits `amount` into the total royalty fee at `basis_points`, each
/// creator's floored percentage share of that fee, and the remainder owed
/// back to the payer. `supplied` is the list of creator addresses the caller
/// was handed; each must match the on-record list in order.
///
/// On success the shares and the remainder partition `amount` exactly: no
/// value is created or destroyed by rounding.
pub fn get_creator_fees(
    amount: u64,
    basis_points: u16,
    creators: &Vec<Creator>,
    supplied: &Vec<Pubkey>,
) -> (r: Result<(Vec<CreatorFee>, u64), ErrorCode>)
    ensures
        r is Ok <==> fee_of(amount as int, basis_points as int) <= amount && creator_split(
            fee_of(amount as int, basis_points as int),
            fee_of(amount as int, basis_points as int),
            creators@,
            supplied@,
        ) is Ok,
        r matches Ok((fees, remaining)) ==> {
            let total_fee = fee_of(amount as int, basis_points as int);
            let shares = creator_split(total_fee, total_fee, creators@, supplied@)->Ok_0;
            &&& fees@.len() == creators@.len()
            &&& forall|i: int|
                0 <= i < fees@.len() ==> fees@[i].amount == shares[i] && fees@[i].address@
                    == creators@[i].address@
            &&& sum_fee_amounts(fees@) + remaining == amount
            &&& remaining <= amount
        },
        r matches Err(e) ==> {
            let total_fee = fee_of(amount as int, basis_points as int);
            ||| total_fee > amount && e == ErrorCode::NumericalOverflow
            ||| total_fee <= amount && (creator_split(total_fee, total_fee, creators@, supplied@)
                matches Err(f) && e == f)
        },
{
    proof {
        lemma_fee_of_u64_bounds(amount as int, basis_points as int);
    }
    let total_fee = match calculate_fee_from_basis_points(amount as u128, basis_points as u128) {
        Ok(f) => f,
        Err(e) => {
            return Err(e);
        },
    };
    let remaining_amount = match amount.checked_sub(total_fee) {
        Some(v) => v,
        None => {
            return Err(ErrorCode::NumericalOverflow);
        },
    };
    let mut remaining_fee = total_fee;
    let mut fees: Vec<CreatorFee> = Vec::new();
    let mut i: usize = 0;
    proof {
        assert(creators@.skip(0) =~= creators@);
        assert(supplied@.skip(0) =~= supplied@);
        assert(fees@.map_values(|f: CreatorFee| f.amount) =~= Seq::<u64>::empty());
        let sp = creator_split(total_fee as int, total_fee as int, creators@, supplied@);
        if sp is Ok {
            assert(fees@.map_values(|f: CreatorFee| f.amount) + sp->Ok_0 =~= sp->Ok_0);
        }
    }
    while i < creators.len()
        invariant
            0 <= i <= creators@.len(),
            i <= supplied@.len(),
            fees@.len() == i,
            total_fee == fee_of(amount as int, basis_points as int),
            total_fee <= amount,
            remaining_amount == amount - total_fee,
            remaining_fee <= total_fee,
            sum_fee_amounts(fees@) == total_fee - remaining_fee,
            forall|j: int|
                0 <= j < i ==> fees@[j].amount == share_of(total_fee as int, creators@[j].share as int)
                    && fees@[j].address@ == creators@[j].address@,
            creator_split(total_fee as int, total_fee as int, creators@, supplied@) == (match
                creator_split(total_fee as int, remaining_fee as int, creators@.skip(i as int),
                supplied@.skip(i as int)) {
                Ok(rest) => Ok::<Seq<u64>, ErrorCode>(fees@.map_values(|f: CreatorFee| f.amount) + rest),
                Err(e) => Err(e),
            }),
        decreases creators@.len() - i,
    {
        let c = creators[i];
        proof {
            vstd::arithmetic::mul::lemma_mul_upper_bound(c.share as int, u8::MAX as int,
                total_fee as int, u64::MAX as int);
        }
        let product = (c.share as u128) * (total_fee as u128);
        let share128 = product / 100;
        proof {
            assert(creators@.skip(i as int)[0] == creators@[i as int]);
            assert(share128 == share_of(total_fee as int, c.share as int));
        }
        if share128 > u64::MAX as u128 {
            return Err(ErrorCode::NumericalOverflow);
        }
        let share = share128 as u64;
        remaining_fee = match remaining_fee.checked_sub(share) {
            Some(v) => v,
            None => {
                return Err(ErrorCode::NumericalOverflow);
            },
        };
        if i >= supplied.len() {
            return Err(ErrorCode::InvalidCreatorAddress);
        }
        let s = supplied[i];
        if !pubkey_eq(&s, &c.address) {
            proof {
                assert(supplied@.skip(i as int)[0] == supplied@[i as int]);
            }
            return Err(ErrorCode::InvalidCreatorAddress);
        }
        let ghost old_fees = fees@;
        fees.push(CreatorFee { amount: share, address: c.address });
        i += 1;
        proof {
            assert(fees@.drop_last() == old_fees);
            assert(supplied@.skip(i - 1).skip(1) =~= supplied@.skip(i as int));
            assert(creators@.skip(i - 1).skip(1) =~= creators@.skip(i as int));
            assert(supplied@.skip(i - 1)[0] == supplied@[i - 1]);
            assert(fees@.map_values(|f: CreatorFee| f.amount) =~= old_fees.map_values(
                |f: CreatorFee| f.amount) + seq![share]);
            assert(old_fees.map_values(|f: CreatorFee| f.amount) + (seq![share]
                + creator_split(total_fee as int, remaining_fee as int,
                    creators@.skip(i as int), supplied@.skip(i as int))->Ok_0) =~= fees@.map_values(
                |f: CreatorFee| f.amount) + creator_split(total_fee as int, remaining_fee as int,
                creators@.skip(i as int), supplied@.skip(i as int))->Ok_0);
        }
    }
    proof {
        assert(creators@.skip(i as int).len() == 0);
        assert(fees@.map_values(|f: CreatorFee| f.amount) + Seq::<u64>::empty() =~= fees@.map_values(
            |f: CreatorFee| f.amount));
    }
    let remaining = remaining_amount + remaining_fee;
    Ok((fees, remaining))
}

/// The fee on a 64-bit amount at 16-bit basis points always fits 128 bits,
/// is never negative, and stays at or below the amount whenever the basis
/// points stay at or below the divisor.
pub proof fn lemma_fee_of_u64_bounds(amount: int, basis_points: int)
    requires
        0 <= amount <= u64::MAX,
        0 <= basis_points <= u16::MAX,
    ensures
        amount * basis_points <= u128::MAX,
        basis_points <= BASIS_POINTS_DIVISOR ==> fee_of(amount, basis_points) <= amount,
        fee_of(amount, basis_points) >= 0,
{
    let d = BASIS_POINTS_DIVISOR as int;
    vstd::arithmetic::mul::lemma_mul_upper_bound(amount, u64::MAX as int, basis_points,
        u16::MAX as int);
    vstd::arithmetic::mul::lemma_mul_nonnegative(amount, basis_points);
    vstd::arithmetic::div_mod::lemma_div_pos_is_pos(amount * basis_points, d);
    if basis_points <= BASIS_POINTS_DIVISOR {
        vstd::arithmetic::mul::lemma_mul_inequality(basis_points, d, amount);
        assert(basis_points * amount == amount * basis_points)
            by (nonlinear_arith);
        assert(d * amount == amount * d) by (nonlinear_arith);
        vstd::arithmetic::div_mod::lemma_div_is_ordered(amount * basis_points, d * amount, d);
        vstd::arithmetic::div_mod::lemma_div_multiples_vanish(amount, d);
    }
}

/// Walking the creator list can fail only over arithmetic or over a
/// mismatched address, never with any other error kind.
pub proof fn lemma_creator_split_err_kinds(
    total_fee: int,
    remaining_fee: int,
    creators: Seq<Creator>,
    supplied: Seq<Pubkey>,
)
    ensures
        creator_split(total_fee, remaining_fee, creators, supplied) matches Err(e) ==> e
            == ErrorCode::NumericalOverflow || e == ErrorCode::InvalidCreatorAddress,
    decreases creators.len(),
{
    if creators.len() > 0 {
        let share = share_of(total_fee, creators[0].share as int);
        if share <= u64::MAX && share <= remaining_fee && supplied.len() > 0 && supplied[0]@
            == creators[0].address@ {
            lemma_creator_split_err_kinds(total_fee, remaining_fee - share, creators.skip(1),
                supplied.skip(1));
        }
    }
}

/// Linear interest owed on a loan of `amount` at annual `basis_points` after
/// `duration` seconds, plus the fixed late surcharge when overdue.
pub open spec fn loan_interest(amount: int, basis_points: int, duration: int,
    is_overdue: bool) -> int {
    fee_of(amount, basis_points) * duration / (SECONDS_PER_YEAR as int) + if is_overdue {
        fee_of(amount, LATE_REPAYMENT_FEE_BASIS_POINTS as int)
    } else {
        0
    }
}

/// Interest owed after `duration` seconds on a loan of `amount` at annual
/// `basis_points`: the annual fee prorated linearly over the elapsed time,
/// plus the fixed late surcharge when `is_overdue`. Every step is checked:
/// a negative elapsed time, or any intermediate that does not fit 64 bits,
/// fails with `NumericalOverflow` instead of wrapping.
pub fn calculate_loan_repayment_fee(
    amount: u64,
    basis_points: u16,
    duration: i64,
    is_overdue: bool,
) -> (r: Result<u64, ErrorCode>)
    ensures
        r is Ok <==> duration >= 0 && fee_of(amount as int, basis_points as int) <= u64::MAX
            && fee_of(amount as int, basis_points as int) * duration <= u64::MAX && loan_interest(
            amount as int,
            basis_points as int,
            duration as int,
            is_overdue,
        ) <= u64::MAX,
        r matches Ok(v) ==> v == loan_interest(
            amount as int,
            basis_points as int,
            duration as int,
            is_overdue,
        ),
        r matches Err(e) ==> e == ErrorCode::NumericalOverflow,
{
    if duration < 0 {
        return Err(ErrorCode::NumericalOverflow);
    }
    proof {
        lemma_fee_of_u64_bounds(amount as int, basis_points as int);
    }
    let annual_fee = match calculate_fee_from_basis_points(amount as u128, basis_points as u128) {
        Ok(v) => v,
        Err(e) => {
            return Err(e);
        },
    };
    let scaled = match annual_fee.checked_mul(duration as u64) {
        Some(v) => v,
        None => {
            return Err(ErrorCode::NumericalOverflow);
        },
    };
    let base_interest = scaled / SECONDS_PER_YEAR;
    if is_overdue {
        proof {
            assert(LATE_REPAYMENT_FEE_BASIS_POINTS <= u16::MAX);
            lemma_fee_of_u64_bounds(amount as int, LATE_REPAYMENT_FEE_BASIS_POINTS as int);
        }
        let late_fee = match calculate_fee_from_basis_points(
            amount as u128,
            LATE_REPAYMENT_FEE_BASIS_POINTS as u128,
        ) {
            Ok(v) => v,
            Err(e) => {
                return Err(e);
            },
        };
        match base_interest.checked_add(late_fee) {
            Some(v) => Ok(v),
            None => Err(ErrorCode::NumericalOverflow),
        }
    } else {
        Ok(base_interest)
    }
}

} // verus!
