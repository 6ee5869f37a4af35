//! The loan agreement: principal and interest state machine, repayment
//! arithmetic, and repossession of the collateral — which must force-settle a
//! concurrently hired rental on the same asset before custody can move.
use vstd::prelude::*;

use crate::custody::{AgreementKind, CustodyAction, CustodyRecord};
use crate::error::ErrorCode;
use crate::fees::{calculate_loan_repayment_fee, fee_of, loan_interest, sum_fee_amounts, Creator};
use crate::rental::{prorated, settlement_permitted, Rental, RentalState,
    SettlementOutcome};
use crate::{pubkey_eq, Pubkey};

verus! {

/// `Listed -> Active -> { Repaid | Defaulted }`.
#[derive(Clone, Copy, Debug, PartialEq, Eq, Structural)]
pub enum LoanState {
    Listed,
    Active,
    Repaid,
    Defaulted,
}

/// A collateralised loan on the asset. `start_date` is set on activation and
/// immutable afterwards.
#[derive(Debug)]
pub struct Loan {
    pub lender: Option<Pubkey>,
    pub borrower: Pubkey,
    pub mint: Pubkey,
    /// The principal, in the smallest currency unit.
    pub amount: u64,
    /// Annual interest, in basis points.
    pub basis_points: u16,
    pub creator_basis_points: u16,
    /// Agreed term of the loan, in seconds.
    pub duration: i64,
    pub start_date: Option<i64>,
    pub state: LoanState,
}

impl Loan {
    /// An active loan always knows its lender and start date, and a term is
    /// never negative.
    pub open spec fn wf(self) -> bool {
        &&& self.state == LoanState::Active ==> self.start_date is Some && self.lender is Some
        &&& self.duration >= 0
    }

    /// A freshly listed loan: no lender yet, not started.
    pub fn list(
        borrower: Pubkey,
        mint: Pubkey,
        amount: u64,
        basis_points: u16,
        creator_basis_points: u16,
        duration: i64,
    ) -> (r: Loan)
        requires
            duration >= 0,
        ensures
            r.borrower@ == borrower@,
            r.mint@ == mint@,
            r.amount == amount,
            r.basis_points == basis_points,
            r.creator_basis_points == creator_basis_points,
            r.duration == duration,
            r.lender is None,
            r.start_date is None,
            r.state == LoanState::Listed,
            r.wf(),
    {
        Loan {
            lender: None,
            borrower,
            mint,
            amount,
            basis_points,
            creator_basis_points,
            duration,
            start_date: None,
            state: LoanState::Listed,
        }
    }

    /// Activates a listed loan: the lender funds it, the custody flag for the
    /// loan is taken (failing with `AlreadyLocked` or `LockConflict` exactly
    /// as [`CustodyRecord::acquire`] says), and the start date is recorded.
    pub fn activate(&mut self, custody: &mut CustodyRecord, lender: Pubkey, start_date: i64) -> (r:
        Result<CustodyAction, ErrorCode>)
        requires
            old(self).wf(),
        ensures
            final(self).wf(),
            r is Ok <==> old(self).state == LoanState::Listed && !old(custody).active.loan
                && !crate::custody::conflicts(AgreementKind::Loan, old(custody).active),
            r matches Ok(action) ==> {
                &&& final(self).state == LoanState::Active
                &&& final(self).lender matches Some(l) && l@ == lender@
                &&& final(self).start_date == Some(start_date)
                &&& final(self).borrower@ == old(self).borrower@
                &&& final(self).mint@ == old(self).mint@
                &&& final(self).amount == old(self).amount
                &&& final(self).basis_points == old(self).basis_points
                &&& final(self).creator_basis_points == old(self).creator_basis_points
                &&& final(self).duration == old(self).duration
                &&& final(custody).active == old(custody).active.spec_with_flag(
                    AgreementKind::Loan,
                    true,
                )
                &&& final(custody).delegate_authority_handle == old(
                    custody,
                ).delegate_authority_handle
                &&& action == (if old(custody).active.spec_none_active() {
                    CustodyAction::Freeze
                } else {
                    CustodyAction::NoAction
                })
            },
            r matches Err(e) ==> *final(self) == *old(self) && *final(custody) == *old(custody)
                && ((e == ErrorCode::InvalidState && old(self).state != LoanState::Listed) || (old(
                self,
            ).state == LoanState::Listed && e == (if old(custody).active.loan {
                ErrorCode::AlreadyLocked
            } else {
                ErrorCode::LockConflict
            }))),
    {
        match self.state {
            LoanState::Listed => {},
            _ => {
                return Err(ErrorCode::InvalidState);
            },
        }
        let action = match custody.acquire(AgreementKind::Loan) {
            Ok(a) => a,
            Err(e) => {
                return Err(e);
            },
        };
        self.lender = Some(lender);
        self.start_date = Some(start_date);
        self.state = LoanState::Active;
        Ok(action)
    }
}

/// What a successful repayment settles: the interest owed to the lender, the
/// creator fee (never subject to the late surcharge), their checked total,
/// and whether the asset must be thawed.
#[derive(Debug)]
pub struct RepaymentOutcome {
    pub interest_due: u64,
    pub creator_fee: u64,
    pub total_due: u64,
    /// `Thaw` when the loan was the last agreement holding the custody lock —
    /// an asset frozen solely for the loan is released on repayment.
    pub custody_action: CustodyAction,
}

/// Repays an active loan at `unix_timestamp`. Interest is the annual fee
/// prorated linearly over the elapsed time, plus the fixed late surcharge if
/// the term has expired; the creator fee accrues the same way at the
/// creator's basis points but never the surcharge. The loan reaches `Repaid`,
/// its custody flag is released, and every arithmetic step is checked: on any
/// overflow the call fails with `NumericalOverflow` and nothing changes.
pub fn handle_repay_loan(
    loan: &mut Loan,
    custody: &mut CustodyRecord,
    unix_timestamp: i64,
) -> (r: Result<RepaymentOutcome, ErrorCode>)
    requires
        old(loan).wf(),
        old(loan).state == LoanState::Active ==> old(custody).active.loan,
    ensures
        final(loan).wf(),
        r is Ok <==> ({
            let start = old(loan).start_date->0 as int;
            let elapsed = unix_timestamp - start;
            let expiry = start + old(loan).duration;
            let overdue = unix_timestamp > expiry;
            &&& old(loan).state == LoanState::Active
            &&& i64::MIN <= elapsed <= i64::MAX
            &&& expiry <= i64::MAX
            &&& elapsed >= 0
            &&& fee_of(old(loan).amount as int, old(loan).basis_points as int) <= u64::MAX
            &&& fee_of(old(loan).amount as int, old(loan).basis_points as int) * elapsed
                <= u64::MAX
            &&& loan_interest(old(loan).amount as int, old(loan).basis_points as int, elapsed,
            overdue) <= u64::MAX
            &&& fee_of(old(loan).amount as int, old(loan).creator_basis_points as int) <= u64::MAX
            &&& fee_of(old(loan).amount as int, old(loan).creator_basis_points as int) * elapsed
                <= u64::MAX
            &&& loan_interest(old(loan).amount as int, old(loan).basis_points as int, elapsed,
            overdue) + loan_interest(old(loan).amount as int,
                old(loan).creator_basis_points as int, elapsed, false) <= u64::MAX
        }),
        r matches Ok(o) ==> ({
            let start = old(loan).start_date->0 as int;
            let elapsed = unix_timestamp - start;
            let overdue = unix_timestamp > start + old(loan).duration;
            &&& o.interest_due == loan_interest(old(loan).amount as int,
            old(loan).basis_points as int, elapsed, overdue)
            &&& o.creator_fee == loan_interest(old(loan).amount as int,
            old(loan).creator_basis_points as int, elapsed, false)
            &&& o.total_due == o.interest_due + o.creator_fee
            &&& final(loan).state == LoanState::Repaid
            &&& *final(loan) == (Loan { state: LoanState::Repaid, ..*old(loan) })
            &&& final(custody).active == old(custody).active.spec_with_flag(
                AgreementKind::Loan,
                false,
            )
            &&& final(custody).delegate_authority_handle == old(custody).delegate_authority_handle
            &&& o.custody_action == (if final(custody).active.spec_none_active() {
                CustodyAction::Thaw
            } else {
                CustodyAction::NoAction
            })
        }),
        r matches Err(e) ==> *final(loan) == *old(loan) && *final(custody) == *old(custody) && ((e
            == ErrorCode::InvalidState && old(loan).state != LoanState::Active) || (e
            == ErrorCode::NumericalOverflow && old(loan).state == LoanState::Active)),
{
    match loan.state {
        LoanState::Active => {},
        _ => {
            return Err(ErrorCode::InvalidState);
        },
    }
    let start = match loan.start_date {
        Some(s) => s,
        None => {
            proof {
                assert(false);
            }
            return Err(ErrorCode::InvalidState);
        },
    };
    let elapsed = match unix_timestamp.checked_sub(start) {
        Some(v) => v,
        None => {
            return Err(ErrorCode::NumericalOverflow);
        },
    };
    let expiry = match start.checked_add(loan.duration) {
        Some(v) => v,
        None => {
            return Err(ErrorCode::NumericalOverflow);
        },
    };
    let is_overdue = unix_timestamp > expiry;
    let interest_due = match calculate_loan_repayment_fee(
        loan.amount,
        loan.basis_points,
        elapsed,
        is_overdue,
    ) {
        Ok(v) => v,
        Err(e) => {
            return Err(e);
        },
    };
    let creator_fee = match calculate_loan_repayment_fee(
        loan.amount,
        loan.creator_basis_points,
        elapsed,
        false,
    ) {
        Ok(v) => v,
        Err(e) => {
            return Err(e);
        },
    };
    let total_due = match interest_due.checked_add(creator_fee) {
        Some(v) => v,
        None => {
            return Err(ErrorCode::NumericalOverflow);
        },
    };
    let custody_action = match custody.release(AgreementKind::Loan) {
        Ok(a) => a,
        Err(_) => {
            proof {
                assert(false);
            }
            CustodyAction::NoAction
        },
    };
    loan.state = LoanState::Repaid;
    Ok(RepaymentOutcome { interest_due, creator_fee, total_due, custody_action })
}

/// What a successful repossession produces: the forced settlement of the
/// hired rental (the borrower keeps every unearned unit of rent), and the
/// custody action owed before the collateral moves to the lender.
#[derive(Debug)]
pub struct RepossessionOutcome {
    pub settlement: SettlementOutcome,
    /// `Thaw` when no agreement holds the lock any more, which is the moment
    /// the asset is thawed and transferred to the lender.
    pub custody_action: CustodyAction,
}

/// Repossesses the collateral of a defaulted loan while the asset is hired
/// out. Valid only from `Active`, and only once the term has fully elapsed —
/// repaying on time wins over repossession, which otherwise fails with
/// `NotOverdue`. The hired rental on the same asset is force-settled first,
/// inside the same atomic operation, so the rental borrower is refunded the
/// unearned rent before custody of the asset moves to the lender; then the
/// loan reaches `Defaulted` and both custody flags are released. All checks
/// precede every mutation: an error leaves all three records unchanged.
pub fn handle_repossess_collateral_with_hire(
    loan: &mut Loan,
    rental: &mut Rental,
    custody: &mut CustodyRecord,
    creators: &Vec<Creator>,
    supplied: &Vec<Pubkey>,
    unix_timestamp: i64,
) -> (r: Result<RepossessionOutcome, ErrorCode>)
    requires
        old(loan).wf(),
        old(loan).state == LoanState::Active ==> old(custody).active.loan,
        old(rental).current_start is Some && old(rental).current_expiry is Some ==> old(
            custody,
        ).active.rental,
    ensures
        final(loan).wf(),
        r is Ok <==> ({
            let start = old(loan).start_date->0 as int;
            &&& old(loan).state == LoanState::Active
            &&& old(rental).state == RentalState::Hired
            &&& old(loan).mint@ == old(rental).mint@
            &&& i64::MIN <= unix_timestamp - start <= i64::MAX
            &&& unix_timestamp - start >= old(loan).duration
            &&& settlement_permitted(*old(rental), creators@, supplied@, unix_timestamp as int)
        }),
        r matches Ok(o) ==> ({
            let earned = prorated(
                old(rental).escrow_balance as int,
                old(rental).current_start->0 as int,
                old(rental).current_expiry->0 as int,
                unix_timestamp as int,
            );
            &&& o.settlement.earned == earned
            &&& o.settlement.borrower_refund == old(rental).escrow_balance - earned
            &&& sum_fee_amounts(o.settlement.creator_fees@) + o.settlement.lender_amount
                + o.settlement.borrower_refund == old(rental).escrow_balance
            &&& o.settlement.borrower == old(rental).borrower
            &&& *final(loan) == (Loan { state: LoanState::Defaulted, ..*old(loan) })
            &&& final(rental).escrow_balance == 0
            &&& final(rental).current_start is None
            &&& final(rental).current_expiry is None
            &&& final(custody).active == old(custody).active.spec_with_flag(
                AgreementKind::Rental,
                false,
            ).spec_with_flag(AgreementKind::Loan, false)
            &&& final(custody).delegate_authority_handle == old(custody).delegate_authority_handle
            &&& o.custody_action == (if final(custody).active.spec_none_active() {
                CustodyAction::Thaw
            } else {
                CustodyAction::NoAction
            })
        }),
        r matches Err(e) ==> *final(loan) == *old(loan) && *final(rental) == *old(rental)
            && *final(custody) == *old(custody) && ({
            let start = old(loan).start_date->0 as int;
            if old(loan).state != LoanState::Active || old(rental).state != RentalState::Hired {
                e == ErrorCode::InvalidState
            } else if old(loan).mint@ != old(rental).mint@ {
                e == ErrorCode::InvalidMint
            } else if !(i64::MIN <= unix_timestamp - start <= i64::MAX) {
                e == ErrorCode::NumericalOverflow
            } else if unix_timestamp - start < old(loan).duration {
                e == ErrorCode::NotOverdue
            } else {
                (e == ErrorCode::InvalidState <==> (old(rental).current_start is None || old(
                    rental,
                ).current_expiry is None)) && (e == ErrorCode::InvalidState || e
                    == ErrorCode::NumericalOverflow || e == ErrorCode::InvalidCreatorAddress)
            }
        }),
{
    match loan.state {
        LoanState::Active => {},
        _ => {
            return Err(ErrorCode::InvalidState);
        },
    }
    match rental.state {
        RentalState::Hired => {},
        _ => {
            return Err(ErrorCode::InvalidState);
        },
    }
    if !pubkey_eq(&loan.mint, &rental.mint) {
        return Err(ErrorCode::InvalidMint);
    }
    let start = match loan.start_date {
        Some(s) => s,
        None => {
            proof {
                assert(false);
            }
            return Err(ErrorCode::InvalidState);
        },
    };
    let elapsed = match unix_timestamp.checked_sub(start) {
        Some(v) => v,
        None => {
            return Err(ErrorCode::NumericalOverflow);
        },
    };
    if elapsed < loan.duration {
        return Err(ErrorCode::NotOverdue);
    }
    let settlement = match rental.settle_rental_escrow_balance(
        custody,
        creators,
        supplied,
        unix_timestamp,
    ) {
        Ok(s) => s,
        Err(e) => {
            return Err(e);
        },
    };
    let custody_action = match custody.release(AgreementKind::Loan) {
        Ok(a) => a,
        Err(_) => {
            proof {
                assert(false);
            }
            CustodyAction::NoAction
        },
    };
    loan.state = LoanState::Defaulted;
    Ok(RepossessionOutcome { settlement, custody_action })
}

} // verus!
