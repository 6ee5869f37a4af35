//! The rental agreement: per-period billing into escrow, and the single
//! time-prorated settlement routine shared by voluntary end-of-period close,
//! loan repossession and call-option exercise — one algorithm, multiple
//! callers, so the proration rule is the same whoever triggers it.
use vstd::prelude::*;

use crate::custody::{CustodyAction, CustodyRecord};
use crate::error::ErrorCode;
use crate::fees::{creator_split, fee_of, get_creator_fees, sum_fee_amounts, Creator, CreatorFee};
use crate::{Pubkey, SECONDS_PER_DAY};

verus! {

/// A rental is repeatable: `Listed -> Hired -> Listed`, until an external
/// force-settlement terminates the current period.
#[derive(Clone, Copy, Debug, PartialEq, Eq, Structural)]
pub enum RentalState {
    Listed,
    Hired,
}

/// A time-rental of the asset: `amount` per day is charged into escrow up
/// front, and earned by the lender linearly over the period.
#[derive(Debug)]
pub struct Rental {
    pub lender: Pubkey,
    pub borrower: Option<Pubkey>,
    pub mint: Pubkey,
    /// Price of one day of rental, in the smallest currency unit.
    pub amount: u64,
    pub creator_basis_points: u16,
    /// Rent paid up front and not yet settled; unearned rent is owed back to
    /// the borrower if the period ends early.
    pub escrow_balance: u64,
    pub current_start: Option<i64>,
    pub current_expiry: Option<i64>,
    pub state: RentalState,
}

/// Rent earned by the lender out of `balance` at time `now`, prorated
/// linearly over the period and floored at the division; the whole balance
/// once the period has fully elapsed, nothing before it starts.
pub open spec fn prorated(balance: int, start: int, expiry: int, now: int) -> int {
    if now >= expiry {
        balance
    } else if now <= start {
        0
    } else {
        balance * (now - start) / (expiry - start)
    }
}

/// When a withdrawal or settlement at `now` is permitted and every
/// arithmetic step of it fits: the period must be set, and the earned
/// amount's royalty split must go through.
pub open spec fn settlement_permitted(
    r: Rental,
    creators: Seq<Creator>,
    supplied: Seq<Pubkey>,
    now: int,
) -> bool {
    let earned = prorated(
        r.escrow_balance as int,
        r.current_start->0 as int,
        r.current_expiry->0 as int,
        now,
    );
    &&& r.current_start is Some
    &&& r.current_expiry is Some
    &&& fee_of(earned, r.creator_basis_points as int) <= earned
    &&& creator_split(
        fee_of(earned, r.creator_basis_points as int),
        fee_of(earned, r.creator_basis_points as int),
        creators,
        supplied,
    ) is Ok
}

impl Rental {
    /// A rental period, once set, is well-ordered: the expiry never precedes
    /// the start.
    pub open spec fn wf(self) -> bool {
        self.current_start is Some && self.current_expiry is Some
            ==> self.current_start->0 <= self.current_expiry->0
    }

    /// A freshly listed rental: no period, no escrow, no borrower.
    pub fn list(lender: Pubkey, mint: Pubkey, amount: u64, creator_basis_points: u16) -> (r:
        Rental)
        ensures
            r.lender@ == lender@,
            r.mint@ == mint@,
            r.amount == amount,
            r.creator_basis_points == creator_basis_points,
            r.borrower is None,
            r.escrow_balance == 0,
            r.current_start is None,
            r.current_expiry is None,
            r.state == RentalState::Listed,
            r.wf(),
    {
        Rental {
            lender,
            borrower: None,
            mint,
            amount,
            creator_basis_points,
            escrow_balance: 0,
            current_start: None,
            current_expiry: None,
            state: RentalState::Listed,
        }
    }

    /// How much of the escrow the lender has earned by `unix_timestamp`:
    /// the linear proration of [`prorated`], computed in widened integers
    /// with explicit floor rounding so every platform settles identically.
    pub fn calculate_widthdawl_amount(&self, unix_timestamp: i64) -> (r: Result<u64, ErrorCode>)
        ensures
            r is Ok <==> self.current_start is Some && self.current_expiry is Some,
            r matches Ok(v) ==> v == prorated(
                self.escrow_balance as int,
                self.current_start->0 as int,
                self.current_expiry->0 as int,
                unix_timestamp as int,
            ) && v <= self.escrow_balance,
            r matches Err(e) ==> e == ErrorCode::InvalidState,
    {
        let start = match self.current_start {
            Some(s) => s,
            None => {
                return Err(ErrorCode::InvalidState);
            },
        };
        let end = match self.current_expiry {
            Some(e) => e,
            None => {
                return Err(ErrorCode::InvalidState);
            },
        };
        if unix_timestamp >= end {
            return Ok(self.escrow_balance);
        }
        if unix_timestamp <= start {
            return Ok(0);
        }
        let balance = self.escrow_balance as u128;
        let elapsed = ((unix_timestamp as i128) - (start as i128)) as u128;
        let total = ((end as i128) - (start as i128)) as u128;
        proof {
            vstd::arithmetic::mul::lemma_mul_upper_bound(balance as int, u64::MAX as int,
                elapsed as int, u64::MAX as int);
        }
        let earned = balance * elapsed / total;
        proof {
            lemma_prorated_le_balance(balance as int, elapsed as int, total as int);
        }
        Ok(earned as u64)
    }

    /// Withdraws the rent earned by `unix_timestamp` for the lender: creator
    /// royalties come out of the earned amount first (in creator-list order)
    /// and the rest is owed to the lender; the escrow keeps only the unearned
    /// remainder and the period restarts at `unix_timestamp`. Validation all
    /// happens before any mutation: on an error the rental is unchanged.
    pub fn withdraw_from_rental_escrow(
        &mut self,
        creators: &Vec<Creator>,
        supplied: &Vec<Pubkey>,
        unix_timestamp: i64,
    ) -> (r: Result<WithdrawalOutcome, ErrorCode>)
        ensures
            r is Ok <==> settlement_permitted(*old(self), creators@, supplied@,
                unix_timestamp as int),
            r matches Ok(o) ==> ({
                let earned = prorated(
                    old(self).escrow_balance as int,
                    old(self).current_start->0 as int,
                    old(self).current_expiry->0 as int,
                    unix_timestamp as int,
                );
                &&& o.withdrawn == earned
                &&& sum_fee_amounts(o.creator_fees@) + o.lender_amount == o.withdrawn
                &&& o.creator_fees@.len() == creators@.len()
                &&& final(self).escrow_balance == old(self).escrow_balance - earned
                &&& final(self).current_start == Some(unix_timestamp)
                &&& final(self).current_expiry == old(self).current_expiry
                &&& final(self).lender@ == old(self).lender@
                &&& final(self).borrower == old(self).borrower
                &&& final(self).mint@ == old(self).mint@
                &&& final(self).amount == old(self).amount
                &&& final(self).creator_basis_points == old(self).creator_basis_points
                &&& final(self).state == old(self).state
            }),
            r matches Err(e) ==> *final(self) == *old(self) && (e == ErrorCode::InvalidState <==> (
            old(self).current_start is None || old(self).current_expiry is None)) && (e
                == ErrorCode::InvalidState || e == ErrorCode::NumericalOverflow || e
                == ErrorCode::InvalidCreatorAddress),
    {
        let earned = match self.calculate_widthdawl_amount(unix_timestamp) {
            Ok(v) => v,
            Err(e) => {
                return Err(e);
            },
        };
        let (creator_fees, lender_amount) = match get_creator_fees(
            earned,
            self.creator_basis_points,
            creators,
            supplied,
        ) {
            Ok(v) => v,
            Err(e) => {
                proof {
                    crate::fees::lemma_fee_of_u64_bounds(earned as int,
                        self.creator_basis_points as int);
                    crate::fees::lemma_creator_split_err_kinds(
                        fee_of(earned as int, self.creator_basis_points as int),
                        fee_of(earned as int, self.creator_basis_points as int),
                        creators@,
                        supplied@,
                    );
                }
                return Err(e);
            },
        };
        self.escrow_balance = self.escrow_balance - earned;
        self.current_start = Some(unix_timestamp);
        Ok(WithdrawalOutcome { withdrawn: earned, creator_fees, lender_amount })
    }

    /// The single settlement routine behind end-of-rental close, loan
    /// repossession and call-option exercise: pays the prorated earned rent
    /// to the lender net of creator royalties, refunds the unearned rest to
    /// the borrower, zeroes the escrow and clears the period. A second call
    /// without an intervening period fails with `InvalidState` and pays
    /// nothing: the routine never double-pays.
    pub fn settle_rental_escrow_balance(
        &mut self,
        custody: &mut CustodyRecord,
        creators: &Vec<Creator>,
        supplied: &Vec<Pubkey>,
        unix_timestamp: i64,
    ) -> (r: Result<SettlementOutcome, ErrorCode>)
        requires
            old(self).current_start is Some && old(self).current_expiry is Some ==> old(
                custody,
            ).active.rental,
        ensures
            r is Ok <==> settlement_permitted(*old(self), creators@, supplied@,
                unix_timestamp as int),
            r matches Ok(o) ==> ({
                let earned = prorated(
                    old(self).escrow_balance as int,
                    old(self).current_start->0 as int,
                    old(self).current_expiry->0 as int,
                    unix_timestamp as int,
                );
                &&& o.earned == earned
                &&& o.borrower_refund == old(self).escrow_balance - earned
                &&& sum_fee_amounts(o.creator_fees@) + o.lender_amount == o.earned
                &&& sum_fee_amounts(o.creator_fees@) + o.lender_amount + o.borrower_refund == old(
                    self,
                ).escrow_balance
                &&& o.creator_fees@.len() == creators@.len()
                &&& o.borrower == old(self).borrower
                &&& final(self).escrow_balance == 0
                &&& final(self).current_start is None
                &&& final(self).current_expiry is None
                &&& final(self).lender@ == old(self).lender@
                &&& final(self).borrower == old(self).borrower
                &&& final(self).mint@ == old(self).mint@
                &&& final(self).amount == old(self).amount
                &&& final(self).creator_basis_points == old(self).creator_basis_points
                &&& final(self).state == old(self).state
                &&& final(custody).active == old(custody).active.spec_with_flag(
                    crate::custody::AgreementKind::Rental,
                    false,
                )
                &&& final(custody).delegate_authority_handle == old(
                    custody,
                ).delegate_authority_handle
                &&& o.custody_action == (if final(custody).active.spec_none_active() {
                    CustodyAction::Thaw
                } else {
                    CustodyAction::NoAction
                })
            }),
            r matches Err(e) ==> *final(self) == *old(self) && *final(custody) == *old(custody) && (
            e == ErrorCode::InvalidState <==> (old(self).current_start is None || old(
                self,
            ).current_expiry is None)) && (e == ErrorCode::InvalidState || e
                == ErrorCode::NumericalOverflow || e == ErrorCode::InvalidCreatorAddress),
    {
        let outcome = match self.withdraw_from_rental_escrow(creators, supplied, unix_timestamp) {
            Ok(o) => o,
            Err(e) => {
                return Err(e);
            },
        };
        let borrower_refund = self.escrow_balance;
        self.escrow_balance = 0;
        self.current_start = None;
        self.current_expiry = None;
        let custody_action = match custody.release(crate::custody::AgreementKind::Rental) {
            Ok(a) => a,
            Err(_) => {
                proof {
                    assert(false);
                }
                CustodyAction::NoAction
            },
        };
        Ok(
            SettlementOutcome {
                creator_fees: outcome.creator_fees,
                lender_amount: outcome.lender_amount,
                earned: outcome.withdrawn,
                borrower_refund,
                borrower: self.borrower,
                custody_action,
            },
        )
    }

    /// Charges `days` of rent plus the creator fee up front: the rent itself
    /// is credited to the escrow, and the returned total (rent plus fee) is
    /// what the borrower owes the escrow account. Any overflow fails before
    /// the escrow is touched.
    pub fn process_payment_to_rental_escrow(&mut self, days: u16) -> (r: Result<u64, ErrorCode>)
        ensures
            r is Ok <==> ({
                let rent = days as int * old(self).amount as int;
                &&& rent <= u64::MAX
                &&& fee_of(rent, old(self).creator_basis_points as int) <= u64::MAX
                &&& rent + fee_of(rent, old(self).creator_basis_points as int) <= u64::MAX
                &&& old(self).escrow_balance + rent <= u64::MAX
            }),
            r matches Ok(total) ==> ({
                let rent = days as int * old(self).amount as int;
                &&& total == rent + fee_of(rent, old(self).creator_basis_points as int)
                &&& final(self).escrow_balance == old(self).escrow_balance + rent
                &&& *final(self) == Rental {
                    escrow_balance: final(self).escrow_balance,
                    ..*old(self)
                }
            }),
            r matches Err(e) ==> *final(self) == *old(self) && e == ErrorCode::NumericalOverflow,
    {
        let rent = match (days as u64).checked_mul(self.amount) {
            Some(v) => v,
            None => {
                return Err(ErrorCode::NumericalOverflow);
            },
        };
        let creator_fee = match crate::fees::calculate_fee_from_basis_points(
            rent as u128,
            self.creator_basis_points as u128,
        ) {
            Ok(v) => v,
            Err(e) => {
                proof {
                    crate::fees::lemma_fee_of_u64_bounds(rent as int,
                        self.creator_basis_points as int);
                }
                return Err(e);
            },
        };
        let total = match rent.checked_add(creator_fee) {
            Some(v) => v,
            None => {
                return Err(ErrorCode::NumericalOverflow);
            },
        };
        let new_escrow = match self.escrow_balance.checked_add(rent) {
            Some(v) => v,
            None => {
                return Err(ErrorCode::NumericalOverflow);
            },
        };
        self.escrow_balance = new_escrow;
        Ok(total)
    }

    /// Begins a rental period: only a `Listed` rental can be hired. Charges
    /// `days` of rent plus the creator fee, records the borrower, and sets
    /// the period to `[now, now + days]` in seconds. Returns the total the
    /// borrower owes the escrow.
    pub fn begin_period(
        &mut self,
        custody: &mut CustodyRecord,
        borrower: Pubkey,
        days: u16,
        now: i64,
    ) -> (r: Result<BeginPeriodOutcome, ErrorCode>)
        requires
            old(self).wf(),
        ensures
            final(self).wf(),
            r is Ok <==> ({
                let rent = days as int * old(self).amount as int;
                &&& old(self).state == RentalState::Listed
                &&& !old(custody).active.rental
                &&& now + days as int * SECONDS_PER_DAY as int <= i64::MAX
                &&& rent <= u64::MAX
                &&& fee_of(rent, old(self).creator_basis_points as int) <= u64::MAX
                &&& rent + fee_of(rent, old(self).creator_basis_points as int) <= u64::MAX
                &&& old(self).escrow_balance + rent <= u64::MAX
            }),
            r matches Ok(o) ==> ({
                let rent = days as int * old(self).amount as int;
                &&& o.total_charge == rent + fee_of(rent, old(self).creator_basis_points as int)
                &&& final(self).escrow_balance == old(self).escrow_balance + rent
                &&& final(self).state == RentalState::Hired
                &&& final(self).borrower matches Some(b) && b@ == borrower@
                &&& final(self).current_start == Some(now)
                &&& final(self).current_expiry == Some(
                    (now + days as int * SECONDS_PER_DAY as int) as i64,
                )
                &&& final(self).lender@ == old(self).lender@
                &&& final(self).mint@ == old(self).mint@
                &&& final(self).amount == old(self).amount
                &&& final(self).creator_basis_points == old(self).creator_basis_points
                &&& final(custody).active == old(custody).active.spec_with_flag(
                    crate::custody::AgreementKind::Rental,
                    true,
                )
                &&& final(custody).delegate_authority_handle == old(
                    custody,
                ).delegate_authority_handle
                &&& o.custody_action == (if old(custody).active.spec_none_active() {
                    CustodyAction::Freeze
                } else {
                    CustodyAction::NoAction
                })
            }),
            r matches Err(e) ==> *final(self) == *old(self) && *final(custody) == *old(custody) && (
            (e == ErrorCode::InvalidState && old(self).state != RentalState::Listed) || (e
                == ErrorCode::AlreadyLocked && old(self).state == RentalState::Listed && old(
                custody,
            ).active.rental) || (e == ErrorCode::NumericalOverflow && old(self).state
                == RentalState::Listed && !old(custody).active.rental)),
    {
        match self.state {
            RentalState::Listed => {},
            RentalState::Hired => {
                return Err(ErrorCode::InvalidState);
            },
        }
        if custody.active.rental {
            return Err(ErrorCode::AlreadyLocked);
        }
        let period = (days as i64) * SECONDS_PER_DAY;
        let expiry = match now.checked_add(period) {
            Some(v) => v,
            None => {
                return Err(ErrorCode::NumericalOverflow);
            },
        };
        let total = match self.process_payment_to_rental_escrow(days) {
            Ok(v) => v,
            Err(e) => {
                return Err(e);
            },
        };
        let custody_action = match custody.acquire(crate::custody::AgreementKind::Rental) {
            Ok(a) => a,
            Err(_) => {
                proof {
                    assert(false);
                }
                CustodyAction::NoAction
            },
        };
        self.borrower = Some(borrower);
        self.current_start = Some(now);
        self.current_expiry = Some(expiry);
        self.state = RentalState::Hired;
        Ok(BeginPeriodOutcome { total_charge: total, custody_action })
    }

}

/// What hiring a rental produces: the total (rent plus creator fee) that the
/// borrower owes the escrow, and `Freeze` when this rental is the first
/// agreement to lock the asset.
#[derive(Debug)]
pub struct BeginPeriodOutcome {
    pub total_charge: u64,
    pub custody_action: CustodyAction,
}

/// What a lender withdrawal pays out: the earned rent, split into the
/// creator royalties (in creator-list order) and the lender's net amount.
#[derive(Debug)]
pub struct WithdrawalOutcome {
    pub withdrawn: u64,
    pub creator_fees: Vec<CreatorFee>,
    pub lender_amount: u64,
}

/// What a full settlement pays out: the earned rent split between creators
/// and lender, plus the unearned refund owed to the borrower (paid only if a
/// borrower is recorded).
#[derive(Debug)]
pub struct SettlementOutcome {
    pub creator_fees: Vec<CreatorFee>,
    pub lender_amount: u64,
    pub earned: u64,
    pub borrower_refund: u64,
    pub borrower: Option<Pubkey>,
    /// `Thaw` when the settled rental was the last agreement holding the
    /// custody lock.
    pub custody_action: CustodyAction,
}

/// Forced settlement is idempotent with respect to an already-zeroed escrow.
/// A successful [`Rental::settle_rental_escrow_balance`] leaves the period
/// cleared, and on a rental whose period is cleared no further settlement is
/// permitted: by that function's contract a second call without an
/// intervening [`Rental::begin_period`] fails with `InvalidState`, changes
/// nothing, and so never double-pays.
pub proof fn lemma_force_settle_idempotent(
    settled: Rental,
    creators: Seq<Creator>,
    supplied: Seq<Pubkey>,
    now: int,
)
    requires
        settled.current_start is None || settled.current_expiry is None,
    ensures
        !settlement_permitted(settled, creators, supplied, now),
{
}

/// `balance * elapsed / total <= balance` whenever `elapsed <= total`.
proof fn lemma_prorated_le_balance(balance: int, elapsed: int, total: int)
    requires
        0 <= balance,
        0 <= elapsed <= total,
        0 < total,
    ensures
        0 <= balance * elapsed / total <= balance,
{
    vstd::arithmetic::mul::lemma_mul_nonnegative(balance, elapsed);
    vstd::arithmetic::div_mod::lemma_div_pos_is_pos(balance * elapsed, total);
    vstd::arithmetic::mul::lemma_mul_inequality(elapsed, total, balance);
    assert(elapsed * balance == balance * elapsed) by (nonlinear_arith);
    assert(total * balance == balance * total) by (nonlinear_arith);
    vstd::arithmetic::div_mod::lemma_div_is_ordered(balance * elapsed, total * balance, total);
    vstd::arithmetic::div_mod::lemma_div_multiples_vanish(balance, total);
}

} // verus!
