//! The call option agreement: a strike-price option on the asset. Exercising
//! it must force-settle any concurrently hired rental on the same asset
//! before custody moves, so the rental borrower is refunded unearned rent by
//! the settlement routine, never lost to the option buyer.
use vstd::prelude::*;

use crate::custody::{AgreementKind, CustodyAction, CustodyRecord};
use crate::error::ErrorCode;
use crate::fees::{creator_split, fee_of, get_creator_fees, sum_fee_amounts, Creator, CreatorFee};
use crate::rental::{prorated, settlement_permitted, Rental, RentalState,
    SettlementOutcome};
use crate::{pubkey_eq, Pubkey};

verus! {

/// `Listed -> Active -> { Exercised | Cancelled }`; a listing with no
/// committed buyer can also be cancelled directly.
#[derive(Clone, Copy, Debug, PartialEq, Eq, Structural)]
pub enum CallOptionState {
    Listed,
    Active,
    Exercised,
    Cancelled,
}

/// A call option on the asset: the buyer may take the asset at
/// `strike_price` any time up to `expiry`.
#[derive(Debug)]
pub struct CallOption {
    pub seller: Pubkey,
    pub buyer: Option<Pubkey>,
    pub mint: Pubkey,
    pub strike_price: u64,
    pub expiry: i64,
    pub state: CallOptionState,
}

impl CallOption {
    /// An active option always knows its buyer.
    pub open spec fn wf(self) -> bool {
        self.state == CallOptionState::Active ==> self.buyer is Some
    }

    /// Lists a call option: the custody flag for the option is taken at
    /// listing time, so the asset is locked for as long as the offer stands
    /// (failing with `AlreadyLocked` or `LockConflict` exactly as
    /// [`CustodyRecord::acquire`] says).
    pub fn list(
        custody: &mut CustodyRecord,
        seller: Pubkey,
        mint: Pubkey,
        strike_price: u64,
        expiry: i64,
    ) -> (r: Result<(CallOption, CustodyAction), ErrorCode>)
        ensures
            r is Ok <==> !old(custody).active.call_option && !crate::custody::conflicts(
                AgreementKind::CallOption,
                old(custody).active,
            ),
            r matches Ok((o, action)) ==> {
                &&& o.seller@ == seller@
                &&& o.buyer is None
                &&& o.mint@ == mint@
                &&& o.strike_price == strike_price
                &&& o.expiry == expiry
                &&& o.state == CallOptionState::Listed
                &&& o.wf()
                &&& final(custody).active == old(custody).active.spec_with_flag(
                    AgreementKind::CallOption,
                    true,
                )
                &&& final(custody).delegate_authority_handle == old(
                    custody,
                ).delegate_authority_handle
                &&& action == (if old(custody).active.spec_none_active() {
                    CustodyAction::Freeze
                } else {
                    CustodyAction::NoAction
                })
            },
            r matches Err(e) ==> *final(custody) == *old(custody) && e == (if old(
                custody,
            ).active.call_option {
                ErrorCode::AlreadyLocked
            } else {
                ErrorCode::LockConflict
            }),
    {
        let action = match custody.acquire(AgreementKind::CallOption) {
            Ok(a) => a,
            Err(e) => {
                return Err(e);
            },
        };
        Ok(
            (
                CallOption {
                    seller,
                    buyer: None,
                    mint,
                    strike_price,
                    expiry,
                    state: CallOptionState::Listed,
                },
                action,
            ),
        )
    }

    /// Buys a listed option: records the buyer and activates the agreement.
    /// The premium escrow is the caller's concern, not this record's.
    pub fn buy(&mut self, buyer: Pubkey) -> (r: Result<(), ErrorCode>)
        requires
            old(self).wf(),
        ensures
            final(self).wf(),
            r is Ok <==> old(self).state == CallOptionState::Listed,
            r is Ok ==> final(self).state == CallOptionState::Active
                && (final(self).buyer matches Some(b) && b@ == buyer@)
                && final(self).seller@ == old(self).seller@
                && final(self).mint@ == old(self).mint@
                && final(self).strike_price == old(self).strike_price
                && final(self).expiry == old(self).expiry,
            r matches Err(e) ==> *final(self) == *old(self) && e == ErrorCode::InvalidState,
    {
        match self.state {
            CallOptionState::Listed => {},
            _ => {
                return Err(ErrorCode::InvalidState);
            },
        }
        self.buyer = Some(buyer);
        self.state = CallOptionState::Active;
        Ok(())
    }

    /// Cancels an offer no buyer has committed to: valid from `Listed`, or
    /// from `Active` only if no buyer is recorded. Releases the option's
    /// custody flag, thawing the asset if nothing else holds it.
    pub fn cancel(&mut self, custody: &mut CustodyRecord) -> (r: Result<CustodyAction, ErrorCode>)
        requires
            old(self).state == CallOptionState::Listed || old(self).state
                == CallOptionState::Active ==> old(custody).active.call_option,
        ensures
            r is Ok <==> (old(self).state == CallOptionState::Listed || (old(self).state
                == CallOptionState::Active && old(self).buyer is None)),
            r matches Ok(action) ==> {
                &&& *final(self) == (CallOption { state: CallOptionState::Cancelled, ..*old(self) })
                &&& final(custody).active == old(custody).active.spec_with_flag(
                    AgreementKind::CallOption,
                    false,
                )
                &&& final(custody).delegate_authority_handle == old(
                    custody,
                ).delegate_authority_handle
                &&& action == (if final(custody).active.spec_none_active() {
                    CustodyAction::Thaw
                } else {
                    CustodyAction::NoAction
                })
            },
            r matches Err(e) ==> *final(self) == *old(self) && *final(custody) == *old(custody)
                && e == ErrorCode::InvalidState,
    {
        let allowed = match self.state {
            CallOptionState::Listed => true,
            CallOptionState::Active => self.buyer.is_none(),
            _ => false,
        };
        if !allowed {
            return Err(ErrorCode::InvalidState);
        }
        let action = match custody.release(AgreementKind::CallOption) {
            Ok(a) => a,
            Err(_) => {
                proof {
                    assert(false);
                }
                CustodyAction::NoAction
            },
        };
        self.state = CallOptionState::Cancelled;
        Ok(action)
    }
}

/// What a successful exercise settles, in the order the effects must land:
/// the forced rental settlement first (its borrower refund), then the
/// custody action that moves the asset to the buyer, then the strike-price
/// fee split and the seller's remainder.
#[derive(Debug)]
pub struct ExerciseOutcome {
    /// The forced settlement of the hired rental: paid before the asset
    /// moves, so the unearned rent goes back to the rental borrower.
    pub settlement: SettlementOutcome,
    /// `Thaw` when no agreement holds the lock any more: the moment the
    /// asset is thawed and transferred from the rental holder to the buyer.
    pub custody_action: CustodyAction,
    /// Creator royalties on the strike price, in creator-list order, paid by
    /// the buyer.
    pub strike_fees: Vec<CreatorFee>,
    /// The strike price net of royalties, owed by the buyer to the seller;
    /// rounding leftovers accrue here, never to a creator.
    pub seller_amount: u64,
}

/// Exercises an active call option at `unix_timestamp` while a rental is
/// hired on the same asset. Fails with `OptionExpired` past the expiry. The
/// hired rental is force-settled inside the same atomic operation and before
/// custody moves — the step ordering is a hard invariant: the rental
/// borrower's unearned rent is refunded by the settlement, never lost to a
/// buyer who never rented the asset to them. Then the option reaches
/// `Exercised`, both custody flags are released, and the strike price is
/// split into creator royalties plus the seller's remainder. All checks
/// precede every mutation: an error leaves all three records unchanged.
pub fn handle_exercise_call_option_with_hire(
    option: &mut CallOption,
    rental: &mut Rental,
    custody: &mut CustodyRecord,
    creators: &Vec<Creator>,
    supplied: &Vec<Pubkey>,
    royalty_basis_points: u16,
    unix_timestamp: i64,
) -> (r: Result<ExerciseOutcome, ErrorCode>)
    requires
        old(option).wf(),
        old(option).state == CallOptionState::Active ==> old(custody).active.call_option,
        old(rental).current_start is Some && old(rental).current_expiry is Some ==> old(
            custody,
        ).active.rental,
    ensures
        final(option).wf(),
        r is Ok <==> ({
            let strike_fee = fee_of(old(option).strike_price as int, royalty_basis_points as int);
            &&& old(option).state == CallOptionState::Active
            &&& old(rental).state == RentalState::Hired
            &&& old(option).mint@ == old(rental).mint@
            &&& unix_timestamp <= old(option).expiry
            &&& strike_fee <= old(option).strike_price
            &&& creator_split(strike_fee, strike_fee, creators@, supplied@) is Ok
            &&& settlement_permitted(*old(rental), creators@, supplied@, unix_timestamp as int)
        }),
        r matches Ok(o) ==> ({
            let earned = prorated(
                old(rental).escrow_balance as int,
                old(rental).current_start->0 as int,
                old(rental).current_expiry->0 as int,
                unix_timestamp as int,
            );
            &&& o.settlement.earned == earned
            &&& o.settlement.borrower_refund == old(rental).escrow_balance - earned
            &&& sum_fee_amounts(o.settlement.creator_fees@) + o.settlement.lender_amount
                + o.settlement.borrower_refund == old(rental).escrow_balance
            &&& o.settlement.borrower == old(rental).borrower
            &&& sum_fee_amounts(o.strike_fees@) + o.seller_amount == old(option).strike_price
            &&& o.strike_fees@.len() == creators@.len()
            &&& *final(option) == (CallOption { state: CallOptionState::Exercised, ..*old(option) })
            &&& final(rental).escrow_balance == 0
            &&& final(rental).current_start is None
            &&& final(rental).current_expiry is None
            &&& final(custody).active == old(custody).active.spec_with_flag(
                AgreementKind::Rental,
                false,
            ).spec_with_flag(AgreementKind::CallOption, false)
            &&& final(custody).delegate_authority_handle == old(custody).delegate_authority_handle
            &&& o.custody_action == (if final(custody).active.spec_none_active() {
                CustodyAction::Thaw
            } else {
                CustodyAction::NoAction
            })
        }),
        r matches Err(e) ==> *final(option) == *old(option) && *final(rental) == *old(rental)
            && *final(custody) == *old(custody) && ({
            let strike_fee = fee_of(old(option).strike_price as int, royalty_basis_points as int);
            if old(option).state != CallOptionState::Active || old(rental).state
                != RentalState::Hired {
                e == ErrorCode::InvalidState
            } else if old(option).mint@ != old(rental).mint@ {
                e == ErrorCode::InvalidMint
            } else if unix_timestamp > old(option).expiry {
                e == ErrorCode::OptionExpired
            } else if !(strike_fee <= old(option).strike_price && creator_split(
                strike_fee,
                strike_fee,
                creators@,
                supplied@,
            ) is Ok) {
                e == ErrorCode::NumericalOverflow || e == ErrorCode::InvalidCreatorAddress
            } else {
                (e == ErrorCode::InvalidState <==> (old(rental).current_start is None || old(
                    rental,
                ).current_expiry is None)) && (e == ErrorCode::InvalidState || e
                    == ErrorCode::NumericalOverflow || e == ErrorCode::InvalidCreatorAddress)
            }
        }),
{
    match option.state {
        CallOptionState::Active => {},
        _ => {
            return Err(ErrorCode::InvalidState);
        },
    }
    match rental.state {
        RentalState::Hired => {},
        _ => {
            return Err(ErrorCode::InvalidState);
        },
    }
    if !pubkey_eq(&option.mint, &rental.mint) {
        return Err(ErrorCode::InvalidMint);
    }
    if unix_timestamp > option.expiry {
        return Err(ErrorCode::OptionExpired);
    }
    let (strike_fees, seller_amount) = match get_creator_fees(
        option.strike_price,
        royalty_basis_points,
        creators,
        supplied,
    ) {
        Ok(v) => v,
        Err(e) => {
            proof {
                crate::fees::lemma_fee_of_u64_bounds(option.strike_price as int,
                    royalty_basis_points as int);
                crate::fees::lemma_creator_split_err_kinds(
                    fee_of(option.strike_price as int, royalty_basis_points as int),
                    fee_of(option.strike_price as int, royalty_basis_points as int),
                    creators@,
                    supplied@,
                );
            }
            return Err(e);
        },
    };
    let settlement = match rental.settle_rental_escrow_balance(
        custody,
        creators,
        supplied,
        unix_timestamp,
    ) {
        Ok(s) => s,
        Err(e) => {
            return Err(e);
        },
    };
    let custody_action = match custody.release(AgreementKind::CallOption) {
        Ok(a) => a,
        Err(_) => {
            proof {
                assert(false);
            }
            CustodyAction::NoAction
        },
    };
    option.state = CallOptionState::Exercised;
    Ok(ExerciseOutcome { settlement, custody_action, strike_fees, seller_amount })
}

} // verus!
