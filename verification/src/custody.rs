//! The per-asset custody record: which agreement kinds currently hold a
//! custody lock on the asset, and the freeze/thaw side effect owed to the
//! custody service each time the lock is first taken or last released.
use vstd::prelude::*;

use crate::error::ErrorCode;

verus! {

/// The three agreement kinds that can hold a custody lock on one asset.
#[derive(Clone, Copy, Debug, PartialEq, Eq, Structural)]
pub enum AgreementKind {
    Loan,
    Rental,
    CallOption,
}

/// What the caller owes the external custody service after a successful
/// lock transition: freeze the asset, thaw it, or nothing.
#[derive(Clone, Copy, Debug, PartialEq, Eq, Structural)]
pub enum CustodyAction {
    Freeze,
    Thaw,
    NoAction,
}

/// Which agreement kinds are currently active on the asset.
#[derive(Clone, Copy, Debug, PartialEq, Eq, Structural)]
pub struct ActiveAgreements {
    pub loan: bool,
    pub rental: bool,
    pub call_option: bool,
}

/// Per-asset record of the custody lock lifecycle. It holds no asset itself,
/// only intent: the asset's transfer lock is held if and only if at least one
/// flag is true — a pairing that [`Self::acquire`] and [`Self::release`]
/// maintain through the [`CustodyAction`] they return.
#[derive(Clone, Copy, Debug, PartialEq, Eq, Structural)]
pub struct CustodyRecord {
    pub active: ActiveAgreements,
    pub delegate_authority_handle: u64,
}

impl ActiveAgreements {
    /// No agreement holds the lock.
    pub open spec fn spec_none_active(self) -> bool {
        !self.loan && !self.rental && !self.call_option
    }

    /// The flag belonging to `kind`.
    pub open spec fn spec_flag(self, kind: AgreementKind) -> bool {
        match kind {
            AgreementKind::Loan => self.loan,
            AgreementKind::Rental => self.rental,
            AgreementKind::CallOption => self.call_option,
        }
    }

    /// This record with the flag of `kind` set to `value`.
    pub open spec fn spec_with_flag(self, kind: AgreementKind, value: bool) -> ActiveAgreements {
        match kind {
            AgreementKind::Loan => ActiveAgreements { loan: value, ..self },
            AgreementKind::Rental => ActiveAgreements { rental: value, ..self },
            AgreementKind::CallOption => ActiveAgreements { call_option: value, ..self },
        }
    }
}

/// A loan and a call option each claim the asset's eventual disposition, so
/// neither may be acquired while the other is active; a rental may coexist
/// with either.
pub open spec fn conflicts(kind: AgreementKind, active: ActiveAgreements) -> bool {
    match kind {
        AgreementKind::Loan => active.call_option,
        AgreementKind::Rental => false,
        AgreementKind::CallOption => active.loan,
    }
}

impl CustodyRecord {
    /// A fresh record with no lock held.
    pub fn new(delegate_authority_handle: u64) -> (r: CustodyRecord)
        ensures
            r.active.spec_none_active(),
            r.delegate_authority_handle == delegate_authority_handle,
    {
        CustodyRecord {
            active: ActiveAgreements { loan: false, rental: false, call_option: false },
            delegate_authority_handle,
        }
    }

    /// Takes the custody flag for `kind`. Re-acquiring a flag that is already
    /// held fails with `AlreadyLocked`; acquiring one that an incompatible
    /// active agreement forbids fails with `LockConflict`. On success the
    /// returned action is `Freeze` exactly when no flag was held before, the
    /// one moment the asset must actually be frozen.
    pub fn acquire(&mut self, kind: AgreementKind) -> (r: Result<CustodyAction, ErrorCode>)
        ensures
            r is Ok <==> !old(self).active.spec_flag(kind) && !conflicts(kind, old(self).active),
            r matches Ok(action) ==> {
                &&& final(self).active == old(self).active.spec_with_flag(kind, true)
                &&& final(self).delegate_authority_handle == old(self).delegate_authority_handle
                &&& action == (if old(self).active.spec_none_active() {
                    CustodyAction::Freeze
                } else {
                    CustodyAction::NoAction
                })
            },
            r matches Err(e) ==> {
                &&& *final(self) == *old(self)
                &&& e == (if old(self).active.spec_flag(kind) {
                    ErrorCode::AlreadyLocked
                } else {
                    ErrorCode::LockConflict
                })
            },
    {
        let held = match kind {
            AgreementKind::Loan => self.active.loan,
            AgreementKind::Rental => self.active.rental,
            AgreementKind::CallOption => self.active.call_option,
        };
        if held {
            return Err(ErrorCode::AlreadyLocked);
        }
        let conflict = match kind {
            AgreementKind::Loan => self.active.call_option,
            AgreementKind::Rental => false,
            AgreementKind::CallOption => self.active.loan,
        };
        if conflict {
            return Err(ErrorCode::LockConflict);
        }
        let was_free = !self.active.loan && !self.active.rental && !self.active.call_option;
        match kind {
            AgreementKind::Loan => {
                self.active.loan = true;
            },
            AgreementKind::Rental => {
                self.active.rental = true;
            },
            AgreementKind::CallOption => {
                self.active.call_option = true;
            },
        }
        if was_free {
            Ok(CustodyAction::Freeze)
        } else {
            Ok(CustodyAction::NoAction)
        }
    }

    /// Clears the custody flag for `kind`; called exactly once per agreement's
    /// terminal transition. Releasing a flag that is already clear fails with
    /// `NotLocked`. On success the returned action is `Thaw` exactly when no
    /// flag remains held, the one moment the asset must actually be thawed.
    pub fn release(&mut self, kind: AgreementKind) -> (r: Result<CustodyAction, ErrorCode>)
        ensures
            r is Ok <==> old(self).active.spec_flag(kind),
            r matches Ok(action) ==> {
                &&& final(self).active == old(self).active.spec_with_flag(kind, false)
                &&& final(self).delegate_authority_handle == old(self).delegate_authority_handle
                &&& action == (if final(self).active.spec_none_active() {
                    CustodyAction::Thaw
                } else {
                    CustodyAction::NoAction
                })
            },
            r matches Err(e) ==> *final(self) == *old(self) && e == ErrorCode::NotLocked,
    {
        let held = match kind {
            AgreementKind::Loan => self.active.loan,
            AgreementKind::Rental => self.active.rental,
            AgreementKind::CallOption => self.active.call_option,
        };
        if !held {
            return Err(ErrorCode::NotLocked);
        }
        match kind {
            AgreementKind::Loan => {
                self.active.loan = false;
            },
            AgreementKind::Rental => {
                self.active.rental = false;
            },
            AgreementKind::CallOption => {
                self.active.call_option = false;
            },
        }
        if !self.active.loan && !self.active.rental && !self.active.call_option {
            Ok(CustodyAction::Thaw)
        } else {
            Ok(CustodyAction::NoAction)
        }
    }
}

/// What the custody service must do to bring the asset's token account under
/// the record's delegated control before a lock can be taken.
#[derive(Clone, Copy, Debug, PartialEq, Eq, Structural)]
pub enum DelegationAction {
    /// No delegate yet: approve the record as delegate, then freeze.
    DelegateAndFreeze,
    /// A stale, unfrozen delegation to someone else: revoke it first, then
    /// approve the record and freeze.
    RevokeThenDelegateAndFreeze,
    /// The record already holds a correct delegation of exactly one token.
    KeepExisting,
}

/// Decides how to (re-)delegate the asset's token account to the custody
/// record, from the account's current delegation state: `delegate` and
/// `delegated_amount` as recorded on the token account, `is_frozen` its
/// physical state, and `record_authority` the custody record's own address.
/// A frozen delegation to someone else, or a delegation of the wrong amount,
/// cannot be repaired and is rejected.
pub fn plan_delegation(
    delegate: Option<crate::Pubkey>,
    delegated_amount: u64,
    is_frozen: bool,
    record_authority: &crate::Pubkey,
) -> (r: Result<DelegationAction, ErrorCode>)
    ensures
        r == (match delegate {
            Option::None => Ok::<DelegationAction, ErrorCode>(DelegationAction::DelegateAndFreeze),
            Option::Some(d) => {
                if !is_frozen && d@ != record_authority@ {
                    Ok(DelegationAction::RevokeThenDelegateAndFreeze)
                } else if d@ != record_authority@ || delegated_amount != 1 {
                    Err(ErrorCode::InvalidState)
                } else {
                    Ok(DelegationAction::KeepExisting)
                }
            },
        }),
{
    match delegate {
        None => Ok(DelegationAction::DelegateAndFreeze),
        Some(d) => {
            let matches_record = crate::pubkey_eq(&d, record_authority);
            if !is_frozen && !matches_record {
                Ok(DelegationAction::RevokeThenDelegateAndFreeze)
            } else if !matches_record || delegated_amount != 1 {
                Err(ErrorCode::InvalidState)
            } else {
                Ok(DelegationAction::KeepExisting)
            }
        },
    }
}

/// The asset's physical frozen state after the caller applies `action` to the
/// state it had before.
pub open spec fn apply_action(frozen: bool, action: CustodyAction) -> bool {
    match action {
        CustodyAction::Freeze => true,
        CustodyAction::Thaw => false,
        CustodyAction::NoAction => frozen,
    }
}

/// The lock lifecycle keeps flags and the physical freeze in step: starting
/// from a record whose flags agree with the asset's frozen state, a
/// successful `acquire` or `release` hands back an action that restores that
/// agreement — the asset is frozen if and only if some flag is held, never
/// frozen with all flags clear, never free with a flag set.
pub proof fn lemma_custody_freeze_sync(
    pre: CustodyRecord,
    post: CustodyRecord,
    kind: AgreementKind,
    action: CustodyAction,
    frozen: bool,
)
    requires
        frozen <==> !pre.active.spec_none_active(),
        (post.active == pre.active.spec_with_flag(kind, true) && action == (if pre
            .active
            .spec_none_active() {
            CustodyAction::Freeze
        } else {
            CustodyAction::NoAction
        })) || (post.active == pre.active.spec_with_flag(kind, false) && action == (if post
            .active
            .spec_none_active() {
            CustodyAction::Thaw
        } else {
            CustodyAction::NoAction
        })),
    ensures
        apply_action(frozen, action) <==> !post.active.spec_none_active(),
{
}

} // verus!
