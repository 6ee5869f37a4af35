use custody_settlement::custody::{plan_delegation, AgreementKind, CustodyAction,
    CustodyRecord, DelegationAction};
use custody_settlement::error::ErrorCode;

fn apply(frozen: &mut bool, action: CustodyAction) {
    match action {
        CustodyAction::Freeze => *frozen = true,
        CustodyAction::Thaw => *frozen = false,
        CustodyAction::NoAction => {},
    }
}

#[test]
fn first_acquire_freezes_later_acquires_do_not() {
    let mut record = CustodyRecord::new(7);
    assert_eq!(record.acquire(AgreementKind::Loan), Ok(CustodyAction::Freeze));
    assert_eq!(record.acquire(AgreementKind::Rental), Ok(CustodyAction::NoAction));
    assert!(record.active.loan);
    assert!(record.active.rental);
    assert!(!record.active.call_option);
    assert_eq!(record.delegate_authority_handle, 7);
}

#[test]
fn reacquiring_a_held_flag_is_already_locked() {
    let mut record = CustodyRecord::new(0);
    record.acquire(AgreementKind::Loan).unwrap();
    assert_eq!(record.acquire(AgreementKind::Loan), Err(ErrorCode::AlreadyLocked));
    assert!(record.active.loan);
}

#[test]
fn loan_and_call_option_conflict_but_rental_coexists() {
    let mut record = CustodyRecord::new(0);
    record.acquire(AgreementKind::Loan).unwrap();
    assert_eq!(record.acquire(AgreementKind::CallOption), Err(ErrorCode::LockConflict));
    assert_eq!(record.acquire(AgreementKind::Rental), Ok(CustodyAction::NoAction));

    let mut other = CustodyRecord::new(0);
    other.acquire(AgreementKind::CallOption).unwrap();
    assert_eq!(other.acquire(AgreementKind::Loan), Err(ErrorCode::LockConflict));
    assert_eq!(other.acquire(AgreementKind::Rental), Ok(CustodyAction::NoAction));
}

#[test]
fn releasing_a_clear_flag_is_not_locked() {
    let mut record = CustodyRecord::new(0);
    assert_eq!(record.release(AgreementKind::Loan), Err(ErrorCode::NotLocked));
    record.acquire(AgreementKind::Loan).unwrap();
    record.release(AgreementKind::Loan).unwrap();
    assert_eq!(record.release(AgreementKind::Loan), Err(ErrorCode::NotLocked));
}

#[test]
fn last_release_thaws_earlier_releases_do_not() {
    let mut record = CustodyRecord::new(0);
    record.acquire(AgreementKind::Loan).unwrap();
    record.acquire(AgreementKind::Rental).unwrap();
    assert_eq!(record.release(AgreementKind::Loan), Ok(CustodyAction::NoAction));
    assert_eq!(record.release(AgreementKind::Rental), Ok(CustodyAction::Thaw));
    assert!(!record.active.loan && !record.active.rental && !record.active.call_option);
}

#[test]
fn flags_and_physical_freeze_stay_in_step_across_sequences() {
    // Mirror the custody service: apply every returned action to a frozen
    // bit and check it always equals "some flag held", across a long mix of
    // successful and failing transitions.
    let mut record = CustodyRecord::new(0);
    let mut frozen = false;
    let steps: Vec<(bool, AgreementKind)> = vec![
        (true, AgreementKind::Rental),
        (true, AgreementKind::Loan),
        (true, AgreementKind::Loan),       // AlreadyLocked: no action
        (true, AgreementKind::CallOption), // LockConflict: no action
        (false, AgreementKind::Loan),
        (true, AgreementKind::CallOption),
        (false, AgreementKind::Rental),
        (false, AgreementKind::CallOption),
        (false, AgreementKind::Loan),      // NotLocked: no action
        (true, AgreementKind::Loan),
        (false, AgreementKind::Loan),
    ];
    for (is_acquire, kind) in steps {
        let result = if is_acquire { record.acquire(kind) } else { record.release(kind) };
        if let Ok(action) = result {
            apply(&mut frozen, action);
        }
        let any = record.active.loan || record.active.rental || record.active.call_option;
        assert_eq!(frozen, any);
    }
    assert!(!frozen);
}

#[test]
fn delegation_planning_covers_every_account_state() {
    let record = [7u8; 32];
    let other = [8u8; 32];
    assert_eq!(
        plan_delegation(None, 0, false, &record),
        Ok(DelegationAction::DelegateAndFreeze)
    );
    assert_eq!(
        plan_delegation(Some(other), 1, false, &record),
        Ok(DelegationAction::RevokeThenDelegateAndFreeze)
    );
    assert_eq!(
        plan_delegation(Some(other), 1, true, &record),
        Err(ErrorCode::InvalidState)
    );
    assert_eq!(
        plan_delegation(Some(record), 2, true, &record),
        Err(ErrorCode::InvalidState)
    );
    assert_eq!(
        plan_delegation(Some(record), 1, true, &record),
        Ok(DelegationAction::KeepExisting)
    );
}
