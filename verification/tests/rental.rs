use custody_settlement::custody::{AgreementKind, CustodyAction, CustodyRecord};
use custody_settlement::error::ErrorCode;
use custody_settlement::fees::Creator;
use custody_settlement::rental::{Rental, RentalState};
use custody_settlement::Pubkey;

fn key(tag: u8) -> Pubkey {
    [tag; 32]
}

fn hired_rental(escrow: u64, start: i64, expiry: i64, creator_bps: u16) -> Rental {
    Rental {
        lender: key(1),
        borrower: Some(key(2)),
        mint: key(3),
        amount: 10,
        creator_basis_points: creator_bps,
        escrow_balance: escrow,
        current_start: Some(start),
        current_expiry: Some(expiry),
        state: RentalState::Hired,
    }
}

fn custody_with_rental() -> CustodyRecord {
    let mut custody = CustodyRecord::new(0);
    custody.acquire(AgreementKind::Rental).unwrap();
    custody
}

#[test]
fn proration_is_linear_with_floor() {
    let rental = hired_rental(1_000, 0, 3, 0);
    // floor(1_000 * 1 / 3) = 333.
    assert_eq!(rental.calculate_widthdawl_amount(1), Ok(333));
    assert_eq!(rental.calculate_widthdawl_amount(2), Ok(666));
}

#[test]
fn proration_clamps_outside_the_period() {
    let rental = hired_rental(1_000, 100, 200, 0);
    assert_eq!(rental.calculate_widthdawl_amount(50), Ok(0));
    assert_eq!(rental.calculate_widthdawl_amount(100), Ok(0));
    assert_eq!(rental.calculate_widthdawl_amount(200), Ok(1_000));
    assert_eq!(rental.calculate_widthdawl_amount(5_000), Ok(1_000));
}

#[test]
fn proration_without_a_period_is_invalid_state() {
    let mut rental = hired_rental(1_000, 0, 100, 0);
    rental.current_start = None;
    assert_eq!(rental.calculate_widthdawl_amount(50), Err(ErrorCode::InvalidState));
}

#[test]
fn force_settle_halfway_splits_escrow_evenly() {
    // Rental begins at t=0 with expiry t=1_000 and escrow 1_000; settling at
    // t=500 earns exactly 500 for the lender and refunds 500 to the borrower.
    let mut rental = hired_rental(1_000, 0, 1_000, 0);
    let mut custody = custody_with_rental();
    let outcome = rental
        .settle_rental_escrow_balance(&mut custody, &vec![], &vec![], 500)
        .unwrap();
    assert_eq!(outcome.earned, 500);
    assert_eq!(outcome.lender_amount, 500);
    assert_eq!(outcome.borrower_refund, 500);
    assert_eq!(outcome.borrower, Some(key(2)));
    assert!(outcome.creator_fees.is_empty());
    assert_eq!(outcome.custody_action, CustodyAction::Thaw);
    assert_eq!(rental.escrow_balance, 0);
    assert_eq!(rental.current_start, None);
    assert_eq!(rental.current_expiry, None);
    assert!(!custody.active.rental);
}

#[test]
fn force_settle_twice_fails_without_double_pay() {
    let mut rental = hired_rental(1_000, 0, 1_000, 0);
    let mut custody = custody_with_rental();
    rental
        .settle_rental_escrow_balance(&mut custody, &vec![], &vec![], 500)
        .unwrap();
    let before = snapshot(&rental);
    assert_eq!(
        rental
            .settle_rental_escrow_balance(&mut custody, &vec![], &vec![], 700)
            .unwrap_err(),
        ErrorCode::InvalidState
    );
    assert_eq!(snapshot(&rental), before);
}

#[test]
fn settlement_pays_creators_out_of_earned_rent() {
    // Earned 400 at 10%: fee 40 goes to the single creator, 360 to the
    // lender, 600 back to the borrower.
    let mut rental = hired_rental(1_000, 0, 1_000, 1_000);
    let mut custody = custody_with_rental();
    let creators = vec![Creator { address: key(9), share: 100 }];
    let supplied = vec![key(9)];
    let outcome = rental
        .settle_rental_escrow_balance(&mut custody, &creators, &supplied, 400)
        .unwrap();
    assert_eq!(outcome.earned, 400);
    assert_eq!(outcome.creator_fees.len(), 1);
    assert_eq!(outcome.creator_fees[0].amount, 40);
    assert_eq!(outcome.creator_fees[0].address, key(9));
    assert_eq!(outcome.lender_amount, 360);
    assert_eq!(outcome.borrower_refund, 600);
}

#[test]
fn withdraw_keeps_the_period_running() {
    let mut rental = hired_rental(1_000, 0, 1_000, 0);
    let outcome = rental.withdraw_from_rental_escrow(&vec![], &vec![], 400).unwrap();
    assert_eq!(outcome.withdrawn, 400);
    assert_eq!(outcome.lender_amount, 400);
    assert_eq!(rental.escrow_balance, 600);
    assert_eq!(rental.current_start, Some(400));
    assert_eq!(rental.current_expiry, Some(1_000));
    assert_eq!(rental.state, RentalState::Hired);
}

#[test]
fn begin_period_charges_rent_plus_fee_and_locks_custody() {
    let mut rental = Rental::list(key(1), key(3), 10, 500);
    let mut custody = CustodyRecord::new(0);
    let outcome = rental.begin_period(&mut custody, key(2), 3, 1_000).unwrap();
    // Rent 30 plus the 5% creator fee of 1.
    assert_eq!(outcome.total_charge, 31);
    assert_eq!(outcome.custody_action, CustodyAction::Freeze);
    assert_eq!(rental.escrow_balance, 30);
    assert_eq!(rental.state, RentalState::Hired);
    assert_eq!(rental.borrower, Some(key(2)));
    assert_eq!(rental.current_start, Some(1_000));
    assert_eq!(rental.current_expiry, Some(1_000 + 3 * 86_400));
    assert!(custody.active.rental);
}

#[test]
fn begin_period_from_hired_is_invalid_state() {
    let mut rental = hired_rental(100, 0, 100, 0);
    let mut custody = custody_with_rental();
    assert_eq!(
        rental.begin_period(&mut custody, key(2), 1, 0).unwrap_err(),
        ErrorCode::InvalidState
    );
}

#[test]
fn payment_overflow_is_rejected_before_the_escrow_changes() {
    let mut rental = Rental::list(key(1), key(3), u64::MAX, 0);
    assert_eq!(
        rental.process_payment_to_rental_escrow(2),
        Err(ErrorCode::NumericalOverflow)
    );
    assert_eq!(rental.escrow_balance, 0);
}

#[test]
fn payment_credits_rent_but_charges_rent_plus_fee() {
    let mut rental = Rental::list(key(1), key(3), 100, 1_000);
    let total = rental.process_payment_to_rental_escrow(2).unwrap();
    // Rent 200, fee 20: the borrower owes 220 and the escrow holds 200.
    assert_eq!(total, 220);
    assert_eq!(rental.escrow_balance, 200);
}

fn snapshot(r: &Rental) -> (u64, Option<i64>, Option<i64>, RentalState, Option<Pubkey>) {
    (
        r.escrow_balance,
        r.current_start,
        r.current_expiry,
        r.state,
        r.borrower,
    )
}
