use custody_settlement::error::ErrorCode;
use custody_settlement::fees::{calculate_fee_from_basis_points, calculate_loan_repayment_fee,
    get_creator_fees, Creator};
use custody_settlement::Pubkey;

fn key(tag: u8) -> Pubkey {
    [tag; 32]
}

#[test]
fn fee_is_floored_product_over_ten_thousand() {
    assert_eq!(calculate_fee_from_basis_points(100_000, 1_000), Ok(10_000));
    assert_eq!(calculate_fee_from_basis_points(0, 1_000), Ok(0));
    assert_eq!(calculate_fee_from_basis_points(100_000, 0), Ok(0));
    // 999 * 33 = 32_967; floor(32_967 / 10_000) = 3.
    assert_eq!(calculate_fee_from_basis_points(999, 33), Ok(3));
}

#[test]
fn fee_narrowing_overflow_is_rejected() {
    // The widened quotient exceeds 64 bits: amount * 65_535 / 10_000 > u64::MAX.
    assert_eq!(
        calculate_fee_from_basis_points(u64::MAX as u128, 65_535),
        Err(ErrorCode::NumericalOverflow)
    );
}

#[test]
fn fee_multiplication_overflow_is_rejected() {
    assert_eq!(
        calculate_fee_from_basis_points(u128::MAX, 2),
        Err(ErrorCode::NumericalOverflow)
    );
}

#[test]
fn creator_shares_and_remainder_partition_the_amount() {
    // Total fee on 1_000 at 500 bps is 50; 33/33/34 percent shares floor to
    // 16, 16 and 17, so one leftover unit goes back to the payer: the payer
    // keeps (1_000 - 50) + (50 - 49) = 951 and 49 + 951 + ... == 1_000.
    let creators = vec![
        Creator { address: key(1), share: 33 },
        Creator { address: key(2), share: 33 },
        Creator { address: key(3), share: 34 },
    ];
    let supplied = vec![key(1), key(2), key(3)];
    let (fees, remainder) = get_creator_fees(1_000, 500, &creators, &supplied).unwrap();
    assert_eq!(fees.len(), 3);
    assert_eq!(fees[0].amount, 16);
    assert_eq!(fees[1].amount, 16);
    assert_eq!(fees[2].amount, 17);
    assert_eq!(fees[0].address, key(1));
    assert_eq!(fees[1].address, key(2));
    assert_eq!(fees[2].address, key(3));
    assert_eq!(remainder, 951);
    let total: u64 = fees.iter().map(|f| f.amount).sum::<u64>() + remainder;
    assert_eq!(total, 1_000);
}

#[test]
fn no_creators_means_full_remainder() {
    let (fees, remainder) = get_creator_fees(1_000, 500, &vec![], &vec![]).unwrap();
    assert!(fees.is_empty());
    assert_eq!(remainder, 1_000);
}

#[test]
fn mismatched_creator_address_is_rejected() {
    let creators = vec![Creator { address: key(1), share: 100 }];
    let supplied = vec![key(9)];
    assert_eq!(
        get_creator_fees(1_000, 500, &creators, &supplied),
        Err(ErrorCode::InvalidCreatorAddress)
    );
}

#[test]
fn missing_creator_account_is_rejected() {
    let creators = vec![Creator { address: key(1), share: 100 }];
    assert_eq!(
        get_creator_fees(1_000, 500, &creators, &vec![]),
        Err(ErrorCode::InvalidCreatorAddress)
    );
}

#[test]
fn basis_points_above_divisor_overflow_the_split() {
    // floor(10_000 * 10_001 / 10_000) = 10_001: the fee exceeds the amount.
    assert_eq!(
        get_creator_fees(10_000, 10_001, &vec![], &vec![]),
        Err(ErrorCode::NumericalOverflow)
    );
    // At exactly the divisor the fee equals the amount, and with no creators
    // every undistributed unit flows back to the payer.
    assert_eq!(get_creator_fees(10_000, 10_000, &vec![], &vec![]), Ok((vec![], 10_000)));
}

#[test]
fn creator_share_above_hundred_percent_overflows() {
    // Shares summing past 100 exhaust the fee mid-walk.
    let creators = vec![
        Creator { address: key(1), share: 60 },
        Creator { address: key(2), share: 60 },
    ];
    let supplied = vec![key(1), key(2)];
    assert_eq!(
        get_creator_fees(1_000, 10_000, &creators, &supplied),
        Err(ErrorCode::NumericalOverflow)
    );
}

#[test]
fn oversized_single_share_overflows() {
    // 200 percent of a fee equal to u64::MAX cannot be represented.
    let creators = vec![Creator { address: key(1), share: 200 }];
    let supplied = vec![key(1)];
    assert_eq!(
        get_creator_fees(u64::MAX, 10_000, &creators, &supplied),
        Err(ErrorCode::NumericalOverflow)
    );
}

#[test]
fn annual_interest_prorates_linearly() {
    // One full 365-day year at 10% on 100_000: exactly the annual fee.
    assert_eq!(
        calculate_loan_repayment_fee(100_000, 1_000, 31_536_000, false),
        Ok(10_000)
    );
    // Half a year: half the fee.
    assert_eq!(
        calculate_loan_repayment_fee(100_000, 1_000, 15_768_000, false),
        Ok(5_000)
    );
    // No time elapsed: nothing owed.
    assert_eq!(calculate_loan_repayment_fee(100_000, 1_000, 0, false), Ok(0));
}

#[test]
fn late_surcharge_is_added_once_when_overdue() {
    // 10_000 of prorated interest plus the 500-bps surcharge of 5_000.
    assert_eq!(
        calculate_loan_repayment_fee(100_000, 1_000, 31_536_000, true),
        Ok(15_000)
    );
}

#[test]
fn negative_elapsed_time_is_an_overflow() {
    assert_eq!(
        calculate_loan_repayment_fee(100_000, 1_000, -1, false),
        Err(ErrorCode::NumericalOverflow)
    );
}

#[test]
fn repayment_interest_overflow_is_rejected_not_wrapped() {
    // The annual fee alone is u64::MAX; two seconds of proration overflow the
    // widened multiplication, so the call must fail instead of wrapping.
    assert_eq!(
        calculate_loan_repayment_fee(u64::MAX, 10_000, 2, false),
        Err(ErrorCode::NumericalOverflow)
    );
    // One second still fits and floors to u64::MAX / SECONDS_PER_YEAR.
    assert_eq!(
        calculate_loan_repayment_fee(u64::MAX, 10_000, 1, false),
        Ok(u64::MAX / 31_536_000)
    );
}

#[test]
fn insufficient_funds_is_surfaced_unchanged_from_the_rail() {
    // The engine itself never produces this variant; it exists so that the
    // payment rail's failure can cross the boundary unchanged.
    assert_eq!(ErrorCode::InsufficientFunds.name(), "insufficient funds");
}
