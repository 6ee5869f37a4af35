use vstd::prelude::*;

verus! {

/// Every failure an agreement operation can report. Each operation's contract
/// says exactly which inputs produce which variant; all checks run before any
/// mutation, so an error always leaves the records unchanged.
#[derive(Clone, Copy, Debug, PartialEq, Eq, Structural)]
pub enum ErrorCode {
    /// Acquiring a custody flag that an incompatible active agreement forbids.
    LockConflict,
    /// Re-acquiring a custody flag that is already held.
    AlreadyLocked,
    /// Releasing a custody flag that is already clear.
    NotLocked,
    /// Arithmetic that would overflow or underflow the chosen integer width.
    NumericalOverflow,
    /// An operation attempted from a state that does not permit it.
    InvalidState,
    /// Exercising a call option after its expiry.
    OptionExpired,
    /// Repossessing collateral before the loan term has elapsed.
    NotOverdue,
    /// A supplied creator account does not match the asset's on-record list.
    InvalidCreatorAddress,
    /// Two agreements that must share one asset name different mints.
    InvalidMint,
    /// Surfaced unchanged from the payment rail when a source lacks balance.
    InsufficientFunds,
}

impl ErrorCode {
    /// A short human-readable name for the error.
    pub fn name(&self) -> &'static str {
        match self {
            ErrorCode::LockConflict => "lock conflict",
            ErrorCode::AlreadyLocked => "already locked",
            ErrorCode::NotLocked => "not locked",
            ErrorCode::NumericalOverflow => "numerical overflow",
            ErrorCode::InvalidState => "invalid state",
            ErrorCode::OptionExpired => "option expired",
            ErrorCode::NotOverdue => "not overdue",
            ErrorCode::InvalidCreatorAddress => "invalid creator address",
            ErrorCode::InvalidMint => "invalid mint",
            ErrorCode::InsufficientFunds => "insufficient funds",
        }
    }
}

} // verus!
