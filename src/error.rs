use vstd::prelude::*;

verus! {

/// The ways an operation of the engine can fail. Every failure leaves all
/// records exactly as they were before the call.
#[derive(Debug, Clone, Copy, PartialEq, Eq, Structural)]
pub enum ErrorCode {
    /// A checked addition or multiplication left the range of its type.
    Overflow,
    /// A checked subtraction went below zero, or the clock ran backwards.
    Underflow,
    /// A withdrawal asked for more than the recorded stake.
    InsufficientStakedAmount,
    /// A withdrawal asked for more than the currently unlocked part of a locked stake.
    TokensLocked,
    /// A lock period outside {30, 90, 180} days.
    InvalidLockPeriod,
    /// A deposit of nothing.
    InvalidAmount,
    /// A deposit found the record's guard already held.
    ReentrancyDetected,
    /// A borrow or flash loan asked for more than half of the stake.
    BorrowLimitExceeded,
}

} // verus!
