//! The program's own error codes, and every way an instruction can be refused.
use vstd::prelude::*;

verus! {

/// First number of the program's own error codes.
pub const ERROR_CODE_OFFSET: u32 = 6000;

/// The program's own errors, numbered from `ERROR_CODE_OFFSET` in this order.
#[derive(Clone, Copy, Debug, PartialEq, Eq, Structural)]
pub enum ErrorCode {
    RoastMessageTooLong,
    RoastNotCompleted,
    InvalidStatusForTransfer,
    IncorrectEscrowPda,
    UnauthorizedAction,
    MintMismatch,
    AmountMustBeGreaterThanZero,
}

/// Position of an error in `ErrorCode`.
pub open spec fn error_index(e: ErrorCode) -> nat {
    match e {
        ErrorCode::RoastMessageTooLong => 0,
        ErrorCode::RoastNotCompleted => 1,
        ErrorCode::InvalidStatusForTransfer => 2,
        ErrorCode::IncorrectEscrowPda => 3,
        ErrorCode::UnauthorizedAction => 4,
        ErrorCode::MintMismatch => 5,
        ErrorCode::AmountMustBeGreaterThanZero => 6,
    }
}

impl ErrorCode {
    /// The number this error is reported under.
    pub fn code(&self) -> (r: u32)
        ensures
            r == ERROR_CODE_OFFSET + error_index(*self),
    {
        match self {
            ErrorCode::RoastMessageTooLong => ERROR_CODE_OFFSET,
            ErrorCode::RoastNotCompleted => ERROR_CODE_OFFSET + 1,
            ErrorCode::InvalidStatusForTransfer => ERROR_CODE_OFFSET + 2,
            ErrorCode::IncorrectEscrowPda => ERROR_CODE_OFFSET + 3,
            ErrorCode::UnauthorizedAction => ERROR_CODE_OFFSET + 4,
            ErrorCode::MintMismatch => ERROR_CODE_OFFSET + 5,
            ErrorCode::AmountMustBeGreaterThanZero => ERROR_CODE_OFFSET + 6,
        }
    }

    /// The message this error is reported with.
    pub fn msg(&self) -> (r: &'static str)
        ensures
            r@ == (match *self {
                ErrorCode::RoastMessageTooLong => "The roast message is too long."@,
                ErrorCode::RoastNotCompleted => "The roast is not yet completed."@,
                ErrorCode::InvalidStatusForTransfer => "Invalid status for transfer."@,
                ErrorCode::IncorrectEscrowPda => "Incorrect escrow PDA."@,
                ErrorCode::UnauthorizedAction => "Unauthorized action."@,
                ErrorCode::MintMismatch => "Mint Mismatch."@,
                ErrorCode::AmountMustBeGreaterThanZero => "Amount must be greater than zero."@,
            }),
    {
        match self {
            ErrorCode::RoastMessageTooLong => "The roast message is too long.",
            ErrorCode::RoastNotCompleted => "The roast is not yet completed.",
            ErrorCode::InvalidStatusForTransfer => "Invalid status for transfer.",
            ErrorCode::IncorrectEscrowPda => "Incorrect escrow PDA.",
            ErrorCode::UnauthorizedAction => "Unauthorized action.",
            ErrorCode::MintMismatch => "Mint Mismatch.",
            ErrorCode::AmountMustBeGreaterThanZero => "Amount must be greater than zero.",
        }
    }
}

/// Why an instruction was refused: an account that fails the instruction's
/// account constraints, or one of the program's own errors.
#[derive(Clone, Copy, Debug, PartialEq, Eq, Structural)]
pub enum RoastError {
    /// An account that must sign did not.
    AccountNotSigner,
    /// A program account is not the program it must be.
    InvalidProgramId,
    /// A stored key does not match the account given for it.
    ConstraintHasOne,
    /// An account is not the address its seeds derive.
    ConstraintSeeds,
    /// A token account is not owned by the wallet it must belong to.
    ConstraintTokenOwner,
    /// A token account is not the wallet's associated token account.
    ConstraintAssociated,
    /// An account would be closed into itself.
    ConstraintClose,
    /// One of the program's own errors.
    Program(ErrorCode),
}

/// The number each refusal is reported under.
pub open spec fn roast_error_code(e: RoastError) -> nat {
    match e {
        RoastError::AccountNotSigner => 3010,
        RoastError::InvalidProgramId => 3008,
        RoastError::ConstraintHasOne => 2001,
        RoastError::ConstraintSeeds => 2006,
        RoastError::ConstraintTokenOwner => 2015,
        RoastError::ConstraintAssociated => 2009,
        RoastError::ConstraintClose => 2011,
        RoastError::Program(c) => ERROR_CODE_OFFSET as nat + error_index(c),
    }
}

impl RoastError {
    /// The number this refusal is reported under.
    pub fn code(&self) -> (r: u32)
        ensures
            r == roast_error_code(*self),
    {
        match self {
            RoastError::AccountNotSigner => 3010,
            RoastError::InvalidProgramId => 3008,
            RoastError::ConstraintHasOne => 2001,
            RoastError::ConstraintSeeds => 2006,
            RoastError::ConstraintTokenOwner => 2015,
            RoastError::ConstraintAssociated => 2009,
            RoastError::ConstraintClose => 2011,
                RoastError::Program(c) => c.code(),
        }
    }
}

} // verus!
