//! What an instruction can be refused with.

use vstd::prelude::*;

verus! {

/// Offset at which the program's own error codes start.
pub const ERROR_CODE_OFFSET: u32 = 6000;

/// Reasons for which the program itself refuses an instruction.
#[derive(Clone, Copy, Debug, PartialEq, Eq, Structural)]
pub enum VeritaError {
    /// The vault is already funded.
    AlreadyFunded,
    /// The caller is not the party that the vault names for this action.
    Unauthorized,
    /// The defects-liability period plus grace has not elapsed.
    BackstopNotReached,
    /// No retention is left to release.
    NothingToClaim,
    /// The first moiety was already certified.
    AlreadyAttested,
    /// The vault still holds retention and cannot be closed.
    NonzeroResidual,
    /// The vault is already closed.
    AlreadyClosed,
    /// The vault's status does not allow a claim.
    VaultNotClaimable,
    /// The project id is longer than the account has room for.
    ProjectIdTooLong,
    /// The retention amount is zero.
    InvalidAmount,
    /// The first-moiety share is not within 1 to 10000 basis points.
    InvalidReleaseSchedule,
    /// The release would take the vault below its rent-exempt minimum.
    RentExemptViolation,
    /// A sum, difference or product left its integer type.
    MathOverflow,
    /// A division by zero.
    DivisionByZero,
    /// The window for raising a defect has closed (adjudication path).
    FreezeAfterCutoff,
    /// The freeze exceeds the aggregate cap (adjudication path).
    AggregateCapExceeded,
    /// Too many freezes are active (adjudication path).
    TooManyFreezes,
}

/// Position of the error in the declaration order above.
pub open spec fn error_index(e: VeritaError) -> int {
    match e {
        VeritaError::AlreadyFunded => 0,
        VeritaError::Unauthorized => 1,
        VeritaError::BackstopNotReached => 2,
        VeritaError::NothingToClaim => 3,
        VeritaError::AlreadyAttested => 4,
        VeritaError::NonzeroResidual => 5,
        VeritaError::AlreadyClosed => 6,
        VeritaError::VaultNotClaimable => 7,
        VeritaError::ProjectIdTooLong => 8,
        VeritaError::InvalidAmount => 9,
        VeritaError::InvalidReleaseSchedule => 10,
        VeritaError::RentExemptViolation => 11,
        VeritaError::MathOverflow => 12,
        VeritaError::DivisionByZero => 13,
        VeritaError::FreezeAfterCutoff => 14,
        VeritaError::AggregateCapExceeded => 15,
        VeritaError::TooManyFreezes => 16,
    }
}

/// Text shown to the user for each error.
pub open spec fn error_text(e: VeritaError) -> Seq<char> {
    match e {
        VeritaError::AlreadyFunded => "This vault is already funded"@,
        VeritaError::Unauthorized => "Your wallet isn't authorized for this action"@,
        VeritaError::BackstopNotReached => "Retention isn't claimable yet — DLP hasn't expired"@,
        VeritaError::NothingToClaim => "Nothing left to claim"@,
        VeritaError::AlreadyAttested => "First moiety already certified"@,
        VeritaError::NonzeroResidual => "Vault still holds funds; can't close"@,
        VeritaError::AlreadyClosed => "Vault is already closed"@,
        VeritaError::VaultNotClaimable => "Vault cannot be claimed in current state"@,
        VeritaError::ProjectIdTooLong => "Project ID exceeds maximum length of 64 bytes"@,
        VeritaError::InvalidAmount => "Retention amount must be greater than zero"@,
        VeritaError::InvalidReleaseSchedule =>
            "Release schedule must be between 1 and 10000 basis points"@,
        VeritaError::RentExemptViolation =>
            "Release would strand the vault below its rent-exempt minimum"@,
        VeritaError::MathOverflow => "Arithmetic overflow or underflow"@,
        VeritaError::DivisionByZero => "Division by zero"@,
        VeritaError::FreezeAfterCutoff => "Defect window has closed"@,
        VeritaError::AggregateCapExceeded => "Freeze exceeds the aggregate cap"@,
        VeritaError::TooManyFreezes => "Too many active freezes"@,
    }
}

impl VeritaError {
    /// Number under which a client sees the error.
    pub fn code(self) -> (code: u32)
        ensures
            code == ERROR_CODE_OFFSET + error_index(self),
    {
        match self {
            VeritaError::AlreadyFunded => ERROR_CODE_OFFSET,
            VeritaError::Unauthorized => ERROR_CODE_OFFSET + 1,
            VeritaError::BackstopNotReached => ERROR_CODE_OFFSET + 2,
            VeritaError::NothingToClaim => ERROR_CODE_OFFSET + 3,
            VeritaError::AlreadyAttested => ERROR_CODE_OFFSET + 4,
            VeritaError::NonzeroResidual => ERROR_CODE_OFFSET + 5,
            VeritaError::AlreadyClosed => ERROR_CODE_OFFSET + 6,
            VeritaError::VaultNotClaimable => ERROR_CODE_OFFSET + 7,
            VeritaError::ProjectIdTooLong => ERROR_CODE_OFFSET + 8,
            VeritaError::InvalidAmount => ERROR_CODE_OFFSET + 9,
            VeritaError::InvalidReleaseSchedule => ERROR_CODE_OFFSET + 10,
            VeritaError::RentExemptViolation => ERROR_CODE_OFFSET + 11,
            VeritaError::MathOverflow => ERROR_CODE_OFFSET + 12,
            VeritaError::DivisionByZero => ERROR_CODE_OFFSET + 13,
            VeritaError::FreezeAfterCutoff => ERROR_CODE_OFFSET + 14,
            VeritaError::AggregateCapExceeded => ERROR_CODE_OFFSET + 15,
            VeritaError::TooManyFreezes => ERROR_CODE_OFFSET + 16,
        }
    }

    /// Text shown to the user.
    pub fn msg(self) -> (text: &'static str)
        ensures
            text@ == error_text(self),
    {
        match self {
            VeritaError::AlreadyFunded => "This vault is already funded",
            VeritaError::Unauthorized => "Your wallet isn't authorized for this action",
            VeritaError::BackstopNotReached => "Retention isn't claimable yet — DLP hasn't expired",
            VeritaError::NothingToClaim => "Nothing left to claim",
            VeritaError::AlreadyAttested => "First moiety already certified",
            VeritaError::NonzeroResidual => "Vault still holds funds; can't close",
            VeritaError::AlreadyClosed => "Vault is already closed",
            VeritaError::VaultNotClaimable => "Vault cannot be claimed in current state",
            VeritaError::ProjectIdTooLong => "Project ID exceeds maximum length of 64 bytes",
            VeritaError::InvalidAmount => "Retention amount must be greater than zero",
            VeritaError::InvalidReleaseSchedule =>
                "Release schedule must be between 1 and 10000 basis points",
            VeritaError::RentExemptViolation =>
                "Release would strand the vault below its rent-exempt minimum",
            VeritaError::MathOverflow => "Arithmetic overflow or underflow",
            VeritaError::DivisionByZero => "Division by zero",
            VeritaError::FreezeAfterCutoff => "Defect window has closed",
            VeritaError::AggregateCapExceeded => "Freeze exceeds the aggregate cap",
            VeritaError::TooManyFreezes => "Too many active freezes",
        }
    }
}

/// Everything an instruction can fail with: the program's own errors, and those
/// of the framework and the runtime that its rules lead to.
#[derive(Clone, Copy, Debug, PartialEq, Eq, Structural)]
pub enum Error {
    /// The program's own rules refuse.
    Verita(VeritaError),
    /// The vault's key is not the address that its seeds derive.
    ConstraintSeeds,
    /// The account to close is the one that would receive its balance.
    ConstraintClose,
    /// The account to create is the one that would pay for it.
    TryingToInitPayerAsProgramAccount,
    /// The account to create exists already.
    AccountAlreadyInUse,
    /// The balance of a closed account does not fit its receiver.
    ArithmeticOverflow,
    /// The runtime does not provide the clock or the rent parameters.
    UnsupportedSysvar,
    /// The build does not have the instruction.
    InstructionFallbackNotFound,
}

} // verus!
