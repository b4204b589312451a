//! The closed set of failures, each with a stable numeric code.
use vstd::prelude::*;

verus! {

/// The named conditions on which an instruction is rejected.
#[derive(Clone, Copy, Debug, PartialEq, Eq, Structural)]
pub enum RedPacketError {
    InvalidAmount,
    InvalidRecipientCount,
    InvalidSplitMode,
    AlreadyClaimed,
    RedPacketFull,
    Expired,
    NotExpiredOrFull,
    Unauthorized,
    InvalidPDA,
    InvalidAccountOwner,
    InvalidDiscriminator,
    AmountMismatch,
    NotEnoughAccounts,
    UnauthorizedAdmin,
    TreasuryNotInitialized,
    InsufficientTreasuryBalance,
    TreasuryAlreadyInitialized,
    InvalidMint,
    InvalidTokenAccount,
    InvalidTokenProgram,
    InvalidSystemProgram,
    InvalidTokenType,
}

/// The stable code of each condition, as the caller sees it.
pub open spec fn error_code(e: RedPacketError) -> u32 {
    match e {
        RedPacketError::InvalidAmount => 0,
        RedPacketError::InvalidRecipientCount => 1,
        RedPacketError::InvalidSplitMode => 2,
        RedPacketError::AlreadyClaimed => 3,
        RedPacketError::RedPacketFull => 4,
        RedPacketError::Expired => 5,
        RedPacketError::NotExpiredOrFull => 6,
        RedPacketError::Unauthorized => 7,
        RedPacketError::InvalidPDA => 8,
        RedPacketError::InvalidAccountOwner => 9,
        RedPacketError::InvalidDiscriminator => 10,
        RedPacketError::AmountMismatch => 11,
        RedPacketError::NotEnoughAccounts => 12,
        RedPacketError::UnauthorizedAdmin => 13,
        RedPacketError::TreasuryNotInitialized => 14,
        RedPacketError::InsufficientTreasuryBalance => 15,
        RedPacketError::TreasuryAlreadyInitialized => 16,
        RedPacketError::InvalidMint => 17,
        RedPacketError::InvalidTokenAccount => 18,
        RedPacketError::InvalidTokenProgram => 19,
        RedPacketError::InvalidSystemProgram => 20,
        RedPacketError::InvalidTokenType => 21,
    }
}

impl RedPacketError {
    /// The numeric code surfaced to the caller.
    pub fn code(&self) -> (r: u32)
        ensures
            r == error_code(*self),
    {
        match self {
            RedPacketError::InvalidAmount => 0,
            RedPacketError::InvalidRecipientCount => 1,
            RedPacketError::InvalidSplitMode => 2,
            RedPacketError::AlreadyClaimed => 3,
            RedPacketError::RedPacketFull => 4,
            RedPacketError::Expired => 5,
            RedPacketError::NotExpiredOrFull => 6,
            RedPacketError::Unauthorized => 7,
            RedPacketError::InvalidPDA => 8,
            RedPacketError::InvalidAccountOwner => 9,
            RedPacketError::InvalidDiscriminator => 10,
            RedPacketError::AmountMismatch => 11,
            RedPacketError::NotEnoughAccounts => 12,
            RedPacketError::UnauthorizedAdmin => 13,
            RedPacketError::TreasuryNotInitialized => 14,
            RedPacketError::InsufficientTreasuryBalance => 15,
            RedPacketError::TreasuryAlreadyInitialized => 16,
            RedPacketError::InvalidMint => 17,
            RedPacketError::InvalidTokenAccount => 18,
            RedPacketError::InvalidTokenProgram => 19,
            RedPacketError::InvalidSystemProgram => 20,
            RedPacketError::InvalidTokenType => 21,
        }
    }
}

/// Why an instruction failed: one of this program's own conditions, or one
/// of the generic failures that the host platform defines.
#[derive(Clone, Copy, Debug, PartialEq, Eq, Structural)]
pub enum ProgramError {
    Custom(RedPacketError),
    InvalidInstructionData,
    InvalidAccountData,
    MissingRequiredSignature,
    ArithmeticOverflow,
}

impl From<RedPacketError> for ProgramError {
    fn from(e: RedPacketError) -> (r: ProgramError)
        ensures
            r == ProgramError::Custom(e),
    {
        ProgramError::Custom(e)
    }
}

impl vstd::std_specs::convert::FromSpecImpl<RedPacketError> for ProgramError {
    open spec fn obeys_from_spec() -> bool {
        true
    }

    open spec fn from_spec(e: RedPacketError) -> ProgramError {
        ProgramError::Custom(e)
    }
}

} // verus!
