use vstd::prelude::*;

verus! {

/// Every way an escrow operation can fail.
#[derive(Debug, Clone, Copy, PartialEq, Eq, Structural)]
pub enum NescrowError {
    InvalidInstruction,
    InvalidSignerPermission,
    NotExpectedAddress,
    WrongAccountOwner,
    InvalidAccountLen,
    ExecutableAccountExpected,
    /// Reserved: no operation closes a record.
    AccountAlreadyClosed,
    EscrowNotOpen,
    EscrowAlreadyAccepted,
    EscrowExpired,
    InvalidAuthority,
    InvalidWinner,
    EscrowNotAccepted,
    /// The description does not fit the record's reserved budget.
    DescriptionTooLong,
    /// A new expiry time that does not lie after the current one.
    InvalidExpiry,
    /// The stored record bytes do not decode.
    InvalidAccountData,
    /// Fewer accounts than the operation names.
    NotEnoughAccountKeys,
    /// A balance too small for a debit.
    InsufficientFunds,
    /// A credit that would overflow a balance.
    ArithmeticOverflow,
    /// Storage already allocated at the address to create.
    AccountAlreadyInUse,
}

impl NescrowError {
    /// A short human-readable message for the error.
    pub fn message(&self) -> (r: &'static str) {
        match self {
            NescrowError::InvalidInstruction => "Invalid Instruction",
            NescrowError::InvalidSignerPermission => "Invalid Signer Permission",
            NescrowError::NotExpectedAddress => "Not The Expected Account Address",
            NescrowError::WrongAccountOwner => "Wrong Account Owner",
            NescrowError::InvalidAccountLen => "Invalid Account Len",
            NescrowError::ExecutableAccountExpected => "Executable Account Expected",
            NescrowError::AccountAlreadyClosed => "Account Already Closed",
            NescrowError::EscrowNotOpen => "EscrowNotOpen",
            NescrowError::EscrowAlreadyAccepted => "EscrowAlreadyAccepted",
            NescrowError::EscrowExpired => "EscrowExpired",
            NescrowError::InvalidAuthority => "InvalidAuthority",
            NescrowError::InvalidWinner => "InvalidWinner",
            NescrowError::EscrowNotAccepted => "EscrowNotAccepted",
            NescrowError::DescriptionTooLong => "Description Too Long",
            NescrowError::InvalidExpiry => "Invalid Expiry",
            NescrowError::InvalidAccountData => "Invalid Account Data",
            NescrowError::NotEnoughAccountKeys => "Not Enough Account Keys",
            NescrowError::InsufficientFunds => "Insufficient Funds",
            NescrowError::ArithmeticOverflow => "Arithmetic Overflow",
            NescrowError::AccountAlreadyInUse => "Account Already In Use",
        }
    }
}

} // verus!
