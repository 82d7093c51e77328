use vstd::prelude::*;

verus! {

/// Every way an escrow operation can fail. A failure ends the operation and
/// nothing of it takes effect.
#[derive(Clone, Copy, Debug, PartialEq, Eq, Structural)]
pub enum EscrowError {
    /// The instruction bytes carry an unknown opcode or a malformed amount.
    InvalidInstruction,
    /// The escrow record's storage holds less than the rent-exempt minimum.
    NotRentExempt,
    /// The requested withdrawal exceeds the custodial holding's live balance.
    ExpectedAmountMismatch,
    /// A rent refund would exceed the representable range.
    AmountOverflow,
    /// A party that has to sign the operation did not.
    MissingRequiredSignature,
    /// The escrow record is already live.
    AccountAlreadyInitialized,
    /// The record is malformed, or does not name the accounts supplied with it.
    InvalidAccountData,
    /// The escrow record was never initialized.
    UninitializedAccount,
    /// The account list is shorter than the operation needs.
    NotEnoughAccountKeys,
    /// The program named as the token ledger is not the token ledger.
    IncorrectProgramId,
    /// The host rejected an argument.
    InvalidArgument,
    /// Any other failure of the host or the ledger, by its numeric code.
    Host(u64),
}

/// Host code of an invalid argument.
pub const HOST_INVALID_ARGUMENT: u64 = 0x2_0000_0000;

/// Host code of invalid account data.
pub const HOST_INVALID_ACCOUNT_DATA: u64 = 0x4_0000_0000;

/// Host code of an incorrect program id.
pub const HOST_INCORRECT_PROGRAM_ID: u64 = 0x7_0000_0000;

/// Host code of a missing signature.
pub const HOST_MISSING_REQUIRED_SIGNATURE: u64 = 0x8_0000_0000;

/// Host code of an account that is already initialized.
pub const HOST_ACCOUNT_ALREADY_INITIALIZED: u64 = 0x9_0000_0000;

/// Host code of an uninitialized account.
pub const HOST_UNINITIALIZED_ACCOUNT: u64 = 0xa_0000_0000;

/// Host code of a short account list.
pub const HOST_NOT_ENOUGH_ACCOUNT_KEYS: u64 = 0xb_0000_0000;

impl EscrowError {
    /// The error that a numeric host code stands for. The host's built-in
    /// codes that this protocol also raises map to their own variant; every
    /// other code is carried as it is.
    pub open spec fn of_host_code(code: u64) -> EscrowError {
        if code == HOST_INVALID_ARGUMENT {
            EscrowError::InvalidArgument
        } else if code == HOST_INVALID_ACCOUNT_DATA {
            EscrowError::InvalidAccountData
        } else if code == HOST_INCORRECT_PROGRAM_ID {
            EscrowError::IncorrectProgramId
        } else if code == HOST_MISSING_REQUIRED_SIGNATURE {
            EscrowError::MissingRequiredSignature
        } else if code == HOST_ACCOUNT_ALREADY_INITIALIZED {
            EscrowError::AccountAlreadyInitialized
        } else if code == HOST_UNINITIALIZED_ACCOUNT {
            EscrowError::UninitializedAccount
        } else if code == HOST_NOT_ENOUGH_ACCOUNT_KEYS {
            EscrowError::NotEnoughAccountKeys
        } else {
            EscrowError::Host(code)
        }
    }

    /// Maps a numeric host code to the error it stands for.
    pub fn from_host_code(code: u64) -> (e: EscrowError)
        ensures
            e == Self::of_host_code(code),
    {
        if code == HOST_INVALID_ARGUMENT {
            EscrowError::InvalidArgument
        } else if code == HOST_INVALID_ACCOUNT_DATA {
            EscrowError::InvalidAccountData
        } else if code == HOST_INCORRECT_PROGRAM_ID {
            EscrowError::IncorrectProgramId
        } else if code == HOST_MISSING_REQUIRED_SIGNATURE {
            EscrowError::MissingRequiredSignature
        } else if code == HOST_ACCOUNT_ALREADY_INITIALIZED {
            EscrowError::AccountAlreadyInitialized
        } else if code == HOST_UNINITIALIZED_ACCOUNT {
            EscrowError::UninitializedAccount
        } else if code == HOST_NOT_ENOUGH_ACCOUNT_KEYS {
            EscrowError::NotEnoughAccountKeys
        } else {
            EscrowError::Host(code)
        }
    }
}

} // verus!
