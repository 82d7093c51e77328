use escrow::error::{
    EscrowError, HOST_ACCOUNT_ALREADY_INITIALIZED, HOST_INCORRECT_PROGRAM_ID,
    HOST_INVALID_ACCOUNT_DATA, HOST_INVALID_ARGUMENT, HOST_MISSING_REQUIRED_SIGNATURE,
    HOST_NOT_ENOUGH_ACCOUNT_KEYS, HOST_UNINITIALIZED_ACCOUNT,
};
use solana_program::program_error::ProgramError;

#[test]
fn host_codes_are_those_of_the_host() {
    assert_eq!(HOST_INVALID_ARGUMENT, u64::from(ProgramError::InvalidArgument));
    assert_eq!(HOST_INVALID_ACCOUNT_DATA, u64::from(ProgramError::InvalidAccountData));
    assert_eq!(HOST_INCORRECT_PROGRAM_ID, u64::from(ProgramError::IncorrectProgramId));
    assert_eq!(
        HOST_MISSING_REQUIRED_SIGNATURE,
        u64::from(ProgramError::MissingRequiredSignature)
    );
    assert_eq!(
        HOST_ACCOUNT_ALREADY_INITIALIZED,
        u64::from(ProgramError::AccountAlreadyInitialized)
    );
    assert_eq!(HOST_UNINITIALIZED_ACCOUNT, u64::from(ProgramError::UninitializedAccount));
    assert_eq!(HOST_NOT_ENOUGH_ACCOUNT_KEYS, u64::from(ProgramError::NotEnoughAccountKeys));
}

#[test]
fn known_host_codes_map_to_their_variant() {
    assert_eq!(EscrowError::from_host_code(0x2_0000_0000), EscrowError::InvalidArgument);
    assert_eq!(EscrowError::from_host_code(0x4_0000_0000), EscrowError::InvalidAccountData);
    assert_eq!(EscrowError::from_host_code(0x7_0000_0000), EscrowError::IncorrectProgramId);
    assert_eq!(
        EscrowError::from_host_code(0x8_0000_0000),
        EscrowError::MissingRequiredSignature
    );
    assert_eq!(
        EscrowError::from_host_code(0x9_0000_0000),
        EscrowError::AccountAlreadyInitialized
    );
    assert_eq!(EscrowError::from_host_code(0xa_0000_0000), EscrowError::UninitializedAccount);
    assert_eq!(EscrowError::from_host_code(0xb_0000_0000), EscrowError::NotEnoughAccountKeys);
}

#[test]
fn other_host_codes_are_carried_as_they_are() {
    assert_eq!(EscrowError::from_host_code(0), EscrowError::Host(0));
    assert_eq!(EscrowError::from_host_code(3), EscrowError::Host(3));
    let insufficient_funds = u64::from(ProgramError::InsufficientFunds);
    assert_eq!(
        EscrowError::from_host_code(insufficient_funds),
        EscrowError::Host(insufficient_funds)
    );
    assert_eq!(EscrowError::from_host_code(u64::MAX), EscrowError::Host(u64::MAX));
}
