use crate::account::Account;
use crate::address::Address;
use crate::codec::le_u64;
use solana_program::account_info::AccountInfo;
use solana_program::pubkey::Pubkey;
use solana_program::sysvar::rent::Rent;
use solana_program::sysvar::Sysvar;
use vstd::prelude::*;

verus! {

/// The address that a program derives from one seed, with the bump seed that
/// completes the derivation; `None` where no bump seed completes it.
pub uninterp spec fn program_address(seed: Seq<u8>, program_id: Address) -> Option<(Address, u8)>;

/// Whether `balance` lamports exempt storage of `size` bytes from rent under
/// the rent parameters that the account with identity `key` and bytes `data`
/// holds, or the host code of the reason why that account holds none.
pub uninterp spec fn rent_exemption(key: Address, data: Seq<u8>, balance: u64, size: usize)
    -> Result<bool, u64>;

/// The identity of the account in which the host keeps its rent parameters.
pub const RENT_SYSVAR_ID: [u8; 32] = [
    6, 167, 213, 23, 25, 44, 92, 81, 33, 140, 201, 76, 61, 74, 241, 127, 88, 218, 238, 8, 155, 161,
    253, 68, 227, 219, 217, 138, 0, 0, 0, 0,
];

/// The bytes the host counts for an account on top of the bytes it stores.
pub const ACCOUNT_STORAGE_OVERHEAD: u64 = 128;

/// The least number of bytes that hold rent parameters.
pub const RENT_PARAMETERS_LEN: usize = 17;

/// Whether the account with identity `key` and bytes `data` can hold rent
/// parameters at all: it has the identity of the host's rent account and
/// bytes enough for them.
pub open spec fn may_hold_rent(key: Address, data: Seq<u8>) -> bool {
    key == (Address { bytes: RENT_SYSVAR_ID }) && data.len() >= RENT_PARAMETERS_LEN
}

/// Whether the rent rate of the account with identity `key` and bytes `data`,
/// in lamports for a byte and a year, can be charged on storage of `size`
/// bytes within the range of lamports. The rate stands in the first eight
/// bytes of the rent parameters, least significant byte first; the host
/// charges it on the size plus the overhead. An account that can hold no rent
/// parameters has no rate to charge.
pub open spec fn rent_rate_applies(key: Address, data: Seq<u8>, size: usize) -> bool {
    may_hold_rent(key, data) ==> {
        &&& ACCOUNT_STORAGE_OVERHEAD + size <= u64::MAX
        &&& (ACCOUNT_STORAGE_OVERHEAD + size) * le_u64(data.subrange(0, 8)) <= u64::MAX
    }
}

/// Calls `Pubkey::try_find_program_address` with `seed` as the only seed, and
/// hands out the address and the bump seed it finds, if any. The result
/// depends on the seed and the program alone.
#[verifier::external_body]
pub(crate) fn find_program_address(seed: &[u8], program_id: &Address) -> (r: Option<(Address, u8)>)
    ensures
        r == program_address(seed@, *program_id),
{
    Pubkey::try_find_program_address(&[seed], &Pubkey::new_from_array(program_id.bytes))
        .map(|(address, bump)| (Address { bytes: address.to_bytes() }, bump))
}

/// Calls `Rent::from_account_info` on an account with the identity and the
/// bytes of `rent_account`, and `Rent::is_exempt` on the parameters it reads.
/// The result depends on that identity, those bytes, the balance and the size
/// alone. `from_account_info` reads parameters only from the host's rent
/// account and only from 17 bytes or more; `is_exempt` then adds the overhead
/// to the size and multiplies the sum by the rate in 64 bits, so both have to
/// fit.
#[verifier::external_body]
pub(crate) fn rent_exempt(rent_account: &Account, balance: u64, size: usize) -> (r: Result<
    bool,
    u64,
>)
    requires
        rent_rate_applies(rent_account.key, rent_account.data@, size),
    ensures
        r == rent_exemption(rent_account.key, rent_account.data@, balance, size),
{
    let key = Pubkey::new_from_array(rent_account.key.bytes);
    let (mut lamports, mut data) = (rent_account.lamports, rent_account.data.clone());
    let info = AccountInfo::new(&key, false, false, &mut lamports, &mut data, &key, false, 0);
    Rent::from_account_info(&info).map(|rent| rent.is_exempt(balance, size)).map_err(u64::from)
}

} // verus!
