use crate::address::Address;
use vstd::prelude::*;

verus! {

/// What an operation reads of one account handed to it: its identity, whether
/// it signed, its balance in lamports, and the bytes it stores.
#[derive(Clone, Debug, PartialEq, Eq)]
pub struct Account {
    /// The account's identity.
    pub key: Address,
    /// Whether the host verified a signature of this account.
    pub is_signer: bool,
    /// The account's balance in lamports.
    pub lamports: u64,
    /// The bytes the account stores.
    pub data: Vec<u8>,
}

} // verus!
