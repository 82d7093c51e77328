use crate::address::Address;
use crate::codec::{le_u64, lemma_bytes_of_le_u64, lemma_le_u64_of_bytes, push_address, push_u64_le,
    read_address, read_u64_le, u64_le_bytes};
use crate::error::EscrowError;
use vstd::prelude::*;

verus! {

/// The persisted record of one escrow: who deposited, which holding has the
/// deposit in custody, who may claim it, and how much is left to claim.
#[derive(Clone, Copy, Debug, PartialEq, Eq)]
pub struct Escrow {
    /// Tells a live record from storage that was never written.
    pub is_initialized: bool,
    /// The party that deposited, and that is refunded the rent on settlement.
    pub initializer_pubkey: Address,
    /// The holding that has the deposit in custody.
    pub temp_token_account_pubkey: Address,
    /// The only party that may claim the deposit.
    pub withdrawer_pubkey: Address,
    /// What is left to claim.
    pub deposited_amount: u64,
}

/// The size of a stored record: the flag, three addresses and the amount.
pub const ESCROW_LEN: usize = 105;

impl Escrow {
    /// The stored form of a record: one flag byte, the initializer, the
    /// custodial holding and the withdrawer at 32 bytes each, then the amount
    /// in eight bytes, least significant first.
    pub open spec fn packed(self) -> Seq<u8> {
        seq![if self.is_initialized { 1u8 } else { 0u8 }] + self.initializer_pubkey.bytes@
            + self.temp_token_account_pubkey.bytes@ + self.withdrawer_pubkey.bytes@
            + u64_le_bytes(self.deposited_amount)
    }

    /// The record that stored bytes hold. Storage of another size than
    /// `ESCROW_LEN`, or with a flag byte that is neither 0 nor 1, holds none.
    pub open spec fn parsed(bytes: Seq<u8>) -> Result<Escrow, EscrowError> {
        if bytes.len() != ESCROW_LEN || bytes[0] > 1 {
            Err(EscrowError::InvalidAccountData)
        } else {
            Ok(
                Escrow {
                    is_initialized: bytes[0] == 1,
                    initializer_pubkey: Address::of(bytes.subrange(1, 33)),
                    temp_token_account_pubkey: Address::of(bytes.subrange(33, 65)),
                    withdrawer_pubkey: Address::of(bytes.subrange(65, 97)),
                    deposited_amount: le_u64(bytes.subrange(97, 105)),
                },
            )
        }
    }

    /// The live record that stored bytes hold: as `parsed`, but storage whose
    /// record was never initialized holds none either.
    pub open spec fn parsed_live(bytes: Seq<u8>) -> Result<Escrow, EscrowError> {
        match Self::parsed(bytes) {
            Ok(record) => if record.is_initialized {
                Ok(record)
            } else {
                Err(EscrowError::UninitializedAccount)
            },
            Err(e) => Err(e),
        }
    }

    /// Whether the record is live.
    pub fn is_initialized(&self) -> (b: bool)
        ensures
            b == self.is_initialized,
    {
        self.is_initialized
    }

    /// Reads a record from its storage, live or not.
    pub fn unpack_unchecked(input: &[u8]) -> (r: Result<Escrow, EscrowError>)
        ensures
            r == Self::parsed(input@),
    {
        if input.len() != ESCROW_LEN {
            return Err(EscrowError::InvalidAccountData);
        }
        let flag = input[0];
        if flag > 1 {
            return Err(EscrowError::InvalidAccountData);
        }
        let initializer_pubkey = read_address(input, 1);
        let temp_token_account_pubkey = read_address(input, 33);
        let withdrawer_pubkey = read_address(input, 65);
        let deposited_amount = read_u64_le(input, 97);
        Ok(
            Escrow {
                is_initialized: flag == 1,
                initializer_pubkey,
                temp_token_account_pubkey,
                withdrawer_pubkey,
                deposited_amount,
            },
        )
    }

    /// Reads a live record from its storage.
    pub fn unpack(input: &[u8]) -> (r: Result<Escrow, EscrowError>)
        ensures
            r == Self::parsed_live(input@),
    {
        match Self::unpack_unchecked(input) {
            Ok(record) => if record.is_initialized {
                Ok(record)
            } else {
                Err(EscrowError::UninitializedAccount)
            },
            Err(e) => Err(e),
        }
    }

    /// The stored form of the record.
    pub fn to_bytes(&self) -> (out: Vec<u8>)
        ensures
            out@ == self.packed(),
            out@.len() == ESCROW_LEN,
    {
        let mut out: Vec<u8> = Vec::new();
        out.push(if self.is_initialized { 1u8 } else { 0u8 });
        push_address(&mut out, &self.initializer_pubkey);
        push_address(&mut out, &self.temp_token_account_pubkey);
        push_address(&mut out, &self.withdrawer_pubkey);
        push_u64_le(&mut out, self.deposited_amount);
        assert(out@ =~= self.packed());
        out
    }

    /// Writes the record over storage of the record's size, and refuses
    /// storage of any other size.
    pub fn pack(src: Escrow, dst: &mut Vec<u8>) -> (r: Result<(), EscrowError>)
        ensures
            old(dst)@.len() == ESCROW_LEN ==> r is Ok && final(dst)@ == src.packed(),
            old(dst)@.len() != ESCROW_LEN ==> r == Err::<(), EscrowError>(
                EscrowError::InvalidAccountData,
            ) && final(dst)@ == old(dst)@,
    {
        if dst.len() != ESCROW_LEN {
            return Err(EscrowError::InvalidAccountData);
        }
        *dst = src.to_bytes();
        Ok(())
    }
}

/// A record that was stored reads back as itself.
pub proof fn lemma_parse_of_packed(record: Escrow)
    ensures
        record.packed().len() == ESCROW_LEN,
        Escrow::parsed(record.packed()) == Ok::<Escrow, EscrowError>(record),
{
    let bytes = record.packed();
    assert(bytes.subrange(1, 33) =~= record.initializer_pubkey.bytes@);
    assert(bytes.subrange(33, 65) =~= record.temp_token_account_pubkey.bytes@);
    assert(bytes.subrange(65, 97) =~= record.withdrawer_pubkey.bytes@);
    assert(bytes.subrange(97, 105) =~= u64_le_bytes(record.deposited_amount));
    record.initializer_pubkey.lemma_of_own_bytes();
    record.temp_token_account_pubkey.lemma_of_own_bytes();
    record.withdrawer_pubkey.lemma_of_own_bytes();
    lemma_le_u64_of_bytes(record.deposited_amount);
}

/// Storage that holds a record is the stored form of that record.
pub proof fn lemma_packed_of_parse(bytes: Seq<u8>)
    requires
        Escrow::parsed(bytes) is Ok,
    ensures
        Escrow::parsed(bytes)->Ok_0.packed() == bytes,
{
    let record = Escrow::parsed(bytes)->Ok_0;
    Address::lemma_bytes_of(bytes.subrange(1, 33));
    Address::lemma_bytes_of(bytes.subrange(33, 65));
    Address::lemma_bytes_of(bytes.subrange(65, 97));
    lemma_bytes_of_le_u64(bytes.subrange(97, 105));
    assert(record.packed() =~= bytes);
}

} // verus!
