use crate::address::Address;
use crate::codec::{le_u64, u64_le_bytes};
use crate::error::{HOST_INCORRECT_PROGRAM_ID, HOST_INVALID_ACCOUNT_DATA,
    HOST_UNINITIALIZED_ACCOUNT};
use solana_program::program_pack::Pack;
use solana_program::pubkey::Pubkey;
use spl_token::instruction::AuthorityType::AccountOwner;
use vstd::prelude::*;

verus! {

/// One account that a request to the token ledger names, with the rights the
/// request asks over it.
#[derive(Clone, Copy, Debug, PartialEq, Eq)]
pub struct AccountMeta {
    /// The account's identity.
    pub pubkey: Address,
    /// Whether the request needs the account's signature.
    pub is_signer: bool,
    /// Whether the request may change the account.
    pub is_writable: bool,
}

/// A request to the token ledger.
#[derive(Clone, Debug, PartialEq, Eq)]
pub struct Instruction {
    /// The program that is to carry the request out.
    pub program_id: Address,
    /// The accounts the request names, in the order the ledger expects.
    pub accounts: Vec<AccountMeta>,
    /// The request itself, in the ledger's wire format.
    pub data: Vec<u8>,
}

/// The mathematical content of an `Instruction`.
pub struct InstructionView {
    pub program_id: Address,
    pub accounts: Seq<AccountMeta>,
    pub data: Seq<u8>,
}

impl View for Instruction {
    type V = InstructionView;

    open spec fn view(&self) -> InstructionView {
        InstructionView { program_id: self.program_id, accounts: self.accounts@, data: self.data@ }
    }
}

/// The identity of the token ledger's program.
pub const TOKEN_PROGRAM_ID: [u8; 32] = [
    6, 221, 246, 225, 215, 101, 161, 147, 217, 203, 225, 70, 206, 235, 121, 172, 28, 180, 133, 237,
    95, 91, 55, 145, 58, 140, 245, 133, 126, 255, 0, 169,
];

/// Whether `program` is the token ledger.
pub open spec fn is_token_program(program: Address) -> bool {
    program == (Address { bytes: TOKEN_PROGRAM_ID })
}

/// An account that a request may change and that need not sign.
pub open spec fn writable(key: Address) -> AccountMeta {
    AccountMeta { pubkey: key, is_signer: false, is_writable: true }
}

/// An account that a request only reads.
pub open spec fn readonly(key: Address, is_signer: bool) -> AccountMeta {
    AccountMeta { pubkey: key, is_signer, is_writable: false }
}

/// The request that moves `amount` from `source` to `destination`, on the
/// authority of `authority`, with `signer` signing for it.
pub open spec fn transfer_request(
    token_program: Address,
    source: Address,
    destination: Address,
    authority: Address,
    signer: Address,
    amount: u64,
) -> InstructionView {
    InstructionView {
        program_id: token_program,
        accounts: seq![
            writable(source),
            writable(destination),
            readonly(authority, false),
            readonly(signer, true),
        ],
        data: seq![3u8] + u64_le_bytes(amount),
    }
}

/// The request that makes `new_owner` the owner of `holding`, on the authority
/// of its present owner `owner`, with `signer` signing for it.
pub open spec fn set_owner_request(
    token_program: Address,
    holding: Address,
    new_owner: Address,
    owner: Address,
    signer: Address,
) -> InstructionView {
    InstructionView {
        program_id: token_program,
        accounts: seq![writable(holding), readonly(owner, false), readonly(signer, true)],
        data: seq![6u8, 2u8, 1u8] + new_owner.bytes@,
    }
}

/// The request that closes `holding` and sends its lamports to `destination`,
/// on the authority of `owner`, with `signer` signing for it.
pub open spec fn close_request(
    token_program: Address,
    holding: Address,
    destination: Address,
    owner: Address,
    signer: Address,
) -> InstructionView {
    InstructionView {
        program_id: token_program,
        accounts: seq![
            writable(holding),
            writable(destination),
            readonly(owner, false),
            readonly(signer, true),
        ],
        data: seq![9u8],
    }
}

/// The size of a stored holding.
pub const HOLDING_LEN: usize = 165;

/// Whether the four bytes of `data` from `at` on mark an optional field of a
/// holding as absent or as present: the first is 0 or 1, the others are 0.
pub open spec fn option_mark(data: Seq<u8>, at: int) -> bool {
    (data[at] == 0 || data[at] == 1) && data[at + 1] == 0 && data[at + 2] == 0 && data[at + 3] == 0
}

/// What the token ledger reads from the bytes of a holding: the holding's
/// balance, or the host code of the reason why the bytes are no live holding.
/// A holding is stored in 165 bytes: mint and owner at 32 bytes each, the
/// balance in eight bytes from 64 on, least significant first, the optional
/// delegate from 72 on, the state at 108, the optional native reserve from
/// 109 on, the delegated amount from 121 on, and the optional authority to
/// close from 129 on. Bytes of another length, with a mark of an optional
/// field that is none, or with a state above 2 are invalid account data; the
/// state 0 is a holding that was never initialized.
pub open spec fn holding_balance(data: Seq<u8>) -> Result<u64, u64> {
    if data.len() != HOLDING_LEN || !option_mark(data, 72) || data[108] > 2 || !option_mark(
        data,
        109,
    ) || !option_mark(data, 129) {
        Err(HOST_INVALID_ACCOUNT_DATA)
    } else if data[108] == 0 {
        Err(HOST_UNINITIALIZED_ACCOUNT)
    } else {
        Ok(le_u64(data.subrange(64, 72)))
    }
}

/// Calls `spl_token::instruction::transfer` with `signer` as the only signer.
/// It refuses any program but the token ledger with the host's code for an
/// incorrect program id. Otherwise it builds a request to that program that
/// names the source and the destination as writable, then the authority and
/// the signer as read-only, the signer alone signing; the data is the opcode 3
/// and the amount in eight bytes, least significant first.
#[verifier::external_body]
pub(crate) fn transfer(
    token_program: &Address,
    source: &Address,
    destination: &Address,
    authority: &Address,
    signer: &Address,
    amount: u64,
) -> (r: Result<Instruction, u64>)
    ensures
        is_token_program(*token_program) ==> r is Ok && r->Ok_0@ == transfer_request(
            *token_program,
            *source,
            *destination,
            *authority,
            *signer,
            amount,
        ),
        !is_token_program(*token_program) ==> r is Err && r->Err_0 == HOST_INCORRECT_PROGRAM_ID,
{
    let key = |a: &Address| Pubkey::new_from_array(a.bytes);
    let (program, from, to) = (key(token_program), key(source), key(destination));
    spl_token::instruction::transfer(&program, &from, &to, &key(authority), &[&key(signer)], amount)
        .map(|ix| Instruction {
            program_id: Address { bytes: ix.program_id.to_bytes() },
            accounts: ix.accounts.iter().map(|m| AccountMeta {
                pubkey: Address { bytes: m.pubkey.to_bytes() },
                is_signer: m.is_signer,
                is_writable: m.is_writable,
            }).collect(),
            data: ix.data,
        })
        .map_err(u64::from)
}

/// Calls `spl_token::instruction::set_authority` for the authority of an
/// account's owner, with a new owner given and `signer` as the only signer. It
/// refuses any program but the token ledger with the host's code for an
/// incorrect program id. Otherwise it builds a request to that program that
/// names the holding as writable, then the present owner and the signer as
/// read-only, the signer alone signing; the data is the opcode 6, the byte 2
/// that stands for the owner's authority, the byte 1 that marks a new
/// authority as present, and the 32 bytes of the new owner.
#[verifier::external_body]
pub(crate) fn set_owner(
    token_program: &Address,
    holding: &Address,
    new_owner: &Address,
    owner: &Address,
    signer: &Address,
) -> (r: Result<Instruction, u64>)
    ensures
        is_token_program(*token_program) ==> r is Ok && r->Ok_0@ == set_owner_request(
            *token_program,
            *holding,
            *new_owner,
            *owner,
            *signer,
        ),
        !is_token_program(*token_program) ==> r is Err && r->Err_0 == HOST_INCORRECT_PROGRAM_ID,
{
    let key = |a: &Address| Pubkey::new_from_array(a.bytes);
    let (program, held, new, kind) = (key(token_program), key(holding), key(new_owner), AccountOwner);
    spl_token::instruction::set_authority(&program, &held, Some(&new), kind, &key(owner), &[&key(signer)])
        .map(|ix| Instruction {
            program_id: Address { bytes: ix.program_id.to_bytes() },
            accounts: ix.accounts.iter().map(|m| AccountMeta {
                pubkey: Address { bytes: m.pubkey.to_bytes() },
                is_signer: m.is_signer,
                is_writable: m.is_writable,
            }).collect(),
            data: ix.data,
        })
        .map_err(u64::from)
}

/// Calls `spl_token::instruction::close_account` with `signer` as the only
/// signer. It refuses any program but the token ledger with the host's code
/// for an incorrect program id. Otherwise it builds a request to that program
/// that names the holding and the destination of its lamports as writable,
/// then the owner and the signer as read-only, the signer alone signing; the
/// data is the opcode 9.
#[verifier::external_body]
pub(crate) fn close_account(
    token_program: &Address,
    holding: &Address,
    destination: &Address,
    owner: &Address,
    signer: &Address,
) -> (r: Result<Instruction, u64>)
    ensures
        is_token_program(*token_program) ==> r is Ok && r->Ok_0@ == close_request(
            *token_program,
            *holding,
            *destination,
            *owner,
            *signer,
        ),
        !is_token_program(*token_program) ==> r is Err && r->Err_0 == HOST_INCORRECT_PROGRAM_ID,
{
    let key = |a: &Address| Pubkey::new_from_array(a.bytes);
    let (program, held, to) = (key(token_program), key(holding), key(destination));
    spl_token::instruction::close_account(&program, &held, &to, &key(owner), &[&key(signer)])
        .map(|ix| Instruction {
            program_id: Address { bytes: ix.program_id.to_bytes() },
            accounts: ix.accounts.iter().map(|m| AccountMeta {
                pubkey: Address { bytes: m.pubkey.to_bytes() },
                is_signer: m.is_signer,
                is_writable: m.is_writable,
            }).collect(),
            data: ix.data,
        })
        .map_err(u64::from)
}

/// Calls `spl_token::state::Account::unpack` on the bytes of a holding and
/// hands out the amount it reads, or the host code of its error. It accepts
/// exactly 165 bytes, refuses a mark of an optional field that is neither
/// absent nor present and a state that is none of the three it knows, then
/// refuses a holding in the state 0, and reads the amount from the eight
/// bytes at 64.
#[verifier::external_body]
pub(crate) fn read_balance(data: &[u8]) -> (r: Result<u64, u64>)
    ensures
        r == holding_balance(data@),
{
    spl_token::state::Account::unpack(data).map(|holding| holding.amount).map_err(u64::from)
}

} // verus!
