use crate::codec::{le_u64, read_u64_le};
use crate::error::EscrowError;
use vstd::prelude::*;
use vstd::slice::slice_subrange;

verus! {

/// The two operations of the escrow protocol.
#[derive(Clone, Copy, Debug, PartialEq, Eq, Structural)]
pub enum EscrowInstruction {
    /// Starts an escrow: fills the escrow record and hands the temporary
    /// holding over to the protocol's custodial authority.
    ///
    /// Accounts, in this order:
    ///
    /// 0. the initializer, who signs
    /// 1. the temporary holding, owned by the initializer, with the deposit
    /// 2. the withdrawer
    /// 3. the escrow record
    /// 4. the rent parameters
    /// 5. the token ledger's program
    InitEscrow {
        /// What the withdrawer may claim.
        amount: u64,
    },
    /// Claims all or part of the deposit.
    ///
    /// Accounts, in this order:
    ///
    /// 0. the taker, who signs
    /// 1. the taker's holding, which receives the claim
    /// 2. the custodial holding
    /// 3. the initializer's main account, which receives the rent
    /// 4. the escrow record
    /// 5. the token ledger's program
    /// 6. the custodial authority
    Withdraw {
        /// What the taker asks for.
        amount: u64,
    },
}

/// The length of an encoded instruction: the opcode and the amount.
pub const INSTRUCTION_LEN: usize = 9;

impl EscrowInstruction {
    /// The instruction that bytes encode: the opcode 0 for `InitEscrow` or 1
    /// for `Withdraw`, then the amount in eight bytes, least significant
    /// first. Bytes of any other length or with any other opcode encode none.
    pub open spec fn decoded(input: Seq<u8>) -> Result<EscrowInstruction, EscrowError> {
        if input.len() != INSTRUCTION_LEN {
            Err(EscrowError::InvalidInstruction)
        } else if input[0] == 0 {
            Ok(EscrowInstruction::InitEscrow { amount: le_u64(input.subrange(1, 9)) })
        } else if input[0] == 1 {
            Ok(EscrowInstruction::Withdraw { amount: le_u64(input.subrange(1, 9)) })
        } else {
            Err(EscrowError::InvalidInstruction)
        }
    }

    /// The amount that bytes encode: exactly eight bytes, least significant
    /// first.
    pub open spec fn decoded_amount(input: Seq<u8>) -> Result<u64, EscrowError> {
        if input.len() == 8 {
            Ok(le_u64(input))
        } else {
            Err(EscrowError::InvalidInstruction)
        }
    }

    /// Decodes an instruction from its bytes.
    pub fn unpack(input: &[u8]) -> (r: Result<EscrowInstruction, EscrowError>)
        ensures
            r == Self::decoded(input@),
    {
        if input.len() == 0 {
            return Err(EscrowError::InvalidInstruction);
        }
        let tag = input[0];
        let rest = slice_subrange(input, 1, input.len());
        if tag == 0 {
            match Self::unpack_amount(rest) {
                Ok(amount) => Ok(EscrowInstruction::InitEscrow { amount }),
                Err(e) => Err(e),
            }
        } else if tag == 1 {
            match Self::unpack_amount(rest) {
                Ok(amount) => Ok(EscrowInstruction::Withdraw { amount }),
                Err(e) => Err(e),
            }
        } else {
            Err(EscrowError::InvalidInstruction)
        }
    }

    /// Decodes the amount of an instruction from the bytes behind the opcode.
    pub fn unpack_amount(input: &[u8]) -> (r: Result<u64, EscrowError>)
        ensures
            r == Self::decoded_amount(input@),
    {
        if input.len() != 8 {
            return Err(EscrowError::InvalidInstruction);
        }
        let amount = read_u64_le(input, 0);
        assert(input@.subrange(0, 8) =~= input@);
        Ok(amount)
    }
}

} // verus!
