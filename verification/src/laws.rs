use crate::account::Account;
use crate::address::Address;
use crate::codec::u64_le_bytes;
use crate::error::EscrowError;
use crate::host::rent_exemption;
use crate::instruction::EscrowInstruction;
use crate::ledger::{close_request, holding_balance, is_token_program, readonly, transfer_request,
    writable};
use crate::processor::{authority_of, Processor};
use crate::transition::TransitionView;
use crate::state::{lemma_parse_of_packed, Escrow, ESCROW_LEN};
use vstd::prelude::*;

verus! {

/// An initialize succeeds exactly when the initializer signed, all six
/// accounts are there, the host finds the record's storage exempt from rent,
/// the storage holds a record that is not live, and the program named as the
/// ledger is the token ledger.
pub proof fn lemma_initialize_succeeds_iff(accounts: Seq<Account>, amount: u64, program_id: Address)
    requires
        authority_of(program_id) is Some,
    ensures
        (Processor::init_outcome(accounts, amount, program_id) is Ok <==> {
            &&& accounts.len() >= 6
            &&& accounts[0].is_signer
            &&& rent_exemption(
                accounts[4].key,
                accounts[4].data@,
                accounts[3].lamports,
                accounts[3].data@.len() as usize,
            ) == Ok::<bool, u64>(true)
            &&& Escrow::parsed(accounts[3].data@) matches Ok(found) && !found.is_initialized
            &&& is_token_program(accounts[5].key)
        }),
{
}

/// Where the host gives a verdict on the rent and the program has a custodial
/// authority, an initialize for the program decides what `init_decided` says
/// of that verdict and that authority.
pub proof fn lemma_initialize_is_decided(accounts: Seq<Account>, amount: u64, program_id: Address)
    requires
        authority_of(program_id) is Some,
        Processor::signed_for(accounts, 5) is Ok,
        Processor::rent_verdict(accounts) is Ok,
    ensures
        Processor::init_outcome(accounts, amount, program_id) == Processor::init_decided(
            accounts,
            amount,
            Processor::rent_verdict(accounts)->Ok_0,
            authority_of(program_id)->Some_0.0,
        ),
{
}

/// After an initialize that succeeds, the record is live and names the
/// initializer, the holding and the withdrawer that were handed in, with the
/// amount that was asked; it is stored in the escrow account; and the one
/// request to the ledger, signed by the initializer, makes the program's
/// custodial authority the owner of the holding.
pub proof fn lemma_initialize_records_the_parties(
    accounts: Seq<Account>,
    amount: u64,
    program_id: Address,
)
    requires
        authority_of(program_id) is Some,
        Processor::init_outcome(accounts, amount, program_id) is Ok,
    ensures
        (Processor::init_outcome(accounts, amount, program_id) matches Ok(
            TransitionView::Initialized { record, record_account, change_authority },
        ) && {
            &&& record == (Escrow {
                is_initialized: true,
                initializer_pubkey: accounts[0].key,
                temp_token_account_pubkey: accounts[1].key,
                withdrawer_pubkey: accounts[2].key,
                deposited_amount: amount,
            })
            &&& record_account == 3
            &&& change_authority.signer_bump is None
            &&& change_authority.instruction.program_id == accounts[5].key
            &&& change_authority.instruction.accounts == seq![
                writable(accounts[1].key),
                readonly(accounts[0].key, false),
                readonly(accounts[0].key, true),
            ]
            &&& change_authority.instruction.data == seq![6u8, 2u8, 1u8] + authority_of(
                program_id,
            )->Some_0.0.bytes@
        }),
{
}

/// An initialize over a record that is live already fails, so the record
/// stays as it is; where the initializer signed and the host finds the
/// storage exempt from rent, the failure is `AccountAlreadyInitialized`.
pub proof fn lemma_initialize_refuses_live_record(
    accounts: Seq<Account>,
    amount: u64,
    program_id: Address,
)
    requires
        accounts.len() >= 5,
        Escrow::parsed(accounts[3].data@) matches Ok(found) && found.is_initialized,
    ensures
        Processor::init_outcome(accounts, amount, program_id) is Err,
        accounts[0].is_signer && rent_exemption(
            accounts[4].key,
            accounts[4].data@,
            accounts[3].lamports,
            accounts[3].data@.len() as usize,
        ) == Ok::<bool, u64>(true) ==> Processor::init_outcome(accounts, amount, program_id) == Err::<
            TransitionView,
            EscrowError,
        >(EscrowError::AccountAlreadyInitialized),
{
}

/// An initialize that is run again, on the accounts as the first run left
/// them, fails with `AccountAlreadyInitialized`, whatever amount it asks.
pub proof fn lemma_initialize_twice_fails(
    accounts: Seq<Account>,
    amount: u64,
    program_id: Address,
    after: Seq<Account>,
    again: u64,
)
    requires
        authority_of(program_id) is Some,
        (Processor::init_outcome(accounts, amount, program_id) matches Ok(
            TransitionView::Initialized { record, .. },
        ) && after[3].data@ == record.packed()),
        after.len() == accounts.len(),
        forall|i: int| 0 <= i < accounts.len() && i != 3 ==> after[i] == accounts[i],
        after[3].key == accounts[3].key,
        after[3].lamports == accounts[3].lamports,
    ensures
        Processor::init_outcome(after, again, program_id) == Err::<TransitionView, EscrowError>(
            EscrowError::AccountAlreadyInitialized,
        ),
{
    let record = Processor::init_outcome(accounts, amount, program_id)->Ok_0->Initialized_record;
    lemma_parse_of_packed(record);
    assert(accounts[3].data@.len() == ESCROW_LEN);
}

/// A withdraw succeeds only through the authorization gate: the taker
/// signed, the amount asked does not exceed the live balance of the
/// custodial holding, the live record names that holding, the initializer's
/// main account and the taker, and the account handed in as the authority is
/// the custodial authority that the program derives.
pub proof fn lemma_withdraw_is_gated(accounts: Seq<Account>, amount: u64, program_id: Address)
    requires
        authority_of(program_id) is Some,
        Processor::withdraw_outcome(accounts, amount, program_id) is Ok,
    ensures
        accounts.len() >= 7,
        accounts[0].is_signer,
        holding_balance(accounts[2].data@) matches Ok(live_balance) && amount <= live_balance,
        Escrow::parsed_live(accounts[4].data@) matches Ok(record) && Processor::admits(
            record,
            accounts[2].key,
            accounts[3].key,
            accounts[0].key,
        ),
        accounts[6].key == authority_of(program_id)->Some_0.0,
        is_token_program(accounts[5].key),
{
}

/// A withdraw that hands in, as the authority, an account that is not the
/// custodial authority of the program fails, so nothing is asked of the
/// ledger; where the taker signed, the amount asked does not exceed the
/// holding's live balance, and the live record names the holding, the
/// initializer's main account and the taker, the failure is
/// `InvalidAccountData`.
pub proof fn lemma_withdraw_refuses_foreign_authority(
    accounts: Seq<Account>,
    amount: u64,
    program_id: Address,
)
    requires
        authority_of(program_id) is Some,
        accounts.len() >= 7,
        accounts[6].key != authority_of(program_id)->Some_0.0,
    ensures
        Processor::withdraw_outcome(accounts, amount, program_id) is Err,
        accounts[0].is_signer && (holding_balance(accounts[2].data@) matches Ok(live_balance)
            && amount <= live_balance) && (Escrow::parsed_live(accounts[4].data@) matches Ok(record)
            && Processor::admits(record, accounts[2].key, accounts[3].key, accounts[0].key))
            ==> Processor::withdraw_outcome(accounts, amount, program_id) == Err::<
            TransitionView,
            EscrowError,
        >(EscrowError::InvalidAccountData),
{
}

/// A withdraw that asks for more than the live balance of the custodial
/// holding fails with `ExpectedAmountMismatch`, so nothing is asked of the
/// ledger and nothing is stored, whatever else was handed in behind the
/// holding.
pub proof fn lemma_withdraw_above_balance_fails(
    program_id: Address,
    accounts: Seq<Account>,
    instruction_data: Seq<u8>,
    amount: u64,
)
    requires
        Processor::defined(program_id, accounts, instruction_data),
        EscrowInstruction::decoded(instruction_data) == Ok::<EscrowInstruction, EscrowError>(
            EscrowInstruction::Withdraw { amount },
        ),
        accounts.len() >= 3,
        accounts[0].is_signer,
        holding_balance(accounts[2].data@) matches Ok(live_balance) && amount > live_balance,
    ensures
        Processor::outcome(program_id, accounts, instruction_data) == Err::<
            TransitionView,
            EscrowError,
        >(EscrowError::ExpectedAmountMismatch),
        forall|authority: Address, bump: u8|
            #[trigger] Processor::withdraw_decided(
                accounts,
                amount,
                holding_balance(accounts[2].data@)->Ok_0,
                authority,
                bump,
            ) == Err::<TransitionView, EscrowError>(EscrowError::ExpectedAmountMismatch),
{
}

/// A withdraw over a live record that does not name the custodial holding,
/// the initializer's main account or the taker handed in fails, so nothing
/// is asked of the ledger; where the taker signed and the amount asked does
/// not exceed the holding's live balance, the failure is
/// `InvalidAccountData`.
pub proof fn lemma_withdraw_refuses_strangers(
    accounts: Seq<Account>,
    amount: u64,
    program_id: Address,
)
    requires
        Processor::withdraw_derives(accounts) ==> authority_of(program_id) is Some,
        accounts.len() >= 5,
        Escrow::parsed_live(accounts[4].data@) matches Ok(record) && !Processor::admits(
            record,
            accounts[2].key,
            accounts[3].key,
            accounts[0].key,
        ),
    ensures
        Processor::withdraw_outcome(accounts, amount, program_id) is Err,
        accounts[0].is_signer && (holding_balance(accounts[2].data@) matches Ok(live_balance)
            && amount <= live_balance) ==> Processor::withdraw_outcome(accounts, amount, program_id)
            == Err::<TransitionView, EscrowError>(EscrowError::InvalidAccountData),
{
}

/// A withdraw that succeeds with an amount below the recorded deposit moves
/// exactly that amount from the custodial holding to the taker's holding, on
/// the custodial authority; the record that is stored back in the escrow
/// account stays live, names the same parties, and its deposit is less by
/// exactly that amount, never more than before and never zero.
pub proof fn lemma_partial_withdrawal(accounts: Seq<Account>, amount: u64, program_id: Address)
    requires
        authority_of(program_id) is Some,
        Processor::withdraw_outcome(accounts, amount, program_id) is Ok,
        amount < Escrow::parsed_live(accounts[4].data@)->Ok_0.deposited_amount,
    ensures
        (Processor::withdraw_outcome(accounts, amount, program_id) matches Ok(
            TransitionView::PartiallySettled { transfer, record, record_account },
        ) && {
            let before = Escrow::parsed_live(accounts[4].data@)->Ok_0;
            let (authority, bump) = authority_of(program_id)->Some_0;
            &&& record == (Escrow {
                deposited_amount: (before.deposited_amount - amount) as u64,
                ..before
            })
            &&& record.is_initialized
            &&& 0 < record.deposited_amount <= before.deposited_amount
            &&& record_account == 4
            &&& transfer.signer_bump == Some(bump)
            &&& transfer.instruction.accounts == seq![
                writable(accounts[2].key),
                writable(accounts[1].key),
                readonly(authority, false),
                readonly(authority, true),
            ]
            &&& transfer.instruction.data == seq![3u8] + u64_le_bytes(amount)
        }),
{
}

/// A withdraw that succeeds with an amount that is not below the recorded
/// deposit moves the whole live balance of the custodial holding to the
/// taker's holding and then closes the holding in favour of the
/// initializer's main account, both on the custodial authority. No record
/// is left to store: the escrow account is to be closed in favour of the
/// initializer's main account.
pub proof fn lemma_full_withdrawal(accounts: Seq<Account>, amount: u64, program_id: Address)
    requires
        authority_of(program_id) is Some,
        Processor::withdraw_outcome(accounts, amount, program_id) is Ok,
        amount >= Escrow::parsed_live(accounts[4].data@)->Ok_0.deposited_amount,
    ensures
        (Processor::withdraw_outcome(accounts, amount, program_id) matches Ok(
            TransitionView::FullySettled { transfer, close, record_account, refund_account },
        ) && {
            let live_balance = holding_balance(accounts[2].data@)->Ok_0;
            let (authority, bump) = authority_of(program_id)->Some_0;
            &&& transfer.signer_bump == Some(bump)
            &&& transfer.instruction == transfer_request(
                accounts[5].key,
                accounts[2].key,
                accounts[1].key,
                authority,
                authority,
                live_balance,
            )
            &&& transfer.instruction.data == seq![3u8] + u64_le_bytes(live_balance)
            &&& close.signer_bump == Some(bump)
            &&& close.instruction == close_request(
                accounts[5].key,
                accounts[2].key,
                accounts[3].key,
                authority,
                authority,
            )
            &&& close.instruction.accounts[0] == writable(accounts[2].key)
            &&& close.instruction.accounts[1] == writable(accounts[3].key)
            &&& record_account == 4
            &&& refund_account == 3
        }),
{
}

} // verus!
