use crate::account::Account;
use crate::address::Address;
use crate::codec::read_u64_le;
use crate::error::EscrowError;
use crate::host::{find_program_address, program_address, rent_exempt, rent_exemption,
    rent_rate_applies, ACCOUNT_STORAGE_OVERHEAD, RENT_PARAMETERS_LEN, RENT_SYSVAR_ID};
use crate::instruction::EscrowInstruction;
use crate::ledger::{close_account, close_request, holding_balance, is_token_program, read_balance,
    set_owner, set_owner_request, transfer, transfer_request};
use crate::state::Escrow;
use crate::transition::{viewed, Invocation, InvocationView, Settlement, Transition, TransitionView};
use vstd::pervasive::unreached;
use vstd::prelude::*;

verus! {

/// The fixed tag from which every program derives its custodial authority:
/// the bytes of the word "escrow".
pub const AUTHORITY_SEED: [u8; 6] = [101, 115, 99, 114, 111, 119];

/// The custodial authority of a program and the bump seed that proves it: the
/// keyless address that owns every custodial holding of the program.
pub open spec fn authority_of(program_id: Address) -> Option<(Address, u8)> {
    program_address(AUTHORITY_SEED@, program_id)
}

/// The escrow's instruction processor.
pub struct Processor;

impl Processor {
    /// The record that an initialize leaves in `storage`: none unless the
    /// storage is exempt from rent and holds a record that is not live yet;
    /// then the live record of the three parties and the amount.
    pub open spec fn opened(
        storage: Seq<u8>,
        rent_exempt: bool,
        initializer: Address,
        holding: Address,
        withdrawer: Address,
        amount: u64,
    ) -> Result<Escrow, EscrowError> {
        if !rent_exempt {
            Err(EscrowError::NotRentExempt)
        } else {
            match Escrow::parsed(storage) {
                Err(e) => Err(e),
                Ok(found) => if found.is_initialized {
                    Err(EscrowError::AccountAlreadyInitialized)
                } else {
                    Ok(
                        Escrow {
                            is_initialized: true,
                            initializer_pubkey: initializer,
                            temp_token_account_pubkey: holding,
                            withdrawer_pubkey: withdrawer,
                            deposited_amount: amount,
                        },
                    )
                },
            }
        }
    }

    /// Decides what an initialize leaves in the escrow record's storage,
    /// given whether the storage is exempt from rent.
    pub fn open_escrow(
        storage: &[u8],
        rent_exempt: bool,
        initializer: &Address,
        holding: &Address,
        withdrawer: &Address,
        amount: u64,
    ) -> (r: Result<Escrow, EscrowError>)
        ensures
            r == Self::opened(storage@, rent_exempt, *initializer, *holding, *withdrawer, amount),
    {
        if !rent_exempt {
            return Err(EscrowError::NotRentExempt);
        }
        let found = match Escrow::unpack_unchecked(storage) {
            Ok(found) => found,
            Err(e) => return Err(e),
        };
        if found.is_initialized() {
            return Err(EscrowError::AccountAlreadyInitialized);
        }
        Ok(
            Escrow {
                is_initialized: true,
                initializer_pubkey: *initializer,
                temp_token_account_pubkey: *holding,
                withdrawer_pubkey: *withdrawer,
                deposited_amount: amount,
            },
        )
    }

    /// Whether a record admits a withdrawal from `holding` by `taker`, with
    /// `initializer` to be refunded: only if it names all three.
    pub open spec fn admits(record: Escrow, holding: Address, initializer: Address, taker: Address)
        -> bool {
        &&& record.temp_token_account_pubkey == holding
        &&& record.initializer_pubkey == initializer
        &&& record.withdrawer_pubkey == taker
    }

    /// How a withdrawal of `requested` settles against a record, the
    /// custodial holding having `live_balance`: a request below the recorded
    /// deposit takes just that and leaves the rest; any other request takes
    /// all that the holding has.
    pub open spec fn settled(record: Escrow, requested: u64, live_balance: u64) -> Settlement {
        if requested < record.deposited_amount {
            Settlement::Partial {
                amount: requested,
                remaining: (record.deposited_amount - requested) as u64,
            }
        } else {
            Settlement::Full { amount: live_balance }
        }
    }

    /// Decides how a withdrawal settles.
    pub fn settle(record: &Escrow, requested: u64, live_balance: u64) -> (s: Settlement)
        ensures
            s == Self::settled(*record, requested, live_balance),
    {
        if requested < record.deposited_amount {
            Settlement::Partial { amount: requested, remaining: record.deposited_amount - requested }
        } else {
            Settlement::Full { amount: live_balance }
        }
    }

    /// Whether the first account signed and the account list has `needed`
    /// accounts: the first account missing or the list too short is
    /// `NotEnoughAccountKeys`, the signature missing is
    /// `MissingRequiredSignature`, and the signature is looked at before the
    /// length of the list.
    pub open spec fn signed_for(accounts: Seq<Account>, needed: nat) -> Result<(), EscrowError> {
        if accounts.len() < 1 {
            Err(EscrowError::NotEnoughAccountKeys)
        } else if !accounts[0].is_signer {
            Err(EscrowError::MissingRequiredSignature)
        } else if accounts.len() < needed {
            Err(EscrowError::NotEnoughAccountKeys)
        } else {
            Ok(())
        }
    }

    /// Checks that the first account signed and that the list has `needed`
    /// accounts.
    pub fn check_signed(accounts: &[Account], needed: usize) -> (r: Result<(), EscrowError>)
        ensures
            r == Self::signed_for(accounts@, needed as nat),
    {
        if accounts.len() < 1 {
            return Err(EscrowError::NotEnoughAccountKeys);
        }
        if !accounts[0].is_signer {
            return Err(EscrowError::MissingRequiredSignature);
        }
        if accounts.len() < needed {
            return Err(EscrowError::NotEnoughAccountKeys);
        }
        Ok(())
    }

    /// The steps that start an escrow with `record`: none unless the
    /// ledger's program is there and is the token ledger; then the record is
    /// stored in the escrow account, and the one request to the ledger makes
    /// the custodial authority the owner of the holding, signed by the
    /// initializer as its present owner.
    pub open spec fn handed_over(accounts: Seq<Account>, record: Escrow, authority: Address)
        -> Result<TransitionView, EscrowError> {
        if accounts.len() < 6 {
            Err(EscrowError::NotEnoughAccountKeys)
        } else if !is_token_program(accounts[5].key) {
            Err(EscrowError::IncorrectProgramId)
        } else {
            Ok(
                TransitionView::Initialized {
                    record,
                    record_account: 3,
                    change_authority: InvocationView {
                        instruction: set_owner_request(
                            accounts[5].key,
                            accounts[1].key,
                            authority,
                            accounts[0].key,
                            accounts[0].key,
                        ),
                        accounts: seq![1usize, 0usize, 5usize],
                        signer_bump: None,
                    },
                },
            )
        }
    }

    /// Decides the steps that start an escrow with `record`.
    pub fn hand_over(accounts: &[Account], record: Escrow, authority: &Address) -> (r: Result<
        Transition,
        EscrowError,
    >)
        ensures
            viewed(r) == Self::handed_over(accounts@, record, *authority),
    {
        if accounts.len() < 6 {
            return Err(EscrowError::NotEnoughAccountKeys);
        }
        let initializer = &accounts[0];
        let temp_token_account = &accounts[1];
        let token_program = &accounts[5];
        let owner_change_ix = match set_owner(
            &token_program.key,
            &temp_token_account.key,
            authority,
            &initializer.key,
            &initializer.key,
        ) {
            Ok(ix) => ix,
            Err(code) => return Err(EscrowError::from_host_code(code)),
        };
        Ok(
            Transition::Initialized {
                record,
                record_account: 3,
                change_authority: Invocation {
                    instruction: owner_change_ix,
                    accounts: vec![1, 0, 5],
                    signer_bump: None,
                },
            },
        )
    }

    /// The record that an initialize for `amount` opens over `accounts`,
    /// given whether the escrow record's storage is exempt from rent. The
    /// checks come in this order, and the first that fails gives the error:
    /// the initializer signed, and the holding, the withdrawer, the record
    /// and the rent parameters are there; the record's storage is exempt
    /// from rent and holds a record that is not live. The record then names
    /// the initializer, the holding and the withdrawer.
    pub open spec fn init_opened(accounts: Seq<Account>, amount: u64, rent_exempt: bool) -> Result<
        Escrow,
        EscrowError,
    > {
        match Self::signed_for(accounts, 5) {
            Err(e) => Err(e),
            Ok(_) => Self::opened(
                accounts[3].data@,
                rent_exempt,
                accounts[0].key,
                accounts[1].key,
                accounts[2].key,
                amount,
            ),
        }
    }

    /// What an initialize for `amount` decides over `accounts`, given
    /// whether the escrow record's storage is exempt from rent, and given the
    /// program's custodial authority: the record is opened as `init_opened`
    /// says, and the holding handed over as `handed_over` says.
    pub open spec fn init_decided(
        accounts: Seq<Account>,
        amount: u64,
        rent_exempt: bool,
        authority: Address,
    ) -> Result<TransitionView, EscrowError> {
        match Self::init_opened(accounts, amount, rent_exempt) {
            Err(e) => Err(e),
            Ok(record) => Self::handed_over(accounts, record, authority),
        }
    }

    /// Decides an initialize for `amount` over the accounts, given whether
    /// the escrow record's storage is exempt from rent, and given the
    /// program's custodial authority.
    pub fn initialize(accounts: &[Account], amount: u64, rent_exempt: bool, authority: &Address) -> (r:
        Result<Transition, EscrowError>)
        ensures
            viewed(r) == Self::init_decided(accounts@, amount, rent_exempt, *authority),
    {
        match Self::check_signed(accounts, 5) {
            Ok(_) => {},
            Err(e) => return Err(e),
        }
        let escrow_info = match Self::open_escrow(
            accounts[3].data.as_slice(),
            rent_exempt,
            &accounts[0].key,
            &accounts[1].key,
            &accounts[2].key,
            amount,
        ) {
            Ok(escrow_info) => escrow_info,
            Err(e) => return Err(e),
        };
        Self::hand_over(accounts, escrow_info, authority)
    }

    /// Whether the rent rate can be charged on the escrow record of an
    /// initialize. Nothing is asked where the initializer did not sign or
    /// the account list does not reach the rent parameters: the rate is not
    /// looked at then.
    pub open spec fn rent_applies(accounts: Seq<Account>) -> bool {
        accounts.len() >= 5 && accounts[0].is_signer ==> rent_rate_applies(
            accounts[4].key,
            accounts[4].data@,
            accounts[3].data@.len() as usize,
        )
    }

    /// The host's verdict on the rent of the escrow record of an initialize:
    /// whether the record's balance exempts its storage from rent under the
    /// rent parameters handed in, or the host code of the reason why these
    /// are no rent parameters.
    pub open spec fn rent_verdict(accounts: Seq<Account>) -> Result<bool, u64>
        recommends
            accounts.len() >= 5,
    {
        rent_exemption(
            accounts[4].key,
            accounts[4].data@,
            accounts[3].lamports,
            accounts[3].data@.len() as usize,
        )
    }

    /// Whether an initialize gets as far as deriving the custodial
    /// authority: it does once the record is opened.
    pub open spec fn init_derives(accounts: Seq<Account>, amount: u64) -> bool {
        Self::signed_for(accounts, 5) is Ok && (Self::rent_verdict(accounts) matches Ok(rent_exempt)
            && Self::init_opened(accounts, amount, rent_exempt) is Ok)
    }

    /// What an initialize for `amount` decides over `accounts` for the
    /// program `program_id`. The initializer has to have signed and the
    /// account list has to reach the rent parameters. Then the host says
    /// whether the balance of the escrow record exempts its storage from
    /// rent under those parameters; where it finds no rent parameters, its
    /// error is the outcome. With that verdict the record is opened as
    /// `init_opened` says, and the holding is handed over, as `handed_over`
    /// says, to the custodial authority that the program derives.
    pub open spec fn init_outcome(accounts: Seq<Account>, amount: u64, program_id: Address)
        -> Result<TransitionView, EscrowError>
        recommends
            Self::init_derives(accounts, amount) ==> authority_of(program_id) is Some,
    {
        match Self::signed_for(accounts, 5) {
            Err(e) => Err(e),
            Ok(_) => match Self::rent_verdict(accounts) {
                Err(code) => Err(EscrowError::of_host_code(code)),
                Ok(rent_exempt) => match Self::init_opened(accounts, amount, rent_exempt) {
                    Err(e) => Err(e),
                    Ok(record) => match authority_of(program_id) {
                        Some((authority, _)) => Self::handed_over(accounts, record, authority),
                        None => arbitrary(),
                    },
                },
            },
        }
    }

    /// Decides an initialize for `amount` over the accounts: the initializer,
    /// the temporary holding, the withdrawer, the escrow record, the rent
    /// parameters and the ledger's program.
    pub fn process_init_escrow(accounts: &[Account], amount: u64, program_id: &Address) -> (r:
        Result<Transition, EscrowError>)
        requires
            Self::rent_applies(accounts@),
            Self::init_derives(accounts@, amount) ==> authority_of(*program_id) is Some,
        ensures
            viewed(r) == Self::init_outcome(accounts@, amount, *program_id),
    {
        match Self::check_signed(accounts, 5) {
            Ok(_) => {},
            Err(e) => return Err(e),
        }
        let escrow_account = &accounts[3];
        let rent_exempt = match rent_exempt(
            &accounts[4],
            escrow_account.lamports,
            escrow_account.data.len(),
        ) {
            Ok(rent_exempt) => rent_exempt,
            Err(code) => return Err(EscrowError::from_host_code(code)),
        };
        let escrow_info = match Self::open_escrow(
            escrow_account.data.as_slice(),
            rent_exempt,
            &accounts[0].key,
            &accounts[1].key,
            &accounts[2].key,
            amount,
        ) {
            Ok(escrow_info) => escrow_info,
            Err(e) => return Err(e),
        };
        let (pda, _nonce) = match find_program_address(AUTHORITY_SEED.as_slice(), program_id) {
            Some(found) => found,
            None => unreached(),
        };
        Self::hand_over(accounts, escrow_info, &pda)
    }

    /// The steps of a withdrawal that settles as `settlement`, over the
    /// accounts of a withdraw: every movement out of the custodial holding is
    /// a request to the token ledger on the custodial authority, signed by
    /// that authority with its bump seed. A partial settlement moves its
    /// amount to the taker's holding and leaves the record with the rest. A
    /// full settlement moves its amount to the taker's holding, closes the
    /// custodial holding in favour of the initializer's main account, and has
    /// the escrow account closed in favour of that account too.
    pub open spec fn withdrawal(
        accounts: Seq<Account>,
        record: Escrow,
        settlement: Settlement,
        authority: Address,
        bump: u8,
    ) -> TransitionView
        recommends
            accounts.len() >= 7,
    {
        let token_program = accounts[5].key;
        let holding = accounts[2].key;
        match settlement {
            Settlement::Partial { amount, remaining } => TransitionView::PartiallySettled {
                transfer: InvocationView {
                    instruction: transfer_request(
                        token_program,
                        holding,
                        accounts[1].key,
                        authority,
                        authority,
                        amount,
                    ),
                    accounts: seq![2usize, 1usize, 6usize, 5usize],
                    signer_bump: Some(bump),
                },
                record: Escrow { deposited_amount: remaining, ..record },
                record_account: 4,
            },
            Settlement::Full { amount } => TransitionView::FullySettled {
                transfer: InvocationView {
                    instruction: transfer_request(
                        token_program,
                        holding,
                        accounts[1].key,
                        authority,
                        authority,
                        amount,
                    ),
                    accounts: seq![2usize, 1usize, 6usize, 5usize],
                    signer_bump: Some(bump),
                },
                close: InvocationView {
                    instruction: close_request(
                        token_program,
                        holding,
                        accounts[3].key,
                        authority,
                        authority,
                    ),
                    accounts: seq![2usize, 3usize, 6usize, 5usize],
                    signer_bump: Some(bump),
                },
                record_account: 4,
                refund_account: 3,
            },
        }
    }

    /// What a withdraw of `amount` decides over `accounts`, given the live
    /// balance of the custodial holding, and given the program's custodial
    /// authority with its bump seed. The checks come in this order, and the
    /// first that fails gives the error: the taker signed, and the taker's
    /// holding and the custodial holding are there; the amount asked does
    /// not exceed the live balance; the initializer's main account and the
    /// escrow record are there, and the record is live; the record names the
    /// holding, the initializer's main account and the taker; the ledger's
    /// program and the authority are there; the account handed in as the
    /// authority is the custodial authority; the program is the token ledger.
    /// The steps are then those of `withdrawal`, settled as `settled` says.
    pub open spec fn withdraw_decided(
        accounts: Seq<Account>,
        amount: u64,
        live_balance: u64,
        authority: Address,
        bump: u8,
    ) -> Result<TransitionView, EscrowError> {
        match Self::signed_for(accounts, 3) {
            Err(e) => Err(e),
            Ok(_) => if amount > live_balance {
                Err(EscrowError::ExpectedAmountMismatch)
            } else if accounts.len() < 5 {
                Err(EscrowError::NotEnoughAccountKeys)
            } else {
                match Escrow::parsed_live(accounts[4].data@) {
                    Err(e) => Err(e),
                    Ok(record) => if !Self::admits(
                        record,
                        accounts[2].key,
                        accounts[3].key,
                        accounts[0].key,
                    ) {
                        Err(EscrowError::InvalidAccountData)
                    } else if accounts.len() < 7 {
                        Err(EscrowError::NotEnoughAccountKeys)
                    } else if accounts[6].key != authority {
                        Err(EscrowError::InvalidAccountData)
                    } else if !is_token_program(accounts[5].key) {
                        Err(EscrowError::IncorrectProgramId)
                    } else {
                        Ok(
                            Self::withdrawal(
                                accounts,
                                record,
                                Self::settled(record, amount, live_balance),
                                authority,
                                bump,
                            ),
                        )
                    },
                }
            },
        }
    }

    /// Decides a withdraw of `amount` over the accounts, given the live
    /// balance of the custodial holding, and given the program's custodial
    /// authority with its bump seed.
    pub fn withdraw(
        accounts: &[Account],
        amount: u64,
        live_balance: u64,
        authority: &Address,
        bump: u8,
    ) -> (r: Result<Transition, EscrowError>)
        ensures
            viewed(r) == Self::withdraw_decided(accounts@, amount, live_balance, *authority, bump),
    {
        match Self::check_signed(accounts, 3) {
            Ok(_) => {},
            Err(e) => return Err(e),
        }
        let taker = &accounts[0];
        let takers_token_to_receive_account = &accounts[1];
        let pdas_temp_token_account = &accounts[2];
        if amount > live_balance {
            return Err(EscrowError::ExpectedAmountMismatch);
        }
        if accounts.len() < 5 {
            return Err(EscrowError::NotEnoughAccountKeys);
        }
        let initializers_main_account = &accounts[3];
        let escrow_account = &accounts[4];
        let escrow_info = match Escrow::unpack(escrow_account.data.as_slice()) {
            Ok(escrow_info) => escrow_info,
            Err(e) => return Err(e),
        };
        if escrow_info.temp_token_account_pubkey != pdas_temp_token_account.key {
            return Err(EscrowError::InvalidAccountData);
        }
        if escrow_info.initializer_pubkey != initializers_main_account.key {
            return Err(EscrowError::InvalidAccountData);
        }
        if escrow_info.withdrawer_pubkey != taker.key {
            return Err(EscrowError::InvalidAccountData);
        }
        if accounts.len() < 7 {
            return Err(EscrowError::NotEnoughAccountKeys);
        }
        let token_program = &accounts[5];
        let pda_account = &accounts[6];
        if pda_account.key != *authority {
            return Err(EscrowError::InvalidAccountData);
        }
        match Self::settle(&escrow_info, amount, live_balance) {
            Settlement::Partial { amount, remaining } => {
                let transfer_to_taker_ix = match transfer(
                    &token_program.key,
                    &pdas_temp_token_account.key,
                    &takers_token_to_receive_account.key,
                    authority,
                    authority,
                    amount,
                ) {
                    Ok(ix) => ix,
                    Err(code) => return Err(EscrowError::from_host_code(code)),
                };
                Ok(
                    Transition::PartiallySettled {
                        transfer: Invocation {
                            instruction: transfer_to_taker_ix,
                            accounts: vec![2, 1, 6, 5],
                            signer_bump: Some(bump),
                        },
                        record: Escrow { deposited_amount: remaining, ..escrow_info },
                        record_account: 4,
                    },
                )
            },
            Settlement::Full { amount } => {
                let transfer_to_taker_ix = match transfer(
                    &token_program.key,
                    &pdas_temp_token_account.key,
                    &takers_token_to_receive_account.key,
                    authority,
                    authority,
                    amount,
                ) {
                    Ok(ix) => ix,
                    Err(code) => return Err(EscrowError::from_host_code(code)),
                };
                let close_pdas_temp_acc_ix = match close_account(
                    &token_program.key,
                    &pdas_temp_token_account.key,
                    &initializers_main_account.key,
                    authority,
                    authority,
                ) {
                    Ok(ix) => ix,
                    Err(code) => return Err(EscrowError::from_host_code(code)),
                };
                Ok(
                    Transition::FullySettled {
                        transfer: Invocation {
                            instruction: transfer_to_taker_ix,
                            accounts: vec![2, 1, 6, 5],
                            signer_bump: Some(bump),
                        },
                        close: Invocation {
                            instruction: close_pdas_temp_acc_ix,
                            accounts: vec![2, 3, 6, 5],
                            signer_bump: Some(bump),
                        },
                        record_account: 4,
                        refund_account: 3,
                    },
                )
            },
        }
    }

    /// Whether a withdraw gets as far as deriving the custodial authority:
    /// it does once the balance of the custodial holding is read.
    pub open spec fn withdraw_derives(accounts: Seq<Account>) -> bool {
        Self::signed_for(accounts, 3) is Ok && holding_balance(accounts[2].data@) is Ok
    }

    /// What a withdraw of `amount` decides over `accounts` for the program
    /// `program_id`. The taker has to have signed and the account list has
    /// to reach the custodial holding. Then the token ledger reads the live
    /// balance from the bytes of that holding; where it finds no live
    /// holding in them, its error is the outcome. The rest is
    /// `withdraw_decided` with that balance and with the custodial authority
    /// that the program derives.
    pub open spec fn withdraw_outcome(accounts: Seq<Account>, amount: u64, program_id: Address)
        -> Result<TransitionView, EscrowError>
        recommends
            Self::withdraw_derives(accounts) ==> authority_of(program_id) is Some,
    {
        match Self::signed_for(accounts, 3) {
            Err(e) => Err(e),
            Ok(_) => match holding_balance(accounts[2].data@) {
                Err(code) => Err(EscrowError::of_host_code(code)),
                Ok(live_balance) => match authority_of(program_id) {
                    Some((authority, bump)) => Self::withdraw_decided(
                        accounts,
                        amount,
                        live_balance,
                        authority,
                        bump,
                    ),
                    None => arbitrary(),
                },
            },
        }
    }

    /// Decides a withdraw of `amount_to_withdraw` over the accounts: the
    /// taker, the taker's holding, the custodial holding, the initializer's
    /// main account, the escrow record, the ledger's program and the
    /// custodial authority.
    pub fn process_withdraw(accounts: &[Account], amount_to_withdraw: u64, program_id: &Address) -> (r:
        Result<Transition, EscrowError>)
        requires
            Self::withdraw_derives(accounts@) ==> authority_of(*program_id) is Some,
        ensures
            viewed(r) == Self::withdraw_outcome(accounts@, amount_to_withdraw, *program_id),
    {
        match Self::check_signed(accounts, 3) {
            Ok(_) => {},
            Err(e) => return Err(e),
        }
        let live_balance = match read_balance(accounts[2].data.as_slice()) {
            Ok(live_balance) => live_balance,
            Err(code) => return Err(EscrowError::from_host_code(code)),
        };
        let (pda, nonce) = match find_program_address(AUTHORITY_SEED.as_slice(), program_id) {
            Some(found) => found,
            None => unreached(),
        };
        Self::withdraw(accounts, amount_to_withdraw, live_balance, &pda, nonce)
    }

    /// What the bytes of an instruction decide over `accounts` for the
    /// program `program_id`: no more than the decoding error where the bytes
    /// encode no instruction, else what the encoded operation decides.
    pub open spec fn outcome(program_id: Address, accounts: Seq<Account>, instruction_data: Seq<u8>)
        -> Result<TransitionView, EscrowError>
        recommends
            Self::defined(program_id, accounts, instruction_data),
    {
        match EscrowInstruction::decoded(instruction_data) {
            Err(e) => Err(e),
            Ok(EscrowInstruction::InitEscrow { amount }) => Self::init_outcome(
                accounts,
                amount,
                program_id,
            ),
            Ok(EscrowInstruction::Withdraw { amount }) => Self::withdraw_outcome(
                accounts,
                amount,
                program_id,
            ),
        }
    }

    /// Whether `process` is defined on an input. Bytes that encode no
    /// instruction ask nothing. An initialize asks that the rent rate can be
    /// charged on its record and, once it gets as far as deriving the
    /// custodial authority, that the program has one; a withdraw asks the
    /// latter alone.
    pub open spec fn defined(program_id: Address, accounts: Seq<Account>, instruction_data: Seq<u8>)
        -> bool {
        match EscrowInstruction::decoded(instruction_data) {
            Err(_) => true,
            Ok(EscrowInstruction::InitEscrow { amount }) => {
                &&& Self::rent_applies(accounts)
                &&& Self::init_derives(accounts, amount) ==> authority_of(program_id) is Some
            },
            Ok(EscrowInstruction::Withdraw { amount }) => Self::withdraw_derives(accounts)
                ==> authority_of(program_id) is Some,
        }
    }

    /// Decodes an instruction and decides the operation it encodes.
    pub fn process(program_id: &Address, accounts: &[Account], instruction_data: &[u8]) -> (r:
        Result<Transition, EscrowError>)
        requires
            Self::defined(*program_id, accounts@, instruction_data@),
        ensures
            viewed(r) == Self::outcome(*program_id, accounts@, instruction_data@),
    {
        let instruction = match EscrowInstruction::unpack(instruction_data) {
            Ok(instruction) => instruction,
            Err(e) => return Err(e),
        };
        match instruction {
            EscrowInstruction::InitEscrow { amount } => Self::process_init_escrow(
                accounts,
                amount,
                program_id,
            ),
            EscrowInstruction::Withdraw { amount } => Self::process_withdraw(
                accounts,
                amount,
                program_id,
            ),
        }
    }

    /// Tells whether the rent rate can be charged on the escrow record of an
    /// initialize.
    pub fn rent_chargeable(accounts: &[Account]) -> (b: bool)
        ensures
            b == Self::rent_applies(accounts@),
    {
        if accounts.len() < 5 || !accounts[0].is_signer {
            return true;
        }
        let parameters = accounts[4].data.as_slice();
        if accounts[4].key != (Address { bytes: RENT_SYSVAR_ID }) || parameters.len()
            < RENT_PARAMETERS_LEN {
            return true;
        }
        let rate = read_u64_le(parameters, 0);
        let size = accounts[3].data.len();
        match ACCOUNT_STORAGE_OVERHEAD.checked_add(size as u64) {
            Some(charged) => charged.checked_mul(rate).is_some(),
            None => false,
        }
    }

    /// Tells whether an initialize gets as far as deriving the custodial
    /// authority.
    pub fn init_reaches_authority(accounts: &[Account], amount: u64) -> (b: bool)
        requires
            Self::rent_applies(accounts@),
        ensures
            b == Self::init_derives(accounts@, amount),
    {
        if Self::check_signed(accounts, 5).is_err() {
            return false;
        }
        match rent_exempt(&accounts[4], accounts[3].lamports, accounts[3].data.len()) {
            Ok(rent_exempt) => Self::open_escrow(
                accounts[3].data.as_slice(),
                rent_exempt,
                &accounts[0].key,
                &accounts[1].key,
                &accounts[2].key,
                amount,
            ).is_ok(),
            Err(_) => false,
        }
    }

    /// Tells whether a withdraw gets as far as deriving the custodial
    /// authority.
    pub fn withdraw_reaches_authority(accounts: &[Account]) -> (b: bool)
        ensures
            b == Self::withdraw_derives(accounts@),
    {
        if Self::check_signed(accounts, 3).is_err() {
            return false;
        }
        read_balance(accounts[2].data.as_slice()).is_ok()
    }

    /// Tells whether `process` is defined on an input. It looks at the input
    /// in the order of `process`, and derives the custodial authority only
    /// where `process` would.
    pub fn is_defined(program_id: &Address, accounts: &[Account], instruction_data: &[u8]) -> (b:
        bool)
        ensures
            b == Self::defined(*program_id, accounts@, instruction_data@),
    {
        let reaches_authority = match EscrowInstruction::unpack(instruction_data) {
            Err(_) => false,
            Ok(EscrowInstruction::InitEscrow { amount }) => {
                if !Self::rent_chargeable(accounts) {
                    return false;
                }
                Self::init_reaches_authority(accounts, amount)
            },
            Ok(EscrowInstruction::Withdraw { amount: _ }) => Self::withdraw_reaches_authority(
                accounts,
            ),
        };
        !reaches_authority || find_program_address(AUTHORITY_SEED.as_slice(), program_id).is_some()
    }

    /// Decodes an instruction and decides the operation it encodes, where
    /// `process` is defined; tells by `None` where it is not.
    pub fn try_process(program_id: &Address, accounts: &[Account], instruction_data: &[u8]) -> (r:
        Option<Result<Transition, EscrowError>>)
        ensures
            r is Some <==> Self::defined(*program_id, accounts@, instruction_data@),
            r matches Some(decided) ==> viewed(decided) == Self::outcome(
                *program_id,
                accounts@,
                instruction_data@,
            ),
    {
        if Self::is_defined(program_id, accounts, instruction_data) {
            Some(Self::process(program_id, accounts, instruction_data))
        } else {
            None
        }
    }

    /// Closes the escrow record at the end of a full settlement: the
    /// record's whole balance goes to the initializer's main account and the
    /// record's storage is emptied. Where the sum exceeds the range of
    /// lamports, nothing changes.
    pub fn close_record(initializer: &mut Account, record: &mut Account) -> (r: Result<
        (),
        EscrowError,
    >)
        ensures
            (old(initializer).lamports + old(record).lamports <= u64::MAX ==> {
                &&& r is Ok
                &&& final(initializer).lamports == old(initializer).lamports + old(record).lamports
                &&& final(initializer).key == old(initializer).key
                &&& final(initializer).is_signer == old(initializer).is_signer
                &&& final(initializer).data@ == old(initializer).data@
                &&& final(record).lamports == 0
                &&& final(record).data@ == Seq::<u8>::empty()
                &&& final(record).key == old(record).key
                &&& final(record).is_signer == old(record).is_signer
            }),
            (old(initializer).lamports + old(record).lamports > u64::MAX ==> {
                &&& r == Err::<(), EscrowError>(EscrowError::AmountOverflow)
                &&& *final(initializer) == *old(initializer)
                &&& *final(record) == *old(record)
            }),
    {
        match initializer.lamports.checked_add(record.lamports) {
            Some(refunded) => {
                initializer.lamports = refunded;
                record.lamports = 0;
                record.data = Vec::new();
                Ok(())
            },
            None => Err(EscrowError::AmountOverflow),
        }
    }
}

} // verus!
