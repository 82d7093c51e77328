use crate::error::EscrowError;
use crate::ledger::{Instruction, InstructionView};
use crate::state::Escrow;
use vstd::prelude::*;

verus! {

/// A request that the host is to hand to the token ledger.
#[derive(Clone, Debug, PartialEq, Eq)]
pub struct Invocation {
    /// The request.
    pub instruction: Instruction,
    /// The positions, in the operation's account list, of the accounts to
    /// hand over with the request.
    pub accounts: Vec<usize>,
    /// `None` where a party of the operation signs the request. Otherwise the
    /// custodial authority signs it, and this is the bump seed that, behind
    /// `AUTHORITY_SEED`, proves the authority to the host.
    pub signer_bump: Option<u8>,
}

/// The mathematical content of an `Invocation`.
pub struct InvocationView {
    pub instruction: InstructionView,
    pub accounts: Seq<usize>,
    pub signer_bump: Option<u8>,
}

impl View for Invocation {
    type V = InvocationView;

    open spec fn view(&self) -> InvocationView {
        InvocationView {
            instruction: self.instruction@,
            accounts: self.accounts@,
            signer_bump: self.signer_bump,
        }
    }
}

/// How a withdrawal settles.
#[derive(Clone, Copy, Debug, PartialEq, Eq, Structural)]
pub enum Settlement {
    /// Part of the deposit leaves; the escrow stays live.
    Partial {
        /// What moves to the taker.
        amount: u64,
        /// What is left to claim.
        remaining: u64,
    },
    /// All that the holding has leaves; the holding and the record are closed.
    Full {
        /// What moves to the taker: the holding's whole live balance.
        amount: u64,
    },
}

/// What an operation decided. The host carries the steps out in the order
/// given; if one fails, the operation fails and none takes effect. Accounts
/// are named by their position in the operation's account list.
#[derive(Clone, Debug, PartialEq, Eq)]
pub enum Transition {
    /// An escrow starts: store `record` in the account at `record_account`,
    /// then hand `change_authority` to the ledger.
    Initialized { record: Escrow, record_account: usize, change_authority: Invocation },
    /// Part of the deposit is claimed: hand `transfer` to the ledger, then
    /// store `record` in the account at `record_account`.
    PartiallySettled { transfer: Invocation, record: Escrow, record_account: usize },
    /// The escrow ends: hand `transfer`, then `close` to the ledger, then
    /// close the account at `record_account` in favour of the account at
    /// `refund_account`, as `Processor::close_record` says.
    FullySettled {
        transfer: Invocation,
        close: Invocation,
        record_account: usize,
        refund_account: usize,
    },
}

/// The mathematical content of a `Transition`.
pub enum TransitionView {
    Initialized { record: Escrow, record_account: usize, change_authority: InvocationView },
    PartiallySettled { transfer: InvocationView, record: Escrow, record_account: usize },
    FullySettled {
        transfer: InvocationView,
        close: InvocationView,
        record_account: usize,
        refund_account: usize,
    },
}

impl View for Transition {
    type V = TransitionView;

    open spec fn view(&self) -> TransitionView {
        match *self {
            Transition::Initialized {
                record,
                record_account,
                change_authority,
            } => TransitionView::Initialized {
                record,
                record_account,
                change_authority: change_authority@,
            },
            Transition::PartiallySettled {
                transfer,
                record,
                record_account,
            } => TransitionView::PartiallySettled { transfer: transfer@, record, record_account },
            Transition::FullySettled {
                transfer,
                close,
                record_account,
                refund_account,
            } => TransitionView::FullySettled {
                transfer: transfer@,
                close: close@,
                record_account,
                refund_account,
            },
        }
    }
}

/// The content of the outcome of an operation.
pub open spec fn viewed(r: Result<Transition, EscrowError>) -> Result<TransitionView, EscrowError> {
    match r {
        Ok(transition) => Ok(transition@),
        Err(e) => Err(e),
    }
}

} // verus!
