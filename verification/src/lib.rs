//! A two-party escrow over a token ledger.
//!
//! An initializer deposits tokens in a holding, hands the holding over to a
//! keyless custodial authority that the program derives for itself, and names
//! the one party that may withdraw. That party then claims the deposit, in
//! part or in full; a full claim closes the holding and the escrow record and
//! refunds their rent to the initializer.
//!
//! The library decides and the host acts. `processor::Processor::process`
//! takes the program's identity, what it reads of the accounts handed in, and
//! the instruction bytes, and returns a `transition::Transition`: the record
//! to store and the requests to hand to the token ledger, in their order. It
//! changes nothing itself, so an operation that fails leaves no trace.
//!
//! - `instruction`: the wire format of the two instructions
//! - `state`: the escrow record and its stored form
//! - `processor`: the checks and decisions of both operations
//! - `transition`: what an operation decides
//! - `ledger`: requests to the token ledger and the balance of a holding
//! - `host`: the custodial authority and the rent verdict
//! - `laws`: what holds of every initialize and every withdraw
//! - `account`, `address`, `codec`, `error`: the values all of these share

pub mod account;
pub mod address;
pub mod codec;
pub mod error;
pub mod host;
pub mod instruction;
pub mod laws;
pub mod ledger;
pub mod processor;
pub mod state;
pub mod transition;
