//! Verified decision logic of a token escrow program.
//!
//! A sender opens a deal for an exact amount of one mint's tokens to a receiver,
//! funds it into a vault that the deal's state account controls, and then either
//! releases it to the receiver or cancels it and takes the tokens back:
//!
//! ```text
//! initialize: none    -> Created
//! deposit:    Created -> Funded
//! release:    Funded  -> Released, vault and state account closed
//! cancel:     Created -> Cancelled, vault and state account closed
//! cancel:     Funded  -> Cancelled, tokens returned, vault and state account closed
//! ```
//!
//! Each instruction is decided here in steps between the calls into other
//! programs that it makes; the caller performs those calls in between and hands
//! back what it reads afterwards:
//!
//! - initialize: `Initialize::create_escrow`, create the state account,
//!   `Initialize::create_vault`, create the vault, [`initialize`], store the state;
//! - deposit: [`deposit`], transfer, read the vault, `deposit::complete`, store;
//! - release: [`release`], transfer, read the vault, `release::complete`, close;
//! - cancel: [`cancel`], transfer if asked, read the vault, `cancel::complete`, close.
//!
//! A failure at any step, here or in a call, undoes the whole instruction.

pub mod address;
pub mod pda;
pub mod error;
pub mod state;
pub mod accounts;
pub mod instructions;
pub mod instruction;
pub mod lifecycle;

pub use instructions::initialize::Initialize;
pub use instructions::deposit::{Deposit, DepositBumps};
pub use instructions::release::{Release, ReleaseBumps};
pub use instructions::cancel::{Cancel, CancelBumps};

use vstd::prelude::*;
use crate::accounts::{TransferChecked, ProgramSigned};
use crate::pda::{seeds_view, spec_state_signer_seeds};
use crate::address::Address;
use crate::error::InstructionError;
use crate::state::EscrowState;

verus! {

/// Opens a deal: the checks before the state account and the vault are
/// created (which give the state account's bump), the checks once they exist,
/// then the handler. Yields the state to store in the state account.
pub fn initialize(accounts: &Initialize, program_id: &Address, deal_id: u64, amount: u64) -> (r: Result<EscrowState, InstructionError>)
    ensures
        r == instructions::initialize::spec_initialize(*accounts, program_id@, deal_id, amount),
{
    let escrow_bump = match accounts.escrow_bump(program_id, deal_id) {
        Err(e) => {
            return Err(e);
        },
        Ok(b) => b,
    };
    match accounts.vault_bump(program_id) {
        Err(e) => {
            return Err(e);
        },
        Ok(_) => {},
    }
    match accounts.validate() {
        Err(e) => Err(e),
        Ok(_) => match instructions::initialize::handler(accounts, deal_id, amount, escrow_bump) {
            Err(e) => Err(InstructionError::Escrow(e)),
            Ok(s) => Ok(s),
        },
    }
}

/// Starts a deposit: the account checks, then the handler up to the transfer
/// that funds the deal.
pub fn deposit(accounts: &Deposit, program_id: &Address) -> (r: Result<TransferChecked, InstructionError>)
    ensures
        r == match accounts.spec_validate(program_id@) {
            Err(e) => Err(e),
            Ok(_) => match instructions::deposit::spec_handler(*accounts) {
                Err(e) => Err(InstructionError::Escrow(e)),
                Ok(t) => Ok(t),
            },
        },
{
    match accounts.validate(program_id) {
        Err(e) => Err(e),
        Ok(_) => match instructions::deposit::handler(accounts) {
            Err(e) => Err(InstructionError::Escrow(e)),
            Ok(t) => Ok(t),
        },
    }
}

/// Starts a release: the account checks, then the handler up to the payout.
pub fn release(accounts: &Release, program_id: &Address) -> (r: Result<ProgramSigned<TransferChecked>, InstructionError>)
    ensures
        match r {
            Ok(p) => instructions::release::spec_release(*accounts, program_id@) == Ok::<TransferChecked, InstructionError>(p.call)
                && seeds_view(p.signer_seeds) == spec_state_signer_seeds(accounts.escrow.state),
            Err(e) => instructions::release::spec_release(*accounts, program_id@) == Err::<TransferChecked, InstructionError>(e),
        },
{
    match accounts.validate(program_id) {
        Err(e) => Err(e),
        Ok(_) => match instructions::release::handler(accounts) {
            Err(e) => Err(InstructionError::Escrow(e)),
            Ok(t) => Ok(t),
        },
    }
}

/// Starts a cancellation: the account checks, then the handler up to the refund,
/// if one is needed.
pub fn cancel(accounts: &Cancel, program_id: &Address) -> (r: Result<Option<ProgramSigned<TransferChecked>>, InstructionError>)
    ensures
        match r {
            Ok(Some(p)) => instructions::cancel::spec_cancel(*accounts, program_id@) == Ok::<Option<TransferChecked>, InstructionError>(Some(p.call))
                && seeds_view(p.signer_seeds) == spec_state_signer_seeds(accounts.escrow.state),
            Ok(None) => instructions::cancel::spec_cancel(*accounts, program_id@) == Ok::<Option<TransferChecked>, InstructionError>(None),
            Err(e) => instructions::cancel::spec_cancel(*accounts, program_id@) == Err::<Option<TransferChecked>, InstructionError>(e),
        },
{
    match accounts.validate(program_id) {
        Err(e) => Err(e),
        Ok(_) => match instructions::cancel::handler(accounts) {
            Err(e) => Err(InstructionError::Escrow(e)),
            Ok(t) => Ok(t),
        },
    }
}

} // verus!
