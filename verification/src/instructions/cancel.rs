//! Cancelling a deal that has not been released: whatever the vault holds goes
//! back to the sender, and the vault and the state account are closed.

use vstd::prelude::*;
use crate::address::Address;
use crate::accounts::{
    AccountView, EscrowAccountView, MintView, TokenAccountView, TransferChecked, CloseAccount, Settlement, ProgramSigned,
    spec_duplicate_among, check_duplicates, spec_escrow_address_matches, check_escrow_address,
    spec_token_account_error, check_token_account, spec_vault_address_check, check_vault_address,
    spec_associated_token_error, check_associated_token_account,
};
use crate::error::{EscrowError, FrameworkError, InstructionError};
use crate::state::{EscrowState, EscrowStatus};
use crate::pda::{seeds_view, spec_state_signer_seeds, state_signer_seeds};

verus! {

/// The accounts of a cancellation.
#[derive(Clone, Copy, Debug, PartialEq, Eq)]
pub struct Cancel {
    /// The deal's sender; signs, is written, receives the refund and the rent.
    pub sender: AccountView,
    /// The deal's state account; written, then closed.
    pub escrow: EscrowAccountView,
    /// The deal's mint.
    pub mint: MintView,
    /// The deal's vault; written, then closed.
    pub vault: TokenAccountView,
    /// The sender's associated token account for the mint; written.
    pub sender_token_account: TokenAccountView,
    /// The token program that owns the mint and the token accounts.
    pub token_program: AccountView,
    /// The associated token account program.
    pub associated_token_program: AccountView,
}

/// The bumps found while the accounts of a cancellation are checked.
#[derive(Clone, Copy, Debug, PartialEq, Eq)]
pub struct CancelBumps {
    pub vault: u8,
}

impl Cancel {
    /// The outcome of the account checks of a cancellation, in the order the
    /// framework runs them.
    pub open spec fn spec_validate(self, program_id: Seq<u8>) -> Result<CancelBumps, InstructionError> {
        let a = self;
        if !a.sender.is_signer {
            Err(InstructionError::Framework(FrameworkError::AccountNotSigner))
        } else if spec_duplicate_among(a.escrow.info.key, a.vault.info.key, a.sender_token_account.info.key) {
            Err(InstructionError::Framework(FrameworkError::ConstraintDuplicateMutableAccount))
        } else if !a.sender.is_writable {
            Err(InstructionError::Framework(FrameworkError::ConstraintMut))
        } else if !spec_escrow_address_matches(a.escrow, a.sender.key, program_id) {
            Err(InstructionError::Framework(FrameworkError::ConstraintSeeds))
        } else if !a.escrow.info.is_writable {
            Err(InstructionError::Framework(FrameworkError::ConstraintMut))
        } else if a.escrow.state.sender != a.sender.key {
            Err(InstructionError::Escrow(EscrowError::UnauthorizedSender))
        } else if a.escrow.state.mint != a.mint.info.key {
            Err(InstructionError::Escrow(EscrowError::MintMismatch))
        } else if a.escrow.info.key == a.sender.key {
            Err(InstructionError::Framework(FrameworkError::ConstraintClose))
        } else if a.mint.info.owner != a.token_program.key {
            Err(InstructionError::Framework(FrameworkError::ConstraintMintTokenProgram))
        } else {
            match spec_vault_address_check(a.vault.info.key, a.escrow.info.key, program_id) {
                Err(e) => Err(e),
                Ok(vault_bump) => if !a.vault.info.is_writable {
                    Err(InstructionError::Framework(FrameworkError::ConstraintMut))
                } else if spec_token_account_error(a.vault, a.mint.info.key, a.escrow.info.key, a.token_program.key) is Some {
                    Err(InstructionError::Framework(
                        spec_token_account_error(a.vault, a.mint.info.key, a.escrow.info.key, a.token_program.key)->0,
                    ))
                } else if spec_associated_token_error(a.sender_token_account, a.sender.key, a.mint.info.key, a.token_program.key) is Some {
                    Err(spec_associated_token_error(a.sender_token_account, a.sender.key, a.mint.info.key, a.token_program.key)->0)
                } else if !a.sender_token_account.info.is_writable {
                    Err(InstructionError::Framework(FrameworkError::ConstraintMut))
                } else {
                    Ok(CancelBumps { vault: vault_bump })
                },
            }
        }
    }

    /// Runs the account checks of a cancellation.
    pub fn validate(&self, program_id: &Address) -> (r: Result<CancelBumps, InstructionError>)
        ensures
            r == self.spec_validate(program_id@),
    {
        if !self.sender.is_signer {
            return Err(InstructionError::Framework(FrameworkError::AccountNotSigner));
        }
        if check_duplicates(&self.escrow.info.key, &self.vault.info.key, &self.sender_token_account.info.key) {
            return Err(InstructionError::Framework(FrameworkError::ConstraintDuplicateMutableAccount));
        }
        if !self.sender.is_writable {
            return Err(InstructionError::Framework(FrameworkError::ConstraintMut));
        }
        if !check_escrow_address(&self.escrow, &self.sender.key, program_id) {
            return Err(InstructionError::Framework(FrameworkError::ConstraintSeeds));
        }
        if !self.escrow.info.is_writable {
            return Err(InstructionError::Framework(FrameworkError::ConstraintMut));
        }
        if !self.escrow.state.sender.same(&self.sender.key) {
            return Err(InstructionError::Escrow(EscrowError::UnauthorizedSender));
        }
        if !self.escrow.state.mint.same(&self.mint.info.key) {
            return Err(InstructionError::Escrow(EscrowError::MintMismatch));
        }
        if self.escrow.info.key.same(&self.sender.key) {
            return Err(InstructionError::Framework(FrameworkError::ConstraintClose));
        }
        if !self.mint.info.owner.same(&self.token_program.key) {
            return Err(InstructionError::Framework(FrameworkError::ConstraintMintTokenProgram));
        }
        let vault_bump = match check_vault_address(&self.vault.info.key, &self.escrow.info.key, program_id) {
            Err(e) => {
                return Err(e);
            },
            Ok(b) => b,
        };
        if !self.vault.info.is_writable {
            return Err(InstructionError::Framework(FrameworkError::ConstraintMut));
        }
        match check_token_account(&self.vault, &self.mint.info.key, &self.escrow.info.key, &self.token_program.key) {
            Some(e) => {
                return Err(InstructionError::Framework(e));
            },
            None => {},
        }
        match check_associated_token_account(&self.sender_token_account, &self.sender.key, &self.mint.info.key, &self.token_program.key) {
            Some(e) => {
                return Err(e);
            },
            None => {},
        }
        if !self.sender_token_account.info.is_writable {
            return Err(InstructionError::Framework(FrameworkError::ConstraintMut));
        }
        Ok(CancelBumps { vault: vault_bump })
    }
}

/// The refund: everything the vault holds, back to the sender's token account,
/// signed by the deal's state account.
pub open spec fn spec_refund(a: Cancel) -> TransferChecked {
    TransferChecked {
        from: a.vault.info.key,
        mint: a.mint.info.key,
        to: a.sender_token_account.info.key,
        authority: a.escrow.info.key,
        amount: a.vault.amount,
        decimals: a.mint.decimals,
    }
}

/// The outcome of a cancellation up to its token call: the account checks, then
/// the handler.
pub open spec fn spec_cancel(a: Cancel, program_id: Seq<u8>) -> Result<Option<TransferChecked>, InstructionError> {
    match a.spec_validate(program_id) {
        Err(e) => Err(e),
        Ok(_) => match spec_handler(a) {
            Err(e) => Err(InstructionError::Escrow(e)),
            Ok(t) => Ok(t),
        },
    }
}

/// What the handler decides before the refund: only a deal in `Created` or
/// `Funded` can be cancelled; a vault that holds tokens is emptied by a refund,
/// an empty one needs none.
pub open spec fn spec_handler(a: Cancel) -> Result<Option<TransferChecked>, EscrowError> {
    if !(a.escrow.state.status == EscrowStatus::Created || a.escrow.state.status == EscrowStatus::Funded) {
        Err(EscrowError::InvalidStatus)
    } else if a.vault.amount > 0 {
        Ok(Some(spec_refund(a)))
    } else {
        Ok(None)
    }
}

/// The handler of a cancellation, up to the refund that it asks for, signed for
/// by the deal's state account.
pub fn handler(accounts: &Cancel) -> (r: Result<Option<ProgramSigned<TransferChecked>>, EscrowError>)
    ensures
        match r {
            Ok(Some(p)) => spec_handler(*accounts) == Ok::<Option<TransferChecked>, EscrowError>(Some(p.call))
                && seeds_view(p.signer_seeds) == spec_state_signer_seeds(accounts.escrow.state),
            Ok(None) => spec_handler(*accounts) == Ok::<Option<TransferChecked>, EscrowError>(None),
            Err(e) => spec_handler(*accounts) == Err::<Option<TransferChecked>, EscrowError>(e),
        },
{
    if !(accounts.escrow.state.status == EscrowStatus::Created || accounts.escrow.state.status == EscrowStatus::Funded) {
        return Err(EscrowError::InvalidStatus);
    }
    let amount = accounts.vault.amount;
    if amount > 0 {
        let refund = TransferChecked {
            from: accounts.vault.info.key,
            mint: accounts.mint.info.key,
            to: accounts.sender_token_account.info.key,
            authority: accounts.escrow.info.key,
            amount,
            decimals: accounts.mint.decimals,
        };
        Ok(Some(ProgramSigned { call: refund, signer_seeds: state_signer_seeds(&accounts.escrow.state) }))
    } else {
        Ok(None)
    }
}

/// The settlement of a cancelled deal: it becomes `Cancelled` with its terms
/// unchanged, and its vault and state account are closed to the sender.
pub open spec fn spec_settlement(a: Cancel) -> Settlement {
    Settlement {
        state: a.escrow.state.with_status(EscrowStatus::Cancelled),
        close_vault: CloseAccount {
            account: a.vault.info.key,
            destination: a.sender.key,
            authority: a.escrow.info.key,
        },
        close_state_to: a.sender.key,
    }
}

/// What the handler decides after the refund, given what the vault then holds:
/// it must be empty.
pub open spec fn spec_complete(a: Cancel, vault_amount: u64) -> Result<Settlement, EscrowError> {
    if vault_amount != 0 {
        Err(EscrowError::VaultNotEmpty)
    } else {
        Ok(spec_settlement(a))
    }
}

/// The rest of the handler of a cancellation, given the vault's balance after
/// the refund (or its balance read before, when no refund was needed): the
/// settlement, whose vault closing the state account signs for.
pub fn complete(accounts: &Cancel, vault_amount: u64) -> (r: Result<ProgramSigned<Settlement>, EscrowError>)
    ensures
        match r {
            Ok(p) => spec_complete(*accounts, vault_amount) == Ok::<Settlement, EscrowError>(p.call)
                && seeds_view(p.signer_seeds) == spec_state_signer_seeds(accounts.escrow.state),
            Err(e) => spec_complete(*accounts, vault_amount) == Err::<Settlement, EscrowError>(e),
        },
{
    if vault_amount != 0 {
        return Err(EscrowError::VaultNotEmpty);
    }
    let settlement = Settlement {
        state: EscrowState { status: EscrowStatus::Cancelled, ..accounts.escrow.state },
        close_vault: CloseAccount {
            account: accounts.vault.info.key,
            destination: accounts.sender.key,
            authority: accounts.escrow.info.key,
        },
        close_state_to: accounts.sender.key,
    };
    Ok(ProgramSigned { call: settlement, signer_seeds: state_signer_seeds(&accounts.escrow.state) })
}

} // verus!
