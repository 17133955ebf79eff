//! Releasing a funded deal: the vault's tokens, exactly the deal's amount, go to
//! the receiver's associated token account, and the vault and the state account
//! are closed to the sender.

use vstd::prelude::*;
use crate::address::Address;
use crate::accounts::{
    AccountView, EscrowAccountView, MintView, TokenAccountView, TransferChecked, CloseAccount, Settlement, ProgramSigned,
    spec_duplicate_among, check_duplicates, spec_escrow_address_matches, check_escrow_address,
    spec_token_account_error, check_token_account, spec_vault_address_check, check_vault_address,
    spec_associated_token_error, check_associated_token_account,
};
use crate::error::{EscrowError, FrameworkError, InstructionError};
use crate::state::{EscrowState, EscrowStatus};
use crate::pda::{seeds_view, spec_state_signer_seeds, state_signer_seeds};

verus! {

/// The accounts of a release.
#[derive(Clone, Copy, Debug, PartialEq, Eq)]
pub struct Release {
    /// The deal's sender; signs, is written, receives the rent.
    pub sender: AccountView,
    /// The deal's receiver.
    pub receiver: AccountView,
    /// The deal's state account; written, then closed.
    pub escrow: EscrowAccountView,
    /// The deal's mint.
    pub mint: MintView,
    /// The deal's vault; written, then closed.
    pub vault: TokenAccountView,
    /// The receiver's associated token account for the mint; written.
    pub receiver_token_account: TokenAccountView,
    /// The token program that owns the mint and the token accounts.
    pub token_program: AccountView,
    /// The associated token account program.
    pub associated_token_program: AccountView,
}

/// The bumps found while the accounts of a release are checked.
#[derive(Clone, Copy, Debug, PartialEq, Eq)]
pub struct ReleaseBumps {
    pub vault: u8,
}

impl Release {
    /// The outcome of the account checks of a release, in the order the
    /// framework runs them.
    pub open spec fn spec_validate(self, program_id: Seq<u8>) -> Result<ReleaseBumps, InstructionError> {
        let a = self;
        if !a.sender.is_signer {
            Err(InstructionError::Framework(FrameworkError::AccountNotSigner))
        } else if spec_duplicate_among(a.escrow.info.key, a.vault.info.key, a.receiver_token_account.info.key) {
            Err(InstructionError::Framework(FrameworkError::ConstraintDuplicateMutableAccount))
        } else if !a.sender.is_writable {
            Err(InstructionError::Framework(FrameworkError::ConstraintMut))
        } else if !spec_escrow_address_matches(a.escrow, a.sender.key, program_id) {
            Err(InstructionError::Framework(FrameworkError::ConstraintSeeds))
        } else if !a.escrow.info.is_writable {
            Err(InstructionError::Framework(FrameworkError::ConstraintMut))
        } else if a.escrow.state.sender != a.sender.key {
            Err(InstructionError::Escrow(EscrowError::UnauthorizedSender))
        } else if a.escrow.state.receiver != a.receiver.key {
            Err(InstructionError::Escrow(EscrowError::ReceiverMismatch))
        } else if a.escrow.state.mint != a.mint.info.key {
            Err(InstructionError::Escrow(EscrowError::MintMismatch))
        } else if a.escrow.info.key == a.sender.key {
            Err(InstructionError::Framework(FrameworkError::ConstraintClose))
        } else if a.mint.info.owner != a.token_program.key {
            Err(InstructionError::Framework(FrameworkError::ConstraintMintTokenProgram))
        } else {
            match spec_vault_address_check(a.vault.info.key, a.escrow.info.key, program_id) {
                Err(e) => Err(e),
                Ok(vault_bump) => if !a.vault.info.is_writable {
                    Err(InstructionError::Framework(FrameworkError::ConstraintMut))
                } else if spec_token_account_error(a.vault, a.mint.info.key, a.escrow.info.key, a.token_program.key) is Some {
                    Err(InstructionError::Framework(
                        spec_token_account_error(a.vault, a.mint.info.key, a.escrow.info.key, a.token_program.key)->0,
                    ))
                } else if spec_associated_token_error(a.receiver_token_account, a.receiver.key, a.mint.info.key, a.token_program.key) is Some {
                    Err(spec_associated_token_error(a.receiver_token_account, a.receiver.key, a.mint.info.key, a.token_program.key)->0)
                } else if !a.receiver_token_account.info.is_writable {
                    Err(InstructionError::Framework(FrameworkError::ConstraintMut))
                } else {
                    Ok(ReleaseBumps { vault: vault_bump })
                },
            }
        }
    }

    /// Runs the account checks of a release.
    pub fn validate(&self, program_id: &Address) -> (r: Result<ReleaseBumps, InstructionError>)
        ensures
            r == self.spec_validate(program_id@),
    {
        if !self.sender.is_signer {
            return Err(InstructionError::Framework(FrameworkError::AccountNotSigner));
        }
        if check_duplicates(&self.escrow.info.key, &self.vault.info.key, &self.receiver_token_account.info.key) {
            return Err(InstructionError::Framework(FrameworkError::ConstraintDuplicateMutableAccount));
        }
        if !self.sender.is_writable {
            return Err(InstructionError::Framework(FrameworkError::ConstraintMut));
        }
        if !check_escrow_address(&self.escrow, &self.sender.key, program_id) {
            return Err(InstructionError::Framework(FrameworkError::ConstraintSeeds));
        }
        if !self.escrow.info.is_writable {
            return Err(InstructionError::Framework(FrameworkError::ConstraintMut));
        }
        if !self.escrow.state.sender.same(&self.sender.key) {
            return Err(InstructionError::Escrow(EscrowError::UnauthorizedSender));
        }
        if !self.escrow.state.receiver.same(&self.receiver.key) {
            return Err(InstructionError::Escrow(EscrowError::ReceiverMismatch));
        }
        if !self.escrow.state.mint.same(&self.mint.info.key) {
            return Err(InstructionError::Escrow(EscrowError::MintMismatch));
        }
        if self.escrow.info.key.same(&self.sender.key) {
            return Err(InstructionError::Framework(FrameworkError::ConstraintClose));
        }
        if !self.mint.info.owner.same(&self.token_program.key) {
            return Err(InstructionError::Framework(FrameworkError::ConstraintMintTokenProgram));
        }
        let vault_bump = match check_vault_address(&self.vault.info.key, &self.escrow.info.key, program_id) {
            Err(e) => {
                return Err(e);
            },
            Ok(b) => b,
        };
        if !self.vault.info.is_writable {
            return Err(InstructionError::Framework(FrameworkError::ConstraintMut));
        }
        match check_token_account(&self.vault, &self.mint.info.key, &self.escrow.info.key, &self.token_program.key) {
            Some(e) => {
                return Err(InstructionError::Framework(e));
            },
            None => {},
        }
        match check_associated_token_account(&self.receiver_token_account, &self.receiver.key, &self.mint.info.key, &self.token_program.key) {
            Some(e) => {
                return Err(e);
            },
            None => {},
        }
        if !self.receiver_token_account.info.is_writable {
            return Err(InstructionError::Framework(FrameworkError::ConstraintMut));
        }
        Ok(ReleaseBumps { vault: vault_bump })
    }
}

/// The payout: the deal's amount, from the vault to the receiver's token
/// account, signed by the deal's state account.
pub open spec fn spec_payout(a: Release) -> TransferChecked {
    TransferChecked {
        from: a.vault.info.key,
        mint: a.mint.info.key,
        to: a.receiver_token_account.info.key,
        authority: a.escrow.info.key,
        amount: a.escrow.state.amount,
        decimals: a.mint.decimals,
    }
}

/// The outcome of a release up to its token call: the account checks, then
/// the handler.
pub open spec fn spec_release(a: Release, program_id: Seq<u8>) -> Result<TransferChecked, InstructionError> {
    match a.spec_validate(program_id) {
        Err(e) => Err(e),
        Ok(_) => match spec_handler(a) {
            Err(e) => Err(InstructionError::Escrow(e)),
            Ok(t) => Ok(t),
        },
    }
}

/// What the handler decides before the payout: only a `Funded` deal can be
/// released, and only while its vault holds exactly the deal's amount.
pub open spec fn spec_handler(a: Release) -> Result<TransferChecked, EscrowError> {
    if a.escrow.state.status != EscrowStatus::Funded {
        Err(EscrowError::InvalidStatus)
    } else if a.vault.amount != a.escrow.state.amount {
        Err(EscrowError::UnexpectedVaultBalance)
    } else {
        Ok(spec_payout(a))
    }
}

/// The handler of a release, up to the payout that it asks for, signed for by
/// the deal's state account.
pub fn handler(accounts: &Release) -> (r: Result<ProgramSigned<TransferChecked>, EscrowError>)
    ensures
        match r {
            Ok(p) => spec_handler(*accounts) == Ok::<TransferChecked, EscrowError>(p.call)
                && seeds_view(p.signer_seeds) == spec_state_signer_seeds(accounts.escrow.state),
            Err(e) => spec_handler(*accounts) == Err::<TransferChecked, EscrowError>(e),
        },
{
    if accounts.escrow.state.status != EscrowStatus::Funded {
        return Err(EscrowError::InvalidStatus);
    }
    if accounts.vault.amount != accounts.escrow.state.amount {
        return Err(EscrowError::UnexpectedVaultBalance);
    }
    let payout = TransferChecked {
        from: accounts.vault.info.key,
        mint: accounts.mint.info.key,
        to: accounts.receiver_token_account.info.key,
        authority: accounts.escrow.info.key,
        amount: accounts.escrow.state.amount,
        decimals: accounts.mint.decimals,
    };
    Ok(ProgramSigned { call: payout, signer_seeds: state_signer_seeds(&accounts.escrow.state) })
}

/// The settlement of a released deal: it becomes `Released` with its terms
/// unchanged, and its vault and state account are closed to the sender.
pub open spec fn spec_settlement(a: Release) -> Settlement {
    Settlement {
        state: a.escrow.state.with_status(EscrowStatus::Released),
        close_vault: CloseAccount {
            account: a.vault.info.key,
            destination: a.sender.key,
            authority: a.escrow.info.key,
        },
        close_state_to: a.sender.key,
    }
}

/// What the handler decides after the payout, given what the vault then holds:
/// it must be empty.
pub open spec fn spec_complete(a: Release, vault_amount: u64) -> Result<Settlement, EscrowError> {
    if vault_amount != 0 {
        Err(EscrowError::VaultNotEmpty)
    } else {
        Ok(spec_settlement(a))
    }
}

/// The rest of the handler of a release, given the vault's balance after the
/// payout: the settlement, whose vault closing the state account signs for.
pub fn complete(accounts: &Release, vault_amount: u64) -> (r: Result<ProgramSigned<Settlement>, EscrowError>)
    ensures
        match r {
            Ok(p) => spec_complete(*accounts, vault_amount) == Ok::<Settlement, EscrowError>(p.call)
                && seeds_view(p.signer_seeds) == spec_state_signer_seeds(accounts.escrow.state),
            Err(e) => spec_complete(*accounts, vault_amount) == Err::<Settlement, EscrowError>(e),
        },
{
    if vault_amount != 0 {
        return Err(EscrowError::VaultNotEmpty);
    }
    let settlement = Settlement {
        state: EscrowState { status: EscrowStatus::Released, ..accounts.escrow.state },
        close_vault: CloseAccount {
            account: accounts.vault.info.key,
            destination: accounts.sender.key,
            authority: accounts.escrow.info.key,
        },
        close_state_to: accounts.sender.key,
    };
    Ok(ProgramSigned { call: settlement, signer_seeds: state_signer_seeds(&accounts.escrow.state) })
}

} // verus!
