//! Funding a deal: the sender moves exactly the deal's amount into the vault.

use vstd::prelude::*;
use crate::address::Address;
use crate::accounts::{
    AccountView, EscrowAccountView, MintView, TokenAccountView, TransferChecked,
    spec_duplicate_among, check_duplicates, spec_escrow_address_matches, check_escrow_address,
    spec_token_account_error, check_token_account, spec_vault_address_check, check_vault_address,
};
use crate::error::{EscrowError, FrameworkError, InstructionError};
use crate::state::{EscrowState, EscrowStatus};

verus! {

/// The accounts of a deposit.
#[derive(Clone, Copy, Debug, PartialEq, Eq)]
pub struct Deposit {
    /// The deal's sender; signs.
    pub sender: AccountView,
    /// The deal's state account; written.
    pub escrow: EscrowAccountView,
    /// The deal's mint.
    pub mint: MintView,
    /// The sender's token account that pays; written.
    pub sender_token_account: TokenAccountView,
    /// The deal's vault; written.
    pub vault: TokenAccountView,
    /// The token program that owns the mint and the token accounts.
    pub token_program: AccountView,
}

/// The bumps found while the accounts of a deposit are checked.
#[derive(Clone, Copy, Debug, PartialEq, Eq)]
pub struct DepositBumps {
    pub vault: u8,
}

impl Deposit {
    /// The outcome of the account checks of a deposit, in the order the
    /// framework runs them: the signer, that the written accounts are distinct,
    /// then account by account its declared constraints.
    pub open spec fn spec_validate(self, program_id: Seq<u8>) -> Result<DepositBumps, InstructionError> {
        let a = self;
        if !a.sender.is_signer {
            Err(InstructionError::Framework(FrameworkError::AccountNotSigner))
        } else if spec_duplicate_among(a.escrow.info.key, a.sender_token_account.info.key, a.vault.info.key) {
            Err(InstructionError::Framework(FrameworkError::ConstraintDuplicateMutableAccount))
        } else if !spec_escrow_address_matches(a.escrow, a.sender.key, program_id) {
            Err(InstructionError::Framework(FrameworkError::ConstraintSeeds))
        } else if !a.escrow.info.is_writable {
            Err(InstructionError::Framework(FrameworkError::ConstraintMut))
        } else if a.escrow.state.sender != a.sender.key {
            Err(InstructionError::Escrow(EscrowError::UnauthorizedSender))
        } else if a.escrow.state.mint != a.mint.info.key {
            Err(InstructionError::Escrow(EscrowError::MintMismatch))
        } else if a.mint.info.owner != a.token_program.key {
            Err(InstructionError::Framework(FrameworkError::ConstraintMintTokenProgram))
        } else if !a.sender_token_account.info.is_writable {
            Err(InstructionError::Framework(FrameworkError::ConstraintMut))
        } else if spec_token_account_error(a.sender_token_account, a.mint.info.key, a.sender.key, a.token_program.key) is Some {
            Err(InstructionError::Framework(
                spec_token_account_error(a.sender_token_account, a.mint.info.key, a.sender.key, a.token_program.key)->0,
            ))
        } else {
            match spec_vault_address_check(a.vault.info.key, a.escrow.info.key, program_id) {
                Err(e) => Err(e),
                Ok(vault_bump) => if !a.vault.info.is_writable {
                    Err(InstructionError::Framework(FrameworkError::ConstraintMut))
                } else if spec_token_account_error(a.vault, a.mint.info.key, a.escrow.info.key, a.token_program.key) is Some {
                    Err(InstructionError::Framework(
                        spec_token_account_error(a.vault, a.mint.info.key, a.escrow.info.key, a.token_program.key)->0,
                    ))
                } else {
                    Ok(DepositBumps { vault: vault_bump })
                },
            }
        }
    }

    /// Runs the account checks of a deposit.
    pub fn validate(&self, program_id: &Address) -> (r: Result<DepositBumps, InstructionError>)
        ensures
            r == self.spec_validate(program_id@),
    {
        if !self.sender.is_signer {
            return Err(InstructionError::Framework(FrameworkError::AccountNotSigner));
        }
        if check_duplicates(&self.escrow.info.key, &self.sender_token_account.info.key, &self.vault.info.key) {
            return Err(InstructionError::Framework(FrameworkError::ConstraintDuplicateMutableAccount));
        }
        if !check_escrow_address(&self.escrow, &self.sender.key, program_id) {
            return Err(InstructionError::Framework(FrameworkError::ConstraintSeeds));
        }
        if !self.escrow.info.is_writable {
            return Err(InstructionError::Framework(FrameworkError::ConstraintMut));
        }
        if !self.escrow.state.sender.same(&self.sender.key) {
            return Err(InstructionError::Escrow(EscrowError::UnauthorizedSender));
        }
        if !self.escrow.state.mint.same(&self.mint.info.key) {
            return Err(InstructionError::Escrow(EscrowError::MintMismatch));
        }
        if !self.mint.info.owner.same(&self.token_program.key) {
            return Err(InstructionError::Framework(FrameworkError::ConstraintMintTokenProgram));
        }
        if !self.sender_token_account.info.is_writable {
            return Err(InstructionError::Framework(FrameworkError::ConstraintMut));
        }
        match check_token_account(&self.sender_token_account, &self.mint.info.key, &self.sender.key, &self.token_program.key) {
            Some(e) => {
                return Err(InstructionError::Framework(e));
            },
            None => {},
        }
        let vault_bump = match check_vault_address(&self.vault.info.key, &self.escrow.info.key, program_id) {
            Err(e) => {
                return Err(e);
            },
            Ok(b) => b,
        };
        if !self.vault.info.is_writable {
            return Err(InstructionError::Framework(FrameworkError::ConstraintMut));
        }
        match check_token_account(&self.vault, &self.mint.info.key, &self.escrow.info.key, &self.token_program.key) {
            Some(e) => Err(InstructionError::Framework(e)),
            None => Ok(DepositBumps { vault: vault_bump }),
        }
    }
}

/// The transfer that funds the deal: its exact amount, from the sender's token
/// account into the vault, signed by the sender.
pub open spec fn spec_funding_transfer(a: Deposit) -> TransferChecked {
    TransferChecked {
        from: a.sender_token_account.info.key,
        mint: a.mint.info.key,
        to: a.vault.info.key,
        authority: a.sender.key,
        amount: a.escrow.state.amount,
        decimals: a.mint.decimals,
    }
}

/// What the handler decides before the transfer: a deal that is not in
/// `Created`, or whose vault is not empty, is refused; otherwise its funding
/// transfer is made.
pub open spec fn spec_handler(a: Deposit) -> Result<TransferChecked, EscrowError> {
    if a.escrow.state.status != EscrowStatus::Created {
        Err(EscrowError::InvalidStatus)
    } else if a.vault.amount != 0 {
        Err(EscrowError::UnexpectedVaultBalance)
    } else {
        Ok(spec_funding_transfer(a))
    }
}

/// The handler of a deposit, up to the transfer that it asks for.
pub fn handler(accounts: &Deposit) -> (r: Result<TransferChecked, EscrowError>)
    ensures
        r == spec_handler(*accounts),
{
    if accounts.escrow.state.status != EscrowStatus::Created {
        return Err(EscrowError::InvalidStatus);
    }
    if accounts.vault.amount != 0 {
        return Err(EscrowError::UnexpectedVaultBalance);
    }
    Ok(TransferChecked {
        from: accounts.sender_token_account.info.key,
        mint: accounts.mint.info.key,
        to: accounts.vault.info.key,
        authority: accounts.sender.key,
        amount: accounts.escrow.state.amount,
        decimals: accounts.mint.decimals,
    })
}

/// What the handler decides once the transfer is done and the vault is read
/// again: the vault must hold exactly the deal's amount, and the deal becomes
/// `Funded` with its terms unchanged.
pub open spec fn spec_complete(a: Deposit, vault_amount: u64) -> Result<EscrowState, EscrowError> {
    if vault_amount != a.escrow.state.amount {
        Err(EscrowError::UnexpectedVaultBalance)
    } else {
        Ok(a.escrow.state.with_status(EscrowStatus::Funded))
    }
}

/// The rest of the handler of a deposit, given the vault's balance after the
/// transfer: the state to store.
pub fn complete(accounts: &Deposit, vault_amount: u64) -> (r: Result<EscrowState, EscrowError>)
    ensures
        r == spec_complete(*accounts, vault_amount),
{
    if vault_amount != accounts.escrow.state.amount {
        return Err(EscrowError::UnexpectedVaultBalance);
    }
    Ok(EscrowState { status: EscrowStatus::Funded, ..accounts.escrow.state })
}

} // verus!
