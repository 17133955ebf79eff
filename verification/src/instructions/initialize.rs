//! Opening a deal: a state account and a vault at addresses derived from the
//! sender and the deal id, and the deal's terms recorded as `Created`.

use vstd::prelude::*;
use crate::address::Address;
use crate::accounts::{
    AccountView, MintView, AccountCreation, VaultCreation, CreateAccount, InitializeAccount,
    spec_canonical_address_check, check_canonical_address, spec_vault_address_check, check_vault_address,
};
use crate::error::{EscrowError, FrameworkError, InstructionError};
use crate::pda::{escrow_seeds, spec_escrow_seeds, spec_vault_seeds, seeds_view, escrow_signer_seeds, vault_signer_seeds};
use crate::state::{EscrowState, EscrowStatus, STATE_LEN};

verus! {

/// The accounts of an initialization.
#[derive(Clone, Copy, Debug, PartialEq, Eq)]
pub struct Initialize {
    /// The deal's sender; signs, is written, pays for the new accounts.
    pub sender: AccountView,
    /// The deal's receiver.
    pub receiver: AccountView,
    /// The mint of the tokens the deal is about.
    pub mint: MintView,
    /// The deal's state account, created here.
    pub escrow: AccountView,
    /// The deal's vault, created here.
    pub vault: AccountView,
    /// The token program that owns the mint and will own the vault.
    pub token_program: AccountView,
    /// The system program.
    pub system_program: AccountView,
}

impl Initialize {
    /// The first checks, before the state account is created: the sender signs,
    /// and the state account is at the canonical program address of
    /// `[b"escrow", sender, deal_id]`, whose bump this yields.
    pub open spec fn spec_escrow_bump(self, program_id: Seq<u8>, deal_id: u64) -> Result<u8, InstructionError> {
        if !self.sender.is_signer {
            Err(InstructionError::Framework(FrameworkError::AccountNotSigner))
        } else {
            spec_canonical_address_check(spec_escrow_seeds(self.sender.key@, deal_id), self.escrow.key, program_id)
        }
    }

    /// Runs the checks before the state account is created.
    pub fn escrow_bump(&self, program_id: &Address, deal_id: u64) -> (r: Result<u8, InstructionError>)
        ensures
            r == self.spec_escrow_bump(program_id@, deal_id),
    {
        if !self.sender.is_signer {
            return Err(InstructionError::Framework(FrameworkError::AccountNotSigner));
        }
        check_canonical_address(&escrow_seeds(&self.sender.key, deal_id), &self.escrow.key, program_id)
    }

    /// The creation of the state account: at its address, paid by the sender,
    /// the size of an encoded state, owned by this program.
    pub open spec fn spec_escrow_account(self, program_id: Address) -> CreateAccount {
        CreateAccount {
            address: self.escrow.key,
            payer: self.sender.key,
            space: STATE_LEN as u64,
            owner: program_id,
        }
    }

    /// Runs the checks before the state account is created and, when they pass,
    /// yields its creation and the seeds with which the program signs for it:
    /// the state account's seeds and the bump found for them.
    pub fn create_escrow(&self, program_id: &Address, deal_id: u64) -> (r: Result<AccountCreation, InstructionError>)
        ensures
            match r {
                Ok(c) => self.spec_escrow_bump(program_id@, deal_id) == Ok::<u8, InstructionError>(c.bump)
                    && c.create == self.spec_escrow_account(*program_id)
                    && seeds_view(c.signer_seeds) == spec_escrow_seeds(self.sender.key@, deal_id).push(seq![c.bump]),
                Err(e) => self.spec_escrow_bump(program_id@, deal_id) == Err::<u8, InstructionError>(e),
            },
    {
        let bump = match self.escrow_bump(program_id, deal_id) {
            Err(e) => {
                return Err(e);
            },
            Ok(b) => b,
        };
        let create = CreateAccount {
            address: self.escrow.key,
            payer: self.sender.key,
            space: STATE_LEN as u64,
            owner: *program_id,
        };
        Ok(AccountCreation { create, bump, signer_seeds: escrow_signer_seeds(&self.sender.key, deal_id, bump) })
    }

    /// The creation of the vault: at its address, paid by the sender, of the
    /// given size (what a token account of the mint needs), owned by the token
    /// program.
    pub open spec fn spec_vault_account(self, space: u64) -> CreateAccount {
        CreateAccount {
            address: self.vault.key,
            payer: self.sender.key,
            space,
            owner: self.token_program.key,
        }
    }

    /// The vault's initialization as a token account of the deal's mint whose
    /// authority is the state account.
    pub open spec fn spec_vault_token_account(self) -> InitializeAccount {
        InitializeAccount {
            account: self.vault.key,
            mint: self.mint.info.key,
            authority: self.escrow.key,
        }
    }

    /// Runs the check before the vault is created and, when it passes, yields
    /// the vault's creation and initialization and the seeds with which the
    /// program signs for it: the vault's seeds and the bump found for them.
    pub fn create_vault(&self, program_id: &Address, space: u64) -> (r: Result<VaultCreation, InstructionError>)
        ensures
            match r {
                Ok(c) => self.spec_vault_bump(program_id@) == Ok::<u8, InstructionError>(c.bump)
                    && c.create == self.spec_vault_account(space)
                    && c.initialize == self.spec_vault_token_account()
                    && seeds_view(c.signer_seeds) == spec_vault_seeds(self.escrow.key@).push(seq![c.bump]),
                Err(e) => self.spec_vault_bump(program_id@) == Err::<u8, InstructionError>(e),
            },
    {
        let bump = match self.vault_bump(program_id) {
            Err(e) => {
                return Err(e);
            },
            Ok(b) => b,
        };
        let create = CreateAccount {
            address: self.vault.key,
            payer: self.sender.key,
            space,
            owner: self.token_program.key,
        };
        let initialize = InitializeAccount {
            account: self.vault.key,
            mint: self.mint.info.key,
            authority: self.escrow.key,
        };
        Ok(VaultCreation { create, initialize, bump, signer_seeds: vault_signer_seeds(&self.escrow.key, bump) })
    }

    /// The check before the vault is created: it is at the canonical program
    /// address of `[b"vault", escrow]`, whose bump this yields.
    pub open spec fn spec_vault_bump(self, program_id: Seq<u8>) -> Result<u8, InstructionError> {
        spec_vault_address_check(self.vault.key, self.escrow.key, program_id)
    }

    /// Runs the check before the vault is created.
    pub fn vault_bump(&self, program_id: &Address) -> (r: Result<u8, InstructionError>)
        ensures
            r == self.spec_vault_bump(program_id@),
    {
        check_vault_address(&self.vault.key, &self.escrow.key, program_id)
    }

    /// The checks once both accounts exist: the sender is writable, differs
    /// from the receiver, and the mint belongs to the given token program.
    pub open spec fn spec_validate(self) -> Result<(), InstructionError> {
        if !self.sender.is_writable {
            Err(InstructionError::Framework(FrameworkError::ConstraintMut))
        } else if self.sender.key == self.receiver.key {
            Err(InstructionError::Escrow(EscrowError::SenderEqualsReceiver))
        } else if self.mint.info.owner != self.token_program.key {
            Err(InstructionError::Framework(FrameworkError::ConstraintMintTokenProgram))
        } else {
            Ok(())
        }
    }

    /// Runs the checks once both accounts exist.
    pub fn validate(&self) -> (r: Result<(), InstructionError>)
        ensures
            r == self.spec_validate(),
    {
        if !self.sender.is_writable {
            return Err(InstructionError::Framework(FrameworkError::ConstraintMut));
        }
        if self.sender.key.same(&self.receiver.key) {
            return Err(InstructionError::Escrow(EscrowError::SenderEqualsReceiver));
        }
        if !self.mint.info.owner.same(&self.token_program.key) {
            return Err(InstructionError::Framework(FrameworkError::ConstraintMintTokenProgram));
        }
        Ok(())
    }
}

/// The deal that an initialization records: the parties and the mint of the
/// accounts given, the amount and deal id of the instruction, the bump of the
/// state account, status `Created`.
pub open spec fn spec_new_deal(a: Initialize, deal_id: u64, amount: u64, escrow_bump: u8) -> EscrowState {
    EscrowState {
        sender: a.sender.key,
        receiver: a.receiver.key,
        mint: a.mint.info.key,
        amount,
        deal_id,
        bump: escrow_bump,
        status: EscrowStatus::Created,
    }
}

/// The handler of an initialization: a deal of no tokens is refused.
pub open spec fn spec_handler(a: Initialize, deal_id: u64, amount: u64, escrow_bump: u8) -> Result<EscrowState, EscrowError> {
    if amount == 0 {
        Err(EscrowError::AmountMustBePositive)
    } else {
        Ok(spec_new_deal(a, deal_id, amount, escrow_bump))
    }
}

/// The outcome of an initialization: the checks before each account is
/// created, the checks once both exist, then the handler, which records the
/// bump found for the state account's address.
pub open spec fn spec_initialize(a: Initialize, program_id: Seq<u8>, deal_id: u64, amount: u64) -> Result<EscrowState, InstructionError> {
    match a.spec_escrow_bump(program_id, deal_id) {
        Err(e) => Err(e),
        Ok(escrow_bump) => match a.spec_vault_bump(program_id) {
            Err(e) => Err(e),
            Ok(_) => match a.spec_validate() {
                Err(e) => Err(e),
                Ok(_) => match spec_handler(a, deal_id, amount, escrow_bump) {
                    Err(e) => Err(InstructionError::Escrow(e)),
                    Ok(s) => Ok(s),
                },
            },
        },
    }
}

/// The handler of an initialization: the state to store in the new account.
pub fn handler(accounts: &Initialize, deal_id: u64, amount: u64, escrow_bump: u8) -> (r: Result<EscrowState, EscrowError>)
    ensures
        r == spec_handler(*accounts, deal_id, amount, escrow_bump),
{
    if amount == 0 {
        return Err(EscrowError::AmountMustBePositive);
    }
    Ok(EscrowState {
        sender: accounts.sender.key,
        receiver: accounts.receiver.key,
        mint: accounts.mint.info.key,
        amount,
        deal_id,
        bump: escrow_bump,
        status: EscrowStatus::Created,
    })
}

} // verus!
