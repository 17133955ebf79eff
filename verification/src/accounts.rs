//! What an instruction reads of the accounts handed to it, the checks that its
//! account constraints declare, and the token program calls that it asks for.
//!
//! The account types of the framework do their own checks before these (that the
//! deal's state account belongs to this program and decodes, that token accounts
//! and mints belong to a token program and unpack, that the token program is one
//! of the two token programs); the views hold what those checks produced.

use vstd::prelude::*;
use crate::address::Address;
use crate::error::{FrameworkError, InstructionError};
use crate::pda::{
    find_program_address, program_address_with_bump, escrow_seeds, vault_seeds,
    associated_token_address, spec_create_program_address, spec_find_program_address,
    spec_escrow_seeds, spec_vault_seeds, spec_associated_token_address,
};
use crate::state::EscrowState;

verus! {

/// An account as the runtime hands it over.
#[derive(Clone, Copy, Debug, PartialEq, Eq)]
pub struct AccountView {
    /// The account's address.
    pub key: Address,
    /// The program that owns the account.
    pub owner: Address,
    /// Whether the transaction is signed for the account.
    pub is_signer: bool,
    /// Whether the transaction may write the account.
    pub is_writable: bool,
}

/// A token account: the account and the fields of its token data.
#[derive(Clone, Copy, Debug, PartialEq, Eq)]
pub struct TokenAccountView {
    pub info: AccountView,
    /// The mint whose tokens it holds.
    pub mint: Address,
    /// The wallet that may move its tokens.
    pub owner: Address,
    /// The tokens it holds.
    pub amount: u64,
}

/// A mint: the account and the field of its data that the program reads.
#[derive(Clone, Copy, Debug, PartialEq, Eq)]
pub struct MintView {
    pub info: AccountView,
    pub decimals: u8,
}

/// A deal's state account and the state decoded from it.
#[derive(Clone, Copy, Debug, PartialEq, Eq)]
pub struct EscrowAccountView {
    pub info: AccountView,
    pub state: EscrowState,
}

/// A checked transfer of tokens that the program asks the token program for.
#[derive(Clone, Copy, Debug, PartialEq, Eq)]
pub struct TransferChecked {
    pub from: Address,
    pub mint: Address,
    pub to: Address,
    pub authority: Address,
    pub amount: u64,
    pub decimals: u8,
}

/// The closing of a token account that the program asks the token program for;
/// its lamports go to `destination`.
#[derive(Clone, Copy, Debug, PartialEq, Eq)]
pub struct CloseAccount {
    pub account: Address,
    pub destination: Address,
    pub authority: Address,
}

/// How a finished deal is settled: the state its handler leaves, the closing of
/// its vault, and the account that receives the rent of its state account, which
/// is closed as well.
#[derive(Clone, Copy, Debug, PartialEq, Eq)]
pub struct Settlement {
    pub state: EscrowState,
    pub close_vault: CloseAccount,
    pub close_state_to: Address,
}

/// A call into the token program that the deal's state account authorizes: the
/// call and the seeds with which the program signs for the state account.
#[derive(Clone, Debug, PartialEq, Eq)]
pub struct ProgramSigned<T> {
    pub call: T,
    pub signer_seeds: Vec<Vec<u8>>,
}

/// The creation of an account by the system program: its address, the account
/// that pays its rent, its size and the program that will own it.
#[derive(Clone, Copy, Debug, PartialEq, Eq)]
pub struct CreateAccount {
    pub address: Address,
    pub payer: Address,
    pub space: u64,
    pub owner: Address,
}

/// The initialization of a new token account by the token program.
#[derive(Clone, Copy, Debug, PartialEq, Eq)]
pub struct InitializeAccount {
    pub account: Address,
    pub mint: Address,
    pub authority: Address,
}

/// The creation of a program address account: the system program's creation,
/// the bump found for the address, and the seeds with which the program signs
/// for the new account.
#[derive(Clone, Debug, PartialEq, Eq)]
pub struct AccountCreation {
    pub create: CreateAccount,
    pub bump: u8,
    pub signer_seeds: Vec<Vec<u8>>,
}

/// The creation of a vault: the account's creation, its initialization as a
/// token account, the bump found for its address, and the seeds with which the
/// program signs for it.
#[derive(Clone, Debug, PartialEq, Eq)]
pub struct VaultCreation {
    pub create: CreateAccount,
    pub initialize: InitializeAccount,
    pub bump: u8,
    pub signer_seeds: Vec<Vec<u8>>,
}

/// The error of a `token::authority`, `token::mint`, `token::token_program`
/// constraint group, checked in that order, if one fails.
pub open spec fn spec_token_account_error(
    t: TokenAccountView,
    mint: Address,
    authority: Address,
    token_program: Address,
) -> Option<FrameworkError> {
    if t.owner != authority {
        Some(FrameworkError::ConstraintTokenOwner)
    } else if t.mint != mint {
        Some(FrameworkError::ConstraintTokenMint)
    } else if t.info.owner != token_program {
        Some(FrameworkError::ConstraintTokenTokenProgram)
    } else {
        None
    }
}

/// Checks a `token::authority`, `token::mint`, `token::token_program` group.
pub fn check_token_account(
    t: &TokenAccountView,
    mint: &Address,
    authority: &Address,
    token_program: &Address,
) -> (r: Option<FrameworkError>)
    ensures
        r == spec_token_account_error(*t, *mint, *authority, *token_program),
{
    if !t.owner.same(authority) {
        Some(FrameworkError::ConstraintTokenOwner)
    } else if !t.mint.same(mint) {
        Some(FrameworkError::ConstraintTokenMint)
    } else if !t.info.owner.same(token_program) {
        Some(FrameworkError::ConstraintTokenTokenProgram)
    } else {
        None
    }
}

/// The error of an `associated_token::mint`, `associated_token::authority`,
/// `associated_token::token_program` group, if one fails: the account's owning
/// program first, then its token owner, then that its address is the canonical
/// associated token account.
pub open spec fn spec_associated_token_error(
    t: TokenAccountView,
    wallet: Address,
    mint: Address,
    token_program: Address,
) -> Option<InstructionError> {
    if t.info.owner != token_program {
        Some(InstructionError::Framework(FrameworkError::ConstraintAssociatedTokenTokenProgram))
    } else if t.owner != wallet {
        Some(InstructionError::Framework(FrameworkError::ConstraintTokenOwner))
    } else {
        match spec_associated_token_address(wallet@, mint@, token_program@) {
            None => Some(InstructionError::NoProgramAddress),
            Some(a) => if a != t.info.key@ {
                Some(InstructionError::Framework(FrameworkError::ConstraintAssociated))
            } else {
                None
            },
        }
    }
}

/// Checks an associated token account group.
pub fn check_associated_token_account(
    t: &TokenAccountView,
    wallet: &Address,
    mint: &Address,
    token_program: &Address,
) -> (r: Option<InstructionError>)
    ensures
        r == spec_associated_token_error(*t, *wallet, *mint, *token_program),
{
    if !t.info.owner.same(token_program) {
        return Some(InstructionError::Framework(FrameworkError::ConstraintAssociatedTokenTokenProgram));
    }
    if !t.owner.same(wallet) {
        return Some(InstructionError::Framework(FrameworkError::ConstraintTokenOwner));
    }
    match associated_token_address(wallet, mint, token_program) {
        None => Some(InstructionError::NoProgramAddress),
        Some(a) => if !a.same(&t.info.key) {
            Some(InstructionError::Framework(FrameworkError::ConstraintAssociated))
        } else {
            None
        },
    }
}

/// Whether `key` is the program address of the seeds with `bump` appended, as a
/// `seeds = [..], bump = ..` constraint checks it.
pub open spec fn spec_address_with_bump_matches(seeds: Seq<Seq<u8>>, bump: u8, key: Address, program_id: Seq<u8>) -> bool {
    spec_create_program_address(seeds.push(seq![bump]), program_id) == Some(key@)
}

/// Checks a `seeds = [..], bump = ..` constraint.
pub fn check_address_with_bump(seeds: Vec<Vec<u8>>, bump: u8, key: &Address, program_id: &Address) -> (r: bool)
    ensures
        r == spec_address_with_bump_matches(crate::pda::seeds_view(seeds), bump, *key, program_id@),
{
    match program_address_with_bump(seeds, bump, program_id) {
        Some(a) => a.same(key),
        None => false,
    }
}

/// The outcome of a `seeds = [..], bump` constraint without a given bump: the
/// canonical bump when `key` is the canonical program address of the seeds.
pub open spec fn spec_canonical_address_check(seeds: Seq<Seq<u8>>, key: Address, program_id: Seq<u8>) -> Result<u8, InstructionError> {
    match spec_find_program_address(seeds, program_id) {
        None => Err(InstructionError::NoProgramAddress),
        Some((a, b)) => if a != key@ {
            Err(InstructionError::Framework(FrameworkError::ConstraintSeeds))
        } else {
            Ok(b)
        },
    }
}

/// Checks a `seeds = [..], bump` constraint without a given bump.
pub fn check_canonical_address(seeds: &Vec<Vec<u8>>, key: &Address, program_id: &Address) -> (r: Result<u8, InstructionError>)
    ensures
        r == spec_canonical_address_check(crate::pda::seeds_view(*seeds), *key, program_id@),
{
    match find_program_address(seeds, program_id) {
        None => Err(InstructionError::NoProgramAddress),
        Some((a, b)) => if !a.same(key) {
            Err(InstructionError::Framework(FrameworkError::ConstraintSeeds))
        } else {
            Ok(b)
        },
    }
}

/// Whether the state account is at the address that its recorded deal id and
/// bump derive for `sender`: the `seeds = [b"escrow", sender, deal_id], bump =
/// escrow.bump` constraint.
pub open spec fn spec_escrow_address_matches(escrow: EscrowAccountView, sender: Address, program_id: Seq<u8>) -> bool {
    spec_address_with_bump_matches(
        spec_escrow_seeds(sender@, escrow.state.deal_id),
        escrow.state.bump,
        escrow.info.key,
        program_id,
    )
}

/// Checks the state account's address against its recorded deal id and bump.
pub fn check_escrow_address(escrow: &EscrowAccountView, sender: &Address, program_id: &Address) -> (r: bool)
    ensures
        r == spec_escrow_address_matches(*escrow, *sender, program_id@),
{
    check_address_with_bump(escrow_seeds(sender, escrow.state.deal_id), escrow.state.bump, &escrow.info.key, program_id)
}

/// The outcome of the `seeds = [b"vault", escrow], bump` constraint on a vault.
pub open spec fn spec_vault_address_check(vault: Address, escrow: Address, program_id: Seq<u8>) -> Result<u8, InstructionError> {
    spec_canonical_address_check(spec_vault_seeds(escrow@), vault, program_id)
}

/// Checks the vault's address: the canonical program address of its deal's
/// state account.
pub fn check_vault_address(vault: &Address, escrow: &Address, program_id: &Address) -> (r: Result<u8, InstructionError>)
    ensures
        r == spec_vault_address_check(*vault, *escrow, program_id@),
{
    check_canonical_address(&vault_seeds(escrow), vault, program_id)
}

/// Whether two of the three accounts that an instruction writes back are one.
pub open spec fn spec_duplicate_among(a: Address, b: Address, c: Address) -> bool {
    a == b || a == c || b == c
}

/// Checks that the three accounts that an instruction writes back are distinct.
pub fn check_duplicates(a: &Address, b: &Address, c: &Address) -> (r: bool)
    ensures
        r == spec_duplicate_among(*a, *b, *c),
{
    a.same(b) || a.same(c) || b.same(c)
}

} // verus!
