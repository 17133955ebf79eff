//! The errors an instruction of the escrow program ends with.

use vstd::prelude::*;

verus! {

/// The escrow program's own errors, in the order that gives each its code.
#[derive(Clone, Copy, Debug, PartialEq, Eq, Structural)]
pub enum EscrowError {
    AmountMustBePositive,
    SenderEqualsReceiver,
    InvalidStatus,
    UnauthorizedSender,
    ReceiverMismatch,
    MintMismatch,
    UnexpectedVaultBalance,
    VaultNotEmpty,
}

/// The position of each error in the declaration; its code is 6000 plus this.
pub open spec fn spec_error_index(e: EscrowError) -> u32 {
    match e {
        EscrowError::AmountMustBePositive => 0,
        EscrowError::SenderEqualsReceiver => 1,
        EscrowError::InvalidStatus => 2,
        EscrowError::UnauthorizedSender => 3,
        EscrowError::ReceiverMismatch => 4,
        EscrowError::MintMismatch => 5,
        EscrowError::UnexpectedVaultBalance => 6,
        EscrowError::VaultNotEmpty => 7,
    }
}

/// The message that is logged with each error.
pub open spec fn spec_error_message(e: EscrowError) -> Seq<char> {
    match e {
        EscrowError::AmountMustBePositive => "Escrow amount must be greater than zero"@,
        EscrowError::SenderEqualsReceiver => "Sender and receiver must be different"@,
        EscrowError::InvalidStatus => "Escrow is not in the required status"@,
        EscrowError::UnauthorizedSender => "Only the escrow sender may perform this action"@,
        EscrowError::ReceiverMismatch => "The supplied receiver does not match the escrow"@,
        EscrowError::MintMismatch => "The supplied mint does not match the escrow"@,
        EscrowError::UnexpectedVaultBalance => "Vault balance does not match the escrow amount"@,
        EscrowError::VaultNotEmpty => "Vault must be empty before it can be closed"@,
    }
}

impl EscrowError {
    /// The error's code: custom errors are numbered from 6000 in declaration order.
    pub fn code(&self) -> (r: u32)
        ensures
            r == 6000 + spec_error_index(*self),
    {
        match self {
            EscrowError::AmountMustBePositive => 6000,
            EscrowError::SenderEqualsReceiver => 6001,
            EscrowError::InvalidStatus => 6002,
            EscrowError::UnauthorizedSender => 6003,
            EscrowError::ReceiverMismatch => 6004,
            EscrowError::MintMismatch => 6005,
            EscrowError::UnexpectedVaultBalance => 6006,
            EscrowError::VaultNotEmpty => 6007,
        }
    }

    /// The error's message.
    pub fn message(&self) -> (r: &'static str)
        ensures
            r@ == spec_error_message(*self),
    {
        match self {
            EscrowError::AmountMustBePositive => "Escrow amount must be greater than zero",
            EscrowError::SenderEqualsReceiver => "Sender and receiver must be different",
            EscrowError::InvalidStatus => "Escrow is not in the required status",
            EscrowError::UnauthorizedSender => "Only the escrow sender may perform this action",
            EscrowError::ReceiverMismatch => "The supplied receiver does not match the escrow",
            EscrowError::MintMismatch => "The supplied mint does not match the escrow",
            EscrowError::UnexpectedVaultBalance => "Vault balance does not match the escrow amount",
            EscrowError::VaultNotEmpty => "Vault must be empty before it can be closed",
        }
    }
}

/// The program's errors have the codes 6000 to 6007 in declaration order, one
/// code each.
pub proof fn lemma_error_codes(e: EscrowError, f: EscrowError)
    ensures
        6000 <= 6000 + spec_error_index(e) < 6008,
        spec_error_index(e) == spec_error_index(f) ==> e == f,
        e == EscrowError::AmountMustBePositive ==> 6000 + spec_error_index(e) == 6000,
        e == EscrowError::SenderEqualsReceiver ==> 6000 + spec_error_index(e) == 6001,
        e == EscrowError::InvalidStatus ==> 6000 + spec_error_index(e) == 6002,
        e == EscrowError::UnauthorizedSender ==> 6000 + spec_error_index(e) == 6003,
        e == EscrowError::ReceiverMismatch ==> 6000 + spec_error_index(e) == 6004,
        e == EscrowError::MintMismatch ==> 6000 + spec_error_index(e) == 6005,
        e == EscrowError::UnexpectedVaultBalance ==> 6000 + spec_error_index(e) == 6006,
        e == EscrowError::VaultNotEmpty ==> 6000 + spec_error_index(e) == 6007,
{
}

/// The framework errors that the program's declared account constraints and its
/// instruction and account decoding raise, named as the framework names them.
#[derive(Clone, Copy, Debug, PartialEq, Eq, Structural)]
pub enum FrameworkError {
    InstructionFallbackNotFound,
    InstructionDidNotDeserialize,
    EventInstructionStub,
    DeclaredProgramIdMismatch,
    AccountNotSigner,
    ConstraintMut,
    ConstraintSeeds,
    ConstraintClose,
    ConstraintTokenMint,
    ConstraintTokenOwner,
    ConstraintTokenTokenProgram,
    ConstraintMintTokenProgram,
    ConstraintAssociated,
    ConstraintAssociatedTokenTokenProgram,
    ConstraintDuplicateMutableAccount,
    AccountDiscriminatorNotFound,
    AccountDiscriminatorMismatch,
    AccountDidNotDeserialize,
}

/// How an instruction fails.
#[derive(Clone, Copy, Debug, PartialEq, Eq, Structural)]
pub enum InstructionError {
    /// A check of the framework, on an account or on the instruction data.
    Framework(FrameworkError),
    /// A check of the escrow program itself.
    Escrow(EscrowError),
    /// No bump gives a program address for the seeds; the search then aborts the
    /// transaction.
    NoProgramAddress,
}

} // verus!
