//! Checks of the library's functions on concrete values.

use escrow::accounts::{AccountView, EscrowAccountView, MintView, TokenAccountView, TransferChecked};
use escrow::address::{associated_token_program_id, Address};
use escrow::error::{EscrowError, FrameworkError, InstructionError};
use escrow::instruction::{id, EscrowInstruction};
use escrow::instructions::{cancel, deposit, initialize, release};
use escrow::pda::{
    associated_token_address, escrow_seeds, escrow_signer_seeds, find_program_address,
    program_address_with_bump, vault_seeds, vault_signer_seeds,
};
use escrow::state::{EscrowState, EscrowStatus, INIT_SPACE, STATE_LEN};
use escrow::{Cancel, Deposit, Initialize, Release};

const DEAL_ID: u64 = 42;
const AMOUNT: u64 = 300_000_000;

fn key(n: u8) -> Address {
    let mut bytes = [0u8; 32];
    bytes[0] = 0xB0;
    bytes[31] = n;
    Address::new_from_array(bytes)
}

fn token_program() -> Address {
    key(100)
}

fn view(key: Address, owner: Address, is_signer: bool, is_writable: bool) -> AccountView {
    AccountView { key, owner, is_signer, is_writable }
}

fn sender() -> Address {
    key(1)
}
fn receiver() -> Address {
    key(2)
}
fn mint() -> Address {
    key(3)
}

fn escrow_address(sender: &Address, deal_id: u64) -> (Address, u8) {
    find_program_address(&escrow_seeds(sender, deal_id), &id()).unwrap()
}

fn vault_address(escrow: &Address) -> Address {
    find_program_address(&vault_seeds(escrow), &id()).unwrap().0
}

fn state(status: EscrowStatus) -> EscrowState {
    let (_, bump) = escrow_address(&sender(), DEAL_ID);
    EscrowState {
        sender: sender(),
        receiver: receiver(),
        mint: mint(),
        amount: AMOUNT,
        deal_id: DEAL_ID,
        bump,
        status,
    }
}

fn escrow_view(status: EscrowStatus) -> EscrowAccountView {
    let (address, _) = escrow_address(&sender(), DEAL_ID);
    EscrowAccountView { info: view(address, id(), false, true), state: state(status) }
}

fn mint_view() -> MintView {
    MintView { info: view(mint(), token_program(), false, false), decimals: 6 }
}

fn token_view(address: Address, owner: Address, amount: u64) -> TokenAccountView {
    TokenAccountView { info: view(address, token_program(), false, true), mint: mint(), owner, amount }
}

fn deposit_accounts(status: EscrowStatus, vault_amount: u64) -> Deposit {
    let escrow = escrow_view(status);
    Deposit {
        sender: view(sender(), key(0), true, false),
        escrow,
        mint: mint_view(),
        sender_token_account: token_view(key(10), sender(), 1_000_000_000),
        vault: token_view(vault_address(&escrow.info.key), escrow.info.key, vault_amount),
        token_program: view(token_program(), key(0), false, false),
    }
}

fn ata(owner: &Address) -> Address {
    associated_token_address(owner, &mint(), &token_program()).unwrap()
}

fn release_accounts(status: EscrowStatus, vault_amount: u64) -> Release {
    let escrow = escrow_view(status);
    Release {
        sender: view(sender(), key(0), true, true),
        receiver: view(receiver(), key(0), false, false),
        escrow,
        mint: mint_view(),
        vault: token_view(vault_address(&escrow.info.key), escrow.info.key, vault_amount),
        receiver_token_account: token_view(ata(&receiver()), receiver(), 0),
        token_program: view(token_program(), key(0), false, false),
        associated_token_program: view(associated_token_program_id(), key(0), false, false),
    }
}

fn cancel_accounts(status: EscrowStatus, vault_amount: u64) -> Cancel {
    let escrow = escrow_view(status);
    Cancel {
        sender: view(sender(), key(0), true, true),
        escrow,
        mint: mint_view(),
        vault: token_view(vault_address(&escrow.info.key), escrow.info.key, vault_amount),
        sender_token_account: token_view(ata(&sender()), sender(), 0),
        token_program: view(token_program(), key(0), false, false),
        associated_token_program: view(associated_token_program_id(), key(0), false, false),
    }
}

fn initialize_accounts() -> Initialize {
    let (escrow, _) = escrow_address(&sender(), DEAL_ID);
    Initialize {
        sender: view(sender(), key(0), true, true),
        receiver: view(receiver(), key(0), false, false),
        mint: mint_view(),
        escrow: view(escrow, key(0), false, true),
        vault: view(vault_address(&escrow), key(0), false, true),
        token_program: view(token_program(), key(0), false, false),
        system_program: view(key(0), key(0), false, false),
    }
}

fn framework(e: FrameworkError) -> InstructionError {
    InstructionError::Framework(e)
}

fn custom(e: EscrowError) -> InstructionError {
    InstructionError::Escrow(e)
}

// Program addresses

#[test]
fn found_bump_recreates_the_address_and_no_higher_bump_does() {
    let seeds = escrow_seeds(&sender(), DEAL_ID);
    let (address, bump) = find_program_address(&seeds, &id()).unwrap();
    assert_eq!(program_address_with_bump(seeds.clone(), bump, &id()), Some(address));
    for higher in (bump as u16 + 1)..=255 {
        assert_eq!(program_address_with_bump(seeds.clone(), higher as u8, &id()), None);
    }
    assert_ne!(address, id());
    assert_ne!(address, sender());
}

#[test]
fn program_addresses_depend_on_seeds_and_program() {
    let a = escrow_address(&sender(), DEAL_ID).0;
    let b = escrow_address(&sender(), DEAL_ID + 1).0;
    let c = escrow_address(&receiver(), DEAL_ID).0;
    let other_program = find_program_address(&escrow_seeds(&sender(), DEAL_ID), &key(77)).unwrap().0;
    assert_ne!(a, b);
    assert_ne!(a, c);
    assert_ne!(a, other_program);
    assert_ne!(vault_address(&a), a);
}

#[test]
fn too_many_or_too_long_seeds_give_no_address() {
    let mut many: Vec<Vec<u8>> = Vec::new();
    for i in 0..16u8 {
        many.push(vec![i]);
    }
    assert_eq!(find_program_address(&many, &id()), None);
    assert_eq!(program_address_with_bump(many, 1, &id()), None);
    let long = vec![vec![7u8; 33]];
    assert_eq!(find_program_address(&long, &id()), None);
    assert_eq!(program_address_with_bump(long, 255, &id()), None);
}

#[test]
fn seeds_have_the_documented_layout() {
    let seeds = escrow_seeds(&sender(), DEAL_ID);
    assert_eq!(seeds.len(), 3);
    assert_eq!(seeds[0], b"escrow".to_vec());
    assert_eq!(seeds[1], sender().to_bytes().to_vec());
    assert_eq!(seeds[2], DEAL_ID.to_le_bytes().to_vec());
    let vault = vault_seeds(&key(9));
    assert_eq!(vault, vec![b"vault".to_vec(), key(9).to_bytes().to_vec()]);
    let signer = escrow_signer_seeds(&sender(), DEAL_ID, 254);
    assert_eq!(signer.len(), 4);
    assert_eq!(signer[3], vec![254u8]);
    assert_eq!(vault_signer_seeds(&key(9), 7)[2], vec![7u8]);
}

#[test]
fn associated_token_address_is_the_program_address_of_its_seeds() {
    let seeds = vec![sender().to_vec(), token_program().to_vec(), mint().to_vec()];
    let expected = find_program_address(&seeds, &associated_token_program_id()).unwrap().0;
    assert_eq!(associated_token_address(&sender(), &mint(), &token_program()), Some(expected));
    assert_ne!(ata(&sender()), ata(&receiver()));
}

#[test]
fn associated_token_program_id_matches_the_token_crate() {
    assert_eq!(
        associated_token_program_id().to_bytes(),
        anchor_spl::associated_token::ID.to_bytes()
    );
}

// Errors

#[test]
fn escrow_errors_have_codes_from_6000_in_order() {
    let all = [
        EscrowError::AmountMustBePositive,
        EscrowError::SenderEqualsReceiver,
        EscrowError::InvalidStatus,
        EscrowError::UnauthorizedSender,
        EscrowError::ReceiverMismatch,
        EscrowError::MintMismatch,
        EscrowError::UnexpectedVaultBalance,
        EscrowError::VaultNotEmpty,
    ];
    for (i, e) in all.iter().enumerate() {
        assert_eq!(e.code(), 6000 + i as u32);
    }
    assert_eq!(EscrowError::AmountMustBePositive.message(), "Escrow amount must be greater than zero");
    assert_eq!(EscrowError::SenderEqualsReceiver.message(), "Sender and receiver must be different");
    assert_eq!(EscrowError::InvalidStatus.message(), "Escrow is not in the required status");
    assert_eq!(EscrowError::UnauthorizedSender.message(), "Only the escrow sender may perform this action");
    assert_eq!(EscrowError::ReceiverMismatch.message(), "The supplied receiver does not match the escrow");
    assert_eq!(EscrowError::MintMismatch.message(), "The supplied mint does not match the escrow");
    assert_eq!(EscrowError::UnexpectedVaultBalance.message(), "Vault balance does not match the escrow amount");
    assert_eq!(EscrowError::VaultNotEmpty.message(), "Vault must be empty before it can be closed");
}

// State encoding

#[test]
fn state_encoding_has_the_account_layout() {
    let s = state(EscrowStatus::Funded);
    let bytes = s.try_serialize();
    assert_eq!(bytes.len(), STATE_LEN);
    assert_eq!(STATE_LEN, 8 + INIT_SPACE);
    assert_eq!(&bytes[0..8], &[19u8, 90, 148, 111, 55, 130, 229, 108]);
    assert_eq!(&bytes[8..40], &sender().to_bytes());
    assert_eq!(&bytes[40..72], &receiver().to_bytes());
    assert_eq!(&bytes[72..104], &mint().to_bytes());
    assert_eq!(&bytes[104..112], &AMOUNT.to_le_bytes());
    assert_eq!(&bytes[112..120], &DEAL_ID.to_le_bytes());
    assert_eq!(bytes[120], s.bump);
    assert_eq!(bytes[121], 1);
    assert_eq!(EscrowState::discriminator(), [19u8, 90, 148, 111, 55, 130, 229, 108]);
}

#[test]
fn state_encoding_round_trips() {
    for status in [EscrowStatus::Created, EscrowStatus::Funded, EscrowStatus::Released, EscrowStatus::Cancelled] {
        let s = state(status);
        let mut bytes = s.try_serialize();
        assert_eq!(EscrowState::try_deserialize(&bytes), Ok(s));
        bytes.extend_from_slice(&[9, 9, 9]);
        assert_eq!(EscrowState::try_deserialize(&bytes), Ok(s));
    }
}

#[test]
fn state_decoding_rejects_bad_data() {
    let bytes = state(EscrowStatus::Created).try_serialize();
    assert_eq!(
        EscrowState::try_deserialize(&bytes[..7]),
        Err(framework(FrameworkError::AccountDiscriminatorNotFound))
    );
    let mut other = bytes.clone();
    other[3] ^= 1;
    assert_eq!(EscrowState::try_deserialize(&other), Err(framework(FrameworkError::AccountDiscriminatorMismatch)));
    assert_eq!(
        EscrowState::try_deserialize(&bytes[..STATE_LEN - 1]),
        Err(framework(FrameworkError::AccountDidNotDeserialize))
    );
    let mut bad_status = bytes.clone();
    bad_status[121] = 4;
    assert_eq!(
        EscrowState::try_deserialize(&bad_status),
        Err(framework(FrameworkError::AccountDidNotDeserialize))
    );
}

// Instruction data

#[test]
fn instruction_data_round_trips() {
    for ix in [
        EscrowInstruction::Initialize { deal_id: DEAL_ID, amount: AMOUNT },
        EscrowInstruction::Deposit,
        EscrowInstruction::Release,
        EscrowInstruction::Cancel,
    ] {
        assert_eq!(EscrowInstruction::decode(&id(), &ix.encode()), Ok(ix));
    }
    let data = EscrowInstruction::Initialize { deal_id: 1, amount: 2 }.encode();
    assert_eq!(&data[..8], &[175u8, 175, 109, 31, 13, 152, 155, 237]);
    assert_eq!(data.len(), 24);
    assert_eq!(EscrowInstruction::Deposit.encode(), vec![242u8, 35, 198, 137, 82, 225, 242, 182]);
    assert_eq!(EscrowInstruction::Release.encode(), vec![253u8, 249, 15, 206, 28, 127, 193, 241]);
    assert_eq!(EscrowInstruction::Cancel.encode(), vec![232u8, 219, 223, 41, 219, 236, 220, 190]);
}

#[test]
fn instruction_decoding_rejects_bad_data() {
    let init = EscrowInstruction::Initialize { deal_id: 1, amount: 2 }.encode();
    assert_eq!(
        EscrowInstruction::decode(&key(77), &init),
        Err(framework(FrameworkError::DeclaredProgramIdMismatch))
    );
    assert_eq!(
        EscrowInstruction::decode(&id(), &init[..23]),
        Err(framework(FrameworkError::InstructionDidNotDeserialize))
    );
    assert_eq!(
        EscrowInstruction::decode(&id(), &[228u8, 69, 165, 46, 81, 203, 154, 29]),
        Err(framework(FrameworkError::EventInstructionStub))
    );
    assert_eq!(
        EscrowInstruction::decode(&id(), &[1u8, 2, 3]),
        Err(framework(FrameworkError::InstructionFallbackNotFound))
    );
    assert_eq!(
        EscrowInstruction::decode(&id(), &[0u8; 8]),
        Err(framework(FrameworkError::InstructionFallbackNotFound))
    );
}

#[test]
fn program_id_is_the_declared_one() {
    let expected: Vec<u8> = (1..=32).collect();
    assert_eq!(id().to_bytes().to_vec(), expected);
}

// Initialize

#[test]
fn initialize_records_the_deal() {
    let a = initialize_accounts();
    let (escrow, bump) = escrow_address(&sender(), DEAL_ID);
    assert_eq!(a.escrow_bump(&id(), DEAL_ID), Ok(bump));
    let created = a.create_escrow(&id(), DEAL_ID).unwrap();
    assert_eq!(created.bump, bump);
    assert_eq!(created.create.address, escrow);
    assert_eq!(created.create.payer, sender());
    assert_eq!(created.create.space, STATE_LEN as u64);
    assert_eq!(created.create.owner, id());
    assert_eq!(created.signer_seeds, escrow_signer_seeds(&sender(), DEAL_ID, bump));
    let vault = a.create_vault(&id(), 170).unwrap();
    assert_eq!(vault.create.address, a.vault.key);
    assert_eq!(vault.create.payer, sender());
    assert_eq!(vault.create.space, 170);
    assert_eq!(vault.create.owner, token_program());
    assert_eq!(vault.initialize.mint, mint());
    assert_eq!(vault.initialize.authority, escrow);
    assert_eq!(vault.signer_seeds, vault_signer_seeds(&escrow, vault.bump));
    assert_eq!(program_address_with_bump(vault_seeds(&escrow), vault.bump, &id()), Some(a.vault.key));
    let s = escrow::initialize(&a, &id(), DEAL_ID, AMOUNT).unwrap();
    assert_eq!(s, state(EscrowStatus::Created));
    assert_eq!(s.bump, bump);
    assert_eq!(a.escrow.key, escrow);
}

#[test]
fn initialize_rejects_bad_accounts_and_amounts() {
    let a = initialize_accounts();
    let mut unsigned = a;
    unsigned.sender.is_signer = false;
    assert_eq!(unsigned.escrow_bump(&id(), DEAL_ID), Err(framework(FrameworkError::AccountNotSigner)));
    assert_eq!(a.escrow_bump(&id(), DEAL_ID + 1), Err(framework(FrameworkError::ConstraintSeeds)));
    let mut wrong_vault = a;
    wrong_vault.vault.key = key(50);
    assert_eq!(wrong_vault.vault_bump(&id()), Err(framework(FrameworkError::ConstraintSeeds)));
    let mut read_only = a;
    read_only.sender.is_writable = false;
    assert_eq!(read_only.validate(), Err(framework(FrameworkError::ConstraintMut)));
    let mut same = a;
    same.receiver.key = sender();
    assert_eq!(same.validate(), Err(custom(EscrowError::SenderEqualsReceiver)));
    let mut foreign_mint = a;
    foreign_mint.mint.info.owner = key(101);
    assert_eq!(foreign_mint.validate(), Err(framework(FrameworkError::ConstraintMintTokenProgram)));
    assert_eq!(escrow::initialize(&a, &id(), DEAL_ID, 0), Err(custom(EscrowError::AmountMustBePositive)));
    assert_eq!(initialize::handler(&a, DEAL_ID, 0, 1), Err(EscrowError::AmountMustBePositive));
    assert_eq!(escrow::initialize(&same, &id(), DEAL_ID, 0), Err(custom(EscrowError::SenderEqualsReceiver)));
    assert_eq!(escrow::initialize(&unsigned, &id(), DEAL_ID, AMOUNT), Err(framework(FrameworkError::AccountNotSigner)));
    assert_eq!(escrow::initialize(&wrong_vault, &id(), DEAL_ID, AMOUNT), Err(framework(FrameworkError::ConstraintSeeds)));
    assert!(a.create_vault(&key(77), 165).is_err());
}

// Deposit

#[test]
fn deposit_moves_exactly_the_deal_amount_into_the_vault() {
    let a = deposit_accounts(EscrowStatus::Created, 0);
    assert!(a.validate(&id()).is_ok());
    let t = escrow::deposit(&a, &id()).unwrap();
    assert_eq!(
        t,
        TransferChecked {
            from: key(10),
            mint: mint(),
            to: a.vault.info.key,
            authority: sender(),
            amount: AMOUNT,
            decimals: 6,
        }
    );
    assert_eq!(deposit::complete(&a, AMOUNT), Ok(state(EscrowStatus::Funded)));
    assert_eq!(deposit::complete(&a, AMOUNT - 1), Err(EscrowError::UnexpectedVaultBalance));
}

#[test]
fn deposit_rejects_wrong_status_and_a_used_vault() {
    assert_eq!(
        escrow::deposit(&deposit_accounts(EscrowStatus::Funded, 0), &id()),
        Err(custom(EscrowError::InvalidStatus))
    );
    assert_eq!(
        deposit::handler(&deposit_accounts(EscrowStatus::Created, 5)),
        Err(EscrowError::UnexpectedVaultBalance)
    );
}

#[test]
fn deposit_account_checks_name_the_failing_constraint() {
    let a = deposit_accounts(EscrowStatus::Created, 0);
    let mut x = a;
    x.sender.is_signer = false;
    assert_eq!(x.validate(&id()), Err(framework(FrameworkError::AccountNotSigner)));
    let mut x = a;
    x.vault.info.key = x.escrow.info.key;
    assert_eq!(x.validate(&id()), Err(framework(FrameworkError::ConstraintDuplicateMutableAccount)));
    let mut x = a;
    x.sender.key = receiver();
    assert_eq!(x.validate(&id()), Err(framework(FrameworkError::ConstraintSeeds)));
    let mut x = a;
    x.escrow.info.is_writable = false;
    assert_eq!(x.validate(&id()), Err(framework(FrameworkError::ConstraintMut)));
    let mut x = a;
    x.escrow.state.sender = receiver();
    assert_eq!(x.validate(&id()), Err(custom(EscrowError::UnauthorizedSender)));
    let mut x = a;
    x.mint.info.key = key(4);
    assert_eq!(x.validate(&id()), Err(custom(EscrowError::MintMismatch)));
    let mut x = a;
    x.token_program.key = key(101);
    assert_eq!(x.validate(&id()), Err(framework(FrameworkError::ConstraintMintTokenProgram)));
    let mut x = a;
    x.sender_token_account.owner = receiver();
    assert_eq!(x.validate(&id()), Err(framework(FrameworkError::ConstraintTokenOwner)));
    let mut x = a;
    x.sender_token_account.mint = key(4);
    assert_eq!(x.validate(&id()), Err(framework(FrameworkError::ConstraintTokenMint)));
    let mut x = a;
    x.sender_token_account.info.owner = key(101);
    assert_eq!(x.validate(&id()), Err(framework(FrameworkError::ConstraintTokenTokenProgram)));
    let mut x = a;
    x.vault.info.key = key(60);
    assert_eq!(x.validate(&id()), Err(framework(FrameworkError::ConstraintSeeds)));
    let mut x = a;
    x.vault.owner = sender();
    assert_eq!(x.validate(&id()), Err(framework(FrameworkError::ConstraintTokenOwner)));
}

// Release

#[test]
fn release_pays_the_deal_amount_to_the_receiver() {
    let a = release_accounts(EscrowStatus::Funded, AMOUNT);
    assert!(a.validate(&id()).is_ok());
    let signed = escrow::release(&a, &id()).unwrap();
    assert_eq!(signed.signer_seeds, escrow_signer_seeds(&sender(), DEAL_ID, a.escrow.state.bump));
    let t = signed.call;
    assert_eq!(t.from, a.vault.info.key);
    assert_eq!(t.to, ata(&receiver()));
    assert_eq!(t.authority, a.escrow.info.key);
    assert_eq!(t.amount, AMOUNT);
    let signed = release::complete(&a, 0).unwrap();
    assert_eq!(signed.signer_seeds, escrow_signer_seeds(&sender(), DEAL_ID, a.escrow.state.bump));
    let s = signed.call;
    assert_eq!(s.state, state(EscrowStatus::Released));
    assert_eq!(s.close_vault.account, a.vault.info.key);
    assert_eq!(s.close_vault.destination, sender());
    assert_eq!(s.close_state_to, sender());
    assert_eq!(release::complete(&a, 1), Err(EscrowError::VaultNotEmpty));
}

#[test]
fn release_rejects_wrong_status_balance_and_parties() {
    assert_eq!(
        escrow::release(&release_accounts(EscrowStatus::Created, AMOUNT), &id()),
        Err(custom(EscrowError::InvalidStatus))
    );
    assert_eq!(
        escrow::release(&release_accounts(EscrowStatus::Funded, AMOUNT + 1), &id()),
        Err(custom(EscrowError::UnexpectedVaultBalance))
    );
    let mut x = release_accounts(EscrowStatus::Funded, AMOUNT);
    x.receiver.key = key(7);
    assert_eq!(x.validate(&id()), Err(custom(EscrowError::ReceiverMismatch)));
    let mut x = release_accounts(EscrowStatus::Funded, AMOUNT);
    x.receiver_token_account.info.key = key(61);
    assert_eq!(x.validate(&id()), Err(framework(FrameworkError::ConstraintAssociated)));
    let mut x = release_accounts(EscrowStatus::Funded, AMOUNT);
    x.receiver_token_account.info.owner = key(101);
    assert_eq!(x.validate(&id()), Err(framework(FrameworkError::ConstraintAssociatedTokenTokenProgram)));
    let mut x = release_accounts(EscrowStatus::Funded, AMOUNT);
    x.receiver_token_account.owner = sender();
    assert_eq!(x.validate(&id()), Err(framework(FrameworkError::ConstraintTokenOwner)));
    let mut x = release_accounts(EscrowStatus::Funded, AMOUNT);
    x.sender.is_writable = false;
    assert_eq!(x.validate(&id()), Err(framework(FrameworkError::ConstraintMut)));
}

// Cancel

#[test]
fn cancel_returns_the_whole_vault_to_the_sender() {
    let a = cancel_accounts(EscrowStatus::Funded, AMOUNT);
    assert!(a.validate(&id()).is_ok());
    let signed = escrow::cancel(&a, &id()).unwrap().unwrap();
    let (seed_bump, seeds) = signed.signer_seeds.split_last().unwrap();
    assert_eq!(program_address_with_bump(seeds.to_vec(), seed_bump[0], &id()), Some(a.escrow.info.key));
    let t = signed.call;
    assert_eq!(t.from, a.vault.info.key);
    assert_eq!(t.to, ata(&sender()));
    assert_eq!(t.amount, AMOUNT);
    let odd = cancel_accounts(EscrowStatus::Funded, 17);
    assert_eq!(cancel::handler(&odd).unwrap().unwrap().call.amount, 17);
    assert_eq!(cancel::handler(&cancel_accounts(EscrowStatus::Created, 0)), Ok(None));
    let s = cancel::complete(&a, 0).unwrap().call;
    assert_eq!(s.state, state(EscrowStatus::Cancelled));
    assert_eq!(s.close_vault.destination, sender());
    assert_eq!(cancel::complete(&a, 3), Err(EscrowError::VaultNotEmpty));
}

#[test]
fn cancel_rejects_finished_deals_and_others() {
    for status in [EscrowStatus::Released, EscrowStatus::Cancelled] {
        assert_eq!(
            escrow::cancel(&cancel_accounts(status, 0), &id()),
            Err(custom(EscrowError::InvalidStatus))
        );
        assert_eq!(deposit::handler(&deposit_accounts(status, 0)), Err(EscrowError::InvalidStatus));
        assert_eq!(release::handler(&release_accounts(status, AMOUNT)), Err(EscrowError::InvalidStatus));
    }
    let mut x = cancel_accounts(EscrowStatus::Funded, AMOUNT);
    x.sender.key = key(8);
    assert_eq!(x.validate(&id()), Err(framework(FrameworkError::ConstraintSeeds)));
    let mut x = cancel_accounts(EscrowStatus::Funded, AMOUNT);
    x.sender_token_account.info.key = x.vault.info.key;
    assert_eq!(x.validate(&id()), Err(framework(FrameworkError::ConstraintDuplicateMutableAccount)));
}
