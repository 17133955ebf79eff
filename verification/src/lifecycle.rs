//! Laws of a deal's life: which instruction takes a deal from which status to
//! which, what stays fixed, who may act, and that what a deal pays out is what
//! it took in.

use vstd::prelude::*;
use crate::address::Address;
use crate::accounts::spec_escrow_address_matches;
use crate::accounts::EscrowAccountView;
use crate::error::EscrowError;
use crate::instruction::EscrowInstruction;
use crate::instructions::initialize::{self, Initialize};
use crate::instructions::deposit::{self, Deposit};
use crate::instructions::release::{self, Release};
use crate::instructions::cancel::{self, Cancel};
use crate::pda::{spec_escrow_seeds, spec_vault_seeds, spec_find_from, spec_find_program_address, spec_create_program_address, spec_state_signer_seeds};
use crate::state::{EscrowState, EscrowStatus};

verus! {

/// The status a deal moves to when the instruction goes through, from the given
/// status; none where the instruction does not apply to a deal in it.
pub open spec fn spec_next_status(ix: EscrowInstruction, from: EscrowStatus) -> Option<EscrowStatus> {
    match (ix, from) {
        (EscrowInstruction::Deposit, EscrowStatus::Created) => Some(EscrowStatus::Funded),
        (EscrowInstruction::Release, EscrowStatus::Funded) => Some(EscrowStatus::Released),
        (EscrowInstruction::Cancel, EscrowStatus::Created) => Some(EscrowStatus::Cancelled),
        (EscrowInstruction::Cancel, EscrowStatus::Funded) => Some(EscrowStatus::Cancelled),
        _ => None,
    }
}

/// The terms every recorded deal has: a positive amount between two parties.
pub open spec fn spec_valid_terms(s: EscrowState) -> bool {
    s.amount > 0 && s.sender != s.receiver
}

/// A deposit follows the status table: its handler refuses a deal for its status
/// exactly where the table has no transition, and a deposit that goes through
/// leaves the deal in the status the table gives, with its terms unchanged.
pub proof fn lemma_deposit_follows_status_table(a: Deposit, vault_amount: u64)
    ensures
        (deposit::spec_handler(a) == Err::<crate::accounts::TransferChecked, EscrowError>(EscrowError::InvalidStatus))
            <==> spec_next_status(EscrowInstruction::Deposit, a.escrow.state.status) is None,
        deposit::spec_handler(a) is Ok ==> match deposit::spec_complete(a, vault_amount) {
            Ok(s) => Some(s.status) == spec_next_status(EscrowInstruction::Deposit, a.escrow.state.status)
                && s == a.escrow.state.with_status(s.status),
            Err(_) => true,
        },
{
}

/// A release follows the status table.
pub proof fn lemma_release_follows_status_table(a: Release, vault_amount: u64)
    ensures
        (release::spec_handler(a) == Err::<crate::accounts::TransferChecked, EscrowError>(EscrowError::InvalidStatus))
            <==> spec_next_status(EscrowInstruction::Release, a.escrow.state.status) is None,
        release::spec_handler(a) is Ok ==> match release::spec_complete(a, vault_amount) {
            Ok(s) => Some(s.state.status) == spec_next_status(EscrowInstruction::Release, a.escrow.state.status)
                && s.state == a.escrow.state.with_status(s.state.status),
            Err(_) => true,
        },
{
}

/// A cancellation follows the status table.
pub proof fn lemma_cancel_follows_status_table(a: Cancel, vault_amount: u64)
    ensures
        (cancel::spec_handler(a) == Err::<Option<crate::accounts::TransferChecked>, EscrowError>(EscrowError::InvalidStatus))
            <==> spec_next_status(EscrowInstruction::Cancel, a.escrow.state.status) is None,
        cancel::spec_handler(a) is Ok ==> match cancel::spec_complete(a, vault_amount) {
            Ok(s) => Some(s.state.status) == spec_next_status(EscrowInstruction::Cancel, a.escrow.state.status)
                && s.state == a.escrow.state.with_status(s.state.status),
            Err(_) => true,
        },
{
}

/// A released or cancelled deal is final: every instruction on it is refused for
/// its status.
pub proof fn lemma_finished_deals_are_final(d: Deposit, r: Release, c: Cancel)
    requires
        d.escrow.state.status == EscrowStatus::Released || d.escrow.state.status == EscrowStatus::Cancelled,
        r.escrow.state.status == EscrowStatus::Released || r.escrow.state.status == EscrowStatus::Cancelled,
        c.escrow.state.status == EscrowStatus::Released || c.escrow.state.status == EscrowStatus::Cancelled,
    ensures
        deposit::spec_handler(d) == Err::<crate::accounts::TransferChecked, EscrowError>(EscrowError::InvalidStatus),
        release::spec_handler(r) == Err::<crate::accounts::TransferChecked, EscrowError>(EscrowError::InvalidStatus),
        cancel::spec_handler(c) == Err::<Option<crate::accounts::TransferChecked>, EscrowError>(EscrowError::InvalidStatus),
{
}

/// Only the deal's sender, signing, can deposit, release or cancel it.
pub proof fn lemma_only_the_sender_acts(d: Deposit, r: Release, c: Cancel, program_id: Seq<u8>)
    ensures
        (!d.sender.is_signer || d.sender.key != d.escrow.state.sender) ==> d.spec_validate(program_id) is Err,
        (!r.sender.is_signer || r.sender.key != r.escrow.state.sender) ==> r.spec_validate(program_id) is Err,
        (!c.sender.is_signer || c.sender.key != c.escrow.state.sender) ==> c.spec_validate(program_id) is Err,
{
}

/// The deal's tokens go only to its receiver and only in its mint: a release
/// naming another receiver, or any instruction naming another mint, is refused.
pub proof fn lemma_parties_and_mint_are_fixed(d: Deposit, r: Release, c: Cancel, program_id: Seq<u8>)
    ensures
        r.receiver.key != r.escrow.state.receiver ==> r.spec_validate(program_id) is Err,
        d.mint.info.key != d.escrow.state.mint ==> d.spec_validate(program_id) is Err,
        r.mint.info.key != r.escrow.state.mint ==> r.spec_validate(program_id) is Err,
        c.mint.info.key != c.escrow.state.mint ==> c.spec_validate(program_id) is Err,
{
}

/// Every deal that is opened has valid terms, and no later instruction changes
/// them.
pub proof fn lemma_terms_stay_valid(
    i: Initialize,
    escrow_bump: u8,
    deal_id: u64,
    amount: u64,
    d: Deposit,
    dv: u64,
    r: Release,
    rv: u64,
    c: Cancel,
    cv: u64,
)
    ensures
        i.spec_validate() is Ok ==> match initialize::spec_handler(i, deal_id, amount, escrow_bump) {
            Ok(s) => spec_valid_terms(s),
            Err(_) => true,
        },
        spec_valid_terms(d.escrow.state) ==> match deposit::spec_complete(d, dv) {
            Ok(s) => spec_valid_terms(s),
            Err(_) => true,
        },
        spec_valid_terms(r.escrow.state) ==> match release::spec_complete(r, rv) {
            Ok(s) => spec_valid_terms(s.state),
            Err(_) => true,
        },
        spec_valid_terms(c.escrow.state) ==> match cancel::spec_complete(c, cv) {
            Ok(s) => spec_valid_terms(s.state),
            Err(_) => true,
        },
{
}

/// What a release pays out is what the deposit paid in: once a deposit of a deal
/// has gone through and its vault holds what was read after the transfer, the
/// release of that deal is not refused by its handler, and it pays the same
/// amount out of the same vault.
pub proof fn lemma_release_pays_what_was_deposited(d: Deposit, vault_amount: u64, r: Release)
    requires
        deposit::spec_handler(d) is Ok,
        deposit::spec_complete(d, vault_amount) is Ok,
        r.escrow.state == deposit::spec_complete(d, vault_amount)->Ok_0,
        r.vault.info.key == d.vault.info.key,
        r.vault.amount == vault_amount,
    ensures
        release::spec_handler(r) is Ok,
        release::spec_handler(r)->Ok_0.amount == deposit::spec_handler(d)->Ok_0.amount,
        release::spec_handler(r)->Ok_0.from == deposit::spec_handler(d)->Ok_0.to,
{
}

/// What a cancellation returns of a funded deal, one opened with valid terms,
/// is what the deposit paid in.
pub proof fn lemma_cancel_returns_the_deposit(d: Deposit, vault_amount: u64, c: Cancel)
    requires
        spec_valid_terms(d.escrow.state),
        deposit::spec_handler(d) is Ok,
        deposit::spec_complete(d, vault_amount) is Ok,
        c.escrow.state == deposit::spec_complete(d, vault_amount)->Ok_0,
        c.vault.info.key == d.vault.info.key,
        c.vault.amount == vault_amount,
    ensures
        cancel::spec_handler(c) == Ok::<Option<crate::accounts::TransferChecked>, EscrowError>(Some(cancel::spec_refund(c))),
        cancel::spec_refund(c).amount == deposit::spec_handler(d)->Ok_0.amount,
        cancel::spec_refund(c).from == deposit::spec_handler(d)->Ok_0.to,
{
}

/// A deal has one vault: the instructions that pass their account checks for the
/// same state account use the same vault.
pub proof fn lemma_one_vault_per_deal(d: Deposit, r: Release, c: Cancel, program_id: Seq<u8>)
    requires
        d.spec_validate(program_id) is Ok,
        r.spec_validate(program_id) is Ok,
        c.spec_validate(program_id) is Ok,
        r.escrow.info.key == d.escrow.info.key,
        c.escrow.info.key == d.escrow.info.key,
    ensures
        r.vault.info.key == d.vault.info.key,
        c.vault.info.key == d.vault.info.key,
{
    assert(r.vault.info.key.bytes =~= d.vault.info.key.bytes);
    assert(c.vault.info.key.bytes =~= d.vault.info.key.bytes);
}

/// Every token transfer that an instruction asks for, once its accounts pass
/// their checks, moves the deal's mint between the deal's vault and a token
/// account of its sender or receiver: tokens are moved, never made or burnt.
pub proof fn lemma_transfers_stay_within_the_deal(d: Deposit, r: Release, c: Cancel, program_id: Seq<u8>)
    ensures
        d.spec_validate(program_id) is Ok && deposit::spec_handler(d) is Ok ==> {
            let t = deposit::spec_handler(d)->Ok_0;
            &&& t.mint == d.escrow.state.mint
            &&& t.to == d.vault.info.key
            &&& t.authority == d.escrow.state.sender
        },
        r.spec_validate(program_id) is Ok && release::spec_handler(r) is Ok ==> {
            let t = release::spec_handler(r)->Ok_0;
            &&& t.mint == r.escrow.state.mint
            &&& t.from == r.vault.info.key
            &&& t.to == r.receiver_token_account.info.key
            &&& r.receiver_token_account.owner == r.escrow.state.receiver
            &&& t.amount == r.escrow.state.amount
        },
        c.spec_validate(program_id) is Ok && (cancel::spec_handler(c) matches Ok(Some(_))) ==> {
            let t = cancel::spec_handler(c)->Ok_0->Some_0;
            &&& t.mint == c.escrow.state.mint
            &&& t.from == c.vault.info.key
            &&& t.to == c.sender_token_account.info.key
            &&& c.sender_token_account.owner == c.escrow.state.sender
            &&& t.amount == c.vault.amount
        },
{
}

/// The bump found for a canonical program address recreates that address.
pub proof fn lemma_found_bump_recreates(seeds: Seq<Seq<u8>>, program_id: Seq<u8>, bump: nat)
    requires
        spec_find_from(seeds, program_id, bump) is Some,
    ensures
        ({
            let (a, b) = spec_find_from(seeds, program_id, bump)->0;
            spec_create_program_address(seeds.push(seq![b]), program_id) == Some(a)
        }),
    decreases bump,
{
    if bump > 0 {
        match spec_create_program_address(seeds.push(seq![bump as u8]), program_id) {
            Some(_) => {},
            None => lemma_found_bump_recreates(seeds, program_id, (bump - 1) as nat),
        }
    }
}

/// A state account that initialization accepted is recognized by the later
/// instructions: the address check they make with the recorded deal id and bump
/// passes for the same sender.
pub proof fn lemma_opened_state_account_is_recognized(
    i: Initialize,
    program_id: Seq<u8>,
    deal_id: u64,
    e: EscrowAccountView,
)
    requires
        i.spec_escrow_bump(program_id, deal_id) is Ok,
        e.info.key == i.escrow.key,
        e.state.deal_id == deal_id,
        e.state.bump == i.spec_escrow_bump(program_id, deal_id)->Ok_0,
    ensures
        spec_escrow_address_matches(e, i.sender.key, program_id),
{
    let seeds = spec_escrow_seeds(i.sender.key@, deal_id);
    lemma_found_bump_recreates(seeds, program_id, 255);
}

/// Different deals have different state account seeds: the seeds determine the
/// sender and the deal id. The vault seeds of any account differ from every
/// state account's seeds.
pub proof fn lemma_deal_seeds_are_distinct(s1: Address, id1: u64, s2: Address, id2: u64, escrow: Address)
    ensures
        spec_escrow_seeds(s1@, id1) == spec_escrow_seeds(s2@, id2) ==> s1 == s2 && id1 == id2,
        spec_vault_seeds(escrow@) != spec_escrow_seeds(s1@, id1),
{
    vstd::bytes::lemma_auto_spec_u64_to_from_le_bytes();
    if spec_escrow_seeds(s1@, id1) == spec_escrow_seeds(s2@, id2) {
        assert(spec_escrow_seeds(s1@, id1)[1] == spec_escrow_seeds(s2@, id2)[1]);
        assert(spec_escrow_seeds(s1@, id1)[2] == spec_escrow_seeds(s2@, id2)[2]);
        assert(s1.bytes =~= s2.bytes);
    }
    assert(spec_vault_seeds(escrow@).len() != spec_escrow_seeds(s1@, id1).len());
}

/// The seeds that release and cancellation sign their token calls with derive
/// the deal's state account, the authority of those calls, once the accounts
/// pass their checks.
pub proof fn lemma_signer_seeds_derive_the_state_account(r: Release, c: Cancel, program_id: Seq<u8>)
    ensures
        r.spec_validate(program_id) is Ok ==> spec_create_program_address(
            spec_state_signer_seeds(r.escrow.state),
            program_id,
        ) == Some(r.escrow.info.key@),
        c.spec_validate(program_id) is Ok ==> spec_create_program_address(
            spec_state_signer_seeds(c.escrow.state),
            program_id,
        ) == Some(c.escrow.info.key@),
        release::spec_handler(r) is Ok ==> release::spec_handler(r)->Ok_0.authority == r.escrow.info.key,
        (cancel::spec_handler(c) matches Ok(Some(_))) ==> cancel::spec_handler(c)->Ok_0->Some_0.authority == c.escrow.info.key,
{
}

/// A deal that initialization opens lives at the canonical program address of
/// `[b"escrow", sender, deal_id]` and records that address's bump, its vault is
/// the canonical program address of `[b"vault", state account]`, and the seeds
/// the program later signs with for the deal derive its state account.
pub proof fn lemma_initialize_uses_canonical_addresses(a: Initialize, program_id: Seq<u8>, deal_id: u64, amount: u64)
    requires
        initialize::spec_initialize(a, program_id, deal_id, amount) is Ok,
    ensures
        ({
            let s = initialize::spec_initialize(a, program_id, deal_id, amount)->Ok_0;
            &&& spec_find_program_address(spec_escrow_seeds(a.sender.key@, deal_id), program_id)
                == Some((a.escrow.key@, s.bump))
            &&& spec_find_program_address(spec_vault_seeds(a.escrow.key@), program_id) is Some
            &&& spec_find_program_address(spec_vault_seeds(a.escrow.key@), program_id)->Some_0.0 == a.vault.key@
            &&& spec_create_program_address(spec_state_signer_seeds(s), program_id) == Some(a.escrow.key@)
            &&& s.sender == a.sender.key
            &&& s.status == EscrowStatus::Created
        }),
{
    let seeds = spec_escrow_seeds(a.sender.key@, deal_id);
    lemma_found_bump_recreates(seeds, program_id, 255);
}

/// Whether two states record the same deal: the same parties, mint, amount,
/// deal id and bump, whatever their statuses.
pub open spec fn spec_same_terms(x: EscrowState, y: EscrowState) -> bool {
    &&& x.sender == y.sender
    &&& x.receiver == y.receiver
    &&& x.mint == y.mint
    &&& x.amount == y.amount
    &&& x.deal_id == y.deal_id
    &&& x.bump == y.bump
}

/// Initialization accepts every positive amount and refuses only zero, and the
/// deal it records is the one asked for: the accounts' sender, receiver and
/// mint, the instruction's amount and deal id, the given bump, status
/// `Created`.
pub proof fn lemma_initialize_records_the_requested_deal(a: Initialize, deal_id: u64, amount: u64, escrow_bump: u8)
    ensures
        amount > 0 ==> (initialize::spec_handler(a, deal_id, amount, escrow_bump) matches Ok(s) && {
            &&& s.sender == a.sender.key
            &&& s.receiver == a.receiver.key
            &&& s.mint == a.mint.info.key
            &&& s.amount == amount
            &&& s.deal_id == deal_id
            &&& s.bump == escrow_bump
            &&& s.status == EscrowStatus::Created
        }),
        amount == 0 ==> initialize::spec_handler(a, deal_id, amount, escrow_bump)
            == Err::<EscrowState, EscrowError>(EscrowError::AmountMustBePositive),
{
}

/// A deposit is accepted exactly for a `Created` deal with an empty vault, and
/// asks for a transfer of the deal's amount, in the decimals of the mint account
/// given, from the sender's token account into the vault on the sender's
/// authority. Once the vault holds exactly that amount the deal is `Funded` with
/// its terms unchanged; any other balance is refused.
pub proof fn lemma_deposit_transfer_is_exact(a: Deposit, vault_amount: u64)
    ensures
        deposit::spec_handler(a) is Ok <==> (a.escrow.state.status == EscrowStatus::Created && a.vault.amount == 0),
        deposit::spec_handler(a) matches Ok(t) ==> {
            &&& t.from == a.sender_token_account.info.key
            &&& t.to == a.vault.info.key
            &&& t.mint == a.mint.info.key
            &&& t.authority == a.sender.key
            &&& t.amount == a.escrow.state.amount
            &&& t.decimals == a.mint.decimals
        },
        vault_amount == a.escrow.state.amount ==> (deposit::spec_complete(a, vault_amount) matches Ok(s)
            && s.status == EscrowStatus::Funded && spec_same_terms(s, a.escrow.state)),
        vault_amount != a.escrow.state.amount ==> deposit::spec_complete(a, vault_amount)
            == Err::<EscrowState, EscrowError>(EscrowError::UnexpectedVaultBalance),
{
}

/// A release is accepted exactly for a `Funded` deal whose vault holds the
/// deal's amount, and asks for a payout of that amount, in the decimals of the
/// mint account given, from the vault to the receiver's token account on the
/// state account's authority. Once the vault is empty it always completes: the
/// deal is `Released` with its terms unchanged, and the vault and the state
/// account are closed to the sender.
pub proof fn lemma_release_payout_is_exact(a: Release, vault_amount: u64)
    ensures
        release::spec_handler(a) is Ok <==> (a.escrow.state.status == EscrowStatus::Funded
            && a.vault.amount == a.escrow.state.amount),
        release::spec_handler(a) matches Ok(t) ==> {
            &&& t.from == a.vault.info.key
            &&& t.to == a.receiver_token_account.info.key
            &&& t.mint == a.mint.info.key
            &&& t.authority == a.escrow.info.key
            &&& t.amount == a.escrow.state.amount
            &&& t.decimals == a.mint.decimals
        },
        vault_amount == 0 ==> (release::spec_complete(a, vault_amount) matches Ok(s) && {
            &&& s.state.status == EscrowStatus::Released
            &&& spec_same_terms(s.state, a.escrow.state)
            &&& s.close_vault.account == a.vault.info.key
            &&& s.close_vault.destination == a.sender.key
            &&& s.close_vault.authority == a.escrow.info.key
            &&& s.close_state_to == a.sender.key
        }),
        vault_amount != 0 ==> release::spec_complete(a, vault_amount)
            == Err::<crate::accounts::Settlement, EscrowError>(EscrowError::VaultNotEmpty),
{
}

/// A cancellation is accepted exactly for a `Created` or `Funded` deal; it asks
/// for a refund of everything the vault holds, in the decimals of the mint
/// account given, from the vault to the sender's token account on the state
/// account's authority, and for none when the vault is empty. Once the vault is
/// empty it always completes, funded or not: the deal is `Cancelled` with its
/// terms unchanged, and the vault and the state account are closed to the
/// sender.
pub proof fn lemma_cancel_refund_is_exact(a: Cancel, vault_amount: u64)
    ensures
        cancel::spec_handler(a) is Ok <==> (a.escrow.state.status == EscrowStatus::Created
            || a.escrow.state.status == EscrowStatus::Funded),
        (cancel::spec_handler(a) is Ok && a.vault.amount == 0) ==> cancel::spec_handler(a)
            == Ok::<Option<crate::accounts::TransferChecked>, EscrowError>(None),
        cancel::spec_handler(a) matches Ok(Some(t)) ==> {
            &&& a.vault.amount > 0
            &&& t.from == a.vault.info.key
            &&& t.to == a.sender_token_account.info.key
            &&& t.mint == a.mint.info.key
            &&& t.authority == a.escrow.info.key
            &&& t.amount == a.vault.amount
            &&& t.decimals == a.mint.decimals
        },
        (cancel::spec_handler(a) is Ok && vault_amount == 0) ==> (cancel::spec_complete(a, vault_amount) matches Ok(s) && {
            &&& s.state.status == EscrowStatus::Cancelled
            &&& spec_same_terms(s.state, a.escrow.state)
            &&& s.close_vault.account == a.vault.info.key
            &&& s.close_vault.destination == a.sender.key
            &&& s.close_vault.authority == a.escrow.info.key
            &&& s.close_state_to == a.sender.key
        }),
        vault_amount != 0 ==> cancel::spec_complete(a, vault_amount)
            == Err::<crate::accounts::Settlement, EscrowError>(EscrowError::VaultNotEmpty),
{
}

/// One instruction of a run, with the vault balance read after its token call.
#[allow(inconsistent_fields)]
#[derive(Clone, Copy, Debug, PartialEq, Eq)]
pub enum Call {
    Initialize { accounts: Initialize, deal_id: u64, amount: u64 },
    Deposit { accounts: Deposit, vault_amount: u64 },
    Release { accounts: Release, vault_amount: u64 },
    Cancel { accounts: Cancel, vault_amount: u64 },
}

/// The deals that exist on the ledger: for each state account, its deal and
/// the number of deposits that went through since it was opened.
pub type Deals = Map<Address, (EscrowState, nat)>;

/// What an instruction that goes through does to the deals, or nothing where it
/// is refused (and so undone): initialization opens a deal (the system program
/// refuses an address in use), a deposit funds one, a release or cancellation
/// closes it. A call whose state account view is not what the ledger holds is
/// not one the ledger hands out, and counts as refused.
pub open spec fn spec_step(deals: Deals, program_id: Seq<u8>, call: Call) -> Option<Deals> {
    match call {
        Call::Initialize { accounts: a, deal_id, amount } => {
            if deals.contains_key(a.escrow.key) {
                None
            } else {
                match initialize::spec_initialize(a, program_id, deal_id, amount) {
                    Ok(s) => Some(deals.insert(a.escrow.key, (s, 0nat))),
                    Err(_) => None,
                }
            }
        },
        Call::Deposit { accounts: a, vault_amount } => {
            let k = a.escrow.info.key;
            if !deals.contains_key(k) || deals[k].0 != a.escrow.state || a.spec_validate(program_id) is Err
                || deposit::spec_handler(a) is Err {
                None
            } else {
                match deposit::spec_complete(a, vault_amount) {
                    Ok(s) => Some(deals.insert(k, (s, deals[k].1 + 1))),
                    Err(_) => None,
                }
            }
        },
        Call::Release { accounts: a, vault_amount } => {
            let k = a.escrow.info.key;
            if !deals.contains_key(k) || deals[k].0 != a.escrow.state || a.spec_validate(program_id) is Err
                || release::spec_handler(a) is Err || release::spec_complete(a, vault_amount) is Err {
                None
            } else {
                Some(deals.remove(k))
            }
        },
        Call::Cancel { accounts: a, vault_amount } => {
            let k = a.escrow.info.key;
            if !deals.contains_key(k) || deals[k].0 != a.escrow.state || a.spec_validate(program_id) is Err
                || cancel::spec_handler(a) is Err || cancel::spec_complete(a, vault_amount) is Err {
                None
            } else {
                Some(deals.remove(k))
            }
        },
    }
}

/// The deals after a run of instructions: each one that goes through changes
/// them, each refused one leaves them as they were.
pub open spec fn spec_run(deals: Deals, program_id: Seq<u8>, calls: Seq<Call>) -> Deals
    decreases calls.len(),
{
    if calls.len() == 0 {
        deals
    } else {
        let next = match spec_step(deals, program_id, calls[0]) {
            Some(d) => d,
            None => deals,
        };
        spec_run(next, program_id, calls.drop_first())
    }
}

/// Every existing deal is `Created` and was never funded, or `Funded` by
/// exactly one deposit.
pub open spec fn spec_deals_consistent(deals: Deals) -> bool {
    forall|k: Address| #[trigger] deals.contains_key(k) ==> {
        ||| deals[k].0.status == EscrowStatus::Created && deals[k].1 == 0
        ||| deals[k].0.status == EscrowStatus::Funded && deals[k].1 == 1
    }
}

/// A single instruction keeps the deals consistent.
pub proof fn lemma_step_keeps_deals_consistent(deals: Deals, program_id: Seq<u8>, call: Call)
    requires
        spec_deals_consistent(deals),
    ensures
        spec_step(deals, program_id, call) matches Some(d) ==> spec_deals_consistent(d),
{
    match spec_step(deals, program_id, call) {
        Some(d) => {
            assert forall|k: Address| #[trigger] d.contains_key(k) implies {
                ||| d[k].0.status == EscrowStatus::Created && d[k].1 == 0
                ||| d[k].0.status == EscrowStatus::Funded && d[k].1 == 1
            } by {
                if deals.contains_key(k) {
                    assert(deals.contains_key(k));
                }
            }
        },
        None => {},
    }
}

/// Over any run of instructions, every deal that exists is `Created` and
/// unfunded, or `Funded` by exactly one deposit: a released or cancelled deal
/// never stays on the ledger.
pub proof fn lemma_run_keeps_deals_consistent(deals: Deals, program_id: Seq<u8>, calls: Seq<Call>)
    requires
        spec_deals_consistent(deals),
    ensures
        spec_deals_consistent(spec_run(deals, program_id, calls)),
    decreases calls.len(),
{
    if calls.len() > 0 {
        lemma_step_keeps_deals_consistent(deals, program_id, calls[0]);
        let next = match spec_step(deals, program_id, calls[0]) {
            Some(d) => d,
            None => deals,
        };
        lemma_run_keeps_deals_consistent(next, program_id, calls.drop_first());
    }
}

/// A run extended by one call is the run followed by that call.
pub proof fn lemma_run_then_step(deals: Deals, program_id: Seq<u8>, calls: Seq<Call>, call: Call)
    ensures
        spec_run(deals, program_id, calls.push(call)) == match spec_step(spec_run(deals, program_id, calls), program_id, call) {
            Some(d) => d,
            None => spec_run(deals, program_id, calls),
        },
    decreases calls.len(),
{
    if calls.len() == 0 {
        assert(calls.push(call).drop_first() =~= Seq::<Call>::empty());
        assert(calls.push(call)[0] == call);
        let next = match spec_step(deals, program_id, call) {
            Some(d) => d,
            None => deals,
        };
        assert(spec_run(next, program_id, Seq::<Call>::empty()) == next);
    } else {
        assert(calls.push(call)[0] == calls[0]);
        let next = match spec_step(deals, program_id, calls[0]) {
            Some(d) => d,
            None => deals,
        };
        assert(calls.push(call).drop_first() =~= calls.drop_first().push(call));
        lemma_run_then_step(next, program_id, calls.drop_first(), call);
    }
}

/// When a run ends with a release or a cancellation that goes through, its
/// deal no longer exists, and every deal that does is `Created` or `Funded`.
pub proof fn lemma_run_ending_in_settlement(deals: Deals, program_id: Seq<u8>, calls: Seq<Call>, last: Call)
    requires
        spec_deals_consistent(deals),
        last is Release || last is Cancel,
        spec_step(spec_run(deals, program_id, calls), program_id, last) is Some,
    ensures
        ({
            let end = spec_run(deals, program_id, calls.push(last));
            &&& !end.contains_key(match last {
                Call::Release { accounts, .. } => accounts.escrow.info.key,
                Call::Cancel { accounts, .. } => accounts.escrow.info.key,
                Call::Initialize { accounts, .. } => accounts.escrow.key,
                Call::Deposit { accounts, .. } => accounts.escrow.info.key,
            })
            &&& forall|k: Address| #[trigger] end.contains_key(k) ==> (end[k].0.status == EscrowStatus::Created
                || end[k].0.status == EscrowStatus::Funded)
        }),
{
    lemma_run_then_step(deals, program_id, calls, last);
    lemma_run_keeps_deals_consistent(deals, program_id, calls.push(last));
}

} // verus!
