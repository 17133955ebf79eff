//! Program derived addresses: the seeds of the escrow's own accounts and the
//! address searches that the account checks perform.

use vstd::prelude::*;
use vstd::bytes::{spec_u64_to_le_bytes, u64_to_le_bytes};
use crate::state::EscrowState;
use crate::address::{Address, associated_token_program_id, spec_associated_token_program_id};

verus! {

/// Most seeds a program address may be derived from.
pub const MAX_SEEDS: usize = 16;

/// Longest seed a program address may be derived from.
pub const MAX_SEED_LEN: usize = 32;

/// What `Pubkey::create_program_address` yields for the given seeds and
/// program: the derived address, or nothing when the seeds are rejected.
pub uninterp spec fn spec_create_program_address(seeds: Seq<Seq<u8>>, program_id: Seq<u8>) -> Option<Seq<u8>>;

/// The seeds as byte sequences.
pub open spec fn seeds_view(seeds: Vec<Vec<u8>>) -> Seq<Seq<u8>> {
    seeds@.map_values(|s: Vec<u8>| s@)
}

/// Whether some seed is longer than a seed may be.
pub open spec fn has_long_seed(seeds: Seq<Seq<u8>>) -> bool {
    exists|i: int| 0 <= i < seeds.len() && #[trigger] seeds[i].len() > MAX_SEED_LEN
}

/// The view of an optional address.
pub open spec fn opt_address_view(o: Option<Address>) -> Option<Seq<u8>> {
    match o {
        Some(a) => Some(a@),
        None => None,
    }
}

/// The view of an optional address found together with its bump.
pub open spec fn opt_found_view(o: Option<(Address, u8)>) -> Option<(Seq<u8>, u8)> {
    match o {
        Some((a, b)) => Some((a@, b)),
        None => None,
    }
}

/// The search that `Pubkey::try_find_program_address` performs: each bump from
/// `bump` down to 1 is appended to the seeds as a one-byte seed, and the first one
/// for which a program address exists is taken.
pub open spec fn spec_find_from(seeds: Seq<Seq<u8>>, program_id: Seq<u8>, bump: nat) -> Option<(Seq<u8>, u8)>
    decreases bump,
{
    if bump == 0 {
        None
    } else {
        match spec_create_program_address(seeds.push(seq![bump as u8]), program_id) {
            Some(a) => Some((a, bump as u8)),
            None => spec_find_from(seeds, program_id, (bump - 1) as nat),
        }
    }
}

/// The canonical program address of the seeds and its bump: the search starts at
/// bump 255; with sixteen seeds or more nothing is found.
pub open spec fn spec_find_program_address(seeds: Seq<Seq<u8>>, program_id: Seq<u8>) -> Option<(Seq<u8>, u8)> {
    if seeds.len() >= MAX_SEEDS {
        None
    } else {
        spec_find_from(seeds, program_id, 255)
    }
}

/// Copies the seeds into borrowed slices, the form the address functions take.
fn seed_slices(seeds: &Vec<Vec<u8>>) -> (r: Vec<&[u8]>)
    ensures
        r@.len() == seeds@.len(),
        forall|j: int| 0 <= j < r@.len() ==> #[trigger] r@[j]@ == seeds@[j]@,
{
    let mut out: Vec<&[u8]> = Vec::new();
    let mut i: usize = 0;
    while i < seeds.len()
        invariant
            0 <= i <= seeds.len(),
            out@.len() == i,
            forall|j: int| 0 <= j < i ==> #[trigger] out@[j]@ == seeds@[j]@,
        decreases seeds.len() - i,
    {
        out.push(seeds[i].as_slice());
        i = i + 1;
    }
    out
}

/// Calls `Pubkey::create_program_address`. The contract names the derived address
/// (a SHA-256 hash of the seeds and the program, refused when it lies on the
/// ed25519 curve) and states, as the function's source shows, that too many or
/// too long seeds give no address.
#[verifier::external_body]
fn create_program_address(seeds: &Vec<Vec<u8>>, program_id: &Address) -> (r: Option<Address>)
    ensures
        opt_address_view(r) == spec_create_program_address(seeds_view(*seeds), program_id@),
        (seeds.len() > MAX_SEEDS || has_long_seed(seeds_view(*seeds))) ==> r is None,
{
    let slices = seed_slices(seeds);
    let pid = anchor_lang::prelude::Pubkey::new_from_array(program_id.bytes);
    match anchor_lang::prelude::Pubkey::create_program_address(&slices, &pid) {
        Ok(a) => Some(Address { bytes: a.to_bytes() }),
        Err(_) => None,
    }
}

/// Calls `Pubkey::try_find_program_address`. Its source tries the bumps from 255
/// down to 1, each appended to the seeds as a one-byte seed, returns the first
/// address that `create_program_address` accepts together with its bump, and
/// returns nothing with sixteen seeds or more or when no bump is accepted.
#[verifier::external_body]
fn try_find_program_address(seeds: &Vec<Vec<u8>>, program_id: &Address) -> (r: Option<(Address, u8)>)
    ensures
        opt_found_view(r) == spec_find_program_address(seeds_view(*seeds), program_id@),
{
    let slices = seed_slices(seeds);
    let pid = anchor_lang::prelude::Pubkey::new_from_array(program_id.bytes);
    match anchor_lang::prelude::Pubkey::try_find_program_address(&slices, &pid) {
        Some((a, b)) => Some((Address { bytes: a.to_bytes() }, b)),
        None => None,
    }
}

/// The address derived from the seeds with the given bump appended, if any.
pub fn program_address_with_bump(seeds: Vec<Vec<u8>>, bump: u8, program_id: &Address) -> (r: Option<Address>)
    ensures
        opt_address_view(r) == spec_create_program_address(seeds_view(seeds).push(seq![bump]), program_id@),
{
    let mut with_bump = seeds;
    let mut b: Vec<u8> = Vec::new();
    b.push(bump);
    with_bump.push(b);
    proof {
        assert(seeds_view(with_bump) =~= seeds_view(seeds).push(seq![bump]));
    }
    create_program_address(&with_bump, program_id)
}

/// The canonical program address of the seeds and its bump, if there is one.
pub fn find_program_address(seeds: &Vec<Vec<u8>>, program_id: &Address) -> (r: Option<(Address, u8)>)
    ensures
        opt_found_view(r) == spec_find_program_address(seeds_view(*seeds), program_id@),
{
    try_find_program_address(seeds, program_id)
}

/// The seed bytes `b"escrow"`.
pub open spec fn escrow_tag() -> Seq<u8> {
    seq![101u8, 115, 99, 114, 111, 119]
}

/// The seed bytes `b"vault"`.
pub open spec fn vault_tag() -> Seq<u8> {
    seq![118u8, 97, 117, 108, 116]
}

/// The seeds of a deal's state account: `[b"escrow", sender, deal_id.to_le_bytes()]`.
pub open spec fn spec_escrow_seeds(sender: Seq<u8>, deal_id: u64) -> Seq<Seq<u8>> {
    seq![escrow_tag(), sender, spec_u64_to_le_bytes(deal_id)]
}

/// The seeds of a deal's vault: `[b"vault", escrow]`.
pub open spec fn spec_vault_seeds(escrow: Seq<u8>) -> Seq<Seq<u8>> {
    seq![vault_tag(), escrow]
}

/// The seeds of an associated token account: `[wallet, token_program, mint]`.
pub open spec fn spec_associated_token_seeds(wallet: Seq<u8>, mint: Seq<u8>, token_program: Seq<u8>) -> Seq<Seq<u8>> {
    seq![wallet, token_program, mint]
}

/// The seeds of a deal's state account.
pub fn escrow_seeds(sender: &Address, deal_id: u64) -> (r: Vec<Vec<u8>>)
    ensures
        seeds_view(r) == spec_escrow_seeds(sender@, deal_id),
{
    let mut tag: Vec<u8> = Vec::new();
    tag.push(101u8);
    tag.push(115u8);
    tag.push(99u8);
    tag.push(114u8);
    tag.push(111u8);
    tag.push(119u8);
    let mut r: Vec<Vec<u8>> = Vec::new();
    r.push(tag);
    r.push(sender.to_vec());
    r.push(u64_to_le_bytes(deal_id));
    proof {
        assert(r@[0]@ =~= escrow_tag());
        assert(seeds_view(r) =~= spec_escrow_seeds(sender@, deal_id));
    }
    r
}

/// The seeds with which the program signs for a deal's state account: the
/// account's seeds and its recorded bump.
pub fn escrow_signer_seeds(sender: &Address, deal_id: u64, bump: u8) -> (r: Vec<Vec<u8>>)
    ensures
        seeds_view(r) == spec_escrow_seeds(sender@, deal_id).push(seq![bump]),
{
    let mut r = escrow_seeds(sender, deal_id);
    let mut b: Vec<u8> = Vec::new();
    b.push(bump);
    r.push(b);
    proof {
        assert(seeds_view(r) =~= spec_escrow_seeds(sender@, deal_id).push(seq![bump]));
    }
    r
}

/// The seeds with which the program signs for a deal's state account: its seeds
/// and the bump recorded in the deal.
pub open spec fn spec_state_signer_seeds(s: EscrowState) -> Seq<Seq<u8>> {
    spec_escrow_seeds(s.sender@, s.deal_id).push(seq![s.bump])
}

/// The seeds with which the program signs for a deal's state account.
pub fn state_signer_seeds(s: &EscrowState) -> (r: Vec<Vec<u8>>)
    ensures
        seeds_view(r) == spec_state_signer_seeds(*s),
{
    escrow_signer_seeds(&s.sender, s.deal_id, s.bump)
}

/// The seeds of a deal's vault.
pub fn vault_seeds(escrow: &Address) -> (r: Vec<Vec<u8>>)
    ensures
        seeds_view(r) == spec_vault_seeds(escrow@),
{
    let mut tag: Vec<u8> = Vec::new();
    tag.push(118u8);
    tag.push(97u8);
    tag.push(117u8);
    tag.push(108u8);
    tag.push(116u8);
    let mut r: Vec<Vec<u8>> = Vec::new();
    r.push(tag);
    r.push(escrow.to_vec());
    proof {
        assert(r@[0]@ =~= vault_tag());
        assert(seeds_view(r) =~= spec_vault_seeds(escrow@));
    }
    r
}

/// The seeds with which the program signs for a deal's vault when it creates
/// it: the vault's seeds and its bump.
pub fn vault_signer_seeds(escrow: &Address, bump: u8) -> (r: Vec<Vec<u8>>)
    ensures
        seeds_view(r) == spec_vault_seeds(escrow@).push(seq![bump]),
{
    let mut r = vault_seeds(escrow);
    let mut b: Vec<u8> = Vec::new();
    b.push(bump);
    r.push(b);
    proof {
        assert(seeds_view(r) =~= spec_vault_seeds(escrow@).push(seq![bump]));
    }
    r
}

/// The canonical associated token account of `wallet` for `mint` under
/// `token_program`: the program address of `[wallet, token_program, mint]` under
/// the associated token account program, as
/// `get_associated_token_address_with_program_id` computes it.
pub open spec fn spec_associated_token_address(wallet: Seq<u8>, mint: Seq<u8>, token_program: Seq<u8>) -> Option<Seq<u8>> {
    match spec_find_program_address(
        spec_associated_token_seeds(wallet, mint, token_program),
        spec_associated_token_program_id(),
    ) {
        Some((a, _)) => Some(a),
        None => None,
    }
}

/// The canonical associated token account of `wallet` for `mint`, if one exists.
pub fn associated_token_address(wallet: &Address, mint: &Address, token_program: &Address) -> (r: Option<Address>)
    ensures
        opt_address_view(r) == spec_associated_token_address(wallet@, mint@, token_program@),
{
    let mut seeds: Vec<Vec<u8>> = Vec::new();
    seeds.push(wallet.to_vec());
    seeds.push(token_program.to_vec());
    seeds.push(mint.to_vec());
    proof {
        assert(seeds_view(seeds) =~= spec_associated_token_seeds(wallet@, mint@, token_program@));
    }
    match find_program_address(&seeds, &associated_token_program_id()) {
        Some((a, _)) => Some(a),
        None => None,
    }
}

} // verus!
