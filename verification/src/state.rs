//! The record kept for each deal, and its encoding in the deal's state account.

use vstd::prelude::*;
use vstd::bytes::{spec_u64_to_le_bytes, spec_u64_from_le_bytes, u64_to_le_bytes, u64_from_le_bytes};
use crate::address::Address;
use crate::error::{FrameworkError, InstructionError};

verus! {

/// Where a deal stands.
#[derive(Clone, Copy, Debug, PartialEq, Eq, Structural)]
pub enum EscrowStatus {
    Created,
    Funded,
    Released,
    Cancelled,
}

/// The terms and the status of one deal.
#[derive(Clone, Copy, Debug, PartialEq, Eq)]
pub struct EscrowState {
    pub sender: Address,
    pub receiver: Address,
    pub mint: Address,
    pub amount: u64,
    pub deal_id: u64,
    pub bump: u8,
    pub status: EscrowStatus,
}

/// The eight bytes that open an encoded state: the first eight bytes of the
/// SHA-256 hash of `account:EscrowState`.
pub open spec fn spec_discriminator() -> Seq<u8> {
    seq![19u8, 90, 148, 111, 55, 130, 229, 108]
}

/// Length of the encoded record after the discriminator.
pub const INIT_SPACE: usize = 114;

/// Length of an encoded state, discriminator included.
pub const STATE_LEN: usize = 122;

/// The byte that encodes a status: its position in the declaration.
pub open spec fn spec_status_byte(s: EscrowStatus) -> u8 {
    match s {
        EscrowStatus::Created => 0,
        EscrowStatus::Funded => 1,
        EscrowStatus::Released => 2,
        EscrowStatus::Cancelled => 3,
    }
}

/// The status a byte encodes, if any.
pub open spec fn spec_status_of_byte(b: u8) -> Option<EscrowStatus> {
    if b == 0 {
        Some(EscrowStatus::Created)
    } else if b == 1 {
        Some(EscrowStatus::Funded)
    } else if b == 2 {
        Some(EscrowStatus::Released)
    } else if b == 3 {
        Some(EscrowStatus::Cancelled)
    } else {
        None
    }
}

/// The encoding of a state: the discriminator, then the fields in declaration
/// order, addresses as their 32 bytes, integers little-endian, the status as one
/// byte.
pub open spec fn spec_serialize(s: EscrowState) -> Seq<u8> {
    spec_discriminator() + s.sender@ + s.receiver@ + s.mint@ + spec_u64_to_le_bytes(s.amount)
        + spec_u64_to_le_bytes(s.deal_id) + seq![s.bump] + seq![spec_status_byte(s.status)]
}

/// Why the bytes do not decode to a state, if they do not: too short for the
/// discriminator, another discriminator, or too short or a status byte out of
/// range for the record. Bytes after the record are ignored.
pub open spec fn spec_deserialize_error(d: Seq<u8>) -> Option<InstructionError> {
    if d.len() < 8 {
        Some(InstructionError::Framework(FrameworkError::AccountDiscriminatorNotFound))
    } else if d.subrange(0, 8) != spec_discriminator() {
        Some(InstructionError::Framework(FrameworkError::AccountDiscriminatorMismatch))
    } else if d.len() < STATE_LEN || spec_status_of_byte(d[121]) is None {
        Some(InstructionError::Framework(FrameworkError::AccountDidNotDeserialize))
    } else {
        None
    }
}

/// Whether `s` is the state that the bytes encode.
pub open spec fn spec_decodes_to(d: Seq<u8>, s: EscrowState) -> bool {
    &&& s.sender@ == d.subrange(8, 40)
    &&& s.receiver@ == d.subrange(40, 72)
    &&& s.mint@ == d.subrange(72, 104)
    &&& s.amount == spec_u64_from_le_bytes(d.subrange(104, 112))
    &&& s.deal_id == spec_u64_from_le_bytes(d.subrange(112, 120))
    &&& s.bump == d[120]
    &&& spec_status_of_byte(d[121]) == Some(s.status)
}

/// Appends the bytes to the vector.
fn push_bytes(out: &mut Vec<u8>, bytes: &[u8])
    ensures
        final(out)@ == old(out)@ + bytes@,
{
    let mut i: usize = 0;
    while i < bytes.len()
        invariant
            0 <= i <= bytes.len(),
            out@ == old(out)@ + bytes@.subrange(0, i as int),
        decreases bytes.len() - i,
    {
        out.push(bytes[i]);
        i = i + 1;
        proof {
            assert(bytes@.subrange(0, i as int) =~= bytes@.subrange(0, i - 1) + seq![bytes@[i - 1]]);
        }
    }
    assert(bytes@.subrange(0, bytes@.len() as int) =~= bytes@);
}

/// Reads 32 bytes at `at` as an address.
fn address_at(data: &[u8], at: usize) -> (r: Address)
    requires
        at + 32 <= data@.len(),
    ensures
        r@ == data@.subrange(at as int, at + 32),
{
    let mut bytes = [0u8; 32];
    let mut i: usize = 0;
    while i < 32
        invariant
            0 <= i <= 32,
            at + 32 <= data@.len(),
            data@.len() == data.len(),
            forall|j: int| 0 <= j < i ==> bytes@[j] == data@[at + j],
        decreases 32 - i,
    {
        bytes[i] = data[at + i];
        i = i + 1;
    }
    let r = Address { bytes };
    assert(r@ =~= data@.subrange(at as int, at + 32));
    r
}

/// Whether the first eight bytes are the discriminator.
fn has_discriminator(data: &[u8]) -> (r: bool)
    requires
        data@.len() >= 8,
    ensures
        r == (data@.subrange(0, 8) == spec_discriminator()),
{
    let ok = data[0] == 19u8 && data[1] == 90u8 && data[2] == 148u8 && data[3] == 111u8
        && data[4] == 55u8 && data[5] == 130u8 && data[6] == 229u8 && data[7] == 108u8;
    if ok {
        assert(data@.subrange(0, 8) =~= spec_discriminator());
    } else {
        assert(data@.subrange(0, 8) != spec_discriminator()) by {
            let d = data@.subrange(0, 8);
            if d == spec_discriminator() {
                assert(d[0] == 19u8 && d[1] == 90u8 && d[2] == 148u8 && d[3] == 111u8);
                assert(d[4] == 55u8 && d[5] == 130u8 && d[6] == 229u8 && d[7] == 108u8);
            }
        }
    }
    ok
}

/// The status that a byte encodes, if any.
fn status_of_byte(b: u8) -> (r: Option<EscrowStatus>)
    ensures
        r == spec_status_of_byte(b),
{
    if b == 0 {
        Some(EscrowStatus::Created)
    } else if b == 1 {
        Some(EscrowStatus::Funded)
    } else if b == 2 {
        Some(EscrowStatus::Released)
    } else if b == 3 {
        Some(EscrowStatus::Cancelled)
    } else {
        None
    }
}

impl EscrowStatus {
    /// The byte that encodes the status.
    pub fn to_byte(&self) -> (r: u8)
        ensures
            r == spec_status_byte(*self),
    {
        match self {
            EscrowStatus::Created => 0,
            EscrowStatus::Funded => 1,
            EscrowStatus::Released => 2,
            EscrowStatus::Cancelled => 3,
        }
    }
}

impl EscrowState {
    /// The same deal with another status.
    pub open spec fn with_status(self, status: EscrowStatus) -> EscrowState {
        EscrowState { status, ..self }
    }

    /// The discriminator that opens the encoding of a state.
    pub fn discriminator() -> (r: [u8; 8])
        ensures
            r@ == spec_discriminator(),
    {
        let r = [19u8, 90, 148, 111, 55, 130, 229, 108];
        assert(r@ =~= spec_discriminator());
        r
    }

    /// Encodes the state as it is stored in the deal's state account.
    pub fn try_serialize(&self) -> (r: Vec<u8>)
        ensures
            r@ == spec_serialize(*self),
            r@.len() == STATE_LEN,
    {
        let mut out: Vec<u8> = Vec::new();
        let disc = EscrowState::discriminator();
        push_bytes(&mut out, disc.as_slice());
        push_bytes(&mut out, self.sender.bytes.as_slice());
        push_bytes(&mut out, self.receiver.bytes.as_slice());
        push_bytes(&mut out, self.mint.bytes.as_slice());
        let amount = u64_to_le_bytes(self.amount);
        push_bytes(&mut out, amount.as_slice());
        let deal_id = u64_to_le_bytes(self.deal_id);
        push_bytes(&mut out, deal_id.as_slice());
        out.push(self.bump);
        out.push(self.status.to_byte());
        proof {
            vstd::bytes::lemma_auto_spec_u64_to_from_le_bytes();
            assert(out@ =~= spec_serialize(*self));
        }
        out
    }

    /// Decodes a state account's data: checks the discriminator, then reads the
    /// record; bytes after the record are ignored.
    pub fn try_deserialize(data: &[u8]) -> (r: Result<EscrowState, InstructionError>)
        ensures
            match r {
                Ok(s) => spec_deserialize_error(data@) is None && spec_decodes_to(data@, s),
                Err(e) => spec_deserialize_error(data@) == Some(e),
            },
    {
        if data.len() < 8 {
            return Err(InstructionError::Framework(FrameworkError::AccountDiscriminatorNotFound));
        }
        if !has_discriminator(data) {
            return Err(InstructionError::Framework(FrameworkError::AccountDiscriminatorMismatch));
        }
        if data.len() < STATE_LEN {
            return Err(InstructionError::Framework(FrameworkError::AccountDidNotDeserialize));
        }
        let status = match status_of_byte(data[121]) {
            Some(s) => s,
            None => {
                return Err(InstructionError::Framework(FrameworkError::AccountDidNotDeserialize));
            },
        };
        let sender = address_at(data, 8);
        let receiver = address_at(data, 40);
        let mint = address_at(data, 72);
        let amount = u64_from_le_bytes(vstd::slice::slice_subrange(data, 104, 112));
        let deal_id = u64_from_le_bytes(vstd::slice::slice_subrange(data, 112, 120));
        Ok(EscrowState { sender, receiver, mint, amount, deal_id, bump: data[120], status })
    }
}

/// The encoding of a state decodes to that state and to no other.
pub proof fn lemma_serialize_round_trip(s: EscrowState, t: EscrowState)
    ensures
        spec_serialize(s).len() == STATE_LEN,
        spec_deserialize_error(spec_serialize(s)) is None,
        spec_decodes_to(spec_serialize(s), s),
        spec_decodes_to(spec_serialize(s), t) ==> t == s,
{
    vstd::bytes::lemma_auto_spec_u64_to_from_le_bytes();
    let d = spec_serialize(s);
    assert(d.subrange(0, 8) =~= spec_discriminator());
    assert(d.subrange(8, 40) =~= s.sender@);
    assert(d.subrange(40, 72) =~= s.receiver@);
    assert(d.subrange(72, 104) =~= s.mint@);
    assert(d.subrange(104, 112) =~= spec_u64_to_le_bytes(s.amount));
    assert(d.subrange(112, 120) =~= spec_u64_to_le_bytes(s.deal_id));
    assert(d[120] == s.bump);
    assert(d[121] == spec_status_byte(s.status));
    if spec_decodes_to(d, t) {
        assert(t.sender.bytes =~= s.sender.bytes);
        assert(t.receiver.bytes =~= s.receiver.bytes);
        assert(t.mint.bytes =~= s.mint.bytes);
    }
}

/// The status is stored in the record's last byte, at offset 121, as its index
/// in declaration order: `Created` 0, `Funded` 1, `Released` 2, `Cancelled` 3;
/// that byte decodes back to the same status, and no other byte decodes.
pub proof fn lemma_status_byte_is_declaration_index(s: EscrowState, d: Seq<u8>, t: EscrowState)
    ensures
        s.status == EscrowStatus::Created ==> spec_serialize(s)[121] == 0,
        s.status == EscrowStatus::Funded ==> spec_serialize(s)[121] == 1,
        s.status == EscrowStatus::Released ==> spec_serialize(s)[121] == 2,
        s.status == EscrowStatus::Cancelled ==> spec_serialize(s)[121] == 3,
        spec_deserialize_error(d) is None ==> 0 <= d[121] <= 3,
        (spec_deserialize_error(d) is None && spec_decodes_to(d, t)) ==> {
            &&& d[121] == 0 ==> t.status == EscrowStatus::Created
            &&& d[121] == 1 ==> t.status == EscrowStatus::Funded
            &&& d[121] == 2 ==> t.status == EscrowStatus::Released
            &&& d[121] == 3 ==> t.status == EscrowStatus::Cancelled
        },
{
    vstd::bytes::lemma_auto_spec_u64_to_from_le_bytes();
    let e = spec_serialize(s);
    assert(e.len() == 122);
    assert(e[121] == spec_status_byte(s.status));
}

/// The record's fields sit at fixed offsets after the discriminator: sender
/// 8..40, receiver 40..72, mint 72..104, amount 104..112 and deal id 112..120
/// little-endian, bump at 120.
pub proof fn lemma_state_field_offsets(s: EscrowState)
    ensures
        spec_serialize(s).subrange(0, 8) == seq![19u8, 90, 148, 111, 55, 130, 229, 108],
        spec_serialize(s).subrange(8, 40) == s.sender@,
        spec_serialize(s).subrange(40, 72) == s.receiver@,
        spec_serialize(s).subrange(72, 104) == s.mint@,
        spec_serialize(s).subrange(104, 112) == spec_u64_to_le_bytes(s.amount),
        spec_serialize(s).subrange(112, 120) == spec_u64_to_le_bytes(s.deal_id),
        spec_serialize(s)[120] == s.bump,
        spec_serialize(s).len() == 122,
{
    vstd::bytes::lemma_auto_spec_u64_to_from_le_bytes();
    let d = spec_serialize(s);
    assert(d.subrange(0, 8) =~= seq![19u8, 90, 148, 111, 55, 130, 229, 108]);
    assert(d.subrange(8, 40) =~= s.sender@);
    assert(d.subrange(40, 72) =~= s.receiver@);
    assert(d.subrange(72, 104) =~= s.mint@);
    assert(d.subrange(104, 112) =~= spec_u64_to_le_bytes(s.amount));
    assert(d.subrange(112, 120) =~= spec_u64_to_le_bytes(s.deal_id));
}

/// Bytes that decode to a state are, up to the end of the record, that state's
/// encoding.
pub proof fn lemma_deserialize_then_serialize(d: Seq<u8>, s: EscrowState)
    requires
        spec_deserialize_error(d) is None,
        spec_decodes_to(d, s),
    ensures
        spec_serialize(s) == d.subrange(0, STATE_LEN as int),
{
    vstd::bytes::lemma_auto_spec_u64_to_from_le_bytes();
    assert(d.subrange(104, 112).len() == 8);
    assert(d.subrange(112, 120).len() == 8);
    assert(spec_serialize(s) =~= d.subrange(0, STATE_LEN as int));
}

} // verus!
