//! The instruction data the program accepts: an eight-byte discriminator per
//! instruction, the first eight bytes of the SHA-256 hash of `global:<name>`,
//! followed by the instruction's arguments, integers little-endian.

use vstd::prelude::*;
use vstd::bytes::{spec_u64_to_le_bytes, spec_u64_from_le_bytes, u64_to_le_bytes, u64_from_le_bytes};
use crate::address::Address;
use crate::error::{FrameworkError, InstructionError};

verus! {

/// An instruction of the program with its arguments.
#[derive(Clone, Copy, Debug, PartialEq, Eq, Structural)]
pub enum EscrowInstruction {
    Initialize { deal_id: u64, amount: u64 },
    Deposit,
    Release,
    Cancel,
}

/// The program's address.
pub open spec fn spec_program_id() -> Seq<u8> {
    seq![
        1u8, 2, 3, 4, 5, 6, 7, 8, 9, 10, 11, 12, 13, 14, 15, 16,
        17, 18, 19, 20, 21, 22, 23, 24, 25, 26, 27, 28, 29, 30, 31, 32,
    ]
}

/// The program's address.
pub fn id() -> (r: Address)
    ensures
        r@ == spec_program_id(),
{
    let r = Address {
        bytes: [
            1u8, 2, 3, 4, 5, 6, 7, 8, 9, 10, 11, 12, 13, 14, 15, 16,
            17, 18, 19, 20, 21, 22, 23, 24, 25, 26, 27, 28, 29, 30, 31, 32,
        ],
    };
    assert(r@ =~= spec_program_id());
    r
}

pub open spec fn initialize_tag() -> Seq<u8> {
    seq![175u8, 175, 109, 31, 13, 152, 155, 237]
}

pub open spec fn deposit_tag() -> Seq<u8> {
    seq![242u8, 35, 198, 137, 82, 225, 242, 182]
}

pub open spec fn release_tag() -> Seq<u8> {
    seq![253u8, 249, 15, 206, 28, 127, 193, 241]
}

pub open spec fn cancel_tag() -> Seq<u8> {
    seq![232u8, 219, 223, 41, 219, 236, 220, 190]
}

/// The tag of the framework's event instructions, which this program does not
/// take.
pub open spec fn event_tag() -> Seq<u8> {
    seq![228u8, 69, 165, 46, 81, 203, 154, 29]
}

/// Whether the data starts with the eight-byte tag.
pub open spec fn starts_with(d: Seq<u8>, tag: Seq<u8>) -> bool {
    d.len() >= 8 && d.subrange(0, 8) == tag
}

/// The instruction that the data encodes for the program at `program_id`, or
/// why there is none: another program's address, an `initialize` whose
/// arguments are cut short, an event instruction, or an unknown discriminator.
/// Bytes after the arguments are ignored.
pub open spec fn spec_decode(program_id: Seq<u8>, d: Seq<u8>) -> Result<EscrowInstruction, InstructionError> {
    if program_id != spec_program_id() {
        Err(InstructionError::Framework(FrameworkError::DeclaredProgramIdMismatch))
    } else if starts_with(d, initialize_tag()) {
        if d.len() < 24 {
            Err(InstructionError::Framework(FrameworkError::InstructionDidNotDeserialize))
        } else {
            Ok(EscrowInstruction::Initialize {
                deal_id: spec_u64_from_le_bytes(d.subrange(8, 16)),
                amount: spec_u64_from_le_bytes(d.subrange(16, 24)),
            })
        }
    } else if starts_with(d, deposit_tag()) {
        Ok(EscrowInstruction::Deposit)
    } else if starts_with(d, release_tag()) {
        Ok(EscrowInstruction::Release)
    } else if starts_with(d, cancel_tag()) {
        Ok(EscrowInstruction::Cancel)
    } else if starts_with(d, event_tag()) {
        Err(InstructionError::Framework(FrameworkError::EventInstructionStub))
    } else {
        Err(InstructionError::Framework(FrameworkError::InstructionFallbackNotFound))
    }
}

/// The data that encodes an instruction.
pub open spec fn spec_encode(ix: EscrowInstruction) -> Seq<u8> {
    match ix {
        EscrowInstruction::Initialize { deal_id, amount } =>
            initialize_tag() + spec_u64_to_le_bytes(deal_id) + spec_u64_to_le_bytes(amount),
        EscrowInstruction::Deposit => deposit_tag(),
        EscrowInstruction::Release => release_tag(),
        EscrowInstruction::Cancel => cancel_tag(),
    }
}

/// Whether the data starts with the given eight bytes.
fn has_tag(data: &[u8], tag: [u8; 8]) -> (r: bool)
    ensures
        r == starts_with(data@, tag@),
{
    if data.len() < 8 {
        return false;
    }
    let mut i: usize = 0;
    while i < 8
        invariant
            0 <= i <= 8,
            data@.len() >= 8,
            forall|j: int| 0 <= j < i ==> data@[j] == tag@[j],
        decreases 8 - i,
    {
        if data[i] != tag[i] {
            assert(data@.subrange(0, 8)[i as int] != tag@[i as int]);
            return false;
        }
        i = i + 1;
    }
    assert(data@.subrange(0, 8) =~= tag@);
    true
}

/// Appends the bytes to the vector.
fn push_all(out: &mut Vec<u8>, bytes: &[u8])
    ensures
        final(out)@ == old(out)@ + bytes@,
{
    let mut i: usize = 0;
    while i < bytes.len()
        invariant
            0 <= i <= bytes.len(),
            out@ == old(out)@ + bytes@.subrange(0, i as int),
        decreases bytes.len() - i,
    {
        out.push(bytes[i]);
        i = i + 1;
        proof {
            assert(bytes@.subrange(0, i as int) =~= bytes@.subrange(0, i - 1) + seq![bytes@[i - 1]]);
        }
    }
    assert(bytes@.subrange(0, bytes@.len() as int) =~= bytes@);
}

impl EscrowInstruction {
    /// Reads the instruction that the data encodes for the program at
    /// `program_id`, as the program's dispatcher does.
    pub fn decode(program_id: &Address, data: &[u8]) -> (r: Result<EscrowInstruction, InstructionError>)
        ensures
            r == spec_decode(program_id@, data@),
    {
        if !program_id.same(&id()) {
            return Err(InstructionError::Framework(FrameworkError::DeclaredProgramIdMismatch));
        }
        let init_bytes: [u8; 8] = [175u8, 175, 109, 31, 13, 152, 155, 237];
        let deposit_bytes: [u8; 8] = [242u8, 35, 198, 137, 82, 225, 242, 182];
        let release_bytes: [u8; 8] = [253u8, 249, 15, 206, 28, 127, 193, 241];
        let cancel_bytes: [u8; 8] = [232u8, 219, 223, 41, 219, 236, 220, 190];
        let event_bytes: [u8; 8] = [228u8, 69, 165, 46, 81, 203, 154, 29];
        proof {
            assert(init_bytes@ =~= initialize_tag());
            assert(deposit_bytes@ =~= deposit_tag());
            assert(release_bytes@ =~= release_tag());
            assert(cancel_bytes@ =~= cancel_tag());
            assert(event_bytes@ =~= event_tag());
        }
        if has_tag(data, init_bytes) {
            if data.len() < 24 {
                return Err(InstructionError::Framework(FrameworkError::InstructionDidNotDeserialize));
            }
            let deal_id = u64_from_le_bytes(vstd::slice::slice_subrange(data, 8, 16));
            let amount = u64_from_le_bytes(vstd::slice::slice_subrange(data, 16, 24));
            return Ok(EscrowInstruction::Initialize { deal_id, amount });
        }
        if has_tag(data, deposit_bytes) {
            return Ok(EscrowInstruction::Deposit);
        }
        if has_tag(data, release_bytes) {
            return Ok(EscrowInstruction::Release);
        }
        if has_tag(data, cancel_bytes) {
            return Ok(EscrowInstruction::Cancel);
        }
        if has_tag(data, event_bytes) {
            return Err(InstructionError::Framework(FrameworkError::EventInstructionStub));
        }
        Err(InstructionError::Framework(FrameworkError::InstructionFallbackNotFound))
    }

    /// The instruction data that encodes the instruction.
    pub fn encode(&self) -> (r: Vec<u8>)
        ensures
            r@ == spec_encode(*self),
    {
        let mut out: Vec<u8> = Vec::new();
        match self {
            EscrowInstruction::Initialize { deal_id, amount } => {
                let tag: [u8; 8] = [175u8, 175, 109, 31, 13, 152, 155, 237];
                push_all(&mut out, tag.as_slice());
                let d = u64_to_le_bytes(*deal_id);
                push_all(&mut out, d.as_slice());
                let a = u64_to_le_bytes(*amount);
                push_all(&mut out, a.as_slice());
                assert(out@ =~= spec_encode(*self));
            },
            EscrowInstruction::Deposit => {
                let tag: [u8; 8] = [242u8, 35, 198, 137, 82, 225, 242, 182];
                push_all(&mut out, tag.as_slice());
                assert(out@ =~= spec_encode(*self));
            },
            EscrowInstruction::Release => {
                let tag: [u8; 8] = [253u8, 249, 15, 206, 28, 127, 193, 241];
                push_all(&mut out, tag.as_slice());
                assert(out@ =~= spec_encode(*self));
            },
            EscrowInstruction::Cancel => {
                let tag: [u8; 8] = [232u8, 219, 223, 41, 219, 236, 220, 190];
                push_all(&mut out, tag.as_slice());
                assert(out@ =~= spec_encode(*self));
            },
        }
        out
    }
}

/// `initialize` data is its discriminator, then the deal id, then the amount,
/// each eight bytes little-endian: such data decodes to those arguments in
/// that order, and encoding the arguments gives such data.
pub proof fn lemma_initialize_arguments_in_order(deal_id: u64, amount: u64, rest: Seq<u8>)
    ensures
        spec_decode(
            spec_program_id(),
            seq![175u8, 175, 109, 31, 13, 152, 155, 237] + spec_u64_to_le_bytes(deal_id)
                + spec_u64_to_le_bytes(amount) + rest,
        ) == Ok::<EscrowInstruction, InstructionError>(EscrowInstruction::Initialize { deal_id, amount }),
        spec_encode(EscrowInstruction::Initialize { deal_id, amount })
            == seq![175u8, 175, 109, 31, 13, 152, 155, 237] + spec_u64_to_le_bytes(deal_id)
                + spec_u64_to_le_bytes(amount),
{
    vstd::bytes::lemma_auto_spec_u64_to_from_le_bytes();
    let d = seq![175u8, 175, 109, 31, 13, 152, 155, 237] + spec_u64_to_le_bytes(deal_id)
        + spec_u64_to_le_bytes(amount) + rest;
    assert(d.subrange(0, 8) =~= initialize_tag());
    assert(d.subrange(8, 16) =~= spec_u64_to_le_bytes(deal_id));
    assert(d.subrange(16, 24) =~= spec_u64_to_le_bytes(amount));
    assert(spec_encode(EscrowInstruction::Initialize { deal_id, amount })
        =~= seq![175u8, 175, 109, 31, 13, 152, 155, 237] + spec_u64_to_le_bytes(deal_id)
            + spec_u64_to_le_bytes(amount));
}

/// Each instruction is recognized by its eight-byte discriminator, the first
/// eight bytes of the SHA-256 hash of `global:<name>`, whatever follows it.
pub proof fn lemma_instruction_discriminators(rest: Seq<u8>)
    ensures
        spec_decode(spec_program_id(), seq![242u8, 35, 198, 137, 82, 225, 242, 182] + rest)
            == Ok::<EscrowInstruction, InstructionError>(EscrowInstruction::Deposit),
        spec_decode(spec_program_id(), seq![253u8, 249, 15, 206, 28, 127, 193, 241] + rest)
            == Ok::<EscrowInstruction, InstructionError>(EscrowInstruction::Release),
        spec_decode(spec_program_id(), seq![232u8, 219, 223, 41, 219, 236, 220, 190] + rest)
            == Ok::<EscrowInstruction, InstructionError>(EscrowInstruction::Cancel),
        spec_encode(EscrowInstruction::Deposit) == seq![242u8, 35, 198, 137, 82, 225, 242, 182],
        spec_encode(EscrowInstruction::Release) == seq![253u8, 249, 15, 206, 28, 127, 193, 241],
        spec_encode(EscrowInstruction::Cancel) == seq![232u8, 219, 223, 41, 219, 236, 220, 190],
{
    let dd = seq![242u8, 35, 198, 137, 82, 225, 242, 182] + rest;
    let rr = seq![253u8, 249, 15, 206, 28, 127, 193, 241] + rest;
    let cc = seq![232u8, 219, 223, 41, 219, 236, 220, 190] + rest;
    assert(dd.subrange(0, 8) =~= deposit_tag());
    assert(rr.subrange(0, 8) =~= release_tag());
    assert(cc.subrange(0, 8) =~= cancel_tag());
    assert(dd.subrange(0, 8)[0] != initialize_tag()[0]);
    assert(rr.subrange(0, 8)[0] != initialize_tag()[0] && rr.subrange(0, 8)[0] != deposit_tag()[0]);
    assert(cc.subrange(0, 8)[0] != initialize_tag()[0] && cc.subrange(0, 8)[0] != deposit_tag()[0]
        && cc.subrange(0, 8)[0] != release_tag()[0]);
    assert(spec_encode(EscrowInstruction::Deposit) =~= seq![242u8, 35, 198, 137, 82, 225, 242, 182]);
    assert(spec_encode(EscrowInstruction::Release) =~= seq![253u8, 249, 15, 206, 28, 127, 193, 241]);
    assert(spec_encode(EscrowInstruction::Cancel) =~= seq![232u8, 219, 223, 41, 219, 236, 220, 190]);
}

/// The data of an instruction decodes, for this program, to that instruction.
pub proof fn lemma_encode_decode(ix: EscrowInstruction)
    ensures
        spec_decode(spec_program_id(), spec_encode(ix)) == Ok::<EscrowInstruction, InstructionError>(ix),
{
    vstd::bytes::lemma_auto_spec_u64_to_from_le_bytes();
    let d = spec_encode(ix);
    assert(d.subrange(0, 8) =~= match ix {
        EscrowInstruction::Initialize { .. } => initialize_tag(),
        EscrowInstruction::Deposit => deposit_tag(),
        EscrowInstruction::Release => release_tag(),
        EscrowInstruction::Cancel => cancel_tag(),
    });
    match ix {
        EscrowInstruction::Initialize { deal_id, amount } => {
            assert(d.subrange(8, 16) =~= spec_u64_to_le_bytes(deal_id));
            assert(d.subrange(16, 24) =~= spec_u64_to_le_bytes(amount));
        },
        _ => {
            assert(d.subrange(0, 8)[0] != initialize_tag()[0]);
        },
    }
}

} // verus!
