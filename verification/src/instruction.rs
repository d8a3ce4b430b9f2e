//! The instruction wire format: an opaque byte buffer whose first byte is a
//! discriminant tag, followed by the fixed-layout payload of that operation.

use vstd::prelude::*;
use vstd::bytes::{spec_u64_from_le_bytes, spec_u64_to_le_bytes};

use crate::codec::{
    spec_create_input_from_bytes, spec_create_input_to_bytes, read_i64_le, read_pubkey,
    read_u64_le, write_i64_le, write_pubkey, write_u64_le, lemma_i64_le_bytes_round_trip,
    lemma_pubkey_bytes_round_trip, CREATE_INPUT_LEN,
};
use crate::state::{CreateStreamInput, StreamError, WithdrawInput};

verus! {

/// Wire tag of a Create instruction.
pub const TAG_CREATE: u8 = 0;

/// Wire tag of a Withdraw instruction.
pub const TAG_WITHDRAW: u8 = 1;

/// Wire tag of a Close instruction.
pub const TAG_CLOSE: u8 = 2;

/// Total byte width of an encoded Create instruction (tag plus payload).
pub const CREATE_WIRE_LEN: usize = 65;

/// Total byte width of an encoded Withdraw instruction (tag plus payload).
pub const WITHDRAW_WIRE_LEN: usize = 9;

/// One decoded instruction.
#[derive(Clone, Copy, PartialEq, Eq, Structural, Debug)]
pub enum StreamInstruction {
    CreateStream(CreateStreamInput),
    WithdrawFromStream(WithdrawInput),
    CloseStream,
}

/// What `unpack` returns for every possible buffer: an empty buffer or one
/// whose length does not match its tag's layout is a `MalformedPayload`, an
/// unknown tag is an `InvalidInstruction`, and otherwise the payload decodes
/// by its fixed layout.
pub open spec fn spec_unpack(s: Seq<u8>) -> Result<StreamInstruction, StreamError> {
    if s.len() == 0 {
        Err(StreamError::MalformedPayload)
    } else if s[0] == TAG_CREATE {
        if s.len() == CREATE_WIRE_LEN {
            Ok(StreamInstruction::CreateStream(spec_create_input_from_bytes(s.subrange(1, 65))))
        } else {
            Err(StreamError::MalformedPayload)
        }
    } else if s[0] == TAG_WITHDRAW {
        if s.len() == WITHDRAW_WIRE_LEN {
            Ok(
                StreamInstruction::WithdrawFromStream(
                    WithdrawInput { amount: spec_u64_from_le_bytes(s.subrange(1, 9)) },
                ),
            )
        } else {
            Err(StreamError::MalformedPayload)
        }
    } else if s[0] == TAG_CLOSE {
        if s.len() == 1 {
            Ok(StreamInstruction::CloseStream)
        } else {
            Err(StreamError::MalformedPayload)
        }
    } else {
        Err(StreamError::InvalidInstruction)
    }
}

impl StreamInstruction {
    /// Decodes an instruction buffer, exactly as `spec_unpack` describes.
    pub fn unpack(instruction_data: &[u8]) -> (res: Result<StreamInstruction, StreamError>)
        ensures
            res == spec_unpack(instruction_data@),
    {
        if instruction_data.len() == 0 {
            return Err(StreamError::MalformedPayload);
        }
        let tag = *vstd::slice::slice_index_get(instruction_data, 0);
        if tag == TAG_CREATE {
            if instruction_data.len() != CREATE_WIRE_LEN {
                return Err(StreamError::MalformedPayload);
            }
            let d = CreateStreamInput {
                start_time: read_i64_le(instruction_data, 1),
                end_time: read_i64_le(instruction_data, 9),
                receiver: read_pubkey(instruction_data, 17),
                lamports_withdrawn: read_u64_le(instruction_data, 49),
                amount_second: read_u64_le(instruction_data, 57),
            };
            proof {
                let s = instruction_data@;
                let p = s.subrange(1, 65);
                assert(p.subrange(0, 8) =~= s.subrange(1, 9));
                assert(p.subrange(8, 16) =~= s.subrange(9, 17));
                assert(p.subrange(16, 48) =~= s.subrange(17, 49));
                assert(p.subrange(48, 56) =~= s.subrange(49, 57));
                assert(p.subrange(56, 64) =~= s.subrange(57, 65));
            }
            Ok(StreamInstruction::CreateStream(d))
        } else if tag == TAG_WITHDRAW {
            if instruction_data.len() != WITHDRAW_WIRE_LEN {
                return Err(StreamError::MalformedPayload);
            }
            let amount = read_u64_le(instruction_data, 1);
            Ok(StreamInstruction::WithdrawFromStream(WithdrawInput { amount }))
        } else if tag == TAG_CLOSE {
            if instruction_data.len() != 1 {
                return Err(StreamError::MalformedPayload);
            }
            Ok(StreamInstruction::CloseStream)
        } else {
            Err(StreamError::InvalidInstruction)
        }
    }
}

/// Encodes a Create instruction: the tag byte, then the payload layout.
pub fn pack_create(d: &CreateStreamInput) -> (out: Vec<u8>)
    ensures
        out@ == seq![TAG_CREATE] + spec_create_input_to_bytes(*d),
        spec_unpack(out@) == Ok::<StreamInstruction, StreamError>(
            StreamInstruction::CreateStream(*d),
        ),
{
    let mut out: Vec<u8> = Vec::new();
    out.push(TAG_CREATE);
    write_i64_le(&mut out, d.start_time);
    write_i64_le(&mut out, d.end_time);
    write_pubkey(&mut out, d.receiver);
    write_u64_le(&mut out, d.lamports_withdrawn);
    write_u64_le(&mut out, d.amount_second);
    proof {
        assert(out@ =~= seq![TAG_CREATE] + spec_create_input_to_bytes(*d));
        lemma_create_input_round_trip(*d);
        assert(out@.subrange(1, 65) =~= spec_create_input_to_bytes(*d));
    }
    out
}

/// Encodes a Withdraw instruction: the tag byte, then the amount.
pub fn pack_withdraw(w: &WithdrawInput) -> (out: Vec<u8>)
    ensures
        out@ == seq![TAG_WITHDRAW] + spec_u64_to_le_bytes(w.amount),
        spec_unpack(out@) == Ok::<StreamInstruction, StreamError>(
            StreamInstruction::WithdrawFromStream(*w),
        ),
{
    let mut out: Vec<u8> = Vec::new();
    out.push(TAG_WITHDRAW);
    write_u64_le(&mut out, w.amount);
    proof {
        vstd::bytes::lemma_auto_spec_u64_to_from_le_bytes();
        assert(out@ =~= seq![TAG_WITHDRAW] + spec_u64_to_le_bytes(w.amount));
        assert(out@.subrange(1, 9) =~= spec_u64_to_le_bytes(w.amount));
    }
    out
}

/// Encodes a Close instruction: the bare tag byte.
pub fn pack_close() -> (out: Vec<u8>)
    ensures
        out@ == seq![TAG_CLOSE],
        spec_unpack(out@) == Ok::<StreamInstruction, StreamError>(StreamInstruction::CloseStream),
{
    let mut out: Vec<u8> = Vec::new();
    out.push(TAG_CLOSE);
    proof {
        assert(out@ =~= seq![TAG_CLOSE]);
    }
    out
}

/// Decoding an encoded create payload gives the payload back.
pub proof fn lemma_create_input_round_trip(d: CreateStreamInput)
    ensures
        spec_create_input_to_bytes(d).len() == CREATE_INPUT_LEN,
        spec_create_input_from_bytes(spec_create_input_to_bytes(d)) == d,
{
    vstd::bytes::lemma_auto_spec_u64_to_from_le_bytes();
    vstd::bytes::lemma_auto_spec_u128_to_from_le_bytes();
    lemma_i64_le_bytes_round_trip(d.start_time);
    lemma_i64_le_bytes_round_trip(d.end_time);
    lemma_pubkey_bytes_round_trip(d.receiver);
    let s = spec_create_input_to_bytes(d);
    assert(s.subrange(0, 8) =~= crate::codec::spec_i64_to_le_bytes(d.start_time));
    assert(s.subrange(8, 16) =~= crate::codec::spec_i64_to_le_bytes(d.end_time));
    assert(s.subrange(16, 48) =~= crate::codec::spec_pubkey_to_bytes(d.receiver));
    assert(s.subrange(48, 56) =~= spec_u64_to_le_bytes(d.lamports_withdrawn));
    assert(s.subrange(56, 64) =~= spec_u64_to_le_bytes(d.amount_second));
    assert(s.subrange(16, 48).subrange(0, 16) =~= vstd::bytes::spec_u128_to_le_bytes(
        d.receiver.lo,
    ));
    assert(s.subrange(16, 48).subrange(16, 32) =~= vstd::bytes::spec_u128_to_le_bytes(
        d.receiver.hi,
    ));
}

} // verus!
