//! Deterministic fixed-layout encoding of the data model.
//!
//! Every field is little-endian. A record or payload occupies exactly its
//! layout size; decoding any buffer of another length fails with
//! `MalformedPayload`, and encoding a valid in-memory value never fails.

use vstd::prelude::*;
use vstd::bytes::{
    spec_u64_to_le_bytes, spec_u64_from_le_bytes, u64_from_le_bytes, u64_to_le_bytes,
    spec_u128_to_le_bytes, spec_u128_from_le_bytes, u128_from_le_bytes, u128_to_le_bytes,
    lemma_auto_spec_u64_to_from_le_bytes, lemma_auto_spec_u128_to_from_le_bytes,
};
use vstd::slice::slice_subrange;

use crate::state::{CreateStreamInput, Pubkey, StreamData, StreamError};

verus! {

/// Byte width of an encoded identity.
pub const PUBKEY_LEN: usize = 32;

/// Byte width of an encoded `StreamData` record.
pub const STREAM_DATA_LEN: usize = 96;

/// A signed time encoded as the little-endian bytes of its two's-complement
/// 64-bit image.
pub open spec fn spec_i64_to_le_bytes(x: i64) -> Seq<u8> {
    spec_u64_to_le_bytes(x as u64)
}

pub open spec fn spec_i64_from_le_bytes(s: Seq<u8>) -> i64
    recommends
        s.len() == 8,
{
    spec_u64_from_le_bytes(s) as i64
}

/// An identity encoded as its low limb then its high limb, each little-endian.
pub open spec fn spec_pubkey_to_bytes(k: Pubkey) -> Seq<u8> {
    spec_u128_to_le_bytes(k.lo) + spec_u128_to_le_bytes(k.hi)
}

pub open spec fn spec_pubkey_from_bytes(s: Seq<u8>) -> Pubkey
    recommends
        s.len() == PUBKEY_LEN,
{
    Pubkey {
        lo: spec_u128_from_le_bytes(s.subrange(0, 16)),
        hi: spec_u128_from_le_bytes(s.subrange(16, 32)),
    }
}

/// The persisted record layout: start, end, receiver, withdrawn, rate, sender.
pub open spec fn spec_stream_data_to_bytes(r: StreamData) -> Seq<u8> {
    spec_i64_to_le_bytes(r.start_time) + spec_i64_to_le_bytes(r.end_time)
        + spec_pubkey_to_bytes(r.receiver) + spec_u64_to_le_bytes(r.lamports_withdrawn)
        + spec_u64_to_le_bytes(r.amount_second) + spec_pubkey_to_bytes(r.sender)
}

pub open spec fn spec_stream_data_from_bytes(s: Seq<u8>) -> StreamData
    recommends
        s.len() == STREAM_DATA_LEN,
{
    StreamData {
        start_time: spec_i64_from_le_bytes(s.subrange(0, 8)),
        end_time: spec_i64_from_le_bytes(s.subrange(8, 16)),
        receiver: spec_pubkey_from_bytes(s.subrange(16, 48)),
        lamports_withdrawn: spec_u64_from_le_bytes(s.subrange(48, 56)),
        amount_second: spec_u64_from_le_bytes(s.subrange(56, 64)),
        sender: spec_pubkey_from_bytes(s.subrange(64, 96)),
    }
}

/// Byte width of an encoded `CreateStreamInput` payload.
pub const CREATE_INPUT_LEN: usize = 64;

/// The create-payload layout: start, end, receiver, withdrawn, rate.
pub open spec fn spec_create_input_to_bytes(d: CreateStreamInput) -> Seq<u8> {
    spec_i64_to_le_bytes(d.start_time) + spec_i64_to_le_bytes(d.end_time)
        + spec_pubkey_to_bytes(d.receiver) + spec_u64_to_le_bytes(d.lamports_withdrawn)
        + spec_u64_to_le_bytes(d.amount_second)
}

pub open spec fn spec_create_input_from_bytes(s: Seq<u8>) -> CreateStreamInput
    recommends
        s.len() == CREATE_INPUT_LEN,
{
    CreateStreamInput {
        start_time: spec_i64_from_le_bytes(s.subrange(0, 8)),
        end_time: spec_i64_from_le_bytes(s.subrange(8, 16)),
        receiver: spec_pubkey_from_bytes(s.subrange(16, 48)),
        lamports_withdrawn: spec_u64_from_le_bytes(s.subrange(48, 56)),
        amount_second: spec_u64_from_le_bytes(s.subrange(56, 64)),
    }
}

/// Round trip on the two's-complement image of a signed time.
pub proof fn lemma_i64_le_bytes_round_trip(x: i64)
    ensures
        spec_i64_to_le_bytes(x).len() == 8,
        spec_i64_from_le_bytes(spec_i64_to_le_bytes(x)) == x,
{
    lemma_auto_spec_u64_to_from_le_bytes();
    assert((x as u64) as i64 == x) by (bit_vector);
}

/// Round trip on an encoded identity.
pub proof fn lemma_pubkey_bytes_round_trip(k: Pubkey)
    ensures
        spec_pubkey_to_bytes(k).len() == PUBKEY_LEN,
        spec_pubkey_from_bytes(spec_pubkey_to_bytes(k)) == k,
{
    lemma_auto_spec_u128_to_from_le_bytes();
    let s = spec_pubkey_to_bytes(k);
    assert(s.subrange(0, 16) =~= spec_u128_to_le_bytes(k.lo));
    assert(s.subrange(16, 32) =~= spec_u128_to_le_bytes(k.hi));
}

/// Decoding an encoded record gives the record back.
pub proof fn lemma_stream_data_round_trip(r: StreamData)
    ensures
        spec_stream_data_to_bytes(r).len() == STREAM_DATA_LEN,
        spec_stream_data_from_bytes(spec_stream_data_to_bytes(r)) == r,
{
    lemma_auto_spec_u64_to_from_le_bytes();
    lemma_auto_spec_u128_to_from_le_bytes();
    lemma_i64_le_bytes_round_trip(r.start_time);
    lemma_i64_le_bytes_round_trip(r.end_time);
    lemma_pubkey_bytes_round_trip(r.receiver);
    lemma_pubkey_bytes_round_trip(r.sender);
    let s = spec_stream_data_to_bytes(r);
    assert(s.subrange(0, 8) =~= spec_i64_to_le_bytes(r.start_time));
    assert(s.subrange(8, 16) =~= spec_i64_to_le_bytes(r.end_time));
    assert(s.subrange(16, 48) =~= spec_pubkey_to_bytes(r.receiver));
    assert(s.subrange(48, 56) =~= spec_u64_to_le_bytes(r.lamports_withdrawn));
    assert(s.subrange(56, 64) =~= spec_u64_to_le_bytes(r.amount_second));
    assert(s.subrange(64, 96) =~= spec_pubkey_to_bytes(r.sender));
    assert(s.subrange(16, 48).subrange(0, 16) =~= spec_u128_to_le_bytes(r.receiver.lo));
    assert(s.subrange(16, 48).subrange(16, 32) =~= spec_u128_to_le_bytes(r.receiver.hi));
    assert(s.subrange(64, 96).subrange(0, 16) =~= spec_u128_to_le_bytes(r.sender.lo));
    assert(s.subrange(64, 96).subrange(16, 32) =~= spec_u128_to_le_bytes(r.sender.hi));
}

/// Reads the little-endian `u64` at `off`.
pub(crate) fn read_u64_le(bytes: &[u8], off: usize) -> (x: u64)
    requires
        off + 8 <= bytes.len(),
    ensures
        x == spec_u64_from_le_bytes(bytes@.subrange(off as int, off as int + 8)),
{
    let part = slice_subrange(bytes, off, off + 8);
    u64_from_le_bytes(part)
}

/// Reads the little-endian two's-complement `i64` at `off`.
pub(crate) fn read_i64_le(bytes: &[u8], off: usize) -> (x: i64)
    requires
        off + 8 <= bytes.len(),
    ensures
        x == spec_i64_from_le_bytes(bytes@.subrange(off as int, off as int + 8)),
{
    let u = read_u64_le(bytes, off);
    #[verifier::truncate] (u as i64)
}

/// Reads the identity encoded at `off`.
pub(crate) fn read_pubkey(bytes: &[u8], off: usize) -> (k: Pubkey)
    requires
        off + PUBKEY_LEN <= bytes.len(),
    ensures
        k == spec_pubkey_from_bytes(bytes@.subrange(off as int, off as int + PUBKEY_LEN)),
{
    let lo_part = slice_subrange(bytes, off, off + 16);
    let hi_part = slice_subrange(bytes, off + 16, off + 32);
    let lo = u128_from_le_bytes(lo_part);
    let hi = u128_from_le_bytes(hi_part);
    proof {
        let whole = bytes@.subrange(off as int, off as int + PUBKEY_LEN);
        assert(whole.subrange(0, 16) =~= bytes@.subrange(off as int, off as int + 16));
        assert(whole.subrange(16, 32) =~= bytes@.subrange(off as int + 16, off as int + 32));
    }
    Pubkey { lo, hi }
}

/// Appends the little-endian bytes of `x`.
pub(crate) fn write_u64_le(out: &mut Vec<u8>, x: u64)
    ensures
        final(out)@ == old(out)@ + spec_u64_to_le_bytes(x),
{
    let mut part = u64_to_le_bytes(x);
    out.append(&mut part);
}

/// Appends the little-endian two's-complement bytes of `x`.
pub(crate) fn write_i64_le(out: &mut Vec<u8>, x: i64)
    ensures
        final(out)@ == old(out)@ + spec_i64_to_le_bytes(x),
{
    write_u64_le(out, #[verifier::truncate] (x as u64));
}

/// Appends the 32-byte encoding of `k`.
pub(crate) fn write_pubkey(out: &mut Vec<u8>, k: Pubkey)
    ensures
        final(out)@ == old(out)@ + spec_pubkey_to_bytes(k),
{
    let mut lo_part = u128_to_le_bytes(k.lo);
    out.append(&mut lo_part);
    let mut hi_part = u128_to_le_bytes(k.hi);
    out.append(&mut hi_part);
    proof {
        assert(out@ =~= old(out)@ + spec_pubkey_to_bytes(k));
    }
}

/// Encodes a record into its fixed 96-byte layout. Never fails.
pub fn encode_stream_data(r: &StreamData) -> (out: Vec<u8>)
    ensures
        out@ == spec_stream_data_to_bytes(*r),
        out@.len() == STREAM_DATA_LEN,
{
    let mut out: Vec<u8> = Vec::new();
    write_i64_le(&mut out, r.start_time);
    write_i64_le(&mut out, r.end_time);
    write_pubkey(&mut out, r.receiver);
    write_u64_le(&mut out, r.lamports_withdrawn);
    write_u64_le(&mut out, r.amount_second);
    write_pubkey(&mut out, r.sender);
    proof {
        assert(out@ =~= spec_stream_data_to_bytes(*r));
        lemma_stream_data_round_trip(*r);
    }
    out
}

/// Decodes a record from a buffer holding exactly one encoded `StreamData`;
/// any other length is a `MalformedPayload`.
pub fn decode_stream_data(bytes: &[u8]) -> (res: Result<StreamData, StreamError>)
    ensures
        match res {
            Ok(r) => bytes@.len() == STREAM_DATA_LEN && r == spec_stream_data_from_bytes(bytes@),
            Err(e) => bytes@.len() != STREAM_DATA_LEN && e == StreamError::MalformedPayload,
        },
{
    if bytes.len() != STREAM_DATA_LEN {
        return Err(StreamError::MalformedPayload);
    }
    let start_time = read_i64_le(bytes, 0);
    let end_time = read_i64_le(bytes, 8);
    let receiver = read_pubkey(bytes, 16);
    let lamports_withdrawn = read_u64_le(bytes, 48);
    let amount_second = read_u64_le(bytes, 56);
    let sender = read_pubkey(bytes, 64);
    Ok(StreamData { start_time, end_time, receiver, lamports_withdrawn, amount_second, sender })
}

} // verus!
