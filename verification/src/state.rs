//! Data model: identities, host-visible account values, the persisted stream
//! record, the transient instruction payloads, and the error taxonomy.

use vstd::prelude::*;

verus! {

/// A 32-byte identity (public key), held as two 128-bit little-endian limbs.
///
/// The processor only ever compares identities for equality and copies them
/// into and out of the fixed record layout, so two unsigned limbs carry the
/// full 32-byte value exactly.
#[derive(Clone, Copy, PartialEq, Eq, Structural, Debug)]
pub struct Pubkey {
    /// Bytes 0..16 of the identity, little-endian.
    pub lo: u128,
    /// Bytes 16..32 of the identity, little-endian.
    pub hi: u128,
}

/// Everything the instruction processor reads or writes of one host account:
/// its identity, whether it signed the current instruction, its balance in
/// the native unit (lamports), and its raw data buffer.
pub struct Account {
    pub key: Pubkey,
    pub is_signer: bool,
    pub lamports: u64,
    pub data: Vec<u8>,
}

/// The payload of a Create instruction.
#[derive(Clone, Copy, PartialEq, Eq, Structural, Debug)]
pub struct CreateStreamInput {
    /// Time (seconds) at which the stream starts vesting.
    pub start_time: i64,
    /// Time (seconds) at which vesting caps.
    pub end_time: i64,
    /// Identity of the funds recipient.
    pub receiver: Pubkey,
    /// Carried on the wire but not authoritative: the persisted record's
    /// cumulative-withdrawn counter always starts at zero.
    pub lamports_withdrawn: u64,
    /// Lamports vested to the receiver per second.
    pub amount_second: u64,
}

/// The payload of a Withdraw instruction.
#[derive(Clone, Copy, PartialEq, Eq, Structural, Debug)]
pub struct WithdrawInput {
    /// Requested payout magnitude in lamports.
    pub amount: u64,
}

/// The stream record persisted in the escrow account's data buffer.
#[derive(Clone, Copy, PartialEq, Eq, Structural, Debug)]
pub struct StreamData {
    pub start_time: i64,
    pub end_time: i64,
    pub receiver: Pubkey,
    /// Cumulative lamports already paid out to the receiver.
    pub lamports_withdrawn: u64,
    /// Lamports vested per second.
    pub amount_second: u64,
    /// Identity of the depositor; set once at creation.
    pub sender: Pubkey,
}

impl StreamData {
    /// A record assembled field-for-field from a command plus the resolved
    /// sender identity. This is what `new` builds; what Create persists is
    /// `spec_created`, which resets the cumulative-withdrawn counter.
    pub open spec fn spec_new(data: CreateStreamInput, sender: Pubkey) -> StreamData {
        StreamData {
            start_time: data.start_time,
            end_time: data.end_time,
            receiver: data.receiver,
            lamports_withdrawn: data.lamports_withdrawn,
            amount_second: data.amount_second,
            sender: sender,
        }
    }

    /// The record a successful Create persists: the command's times, receiver
    /// and rate, the resolved sender identity, and a cumulative-withdrawn
    /// counter of exactly zero — whatever the wire payload carried in that
    /// field.
    pub open spec fn spec_created(data: CreateStreamInput, sender: Pubkey) -> StreamData {
        StreamData { lamports_withdrawn: 0, ..StreamData::spec_new(data, sender) }
    }

    /// Assembles a record field-for-field from a command plus the resolved
    /// sender identity.
    pub fn new(data: CreateStreamInput, sender: Pubkey) -> (r: StreamData)
        ensures
            r == StreamData::spec_new(data, sender),
    {
        StreamData {
            start_time: data.start_time,
            end_time: data.end_time,
            receiver: data.receiver,
            lamports_withdrawn: data.lamports_withdrawn,
            amount_second: data.amount_second,
            sender: sender,
        }
    }

    /// The structural invariant established at creation: a stream must end
    /// strictly after it starts.
    pub open spec fn wf(self) -> bool {
        self.end_time > self.start_time
    }
}

/// Everything that can go wrong while processing one instruction. All
/// variants are terminal for the current instruction: the processor applies
/// no partial mutation when it fails.
#[derive(Clone, Copy, PartialEq, Eq, Structural, Debug)]
pub enum StreamError {
    /// Fewer accounts were supplied than the operation needs.
    AccountResolutionError,
    /// The supplied fee-recipient identity is not the trusted admin.
    AdminAccountInvalid,
    /// `end_time <= start_time`, or the stream would start in the past.
    InvalidStartOrEndTime,
    /// The escrow funding does not exactly match `rate * duration`.
    NotEnoughLamports,
    /// The authorizing account did not sign the instruction.
    MissingRequiredSignature,
    /// The supplied receiver does not match the command's declared receiver.
    InvalidAccountData,
    /// The supplied receiver/sender does not match the persisted record.
    IllegalOwner,
    /// A withdrawal was requested beyond the withdrawable amount.
    WithdrawError,
    /// An instruction or record buffer does not decode.
    MalformedPayload,
    /// The first byte of the instruction buffer is no known tag.
    InvalidInstruction,
    /// A balance or vesting computation leaves the representable range.
    ArithmeticOverflow,
    /// The persisted record claims more withdrawn than ever vested.
    InvariantViolation,
}

} // verus!
