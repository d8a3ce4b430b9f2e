//! The instruction processor: decodes an instruction buffer, resolves the
//! participating accounts by fixed position, enforces authorization and
//! identity checks, invokes the stream engine, and applies the resulting
//! balance and record mutations.
//!
//! Every check is a precondition evaluated eagerly in its documented order;
//! the first violated check aborts the operation with no partial mutation.
//! Every contract also states conservation: no operation creates or destroys
//! lamports across the supplied accounts.

use vstd::prelude::*;

use crate::codec::{
    decode_stream_data, encode_stream_data, spec_stream_data_from_bytes, spec_stream_data_to_bytes,
    STREAM_DATA_LEN,
};
use crate::engine::{settle_on_close, spec_settle_to_receiver, spec_vested, spec_withdrawable,
    withdrawable};
use crate::instruction::{spec_unpack, StreamInstruction};
use crate::state::{Account, CreateStreamInput, Pubkey, StreamData, StreamError, WithdrawInput};

verus! {

/// The flat creation fee, paid from the escrow to the admin account.
pub const ADMIN_FEE_LAMPORTS: u64 = 30000000;

/// The instruction processor, configured with the single trusted admin
/// identity that collects the creation fee.
pub struct Processor {
    /// The fixed, trusted fee-recipient identity, supplied at deploy time.
    pub admin: Pubkey,
}

/// Total lamports held across a list of accounts.
pub open spec fn spec_sum_lamports(accs: Seq<Account>) -> int
    decreases accs.len(),
{
    if accs.len() == 0 {
        0
    } else {
        accs.last().lamports + spec_sum_lamports(accs.drop_last())
    }
}

/// Replacing one account changes the total by exactly the balance difference.
pub proof fn lemma_sum_update(accs: Seq<Account>, i: int, v: Account)
    requires
        0 <= i < accs.len(),
    ensures
        spec_sum_lamports(accs.update(i, v)) == spec_sum_lamports(accs) - accs[i].lamports
            + v.lamports,
    decreases accs.len(),
{
    if i == accs.len() - 1 {
        assert(accs.update(i, v).drop_last() =~= accs.drop_last());
    } else {
        assert(accs.update(i, v).drop_last() =~= accs.drop_last().update(i, v));
        lemma_sum_update(accs.drop_last(), i, v);
    }
}

/// The Create validation chain, in its evaluation order: account resolution,
/// admin identity, the unconditional fee transfer's representability, the
/// time window, the exact-funding equation, the sender's signature, and the
/// declared receiver. `Ok` exactly when a Create at time `now` succeeds.
pub open spec fn spec_create_check(
    admin: Pubkey,
    accs: Seq<Account>,
    d: CreateStreamInput,
    now: int,
    rent_reserve: u64,
) -> Result<(), StreamError> {
    if accs.len() < 4 {
        Err(StreamError::AccountResolutionError)
    } else if accs[3].key != admin {
        Err(StreamError::AdminAccountInvalid)
    } else if accs[0].lamports < ADMIN_FEE_LAMPORTS || accs[3].lamports + ADMIN_FEE_LAMPORTS
        > u64::MAX {
        Err(StreamError::ArithmeticOverflow)
    } else if d.end_time <= d.start_time || d.start_time < now {
        Err(StreamError::InvalidStartOrEndTime)
    } else if d.amount_second * (d.end_time - d.start_time) != accs[0].lamports
        - ADMIN_FEE_LAMPORTS - rent_reserve {
        Err(StreamError::NotEnoughLamports)
    } else if !accs[1].is_signer {
        Err(StreamError::MissingRequiredSignature)
    } else if accs[2].key != d.receiver {
        Err(StreamError::InvalidAccountData)
    } else {
        Ok(())
    }
}

/// The effect of a successful Create: the fee moves from the escrow to the
/// admin, the new record — the command's times, receiver and rate, the
/// resolved sender, and a cumulative-withdrawn counter of exactly zero,
/// whatever the payload carried — is persisted in the escrow's data buffer,
/// and nothing else changes.
pub open spec fn spec_create_ok(pre: Seq<Account>, post: Seq<Account>, d: CreateStreamInput) -> bool {
    &&& post.len() == pre.len()
    &&& post[0].key == pre[0].key
    &&& post[0].is_signer == pre[0].is_signer
    &&& post[0].lamports == pre[0].lamports - ADMIN_FEE_LAMPORTS
    &&& post[0].data@ == spec_stream_data_to_bytes(StreamData::spec_created(d, pre[1].key))
    &&& post[1] == pre[1]
    &&& post[2] == pre[2]
    &&& post[3].key == pre[3].key
    &&& post[3].is_signer == pre[3].is_signer
    &&& post[3].lamports == pre[3].lamports + ADMIN_FEE_LAMPORTS
    &&& post[3].data == pre[3].data
    &&& (forall|i: int| 4 <= i < pre.len() ==> post[i] == pre[i])
}

/// Every record a successful Create persists is well-formed — its end time
/// strictly follows its start time — and starts with nothing withdrawn, so
/// the engine's vesting laws apply to it and its withdrawable amount is
/// never negative, at any time of observation.
pub proof fn lemma_created_record_wf(
    admin: Pubkey,
    accs: Seq<Account>,
    d: CreateStreamInput,
    now: int,
    rent_reserve: u64,
    sender: Pubkey,
    t: int,
)
    requires
        spec_create_check(admin, accs, d, now, rent_reserve) == Ok::<(), StreamError>(()),
    ensures
        StreamData::spec_created(d, sender).wf(),
        StreamData::spec_created(d, sender).lamports_withdrawn == 0,
        spec_withdrawable(StreamData::spec_created(d, sender), t) >= 0,
{
    crate::engine::lemma_vested_nonnegative(StreamData::spec_created(d, sender), t);
}

/// A creation window that does not end strictly after it starts is rejected:
/// once the accounts resolve, the admin matches and the fee transfer is
/// representable, `end_time <= start_time` fails with
/// `InvalidStartOrEndTime`, whatever else the command or balances hold.
pub proof fn lemma_create_rejects_bad_time_window(
    admin: Pubkey,
    accs: Seq<Account>,
    d: CreateStreamInput,
    now: int,
    rent_reserve: u64,
)
    requires
        accs.len() >= 4,
        accs[3].key == admin,
        accs[0].lamports >= ADMIN_FEE_LAMPORTS,
        accs[3].lamports + ADMIN_FEE_LAMPORTS <= u64::MAX,
        d.end_time <= d.start_time,
    ensures
        spec_create_check(admin, accs, d, now, rent_reserve) == Err::<(), StreamError>(
            StreamError::InvalidStartOrEndTime,
        ),
{
}

/// Funding must match exactly: with the fee transfer representable and a
/// valid time window, an escrow whose post-fee balance minus the rent
/// reserve differs from `rate * (end_time - start_time)` — underfunded or
/// overfunded — fails with `NotEnoughLamports`.
pub proof fn lemma_create_rejects_funding_mismatch(
    admin: Pubkey,
    accs: Seq<Account>,
    d: CreateStreamInput,
    now: int,
    rent_reserve: u64,
)
    requires
        accs.len() >= 4,
        accs[3].key == admin,
        accs[0].lamports >= ADMIN_FEE_LAMPORTS,
        accs[3].lamports + ADMIN_FEE_LAMPORTS <= u64::MAX,
        d.end_time > d.start_time,
        d.start_time >= now,
        d.amount_second * (d.end_time - d.start_time) != accs[0].lamports - ADMIN_FEE_LAMPORTS
            - rent_reserve,
    ensures
        spec_create_check(admin, accs, d, now, rent_reserve) == Err::<(), StreamError>(
            StreamError::NotEnoughLamports,
        ),
{
}

/// The Withdraw validation chain, in its evaluation order: account
/// resolution, record decoding, the receiver's identity and signature, the
/// engine's withdrawable amount, the requested bound, and the balance moves'
/// representability. `Ok` exactly when a Withdraw of `amount` at `now`
/// succeeds.
pub open spec fn spec_withdraw_check(accs: Seq<Account>, amount: u64, now: int) -> Result<
    (),
    StreamError,
> {
    if accs.len() < 2 {
        Err(StreamError::AccountResolutionError)
    } else if accs[0].data@.len() != STREAM_DATA_LEN {
        Err(StreamError::MalformedPayload)
    } else {
        let r = spec_stream_data_from_bytes(accs[0].data@);
        if accs[1].key != r.receiver {
            Err(StreamError::IllegalOwner)
        } else if !accs[1].is_signer {
            Err(StreamError::MissingRequiredSignature)
        } else if !(0 <= spec_vested(r, now) <= u64::MAX) {
            Err(StreamError::ArithmeticOverflow)
        } else if spec_withdrawable(r, now) < 0 {
            Err(StreamError::InvariantViolation)
        } else if amount > spec_withdrawable(r, now) {
            Err(StreamError::WithdrawError)
        } else if accs[0].lamports < amount || accs[1].lamports + amount > u64::MAX {
            Err(StreamError::ArithmeticOverflow)
        } else {
            Ok(())
        }
    }
}

/// The effect of a successful Withdraw: `amount` moves from the escrow to
/// the receiver, the record's cumulative-withdrawn field grows by `amount`
/// and is persisted, and nothing else changes.
pub open spec fn spec_withdraw_ok(pre: Seq<Account>, post: Seq<Account>, amount: u64) -> bool {
    let r = spec_stream_data_from_bytes(pre[0].data@);
    &&& post.len() == pre.len()
    &&& post[0].key == pre[0].key
    &&& post[0].is_signer == pre[0].is_signer
    &&& post[0].lamports == pre[0].lamports - amount
    &&& post[0].data@ == spec_stream_data_to_bytes(
        StreamData { lamports_withdrawn: (r.lamports_withdrawn + amount) as u64, ..r },
    )
    &&& post[1].key == pre[1].key
    &&& post[1].is_signer == pre[1].is_signer
    &&& post[1].lamports == pre[1].lamports + amount
    &&& post[1].data == pre[1].data
    &&& (forall|i: int| 2 <= i < pre.len() ==> post[i] == pre[i])
}

/// The Close validation chain, in its evaluation order: account resolution,
/// record decoding, the sender's identity and signature, the engine's
/// settlement, and the balance moves' representability. `Ok` exactly when a
/// Close at `now` succeeds.
pub open spec fn spec_close_check(accs: Seq<Account>, now: int) -> Result<(), StreamError> {
    if accs.len() < 3 {
        Err(StreamError::AccountResolutionError)
    } else if accs[0].data@.len() != STREAM_DATA_LEN {
        Err(StreamError::MalformedPayload)
    } else {
        let r = spec_stream_data_from_bytes(accs[0].data@);
        if accs[1].key != r.sender {
            Err(StreamError::IllegalOwner)
        } else if !accs[1].is_signer {
            Err(StreamError::MissingRequiredSignature)
        } else if now > r.start_time && !(0 <= spec_vested(r, now) <= u64::MAX) {
            Err(StreamError::ArithmeticOverflow)
        } else if now > r.start_time && spec_withdrawable(r, now) < 0 {
            Err(StreamError::InvariantViolation)
        } else {
            let e = spec_settle_to_receiver(r, now);
            if e > accs[0].lamports || accs[2].lamports + e > u64::MAX || accs[1].lamports + (
            accs[0].lamports - e) > u64::MAX {
                Err(StreamError::ArithmeticOverflow)
            } else {
                Ok(())
            }
        }
    }
}

/// The effect of a successful Close: the receiver gains exactly its
/// entitlement, the sender gains the entire remaining escrow balance, the
/// escrow balance becomes exactly zero, and the record buffer is untouched.
pub open spec fn spec_close_ok(pre: Seq<Account>, post: Seq<Account>, now: int) -> bool {
    let r = spec_stream_data_from_bytes(pre[0].data@);
    let e = spec_settle_to_receiver(r, now);
    &&& post.len() == pre.len()
    &&& post[0].key == pre[0].key
    &&& post[0].is_signer == pre[0].is_signer
    &&& post[0].lamports == 0
    &&& post[0].data == pre[0].data
    &&& post[1].key == pre[1].key
    &&& post[1].is_signer == pre[1].is_signer
    &&& post[1].lamports == pre[1].lamports + pre[0].lamports - e
    &&& post[1].data == pre[1].data
    &&& post[2].key == pre[2].key
    &&& post[2].is_signer == pre[2].is_signer
    &&& post[2].lamports == pre[2].lamports + e
    &&& post[2].data == pre[2].data
    &&& (forall|i: int| 3 <= i < pre.len() ==> post[i] == pre[i])
}

/// The withdraw bound: against a healthy record — vested representable and
/// withdrawn within it — a request beyond the withdrawable amount fails with
/// `WithdrawError`; the processor's contract then leaves every balance and
/// the record unchanged, as on any failure.
pub proof fn lemma_withdraw_bound(accs: Seq<Account>, amount: u64, now: int)
    requires
        accs.len() >= 2,
        accs[0].data@.len() == STREAM_DATA_LEN,
        ({
            let r = spec_stream_data_from_bytes(accs[0].data@);
            &&& accs[1].key == r.receiver
            &&& accs[1].is_signer
            &&& 0 <= spec_vested(r, now) <= u64::MAX
            &&& spec_withdrawable(r, now) >= 0
            &&& amount > spec_withdrawable(r, now)
        }),
    ensures
        spec_withdraw_check(accs, amount, now) == Err::<(), StreamError>(
            StreamError::WithdrawError,
        ),
{
}

/// Close settles exactly when its moves are representable: with the sender
/// matching and signing, a healthy record, an entitlement covered by the
/// escrow balance and both credits within range, Close succeeds — and by
/// `spec_close_ok` the escrow then ends at exactly zero, the receiver gains
/// exactly its pre-close withdrawable amount and the sender the remainder.
pub proof fn lemma_close_succeeds(accs: Seq<Account>, now: int)
    requires
        accs.len() >= 3,
        accs[0].data@.len() == STREAM_DATA_LEN,
        ({
            let r = spec_stream_data_from_bytes(accs[0].data@);
            &&& accs[1].key == r.sender
            &&& accs[1].is_signer
            &&& (now > r.start_time ==> 0 <= spec_vested(r, now) <= u64::MAX
                && spec_withdrawable(r, now) >= 0)
            &&& spec_settle_to_receiver(r, now) <= accs[0].lamports
            &&& accs[2].lamports + spec_settle_to_receiver(r, now) <= u64::MAX
            &&& accs[1].lamports + (accs[0].lamports - spec_settle_to_receiver(r, now))
                <= u64::MAX
        }),
    ensures
        spec_close_check(accs, now) == Ok::<(), StreamError>(()),
{
}

/// A successful withdrawal moves the persisted record exactly as far as the
/// paid amount: the withdrawable amount of the record it leaves behind is the
/// prior withdrawable amount minus the payout, and never negative — the
/// record can never claim more withdrawn than ever vested.
pub proof fn lemma_withdraw_updates_record(
    pre: Seq<Account>,
    post: Seq<Account>,
    amount: u64,
    now: int,
)
    requires
        spec_withdraw_check(pre, amount, now) == Ok::<(), StreamError>(()),
        spec_withdraw_ok(pre, post, amount),
    ensures
        spec_withdrawable(spec_stream_data_from_bytes(post[0].data@), now) == spec_withdrawable(
            spec_stream_data_from_bytes(pre[0].data@),
            now,
        ) - amount,
        spec_withdrawable(spec_stream_data_from_bytes(post[0].data@), now) >= 0,
{
    let r = spec_stream_data_from_bytes(pre[0].data@);
    let r2 = StreamData { lamports_withdrawn: (r.lamports_withdrawn + amount) as u64, ..r };
    crate::codec::lemma_stream_data_round_trip(r2);
    assert(spec_stream_data_from_bytes(post[0].data@) == r2);
    assert(spec_vested(r2, now) == spec_vested(r, now));
}

/// Withdrawing exactly the withdrawable amount drains the stream: against
/// the state a maximal withdrawal leaves behind, a second withdrawal of any
/// positive amount at the same time fails with `WithdrawError`, and one of
/// zero is all that still succeeds.
pub proof fn lemma_repeated_max_withdraw_drains(
    pre: Seq<Account>,
    post: Seq<Account>,
    amount: u64,
    now: int,
)
    requires
        spec_withdraw_check(pre, amount, now) == Ok::<(), StreamError>(()),
        spec_withdraw_ok(pre, post, amount),
        amount == spec_withdrawable(spec_stream_data_from_bytes(pre[0].data@), now),
    ensures
        spec_withdrawable(spec_stream_data_from_bytes(post[0].data@), now) == 0,
        forall|again: u64|
            again > 0 ==> #[trigger] spec_withdraw_check(post, again, now) == Err::<
                (),
                StreamError,
            >(StreamError::WithdrawError),
{
    lemma_withdraw_updates_record(pre, post, amount, now);
    let r = spec_stream_data_from_bytes(pre[0].data@);
    let r2 = StreamData { lamports_withdrawn: (r.lamports_withdrawn + amount) as u64, ..r };
    crate::codec::lemma_stream_data_round_trip(r2);
    assert(spec_stream_data_from_bytes(post[0].data@) == r2);
    assert(spec_vested(r2, now) == spec_vested(r, now));
}

impl Processor {
    /// Validates and creates a new stream (checks as `spec_create_check`,
    /// effect as `spec_create_ok`), applying no mutation on failure and
    /// conserving the total balance either way.
    pub fn process_create_stream(
        &self,
        accounts: &mut Vec<Account>,
        data: CreateStreamInput,
        now: i64,
        rent_reserve: u64,
    ) -> (res: Result<(), StreamError>)
        ensures
            res == spec_create_check(self.admin, old(accounts)@, data, now as int, rent_reserve),
            (res is Ok) ==> spec_create_ok(old(accounts)@, final(accounts)@, data),
            (res is Err) ==> final(accounts)@ == old(accounts)@,
            spec_sum_lamports(final(accounts)@) == spec_sum_lamports(old(accounts)@),
    {
        if accounts.len() < 4 {
            return Err(StreamError::AccountResolutionError);
        }
        if accounts[3].key != self.admin {
            return Err(StreamError::AdminAccountInvalid);
        }
        let escrow_lamports = accounts[0].lamports;
        if escrow_lamports < ADMIN_FEE_LAMPORTS {
            return Err(StreamError::ArithmeticOverflow);
        }
        let escrow_after_fee = escrow_lamports - ADMIN_FEE_LAMPORTS;
        let admin_after_fee = match accounts[3].lamports.checked_add(ADMIN_FEE_LAMPORTS) {
            Some(v) => v,
            None => {
                return Err(StreamError::ArithmeticOverflow);
            },
        };
        if data.end_time <= data.start_time || data.start_time < now {
            return Err(StreamError::InvalidStartOrEndTime);
        }
        let duration: u128 = (data.end_time as i128 - data.start_time as i128) as u128;
        proof {
            assert((data.amount_second as int) * (duration as int) < u128::MAX)
                by (nonlinear_arith)
                requires
                    data.amount_second <= u64::MAX,
                    duration < 0x10000000000000000u128;
        }
        let needed: u128 = (data.amount_second as u128) * duration;
        if escrow_after_fee < rent_reserve {
            return Err(StreamError::NotEnoughLamports);
        }
        let available: u128 = (escrow_after_fee - rent_reserve) as u128;
        if needed != available {
            return Err(StreamError::NotEnoughLamports);
        }
        if !accounts[1].is_signer {
            return Err(StreamError::MissingRequiredSignature);
        }
        if accounts[2].key != data.receiver {
            return Err(StreamError::InvalidAccountData);
        }
        let sender_key = accounts[1].key;
        // The payload's cumulative-withdrawn field is dead input: the
        // persisted record always starts at zero.
        let record = StreamData {
            lamports_withdrawn: 0,
            ..StreamData::new(data, sender_key)
        };
        let encoded = encode_stream_data(&record);
        accounts[0].lamports = escrow_after_fee;
        accounts[0].data = encoded;
        accounts[3].lamports = admin_after_fee;
        proof {
            let pre = old(accounts)@;
            let post = accounts@;
            assert(post =~= pre.update(0, post[0]).update(3, post[3]));
            lemma_sum_update(pre, 0, post[0]);
            lemma_sum_update(pre.update(0, post[0]), 3, post[3]);
        }
        Ok(())
    }

    /// Authorizes and applies a partial withdrawal (checks as
    /// `spec_withdraw_check`, effect as `spec_withdraw_ok`), applying no
    /// mutation on failure and conserving the total balance either way.
    pub fn process_withdraw(
        &self,
        accounts: &mut Vec<Account>,
        data: WithdrawInput,
        now: i64,
    ) -> (res: Result<(), StreamError>)
        ensures
            res == spec_withdraw_check(old(accounts)@, data.amount, now as int),
            (res is Ok) ==> spec_withdraw_ok(old(accounts)@, final(accounts)@, data.amount),
            (res is Err) ==> final(accounts)@ == old(accounts)@,
            spec_sum_lamports(final(accounts)@) == spec_sum_lamports(old(accounts)@),
    {
        if accounts.len() < 2 {
            return Err(StreamError::AccountResolutionError);
        }
        let record = match decode_stream_data(accounts[0].data.as_slice()) {
            Ok(r) => r,
            Err(e) => {
                return Err(e);
            },
        };
        if accounts[1].key != record.receiver {
            return Err(StreamError::IllegalOwner);
        }
        if !accounts[1].is_signer {
            return Err(StreamError::MissingRequiredSignature);
        }
        let avail = match withdrawable(&record, now) {
            Ok(v) => v,
            Err(e) => {
                return Err(e);
            },
        };
        if data.amount > avail {
            return Err(StreamError::WithdrawError);
        }
        let escrow_after = match accounts[0].lamports.checked_sub(data.amount) {
            Some(v) => v,
            None => {
                return Err(StreamError::ArithmeticOverflow);
            },
        };
        let receiver_after = match accounts[1].lamports.checked_add(data.amount) {
            Some(v) => v,
            None => {
                return Err(StreamError::ArithmeticOverflow);
            },
        };
        let new_record = StreamData {
            lamports_withdrawn: record.lamports_withdrawn + data.amount,
            ..record
        };
        accounts[0].lamports = escrow_after;
        accounts[0].data = encode_stream_data(&new_record);
        accounts[1].lamports = receiver_after;
        proof {
            let pre = old(accounts)@;
            let post = accounts@;
            assert(post =~= pre.update(0, post[0]).update(1, post[1]));
            lemma_sum_update(pre, 0, post[0]);
            lemma_sum_update(pre.update(0, post[0]), 1, post[1]);
        }
        Ok(())
    }

    /// Finalizes a stream (checks as `spec_close_check`, effect as
    /// `spec_close_ok`), applying no mutation on failure and conserving the
    /// total balance either way.
    pub fn process_close(&self, accounts: &mut Vec<Account>, now: i64) -> (res: Result<
        (),
        StreamError,
    >)
        ensures
            res == spec_close_check(old(accounts)@, now as int),
            (res is Ok) ==> spec_close_ok(old(accounts)@, final(accounts)@, now as int),
            (res is Err) ==> final(accounts)@ == old(accounts)@,
            spec_sum_lamports(final(accounts)@) == spec_sum_lamports(old(accounts)@),
    {
        if accounts.len() < 3 {
            return Err(StreamError::AccountResolutionError);
        }
        let record = match decode_stream_data(accounts[0].data.as_slice()) {
            Ok(r) => r,
            Err(e) => {
                return Err(e);
            },
        };
        if accounts[1].key != record.sender {
            return Err(StreamError::IllegalOwner);
        }
        if !accounts[1].is_signer {
            return Err(StreamError::MissingRequiredSignature);
        }
        let entitlement = match settle_on_close(&record, now) {
            Ok(v) => v,
            Err(e) => {
                return Err(e);
            },
        };
        let escrow_lamports = accounts[0].lamports;
        if entitlement > escrow_lamports {
            return Err(StreamError::ArithmeticOverflow);
        }
        let remainder = escrow_lamports - entitlement;
        let receiver_after = match accounts[2].lamports.checked_add(entitlement) {
            Some(v) => v,
            None => {
                return Err(StreamError::ArithmeticOverflow);
            },
        };
        let sender_after = match accounts[1].lamports.checked_add(remainder) {
            Some(v) => v,
            None => {
                return Err(StreamError::ArithmeticOverflow);
            },
        };
        accounts[0].lamports = 0;
        accounts[1].lamports = sender_after;
        accounts[2].lamports = receiver_after;
        proof {
            let pre = old(accounts)@;
            let post = accounts@;
            assert(post =~= pre.update(0, post[0]).update(1, post[1]).update(2, post[2]));
            lemma_sum_update(pre, 0, post[0]);
            lemma_sum_update(pre.update(0, post[0]), 1, post[1]);
            lemma_sum_update(pre.update(0, post[0]).update(1, post[1]), 2, post[2]);
        }
        Ok(())
    }

    /// Decodes one instruction and dispatches it: the whole state transition
    /// of the escrow for one host invocation, over the host-supplied account
    /// list, wall-clock time and rent reserve. Whatever the outcome, the
    /// total balance across the supplied accounts is conserved.
    pub fn process(
        &self,
        accounts: &mut Vec<Account>,
        instruction_data: &[u8],
        now: i64,
        rent_reserve: u64,
    ) -> (res: Result<(), StreamError>)
        ensures
            spec_sum_lamports(final(accounts)@) == spec_sum_lamports(old(accounts)@),
            match spec_unpack(instruction_data@) {
                Ok(inst) => match inst {
                    StreamInstruction::CreateStream(d) => res == spec_create_check(
                        self.admin,
                        old(accounts)@,
                        d,
                        now as int,
                        rent_reserve,
                    ) && ((res is Ok) ==> spec_create_ok(old(accounts)@, final(accounts)@, d)) && (
                    (res is Err) ==> final(accounts)@ == old(accounts)@),
                    StreamInstruction::WithdrawFromStream(w) => res == spec_withdraw_check(
                        old(accounts)@,
                        w.amount,
                        now as int,
                    ) && ((res is Ok) ==> spec_withdraw_ok(
                        old(accounts)@,
                        final(accounts)@,
                        w.amount,
                    )) && ((res is Err) ==> final(accounts)@ == old(accounts)@),
                    StreamInstruction::CloseStream => res == spec_close_check(
                        old(accounts)@,
                        now as int,
                    ) && ((res is Ok) ==> spec_close_ok(old(accounts)@, final(accounts)@, now as int))
                        && ((res is Err) ==> final(accounts)@ == old(accounts)@),
                },
                Err(e) => res == Err::<(), StreamError>(e) && final(accounts)@ == old(accounts)@,
            },
    {
        let instruction = match StreamInstruction::unpack(instruction_data) {
            Ok(i) => i,
            Err(e) => {
                return Err(e);
            },
        };
        match instruction {
            StreamInstruction::CreateStream(d) => self.process_create_stream(
                accounts,
                d,
                now,
                rent_reserve,
            ),
            StreamInstruction::WithdrawFromStream(w) => self.process_withdraw(accounts, w, now),
            StreamInstruction::CloseStream => self.process_close(accounts, now),
        }
    }
}

} // verus!
