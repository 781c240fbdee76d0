//! The generator itself: its bit layout, its construction-time validation,
//! and the clock-comparison decision logic of `generate`.
//!
//! The mathematical model of a generator is [`SnowflakeView`]; every contract
//! is stated over it. The one generation step, given a clock reading, is the
//! spec function [`spec_advance`], and the executable decision
//! [`Snowflake::try_advance`] is proved to follow it exactly. `generate`
//! itself only samples the clock, applies that decision, and spin-waits for
//! the next tick when the current tick's sequence space is spent.

use vstd::prelude::*;
use vstd::string::StringExecFns;

use crate::clock::elapsed_millis;
use crate::clock::instant_now;
use crate::clock::spin_wait_hint;
use crate::clock::unix_time_millis;
use crate::decimal::decimal_string;
use crate::decimal::spec_decimal;
use crate::error::SnowflakeError;

verus! {

/// Both the worker ID and the sequence get at least this many bits.
pub const MIN_BITS: u64 = 1;

/// The sign bit of the 64-bit identifier, kept zero.
pub const SIGN_BITS: u64 = 1;

/// Bits of the identifier given to the timestamp.
pub const TIMESTAMP_BITS: u64 = 41;

/// Bits left for the caller to split between worker ID and sequence.
pub const MAX_ADJUSTABLE_BITS: u64 = 64 - SIGN_BITS - TIMESTAMP_BITS;

/// Default split: 10 worker ID bits, leaving 12 sequence bits.
pub const DEFAULT_WORKER_ID_BITS: u64 = 10;

/// Default bound on the spin-wait for the next tick, in milliseconds.
pub const DEFAULT_TIMEOUT_MILLIS: u128 = 1000;

/// Default epoch: 2024-01-01 00:00:00.000 UTC, in Unix milliseconds.
pub const DEFAULT_EPOCH_MILLIS: u64 = 1704038400000;

/// The all-ones mask of the low `bits` bits; also the largest value that
/// fits in `bits` bits.
pub open spec fn bit_mask(bits: u64) -> u64
    recommends
        bits < 64,
{
    ((1u64 << bits) - 1) as u64
}

/// The state of a generator, as plain integers: the resolved layout, the
/// configuration, and the two mutable counters.
pub struct SnowflakeView {
    /// Reference instant, in Unix milliseconds, subtracted from every clock
    /// reading before packing.
    pub epoch: u64,
    /// Timestamp (milliseconds since `epoch`) of the most recent ID; 0 when
    /// none has been generated yet.
    pub last_timestamp: u64,
    /// The caller-assigned worker identity.
    pub worker_id: u64,
    /// Ordinal of the most recent ID within its tick.
    pub sequence: u64,
    /// Bound on the spin-wait for the next tick; `None` waits indefinitely.
    pub timeout_millis: Option<u128>,
    /// Largest sequence value: `2^sequence_bits - 1`.
    pub max_sequence: u64,
    /// How far the timestamp is shifted left when packing.
    pub timestamp_shift: u64,
    /// How far the worker ID is shifted left when packing; equals the number
    /// of sequence bits.
    pub worker_id_shift: u64,
}

impl SnowflakeView {
    /// Bits of the adjustable budget given to the worker ID.
    pub open spec fn worker_bits(self) -> u64 {
        (MAX_ADJUSTABLE_BITS - self.worker_id_shift) as u64
    }

    /// The largest worker ID this layout admits.
    pub open spec fn max_worker_id(self) -> u64 {
        bit_mask(self.worker_bits())
    }

    /// The generator's invariant: the derived layout fields agree with one
    /// another, and both counters fit their fields. Established at
    /// construction and preserved by every generation.
    pub open spec fn wf(self) -> bool {
        &&& self.timestamp_shift == MAX_ADJUSTABLE_BITS
        &&& MIN_BITS <= self.worker_id_shift
        &&& self.worker_id_shift <= MAX_ADJUSTABLE_BITS - MIN_BITS
        &&& self.max_sequence == bit_mask(self.worker_id_shift)
        &&& self.worker_id <= self.max_worker_id()
        &&& self.sequence <= self.max_sequence
    }
}

/// Everything a generation call leaves untouched: all fields but the two
/// counters.
pub open spec fn same_config(a: SnowflakeView, b: SnowflakeView) -> bool {
    &&& b.epoch == a.epoch
    &&& b.worker_id == a.worker_id
    &&& b.timeout_millis == a.timeout_millis
    &&& b.max_sequence == a.max_sequence
    &&& b.timestamp_shift == a.timestamp_shift
    &&& b.worker_id_shift == a.worker_id_shift
}

/// Strict lexicographic order on `(last_timestamp, sequence)`: how one
/// generator's state advances with every successful generation.
pub open spec fn key_lt(a: SnowflakeView, b: SnowflakeView) -> bool {
    ||| a.last_timestamp < b.last_timestamp
    ||| (a.last_timestamp == b.last_timestamp && a.sequence < b.sequence)
}

/// The packed identifier: timestamp, worker ID and sequence assembled by
/// shift-and-or. Bits of `ts` above its field are shifted out, exactly as
/// the executable code loses them.
pub open spec fn spec_packed(ts: u64, worker_id: u64, worker_id_shift: u64, sequence: u64) -> u64 {
    (ts << MAX_ADJUSTABLE_BITS) | (worker_id << worker_id_shift) | sequence
}

/// Whether a timestamp fits its 41-bit field, so that packing loses nothing.
/// Callers are expected to pick an epoch recent enough that this holds for
/// the service's lifetime; it is deliberately not checked at runtime.
pub open spec fn timestamp_fits(ts: u64) -> bool {
    ts < (1u64 << TIMESTAMP_BITS)
}

/// What one successful `generate` call promises: the state key advanced
/// strictly, and the returned ID is the new state, packed.
pub open spec fn gen_success(pre: SnowflakeView, post: SnowflakeView, id: u64) -> bool {
    &&& key_lt(pre, post)
    &&& id == spec_packed(post.last_timestamp, post.worker_id, post.worker_id_shift, post.sequence)
}

/// One generation decision, given the state `s` and a fresh clock reading
/// `now` (milliseconds since the epoch): the state after the call, and the
/// outcome. `None` means the sequence space of the current tick is spent and
/// the caller must wait for the next tick; the state is then unchanged.
pub open spec fn spec_advance(s: SnowflakeView, now: u64) -> (SnowflakeView, Option<
    Result<u64, SnowflakeError>,
>) {
    if now < s.last_timestamp {
        // The clock went backwards: carry the sequence forward within the
        // previous tick if it has room, and never adopt the smaller reading.
        if s.sequence < s.max_sequence {
            let next = (s.sequence + 1) as u64;
            (
                SnowflakeView { sequence: next, ..s },
                Some(Ok(spec_packed(s.last_timestamp, s.worker_id, s.worker_id_shift, next))),
            )
        } else {
            (s, Some(Err(SnowflakeError::ClockMoveBackwards)))
        }
    } else if now == s.last_timestamp {
        // Same tick: the next sequence value, if the tick has any left.
        if s.sequence < s.max_sequence {
            let next = (s.sequence + 1) as u64;
            (
                SnowflakeView { sequence: next, ..s },
                Some(Ok(spec_packed(now, s.worker_id, s.worker_id_shift, next))),
            )
        } else {
            (s, None)
        }
    } else {
        // A fresh tick: a clean sequence budget.
        (
            SnowflakeView { last_timestamp: now, sequence: 0, ..s },
            Some(Ok(spec_packed(now, s.worker_id, s.worker_id_shift, 0))),
        )
    }
}

/// The worker bits resolved against their default.
pub open spec fn resolved_worker_bits(worker_id_bits: Option<u64>) -> u64 {
    match worker_id_bits {
        Some(b) => b,
        None => DEFAULT_WORKER_ID_BITS,
    }
}

/// The worker bit width the layout accepts: at least `MIN_BITS`, and small
/// enough to leave the sequence at least `MIN_BITS` too.
pub open spec fn worker_bits_valid(wb: u64) -> bool {
    MIN_BITS <= wb < MAX_ADJUSTABLE_BITS
}

/// The epoch resolved against its default.
pub open spec fn resolved_epoch(epoch: Option<u64>) -> u64 {
    match epoch {
        Some(e) => e,
        None => DEFAULT_EPOCH_MILLIS,
    }
}

/// A generator fresh from construction: counters at zero, layout derived
/// from the worker bit width.
pub open spec fn fresh_view(
    worker_id: u64,
    worker_bits: u64,
    timeout_millis: Option<u128>,
    epoch: u64,
) -> SnowflakeView {
    SnowflakeView {
        epoch,
        last_timestamp: 0,
        worker_id,
        sequence: 0,
        timeout_millis,
        max_sequence: bit_mask((MAX_ADJUSTABLE_BITS - worker_bits) as u64),
        timestamp_shift: MAX_ADJUSTABLE_BITS,
        worker_id_shift: (MAX_ADJUSTABLE_BITS - worker_bits) as u64,
    }
}

/// The message carried when the worker bit width is out of range.
pub open spec fn invalid_bits_message(wb: u64) -> Seq<char> {
    "invalid worker id bits(="@ + spec_decimal(wb as nat) + "), expected worker id bits in [1,22)"@
}

/// The message carried when the worker ID is out of range.
pub open spec fn invalid_worker_id_message(worker_id: u64, max_worker_id: u64) -> Seq<char> {
    "invalid worker id(="@ + spec_decimal(worker_id as nat) + "), expected worker id in [0,"@
        + spec_decimal(max_worker_id as nat) + "]"@
}

/// The error reported for an out-of-range worker bit width.
pub open spec fn is_bits_error(e: SnowflakeError, wb: u64) -> bool {
    e matches SnowflakeError::ArgumentError(m) && m@ == invalid_bits_message(wb)
}

/// The error reported for an out-of-range worker ID.
pub open spec fn is_worker_id_error(e: SnowflakeError, worker_id: u64, max_worker_id: u64) -> bool {
    e matches SnowflakeError::ArgumentError(m) && m@ == invalid_worker_id_message(
        worker_id,
        max_worker_id,
    )
}

/// Exactly what construction returns, given the clock reading it took: the
/// checks run in order and the first failing one decides. The argument
/// checks come before the clock is consulted, so an invalid width or worker
/// ID is reported whatever the clock said.
pub open spec fn configure_post(
    worker_id: u64,
    worker_id_bits: Option<u64>,
    timeout_millis: Option<u128>,
    epoch: Option<u64>,
    clock: Result<u64, SnowflakeError>,
    r: Result<Snowflake, SnowflakeError>,
) -> bool {
    let wb = resolved_worker_bits(worker_id_bits);
    let maxw = bit_mask(wb);
    let ep = resolved_epoch(epoch);
    &&& (!worker_bits_valid(wb) ==> (r matches Err(e) && is_bits_error(e, wb)))
    &&& ((worker_bits_valid(wb) && worker_id > maxw) ==> (r matches Err(e) && is_worker_id_error(
        e,
        worker_id,
        maxw,
    )))
    &&& ((worker_bits_valid(wb) && worker_id <= maxw) ==> (match clock {
        Err(ce) => r == Err::<Snowflake, SnowflakeError>(ce),
        Ok(now) => if ep >= now {
            r == Err::<Snowflake, SnowflakeError>(SnowflakeError::InvalidEpoch)
        } else {
            r matches Ok(g) && g@ == fresh_view(worker_id, wb, timeout_millis, ep)
        },
    }))
}

/// What construction promises whatever the clock said: argument errors
/// exactly on invalid arguments, and on valid ones either a generator with
/// the derived layout and zeroed counters, or one of the two failures the
/// clock can force — an epoch not strictly in the past, or a reading that
/// could not be taken or represented.
pub open spec fn construction_post(
    worker_id: u64,
    worker_id_bits: Option<u64>,
    timeout_millis: Option<u128>,
    epoch: Option<u64>,
    r: Result<Snowflake, SnowflakeError>,
) -> bool {
    let wb = resolved_worker_bits(worker_id_bits);
    let maxw = bit_mask(wb);
    let ep = resolved_epoch(epoch);
    &&& (!worker_bits_valid(wb) ==> (r matches Err(e) && is_bits_error(e, wb)))
    &&& ((worker_bits_valid(wb) && worker_id > maxw) ==> (r matches Err(e) && is_worker_id_error(
        e,
        worker_id,
        maxw,
    )))
    &&& ((worker_bits_valid(wb) && worker_id <= maxw) ==> (
    (r matches Ok(g) && g@ == fresh_view(worker_id, wb, timeout_millis, ep)) || r == Err::<
        Snowflake,
        SnowflakeError,
    >(SnowflakeError::InvalidEpoch) || r == Err::<Snowflake, SnowflakeError>(
        SnowflakeError::FailedConvertToMillis,
    )))
    &&& (r == Err::<Snowflake, SnowflakeError>(SnowflakeError::InvalidEpoch) ==> (worker_bits_valid(
        wb,
    ) && worker_id <= maxw))
    &&& (r matches Ok(g) ==> g@.wf())
}

/// A process-local generator of unique, time-ordered 64-bit identifiers.
///
/// One instance is meant to be owned by one logical worker; it performs no
/// internal synchronization.
#[derive(Debug)]
pub struct Snowflake {
    epoch: u64,
    last_timestamp: u64,
    worker_id: u64,
    sequence: u64,
    timeout_millis: Option<u128>,
    max_sequence: u64,
    timestamp_shift: u64,
    worker_id_shift: u64,
}

impl View for Snowflake {
    type V = SnowflakeView;

    closed spec fn view(&self) -> SnowflakeView {
        SnowflakeView {
            epoch: self.epoch,
            last_timestamp: self.last_timestamp,
            worker_id: self.worker_id,
            sequence: self.sequence,
            timeout_millis: self.timeout_millis,
            max_sequence: self.max_sequence,
            timestamp_shift: self.timestamp_shift,
            worker_id_shift: self.worker_id_shift,
        }
    }
}

/// The message built when the worker bit width is out of range.
fn invalid_bits_text(wb: u64) -> (r: String)
    ensures
        r@ == invalid_bits_message(wb),
{
    let mut s = String::from_str("invalid worker id bits(=");
    let d = decimal_string(wb);
    s.append(d.as_str());
    s.append("), expected worker id bits in [1,22)");
    proof {
        assert(s@ =~= invalid_bits_message(wb));
    }
    s
}

/// The message built when the worker ID is out of range.
fn invalid_worker_id_text(worker_id: u64, max_worker_id: u64) -> (r: String)
    ensures
        r@ == invalid_worker_id_message(worker_id, max_worker_id),
{
    let mut s = String::from_str("invalid worker id(=");
    let d = decimal_string(worker_id);
    s.append(d.as_str());
    s.append("), expected worker id in [0,");
    let d2 = decimal_string(max_worker_id);
    s.append(d2.as_str());
    s.append("]");
    proof {
        assert(s@ =~= invalid_worker_id_message(worker_id, max_worker_id));
    }
    s
}

impl Snowflake {
    /// Create a generator with the default configuration; the worker ID is
    /// the only required parameter.
    pub fn new(worker_id: u64) -> (r: Result<Self, SnowflakeError>)
        ensures
            construction_post(
                worker_id,
                Some(DEFAULT_WORKER_ID_BITS),
                Some(DEFAULT_TIMEOUT_MILLIS),
                Some(DEFAULT_EPOCH_MILLIS),
                r,
            ),
    {
        Self::builder().with_worker_id(worker_id).build()
    }

    /// A builder holding the default configuration.
    pub fn builder() -> (b: SnowflakeBuilder)
        ensures
            b@ == (BuilderView {
                worker_id: 0,
                worker_id_bits: Some(DEFAULT_WORKER_ID_BITS),
                timeout_millis: Some(DEFAULT_TIMEOUT_MILLIS),
                epoch: Some(DEFAULT_EPOCH_MILLIS),
            }),
    {
        SnowflakeBuilder {
            worker_id: 0,
            worker_id_bits: Some(DEFAULT_WORKER_ID_BITS),
            timeout_millis: Some(DEFAULT_TIMEOUT_MILLIS),
            epoch: Some(DEFAULT_EPOCH_MILLIS),
        }
    }

    /// Create a generator with custom configuration; unspecified fields fall
    /// back to the defaults. The arguments are validated first; only once
    /// they pass is the clock read, once, to check the epoch lies strictly
    /// in the past.
    pub fn with_config(
        worker_id: u64,
        worker_id_bits: Option<u64>,
        timeout_millis: Option<u128>,
        epoch: Option<u64>,
    ) -> (r: Result<Self, SnowflakeError>)
        ensures
            construction_post(worker_id, worker_id_bits, timeout_millis, epoch, r),
    {
        let wb = match Self::validate_layout(worker_id, worker_id_bits) {
            Ok(w) => w,
            Err(e) => { return Err(e) },
        };
        let now = match Self::timestamp_millis() {
            Ok(t) => t,
            Err(e) => { return Err(e) },
        };
        Self::assemble(worker_id, wb, timeout_millis, epoch, now)
    }

    /// The whole of construction, given the clock reading it is to judge the
    /// epoch against. Checks run in order: worker bit width, worker ID, the
    /// clock reading itself, then the epoch; the first failure decides.
    pub fn configure(
        worker_id: u64,
        worker_id_bits: Option<u64>,
        timeout_millis: Option<u128>,
        epoch: Option<u64>,
        clock: Result<u64, SnowflakeError>,
    ) -> (r: Result<Self, SnowflakeError>)
        ensures
            configure_post(worker_id, worker_id_bits, timeout_millis, epoch, clock, r),
    {
        let wb = match Self::validate_layout(worker_id, worker_id_bits) {
            Ok(w) => w,
            Err(e) => { return Err(e) },
        };
        let now = match clock {
            Ok(t) => t,
            Err(e) => { return Err(e) },
        };
        Self::assemble(worker_id, wb, timeout_millis, epoch, now)
    }

    /// The two argument checks, in order: the resolved worker bit width on
    /// success, the error of the first failing check otherwise.
    fn validate_layout(worker_id: u64, worker_id_bits: Option<u64>) -> (r: Result<
        u64,
        SnowflakeError,
    >)
        ensures
            ({
                let wb = resolved_worker_bits(worker_id_bits);
                let maxw = bit_mask(wb);
                &&& (!worker_bits_valid(wb) ==> (r matches Err(e) && is_bits_error(e, wb)))
                &&& ((worker_bits_valid(wb) && worker_id > maxw) ==> (r matches Err(e)
                    && is_worker_id_error(e, worker_id, maxw)))
                &&& ((worker_bits_valid(wb) && worker_id <= maxw) ==> r == Ok::<
                    u64,
                    SnowflakeError,
                >(wb))
            }),
    {
        let wb = match worker_id_bits {
            Some(b) => b,
            None => DEFAULT_WORKER_ID_BITS,
        };
        if !(MIN_BITS <= wb && wb < MAX_ADJUSTABLE_BITS) {
            return Err(SnowflakeError::ArgumentError(invalid_bits_text(wb)));
        }
        proof {
            assert(1u64 <= (1u64 << wb)) by (bit_vector)
                requires
                    wb < 64u64,
            ;
        }
        let max_worker_id = (1u64 << wb) - 1;
        if worker_id > max_worker_id {
            return Err(SnowflakeError::ArgumentError(invalid_worker_id_text(
                worker_id,
                max_worker_id,
            )));
        }
        Ok(wb)
    }

    /// Judge the epoch against the clock reading and assemble the generator,
    /// for an already-validated worker ID and bit width.
    fn assemble(
        worker_id: u64,
        wb: u64,
        timeout_millis: Option<u128>,
        epoch: Option<u64>,
        now: u64,
    ) -> (r: Result<Self, SnowflakeError>)
        requires
            worker_bits_valid(wb),
            worker_id <= bit_mask(wb),
        ensures
            resolved_epoch(epoch) >= now ==> r == Err::<Snowflake, SnowflakeError>(
                SnowflakeError::InvalidEpoch,
            ),
            resolved_epoch(epoch) < now ==> (r matches Ok(g) && g@ == fresh_view(
                worker_id,
                wb,
                timeout_millis,
                resolved_epoch(epoch),
            )),
    {
        let sequence_bits = MAX_ADJUSTABLE_BITS - wb;
        proof {
            assert(1u64 <= (1u64 << sequence_bits)) by (bit_vector)
                requires
                    sequence_bits < 64u64,
            ;
        }
        let max_sequence = (1u64 << sequence_bits) - 1;
        let ep = match epoch {
            Some(e) => e,
            None => DEFAULT_EPOCH_MILLIS,
        };
        if ep >= now {
            return Err(SnowflakeError::InvalidEpoch);
        }
        Ok(
            Snowflake {
                epoch: ep,
                last_timestamp: 0,
                worker_id,
                sequence: 0,
                timeout_millis,
                max_sequence,
                timestamp_shift: MAX_ADJUSTABLE_BITS,
                worker_id_shift: sequence_bits,
            },
        )
    }

    /// The current time in milliseconds since the Unix epoch. The only
    /// failure is the read/conversion kind: the clock could not be read, or
    /// its reading does not fit 64-bit milliseconds.
    fn timestamp_millis() -> (r: Result<u64, SnowflakeError>)
        ensures
            r matches Err(e) ==> e == SnowflakeError::FailedConvertToMillis,
    {
        Self::reading_to_millis(unix_time_millis())
    }

    /// Interpret a raw clock reading: an absent one (the clock could not be
    /// read) and one that does not fit 64-bit milliseconds both fail with
    /// the read/conversion kind, distinct from a clock regression.
    pub fn reading_to_millis(reading: Option<u128>) -> (r: Result<u64, SnowflakeError>)
        ensures
            reading is None ==> r == Err::<u64, SnowflakeError>(
                SnowflakeError::FailedConvertToMillis,
            ),
            reading matches Some(m) ==> (m <= u64::MAX ==> r == Ok::<u64, SnowflakeError>(
                m as u64,
            )) && (m > u64::MAX ==> r == Err::<u64, SnowflakeError>(
                SnowflakeError::FailedConvertToMillis,
            )),
    {
        match reading {
            None => Err(SnowflakeError::FailedConvertToMillis),
            Some(m) => Self::millis_to_u64(m),
        }
    }

    /// Narrow a millisecond count to 64 bits: exactly the readings that do
    /// not fit are rejected.
    pub fn millis_to_u64(m: u128) -> (r: Result<u64, SnowflakeError>)
        ensures
            m <= u64::MAX ==> r == Ok::<u64, SnowflakeError>(m as u64),
            m > u64::MAX ==> r == Err::<u64, SnowflakeError>(SnowflakeError::FailedConvertToMillis),
    {
        if m > u64::MAX as u128 {
            Err(SnowflakeError::FailedConvertToMillis)
        } else {
            Ok(m as u64)
        }
    }

    /// Turn a Unix-millisecond reading into milliseconds since the given
    /// epoch: a reading earlier than the epoch is a clock regression, and
    /// the subtraction never underflows.
    pub fn epoch_offset(now_unix: u64, epoch: u64) -> (r: Result<u64, SnowflakeError>)
        ensures
            now_unix >= epoch ==> r == Ok::<u64, SnowflakeError>((now_unix - epoch) as u64),
            now_unix < epoch ==> r == Err::<u64, SnowflakeError>(SnowflakeError::ClockMoveBackwards),
    {
        if now_unix < epoch {
            Err(SnowflakeError::ClockMoveBackwards)
        } else {
            Ok(now_unix - epoch)
        }
    }

    /// The current time in milliseconds since this generator's epoch: the
    /// clock reading handed through [`Self::epoch_offset`].
    fn current_timestamp_millis_since_epoch(&self) -> (r: Result<u64, SnowflakeError>)
        ensures
            r matches Err(e) ==> (e == SnowflakeError::ClockMoveBackwards || e
                == SnowflakeError::FailedConvertToMillis),
    {
        match Self::timestamp_millis() {
            Ok(t) => Self::epoch_offset(t, self.epoch),
            Err(e) => Err(e),
        }
    }

    /// Whether a wait of `elapsed` milliseconds exceeds the configured
    /// timeout. With no timeout configured, it never does: the generator
    /// waits indefinitely.
    pub fn wait_timed_out(&self, elapsed: u128) -> (r: bool)
        ensures
            r == (self@.timeout_millis matches Some(t) && elapsed > t),
    {
        match self.timeout_millis {
            Some(t) => elapsed > t,
            None => false,
        }
    }

    /// One generation decision against the clock reading `now` (milliseconds
    /// since the epoch), exactly as [`spec_advance`] describes it: `Some` of
    /// the outcome, or `None` when the current tick's sequence space is
    /// spent and the caller must wait for the next tick.
    pub fn try_advance(&mut self, now: u64) -> (r: Option<Result<u64, SnowflakeError>>)
        requires
            old(self)@.wf(),
        ensures
            final(self)@.wf(),
            same_config(old(self)@, final(self)@),
            (final(self)@, r) == spec_advance(old(self)@, now),
    {
        let m = self.max_sequence;
        let ws = self.worker_id_shift;
        proof {
            assert(1u64 <= (1u64 << ws) && (1u64 << ws) <= 0x200000u64) by (bit_vector)
                requires
                    1u64 <= ws && ws <= 21u64,
            ;
        }
        let next = self.sequence + 1;
        let candidate = next & m;
        proof {
            let s = old(self)@.sequence;
            assert((s < m ==> (next & m) == s + 1) && (s == m ==> (next & m) == 0u64))
                by (bit_vector)
                requires
                    next == s + 1,
                    m == (1u64 << ws) - 1,
                    1u64 <= ws && ws <= 21u64,
                    s <= m,
            ;
        }
        if now < self.last_timestamp {
            // The clock went backwards: use what is left of the previous
            // tick's sequence space, and keep `last_timestamp` where it is.
            if candidate > 0 {
                self.sequence = candidate;
                Some(
                    Ok(
                        (self.last_timestamp << self.timestamp_shift) | (self.worker_id
                            << self.worker_id_shift) | self.sequence,
                    ),
                )
            } else {
                Some(Err(SnowflakeError::ClockMoveBackwards))
            }
        } else if now == self.last_timestamp {
            // Same tick: take the next sequence value if the tick has one.
            if candidate > 0 {
                self.sequence = candidate;
                Some(
                    Ok(
                        (self.last_timestamp << self.timestamp_shift) | (self.worker_id
                            << self.worker_id_shift) | self.sequence,
                    ),
                )
            } else {
                None
            }
        } else {
            // A fresh tick: reset the sequence.
            self.sequence = 0;
            self.last_timestamp = now;
            Some(
                Ok(
                    (self.last_timestamp << self.timestamp_shift) | (self.worker_id
                        << self.worker_id_shift) | self.sequence,
                ),
            )
        }
    }

    /// Generate the next identifier.
    ///
    /// On success the generator's `(last_timestamp, sequence)` key has
    /// advanced strictly and the ID is that key packed with the worker ID,
    /// so successive IDs are distinct and increasing. On failure the
    /// generator is left exactly as it was, and the error is never one of
    /// the construction-time kinds.
    #[verifier::loop_isolation(false)]
    pub fn generate(&mut self) -> (r: Result<u64, SnowflakeError>)
        requires
            old(self)@.wf(),
        ensures
            final(self)@.wf(),
            same_config(old(self)@, final(self)@),
            old(self)@.last_timestamp <= final(self)@.last_timestamp,
            r matches Ok(id) ==> gen_success(old(self)@, final(self)@, id),
            r is Err ==> final(self)@ == old(self)@,
            r matches Err(e) ==> (e == SnowflakeError::ClockMoveBackwards || e
                == SnowflakeError::WaitForNextPeriodTimeout || e
                == SnowflakeError::FailedConvertToMillis),
    {
        let mut now = match self.current_timestamp_millis_since_epoch() {
            Ok(t) => t,
            Err(e) => { return Err(e) },
        };
        match self.try_advance(now) {
            Some(res) => { return res },
            None => {},
        }
        // The current tick's sequence space is spent: wait for the clock to
        // reach the next tick, up to the configured timeout. The poll budget
        // gives the loop the bound the verifier asks of it; at one poll per
        // nanosecond it covers more than five centuries, so it never cuts a
        // real wait short.
        let start = instant_now();
        let mut fuel: u64 = u64::MAX;
        while now <= self.last_timestamp
            invariant
                self@ == old(self)@,
            decreases fuel,
        {
            if self.wait_timed_out(elapsed_millis(&start)) {
                return Err(SnowflakeError::WaitForNextPeriodTimeout);
            }
            if fuel == 0 {
                return Err(SnowflakeError::WaitForNextPeriodTimeout);
            }
            fuel = fuel - 1;
            // A failed re-read leaves `now` as it was; the wait just goes on.
            match self.current_timestamp_millis_since_epoch() {
                Ok(t) => { now = t },
                Err(_) => {},
            }
            spin_wait_hint();
        }
        match self.try_advance(now) {
            Some(res) => res,
            None => unreached(),
        }
    }

    /// The timestamp of the most recent ID, in milliseconds since the epoch.
    pub fn last_timestamp(&self) -> (r: u64)
        ensures
            r == self@.last_timestamp,
    {
        self.last_timestamp
    }

    /// The sequence value of the most recent ID.
    pub fn sequence(&self) -> (r: u64)
        ensures
            r == self@.sequence,
    {
        self.sequence
    }

    /// The worker ID this generator stamps into every ID.
    pub fn worker_id(&self) -> (r: u64)
        ensures
            r == self@.worker_id,
    {
        self.worker_id
    }

    /// The largest sequence value a single tick can hold.
    pub fn max_sequence(&self) -> (r: u64)
        ensures
            r == self@.max_sequence,
    {
        self.max_sequence
    }
}

/// The configuration a builder has accumulated.
pub struct BuilderView {
    /// The worker ID; 0 until one is set.
    pub worker_id: u64,
    /// The worker bit width override.
    pub worker_id_bits: Option<u64>,
    /// The spin-wait timeout override.
    pub timeout_millis: Option<u128>,
    /// The epoch override, in Unix milliseconds.
    pub epoch: Option<u64>,
}

/// A fluent way to configure a generator before a terminal `build`; it runs
/// the same validation as [`Snowflake::with_config`].
pub struct SnowflakeBuilder {
    worker_id: u64,
    worker_id_bits: Option<u64>,
    timeout_millis: Option<u128>,
    epoch: Option<u64>,
}

impl View for SnowflakeBuilder {
    type V = BuilderView;

    closed spec fn view(&self) -> BuilderView {
        BuilderView {
            worker_id: self.worker_id,
            worker_id_bits: self.worker_id_bits,
            timeout_millis: self.timeout_millis,
            epoch: self.epoch,
        }
    }
}

impl SnowflakeBuilder {
    /// Set the worker ID.
    pub fn with_worker_id(self, worker_id: u64) -> (b: Self)
        ensures
            b@ == (BuilderView { worker_id, ..self@ }),
    {
        let mut b = self;
        b.worker_id = worker_id;
        b
    }

    /// Set the number of bits used for the worker ID.
    pub fn with_worker_id_bits(self, worker_id_bits: u64) -> (b: Self)
        ensures
            b@ == (BuilderView { worker_id_bits: Some(worker_id_bits), ..self@ }),
    {
        let mut b = self;
        b.worker_id_bits = Some(worker_id_bits);
        b
    }

    /// Set the timeout for waiting on the next time period.
    pub fn with_timeout_millis(self, timeout_millis: u128) -> (b: Self)
        ensures
            b@ == (BuilderView { timeout_millis: Some(timeout_millis), ..self@ }),
    {
        let mut b = self;
        b.timeout_millis = Some(timeout_millis);
        b
    }

    /// Set the epoch, in Unix milliseconds.
    pub fn with_epoch(self, epoch: u64) -> (b: Self)
        ensures
            b@ == (BuilderView { epoch: Some(epoch), ..self@ }),
    {
        let mut b = self;
        b.epoch = Some(epoch);
        b
    }

    /// Build the generator with the accumulated configuration.
    pub fn build(self) -> (r: Result<Snowflake, SnowflakeError>)
        ensures
            construction_post(self@.worker_id, self@.worker_id_bits, self@.timeout_millis, self@.epoch, r),
    {
        Snowflake::with_config(self.worker_id, self.worker_id_bits, self.timeout_millis, self.epoch)
    }
}

} // verus!
