//! The library's guarantees across calls, proved from the contracts in
//! [`crate::generator`]: IDs from one generator strictly increase (and so
//! never repeat), and generators with different worker IDs never collide.

use vstd::prelude::*;

use crate::generator::bit_mask;
use crate::generator::gen_success;
use crate::generator::key_lt;
use crate::generator::same_config;
use crate::generator::spec_packed;
use crate::generator::timestamp_fits;
use crate::generator::SnowflakeView;
use crate::generator::MAX_ADJUSTABLE_BITS;

verus! {

/// The three fields can be read back from a packed ID by the documented
/// shifts and masks. The worker ID and the sequence survive whatever the
/// timestamp was; the timestamp itself reads back whenever it fits its field.
pub proof fn lemma_packed_fields(ts: u64, worker_id: u64, ws: u64, seq: u64)
    requires
        1 <= ws <= MAX_ADJUSTABLE_BITS - 1,
        worker_id <= bit_mask((MAX_ADJUSTABLE_BITS - ws) as u64),
        seq <= bit_mask(ws),
    ensures
        (spec_packed(ts, worker_id, ws, seq) >> ws) & bit_mask((MAX_ADJUSTABLE_BITS - ws) as u64)
            == worker_id,
        spec_packed(ts, worker_id, ws, seq) & bit_mask(ws) == seq,
        timestamp_fits(ts) ==> spec_packed(ts, worker_id, ws, seq) >> MAX_ADJUSTABLE_BITS == ts,
{
    let p = spec_packed(ts, worker_id, ws, seq);
    assert((p >> ws) & bit_mask((22u64 - ws) as u64) == worker_id && p & bit_mask(ws) == seq && (ts
        < (1u64 << 41) ==> p >> 22u64 == ts)) by (bit_vector)
        requires
            p == (ts << 22u64) | (worker_id << ws) | seq,
            1u64 <= ws && ws <= 21u64,
            worker_id <= bit_mask((22u64 - ws) as u64),
            seq <= bit_mask(ws),
    ;
}

/// Packing preserves order: with one worker ID and one layout, a strictly
/// larger `(timestamp, sequence)` key packs to a strictly larger ID, as long
/// as the larger timestamp still fits its field.
pub proof fn lemma_packed_strictly_increases(
    ts1: u64,
    seq1: u64,
    ts2: u64,
    seq2: u64,
    worker_id: u64,
    ws: u64,
)
    requires
        1 <= ws <= MAX_ADJUSTABLE_BITS - 1,
        worker_id <= bit_mask((MAX_ADJUSTABLE_BITS - ws) as u64),
        seq1 <= bit_mask(ws),
        seq2 <= bit_mask(ws),
        ts1 <= ts2,
        timestamp_fits(ts2),
        ts1 < ts2 || seq1 < seq2,
    ensures
        spec_packed(ts1, worker_id, ws, seq1) < spec_packed(ts2, worker_id, ws, seq2),
{
    assert(((ts1 << 22u64) | (worker_id << ws) | seq1) < ((ts2 << 22u64) | (worker_id << ws)
        | seq2)) by (bit_vector)
        requires
            1u64 <= ws && ws <= 21u64,
            worker_id <= bit_mask((22u64 - ws) as u64),
            seq1 <= bit_mask(ws),
            seq2 <= bit_mask(ws),
            ts1 <= ts2,
            ts2 < (1u64 << 41),
            ts1 < ts2 || seq1 < seq2,
    ;
}

/// Monotonicity, and with it uniqueness: two consecutive successful
/// generations from one generator return strictly increasing IDs, provided
/// the later timestamp fits its field. `pre`, `mid` and `post` are the
/// generator's states before, between and after the two calls, and the two
/// `gen_success` hypotheses are exactly what `generate` ensures of its `Ok`
/// results.
pub proof fn lemma_successive_ids_increase(
    pre: SnowflakeView,
    mid: SnowflakeView,
    post: SnowflakeView,
    id1: u64,
    id2: u64,
)
    requires
        mid.wf(),
        post.wf(),
        same_config(pre, mid),
        same_config(mid, post),
        gen_success(pre, mid, id1),
        gen_success(mid, post, id2),
        timestamp_fits(post.last_timestamp),
    ensures
        id1 < id2,
        id1 != id2,
{
    lemma_packed_strictly_increases(
        mid.last_timestamp,
        mid.sequence,
        post.last_timestamp,
        post.sequence,
        post.worker_id,
        post.worker_id_shift,
    );
}

/// A run of successful generations from one generator: `states` are the
/// generator's states as the calls saw them, `ids[i]` is what the call from
/// `states[i]` to `states[i + 1]` returned. Each conjunct is exactly what
/// `generate` ensures of a call that returns `Ok`.
pub open spec fn run_ok(states: Seq<SnowflakeView>, ids: Seq<u64>) -> bool {
    &&& states.len() == ids.len() + 1
    &&& forall|i: int| 0 <= i < states.len() ==> (#[trigger] states[i]).wf()
    &&& forall|i: int|
        0 <= i < ids.len() ==> same_config(states[i], #[trigger] states[i + 1])
    &&& forall|i: int|
        0 <= i < ids.len() ==> gen_success(states[i], states[i + 1], #[trigger] ids[i])
}

/// Along a run, both the configuration and the strict order of the
/// `(last_timestamp, sequence)` key carry over from any state to any later
/// one.
pub proof fn lemma_run_keys_advance(states: Seq<SnowflakeView>, ids: Seq<u64>, i: int, j: int)
    requires
        run_ok(states, ids),
        0 <= i < j < states.len(),
    ensures
        same_config(states[i], states[j]),
        key_lt(states[i], states[j]),
    decreases j - i,
{
    if i + 1 == j {
        assert(gen_success(states[i], states[i + 1], ids[i]));
        assert(same_config(states[i], states[i + 1]));
    } else {
        lemma_run_keys_advance(states, ids, i, j - 1);
        assert(gen_success(states[j - 1], states[j - 1 + 1], ids[j - 1]));
        assert(same_config(states[j - 1], states[j - 1 + 1]));
    }
}

/// Uniqueness and monotonicity over a whole run: of any two successful
/// generations from one generator, the later returns the strictly larger ID
/// — so no ID is ever produced twice — provided the run's final timestamp
/// still fits its field.
pub proof fn lemma_run_ids_strictly_increase(
    states: Seq<SnowflakeView>,
    ids: Seq<u64>,
    i: int,
    j: int,
)
    requires
        run_ok(states, ids),
        0 <= i < j < ids.len(),
        timestamp_fits(states[states.len() - 1].last_timestamp),
    ensures
        ids[i] < ids[j],
        ids[i] != ids[j],
{
    lemma_run_keys_advance(states, ids, i + 1, j + 1);
    if j + 1 < states.len() - 1 {
        lemma_run_keys_advance(states, ids, j + 1, states.len() - 1);
    }
    assert(gen_success(states[i], states[i + 1], ids[i]));
    assert(gen_success(states[j], states[j + 1], ids[j]));
    lemma_packed_strictly_increases(
        states[i + 1].last_timestamp,
        states[i + 1].sequence,
        states[j + 1].last_timestamp,
        states[j + 1].sequence,
        states[j + 1].worker_id,
        states[j + 1].worker_id_shift,
    );
}

/// Cross-worker disjointness: generators that share a layout but carry
/// different worker IDs never emit the same ID, whatever their timestamps
/// and sequences — the worker field occupies its own bit range.
pub proof fn lemma_cross_worker_disjoint(
    a_pre: SnowflakeView,
    a_post: SnowflakeView,
    id_a: u64,
    b_pre: SnowflakeView,
    b_post: SnowflakeView,
    id_b: u64,
)
    requires
        a_post.wf(),
        b_post.wf(),
        a_post.worker_id_shift == b_post.worker_id_shift,
        a_post.worker_id != b_post.worker_id,
        gen_success(a_pre, a_post, id_a),
        gen_success(b_pre, b_post, id_b),
    ensures
        id_a != id_b,
{
    lemma_packed_fields(a_post.last_timestamp, a_post.worker_id, a_post.worker_id_shift, a_post.sequence);
    lemma_packed_fields(b_post.last_timestamp, b_post.worker_id, b_post.worker_id_shift, b_post.sequence);
}

} // verus!
