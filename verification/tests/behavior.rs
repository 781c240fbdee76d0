//! Scenario tests: the decision logic driven with chosen clock readings, the
//! construction validation, and the exact error messages.

use twitter_snowflake::decimal::decimal_string;
use twitter_snowflake::{Snowflake, SnowflakeError};

/// A generator with a controlled epoch so that tests can pick their own
/// clock readings for `try_advance`.
fn generator_with_worker_bits(worker_id: u64, worker_id_bits: u64) -> Snowflake {
    Snowflake::with_config(worker_id, Some(worker_id_bits), None, None).unwrap()
}

#[test]
fn three_ids_ordered_and_decomposable() {
    let mut snowflake = Snowflake::new(1).unwrap();
    let id1 = snowflake.generate().unwrap();
    let id2 = snowflake.generate().unwrap();
    let id3 = snowflake.generate().unwrap();
    assert!(id1 < id2);
    assert!(id2 < id3);
    // The worker ID reads back through the documented shift and mask.
    assert_eq!((id1 >> 12) & 0x3ff, 1);
    assert_eq!((id2 >> 12) & 0x3ff, 1);
    assert_eq!((id3 >> 12) & 0x3ff, 1);
    // Timestamps never decrease.
    assert!(id1 >> 22 <= id2 >> 22);
    assert!(id2 >> 22 <= id3 >> 22);
}

#[test]
fn worker_id_just_above_max_is_rejected() {
    // 1023 is the largest worker ID ten bits can hold.
    let r = Snowflake::with_config(1024, Some(10), None, None);
    match r {
        Err(SnowflakeError::ArgumentError(m)) => {
            assert_eq!(m, "invalid worker id(=1024), expected worker id in [0,1023]");
        }
        _ => panic!("expected an argument error"),
    }
    assert!(Snowflake::with_config(1023, Some(10), None, None).is_ok());
}

#[test]
fn worker_bits_out_of_range_is_rejected() {
    for bits in [0, 22, 23, 64, 100] {
        let r = Snowflake::with_config(1, Some(bits), None, None);
        assert!(matches!(r, Err(SnowflakeError::ArgumentError(..))));
    }
    let r = Snowflake::with_config(0, Some(0), None, None);
    match r {
        Err(SnowflakeError::ArgumentError(m)) => {
            assert_eq!(m, "invalid worker id bits(=0), expected worker id bits in [1,22)");
        }
        _ => panic!("expected an argument error"),
    }
    for bits in [1, 10, 21] {
        assert!(Snowflake::with_config(1, Some(bits), None, None).is_ok());
    }
}

#[test]
fn argument_errors_win_over_clock_errors() {
    // Validation is ordered: a bad worker ID is reported whatever the clock
    // said, and a bad bit width is reported before the worker ID is judged.
    let r = Snowflake::configure(1024, Some(10), None, None, Err(SnowflakeError::ClockMoveBackwards));
    assert!(matches!(r, Err(SnowflakeError::ArgumentError(..))));
    let r = Snowflake::configure(1024, Some(0), None, None, Ok(5));
    match r {
        Err(SnowflakeError::ArgumentError(m)) => {
            assert!(m.contains("worker id bits"));
        }
        _ => panic!("expected an argument error"),
    }
}

#[test]
fn epoch_must_lie_strictly_in_the_past() {
    // With the clock at 5, an epoch of 5 is not strictly in the past.
    let r = Snowflake::configure(1, None, None, Some(5), Ok(5));
    assert!(matches!(r, Err(SnowflakeError::InvalidEpoch)));
    let r = Snowflake::configure(1, None, None, Some(5), Ok(6));
    assert!(r.is_ok());
    // A clock failure surfaces as itself once the arguments pass.
    let r = Snowflake::configure(1, None, None, Some(5), Err(SnowflakeError::FailedConvertToMillis));
    assert!(matches!(r, Err(SnowflakeError::FailedConvertToMillis)));
}

#[test]
fn fresh_generator_starts_at_zero() {
    let g = generator_with_worker_bits(3, 10);
    assert_eq!(g.last_timestamp(), 0);
    assert_eq!(g.sequence(), 0);
    assert_eq!(g.worker_id(), 3);
    assert_eq!(g.max_sequence(), 4095);
}

#[test]
fn sequence_rollover_fills_the_tick_then_asks_to_wait() {
    // 20 worker bits leave 2 sequence bits: 4 IDs per tick.
    let mut g = generator_with_worker_bits(1, 20);
    assert_eq!(g.max_sequence(), 3);
    let mut ids = Vec::new();
    for _ in 0..4 {
        match g.try_advance(5) {
            Some(Ok(id)) => ids.push(id),
            _ => panic!("the tick should still have sequence space"),
        }
    }
    // All distinct, strictly increasing, and the sequence field counts up.
    for i in 1..ids.len() {
        assert!(ids[i - 1] < ids[i]);
    }
    for (i, id) in ids.iter().enumerate() {
        assert_eq!(id & 0x3, i as u64);
    }
    assert_eq!(g.last_timestamp(), 5);
    assert_eq!(g.sequence(), 3);
    // The fifth ID of the tick does not exist: the caller must wait.
    assert!(g.try_advance(5).is_none());
    // The state is untouched by the refusal.
    assert_eq!(g.last_timestamp(), 5);
    assert_eq!(g.sequence(), 3);
    // The next tick starts afresh.
    match g.try_advance(6) {
        Some(Ok(id)) => {
            assert_eq!(id & 0x3, 0);
            assert!(id > ids[3]);
        }
        _ => panic!("a fresh tick must produce an ID"),
    }
}

#[test]
fn packed_id_has_the_documented_layout() {
    let mut g = generator_with_worker_bits(1, 10);
    // timestamp 5, worker 1, sequence 0: (5 << 22) | (1 << 12) | 0.
    assert_eq!(g.try_advance(5), Some(Ok(20975616)));
    // Same tick: the sequence steps to 1.
    assert_eq!(g.try_advance(5), Some(Ok(20975617)));
}

#[test]
fn clock_backwards_carries_the_sequence_forward() {
    let mut g = generator_with_worker_bits(1, 10);
    assert!(matches!(g.try_advance(10), Some(Ok(_))));
    assert!(matches!(g.try_advance(10), Some(Ok(_))));
    assert_eq!(g.sequence(), 1);
    // The clock regresses to 9: the call still succeeds, stamped with the
    // retained timestamp 10, and `last_timestamp` does not move back.
    match g.try_advance(9) {
        Some(Ok(id)) => {
            assert_eq!(id >> 22, 10);
            assert_eq!(id & 0xfff, 2);
        }
        _ => panic!("a one-step regression must be tolerated"),
    }
    assert_eq!(g.last_timestamp(), 10);
    assert_eq!(g.sequence(), 2);
}

#[test]
fn clock_backwards_with_spent_sequence_fails() {
    // 21 worker bits leave a single sequence bit: 2 IDs per tick.
    let mut g = generator_with_worker_bits(1, 21);
    assert!(matches!(g.try_advance(5), Some(Ok(_))));
    assert!(matches!(g.try_advance(5), Some(Ok(_))));
    assert_eq!(g.sequence(), 1);
    assert!(matches!(g.try_advance(4), Some(Err(SnowflakeError::ClockMoveBackwards))));
    // The failure leaves the generator exactly as it was.
    assert_eq!(g.last_timestamp(), 5);
    assert_eq!(g.sequence(), 1);
}

#[test]
fn timeout_decision_follows_the_configured_bound() {
    let g = Snowflake::with_config(1, None, Some(7), None).unwrap();
    assert!(!g.wait_timed_out(0));
    assert!(!g.wait_timed_out(7));
    assert!(g.wait_timed_out(8));
    // No timeout configured: the generator would wait indefinitely.
    let g = Snowflake::with_config(1, None, None, None).unwrap();
    assert!(!g.wait_timed_out(u128::MAX));
}

#[test]
fn epoch_offset_is_exact() {
    assert_eq!(Snowflake::epoch_offset(5, 5), Ok(0));
    assert_eq!(Snowflake::epoch_offset(9, 5), Ok(4));
    assert_eq!(
        Snowflake::epoch_offset(4, 5),
        Err(SnowflakeError::ClockMoveBackwards)
    );
}

#[test]
fn clock_readings_convert_exactly() {
    // A clock that could not be read fails with the read/conversion kind,
    // not as a regression.
    assert_eq!(
        Snowflake::reading_to_millis(None),
        Err(SnowflakeError::FailedConvertToMillis)
    );
    assert_eq!(Snowflake::reading_to_millis(Some(8)), Ok(8));
    assert_eq!(
        Snowflake::reading_to_millis(Some(u64::MAX as u128 + 1)),
        Err(SnowflakeError::FailedConvertToMillis)
    );
}

#[test]
fn millisecond_readings_that_do_not_fit_are_rejected() {
    assert_eq!(Snowflake::millis_to_u64(0), Ok(0));
    assert_eq!(Snowflake::millis_to_u64(u64::MAX as u128), Ok(u64::MAX));
    assert_eq!(
        Snowflake::millis_to_u64(u64::MAX as u128 + 1),
        Err(SnowflakeError::FailedConvertToMillis)
    );
}

#[test]
fn builder_and_with_config_agree() {
    let a = Snowflake::builder()
        .with_worker_id(700)
        .with_worker_id_bits(10)
        .with_timeout_millis(1000)
        .with_epoch(1704038400000)
        .build()
        .unwrap();
    let b = Snowflake::with_config(700, Some(10), Some(1000), Some(1704038400000)).unwrap();
    assert_eq!(a.worker_id(), b.worker_id());
    assert_eq!(a.max_sequence(), b.max_sequence());
    assert_eq!(a.last_timestamp(), b.last_timestamp());
    assert_eq!(a.sequence(), b.sequence());
}

#[test]
fn decimal_renders_exactly() {
    assert_eq!(decimal_string(0), "0");
    assert_eq!(decimal_string(7), "7");
    assert_eq!(decimal_string(10), "10");
    assert_eq!(decimal_string(1023), "1023");
    assert_eq!(decimal_string(1704038400000), "1704038400000");
    assert_eq!(decimal_string(u64::MAX), "18446744073709551615");
}

#[test]
fn error_messages_read_as_documented() {
    assert_eq!(SnowflakeError::ClockMoveBackwards.message(), "clock move backwards");
    assert_eq!(
        SnowflakeError::WaitForNextPeriodTimeout.message(),
        "wait for next period timeout"
    );
    assert_eq!(
        SnowflakeError::InvalidEpoch.message(),
        "epoch must be greater than the current time"
    );
    assert_eq!(
        SnowflakeError::FailedConvertToMillis.message(),
        "failed to convert timestamp to milliseconds"
    );
    let e = SnowflakeError::ArgumentError(String::from("no room"));
    assert_eq!(e.message(), "argument error: no room");
}

#[test]
fn generated_id_packs_the_new_state() {
    let mut g = Snowflake::new(9).unwrap();
    for _ in 0..3 {
        let id = g.generate().unwrap();
        assert_eq!(id, (g.last_timestamp() << 22) | (g.worker_id() << 12) | g.sequence());
    }
}

#[test]
fn interleaved_workers_never_collide() {
    let mut a = Snowflake::new(1).unwrap();
    let mut b = Snowflake::new(2).unwrap();
    let mut ids = Vec::new();
    for _ in 0..50 {
        ids.push(a.generate().unwrap());
        ids.push(b.generate().unwrap());
    }
    let mut sorted = ids.clone();
    sorted.sort_unstable();
    sorted.dedup();
    assert_eq!(sorted.len(), ids.len());
}
