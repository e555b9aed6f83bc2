use std::time::{Duration, Instant};

use itertools::Itertools;
use snowflake::encoding::{decode_gen_field, decode_seq_field, decode_time_field, encode_id};
use snowflake::generator::{Attempt, SafeIdGenerator, SimpleState, try_advance};
use snowflake::structure::{ConfigurationError, IdStructure};

fn good_structure() -> IdStructure {
    IdStructure::builder()
        .timestamp_bits(50)
        .gen_id_bits(13)
        .sequence_bits(1)
        .epoch(Instant::now())
        .create()
        .unwrap()
}

fn setup_good() -> SafeIdGenerator {
    SafeIdGenerator::builder()
        .structure(good_structure())
        .id(0)
        .create()
        .unwrap()
}

#[test]
#[should_panic]
fn structure_bits_add_to_64() {
    IdStructure::builder()
        .gen_id_bits(0)
        .sequence_bits(0)
        .timestamp_bits(0)
        .epoch(Instant::now())
        .create()
        .unwrap();
}

#[test]
fn generator_gets_single_id() {
    let id_generator = setup_good();
    let id = id_generator.get_id().unwrap();
    assert!(id > 0)
}

#[test]
fn generator_spin_waits_after_sequence_exhaustion_for_new_id() {
    let st = good_structure();
    let gen = SafeIdGenerator::builder().structure(st).id(0).create().unwrap();
    let mut ids = [0u64; 4];
    for i in 0..4 {
        ids[i] = gen.get_id().unwrap();
    }

    let get_ts = |i: u64| (i >> st.get_time_shift()) & st.get_time_mask();
    assert!(get_ts(ids[1]) < get_ts(ids[3]));
}

#[test]
fn iterator_gets_multiple_ids() {
    let mut gen = setup_good();
    assert!((0..4).map(|_| gen.iter_mut().next().unwrap()).all_unique());
}

#[test]
fn structure_accepts_any_widths_summing_to_64() {
    for (a, b, c) in [(41u8, 10u8, 13u8), (64, 0, 0), (0, 64, 0), (0, 0, 64), (1, 1, 62)] {
        let r = IdStructure::builder()
            .timestamp_bits(a)
            .gen_id_bits(b)
            .sequence_bits(c)
            .epoch(Instant::now())
            .create();
        assert!(r.is_ok());
    }
}

#[test]
fn structure_rejects_bad_bit_sum() {
    let r = IdStructure::builder()
        .timestamp_bits(50)
        .gen_id_bits(13)
        .sequence_bits(2)
        .epoch(Instant::now())
        .create();
    assert_eq!(r.unwrap_err(), ConfigurationError::BitsDoNotSumTo64);
}

#[test]
fn structure_rejects_future_epoch() {
    let r = IdStructure::builder()
        .timestamp_bits(50)
        .gen_id_bits(13)
        .sequence_bits(1)
        .epoch(Instant::now() + Duration::from_secs(3600))
        .create();
    assert_eq!(r.unwrap_err(), ConfigurationError::EpochInFuture);
}

#[test]
fn structure_reports_missing_fields() {
    assert_eq!(
        IdStructure::builder().create().unwrap_err(),
        ConfigurationError::MissingTimestampBits
    );
    assert_eq!(
        IdStructure::builder().timestamp_bits(50).create().unwrap_err(),
        ConfigurationError::MissingGeneratorIdBits
    );
    assert_eq!(
        IdStructure::builder().timestamp_bits(50).gen_id_bits(13).create().unwrap_err(),
        ConfigurationError::MissingSequenceBits
    );
    assert_eq!(
        IdStructure::builder()
            .timestamp_bits(50)
            .gen_id_bits(13)
            .sequence_bits(1)
            .create()
            .unwrap_err(),
        ConfigurationError::MissingEpoch
    );
}

#[test]
fn masks_and_shifts_for_reference_layout() {
    let st = good_structure();
    assert_eq!(st.get_time_mask(), (1u64 << 50) - 1);
    assert_eq!(st.get_gen_id_mask(), (1u64 << 13) - 1);
    assert_eq!(st.get_sequence_mask(), 1);
    assert_eq!(st.get_time_shift(), 14);
    assert_eq!(st.get_gen_shift(), 1);
}

#[test]
fn masks_for_full_width_fields() {
    let st = IdStructure::builder()
        .timestamp_bits(64)
        .gen_id_bits(0)
        .sequence_bits(0)
        .epoch(Instant::now())
        .create()
        .unwrap();
    assert_eq!(st.get_time_mask(), u64::MAX);
    assert_eq!(st.get_gen_id_mask(), 0);
    assert_eq!(st.get_sequence_mask(), 0);
    assert_eq!(st.get_time_shift(), 0);
    assert_eq!(st.get_gen_shift(), 0);
}

#[test]
fn generator_builder_reports_missing_fields() {
    assert_eq!(
        SafeIdGenerator::builder().create().err().unwrap(),
        ConfigurationError::MissingStructure
    );
    assert_eq!(
        SafeIdGenerator::builder().structure(good_structure()).create().err().unwrap(),
        ConfigurationError::MissingGeneratorId
    );
}

#[test]
fn generator_builder_rejects_oversized_identity() {
    let r = SafeIdGenerator::builder()
        .structure(good_structure())
        .id(1 << 13)
        .create();
    assert_eq!(r.err().unwrap(), ConfigurationError::GeneratorIdExceedsMask);
}

#[test]
fn decoded_generator_id_matches_configuration() {
    let st = good_structure();
    let gen = SafeIdGenerator::builder().structure(st).id(42).create().unwrap();
    for _ in 0..8 {
        let id = gen.get_id().unwrap();
        assert_eq!(decode_gen_field(&st, id), 42);
        assert_eq!((id >> st.get_gen_shift()) & st.get_gen_id_mask(), 42);
    }
}

#[test]
fn sequential_ids_strictly_increase() {
    let gen = setup_good();
    let mut previous = 0u64;
    for _ in 0..200 {
        let id = gen.get_id().unwrap();
        assert!(id > previous);
        previous = id;
    }
}

#[test]
fn encode_then_decode_recovers_fields() {
    let st = good_structure();
    let id = encode_id(&st, 12345, 42, 1);
    assert_eq!(decode_time_field(&st, id), 12345);
    assert_eq!(decode_gen_field(&st, id), 42);
    assert_eq!(decode_seq_field(&st, id), 1);
    assert_eq!(id, (12345u64 << 14) + (42u64 << 1) + 1);
}

#[test]
fn regressed_clock_fails_and_leaves_state_unchanged() {
    let st = good_structure();
    let mut state = SimpleState { id: 3, sequence: 1, last_gen: 7 };
    let before = state;
    let r = try_advance(&st, &mut state, 6);
    assert!(matches!(r, Attempt::Regressed));
    assert_eq!(state, before);
}

#[test]
fn exhausted_tick_leaves_state_unchanged() {
    let st = good_structure();
    let mut state = SimpleState { id: 3, sequence: 1, last_gen: 7 };
    let before = state;
    let r = try_advance(&st, &mut state, 7);
    assert!(matches!(r, Attempt::Exhausted));
    assert_eq!(state, before);
}

#[test]
fn issuing_advances_state() {
    let st = good_structure();
    let mut state = SimpleState { id: 3, sequence: 0, last_gen: 7 };

    // Same tick: the sequence steps by one.
    match try_advance(&st, &mut state, 7) {
        Attempt::Issued(id) => {
            assert_eq!(state, SimpleState { id: 3, sequence: 1, last_gen: 7 });
            assert_eq!(id, (7u64 << 14) + (3u64 << 1) + 1);
        },
        other => panic!("expected an issued id, got {:?}", other),
    }

    // Fresh tick: the sequence restarts at zero.
    match try_advance(&st, &mut state, 9) {
        Attempt::Issued(id) => {
            assert_eq!(state, SimpleState { id: 3, sequence: 0, last_gen: 9 });
            assert_eq!(id, (9u64 << 14) + (3u64 << 1));
        },
        other => panic!("expected an issued id, got {:?}", other),
    }
}

#[test]
fn clock_readings_do_not_go_backwards_in_practice() {
    let st = good_structure();
    let t1 = st.get_ticks();
    let e1 = st.get_elapsed();
    let e2 = st.get_elapsed();
    let t2 = st.get_ticks();
    assert!(e2 >= e1);
    assert!(t2 >= t1);
}
