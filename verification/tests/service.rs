use std::sync::Arc;
use std::time::Instant;

use snowflake::decimal::format_padded_decimal;
use snowflake::generator::{IdErr, SafeIdGenerator};
use snowflake::log_layer::LogLayer;
use snowflake::service::{fault_message, IdGenService};
use snowflake::structure::IdStructure;

fn setup_good() -> SafeIdGenerator {
    let st = IdStructure::builder()
        .timestamp_bits(50)
        .gen_id_bits(13)
        .sequence_bits(1)
        .epoch(Instant::now())
        .create()
        .unwrap();
    SafeIdGenerator::builder().structure(st).id(0).create().unwrap()
}

#[test]
fn padded_decimal_exact_values() {
    assert_eq!(format_padded_decimal(0, 18), "000000000000000000");
    assert_eq!(format_padded_decimal(1, 18), "000000000000000001");
    assert_eq!(format_padded_decimal(123, 5), "00123");
    assert_eq!(format_padded_decimal(123456, 5), "123456");
    assert_eq!(format_padded_decimal(u64::MAX, 18), "18446744073709551615");
}

#[test]
fn fault_message_text() {
    assert_eq!(fault_message(&IdErr::NonMonotonic), "Clock source not monotonic.");
}

#[test]
fn service_returns_padded_decimal_id() {
    let service = IdGenService::new(Arc::new(setup_good()));
    let s = service.get_next_id().unwrap();
    assert_eq!(s.len(), 18);
    assert!(s.chars().all(|c| c.is_ascii_digit()));
    assert!(s.parse::<u64>().unwrap() > 0);
}

#[test]
fn service_ids_differ_across_calls() {
    let service = IdGenService::new(Arc::new(setup_good()));
    let a = service.get_next_id().unwrap();
    let b = service.get_next_id().unwrap();
    assert_ne!(a, b);
}

#[test]
fn interceptor_stages_compose_around_a_service() {
    let inner = IdGenService::new(Arc::new(setup_good()));
    let stage = LogLayer::new("idgen").layer(inner);
    assert_eq!(stage.target(), "idgen");

    let stack = LogLayer::new("outer").layer(stage);
    assert_eq!(stack.target(), "outer");

    let (outer_label, stage) = stack.into_parts();
    assert_eq!(outer_label, "outer");
    let (label, service) = stage.into_parts();
    assert_eq!(label, "idgen");
    assert!(service.get_next_id().is_ok());
}
