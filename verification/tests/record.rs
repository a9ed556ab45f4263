use dyndns::record::{read_record_target, write_status_ok, RecordError};

#[test]
fn read_takes_the_target_out_of_a_well_formed_body() {
    let body = "{\"id\": 7, \"target\": \"2001:db8::1\", \"type\": \"AAAA\"}";
    assert_eq!(read_record_target(body), Ok("2001:db8::1".to_string()));
}

#[test]
fn read_with_missing_target_is_a_protocol_failure() {
    let body = "{\"id\": 7, \"type\": \"AAAA\"}";
    assert_eq!(read_record_target(body), Err(RecordError::Protocol));
}

#[test]
fn read_with_non_string_target_is_a_protocol_failure() {
    let body = "{\"target\": 42}";
    assert_eq!(read_record_target(body), Err(RecordError::Protocol));
    let body = "{\"target\": null}";
    assert_eq!(read_record_target(body), Err(RecordError::Protocol));
    let body = "{\"target\": [\"2001:db8::1\"]}";
    assert_eq!(read_record_target(body), Err(RecordError::Protocol));
}

#[test]
fn read_of_unparsable_body_is_a_protocol_failure() {
    assert_eq!(read_record_target("not json at all"), Err(RecordError::Protocol));
    assert_eq!(read_record_target(""), Err(RecordError::Protocol));
}

#[test]
fn only_exact_200_counts_as_write_success() {
    assert!(write_status_ok(200));
    assert!(!write_status_ok(201));
    assert!(!write_status_ok(404));
    assert!(!write_status_ok(500));
    assert!(!write_status_ok(204));
    assert!(!write_status_ok(301));
}

#[test]
fn decimal_writes_the_exact_digits() {
    assert_eq!(dyndns::record::decimal_string(0), "0");
    assert_eq!(dyndns::record::decimal_string(7), "7");
    assert_eq!(dyndns::record::decimal_string(10), "10");
    assert_eq!(dyndns::record::decimal_string(90210), "90210");
    assert_eq!(
        dyndns::record::decimal_string(u64::MAX),
        "18446744073709551615"
    );
}

#[test]
fn record_path_names_domain_and_record() {
    assert_eq!(
        dyndns::record::record_path(123, 456),
        "/domains/123/records/456"
    );
    assert_eq!(dyndns::record::record_path(0, 0), "/domains/0/records/0");
}
