use ledger_query::error::Error;
use ledger_query::row::Row;
use ledger_query::validator::{
    decode_validator_address, uptime_fraction, uptime_from_row, validators_from_rows, CommitCount,
    UptimeFraction, Validator, DEFAULT_RANGE_SIZE,
};

fn validator_row(address: &str, blocks_signed: i64) -> Row {
    let mut row = Row::new();
    row.push_text(String::from("address"), String::from(address));
    row.push_bigint(String::from("blocks_signed"), blocks_signed);
    row.push_text(String::from("oldest_block"), String::from("100"));
    row.push_text(String::from("latest_block"), String::from("900"));
    row
}

#[test]
fn validator_row_with_all_columns_keeps_every_value() {
    let row = validator_row("aabb", 42);
    let entry = Validator::try_from_row(&row).expect("all columns present");
    assert_eq!(entry.address, "aabb");
    assert_eq!(entry.blocks_signed, 42);
    assert_eq!(entry.oldest_block, "100");
    assert_eq!(entry.latest_block, "900");
}

#[test]
fn validator_row_with_mistyped_count_fails_and_names_it() {
    let mut row = Row::new();
    row.push_text(String::from("address"), String::from("aabb"));
    row.push_text(String::from("blocks_signed"), String::from("42"));
    row.push_text(String::from("oldest_block"), String::from("100"));
    row.push_text(String::from("latest_block"), String::from("900"));
    match Validator::try_from_row(&row) {
        Err(Error::MappingFailure(column)) => assert_eq!(column, "blocks_signed"),
        other => panic!("expected a mapping failure, got {other:?}"),
    }
}

#[test]
fn empty_store_yields_an_empty_roster() {
    let rows: Vec<Row> = Vec::new();
    let roster = validators_from_rows(&rows).expect("empty store is not an error");
    assert!(roster.is_empty());
}

#[test]
fn malformed_roster_row_aborts_the_whole_response() {
    let rows = vec![validator_row("aa", 1), Row::new()];
    match validators_from_rows(&rows) {
        Err(Error::MappingFailure(column)) => assert_eq!(column, "address"),
        other => panic!("expected a mapping failure, got {other:?}"),
    }
}

#[test]
fn commit_count_reads_the_count_column() {
    let mut row = Row::new();
    row.push_bigint(String::from("count"), 250);
    assert_eq!(CommitCount::try_from_row(&row).unwrap(), CommitCount(250));
}

#[test]
fn commit_count_row_without_count_fails() {
    let row = Row::new();
    match CommitCount::try_from_row(&row) {
        Err(Error::MappingFailure(column)) => assert_eq!(column, "count"),
        other => panic!("expected a mapping failure, got {other:?}"),
    }
}

#[test]
fn invalid_hex_address_is_a_client_error_before_any_store_access() {
    match decode_validator_address("zz") {
        Err(Error::InvalidAddressEncoding) => {}
        other => panic!("expected an invalid address encoding error, got {other:?}"),
    }
}

#[test]
fn odd_length_hex_address_is_rejected() {
    match decode_validator_address("abc") {
        Err(Error::InvalidAddressEncoding) => {}
        other => panic!("expected an invalid address encoding error, got {other:?}"),
    }
}

#[test]
fn valid_hex_address_decodes_to_its_bytes() {
    assert_eq!(decode_validator_address("00ff10Ab").unwrap(), vec![0x00, 0xff, 0x10, 0xab]);
    assert_eq!(decode_validator_address("").unwrap(), Vec::<u8>::new());
}

#[test]
fn explicit_range_uptime_is_count_over_range() {
    let fraction = uptime_fraction(&CommitCount(250), Some(1000), Some(1500));
    assert_eq!(fraction, UptimeFraction { commit_count: 250, range_size: 500 });
    let uptime = fraction.commit_count as f64 / fraction.range_size as f64;
    assert_eq!(uptime, 0.5);
}

#[test]
fn default_window_uptime_is_count_over_five_hundred() {
    let fraction = uptime_fraction(&CommitCount(100), None, None);
    assert_eq!(fraction.range_size, DEFAULT_RANGE_SIZE);
    let uptime = fraction.commit_count as f64 / fraction.range_size as f64;
    assert_eq!(uptime, 0.2);
}

#[test]
fn one_bound_alone_still_uses_the_default_window() {
    let fraction = uptime_fraction(&CommitCount(10), Some(1000), None);
    assert_eq!(fraction.range_size, DEFAULT_RANGE_SIZE);
}

#[test]
fn uptime_from_row_combines_count_and_range() {
    let mut row = Row::new();
    row.push_bigint(String::from("count"), 250);
    let fraction = uptime_from_row(&row, Some(1000), Some(1500)).unwrap();
    assert_eq!(fraction, UptimeFraction { commit_count: 250, range_size: 500 });
}

#[test]
fn inverted_range_passes_through_as_a_negative_size() {
    let fraction = uptime_fraction(&CommitCount(10), Some(1500), Some(1000));
    assert_eq!(fraction.range_size, -500);
}
