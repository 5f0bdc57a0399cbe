use ledger_query::error::Error;
use ledger_query::row::Row;
use ledger_query::transfer::{transfers_from_rows, TransferRecord};

const TRANSFER_COLUMNS: [&str; 15] = [
    "tx_id",
    "source",
    "target",
    "token",
    "amount",
    "key",
    "shielded",
    "block_id",
    "tx_type",
    "wrapper_id",
    "fee_amount_per_gas_unit",
    "fee_token",
    "gas_limit_multiplier",
    "header_height",
    "header_time",
];

fn full_transfer_row(tag: &str) -> Row {
    let mut row = Row::new();
    for name in TRANSFER_COLUMNS {
        row.push_text(String::from(name), format!("{name}-{tag}"));
    }
    row
}

#[test]
fn transfer_row_with_all_columns_keeps_every_value() {
    let row = full_transfer_row("a");
    let record = TransferRecord::try_from_row(&row).expect("all columns present");
    assert_eq!(record.tx_id, "tx_id-a");
    assert_eq!(record.source, "source-a");
    assert_eq!(record.target, "target-a");
    assert_eq!(record.token, "token-a");
    assert_eq!(record.amount, "amount-a");
    assert_eq!(record.key, "key-a");
    assert_eq!(record.shielded, "shielded-a");
    assert_eq!(record.block_id, "block_id-a");
    assert_eq!(record.tx_type, "tx_type-a");
    assert_eq!(record.wrapper_id, "wrapper_id-a");
    assert_eq!(record.fee_amount_per_gas_unit, "fee_amount_per_gas_unit-a");
    assert_eq!(record.fee_token, "fee_token-a");
    assert_eq!(record.gas_limit_multiplier, "gas_limit_multiplier-a");
    assert_eq!(record.header_height, "header_height-a");
    assert_eq!(record.header_time, "header_time-a");
}

#[test]
fn transfer_row_missing_a_column_fails_and_names_it() {
    let mut row = Row::new();
    for name in TRANSFER_COLUMNS {
        if name != "amount" {
            row.push_text(String::from(name), String::from("x"));
        }
    }
    match TransferRecord::try_from_row(&row) {
        Err(Error::MappingFailure(column)) => assert_eq!(column, "amount"),
        other => panic!("expected a mapping failure, got {other:?}"),
    }
}

#[test]
fn transfer_row_with_mistyped_column_fails_and_names_it() {
    let mut row = Row::new();
    for name in TRANSFER_COLUMNS {
        if name == "shielded" {
            row.push_bigint(String::from(name), 1);
        } else {
            row.push_text(String::from(name), String::from("x"));
        }
    }
    match TransferRecord::try_from_row(&row) {
        Err(Error::MappingFailure(column)) => assert_eq!(column, "shielded"),
        other => panic!("expected a mapping failure, got {other:?}"),
    }
}

#[test]
fn no_matching_transfers_is_an_empty_list_not_an_error() {
    let rows: Vec<Row> = Vec::new();
    let records = transfers_from_rows(&rows).expect("empty result is not an error");
    assert!(records.is_empty());
}

#[test]
fn one_malformed_row_aborts_the_whole_response() {
    let mut bad = Row::new();
    bad.push_text(String::from("tx_id"), String::from("only-this"));
    let rows = vec![full_transfer_row("a"), bad, full_transfer_row("c")];
    match transfers_from_rows(&rows) {
        Err(Error::MappingFailure(column)) => assert_eq!(column, "source"),
        other => panic!("expected a mapping failure, got {other:?}"),
    }
}

#[test]
fn all_rows_well_formed_maps_every_row_in_order() {
    let rows = vec![full_transfer_row("a"), full_transfer_row("b")];
    let records = transfers_from_rows(&rows).expect("both rows are well formed");
    assert_eq!(records.len(), 2);
    assert_eq!(records[0].tx_id, "tx_id-a");
    assert_eq!(records[1].tx_id, "tx_id-b");
}

#[test]
fn duplicate_column_names_resolve_to_the_first() {
    let mut row = Row::new();
    row.push_text(String::from("tx_id"), String::from("first"));
    row.push_text(String::from("tx_id"), String::from("second"));
    assert_eq!(row.try_get_text("tx_id").unwrap(), "first");
}

#[test]
fn error_kinds_classify_without_internal_detail() {
    assert_eq!(Error::InvalidAddressEncoding.kind(), "invalid address encoding");
    assert_eq!(Error::StoreFailure.kind(), "store failure");
    assert_eq!(Error::MappingFailure(String::from("count")).kind(), "mapping failure");
}
