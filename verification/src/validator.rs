use vstd::prelude::*;

use crate::error::Error;
use crate::row::{bigint_at, text_at, Row, RowModel};

verus! {

/// One validator's aggregate signing activity, as the store reports it. The
/// block fields are opaque strings: either both real block identifiers or
/// both the store's "no data" sentinel.
#[derive(Debug, PartialEq)]
pub struct Validator {
    pub address: String,
    pub blocks_signed: i64,
    pub oldest_block: String,
    pub latest_block: String,
}

/// The mathematical shape of a validator entry.
#[verifier::ext_equal]
pub struct ValidatorModel {
    pub address: Seq<char>,
    pub blocks_signed: int,
    pub oldest_block: Seq<char>,
    pub latest_block: Seq<char>,
}

impl View for Validator {
    type V = ValidatorModel;

    open spec fn view(&self) -> ValidatorModel {
        ValidatorModel {
            address: self.address@,
            blocks_signed: self.blocks_signed as int,
            oldest_block: self.oldest_block@,
            latest_block: self.latest_block@,
        }
    }
}

/// Whether a row holds every column a validator entry needs, each of the
/// right primitive type.
pub open spec fn validator_row_ok(cols: RowModel) -> bool {
    &&& text_at(cols, "address"@) is Some
    &&& bigint_at(cols, "blocks_signed"@) is Some
    &&& text_at(cols, "oldest_block"@) is Some
    &&& text_at(cols, "latest_block"@) is Some
}

/// The validator entry a well-formed row denotes.
pub open spec fn spec_validator(cols: RowModel) -> ValidatorModel {
    ValidatorModel {
        address: text_at(cols, "address"@)->0,
        blocks_signed: bigint_at(cols, "blocks_signed"@)->0,
        oldest_block: text_at(cols, "oldest_block"@)->0,
        latest_block: text_at(cols, "latest_block"@)->0,
    }
}

/// The first validator column, in declaration order, that the row is missing
/// (or holds with the wrong type).
pub open spec fn validator_first_bad_column(cols: RowModel) -> Seq<char> {
    if text_at(cols, "address"@) is None {
        "address"@
    } else if bigint_at(cols, "blocks_signed"@) is None {
        "blocks_signed"@
    } else if text_at(cols, "oldest_block"@) is None {
        "oldest_block"@
    } else {
        "latest_block"@
    }
}

impl Validator {
    /// Builds a validator entry from one store row, all or nothing: the first
    /// missing or mistyped column fails the whole row, named in the error.
    pub fn try_from_row(row: &Row) -> (r: Result<Validator, Error>)
        ensures
            r is Ok <==> validator_row_ok(row@),
            r matches Ok(v) ==> v@ == spec_validator(row@),
            r matches Err(e) ==> (e matches Error::MappingFailure(c) && c@
                == validator_first_bad_column(row@)),
    {
        let entry = Validator {
            address: row.try_get_text("address")?,
            blocks_signed: row.try_get_bigint("blocks_signed")?,
            oldest_block: row.try_get_text("oldest_block")?,
            latest_block: row.try_get_text("latest_block")?,
        };
        proof {
            assert(entry@ =~= spec_validator(row@));
        }
        Ok(entry)
    }
}

/// The models of a sequence of validator entries.
pub open spec fn validator_models(vs: Seq<Validator>) -> Seq<ValidatorModel> {
    vs.map_values(|v: Validator| v@)
}

/// Whether every row of a store result can be mapped to a validator entry.
pub open spec fn all_validator_rows_ok(rs: Seq<RowModel>) -> bool {
    forall|i: int| 0 <= i < rs.len() ==> validator_row_ok(#[trigger] rs[i])
}

/// The validator roster a store result denotes, row by row in store order.
pub open spec fn spec_validators(rs: Seq<RowModel>) -> Seq<ValidatorModel> {
    rs.map_values(|cols: RowModel| spec_validator(cols))
}

/// The index of the first row that cannot be mapped to a validator entry.
pub open spec fn first_bad_validator_row(rs: Seq<RowModel>) -> int
    decreases rs.len(),
{
    if rs.len() == 0 {
        0
    } else if !validator_row_ok(rs[0]) {
        0
    } else {
        1 + first_bad_validator_row(rs.drop_first())
    }
}

proof fn lemma_first_bad_validator_row(rs: Seq<RowModel>, i: int)
    requires
        0 <= i < rs.len(),
        forall|j: int| 0 <= j < i ==> validator_row_ok(#[trigger] rs[j]),
        !validator_row_ok(rs[i]),
    ensures
        first_bad_validator_row(rs) == i,
    decreases i,
{
    if i > 0 {
        assert(forall|j: int| 0 <= j < i - 1 ==> rs.drop_first()[j] == rs[j + 1]);
        lemma_first_bad_validator_row(rs.drop_first(), i - 1);
    }
}

/// Maps a whole store result to the validator roster, all or nothing: the
/// first row that cannot be mapped aborts the whole response with its error,
/// and no partial roster is ever returned.
pub fn validators_from_rows(rows: &Vec<Row>) -> (r: Result<Vec<Validator>, Error>)
    ensures
        r is Ok <==> all_validator_rows_ok(crate::transfer::row_models(rows@)),
        r matches Ok(vs) ==> validator_models(vs@) == spec_validators(
            crate::transfer::row_models(rows@),
        ),
        r matches Err(e) ==> (e matches Error::MappingFailure(c) && c@
            == validator_first_bad_column(
            crate::transfer::row_models(rows@)[first_bad_validator_row(
                crate::transfer::row_models(rows@),
            )],
        )),
{
    let ghost rs = crate::transfer::row_models(rows@);
    let mut out: Vec<Validator> = Vec::new();
    let n = rows.len();
    for i in 0..n
        invariant
            n == rows.len(),
            rs == crate::transfer::row_models(rows@),
            out@.len() == i,
            forall|j: int| 0 <= j < i ==> validator_row_ok(#[trigger] rs[j]),
            forall|j: int| 0 <= j < i ==> (#[trigger] out@[j])@ == spec_validator(rs[j]),
    {
        match Validator::try_from_row(&rows[i]) {
            Ok(v) => {
                out.push(v);
            },
            Err(e) => {
                proof {
                    lemma_first_bad_validator_row(rs, i as int);
                }
                return Err(e);
            },
        }
    }
    proof {
        assert(validator_models(out@) =~= spec_validators(rs));
    }
    Ok(out)
}

/// Law: a store result with no rows maps to the empty roster, never to an
/// error — an empty store yields an empty validator list.
pub proof fn lemma_no_validator_rows_no_error(rs: Seq<RowModel>)
    requires
        rs.len() == 0,
    ensures
        all_validator_rows_ok(rs),
        spec_validators(rs).len() == 0,
{
}

/// The count of commits a validator made in a queried block range. Transient:
/// only an intermediate for the uptime computation.
#[derive(Debug, PartialEq)]
pub struct CommitCount(pub i64);

/// Whether a row holds the single integer column a commit count needs.
pub open spec fn commit_count_row_ok(cols: RowModel) -> bool {
    bigint_at(cols, "count"@) is Some
}

/// The commit count a well-formed row denotes.
pub open spec fn spec_commit_count(cols: RowModel) -> int {
    bigint_at(cols, "count"@)->0
}

impl CommitCount {
    /// Reads the commit count from the store's single aggregate row.
    pub fn try_from_row(row: &Row) -> (r: Result<CommitCount, Error>)
        ensures
            r is Ok <==> commit_count_row_ok(row@),
            r matches Ok(c) ==> c.0 as int == spec_commit_count(row@),
            r matches Err(e) ==> (e matches Error::MappingFailure(c) && c@ == "count"@),
    {
        let count: i64 = row.try_get_bigint("count")?;
        Ok(CommitCount(count))
    }
}

/// Whether `c` is a hexadecimal digit, in either case.
pub open spec fn is_hex_digit(c: char) -> bool {
    ('0' <= c && c <= '9') || ('a' <= c && c <= 'f') || ('A' <= c && c <= 'F')
}

/// The value of a hexadecimal digit.
pub open spec fn hex_digit_value(c: char) -> int {
    if '0' <= c && c <= '9' {
        c as int - '0' as int
    } else if 'a' <= c && c <= 'f' {
        c as int - 'a' as int + 10
    } else {
        c as int - 'A' as int + 10
    }
}

/// Whether `s` is a well-formed hexadecimal encoding: even length, every
/// character a hexadecimal digit.
pub open spec fn hex_decode_ok(s: Seq<char>) -> bool {
    s.len() % 2 == 0 && (forall|i: int| 0 <= i < s.len() ==> is_hex_digit(#[trigger] s[i]))
}

/// The bytes a well-formed hexadecimal string denotes, high digit first.
pub open spec fn hex_decoded(s: Seq<char>) -> Seq<u8> {
    Seq::new(
        (s.len() / 2) as nat,
        |i: int| (hex_digit_value(s[2 * i]) * 16 + hex_digit_value(s[2 * i + 1])) as u8,
    )
}

/// Relies on `hex::decode`: it succeeds exactly on inputs of even length
/// whose characters are all hexadecimal digits (upper or lower case), and
/// then returns the denoted bytes, high digit first.
#[verifier::external_body]
fn hex_decode(address: &str) -> (r: Option<Vec<u8>>)
    ensures
        r is Some <==> hex_decode_ok(address@),
        r matches Some(v) ==> v@ == hex_decoded(address@),
{
    hex::decode(address).ok()
}

/// Decodes a validator address from its hexadecimal request form, before any
/// store access: a malformed address is a client error and never reaches the
/// store.
pub fn decode_validator_address(address: &str) -> (r: Result<Vec<u8>, Error>)
    ensures
        r is Ok <==> hex_decode_ok(address@),
        r matches Ok(v) ==> v@ == hex_decoded(address@),
        r matches Err(e) ==> e is InvalidAddressEncoding,
{
    match hex_decode(address) {
        Some(bytes) => Ok(bytes),
        None => Err(Error::InvalidAddressEncoding),
    }
}

/// The width of the block window an uptime request falls back to when the
/// caller supplies no explicit range.
pub const DEFAULT_RANGE_SIZE: i64 = 500;

/// The size of the queried block range: `end - start` when the caller gave
/// both bounds, the default window otherwise. By design the bounds are not
/// validated against each other, so an inverted range yields a negative size,
/// and equal bounds yield zero; both are passed through unchanged.
pub open spec fn spec_range_size(start: Option<i32>, end: Option<i32>) -> int {
    match (start, end) {
        (Some(s), Some(e)) => e as int - s as int,
        _ => DEFAULT_RANGE_SIZE as int,
    }
}

/// A validator's uptime over a queried range, kept as the exact pair the
/// ratio is made of: the response layer divides `commit_count` by
/// `range_size` when it renders the value.
#[derive(Debug, PartialEq)]
pub struct UptimeFraction {
    pub commit_count: i64,
    pub range_size: i64,
}

/// Combines a commit count with the requested range into the uptime fraction.
pub fn uptime_fraction(commits: &CommitCount, start: Option<i32>, end: Option<i32>) -> (r:
    UptimeFraction)
    ensures
        r.commit_count == commits.0,
        r.range_size as int == spec_range_size(start, end),
{
    let range_size: i64 = match (start, end) {
        (Some(s), Some(e)) => (e as i64) - (s as i64),
        _ => DEFAULT_RANGE_SIZE,
    };
    UptimeFraction { commit_count: commits.0, range_size }
}

/// Turns the store's aggregate commit-count row and the requested range into
/// the uptime fraction, all or nothing: a row without the expected count
/// column aborts the request with its error.
pub fn uptime_from_row(row: &Row, start: Option<i32>, end: Option<i32>) -> (r: Result<
    UptimeFraction,
    Error,
>)
    ensures
        r is Ok <==> commit_count_row_ok(row@),
        r matches Ok(u) ==> u.commit_count as int == spec_commit_count(row@) && u.range_size as int
            == spec_range_size(start, end),
        r matches Err(e) ==> (e matches Error::MappingFailure(c) && c@ == "count"@),
{
    let commits = CommitCount::try_from_row(row)?;
    Ok(uptime_fraction(&commits, start, end))
}

} // verus!
