use vstd::prelude::*;

use crate::error::Error;
use crate::row::{text_at, Row, RowModel};

verus! {

/// One ledger transfer, an immutable snapshot of a store row. Every field is
/// an opaque string at this layer: nothing is trimmed, converted or validated
/// semantically.
#[derive(Debug, PartialEq)]
pub struct TransferRecord {
    pub tx_id: String,
    pub source: String,
    pub target: String,
    pub token: String,
    pub amount: String,
    pub key: String,
    pub shielded: String,
    pub block_id: String,
    pub tx_type: String,
    pub wrapper_id: String,
    pub fee_amount_per_gas_unit: String,
    pub fee_token: String,
    pub gas_limit_multiplier: String,
    pub header_height: String,
    pub header_time: String,
}

/// The mathematical shape of a transfer record.
#[verifier::ext_equal]
pub struct TransferModel {
    pub tx_id: Seq<char>,
    pub source: Seq<char>,
    pub target: Seq<char>,
    pub token: Seq<char>,
    pub amount: Seq<char>,
    pub key: Seq<char>,
    pub shielded: Seq<char>,
    pub block_id: Seq<char>,
    pub tx_type: Seq<char>,
    pub wrapper_id: Seq<char>,
    pub fee_amount_per_gas_unit: Seq<char>,
    pub fee_token: Seq<char>,
    pub gas_limit_multiplier: Seq<char>,
    pub header_height: Seq<char>,
    pub header_time: Seq<char>,
}

impl View for TransferRecord {
    type V = TransferModel;

    open spec fn view(&self) -> TransferModel {
        TransferModel {
            tx_id: self.tx_id@,
            source: self.source@,
            target: self.target@,
            token: self.token@,
            amount: self.amount@,
            key: self.key@,
            shielded: self.shielded@,
            block_id: self.block_id@,
            tx_type: self.tx_type@,
            wrapper_id: self.wrapper_id@,
            fee_amount_per_gas_unit: self.fee_amount_per_gas_unit@,
            fee_token: self.fee_token@,
            gas_limit_multiplier: self.gas_limit_multiplier@,
            header_height: self.header_height@,
            header_time: self.header_time@,
        }
    }
}

/// Whether a row holds every column a transfer record needs, each as text.
pub open spec fn transfer_row_ok(cols: RowModel) -> bool {
    &&& text_at(cols, "tx_id"@) is Some
    &&& text_at(cols, "source"@) is Some
    &&& text_at(cols, "target"@) is Some
    &&& text_at(cols, "token"@) is Some
    &&& text_at(cols, "amount"@) is Some
    &&& text_at(cols, "key"@) is Some
    &&& text_at(cols, "shielded"@) is Some
    &&& text_at(cols, "block_id"@) is Some
    &&& text_at(cols, "tx_type"@) is Some
    &&& text_at(cols, "wrapper_id"@) is Some
    &&& text_at(cols, "fee_amount_per_gas_unit"@) is Some
    &&& text_at(cols, "fee_token"@) is Some
    &&& text_at(cols, "gas_limit_multiplier"@) is Some
    &&& text_at(cols, "header_height"@) is Some
    &&& text_at(cols, "header_time"@) is Some
}

/// The transfer record a well-formed row denotes.
pub open spec fn spec_transfer(cols: RowModel) -> TransferModel {
    TransferModel {
        tx_id: text_at(cols, "tx_id"@)->0,
        source: text_at(cols, "source"@)->0,
        target: text_at(cols, "target"@)->0,
        token: text_at(cols, "token"@)->0,
        amount: text_at(cols, "amount"@)->0,
        key: text_at(cols, "key"@)->0,
        shielded: text_at(cols, "shielded"@)->0,
        block_id: text_at(cols, "block_id"@)->0,
        tx_type: text_at(cols, "tx_type"@)->0,
        wrapper_id: text_at(cols, "wrapper_id"@)->0,
        fee_amount_per_gas_unit: text_at(cols, "fee_amount_per_gas_unit"@)->0,
        fee_token: text_at(cols, "fee_token"@)->0,
        gas_limit_multiplier: text_at(cols, "gas_limit_multiplier"@)->0,
        header_height: text_at(cols, "header_height"@)->0,
        header_time: text_at(cols, "header_time"@)->0,
    }
}

/// The first transfer column, in declaration order, that the row is missing
/// (or holds with the wrong type).
pub open spec fn transfer_first_bad_column(cols: RowModel) -> Seq<char> {
    if text_at(cols, "tx_id"@) is None {
        "tx_id"@
    } else if text_at(cols, "source"@) is None {
        "source"@
    } else if text_at(cols, "target"@) is None {
        "target"@
    } else if text_at(cols, "token"@) is None {
        "token"@
    } else if text_at(cols, "amount"@) is None {
        "amount"@
    } else if text_at(cols, "key"@) is None {
        "key"@
    } else if text_at(cols, "shielded"@) is None {
        "shielded"@
    } else if text_at(cols, "block_id"@) is None {
        "block_id"@
    } else if text_at(cols, "tx_type"@) is None {
        "tx_type"@
    } else if text_at(cols, "wrapper_id"@) is None {
        "wrapper_id"@
    } else if text_at(cols, "fee_amount_per_gas_unit"@) is None {
        "fee_amount_per_gas_unit"@
    } else if text_at(cols, "fee_token"@) is None {
        "fee_token"@
    } else if text_at(cols, "gas_limit_multiplier"@) is None {
        "gas_limit_multiplier"@
    } else if text_at(cols, "header_height"@) is None {
        "header_height"@
    } else {
        "header_time"@
    }
}

impl TransferRecord {
    /// Builds a transfer record from one store row, all or nothing: the first
    /// missing or mistyped column fails the whole row, named in the error.
    pub fn try_from_row(row: &Row) -> (r: Result<TransferRecord, Error>)
        ensures
            r is Ok <==> transfer_row_ok(row@),
            r matches Ok(t) ==> t@ == spec_transfer(row@),
            r matches Err(e) ==> (e matches Error::MappingFailure(c) && c@
                == transfer_first_bad_column(row@)),
    {
        let record = TransferRecord {
            tx_id: row.try_get_text("tx_id")?,
            source: row.try_get_text("source")?,
            target: row.try_get_text("target")?,
            token: row.try_get_text("token")?,
            amount: row.try_get_text("amount")?,
            key: row.try_get_text("key")?,
            shielded: row.try_get_text("shielded")?,
            block_id: row.try_get_text("block_id")?,
            tx_type: row.try_get_text("tx_type")?,
            wrapper_id: row.try_get_text("wrapper_id")?,
            fee_amount_per_gas_unit: row.try_get_text("fee_amount_per_gas_unit")?,
            fee_token: row.try_get_text("fee_token")?,
            gas_limit_multiplier: row.try_get_text("gas_limit_multiplier")?,
            header_height: row.try_get_text("header_height")?,
            header_time: row.try_get_text("header_time")?,
        };
        proof {
            assert(record@ =~= spec_transfer(row@));
        }
        Ok(record)
    }
}

/// The models of a sequence of store rows.
pub open spec fn row_models(rows: Seq<Row>) -> Seq<RowModel> {
    rows.map_values(|r: Row| r@)
}

/// The models of a sequence of transfer records.
pub open spec fn transfer_models(ts: Seq<TransferRecord>) -> Seq<TransferModel> {
    ts.map_values(|t: TransferRecord| t@)
}

/// Whether every row of a store result can be mapped to a transfer record.
pub open spec fn all_transfer_rows_ok(rs: Seq<RowModel>) -> bool {
    forall|i: int| 0 <= i < rs.len() ==> transfer_row_ok(#[trigger] rs[i])
}

/// The transfer records a store result denotes, row by row in store order.
pub open spec fn spec_transfers(rs: Seq<RowModel>) -> Seq<TransferModel> {
    rs.map_values(|cols: RowModel| spec_transfer(cols))
}

/// The index of the first row that cannot be mapped to a transfer record.
pub open spec fn first_bad_transfer_row(rs: Seq<RowModel>) -> int
    decreases rs.len(),
{
    if rs.len() == 0 {
        0
    } else if !transfer_row_ok(rs[0]) {
        0
    } else {
        1 + first_bad_transfer_row(rs.drop_first())
    }
}

proof fn lemma_first_bad_transfer_row(rs: Seq<RowModel>, i: int)
    requires
        0 <= i < rs.len(),
        forall|j: int| 0 <= j < i ==> transfer_row_ok(#[trigger] rs[j]),
        !transfer_row_ok(rs[i]),
    ensures
        first_bad_transfer_row(rs) == i,
    decreases i,
{
    if i > 0 {
        assert(forall|j: int| 0 <= j < i - 1 ==> rs.drop_first()[j] == rs[j + 1]);
        lemma_first_bad_transfer_row(rs.drop_first(), i - 1);
    }
}

/// Maps a whole store result to transfer records, all or nothing: the first
/// row that cannot be mapped aborts the whole response with its error, and no
/// partial list is ever returned.
pub fn transfers_from_rows(rows: &Vec<Row>) -> (r: Result<Vec<TransferRecord>, Error>)
    ensures
        r is Ok <==> all_transfer_rows_ok(row_models(rows@)),
        r matches Ok(ts) ==> transfer_models(ts@) == spec_transfers(row_models(rows@)),
        r matches Err(e) ==> (e matches Error::MappingFailure(c) && c@
            == transfer_first_bad_column(
            row_models(rows@)[first_bad_transfer_row(row_models(rows@))],
        )),
    {
        let ghost rs = row_models(rows@);
        let mut out: Vec<TransferRecord> = Vec::new();
        let n = rows.len();
        for i in 0..n
            invariant
                n == rows.len(),
                rs == row_models(rows@),
                out@.len() == i,
                forall|j: int| 0 <= j < i ==> transfer_row_ok(#[trigger] rs[j]),
                forall|j: int| 0 <= j < i ==> (#[trigger] out@[j])@ == spec_transfer(rs[j]),
        {
            match TransferRecord::try_from_row(&rows[i]) {
                Ok(t) => {
                    out.push(t);
                },
                Err(e) => {
                    proof {
                        lemma_first_bad_transfer_row(rs, i as int);
                    }
                    return Err(e);
                },
            }
        }
        proof {
            assert(transfer_models(out@) =~= spec_transfers(rs));
        }
        Ok(out)
    }

/// Law: a store result with no rows maps to the empty record list, never to
/// an error — "no matching transfers" is a normal, empty response.
pub proof fn lemma_no_transfer_rows_no_error(rs: Seq<RowModel>)
    requires
        rs.len() == 0,
    ensures
        all_transfer_rows_ok(rs),
        spec_transfers(rs).len() == 0,
{
}

/// Law: one row that cannot be mapped, anywhere in a store result, makes the
/// whole mapping fail — the response is an error, never a truncated list.
pub proof fn lemma_bad_transfer_row_aborts(rs: Seq<RowModel>, i: int)
    requires
        0 <= i < rs.len(),
        !transfer_row_ok(rs[i]),
    ensures
        !all_transfer_rows_ok(rs),
{
}

/// Whether a transfer names `address` as its source.
pub open spec fn matches_source(t: TransferModel, address: Seq<char>) -> bool {
    t.source == address
}

/// Whether a transfer names `address` as its target.
pub open spec fn matches_target(t: TransferModel, address: Seq<char>) -> bool {
    t.target == address
}

/// What the by-source query selects from the store's transfers, in store
/// order.
pub open spec fn selected_by_source(store: Seq<TransferModel>, address: Seq<char>) -> Seq<
    TransferModel,
> {
    store.filter(|t: TransferModel| matches_source(t, address))
}

/// What the by-target query selects from the store's transfers, in store
/// order.
pub open spec fn selected_by_target(store: Seq<TransferModel>, address: Seq<char>) -> Seq<
    TransferModel,
> {
    store.filter(|t: TransferModel| matches_target(t, address))
}

/// What the by-source-or-target query selects from the store's transfers, in
/// store order: a transfer matches if the address appears on either side.
pub open spec fn selected_by_source_or_target(
    store: Seq<TransferModel>,
    address: Seq<char>,
) -> Seq<TransferModel> {
    store.filter(
        |t: TransferModel| matches_source(t, address) || matches_target(t, address),
    )
}

proof fn lemma_filter_membership<A>(s: Seq<A>, pred: spec_fn(A) -> bool, x: A)
    ensures
        s.filter(pred).contains(x) <==> (s.contains(x) && pred(x)),
    decreases s.len(),
{
    reveal(Seq::filter);
    if s.len() > 0 {
        let sub = s.drop_last();
        lemma_filter_membership(sub, pred, x);
        assert(s.contains(x) <==> (sub.contains(x) || s.last() == x)) by {
            if s.contains(x) {
                let i = choose|i: int| 0 <= i < s.len() && s[i] == x;
                if i < s.len() - 1 {
                    assert(sub[i] == x);
                }
            }
            if sub.contains(x) {
                let i = choose|i: int| 0 <= i < sub.len() && sub[i] == x;
                assert(s[i] == x);
            }
            if s.last() == x {
                assert(s[s.len() - 1] == x);
            }
        }
        if pred(s.last()) {
            let f = sub.filter(pred).push(s.last());
            assert(f.contains(x) <==> (sub.filter(pred).contains(x) || s.last() == x)) by {
                if f.contains(x) {
                    let i = choose|i: int| 0 <= i < f.len() && f[i] == x;
                    if i < f.len() - 1 {
                        assert(sub.filter(pred)[i] == x);
                    }
                }
                if sub.filter(pred).contains(x) {
                    let i = choose|i: int| 0 <= i < sub.filter(pred).len() && sub.filter(pred)[i]
                        == x;
                    assert(f[i] == x);
                }
                if s.last() == x {
                    assert(f[f.len() - 1] == x);
                }
            }
        }
    }
}

/// Law: the by-source-or-target selection holds a transfer exactly when the
/// by-source selection or the by-target selection holds it — the union of the
/// two, with the store's own duplication semantics.
pub proof fn lemma_source_or_target_is_union(store: Seq<TransferModel>, address: Seq<char>)
    ensures
        forall|t: TransferModel| #[trigger] selected_by_source_or_target(store, address).contains(
            t,
        ) <==> (selected_by_source(store, address).contains(t) || selected_by_target(
            store,
            address,
        ).contains(t)),
{
    assert forall|t: TransferModel| #[trigger] selected_by_source_or_target(
        store,
        address,
    ).contains(t) <==> (selected_by_source(store, address).contains(t) || selected_by_target(
        store,
        address,
    ).contains(t)) by {
        lemma_filter_membership(
            store,
            |t: TransferModel| matches_source(t, address) || matches_target(t, address),
            t,
        );
        lemma_filter_membership(store, |t: TransferModel| matches_source(t, address), t);
        lemma_filter_membership(store, |t: TransferModel| matches_target(t, address), t);
    }
}

} // verus!
