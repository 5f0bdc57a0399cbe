use vstd::prelude::*;

use crate::error::Error;

verus! {

/// One value held by a row's column, in one of the two primitive shapes the
/// store hands back to this layer: a text value or a 64-bit signed integer.
pub enum ColumnValue {
    Text(String),
    BigInt(i64),
}

/// The mathematical shape of a column value.
pub enum ColumnModel {
    Text(Seq<char>),
    BigInt(int),
}

impl View for ColumnValue {
    type V = ColumnModel;

    open spec fn view(&self) -> ColumnModel {
        match self {
            ColumnValue::Text(s) => ColumnModel::Text(s@),
            ColumnValue::BigInt(n) => ColumnModel::BigInt(*n as int),
        }
    }
}

/// The mathematical shape of a row: its columns in store order, each a name
/// paired with a value.
pub type RowModel = Seq<(Seq<char>, ColumnModel)>;

/// One opaque, column-addressable result unit returned by the query store.
pub struct Row {
    cols: Vec<(String, ColumnValue)>,
}

impl View for Row {
    type V = RowModel;

    closed spec fn view(&self) -> RowModel {
        self.cols@.map_values(|c: (String, ColumnValue)| (c.0@, c.1@))
    }
}

/// The value of the first column named `name`, if any.
pub open spec fn column_at(cols: RowModel, name: Seq<char>) -> Option<ColumnModel>
    decreases cols.len(),
{
    if cols.len() == 0 {
        None
    } else if cols[0].0 == name {
        Some(cols[0].1)
    } else {
        column_at(cols.drop_first(), name)
    }
}

/// The text value of the first column named `name`, if that column exists and
/// holds text.
pub open spec fn text_at(cols: RowModel, name: Seq<char>) -> Option<Seq<char>> {
    match column_at(cols, name) {
        Some(ColumnModel::Text(s)) => Some(s),
        _ => None,
    }
}

/// The integer value of the first column named `name`, if that column exists
/// and holds an integer.
pub open spec fn bigint_at(cols: RowModel, name: Seq<char>) -> Option<int> {
    match column_at(cols, name) {
        Some(ColumnModel::BigInt(n)) => Some(n),
        _ => None,
    }
}

/// If no column among the first `i` is named `name`, the lookup is decided by
/// the rest of the row.
proof fn lemma_column_at_skip(cols: RowModel, name: Seq<char>, i: int)
    requires
        0 <= i <= cols.len(),
        forall|j: int| 0 <= j < i ==> cols[j].0 != name,
    ensures
        column_at(cols, name) == column_at(cols.skip(i), name),
    decreases i,
{
    if i > 0 {
        assert(cols[0].0 != name);
        assert(forall|j: int| 0 <= j < i - 1 ==> cols.drop_first()[j] == cols[j + 1]);
        lemma_column_at_skip(cols.drop_first(), name, i - 1);
        assert(cols.drop_first().skip(i - 1) =~= cols.skip(i));
    } else {
        assert(cols.skip(0) =~= cols);
    }
}

impl Row {
    /// An empty row, to be grown column by column.
    pub fn new() -> (r: Row)
        ensures
            r@ =~= Seq::<(Seq<char>, ColumnModel)>::empty(),
    {
        Row { cols: Vec::new() }
    }

    /// Appends a text column.
    pub fn push_text(&mut self, name: String, value: String)
        ensures
            final(self)@ =~= old(self)@.push((name@, ColumnModel::Text(value@))),
    {
        self.cols.push((name, ColumnValue::Text(value)));
    }

    /// Appends a 64-bit integer column.
    pub fn push_bigint(&mut self, name: String, value: i64)
        ensures
            final(self)@ =~= old(self)@.push((name@, ColumnModel::BigInt(value as int))),
    {
        self.cols.push((name, ColumnValue::BigInt(value)));
    }

    /// Extracts the text value of the column named `name`, or reports that
    /// column as missing or mistyped.
    pub fn try_get_text(&self, name: &str) -> (r: Result<String, Error>)
        ensures
            r is Ok <==> text_at(self@, name@) is Some,
            r matches Ok(s) ==> text_at(self@, name@) == Some(s@),
            r matches Err(e) ==> (e matches Error::MappingFailure(c) && c@ == name@),
    {
        let needle: String = String::from_str(name);
        let ghost cols = self@;
        let n = self.cols.len();
        for i in 0..n
            invariant
                n == self.cols.len(),
                cols == self@,
                needle@ == name@,
                forall|j: int| 0 <= j < i ==> cols[j].0 != name@,
        {
            if self.cols[i].0 == needle {
                proof {
                    lemma_column_at_skip(cols, name@, i as int);
                    assert(cols.skip(i as int)[0] == cols[i as int]);
                }
                match &self.cols[i].1 {
                    ColumnValue::Text(s) => {
                        return Ok(s.clone());
                    },
                    ColumnValue::BigInt(_) => {
                        return Err(Error::MappingFailure(needle));
                    },
                }
            }
        }
        proof {
            lemma_column_at_skip(cols, name@, n as int);
            assert(cols.skip(n as int) =~= Seq::<(Seq<char>, ColumnModel)>::empty());
        }
        Err(Error::MappingFailure(needle))
    }

    /// Extracts the 64-bit integer value of the column named `name`, or
    /// reports that column as missing or mistyped.
    pub fn try_get_bigint(&self, name: &str) -> (r: Result<i64, Error>)
        ensures
            r is Ok <==> bigint_at(self@, name@) is Some,
            r matches Ok(v) ==> bigint_at(self@, name@) == Some(v as int),
            r matches Err(e) ==> (e matches Error::MappingFailure(c) && c@ == name@),
    {
        let needle: String = String::from_str(name);
        let ghost cols = self@;
        let n = self.cols.len();
        for i in 0..n
            invariant
                n == self.cols.len(),
                cols == self@,
                needle@ == name@,
                forall|j: int| 0 <= j < i ==> cols[j].0 != name@,
        {
            if self.cols[i].0 == needle {
                proof {
                    lemma_column_at_skip(cols, name@, i as int);
                    assert(cols.skip(i as int)[0] == cols[i as int]);
                }
                match &self.cols[i].1 {
                    ColumnValue::BigInt(v) => {
                        return Ok(*v);
                    },
                    ColumnValue::Text(_) => {
                        return Err(Error::MappingFailure(needle));
                    },
                }
            }
        }
        proof {
            lemma_column_at_skip(cols, name@, n as int);
            assert(cols.skip(n as int) =~= Seq::<(Seq<char>, ColumnModel)>::empty());
        }
        Err(Error::MappingFailure(needle))
    }
}

} // verus!
