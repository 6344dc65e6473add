//! Result sets and their rows, decoded to host values on demand.
use vstd::prelude::*;
use vstd::string::*;
use crate::text::{decimal, push_decimal, push_signed_decimal};
use crate::value::{CqlValue, HostValue, cql_value_to_py, decodes_to};

verus! {

/// `h` is what the column value `c` decodes to; a missing value decodes to
/// the host's null.
pub open spec fn column_decodes(c: Option<CqlValue>, h: HostValue) -> bool {
    match c {
        Some(x) => decodes_to(x, h),
        None => h is Null,
    }
}

/// The key under which the column at `i` appears in a row's mapping.
pub open spec fn column_key(i: nat) -> Seq<char> {
    "col_"@ + decimal(i)
}

/// The column position that `index` designates in a row of `len` columns:
/// negative indices count from the end.
pub open spec fn wrapped_index(index: int, len: int) -> int {
    if index < 0 {
        len + index
    } else {
        index
    }
}

/// A column index outside the row.
#[derive(Debug, PartialEq)]
pub struct IndexOutOfRange {
    pub index: isize,
}

impl IndexOutOfRange {
    /// "Column index <index> out of range".
    pub fn message(&self) -> (r: String)
        ensures
            r@ == "Column index "@ + crate::text::signed_decimal(self.index as int) + " out of range"@,
    {
        let mut s = String::from_str("Column index ");
        push_signed_decimal(&mut s, self.index as i64);
        s.append(" out of range");
        s
    }
}

/// One row of a result set: its column values in result-column order.
#[derive(Debug, PartialEq)]
pub struct Row {
    pub columns: Vec<Option<CqlValue>>,
}

fn decode_column(c: &Option<CqlValue>) -> (r: HostValue)
    ensures
        column_decodes(*c, r),
{
    match c {
        Some(x) => cql_value_to_py(x),
        None => HostValue::Null,
    }
}

impl Row {
    pub fn new(columns: Vec<Option<CqlValue>>) -> (r: Row)
        ensures
            r.columns == columns,
    {
        Row { columns }
    }

    /// The decoded values of all columns, in order.
    pub fn columns(&self) -> (r: Vec<HostValue>)
        ensures
            r@.len() == self.columns@.len(),
            forall|i: int| 0 <= i < r@.len() ==> column_decodes(self.columns@[i], #[trigger] r@[i]),
    {
        let mut out: Vec<HostValue> = Vec::new();
        let mut i: usize = 0;
        while i < self.columns.len()
            invariant
                i <= self.columns@.len(),
                out@.len() == i,
                forall|j: int| 0 <= j < i ==> column_decodes(self.columns@[j], #[trigger] out@[j]),
            decreases self.columns@.len() - i,
        {
            out.push(decode_column(&self.columns[i]));
            i = i + 1;
        }
        out
    }

    /// The decoded values keyed by position: the column at `i` under the
    /// key `col_<i>`. Rows keep no column names.
    pub fn as_dict(&self) -> (r: Vec<(String, HostValue)>)
        ensures
            r@.len() == self.columns@.len(),
            forall|i: int|
                0 <= i < r@.len() ==> (#[trigger] r@[i]).0@ == column_key(i as nat) && column_decodes(
                    self.columns@[i],
                    r@[i].1,
                ),
    {
        let mut out: Vec<(String, HostValue)> = Vec::new();
        let mut i: usize = 0;
        while i < self.columns.len()
            invariant
                i <= self.columns@.len(),
                out@.len() == i,
                forall|j: int|
                    0 <= j < i ==> (#[trigger] out@[j]).0@ == column_key(j as nat) && column_decodes(
                        self.columns@[j],
                        out@[j].1,
                    ),
            decreases self.columns@.len() - i,
        {
            let mut key = String::from_str("col_");
            push_decimal(&mut key, i as u64);
            out.push((key, decode_column(&self.columns[i])));
            i = i + 1;
        }
        out
    }

    /// The decoded value of one column. A negative index counts from the
    /// end; an index outside the row fails, carrying the index.
    pub fn get(&self, index: isize) -> (r: Result<HostValue, IndexOutOfRange>)
        ensures
            ({
                let k = wrapped_index(index as int, self.columns@.len() as int);
                &&& 0 <= k < self.columns@.len() ==> (r matches Ok(h) && column_decodes(self.columns@[k], h))
                &&& !(0 <= k < self.columns@.len()) ==> (r matches Err(e) && e.index == index)
            }),
    {
        let len = self.columns.len() as i128;
        let k: i128 = if index < 0 {
            len + index as i128
        } else {
            index as i128
        };
        if 0 <= k && k < len {
            Ok(decode_column(&self.columns[k as usize]))
        } else {
            Err(IndexOutOfRange { index })
        }
    }

    /// The number of columns.
    pub fn len(&self) -> (r: usize)
        ensures
            r == self.columns@.len(),
    {
        self.columns.len()
    }
}

/// Metadata of one result column: its table, name and type, as text.
#[derive(Debug, PartialEq)]
pub struct ColumnSpec {
    pub table_spec: String,
    pub name: String,
    pub typ: String,
}

/// `single_row` on a result set that does not hold exactly one row.
#[derive(Debug, PartialEq)]
pub struct RowCountError {
    pub count: usize,
}

impl RowCountError {
    /// "Expected single row, got <count> rows".
    pub fn message(&self) -> (r: String)
        ensures
            r@ == "Expected single row, got "@ + decimal(self.count as nat) + " rows"@,
    {
        let mut s = String::from_str("Expected single row, got ");
        push_decimal(&mut s, self.count as u64);
        s.append(" rows");
        s
    }
}

/// The rows and metadata that one executed statement returned, with a
/// forward cursor over the rows.
#[derive(Debug, PartialEq)]
pub struct QueryResult {
    pub rows: Vec<Row>,
    pub col_specs: Vec<ColumnSpec>,
    pub tracing_id: Option<String>,
    pub warnings: Vec<String>,
    pub current_row: usize,
}

impl QueryResult {
    /// A result set; `rows` is `None` for a statement that returns no rows,
    /// which reads as an empty result set.
    pub fn new(
        rows: Option<Vec<Row>>,
        col_specs: Vec<ColumnSpec>,
        tracing_id: Option<String>,
        warnings: Vec<String>,
    ) -> (r: QueryResult)
        ensures
            rows matches Some(v) ==> r.rows == v,
            rows is None ==> r.rows@.len() == 0,
            r.col_specs == col_specs,
            r.tracing_id == tracing_id,
            r.warnings == warnings,
            r.current_row == 0,
    {
        let rows = match rows {
            Some(v) => v,
            None => Vec::new(),
        };
        QueryResult { rows, col_specs, tracing_id, warnings, current_row: 0 }
    }

    /// All rows.
    pub fn rows(&self) -> (r: &Vec<Row>)
        ensures
            r@ == self.rows@,
    {
        &self.rows
    }

    /// The first row, or none on an empty result set.
    pub fn first_row(&self) -> (r: Option<&Row>)
        ensures
            self.rows@.len() == 0 <==> r is None,
            r matches Some(row) ==> *row == self.rows@[0],
    {
        if self.rows.len() == 0 {
            None
        } else {
            Some(&self.rows[0])
        }
    }

    /// The only row; fails unless the result set holds exactly one row,
    /// carrying the row count.
    pub fn single_row(&self) -> (r: Result<&Row, RowCountError>)
        ensures
            self.rows@.len() == 1 <==> r is Ok,
            r matches Ok(row) ==> *row == self.rows@[0],
            r matches Err(e) ==> e.count == self.rows@.len(),
    {
        if self.rows.len() == 1 {
            Ok(&self.rows[0])
        } else {
            Err(RowCountError { count: self.rows.len() })
        }
    }

    /// The first row as a positional mapping, or none on an empty result set.
    pub fn first_row_typed(&self) -> (r: Option<Vec<(String, HostValue)>>)
        ensures
            self.rows@.len() == 0 <==> r is None,
            r matches Some(d) ==> d@.len() == self.rows@[0].columns@.len() && forall|i: int|
                0 <= i < d@.len() ==> (#[trigger] d@[i]).0@ == column_key(i as nat) && column_decodes(
                    self.rows@[0].columns@[i],
                    d@[i].1,
                ),
    {
        if self.rows.len() == 0 {
            None
        } else {
            Some(self.rows[0].as_dict())
        }
    }

    /// Every row as a positional mapping.
    pub fn rows_typed(&self) -> (r: Vec<Vec<(String, HostValue)>>)
        ensures
            r@.len() == self.rows@.len(),
            forall|k: int|
                0 <= k < r@.len() ==> (#[trigger] r@[k])@.len() == self.rows@[k].columns@.len()
                    && forall|i: int|
                    0 <= i < r@[k]@.len() ==> (#[trigger] r@[k]@[i]).0@ == column_key(i as nat)
                        && column_decodes(self.rows@[k].columns@[i], r@[k]@[i].1),
    {
        let mut out: Vec<Vec<(String, HostValue)>> = Vec::new();
        let mut k: usize = 0;
        while k < self.rows.len()
            invariant
                k <= self.rows@.len(),
                out@.len() == k,
                forall|m: int|
                    0 <= m < k ==> (#[trigger] out@[m])@.len() == self.rows@[m].columns@.len()
                        && forall|i: int|
                        0 <= i < out@[m]@.len() ==> (#[trigger] out@[m]@[i]).0@ == column_key(i as nat)
                            && column_decodes(self.rows@[m].columns@[i], out@[m]@[i].1),
            decreases self.rows@.len() - k,
        {
            out.push(self.rows[k].as_dict());
            k = k + 1;
        }
        out
    }

    /// The column metadata.
    pub fn col_specs(&self) -> (r: &Vec<ColumnSpec>)
        ensures
            r@ == self.col_specs@,
    {
        &self.col_specs
    }

    /// The tracing identifier, when tracing was on.
    pub fn tracing_id(&self) -> (r: Option<String>)
        ensures
            r == self.tracing_id,
    {
        match &self.tracing_id {
            Some(t) => Some(t.clone()),
            None => None,
        }
    }

    /// The warnings that the server sent.
    pub fn warnings(&self) -> (r: Vec<String>)
        ensures
            r@.len() == self.warnings@.len(),
            forall|i: int| 0 <= i < r@.len() ==> (#[trigger] r@[i])@ == self.warnings@[i]@,
    {
        let mut out: Vec<String> = Vec::new();
        let mut i: usize = 0;
        while i < self.warnings.len()
            invariant
                i <= self.warnings@.len(),
                out@.len() == i,
                forall|j: int| 0 <= j < i ==> (#[trigger] out@[j])@ == self.warnings@[j]@,
            decreases self.warnings@.len() - i,
        {
            out.push(self.warnings[i].clone());
            i = i + 1;
        }
        out
    }

    /// The number of rows.
    pub fn row_count(&self) -> (r: usize)
        ensures
            r == self.rows@.len(),
    {
        self.rows.len()
    }

    /// Whether the result set holds at least one row.
    pub fn has_rows(&self) -> (r: bool)
        ensures
            r == (self.rows@.len() > 0),
    {
        self.rows.len() > 0
    }

    /// Advances the forward cursor: the position of the next row, or none
    /// once every row has been handed out.
    pub fn next_row(&mut self) -> (r: Option<usize>)
        ensures
            final(self).rows == old(self).rows,
            old(self).current_row < old(self).rows@.len() ==> r == Some(old(self).current_row)
                && final(self).current_row == old(self).current_row + 1,
            old(self).current_row >= old(self).rows@.len() ==> r is None && final(self).current_row
                == old(self).current_row,
    {
        if self.current_row < self.rows.len() {
            let k = self.current_row;
            self.current_row = k + 1;
            Some(k)
        } else {
            None
        }
    }
}

} // verus!
