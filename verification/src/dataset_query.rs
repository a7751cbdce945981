//! Queries on a row-major data set: which columns to give, of which rows.
//! The rows are picked by the engine; this module checks the query, lays it
//! out for the engine, and cuts the answer to the rows that were found.

use vstd::prelude::*;
use crate::binary64::Real;
use crate::error::Error;
use crate::matrix::holds_shape;

verus! {

/// A comparison of a value of the data with a given one.
#[derive(Debug, Clone, Copy, PartialEq, Eq, Structural)]
pub enum ComparisonOp {
    Eq,
    Ne,
    Lt,
    Le,
    Gt,
    Ge,
}

impl ComparisonOp {
    /// The number by which the engine knows this comparison.
    pub open spec fn spec_code(self) -> isize {
        match self {
            ComparisonOp::Eq => 0,
            ComparisonOp::Ne => 1,
            ComparisonOp::Lt => 2,
            ComparisonOp::Le => 3,
            ComparisonOp::Gt => 4,
            ComparisonOp::Ge => 5,
        }
    }

    /// The number by which the engine knows this comparison.
    #[verifier::when_used_as_spec(spec_code)]
    pub fn code(self) -> (c: isize)
        ensures
            c == self.spec_code(),
    {
        match self {
            ComparisonOp::Eq => 0,
            ComparisonOp::Ne => 1,
            ComparisonOp::Lt => 2,
            ComparisonOp::Le => 3,
            ComparisonOp::Gt => 4,
            ComparisonOp::Ge => 5,
        }
    }
}

/// One condition on the rows: a column, a comparison and a value.
#[derive(Debug, Clone, Copy)]
pub struct QueryCondition {
    pub column: usize,
    pub op: ComparisonOp,
    pub value: Real,
    /// `true` puts the condition on the list of which all must hold, `false`
    /// on the list of which one must hold.
    pub and_group: bool,
}

impl QueryCondition {
    /// The number by which the engine knows the list of this condition.
    pub open spec fn group_code(self) -> isize {
        if self.and_group {
            1
        } else {
            0
        }
    }
}

/// The answer to a query: the chosen columns of the rows that were found,
/// row-major, and the places of those rows in the data.
#[derive(Debug, Clone)]
pub struct DataSetQueryResult {
    pub data: Vec<Real>,
    pub rows: usize,
    pub cols: usize,
    pub source_indices: Vec<usize>,
}

/// One query as the engine receives it: the conditions spread over four
/// lists of one length, and the lengths of the two buffers that it fills.
#[derive(Debug, Clone)]
pub struct QueryCall {
    pub rows: usize,
    pub cols: usize,
    pub selected_columns: Vec<usize>,
    pub condition_columns: Vec<usize>,
    pub condition_ops: Vec<isize>,
    pub condition_values: Vec<Real>,
    pub condition_groups: Vec<isize>,
    /// The most rows to give; 0 sets no limit.
    pub limit: usize,
    /// `rows * selected_columns.len()`.
    pub data_len: usize,
    /// `rows`.
    pub indices_len: usize,
}

impl QueryCall {
    /// Whether the four lists are the conditions `conditions`, one place for
    /// each.
    pub open spec fn lays_out(&self, conditions: Seq<QueryCondition>) -> bool {
        &&& self.condition_columns@.len() == conditions.len()
        &&& self.condition_ops@.len() == conditions.len()
        &&& self.condition_values@.len() == conditions.len()
        &&& self.condition_groups@.len() == conditions.len()
        &&& forall|i: int|
            0 <= i < conditions.len() ==> {
                &&& self.condition_columns@[i] == (#[trigger] conditions[i]).column
                &&& self.condition_ops@[i] == conditions[i].op.spec_code()
                &&& self.condition_values@[i] == conditions[i].value
                &&& self.condition_groups@[i] == conditions[i].group_code()
            }
    }
}

/// Whether a column lies outside data of `cols` columns.
pub open spec fn some_column_outside(columns: Seq<usize>, cols: int) -> bool {
    exists|i: int| 0 <= i < columns.len() && #[trigger] columns[i] >= cols
}

/// Whether a condition tests a column outside data of `cols` columns.
pub open spec fn some_condition_outside(conditions: Seq<QueryCondition>, cols: int) -> bool {
    exists|i: int| 0 <= i < conditions.len() && (#[trigger] conditions[i]).column >= cols
}

/// The first reason, if any, for which a query is refused: rows and columns
/// that are not zero, a buffer that matches them, one chosen column at
/// least, and no column, chosen or tested, outside the data.
pub open spec fn query_fault(
    len: int,
    rows: int,
    cols: int,
    selected_columns: Seq<usize>,
    conditions: Seq<QueryCondition>,
) -> Option<Error> {
    if rows == 0 || cols == 0 {
        Some(Error::RowsOrColsZero)
    } else if len != rows * cols {
        Some(Error::DataLengthMismatch)
    } else if selected_columns.len() == 0 {
        Some(Error::NoColumnsSelected)
    } else if some_column_outside(selected_columns, cols) {
        Some(Error::SelectedColumnOutOfRange)
    } else if some_condition_outside(conditions, cols) {
        Some(Error::ConditionColumnOutOfRange)
    } else {
        None
    }
}

/// Tells whether a column lies outside data of `cols` columns.
fn any_column_outside(columns: &[usize], cols: usize) -> (r: bool)
    ensures
        r == some_column_outside(columns@, cols as int),
{
    let mut i: usize = 0;
    while i < columns.len()
        invariant
            i <= columns@.len(),
            forall|k: int| 0 <= k < i ==> (#[trigger] columns@[k]) < cols,
        decreases columns@.len() - i,
    {
        if columns[i] >= cols {
            return true;
        }
        i = i + 1;
    }
    false
}

/// Tells whether a condition tests a column outside data of `cols` columns.
fn any_condition_outside(conditions: &[QueryCondition], cols: usize) -> (r: bool)
    ensures
        r == some_condition_outside(conditions@, cols as int),
{
    let mut i: usize = 0;
    while i < conditions.len()
        invariant
            i <= conditions@.len(),
            forall|k: int| 0 <= k < i ==> (#[trigger] conditions@[k]).column < cols,
        decreases conditions@.len() - i,
    {
        if conditions[i].column >= cols {
            return true;
        }
        i = i + 1;
    }
    false
}

/// Copies a list of columns.
fn copy_columns(columns: &[usize]) -> (v: Vec<usize>)
    ensures
        v@ == columns@,
{
    let mut v: Vec<usize> = Vec::with_capacity(columns.len());
    let mut i: usize = 0;
    while i < columns.len()
        invariant
            i <= columns@.len(),
            v@ == columns@.take(i as int),
        decreases columns@.len() - i,
    {
        v.push(columns[i]);
        i = i + 1;
    }
    v
}

/// Queries on a data set.
#[derive(Debug, Clone, Copy)]
pub struct DataSetQuery {}

impl DataSetQuery {
    /// Checks a query on a `rows` by `cols` data set and lays it out for the
    /// engine. `limit` bounds the number of rows that are given; `None` sets
    /// no limit.
    pub fn execute(
        data: &[Real],
        rows: usize,
        cols: usize,
        selected_columns: &[usize],
        conditions: &[QueryCondition],
        limit: Option<usize>,
    ) -> (r: Result<QueryCall, Error>)
        requires
            rows * selected_columns@.len() <= usize::MAX,
        ensures
            match query_fault(
                data@.len() as int,
                rows as int,
                cols as int,
                selected_columns@,
                conditions@,
            ) {
                Some(e) => r is Err && r->Err_0 == e,
                None => {
                    &&& r is Ok
                    &&& r->Ok_0.rows == rows
                    &&& r->Ok_0.cols == cols
                    &&& r->Ok_0.selected_columns@ == selected_columns@
                    &&& r->Ok_0.lays_out(conditions@)
                    &&& r->Ok_0.limit == match limit {
                        Some(n) => n,
                        None => 0,
                    }
                    &&& r->Ok_0.data_len == rows * selected_columns@.len()
                    &&& r->Ok_0.indices_len == rows
                },
            },
    {
        if rows == 0 || cols == 0 {
            return Err(Error::RowsOrColsZero);
        }
        if !holds_shape(data.len(), rows, cols) {
            return Err(Error::DataLengthMismatch);
        }
        if selected_columns.len() == 0 {
            return Err(Error::NoColumnsSelected);
        }
        if any_column_outside(selected_columns, cols) {
            return Err(Error::SelectedColumnOutOfRange);
        }
        if any_condition_outside(conditions, cols) {
            return Err(Error::ConditionColumnOutOfRange);
        }
        let mut condition_columns: Vec<usize> = Vec::new();
        let mut condition_ops: Vec<isize> = Vec::new();
        let mut condition_values: Vec<Real> = Vec::new();
        let mut condition_groups: Vec<isize> = Vec::new();
        let mut i: usize = 0;
        while i < conditions.len()
            invariant
                i <= conditions@.len(),
                condition_columns@.len() == i,
                condition_ops@.len() == i,
                condition_values@.len() == i,
                condition_groups@.len() == i,
                forall|k: int|
                    0 <= k < i ==> {
                        &&& condition_columns@[k] == (#[trigger] conditions@[k]).column
                        &&& condition_ops@[k] == conditions@[k].op.spec_code()
                        &&& condition_values@[k] == conditions@[k].value
                        &&& condition_groups@[k] == conditions@[k].group_code()
                    },
            decreases conditions@.len() - i,
        {
            let c: QueryCondition = conditions[i];
            condition_columns.push(c.column);
            condition_ops.push(c.op.code());
            condition_values.push(c.value);
            condition_groups.push(if c.and_group { 1 } else { 0 });
            i = i + 1;
        }
        let limit: usize = match limit {
            Some(n) => n,
            None => 0,
        };
        Ok(
            QueryCall {
                rows,
                cols,
                selected_columns: copy_columns(selected_columns),
                condition_columns,
                condition_ops,
                condition_values,
                condition_groups,
                limit,
                data_len: rows * selected_columns.len(),
                indices_len: rows,
            },
        )
    }

    /// Takes the engine's answer to a query that chose `cols` columns: a
    /// failure where it reported one; otherwise the first `count` rows of what
    /// it wrote, and the places of those rows. Buffers that are shorter than
    /// `count` rows are left as they are.
    pub fn finish(ok: bool, data: Vec<Real>, indices: Vec<usize>, count: usize, cols: usize) -> (r:
        Result<DataSetQueryResult, Error>)
        ensures
            !ok ==> r is Err && r->Err_0 == Error::QueryFailed,
            ok ==> {
                &&& r is Ok
                &&& r->Ok_0.rows == count
                &&& r->Ok_0.cols == cols
                &&& r->Ok_0.data@ == if count * cols <= data@.len() {
                    data@.take(count * cols)
                } else {
                    data@
                }
                &&& r->Ok_0.source_indices@ == if count <= indices@.len() {
                    indices@.take(count as int)
                } else {
                    indices@
                }
            },
    {
        if !ok {
            return Err(Error::QueryFailed);
        }
        let mut data = data;
        let mut indices = indices;
        let len: usize = data.len();
        match count.checked_mul(cols) {
            Some(n) => {
                data.truncate(n);
            },
            None => {},
        }
        indices.truncate(count);
        Ok(DataSetQueryResult { data, rows: count, cols, source_indices: indices })
    }
}

} // verus!
