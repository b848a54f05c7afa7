//! The execution trace: a table of `TRACE_WIDTH` columns by `TRACE_LENGTH` rows of
//! field elements.

use vstd::prelude::*;

use crate::field::{felt, is_canonical, to_canonical};
use crate::{TRACE_LENGTH, TRACE_WIDTH};

verus! {

/// Why a table could not be taken as an execution trace.
#[derive(Clone, Copy, Debug, PartialEq, Eq, Structural)]
pub enum TraceError {
    /// The table does not have `TRACE_WIDTH` columns of `TRACE_LENGTH` rows each.
    ShapeMismatch,
}

/// An execution trace, stored column by column.
#[derive(Clone, Debug)]
pub struct ExecutionTrace {
    columns: Vec<Vec<u64>>,
}

impl View for ExecutionTrace {
    /// The columns, each a sequence of rows.
    type V = Seq<Seq<u64>>;

    closed spec fn view(&self) -> Seq<Seq<u64>> {
        self.columns@.map_values(|c: Vec<u64>| c@)
    }
}

/// `cols` is a table of `TRACE_WIDTH` columns of `TRACE_LENGTH` rows.
pub open spec fn has_trace_shape(cols: Seq<Seq<u64>>) -> bool {
    &&& cols.len() == TRACE_WIDTH
    &&& forall|c: int| 0 <= c < TRACE_WIDTH ==> (#[trigger] cols[c]).len() == TRACE_LENGTH
}

/// The value of a cell of the trace built from a preimage and a digest: the preimage in
/// row 0 of columns 0 to 3, the first two digest elements in the last row of columns 4 and
/// 5, zero elsewhere.
pub open spec fn built_cell(input: Seq<u64>, digest: Seq<u64>, c: int, r: int) -> u64 {
    if r == 0 && 0 <= c < 4 {
        felt(input[c])
    } else if r == TRACE_LENGTH - 1 && 4 <= c < 6 {
        felt(digest[c - 4])
    } else {
        0
    }
}

impl ExecutionTrace {
    /// The table has the trace's shape and every cell is a canonical field element.
    pub open spec fn wf(&self) -> bool {
        &&& has_trace_shape(self@)
        &&& forall|c: int, r: int|
            0 <= c < TRACE_WIDTH && 0 <= r < TRACE_LENGTH ==> is_canonical(
                #[trigger] self@[c][r],
            )
    }

    /// The cell of column `c` and row `r`.
    pub open spec fn cell(&self, c: int, r: int) -> u64 {
        self@[c][r]
    }

    /// Builds the trace for a preimage and its digest: row 0 of columns 0 to 3 holds the
    /// preimage, the last row of columns 4 and 5 holds the digest, every other cell is zero.
    pub fn build(input: [u64; 4], digest: [u64; 2]) -> (t: ExecutionTrace)
        ensures
            t.wf(),
            forall|c: int, r: int|
                0 <= c < TRACE_WIDTH && 0 <= r < TRACE_LENGTH ==> #[trigger] t.cell(c, r)
                    == built_cell(input@, digest@, c, r),
    {
        let mut columns: Vec<Vec<u64>> = Vec::new();
        let mut c: usize = 0;
        while c < TRACE_WIDTH
            invariant
                0 <= c <= TRACE_WIDTH,
                columns@.len() == c,
                forall|k: int|
                    0 <= k < c ==> (#[trigger] columns@[k])@.len() == TRACE_LENGTH,
                forall|k: int, r: int|
                    0 <= k < c && 0 <= r < TRACE_LENGTH ==> (#[trigger] columns@[k]@[r])
                        == built_cell(input@, digest@, k, r),
            decreases TRACE_WIDTH - c,
        {
            let mut column: Vec<u64> = Vec::new();
            let mut r: usize = 0;
            while r < TRACE_LENGTH
                invariant
                    0 <= c < TRACE_WIDTH,
                    0 <= r <= TRACE_LENGTH,
                    column@.len() == r,
                    forall|q: int|
                        0 <= q < r ==> #[trigger] column@[q] == built_cell(input@, digest@, c as int, q),
                decreases TRACE_LENGTH - r,
            {
                let v = if r == 0 && c < 4 {
                    to_canonical(input[c])
                } else if r == TRACE_LENGTH - 1 && 4 <= c && c < 6 {
                    to_canonical(digest[c - 4])
                } else {
                    0
                };
                column.push(v);
                r = r + 1;
            }
            columns.push(column);
            c = c + 1;
        }
        let t = ExecutionTrace { columns };
        assert forall|c: int, r: int|
            0 <= c < TRACE_WIDTH && 0 <= r < TRACE_LENGTH implies #[trigger] t.cell(c, r)
                == built_cell(input@, digest@, c, r) && is_canonical(t@[c][r]) by {
            assert(t@[c] == t.columns@[c]@);
        }
        assert forall|c: int| 0 <= c < TRACE_WIDTH implies (#[trigger] t@[c]).len()
            == TRACE_LENGTH by {
            assert(t@[c] == t.columns@[c]@);
        }
        t
    }

    /// Takes a table of columns as a trace, each value as the field element it stands for.
    /// A table of any other shape is rejected.
    pub fn from_columns(columns: Vec<Vec<u64>>) -> (res: Result<ExecutionTrace, TraceError>)
        ensures
            !has_trace_shape(columns@.map_values(|c: Vec<u64>| c@)) ==> res == Err::<
                ExecutionTrace,
                TraceError,
            >(TraceError::ShapeMismatch),
            has_trace_shape(columns@.map_values(|c: Vec<u64>| c@)) ==> res is Ok
                && res->Ok_0.wf() && forall|c: int, r: int|
                0 <= c < TRACE_WIDTH && 0 <= r < TRACE_LENGTH ==> #[trigger] res->Ok_0.cell(c, r)
                    == felt(columns@[c]@[r]),
    {
        let ghost shape = columns@.map_values(|c: Vec<u64>| c@);
        if columns.len() != TRACE_WIDTH {
            return Err(TraceError::ShapeMismatch);
        }
        let mut k: usize = 0;
        while k < TRACE_WIDTH
            invariant
                0 <= k <= TRACE_WIDTH,
                columns@.len() == TRACE_WIDTH,
                shape == columns@.map_values(|c: Vec<u64>| c@),
                forall|q: int| 0 <= q < k ==> (#[trigger] columns@[q])@.len() == TRACE_LENGTH,
            decreases TRACE_WIDTH - k,
        {
            if columns[k].len() != TRACE_LENGTH {
                assert(shape[k as int] == columns@[k as int]@);
                return Err(TraceError::ShapeMismatch);
            }
            k = k + 1;
        }
        assert forall|c: int| 0 <= c < TRACE_WIDTH implies (#[trigger] shape[c]).len()
            == TRACE_LENGTH by {
            assert(shape[c] == columns@[c]@);
        }
        let mut out: Vec<Vec<u64>> = Vec::new();
        let mut c: usize = 0;
        while c < TRACE_WIDTH
            invariant
                0 <= c <= TRACE_WIDTH,
                columns@.len() == TRACE_WIDTH,
                forall|q: int| 0 <= q < TRACE_WIDTH ==> (#[trigger] columns@[q])@.len() == TRACE_LENGTH,
                out@.len() == c,
                forall|q: int| 0 <= q < c ==> (#[trigger] out@[q])@.len() == TRACE_LENGTH,
                forall|q: int, r: int|
                    0 <= q < c && 0 <= r < TRACE_LENGTH ==> (#[trigger] out@[q]@[r]) == felt(
                        columns@[q]@[r],
                    ) && is_canonical(out@[q]@[r]),
            decreases TRACE_WIDTH - c,
        {
            let mut column: Vec<u64> = Vec::new();
            let mut r: usize = 0;
            while r < TRACE_LENGTH
                invariant
                    0 <= c < TRACE_WIDTH,
                    0 <= r <= TRACE_LENGTH,
                    columns@.len() == TRACE_WIDTH,
                    columns@[c as int]@.len() == TRACE_LENGTH,
                    column@.len() == r,
                    forall|q: int|
                        0 <= q < r ==> #[trigger] column@[q] == felt(columns@[c as int]@[q])
                            && is_canonical(column@[q]),
                decreases TRACE_LENGTH - r,
            {
                column.push(to_canonical(columns[c][r]));
                r = r + 1;
            }
            out.push(column);
            c = c + 1;
        }
        let t = ExecutionTrace { columns: out };
        assert forall|c: int, r: int|
            0 <= c < TRACE_WIDTH && 0 <= r < TRACE_LENGTH implies #[trigger] t.cell(c, r)
                == felt(columns@[c]@[r]) && is_canonical(t@[c][r]) by {
            assert(t@[c] == t.columns@[c]@);
        }
        assert forall|c: int| 0 <= c < TRACE_WIDTH implies (#[trigger] t@[c]).len()
            == TRACE_LENGTH by {
            assert(t@[c] == t.columns@[c]@);
        }
        Ok(t)
    }

    /// The cell of column `col` and row `row`.
    pub fn get(&self, col: usize, row: usize) -> (v: u64)
        requires
            self.wf(),
            col < TRACE_WIDTH,
            row < TRACE_LENGTH,
        ensures
            v == self.cell(col as int, row as int),
    {
        assert(self@[col as int] == self.columns@[col as int]@);
        self.columns[col][row]
    }

    /// Number of columns.
    pub fn width(&self) -> (n: usize)
        requires
            self.wf(),
        ensures
            n == self@.len(),
            n == TRACE_WIDTH,
    {
        self.columns.len()
    }

    /// Number of rows.
    pub fn length(&self) -> (n: usize)
        requires
            self.wf(),
        ensures
            n == self@[0].len(),
            n == TRACE_LENGTH,
    {
        assert(self@[0] == self.columns@[0]@);
        self.columns[0].len()
    }

    /// The columns of the trace.
    pub fn columns(&self) -> (cols: &Vec<Vec<u64>>)
        ensures
            cols@.map_values(|c: Vec<u64>| c@) == self@,
    {
        &self.columns
    }
}

} // verus!
