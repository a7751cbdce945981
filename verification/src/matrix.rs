//! The buffer conventions that every operation shares.
//!
//! A matrix is a flat buffer together with its shape, which always travels
//! beside it. Point matrices are row-major: row `r` occupies the indices
//! `r * cols .. (r + 1) * cols`. Audio is channel-major: the frames of a
//! channel are contiguous, so a channel is a row and a frame is a column.
//! A buffer that does not hold exactly `rows * cols` values is refused; it
//! is never cut or filled up to fit.

use vstd::prelude::*;
use crate::binary64::{Real, ZERO};
use crate::error::Error;

verus! {

/// One call of an engine that takes a frame and fills a buffer: the number
/// of values it reads and the number of values it writes.
#[derive(Debug, Clone, Copy, PartialEq, Eq, Structural)]
pub struct FrameCall {
    pub input_len: usize,
    pub output_len: usize,
}

/// The buffer of `n` zeros.
pub open spec fn zeros(n: nat) -> Seq<Real> {
    Seq::new(n, |i: int| ZERO)
}

/// The rows `row(0)`, `row(1)`, ..., `row(n - 1)` laid out one after the
/// other.
pub open spec fn join_rows(n: nat, row: spec_fn(int) -> Seq<Real>) -> Seq<Real>
    decreases n,
{
    if n == 0 {
        Seq::empty()
    } else {
        join_rows((n - 1) as nat, row) + row(n - 1)
    }
}

/// Rows of one width `width` give a buffer of `n * width` values.
pub proof fn lemma_join_rows_len(n: nat, row: spec_fn(int) -> Seq<Real>, width: nat)
    requires
        forall|i: int| 0 <= i < n ==> (#[trigger] row(i)).len() == width,
    ensures
        join_rows(n, row).len() == n * width,
    decreases n,
{
    if n == 0 {
        assert(n * width == 0) by (nonlinear_arith)
            requires
                n == 0,
        ;
    } else {
        lemma_join_rows_len((n - 1) as nat, row, width);
        assert(row(n - 1).len() == width);
        assert((n - 1) * width + width == n * width) by (nonlinear_arith);
    }
}

/// In a buffer of rows of one width, the value at `i * width + j` is the
/// `j`-th value of row `i`.
pub proof fn lemma_join_rows_index(
    n: nat,
    row: spec_fn(int) -> Seq<Real>,
    width: nat,
    i: int,
    j: int,
)
    requires
        forall|k: int| 0 <= k < n ==> (#[trigger] row(k)).len() == width,
        0 <= i < n,
        0 <= j < width,
    ensures
        0 <= i * width + j < join_rows(n, row).len(),
        join_rows(n, row)[i * width + j] == row(i)[j],
    decreases n,
{
    lemma_join_rows_len(n, row, width);
    lemma_join_rows_len((n - 1) as nat, row, width);
    assert((n - 1) * width + width == n * width) by (nonlinear_arith);
    if i == n - 1 {
        assert(0 <= i * width + j) by (nonlinear_arith)
            requires
                0 <= i,
                0 <= j,
                0 <= width,
        ;
    } else {
        lemma_join_rows_index((n - 1) as nat, row, width, i, j);
    }
}

/// Tells whether a buffer of `len` values holds a `rows` by `cols` matrix.
/// The product is taken over the integers: a shape too large for the
/// machine matches no buffer.
pub fn holds_shape(len: usize, rows: usize, cols: usize) -> (r: bool)
    ensures
        r == (len == rows * cols),
{
    match rows.checked_mul(cols) {
        Some(n) => n == len,
        None => false,
    }
}

/// Allocates a buffer of `n` zeros.
pub fn zero_buffer(n: usize) -> (v: Vec<Real>)
    ensures
        v@ == zeros(n as nat),
{
    let mut v: Vec<Real> = Vec::with_capacity(n);
    let mut i: usize = 0;
    while i < n
        invariant
            i <= n,
            v@ == zeros(i as nat),
        decreases n - i,
    {
        v.push(ZERO);
        i = i + 1;
    }
    v
}

/// Copies a buffer.
pub fn copy_of(values: &[Real]) -> (v: Vec<Real>)
    ensures
        v@ == values@,
{
    let mut v: Vec<Real> = Vec::with_capacity(values.len());
    let mut i: usize = 0;
    while i < values.len()
        invariant
            i <= values@.len(),
            v@ == values@.take(i as int),
        decreases values@.len() - i,
    {
        v.push(values[i]);
        i = i + 1;
    }
    v
}

/// Appends the values `from .. to` of a buffer.
pub fn append_range(out: &mut Vec<Real>, values: &[Real], from: usize, to: usize)
    requires
        from <= to <= values@.len(),
    ensures
        final(out)@ == old(out)@ + values@.subrange(from as int, to as int),
{
    let mut i: usize = from;
    while i < to
        invariant
            from <= i <= to,
            to <= values@.len(),
            out@ == old(out)@ + values@.subrange(from as int, i as int),
        decreases to - i,
    {
        out.push(values[i]);
        i = i + 1;
    }
}

/// Appends `n` zeros.
pub fn append_zeros(out: &mut Vec<Real>, n: usize)
    ensures
        final(out)@ == old(out)@ + zeros(n as nat),
{
    let mut i: usize = 0;
    while i < n
        invariant
            i <= n,
            out@ == old(out)@ + zeros(i as nat),
        decreases n - i,
    {
        out.push(ZERO);
        i = i + 1;
    }
}

/// Channel `i` of `n` channels of width `w` lies inside the `n * w` values.
pub proof fn lemma_channel_bounds(i: int, n: int, w: int)
    requires
        0 <= i < n,
        0 <= w,
    ensures
        0 <= i * w <= (i + 1) * w <= n * w,
        (i + 1) * w == i * w + w,
{
    assert(0 <= i * w <= (i + 1) * w <= n * w && (i + 1) * w == i * w + w) by (nonlinear_arith)
        requires
            0 <= i < n,
            0 <= w,
    ;
}

/// Rows that are consecutive pieces of one buffer, laid out one after the
/// other, give the beginning of that buffer.
pub proof fn lemma_join_consecutive(
    source: Seq<Real>,
    n: nat,
    width: int,
    row: spec_fn(int) -> Seq<Real>,
)
    requires
        0 <= width,
        n * width <= source.len(),
        forall|i: int|
            0 <= i < n ==> #[trigger] row(i) == source.subrange(i * width, i * width + width),
    ensures
        join_rows(n, row) == source.subrange(0, n * width),
    decreases n,
{
    if n == 0 {
        assert(n * width == 0) by (nonlinear_arith)
            requires
                n == 0,
        ;
        assert(join_rows(n, row) =~= source.subrange(0, n * width));
    } else {
        let k = (n - 1) as nat;
        assert(k * width + width == n * width && 0 <= k * width) by (nonlinear_arith)
            requires
                k == n - 1,
                0 <= k,
                0 <= width,
        ;
        lemma_join_consecutive(source, k, width, row);
        assert(row(k as int) == source.subrange(k * width, k * width + width));
        assert(join_rows(n, row) =~= source.subrange(0, n * width));
    }
}

/// The first reason, if any, for which `len` values are no `rows` by `cols`
/// matrix.
pub open spec fn matrix_fault(len: int, rows: int, cols: int) -> Option<Error> {
    if rows == 0 {
        Some(Error::RowsZero)
    } else if cols == 0 {
        Some(Error::ColsZero)
    } else if len != rows * cols {
        Some(Error::DataLengthMismatch)
    } else {
        None
    }
}

/// Checks that `data` is a matrix of `rows` rows and `cols` columns, neither
/// of them zero.
pub fn validate_matrix(data: &[Real], rows: usize, cols: usize) -> (r: Result<(), Error>)
    ensures
        r == match matrix_fault(data@.len() as int, rows as int, cols as int) {
            Some(e) => Err::<(), Error>(e),
            None => Ok(()),
        },
{
    if rows == 0 {
        return Err(Error::RowsZero);
    }
    if cols == 0 {
        return Err(Error::ColsZero);
    }
    if !holds_shape(data.len(), rows, cols) {
        return Err(Error::DataLengthMismatch);
    }
    Ok(())
}

} // verus!
