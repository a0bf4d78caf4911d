use vstd::prelude::*;

use crate::error::{BufferCause, Field, SolveError};

verus! {

/// The shape of a validated solve: the matrix order and the number of
/// right-hand-side vectors stacked in the caller's buffer.
#[derive(Clone, Copy, Debug, PartialEq, Eq, Structural)]
pub struct Shape {
    pub n: i32,
    pub nrhs: i32,
}

/// What the caller sees of a buffer: its contents, or `None` when it could
/// not be read as one contiguous slice.
pub open spec fn contents<T>(s: Option<&[T]>) -> Option<Seq<T>> {
    match s {
        Some(x) => Some(x@),
        None => None,
    }
}

pub open spec fn buffer_error(field: Field, cause: BufferCause) -> SolveError {
    SolveError::Buffer { field, cause }
}

/// The outcome of validation, checked in a fixed order: contiguity of the
/// right-hand side, row indices, column pointers and values; then the order;
/// then the lengths that the column pointers dictate; then the right-hand side.
///
/// A right-hand side must hold a positive whole number of vectors of length
/// `n`; trailing partial vectors are rejected rather than ignored.
pub open spec fn validation<V, B>(
    n: i32,
    row_index: Option<Seq<i32>>,
    col_pointer: Option<Seq<i32>>,
    values: Option<Seq<V>>,
    rhs: Option<Seq<B>>,
) -> Result<Shape, SolveError> {
    if rhs is None {
        Err(buffer_error(Field::Rhs, BufferCause::NotContiguous))
    } else if row_index is None {
        Err(buffer_error(Field::RowIndex, BufferCause::NotContiguous))
    } else if col_pointer is None {
        Err(buffer_error(Field::ColPointer, BufferCause::NotContiguous))
    } else if values is None {
        Err(buffer_error(Field::Values, BufferCause::NotContiguous))
    } else if n <= 0 {
        Err(SolveError::Order { n })
    } else {
        let ri = row_index.unwrap();
        let cp = col_pointer.unwrap();
        let vals = values.unwrap();
        let b = rhs.unwrap();
        if cp.len() != n + 1 {
            Err(
                buffer_error(
                    Field::ColPointer,
                    BufferCause::Length { expected: (n + 1) as usize, found: cp.len() as usize },
                ),
            )
        } else if cp[n as int] >= 0 && ri.len() != cp[n as int] {
            Err(
                buffer_error(
                    Field::RowIndex,
                    BufferCause::Length { expected: cp[n as int] as usize, found: ri.len() as usize },
                ),
            )
        } else if cp[n as int] >= 0 && vals.len() != cp[n as int] {
            Err(
                buffer_error(
                    Field::Values,
                    BufferCause::Length {
                        expected: cp[n as int] as usize,
                        found: vals.len() as usize,
                    },
                ),
            )
        } else if b.len() == 0 || b.len() % (n as nat) != 0 {
            Err(
                buffer_error(
                    Field::Rhs,
                    BufferCause::NotMultiple { order: n as usize, found: b.len() as usize },
                ),
            )
        } else if b.len() / (n as nat) > i32::MAX {
            Err(buffer_error(Field::Rhs, BufferCause::TooLong { found: b.len() as usize }))
        } else {
            Ok(Shape { n, nrhs: (b.len() / (n as nat)) as i32 })
        }
    }
}

/// Checks the caller's buffers before any engine resource exists and derives
/// the number of right-hand sides.
pub fn validate<V, B>(
    n: i32,
    row_index: Option<&[i32]>,
    col_pointer: Option<&[i32]>,
    values: Option<&[V]>,
    rhs: Option<&[B]>,
) -> (r: Result<Shape, SolveError>)
    ensures
        r == validation(n, contents(row_index), contents(col_pointer), contents(values), contents(rhs)),
        r matches Ok(s) ==> s.n == n && s.nrhs > 0,
{
    let b = match rhs {
        Some(b) => b,
        None => { return Err(SolveError::Buffer { field: Field::Rhs, cause: BufferCause::NotContiguous }); },
    };
    let ri = match row_index {
        Some(ri) => ri,
        None => {
            return Err(SolveError::Buffer { field: Field::RowIndex, cause: BufferCause::NotContiguous });
        },
    };
    let cp = match col_pointer {
        Some(cp) => cp,
        None => {
            return Err(SolveError::Buffer { field: Field::ColPointer, cause: BufferCause::NotContiguous });
        },
    };
    let vals = match values {
        Some(v) => v,
        None => {
            return Err(SolveError::Buffer { field: Field::Values, cause: BufferCause::NotContiguous });
        },
    };
    if n <= 0 {
        return Err(SolveError::Order { n });
    }
    let order: usize = n as usize;
    if cp.len() != order + 1 {
        return Err(
            SolveError::Buffer {
                field: Field::ColPointer,
                cause: BufferCause::Length { expected: order + 1, found: cp.len() },
            },
        );
    }
    let nnz: i32 = cp[order];
    if nnz >= 0 && ri.len() != nnz as usize {
        return Err(
            SolveError::Buffer {
                field: Field::RowIndex,
                cause: BufferCause::Length { expected: nnz as usize, found: ri.len() },
            },
        );
    }
    if nnz >= 0 && vals.len() != nnz as usize {
        return Err(
            SolveError::Buffer {
                field: Field::Values,
                cause: BufferCause::Length { expected: nnz as usize, found: vals.len() },
            },
        );
    }
    if b.len() == 0 || b.len() % order != 0 {
        return Err(
            SolveError::Buffer {
                field: Field::Rhs,
                cause: BufferCause::NotMultiple { order, found: b.len() },
            },
        );
    }
    let count: usize = b.len() / order;
    if count > i32::MAX as usize {
        return Err(SolveError::Buffer { field: Field::Rhs, cause: BufferCause::TooLong { found: b.len() } });
    }
    proof {
        let len = b.len() as int;
        let k = order as int;
        assert(len / k > 0) by (nonlinear_arith)
            requires
                len > 0,
                k > 0,
                len % k == 0,
        {
            if len / k <= 0 {
                assert(len == k * (len / k) + len % k);
            }
        }
    }
    Ok(Shape { n, nrhs: count as i32 })
}

/// Stacking `k` right-hand-side vectors changes nothing in validation but
/// the count: the stacked buffer is accepted exactly when one vector alone
/// would be, and it then carries `k` vectors, each solved by the same call.
pub proof fn lemma_stacked_rhs<V, B>(
    n: i32,
    row_index: Option<Seq<i32>>,
    col_pointer: Option<Seq<i32>>,
    values: Option<Seq<V>>,
    single: Seq<B>,
    stacked: Seq<B>,
    k: nat,
)
    requires
        single.len() == n,
        stacked.len() == n * k,
        0 < k <= i32::MAX,
    ensures
        validation(n, row_index, col_pointer, values, Some(stacked)) == match validation(
            n,
            row_index,
            col_pointer,
            values,
            Some(single),
        ) {
            Ok(s) => Ok(Shape { n: s.n, nrhs: k as i32 }),
            Err(e) => Err(e),
        },
{
    if n > 0 {
        let d = n as int;
        vstd::arithmetic::div_mod::lemma_div_multiples_vanish(k as int, d);
        vstd::arithmetic::div_mod::lemma_mod_multiples_basic(k as int, d);
        vstd::arithmetic::div_mod::lemma_div_multiples_vanish(1, d);
        vstd::arithmetic::div_mod::lemma_mod_multiples_basic(1, d);
        assert(d * k == k * d) by (nonlinear_arith);
        assert(single.len() % (n as nat) == 0 && single.len() / (n as nat) == 1);
        assert(stacked.len() % (n as nat) == 0 && stacked.len() / (n as nat) == k);
    }
}

} // verus!
