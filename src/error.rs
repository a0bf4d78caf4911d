use vstd::prelude::*;

verus! {

/// The caller-supplied buffer that a validation failure is about.
#[derive(Clone, Copy, Debug, PartialEq, Eq, Structural)]
pub enum Field {
    RowIndex,
    ColPointer,
    Values,
    Rhs,
}

/// Why a caller-supplied buffer was rejected.
#[derive(Clone, Copy, Debug, PartialEq, Eq, Structural)]
pub enum BufferCause {
    /// The caller's array could not be read as one contiguous slice.
    NotContiguous,
    /// The buffer holds `found` elements where the matrix shape asks for `expected`.
    Length { expected: usize, found: usize },
    /// The right-hand side is empty or its length is not a multiple of the order.
    NotMultiple { order: usize, found: usize },
    /// The right-hand side holds more vectors than the engine can count.
    TooLong { found: usize },
}

/// Every way a solve can fail, each tagged with the phase that failed.
///
/// The engine variants carry the engine's raw status code for diagnostics.
#[derive(Clone, Copy, Debug, PartialEq, Eq, Structural)]
pub enum SolveError {
    /// A caller buffer is inaccessible or has the wrong shape.
    Buffer { field: Field, cause: BufferCause },
    /// The matrix order is not positive.
    Order { n: i32 },
    /// The engine's configuration record could not be set up.
    EngineInit { code: i32 },
    /// Symbolic analysis rejected the column structure.
    Analysis { code: i32 },
    /// Numeric factorization rejected the values.
    Factorization { code: i32 },
    /// The triangular solve reported failure.
    Solve { code: i32 },
}

impl Field {
    /// The name under which the caller knows this buffer.
    pub fn name(&self) -> (r: &'static str)
        ensures
            r@ == field_name(*self),
    {
        match self {
            Field::RowIndex => "row_index",
            Field::ColPointer => "col_pointer",
            Field::Values => "values",
            Field::Rhs => "rhs",
        }
    }
}

pub open spec fn field_name(f: Field) -> Seq<char> {
    match f {
        Field::RowIndex => "row_index"@,
        Field::ColPointer => "col_pointer"@,
        Field::Values => "values"@,
        Field::Rhs => "rhs"@,
    }
}

} // verus!
