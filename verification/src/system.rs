//! Shape checks on a linear system `A x = b` with an initial guess `x0`.
use vstd::prelude::*;

use crate::text::{decimal, push_decimal};

verus! {

/// Why a linear system cannot be handed to a solver.
#[derive(Clone, Copy, Debug, PartialEq, Eq, Structural)]
pub enum DimensionError {
    /// The operator has `rows != cols`.
    NotSquare { rows: usize, cols: usize },
    /// The right-hand side `b` has `len` entries where `expected` are needed.
    RhsLength { len: usize, expected: usize },
    /// The initial guess `x0` has `len` entries where `expected` are needed.
    InitialGuessLength { len: usize, expected: usize },
}

/// The text that describes a dimension error.
pub open spec fn dimension_message(e: DimensionError) -> Seq<char> {
    match e {
        DimensionError::NotSquare { rows, cols } =>
            "Operator must be square, got "@ + decimal(rows as nat) + "x"@ + decimal(cols as nat),
        DimensionError::RhsLength { len, expected } =>
            "Vector b has incompatible dimension "@ + decimal(len as nat) + ". Expected "@
                + decimal(expected as nat) + "."@,
        DimensionError::InitialGuessLength { len, expected } =>
            "Initial guess x0 has incompatible dimension "@ + decimal(len as nat) + ". Expected "@
                + decimal(expected as nat) + "."@,
    }
}

impl DimensionError {
    /// The message that a solver returns for this error.
    pub fn message(&self) -> (m: String)
        ensures
            m@ == dimension_message(*self),
    {
        match self {
            DimensionError::NotSquare { rows, cols } => {
                let mut m = String::from_str("Operator must be square, got ");
                push_decimal(&mut m, *rows);
                m.append("x");
                push_decimal(&mut m, *cols);
                m
            },
            DimensionError::RhsLength { len, expected } => {
                let mut m = String::from_str("Vector b has incompatible dimension ");
                push_decimal(&mut m, *len);
                m.append(". Expected ");
                push_decimal(&mut m, *expected);
                m.append(".");
                m
            },
            DimensionError::InitialGuessLength { len, expected } => {
                let mut m = String::from_str("Initial guess x0 has incompatible dimension ");
                push_decimal(&mut m, *len);
                m.append(". Expected ");
                push_decimal(&mut m, *expected);
                m.append(".");
                m
            },
        }
    }
}

/// Checks that an operator of shape `rows x cols`, a right-hand side of
/// `b_len` entries and an initial guess of `x0_len` entries form a square
/// system. On success returns the system size `n` (the operator's column
/// count). The checks are made in this order: the operator is square, then
/// `b` has `n` entries, then `x0` has `n` entries; the first that fails is
/// reported.
pub fn check_system(rows: usize, cols: usize, b_len: usize, x0_len: usize) -> (r: Result<
    usize,
    DimensionError,
>)
    ensures
        r is Ok <==> (rows == cols && b_len == cols && x0_len == cols),
        r matches Ok(n) ==> n == cols,
        r == Err::<usize, DimensionError>(DimensionError::NotSquare { rows, cols }) <==> rows
            != cols,
        r == Err::<usize, DimensionError>(DimensionError::RhsLength { len: b_len, expected: cols })
            <==> (rows == cols && b_len != cols),
        r == Err::<usize, DimensionError>(
            DimensionError::InitialGuessLength { len: x0_len, expected: cols },
        ) <==> (rows == cols && b_len == cols && x0_len != cols),
{
    let n = cols;
    if rows != n {
        return Err(DimensionError::NotSquare { rows, cols });
    }
    if b_len != n {
        return Err(DimensionError::RhsLength { len: b_len, expected: n });
    }
    if x0_len != n {
        return Err(DimensionError::InitialGuessLength { len: x0_len, expected: n });
    }
    Ok(n)
}

} // verus!
