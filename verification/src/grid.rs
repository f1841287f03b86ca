//! Row arithmetic of the grid: how many rows a buffer fills, and where a
//! cell of a row lies in the buffer.

use vstd::prelude::*;

verus! {

/// The number of rows that `len` bytes fill at `per_row` cells a row: the
/// quotient rounded up, so an empty buffer has no row.
pub open spec fn rows_needed(len: nat, per_row: nat) -> nat
    recommends
        per_row > 0,
{
    ((len + per_row - 1) / (per_row as int)) as nat
}

/// Rounding the quotient up adds one row exactly when a remainder is left.
pub proof fn rows_needed_by_remainder(len: nat, per_row: nat)
    requires
        per_row > 0,
    ensures
        rows_needed(len, per_row) == len / per_row + if len % per_row != 0 {
            1nat
        } else {
            0nat
        },
{
    let q = len as int / per_row as int;
    let r = len as int % per_row as int;
    assert(len == q * per_row + r && 0 <= r < per_row) by (nonlinear_arith)
        requires
            q == len as int / per_row as int,
            r == len as int % per_row as int,
            per_row > 0,
    ;
    if r == 0 {
        assert((q * per_row + per_row - 1) / (per_row as int) == q) by (nonlinear_arith)
            requires
                per_row > 0,
        ;
    } else {
        assert((q * per_row + r + per_row - 1) / (per_row as int) == q + 1) by (nonlinear_arith)
            requires
                per_row > 0,
                0 < r < per_row,
        ;
    }
}

/// The rows cover the buffer, and no smaller number of rows does: every row
/// but the last is full, and the last holds at least one byte.
pub proof fn rows_needed_is_least_cover(len: nat, per_row: nat)
    requires
        per_row > 0,
    ensures
        rows_needed(len, per_row) * per_row >= len,
        len > 0 ==> (rows_needed(len, per_row) - 1) * per_row < len,
        len == 0 <==> rows_needed(len, per_row) == 0,
{
    rows_needed_by_remainder(len, per_row);
    let q = len as int / per_row as int;
    let r = len as int % per_row as int;
    assert(len == q * per_row + r && 0 <= r < per_row && q >= 0) by (nonlinear_arith)
        requires
            q == len as int / per_row as int,
            r == len as int % per_row as int,
            per_row > 0,
            len >= 0,
    ;
    assert((q + 1) * per_row == q * per_row + per_row) by (nonlinear_arith);
    assert((q - 1) * per_row == q * per_row - per_row) by (nonlinear_arith);
    if q > 0 {
        assert(q * per_row >= per_row) by (nonlinear_arith)
            requires
                q >= 1,
                per_row > 0,
        ;
    }
}

/// Counts the rows that `len` bytes fill at `per_row` cells a row.
pub fn count_rows(len: usize, per_row: usize) -> (rows: usize)
    requires
        per_row > 0,
    ensures
        rows == rows_needed(len as nat, per_row as nat),
{
    proof {
        rows_needed_by_remainder(len as nat, per_row as nat);
        rows_needed_is_least_cover(len as nat, per_row as nat);
    }
    let full: usize = len / per_row;
    if len % per_row != 0 {
        assert(full < len) by (nonlinear_arith)
            requires
                full == len as int / per_row as int,
                len as int % per_row as int != 0,
                per_row > 0,
                len >= 0,
        ;
        full + 1
    } else {
        full
    }
}

} // verus!
