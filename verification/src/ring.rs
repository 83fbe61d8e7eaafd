//! Arithmetic of positions: the ring that a coordinate walks when it is
//! reduced modulo a dimension, and the row-major numbering of a grid.

use vstd::arithmetic::div_mod::lemma_fundamental_div_mod;
use vstd::arithmetic::div_mod::lemma_fundamental_div_mod_converse;
use vstd::arithmetic::div_mod::lemma_mod_add_multiples_vanish;
use vstd::arithmetic::div_mod::lemma_mod_bound;
use vstd::arithmetic::div_mod::lemma_mod_self_0;
use vstd::arithmetic::div_mod::lemma_small_mod;
use vstd::prelude::*;

verus! {

/// Stepping back by one on a ring of `n` positions is the same as stepping
/// forward by `n - 1`.
pub proof fn lemma_wrap_backward(x: int, n: int)
    requires
        n > 0,
    ensures
        (x + n - 1) % n == (x - 1) % n,
{
    lemma_mod_add_multiples_vanish(x - 1, n);
    assert(n + (x - 1) == x + n - 1);
}

/// A position inside a `width` by `height` grid has a row-major index below
/// the number of cells, and row and column are recovered from the index by
/// division and remainder.
pub proof fn lemma_index_of_position(row: int, col: int, width: int, height: int)
    requires
        0 <= row < height,
        0 <= col < width,
    ensures
        0 <= row * width + col < width * height,
        (row * width + col) / width == row,
        (row * width + col) % width == col,
{
    assert(0 <= row * width && row * width + width <= width * height) by (nonlinear_arith)
        requires
            0 <= row < height,
            0 < width,
    ;
    lemma_fundamental_div_mod_converse(row * width + col, width, row, col);
}

/// An index below the number of cells of a `width` by `height` grid stands
/// for the position whose row is the quotient and whose column is the
/// remainder of the index by the width.
pub proof fn lemma_position_of_index(i: int, width: int, height: int)
    requires
        0 < width,
        0 <= i < width * height,
    ensures
        0 <= i / width < height,
        0 <= i % width < width,
        i == (i / width) * width + i % width,
{
    lemma_fundamental_div_mod(i, width);
    lemma_mod_bound(i, width);
    let row = i / width;
    assert(0 <= row < height && width * row == row * width) by (nonlinear_arith)
        requires
            0 < width,
            0 <= i < width * height,
            0 <= i - width * row < width,
    ;
}

/// The position before `x` on a ring of `n` positions: the last one when
/// `x` is the first.
pub open spec fn ring_before(x: int, n: int) -> int {
    if x == 0 {
        n - 1
    } else {
        x - 1
    }
}

/// The position after `x` on a ring of `n` positions: the first one when `x`
/// is the last.
pub open spec fn ring_after(x: int, n: int) -> int {
    if x + 1 == n {
        0
    } else {
        x + 1
    }
}

/// Reduction modulo `n` walks a ring of `n` positions: a position on the
/// ring stays where it is, one more leads to the position after it and one
/// less to the position before it.
pub proof fn lemma_wrap_neighbors(x: int, n: int)
    requires
        0 <= x < n,
    ensures
        x % n == x,
        (x + 1) % n == ring_after(x, n),
        (x - 1) % n == ring_before(x, n),
        0 <= ring_after(x, n) < n,
        0 <= ring_before(x, n) < n,
{
    lemma_small_mod(x as nat, n as nat);
    if x + 1 == n {
        lemma_mod_self_0(n);
    } else {
        lemma_small_mod((x + 1) as nat, n as nat);
    }
    lemma_wrap_backward(x, n);
    if x == 0 {
        lemma_small_mod((n - 1) as nat, n as nat);
    } else {
        lemma_small_mod((x - 1) as nat, n as nat);
    }
}

/// On a ring of at least three positions, a position, the one before it and
/// the one after it are three different positions.
pub proof fn lemma_ring_neighbors_differ(x: int, n: int)
    requires
        0 <= x < n,
        n >= 3,
    ensures
        ring_before(x, n) != x,
        ring_after(x, n) != x,
        ring_before(x, n) != ring_after(x, n),
{
}

/// Different positions inside a grid have different row-major indices.
pub proof fn lemma_index_is_injective(
    row: int,
    col: int,
    other_row: int,
    other_col: int,
    width: int,
    height: int,
)
    requires
        0 <= row < height,
        0 <= col < width,
        0 <= other_row < height,
        0 <= other_col < width,
        row * width + col == other_row * width + other_col,
    ensures
        row == other_row,
        col == other_col,
{
    lemma_index_of_position(row, col, width, height);
    lemma_index_of_position(other_row, other_col, width, height);
}

} // verus!
