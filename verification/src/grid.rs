//! The board and its toroidal movement rule.
//!
//! The board is an implicit `size x size` grid whose cells are addressed by
//! a linear index in `[0, size * size)`, with `row = idx / size` and
//! `col = idx % size`.  Moving off an edge wraps around to the opposite
//! edge; the decrementing directions wrap with an explicit
//! `(x + size - 1) % size` so that no unsigned subtraction can underflow.

use vstd::prelude::*;

verus! {

/// A heading on the board.
#[derive(Clone, Copy, PartialEq, Eq, Structural, Debug)]
pub enum Direction {
    Up,
    Right,
    Down,
    Left,
}

/// The cell reached from `idx` by one step in direction `dir`, with
/// toroidal wraparound: left/right stay in the row and wrap the column,
/// up/down stay in the column and wrap the row.
pub open spec fn spec_neighbor(idx: int, dir: Direction, size: int) -> int
    recommends
        1 <= size,
        0 <= idx < size * size,
{
    let row = idx / size;
    let col = idx % size;
    match dir {
        Direction::Right => row * size + ((col + 1) % size),
        Direction::Left => row * size + ((col + size - 1) % size),
        Direction::Up => ((row + size - 1) % size) * size + col,
        Direction::Down => ((row + 1) % size) * size + col,
    }
}

proof fn lemma_row_col(idx: int, size: int)
    requires
        1 <= size,
        0 <= idx < size * size,
    ensures
        0 <= idx / size < size,
        0 <= idx % size < size,
        idx == (idx / size) * size + (idx % size),
{
    vstd::arithmetic::div_mod::lemma_fundamental_div_mod(idx, size);
    vstd::arithmetic::div_mod::lemma_mod_bound(idx, size);
    vstd::arithmetic::mul::lemma_mul_is_commutative(size, idx / size);
    assert(0 <= idx / size < size) by (nonlinear_arith)
        requires
            1 <= size,
            0 <= idx < size * size,
            idx == size * (idx / size) + (idx % size),
            0 <= idx % size < size,
    ;
}

/// Any row/column pair of the board addresses a cell of the board.
proof fn lemma_cell_in_range(row: int, col: int, size: int)
    requires
        1 <= size,
        0 <= row < size,
        0 <= col < size,
    ensures
        0 <= row * size + col < size * size,
{
    assert(0 <= row * size + col < size * size) by (nonlinear_arith)
        requires
            1 <= size,
            0 <= row < size,
            0 <= col < size,
    ;
}

/// A positive board side gives at least as many cells as its side length.
pub proof fn lemma_size_le_area(size: int)
    requires
        1 <= size,
    ensures
        size <= size * size,
{
    assert(size <= size * size) by (nonlinear_arith)
        requires
            1 <= size,
    ;
}

/// One wraparound step on the board.
pub fn neighbor(idx: usize, dir: Direction, size: usize) -> (r: usize)
    requires
        1 <= size,
        (idx as int) < (size as int) * (size as int),
        (size as int) * (size as int) <= usize::MAX,
    ensures
        r == spec_neighbor(idx as int, dir, size as int),
        (r as int) < (size as int) * (size as int),
{
    proof {
        lemma_row_col(idx as int, size as int);
        // Wrapped increments stay below size * size, so they fit in usize.
        assert(2 * (size as int) <= (size as int) * (size as int) + 1) by (nonlinear_arith)
            requires
                1 <= (size as int),
        ;
    }
    let row = idx / size;
    let col = idx % size;
    let (new_row, new_col) = match dir {
        Direction::Right => (row, (col + 1) % size),
        Direction::Left => (row, (col + size - 1) % size),
        Direction::Up => ((row + size - 1) % size, col),
        Direction::Down => ((row + 1) % size, col),
    };
    proof {
        lemma_cell_in_range(new_row as int, new_col as int, size as int);
    }
    new_row * size + new_col
}

} // verus!
