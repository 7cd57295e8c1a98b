//! The snake: an ordered body of linear cell indices, head first.

use vstd::prelude::*;
use crate::grid::Direction;

verus! {

/// One cell of the snake body, as a linear grid index.
#[derive(Clone, Copy, PartialEq, Eq, Structural, Debug)]
pub struct SnakeCell(pub usize);

/// The snake body (head first) and its current heading.
pub struct Snake {
    pub body: Vec<SnakeCell>,
    pub direction: Direction,
}

/// Whether the linear index `k` is held by some cell of `body`.
pub open spec fn occupied(body: Seq<SnakeCell>, k: int) -> bool {
    exists|i: int| 0 <= i < body.len() && body[i].0 == k
}

/// Whether `k` is held by some cell of `body` at position `lo` or later.
pub open spec fn occupied_from(body: Seq<SnakeCell>, lo: int, k: int) -> bool {
    exists|i: int| lo <= i < body.len() && body[i].0 == k
}

/// Whether every cell of the `max`-cell board is held by the body.
pub open spec fn board_full(body: Seq<SnakeCell>, max: int) -> bool {
    forall|k: int| 0 <= k < max ==> occupied(body, k)
}

/// Linear scan for `idx` over the whole body.
pub fn body_contains(body: &Vec<SnakeCell>, idx: usize) -> (r: bool)
    ensures
        r == occupied(body@, idx as int),
{
    let mut i: usize = 0;
    while i < body.len()
        invariant
            0 <= i <= body@.len(),
            forall|j: int| 0 <= j < i ==> body@[j].0 != idx,
        decreases body@.len() - i,
    {
        if body[i].0 == idx {
            return true;
        }
        i = i + 1;
    }
    false
}

/// Linear scan for `idx` over the body cells after the head.
pub fn tail_contains(body: &Vec<SnakeCell>, idx: usize) -> (r: bool)
    ensures
        r == occupied_from(body@, 1, idx as int),
{
    let mut i: usize = 1;
    while i < body.len()
        invariant
            1 <= i,
            body@.len() >= 1 ==> i <= body@.len(),
            forall|j: int| 1 <= j < i ==> body@[j].0 != idx,
        decreases body@.len() - i,
    {
        if body[i].0 == idx {
            return true;
        }
        i = i + 1;
    }
    false
}

/// Position of the first body cell holding `idx`, if any.
pub fn find_snake_cell_index(body: &Vec<SnakeCell>, idx: usize) -> (r: Option<usize>)
    ensures
        match r {
            Some(p) => 0 <= p < body@.len() && body@[p as int].0 == idx && (forall|j: int|
                0 <= j < p ==> body@[j].0 != idx),
            None => !occupied(body@, idx as int),
        },
{
    let mut i: usize = 0;
    while i < body.len()
        invariant
            0 <= i <= body@.len(),
            forall|j: int| 0 <= j < i ==> body@[j].0 != idx,
        decreases body@.len() - i,
    {
        if body[i].0 == idx {
            return Some(i);
        }
        i = i + 1;
    }
    None
}

/// An owned copy of the body.
pub fn clone_body(body: &Vec<SnakeCell>) -> (r: Vec<SnakeCell>)
    ensures
        r@ == body@,
{
    let mut r: Vec<SnakeCell> = Vec::new();
    let mut i: usize = 0;
    while i < body.len()
        invariant
            0 <= i <= body@.len(),
            r@ == body@.subrange(0, i as int),
        decreases body@.len() - i,
    {
        r.push(body[i]);
        proof {
            assert(r@ =~= body@.subrange(0, i + 1));
        }
        i = i + 1;
    }
    proof {
        assert(r@ =~= body@);
    }
    r
}

/// Shift every cell after the head to the position its predecessor held in
/// the pre-tick snapshot `prev`.
pub fn shift_tail(body: &mut Vec<SnakeCell>, prev: &Vec<SnakeCell>)
    requires
        old(body)@.len() >= 1,
        prev@.len() >= old(body)@.len() - 1,
    ensures
        final(body)@.len() == old(body)@.len(),
        final(body)@[0] == old(body)@[0],
        forall|j: int| 1 <= j < final(body)@.len() ==> final(body)@[j] == prev@[j - 1],
{
    let len = body.len();
    let mut i: usize = 1;
    while i < len
        invariant
            1 <= i <= len,
            len == body@.len(),
            len >= 1,
            prev@.len() >= len - 1,
            body@[0] == old(body)@[0],
            forall|j: int| 1 <= j < i ==> body@[j] == prev@[j - 1],
        decreases len - i,
    {
        let c = prev[i - 1];
        body.set(i, c);
        i = i + 1;
    }
}

impl Snake {
    /// A snake of `size` cells laid out leftwards from `spawn_index`,
    /// heading up.
    pub fn new(spawn_index: usize, size: usize) -> (s: Snake)
        requires
            size >= 1,
            spawn_index + 1 >= size,
        ensures
            s.body@.len() == size,
            forall|i: int| 0 <= i < size ==> s.body@[i].0 == spawn_index - i,
            s.direction == Direction::Up,
    {
        let mut body: Vec<SnakeCell> = Vec::new();
        let mut i: usize = 0;
        while i < size
            invariant
                0 <= i <= size,
                spawn_index + 1 >= size,
                body@.len() == i,
                forall|j: int| 0 <= j < i ==> body@[j].0 == spawn_index - j,
            decreases size - i,
        {
            body.push(SnakeCell(spawn_index - i));
            i = i + 1;
        }
        Snake { body, direction: Direction::Up }
    }
}

/// On a board with more cells than the body has, some cell is free.
pub proof fn lemma_free_cell_exists(body: Seq<SnakeCell>, max: int)
    requires
        body.len() < max,
    ensures
        exists|k: int| 0 <= k < max && !occupied(body, k),
{
    broadcast use vstd::seq_lib::seq_to_set_is_finite;

    let values = body.map_values(|c: SnakeCell| c.0 as int);
    let occ = Set::new(|k: int| 0 <= k < max && occupied(body, k));
    assert(occ.subset_of(values.to_set())) by {
        assert forall|k: int| occ.contains(k) implies values.to_set().contains(k) by {
            let i = choose|i: int| 0 <= i < body.len() && body[i].0 == k;
            assert(values[i] == k);
            assert(values.contains(k));
        }
    }
    values.lemma_cardinality_of_set();
    vstd::set_lib::lemma_len_subset(occ, values.to_set());
    if forall|k: int| 0 <= k < max ==> occupied(body, k) {
        assert(occ =~= vstd::set_lib::set_int_range(0, max));
        vstd::set_lib::lemma_int_range(0, max);
        assert(occ.len() == max);
        assert(false);
    }
}

} // verus!
