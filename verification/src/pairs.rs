//! Walking the pairs of particles.
//!
//! Pairwise potentials and pairwise constraints visit every pair `(i, j)`
//! with `i < j < n` once, row by row: `(0, 1), (0, 2), ..., (0, n - 1),
//! (1, 2), ...`. The walk is a function from one pair to the next, so that
//! the caller's loop needs no bookkeeping of its own.

use vstd::prelude::*;

verus! {

/// `(i, j)` is a pair of distinct particles among `n`, smaller index first.
pub open spec fn is_pair(i: int, j: int, n: int) -> bool {
    0 <= i < j < n
}

/// Number of pairs whose first index is below `i`.
pub open spec fn row_start(i: nat, n: int) -> int
    decreases i,
{
    if i == 0 {
        0
    } else {
        row_start((i - 1) as nat, n) + (n - i)
    }
}

/// Position of the pair `(i, j)` in the walk, counted from zero.
pub open spec fn rank(i: int, j: int, n: int) -> int {
    row_start(i as nat, n) + (j - i - 1)
}

/// Number of pairs among `n` particles.
pub open spec fn pair_count(n: int) -> int {
    if n < 2 {
        0
    } else {
        row_start((n - 1) as nat, n)
    }
}

/// The pair that follows `(i, j)` in the walk.
pub open spec fn spec_next_pair(i: int, j: int, n: int) -> Option<(int, int)> {
    if j + 1 < n {
        Some((i, j + 1))
    } else if i + 2 < n {
        Some((i + 1, i + 2))
    } else {
        None
    }
}

/// `row_start` in closed form.
pub proof fn lemma_row_start(i: nat, n: int)
    ensures
        2 * row_start(i, n) == i * (2 * n - i - 1),
    decreases i,
{
    if i > 0 {
        let k = (i - 1) as nat;
        lemma_row_start(k, n);
        assert(i * (2 * n - i - 1) == k * (2 * n - k - 1) + 2 * (n - i)) by (nonlinear_arith)
            requires
                i == k + 1,
        ;
    } else {
        assert(i * (2 * n - i - 1) == 0) by (nonlinear_arith)
            requires
                i == 0,
        ;
    }
}

/// Among `n` particles there are `n (n - 1) / 2` pairs.
pub proof fn lemma_pair_count(n: nat)
    ensures
        2 * pair_count(n as int) == n * (n - 1),
{
    if n >= 2 {
        lemma_row_start((n - 1) as nat, n as int);
        assert((n - 1) * (2 * n - (n - 1) - 1) == n * (n - 1)) by (nonlinear_arith);
    } else {
        assert(n * (n - 1) == 0) by (nonlinear_arith)
            requires
                n == 0 || n == 1,
        ;
    }
}

/// Later rows start later.
pub proof fn lemma_row_start_increases(a: nat, b: nat, n: int)
    requires
        a <= b <= n,
    ensures
        row_start(a, n) <= row_start(b, n),
    decreases b,
{
    if a < b {
        lemma_row_start_increases(a, (b - 1) as nat, n);
    }
}

/// The rank of a pair lies below the number of pairs.
pub proof fn lemma_rank_bounds(i: int, j: int, n: int)
    requires
        is_pair(i, j, n),
    ensures
        0 <= rank(i, j, n) < pair_count(n),
{
    lemma_row_start_increases(0, i as nat, n);
    lemma_row_start_increases((i + 1) as nat, (n - 1) as nat, n);
}

/// A pair that comes earlier row by row has the smaller rank, so no two
/// pairs share a rank.
pub proof fn lemma_rank_increases(i: int, j: int, a: int, b: int, n: int)
    requires
        is_pair(i, j, n),
        is_pair(a, b, n),
        i < a || (i == a && j < b),
    ensures
        rank(i, j, n) < rank(a, b, n),
{
    if i < a {
        lemma_row_start_increases((i + 1) as nat, a as nat, n);
    }
}

/// The walk goes through the ranks one by one: it starts at rank 0, each
/// step raises the rank by one, and it ends at the last rank. Every pair is
/// therefore visited, and visited once.
pub proof fn lemma_walk_covers(i: int, j: int, n: int)
    requires
        is_pair(i, j, n),
    ensures
        rank(0, 1, n) == 0,
        match spec_next_pair(i, j, n) {
            Some((a, b)) => is_pair(a, b, n) && rank(a, b, n) == rank(i, j, n) + 1,
            None => rank(i, j, n) == pair_count(n) - 1,
        },
{
    if j + 1 >= n && i + 2 >= n {
        assert(i == n - 2 && j == n - 1);
    }
}

/// The first pair of the walk, if there is any pair.
pub fn first_pair(n: usize) -> (p: Option<(usize, usize)>)
    ensures
        n < 2 ==> p.is_none(),
        n >= 2 ==> p == Some((0usize, 1usize)),
{
    if n < 2 {
        None
    } else {
        Some((0, 1))
    }
}

/// The pair that follows `(i, j)`, or `None` after the last pair.
pub fn next_pair(i: usize, j: usize, n: usize) -> (p: Option<(usize, usize)>)
    ensures
        match spec_next_pair(i as int, j as int, n as int) {
            Some((a, b)) => p == Some((a as usize, b as usize)),
            None => p.is_none(),
        },
{
    if n >= 1 && j < n - 1 {
        Some((i, j + 1))
    } else if n >= 2 && i < n - 2 {
        Some((i + 1, i + 2))
    } else {
        None
    }
}

} // verus!
