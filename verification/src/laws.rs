//! What the laws decide before they compute: how many particles a position
//! array holds and where the endpoints of a spring lie in it.

use vstd::prelude::*;

verus! {

/// Number of particles in a position array of `q_len` coordinates, or
/// `None` where the coordinates do not come in triples. A pairwise law
/// contributes nothing to the potential in that case.
pub fn particle_count(q_len: usize) -> (n: Option<usize>)
    ensures
        q_len % 3 == 0 ==> n == Some((q_len / 3) as usize),
        q_len % 3 != 0 ==> n.is_none(),
{
    if q_len % 3 != 0 {
        None
    } else {
        Some(q_len / 3)
    }
}

/// Both endpoints of a spring have all three coordinates in a position
/// array of `q_len` entries.
pub open spec fn spring_in_range(p1_idx: nat, p2_idx: nat, q_len: nat) -> bool {
    3 * p1_idx + 2 < q_len && 3 * p2_idx + 2 < q_len
}

/// Where the coordinates of the two endpoints of a spring start in a
/// position array of `q_len` entries, or `None` where an endpoint lies
/// outside it. A spring with an endpoint outside contributes nothing to the
/// potential.
pub fn spring_offsets(p1_idx: usize, p2_idx: usize, q_len: usize) -> (r: Option<(usize, usize)>)
    ensures
        spring_in_range(p1_idx as nat, p2_idx as nat, q_len as nat) ==> r == Some(
            ((3 * p1_idx) as usize, (3 * p2_idx) as usize),
        ),
        !spring_in_range(p1_idx as nat, p2_idx as nat, q_len as nat) ==> r.is_none(),
{
    if q_len < 3 {
        return None;
    }
    let last = (q_len - 3) / 3;
    if p1_idx > last || p2_idx > last {
        None
    } else {
        Some((3 * p1_idx, 3 * p2_idx))
    }
}

} // verus!
