//! Disjoint-cycle decomposition of the cube's permutation vectors.

use vstd::prelude::*;
use crate::state::Cube;

verus! {

/// The slot indices visited when following `perm` from slot `j` until an
/// already-visited slot (or an out-of-range entry) is reached. The fuel
/// bound never binds on an in-range permutation vector: every step visits a
/// fresh slot, so at most `perm.len()` steps are possible.
pub open spec fn walk(perm: Seq<u8>, j: int, visited: Set<int>, fuel: nat) -> Seq<u8>
    decreases fuel,
{
    if fuel == 0 || j < 0 || j >= perm.len() || visited.contains(j) {
        Seq::empty()
    } else {
        seq![j as u8] + walk(perm, perm[j] as int, visited.insert(j), (fuel - 1) as nat)
    }
}

/// The visited set after the same walk.
pub open spec fn walk_vis(perm: Seq<u8>, j: int, visited: Set<int>, fuel: nat) -> Set<int>
    decreases fuel,
{
    if fuel == 0 || j < 0 || j >= perm.len() || visited.contains(j) {
        visited
    } else {
        walk_vis(perm, perm[j] as int, visited.insert(j), (fuel - 1) as nat)
    }
}

/// The non-trivial cycles of `perm` found from slot `i` upward: slots are
/// scanned in ascending order; each unvisited, non-fixed slot starts a walk
/// along the permutation, and walks of length greater than one are
/// collected in scan order.
pub open spec fn cycles_from(perm: Seq<u8>, i: int, visited: Set<int>) -> Seq<Seq<u8>>
    decreases perm.len() - i,
{
    if i < 0 || i >= perm.len() {
        Seq::empty()
    } else if visited.contains(i) || perm[i] == i as u8 {
        cycles_from(perm, i + 1, visited)
    } else {
        let c = walk(perm, i, visited, perm.len() as nat);
        let v2 = walk_vis(perm, i, visited, perm.len() as nat);
        if c.len() > 1 {
            seq![c] + cycles_from(perm, i + 1, v2)
        } else {
            cycles_from(perm, i + 1, v2)
        }
    }
}

/// The disjoint non-trivial cycles of a permutation vector, in ascending
/// order of their smallest slot, each cycle starting at that slot and
/// following the permutation; fixed points are omitted.
pub open spec fn cycles_of(perm: Seq<u8>) -> Seq<Seq<u8>> {
    cycles_from(perm, 0, Set::empty())
}

/// Compute the disjoint non-trivial cycles of a permutation vector.
fn decompose<const N: usize>(perm: &[u8; N]) -> (r: Vec<Vec<u8>>)
    requires
        N <= 256,
        forall|k: int| 0 <= k < N ==> perm@[k] < N,
    ensures
        r.deep_view() == cycles_of(perm@),
{
    let mut visited: Vec<bool> = Vec::new();
    while visited.len() < N
        invariant
            visited@.len() <= N,
            forall|k: int| 0 <= k < visited@.len() ==> !visited@[k],
        decreases N - visited@.len(),
    {
        visited.push(false);
    }
    let ghost mut vset: Set<int> = Set::empty();
    let mut r: Vec<Vec<u8>> = Vec::new();
    let mut i: usize = 0;
    proof {
        assert(r.deep_view() =~= Seq::<Seq<u8>>::empty());
        assert(Seq::<Seq<u8>>::empty() + cycles_of(perm@) =~= cycles_of(perm@));
    }
    while i < N
        invariant
            i <= N,
            N <= 256,
            perm@.len() == N,
            visited@.len() == N,
            forall|k: int| 0 <= k < N ==> perm@[k] < N,
            forall|k: int| 0 <= k < N ==> visited@[k] == vset.contains(k),
            cycles_of(perm@) == r.deep_view() + cycles_from(perm@, i as int, vset),
        decreases N - i,
    {
        if !visited[i] && perm[i] as usize != i {
            let ghost vset0 = vset;
            let ghost acc0 = r.deep_view();
            proof {
                assert(!vset0.contains(i as int));
                assert(perm@[i as int] != i as u8);
            }
            let mut cycle: Vec<u8> = Vec::new();
            let mut j: usize = i;
            let mut fuel: usize = N;
            while fuel > 0 && !visited[j]
                invariant
                    N <= 256,
                    perm@.len() == N,
                    visited@.len() == N,
                    j < N,
                    fuel <= N,
                    forall|k: int| 0 <= k < N ==> perm@[k] < N,
                    forall|k: int| 0 <= k < N ==> visited@[k] == vset.contains(k),
                    walk(perm@, i as int, vset0, N as nat) == cycle@ + walk(
                        perm@,
                        j as int,
                        vset,
                        fuel as nat,
                    ),
                    walk_vis(perm@, i as int, vset0, N as nat) == walk_vis(
                        perm@,
                        j as int,
                        vset,
                        fuel as nat,
                    ),
                decreases fuel,
            {
                let ghost cprev = cycle@;
                let ghost j0 = j as int;
                let ghost fuel0 = fuel as nat;
                cycle.push(j as u8);
                visited[j] = true;
                proof {
                    vset = vset.insert(j as int);
                }
                j = perm[j] as usize;
                fuel = fuel - 1;
                proof {
                    assert(cprev + (seq![j0 as u8] + walk(perm@, j as int, vset, fuel as nat))
                        =~= cycle@ + walk(perm@, j as int, vset, fuel as nat));
                }
            }
            proof {
                assert(walk(perm@, j as int, vset, fuel as nat) =~= Seq::<u8>::empty());
                assert(cycle@ + Seq::<u8>::empty() =~= cycle@);
                assert(walk(perm@, i as int, vset0, N as nat) == cycle@);
                assert(walk_vis(perm@, i as int, vset0, N as nat) == vset);
            }
            if cycle.len() > 1 {
                let ghost cv = cycle@;
                proof {
                    assert(cycle.deep_view() =~= cycle@);
                }
                r.push(cycle);
                proof {
                    assert(r.deep_view() =~= acc0 + seq![cv]);
                    assert(cycles_from(perm@, i as int, vset0) == seq![cv] + cycles_from(
                        perm@,
                        i as int + 1,
                        vset,
                    ));
                    assert(acc0 + (seq![cv] + cycles_from(perm@, i as int + 1, vset)) =~= (acc0
                        + seq![cv]) + cycles_from(perm@, i as int + 1, vset));
                }
            } else {
                proof {
                    assert(cycles_from(perm@, i as int, vset0) == cycles_from(
                        perm@,
                        i as int + 1,
                        vset,
                    ));
                }
            }
        }
        i = i + 1;
    }
    proof {
        assert(cycles_from(perm@, N as int, vset) =~= Seq::<Seq<u8>>::empty());
        assert(r.deep_view() + Seq::<Seq<u8>>::empty() =~= r.deep_view());
    }
    r
}

/// The disjoint non-trivial cycles of the corner permutation, each a list
/// of corner slots, in ascending order of their smallest slot.
pub fn corner_cycles(cube: &Cube) -> (r: Vec<Vec<u8>>)
    ensures
        r.deep_view() == cycles_of(cube@.corner_perm),
{
    proof {
        use_type_invariant(cube);
    }
    decompose(cube.corners())
}

/// The disjoint non-trivial cycles of the edge permutation, each a list of
/// edge slots, in ascending order of their smallest slot.
pub fn edge_cycles(cube: &Cube) -> (r: Vec<Vec<u8>>)
    ensures
        r.deep_view() == cycles_of(cube@.edge_perm),
{
    proof {
        use_type_invariant(cube);
    }
    decompose(cube.edges())
}

} // verus!
