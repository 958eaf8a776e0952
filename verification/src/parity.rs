//! Permutation parity via inversion counting, and the lemmas that drive the
//! legality invariant: a 4-cycle flips the parity of a permutation vector,
//! and a twisted 4-cycle preserves orientation sums modulo the twist domain.

use vstd::prelude::*;
use crate::turns::{cycle4_perm, cycle4_ori, addmod};

verus! {

/// How many entries of `s` are strictly below `x`.
pub open spec fn cnt_lt(x: u8, s: Seq<u8>) -> nat
    decreases s.len(),
{
    if s.len() == 0 {
        0
    } else {
        (if s[0] < x {
            1nat
        } else {
            0nat
        }) + cnt_lt(x, s.drop_first())
    }
}

/// The number of inversions of `s`: pairs `i < j` with `s[i] > s[j]`.
pub open spec fn inversions(s: Seq<u8>) -> nat
    decreases s.len(),
{
    if s.len() == 0 {
        0
    } else {
        cnt_lt(s[0], s.drop_first()) + inversions(s.drop_first())
    }
}

/// The parity of a permutation vector: 0 if it is an even permutation, 1 if
/// odd. For a sequence with no repeated entries this is the classical
/// even/odd classification by transposition count.
pub open spec fn perm_parity(s: Seq<u8>) -> nat {
    inversions(s) % 2
}

/// No entry of `s` occurs twice.
pub open spec fn all_distinct(s: Seq<u8>) -> bool {
    forall|i: int, j: int| 0 <= i < j < s.len() ==> s[i] != s[j]
}

/// `s` with the entries at `i` and `j` exchanged.
pub open spec fn swap_seq(s: Seq<u8>, i: int, j: int) -> Seq<u8> {
    s.update(i, s[j]).update(j, s[i])
}

/// The sum of the entries of `s`.
pub open spec fn sum_seq(s: Seq<u8>) -> int
    decreases s.len(),
{
    if s.len() == 0 {
        0
    } else {
        s[0] + sum_seq(s.drop_first())
    }
}

/// Replacing one entry shifts `cnt_lt` by the two entries' contributions.
proof fn lemma_cnt_lt_update(x: u8, s: Seq<u8>, k: int, v: u8)
    requires
        0 <= k < s.len(),
    ensures
        cnt_lt(x, s.update(k, v)) as int == cnt_lt(x, s) as int - (if s[k] < x {
            1int
        } else {
            0int
        }) + (if v < x {
            1int
        } else {
            0int
        }),
    decreases k,
{
    if k == 0 {
        assert(s.update(0, v).drop_first() =~= s.drop_first());
    } else {
        assert(s.update(k, v).drop_first() =~= s.drop_first().update(k - 1, v));
        lemma_cnt_lt_update(x, s.drop_first(), k - 1, v);
    }
}

/// Exchanging two entries leaves `cnt_lt` unchanged.
proof fn lemma_cnt_lt_swap(x: u8, s: Seq<u8>, i: int, j: int)
    requires
        0 <= i < s.len(),
        0 <= j < s.len(),
        i != j,
    ensures
        cnt_lt(x, swap_seq(s, i, j)) == cnt_lt(x, s),
{
    let s1 = s.update(i, s[j]);
    lemma_cnt_lt_update(x, s, i, s[j]);
    lemma_cnt_lt_update(x, s1, j, s[i]);
}

/// Appending an entry adds its contribution to `cnt_lt`.
proof fn lemma_cnt_lt_push(x: u8, s: Seq<u8>, e: u8)
    ensures
        cnt_lt(x, s.push(e)) == cnt_lt(x, s) + (if e < x {
            1nat
        } else {
            0nat
        }),
    decreases s.len(),
{
    reveal_with_fuel(cnt_lt, 3);
    if s.len() == 0 {
        assert(s.push(e).drop_first() =~= Seq::<u8>::empty());
    } else {
        assert(s.push(e).drop_first() =~= s.drop_first().push(e));
        lemma_cnt_lt_push(x, s.drop_first(), e);
    }
}

/// Exchanging two adjacent, distinct entries flips the inversion parity.
#[verifier::rlimit(50)]
proof fn lemma_adjacent_swap_flips(s: Seq<u8>, k: int)
    requires
        0 <= k,
        k + 1 < s.len(),
        s[k] != s[k + 1],
    ensures
        perm_parity(swap_seq(s, k, k + 1)) != perm_parity(s),
    decreases k,
{
    let q = swap_seq(s, k, k + 1);
    if k == 0 {
        let a = s[0];
        let b = s[1];
        let t1 = s.drop_first();
        let rest = t1.drop_first();
        let qt = q.drop_first();
        assert(q[0] == b);
        assert(qt[0] == a);
        assert(t1[0] == b);
        assert(qt.drop_first() =~= rest);
        assert(inversions(s) == cnt_lt(a, t1) + inversions(t1));
        assert(inversions(t1) == cnt_lt(b, rest) + inversions(rest));
        assert(inversions(q) == cnt_lt(b, qt) + inversions(qt));
        assert(inversions(qt) == cnt_lt(a, qt.drop_first()) + inversions(qt.drop_first()));
        assert(cnt_lt(a, t1) == (if b < a {
            1nat
        } else {
            0nat
        }) + cnt_lt(a, rest));
        assert(cnt_lt(b, qt) == (if a < b {
            1nat
        } else {
            0nat
        }) + cnt_lt(b, qt.drop_first()));
    } else {
        assert(q[0] == s[0]);
        assert(q.drop_first() =~= swap_seq(s.drop_first(), k - 1, k));
        lemma_cnt_lt_swap(s[0], s.drop_first(), k - 1, k);
        lemma_adjacent_swap_flips(s.drop_first(), k - 1);
        assert(inversions(s) == cnt_lt(s[0], s.drop_first()) + inversions(s.drop_first()));
        assert(inversions(q) == cnt_lt(q[0], q.drop_first()) + inversions(q.drop_first()));
    }
}

/// Exchanging entries keeps a sequence free of repeats.
proof fn lemma_swap_distinct(s: Seq<u8>, i: int, j: int)
    requires
        0 <= i < s.len(),
        0 <= j < s.len(),
        all_distinct(s),
    ensures
        all_distinct(swap_seq(s, i, j)),
{
}

/// Exchanging any two entries of a repeat-free sequence flips the inversion
/// parity: the classical fact that a transposition is an odd permutation.
proof fn lemma_swap_flips(s: Seq<u8>, i: int, j: int)
    requires
        0 <= i < j < s.len(),
        all_distinct(s),
    ensures
        perm_parity(swap_seq(s, i, j)) != perm_parity(s),
    decreases j - i,
{
    if j == i + 1 {
        lemma_adjacent_swap_flips(s, i);
    } else {
        let q1 = swap_seq(s, j - 1, j);
        let q2 = swap_seq(q1, i, j - 1);
        let q3 = swap_seq(q2, j - 1, j);
        lemma_adjacent_swap_flips(s, j - 1);
        lemma_swap_distinct(s, j - 1, j);
        lemma_swap_flips(q1, i, j - 1);
        lemma_swap_distinct(q1, i, j - 1);
        lemma_adjacent_swap_flips(q2, j - 1);
        assert(q3 =~= swap_seq(s, i, j));
    }
}

/// A 4-cycle over four distinct slots of a repeat-free permutation vector
/// flips its parity: it is the product of three transpositions.
pub proof fn lemma_cycle4_perm_parity(p: Seq<u8>, a: int, b: int, c: int, d: int)
    requires
        0 <= a < p.len() && 0 <= b < p.len() && 0 <= c < p.len() && 0 <= d < p.len(),
        a != b && a != c && a != d && b != c && b != d && c != d,
        all_distinct(p),
    ensures
        perm_parity(cycle4_perm(p, a, b, c, d)) != perm_parity(p),
{
    let s1 = swap_seq(p, a, b);
    let s2 = swap_seq(s1, a, c);
    let s3 = swap_seq(s2, a, d);
    lemma_swap_flips_any(p, a, b);
    lemma_swap_distinct(p, a, b);
    lemma_swap_flips_any(s1, a, c);
    lemma_swap_distinct(s1, a, c);
    lemma_swap_flips_any(s2, a, d);
    assert(s3 =~= cycle4_perm(p, a, b, c, d));
}

/// `lemma_swap_flips` for indices in either order.
proof fn lemma_swap_flips_any(s: Seq<u8>, i: int, j: int)
    requires
        0 <= i < s.len(),
        0 <= j < s.len(),
        i != j,
        all_distinct(s),
    ensures
        perm_parity(swap_seq(s, i, j)) != perm_parity(s),
{
    if i < j {
        lemma_swap_flips(s, i, j);
    } else {
        assert(swap_seq(s, i, j) =~= swap_seq(s, j, i));
        lemma_swap_flips(s, j, i);
    }
}

/// Replacing one entry shifts the sum by the difference of the entries.
proof fn lemma_sum_update(s: Seq<u8>, k: int, v: u8)
    requires
        0 <= k < s.len(),
    ensures
        sum_seq(s.update(k, v)) == sum_seq(s) - s[k] + v,
    decreases k,
{
    if k == 0 {
        assert(s.update(0, v).drop_first() =~= s.drop_first());
    } else {
        assert(s.update(k, v).drop_first() =~= s.drop_first().update(k - 1, v));
        lemma_sum_update(s.drop_first(), k - 1, v);
    }
}

/// Appending an entry adds it to the sum.
proof fn lemma_sum_push(s: Seq<u8>, e: u8)
    ensures
        sum_seq(s.push(e)) == sum_seq(s) + e,
    decreases s.len(),
{
    reveal_with_fuel(sum_seq, 3);
    if s.len() == 0 {
        assert(s.push(e).drop_first() =~= Seq::<u8>::empty());
    } else {
        assert(s.push(e).drop_first() =~= s.drop_first().push(e));
        lemma_sum_push(s.drop_first(), e);
    }
}

/// A twisted 4-cycle preserves the orientation sum modulo the twist domain,
/// because the four twists it adds sum to a multiple of the modulus.
pub proof fn lemma_cycle4_ori_sum(
    o: Seq<u8>,
    a: int,
    b: int,
    c: int,
    d: int,
    t1: u8,
    t2: u8,
    m: u8,
)
    requires
        0 <= a < o.len() && 0 <= b < o.len() && 0 <= c < o.len() && 0 <= d < o.len(),
        a != b && a != c && a != d && b != c && b != d && c != d,
        m == 2 || m == 3,
        t1 < m && t2 < m,
        (2 * t1 + 2 * t2) % (m as int) == 0,
        forall|i: int| 0 <= i < o.len() ==> o[i] < m,
    ensures
        sum_seq(cycle4_ori(o, a, b, c, d, t1, t2, m)) % (m as int) == sum_seq(o) % (m as int),
{
    let va = addmod(o[a], t1, m);
    let vb = addmod(o[b], t2, m);
    let vc = addmod(o[c], t1, m);
    let vd = addmod(o[d], t2, m);
    let s1 = o.update(b, va);
    let s2 = s1.update(c, vb);
    let s3 = s2.update(d, vc);
    let s4 = s3.update(a, vd);
    lemma_sum_update(o, b, va);
    lemma_sum_update(s1, c, vb);
    lemma_sum_update(s2, d, vc);
    lemma_sum_update(s3, a, vd);
    lemma_addmod_split(o[a], t1, m);
    lemma_addmod_split(o[b], t2, m);
    lemma_addmod_split(o[c], t1, m);
    lemma_addmod_split(o[d], t2, m);
    // va + vb + vc + vd == o[a] + o[b] + o[c] + o[d] + (2*t1 + 2*t2) - k*m
    // for some number k of wrap-arounds, so the sum changes by a multiple
    // of m.
    let total = sum_seq(o);
    let mm = m as int;
    let shift = (va + vb + vc + vd) - (o[a] + o[b] + o[c] + o[d]);
    assert(sum_seq(s4) == total + shift);
    let twists = 2 * t1 + 2 * t2;
    // Each of the four new entries wrapped around at most once, so the sum
    // changed by the four twists minus zero to four times the modulus.
    assert(shift == twists || shift == twists - mm || shift == twists - 2 * mm || shift == twists
        - 3 * mm || shift == twists - 4 * mm);
    vstd::arithmetic::div_mod::lemma_fundamental_div_mod(twists, mm);
    let q = twists / mm;
    assert(twists == mm * q);
    if shift == twists {
        vstd::arithmetic::div_mod::lemma_mod_multiples_vanish(q, total, mm);
    } else if shift == twists - mm {
        assert(total + shift == mm * (q - 1) + total);
        vstd::arithmetic::div_mod::lemma_mod_multiples_vanish(q - 1, total, mm);
    } else if shift == twists - 2 * mm {
        assert(total + shift == mm * (q - 2) + total);
        vstd::arithmetic::div_mod::lemma_mod_multiples_vanish(q - 2, total, mm);
    } else if shift == twists - 3 * mm {
        assert(total + shift == mm * (q - 3) + total);
        vstd::arithmetic::div_mod::lemma_mod_multiples_vanish(q - 3, total, mm);
    } else {
        assert(total + shift == mm * (q - 4) + total);
        vstd::arithmetic::div_mod::lemma_mod_multiples_vanish(q - 4, total, mm);
    }
}

/// No entry below `x` means `cnt_lt` is zero.
pub proof fn lemma_cnt_lt_zero(x: u8, s: Seq<u8>)
    requires
        forall|k: int| 0 <= k < s.len() ==> s[k] >= x,
    ensures
        cnt_lt(x, s) == 0,
    decreases s.len(),
{
    if s.len() > 0 {
        lemma_cnt_lt_zero(x, s.drop_first());
    }
}

/// A strictly increasing sequence has no inversions, so it is even.
pub proof fn lemma_increasing_even(s: Seq<u8>)
    requires
        forall|i: int, j: int| 0 <= i < j < s.len() ==> s[i] < s[j],
    ensures
        inversions(s) == 0,
        perm_parity(s) == 0,
    decreases s.len(),
{
    if s.len() > 0 {
        lemma_cnt_lt_zero(s[0], s.drop_first());
        lemma_increasing_even(s.drop_first());
    }
}

/// A sequence of zeros sums to zero.
pub proof fn lemma_sum_zero(s: Seq<u8>)
    requires
        forall|k: int| 0 <= k < s.len() ==> s[k] == 0,
    ensures
        sum_seq(s) == 0,
    decreases s.len(),
{
    if s.len() > 0 {
        lemma_sum_zero(s.drop_first());
    }
}

/// Splitting off the first entry of a tail of `s`.
proof fn lemma_inversions_skip_step(s: Seq<u8>, i: int)
    requires
        0 <= i < s.len(),
    ensures
        inversions(s.skip(i)) == cnt_lt(s[i], s.skip(i + 1)) + inversions(s.skip(i + 1)),
{
    assert(s.skip(i).drop_first() =~= s.skip(i + 1));
    assert(s.skip(i)[0] == s[i]);
}

/// The parity of a permutation vector, computed by counting inversions:
/// 0 for an even permutation, 1 for an odd one.
pub fn parity<const N: usize>(perm: &[u8; N]) -> (r: u8)
    requires
        N <= 10000,
    ensures
        r as nat == perm_parity(perm@),
        r == 0 || r == 1,
{
    let mut count: u64 = 0;
    let mut i: usize = 0;
    proof {
        assert(perm@.skip(0) =~= perm@);
    }
    while i < N
        invariant
            i <= N,
            N <= 10000,
            perm@.len() == N,
            count as int == inversions(perm@) as int - inversions(perm@.skip(i as int)) as int,
            count as int <= (i as int) * (N as int),
        decreases N - i,
    {
        let x = perm[i];
        let mut c: u64 = 0;
        let mut j: usize = i + 1;
        proof {
            assert(perm@.subrange(i as int + 1, i as int + 1) =~= Seq::<u8>::empty());
        }
        while j < N
            invariant
                i < N,
                N <= 10000,
                i + 1 <= j <= N,
                perm@.len() == N,
                x == perm@[i as int],
                c as nat == cnt_lt(x, perm@.subrange(i as int + 1, j as int)),
                c as int <= j - i - 1,
            decreases N - j,
        {
            proof {
                assert(perm@.subrange(i as int + 1, j as int + 1) =~= perm@.subrange(
                    i as int + 1,
                    j as int,
                ).push(perm@[j as int]));
                lemma_cnt_lt_push(x, perm@.subrange(i as int + 1, j as int), perm@[j as int]);
            }
            if perm[j] < x {
                c = c + 1;
            }
            j = j + 1;
        }
        proof {
            assert(perm@.subrange(i as int + 1, N as int) =~= perm@.skip(i as int + 1));
            lemma_inversions_skip_step(perm@, i as int);
            assert((i as int) * (N as int) + (N as int) == (i as int + 1) * (N as int))
                by (nonlinear_arith);
            assert((i as int + 1) * (N as int) <= 10000 * 10000) by (nonlinear_arith)
                requires
                    0 <= i < N <= 10000,
            ;
        }
        count = count + c;
        i = i + 1;
    }
    proof {
        assert(perm@.skip(N as int) =~= Seq::<u8>::empty());
    }
    (count % 2) as u8
}

/// The sign of a permutation vector: `1` if it is an even permutation,
/// `-1` if odd.
pub fn permutation_parity<const N: usize>(perm: &[u8; N]) -> (r: i32)
    requires
        N <= 10000,
    ensures
        r == (if perm_parity(perm@) == 0 {
            1i32
        } else {
            -1i32
        }),
{
    if parity(perm) == 0 {
        1
    } else {
        -1
    }
}

/// The sum of an orientation vector.
pub fn ori_sum<const N: usize>(o: &[u8; N]) -> (r: u32)
    requires
        N <= 1000,
    ensures
        r as int == sum_seq(o@),
{
    let mut total: u32 = 0;
    let mut j: usize = 0;
    proof {
        assert(o@.subrange(0, 0) =~= Seq::<u8>::empty());
    }
    while j < N
        invariant
            j <= N,
            N <= 1000,
            o@.len() == N,
            total as int == sum_seq(o@.subrange(0, j as int)),
            total as int <= 255 * (j as int),
        decreases N - j,
    {
        proof {
            assert(o@.subrange(0, j as int + 1) =~= o@.subrange(0, j as int).push(o@[j as int]));
            lemma_sum_push(o@.subrange(0, j as int), o@[j as int]);
        }
        total = total + (o[j] as u32);
        j = j + 1;
    }
    proof {
        assert(o@.subrange(0, N as int) =~= o@);
    }
    total
}

/// `addmod` either adds the twist or adds it and wraps once.
proof fn lemma_addmod_split(x: u8, t: u8, m: u8)
    requires
        m > 0,
        x < m,
        t < m,
    ensures
        addmod(x, t, m) == x + t || addmod(x, t, m) == x + t - m,
        addmod(x, t, m) < m,
{
    if x + t < m {
        vstd::arithmetic::div_mod::lemma_small_mod((x + t) as nat, m as nat);
    } else {
        vstd::arithmetic::div_mod::lemma_mod_multiples_vanish(1, x + t - m, m as int);
        vstd::arithmetic::div_mod::lemma_small_mod((x + t - m) as nat, m as nat);
    }
}

} // verus!
