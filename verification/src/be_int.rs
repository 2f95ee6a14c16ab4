//! Unsigned integers written as big-endian byte strings, and their order.

use vstd::prelude::*;

verus! {

/// `256` to the power `n`.
pub open spec fn pow256(n: nat) -> nat
    decreases n,
{
    if n == 0 {
        1
    } else {
        256 * pow256((n - 1) as nat)
    }
}

/// The unsigned integer that `s` writes in big-endian order.
pub open spec fn be_value(s: Seq<u8>) -> nat
    decreases s.len(),
{
    if s.len() == 0 {
        0
    } else {
        s[0] as nat * pow256((s.len() - 1) as nat) + be_value(s.drop_first())
    }
}

proof fn lemma_pow256_positive(n: nat)
    ensures
        pow256(n) >= 1,
    decreases n,
{
    if n > 0 {
        lemma_pow256_positive((n - 1) as nat);
    }
}

proof fn lemma_pow256_monotonic(m: nat, n: nat)
    requires
        m <= n,
    ensures
        pow256(m) <= pow256(n),
    decreases n,
{
    if m < n {
        lemma_pow256_monotonic(m, (n - 1) as nat);
        lemma_pow256_positive((n - 1) as nat);
    }
}

/// Leading zero bytes do not change the number written.
proof fn lemma_be_value_leading_zero(s: Seq<u8>)
    requires
        s.len() > 0,
        s[0] == 0,
    ensures
        be_value(s) == be_value(s.drop_first()),
{
    let p = pow256((s.len() - 1) as nat);
    assert(0 * p == 0) by (nonlinear_arith);
}

/// A byte string of length `n` writes a number below `256^n`.
proof fn lemma_be_value_bound(s: Seq<u8>)
    ensures
        be_value(s) < pow256(s.len()),
    decreases s.len(),
{
    if s.len() > 0 {
        let p = pow256((s.len() - 1) as nat);
        lemma_be_value_bound(s.drop_first());
        let x = s[0] as nat;
        let rest = be_value(s.drop_first());
        assert(x * p + rest < 256 * p) by (nonlinear_arith)
            requires
                x <= 255,
                rest < p,
        ;
    }
}

/// A byte string whose first byte is not zero writes at least `256^(n-1)`.
proof fn lemma_be_value_lower(s: Seq<u8>)
    requires
        s.len() > 0,
        s[0] != 0,
    ensures
        be_value(s) >= pow256((s.len() - 1) as nat),
{
    let p = pow256((s.len() - 1) as nat);
    let x = s[0] as nat;
    assert(x * p >= p) by (nonlinear_arith)
        requires
            x >= 1,
    ;
}

/// Two byte strings of one length that start with different bytes are ordered
/// by those bytes.
proof fn lemma_be_value_first_byte(a: Seq<u8>, b: Seq<u8>)
    requires
        a.len() == b.len(),
        a.len() > 0,
        a[0] < b[0],
    ensures
        be_value(a) < be_value(b),
{
    let p = pow256((a.len() - 1) as nat);
    lemma_be_value_bound(a.drop_first());
    let x = a[0] as nat;
    let y = b[0] as nat;
    let ra = be_value(a.drop_first());
    let rb = be_value(b.drop_first());
    assert(x * p + ra < y * p + rb) by (nonlinear_arith)
        requires
            x + 1 <= y,
            ra < p,
    ;
}

/// Tells whether the number that `a` writes is at most the one that `b` writes.
pub fn be_le(a: &[u8], b: &[u8]) -> (r: bool)
    ensures
        r == (be_value(a@) <= be_value(b@)),
{
    // Skip the leading zero bytes of both.
    let mut i: usize = 0;
    assert(a@.skip(0) =~= a@);
    assert(b@.skip(0) =~= b@);
    while i < a.len() && a[i] == 0
        invariant
            i <= a@.len(),
            be_value(a@) == be_value(a@.skip(i as int)),
        decreases a@.len() - i,
    {
        assert(a@.skip(i as int).drop_first() =~= a@.skip(i + 1));
        proof {
            lemma_be_value_leading_zero(a@.skip(i as int));
        }
        i = i + 1;
    }
    let mut j: usize = 0;
    while j < b.len() && b[j] == 0
        invariant
            j <= b@.len(),
            be_value(b@) == be_value(b@.skip(j as int)),
        decreases b@.len() - j,
    {
        assert(b@.skip(j as int).drop_first() =~= b@.skip(j + 1));
        proof {
            lemma_be_value_leading_zero(b@.skip(j as int));
        }
        j = j + 1;
    }
    let la = a.len() - i;
    let lb = b.len() - j;
    let ghost sa = a@.skip(i as int);
    let ghost sb = b@.skip(j as int);
    if la != lb {
        proof {
            if la < lb {
                lemma_be_value_bound(sa);
                lemma_be_value_lower(sb);
                lemma_pow256_monotonic(la as nat, (lb - 1) as nat);
            } else {
                lemma_be_value_bound(sb);
                lemma_be_value_lower(sa);
                lemma_pow256_monotonic(lb as nat, (la - 1) as nat);
            }
        }
        return la < lb;
    }
    // Equal lengths: the first differing byte decides.
    let mut k: usize = 0;
    assert(sa.skip(0) =~= sa);
    assert(sb.skip(0) =~= sb);
    while k < la
        invariant
            la == lb,
            a@.len() == a.len(),
            b@.len() == b.len(),
            i + la == a@.len(),
            j + lb == b@.len(),
            k <= la,
            sa == a@.skip(i as int),
            sb == b@.skip(j as int),
            be_value(a@) == be_value(sa),
            be_value(b@) == be_value(sb),
            (be_value(sa) <= be_value(sb)) == (be_value(sa.skip(k as int)) <= be_value(
                sb.skip(k as int),
            )),
        decreases la - k,
    {
        let x = a[i + k];
        let y = b[j + k];
        assert(sa.skip(k as int)[0] == x);
        assert(sb.skip(k as int)[0] == y);
        if x < y {
            proof {
                lemma_be_value_first_byte(sa.skip(k as int), sb.skip(k as int));
            }
            return true;
        }
        if y < x {
            proof {
                lemma_be_value_first_byte(sb.skip(k as int), sa.skip(k as int));
            }
            return false;
        }
        assert(sa.skip(k as int).drop_first() =~= sa.skip(k + 1));
        assert(sb.skip(k as int).drop_first() =~= sb.skip(k + 1));
        k = k + 1;
    }
    assert(sa.skip(k as int) =~= Seq::<u8>::empty());
    assert(sb.skip(k as int) =~= Seq::<u8>::empty());
    true
}

} // verus!
