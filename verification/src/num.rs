//! Numbers as the script language encodes them: little-endian magnitude bytes
//! with the sign in the highest bit of the last byte.

use vstd::prelude::*;

use crate::be_int::pow256;
use crate::error::Error;

verus! {

/// The unsigned integer that `s` writes in little-endian order.
pub open spec fn le_value(s: Seq<u8>) -> nat
    decreases s.len(),
{
    if s.len() == 0 {
        0
    } else {
        s[0] as nat + 256 * le_value(s.drop_first())
    }
}

/// The shortest little-endian bytes of `m`: no trailing zero byte.
pub open spec fn le_bytes(m: nat) -> Seq<u8>
    decreases m,
{
    if m == 0 {
        Seq::empty()
    } else {
        seq![(m % 256) as u8] + le_bytes(m / 256)
    }
}

/// `s` with the sign bit of its last byte cleared.
pub open spec fn clear_sign(s: Seq<u8>) -> Seq<u8> {
    s.update(s.len() - 1, (s.last() % 128) as u8)
}

/// The number that a script number encoding stands for: the little-endian
/// magnitude with the last byte's highest bit cleared, negated when that bit is
/// set. The empty encoding stands for zero.
pub open spec fn spec_decode(s: Seq<u8>) -> int {
    if s.len() == 0 {
        0
    } else if s.last() >= 0x80 {
        -(le_value(clear_sign(s)) as int)
    } else {
        le_value(s) as int
    }
}

/// An encoding is minimal when its most significant byte, sign bit aside, is
/// not zero, unless that zero byte is needed to hold the sign bit apart from a
/// byte whose own highest bit is set. The empty encoding is minimal.
pub open spec fn spec_is_minimal(s: Seq<u8>) -> bool {
    s.len() == 0 || s.last() % 128 != 0 || (s.len() > 1 && s[s.len() - 2] >= 0x80)
}

/// The absolute value of `v`.
pub open spec fn abs(v: int) -> nat {
    if v < 0 {
        (-v) as nat
    } else {
        v as nat
    }
}

/// The shortest encoding of `v`: the little-endian bytes of its absolute value,
/// with the sign in the highest bit of the last byte; when that bit is taken by
/// the magnitude, one more byte (`0x80` or `0x00`) holds the sign.
pub open spec fn spec_encode(v: int) -> Seq<u8> {
    if v == 0 {
        Seq::empty()
    } else {
        let b = le_bytes(abs(v));
        if b.last() >= 0x80 {
            b.push(if v < 0 {
                0x80u8
            } else {
                0u8
            })
        } else if v < 0 {
            b.update(b.len() - 1, (b.last() + 0x80) as u8)
        } else {
            b
        }
    }
}

/// Reading a number of at most `max_size` bytes: longer encodings overflow,
/// and when `require_minimal` is set a non-minimal encoding is refused.
pub open spec fn spec_from_slice(s: Seq<u8>, require_minimal: bool, max_size: nat) -> Result<
    int,
    Error,
> {
    if s.len() > max_size {
        Err(Error::NumberOverflow)
    } else if s.len() == 0 {
        Ok(0)
    } else if require_minimal && !spec_is_minimal(s) {
        Err(Error::NumberNotMinimallyEncoded)
    } else {
        Ok(spec_decode(s))
    }
}

/// A number of the script language.
#[derive(Debug, Clone, Copy, PartialEq, Eq, Structural)]
pub struct Num {
    value: i64,
}

impl View for Num {
    type V = int;

    closed spec fn view(&self) -> int {
        self.value as int
    }
}

impl Num {
    /// A number always fits a 64-bit signed machine integer.
    pub proof fn lemma_range(&self)
        ensures
            i64::MIN <= self@ <= i64::MAX,
    {
    }
}

proof fn lemma_pow256_facts()
    ensures
        pow256(6) == 0x0001_0000_0000_0000,
        pow256(7) == 0x0100_0000_0000_0000,
        pow256(8) == 0x1_0000_0000_0000_0000,
{
    reveal_with_fuel(pow256, 9);
}

proof fn lemma_pow256_monotonic(m: nat, n: nat)
    requires
        m <= n,
    ensures
        pow256(m) <= pow256(n),
    decreases n,
{
    if m < n {
        lemma_pow256_monotonic(m, (n - 1) as nat);
    }
}

proof fn lemma_le_value_bound(s: Seq<u8>)
    ensures
        le_value(s) < pow256(s.len()),
    decreases s.len(),
{
    if s.len() > 0 {
        lemma_le_value_bound(s.drop_first());
        let p = pow256((s.len() - 1) as nat);
        let r = le_value(s.drop_first());
        assert(s[0] + 256 * r < 256 * p) by (nonlinear_arith)
            requires
                s[0] < 256,
                r < p,
        ;
    }
}

/// The value of a non-empty little-endian string is that of all but its last
/// byte plus the last byte times `256^(n-1)`.
proof fn lemma_le_value_last(s: Seq<u8>)
    requires
        s.len() > 0,
    ensures
        le_value(s) == le_value(s.drop_last()) + s.last() * pow256((s.len() - 1) as nat),
    decreases s.len(),
{
    if s.len() > 1 {
        let t = s.drop_first();
        lemma_le_value_last(t);
        assert(t.drop_last() =~= s.drop_last().drop_first());
        assert(s.drop_last()[0] == s[0]);
        assert(t.last() == s.last());
        let p = pow256((s.len() - 2) as nat);
        assert(pow256((s.len() - 1) as nat) == 256 * p);
        let a = le_value(t.drop_last());
        let l = s.last() as int;
        assert(le_value(t) == a + l * p);
        assert(le_value(s.drop_last()) == s[0] + 256 * a);
        assert(256 * (a + l * p) == 256 * a + l * (256 * p)) by (nonlinear_arith);
        assert(le_value(s) == s[0] + 256 * le_value(t));
    } else {
        assert(s.drop_last() =~= Seq::<u8>::empty());
        assert(s.drop_first() =~= Seq::<u8>::empty());
        assert(pow256(0) == 1);
        assert(le_value(s) == s[0] + 256 * le_value(s.drop_first()));
        assert(s.last() == s[0]);
        assert(s.last() * pow256(0) == s.last()) by (nonlinear_arith)
            requires
                pow256(0) == 1,
        ;
    }
}

proof fn lemma_le_value_of_le_bytes(m: nat)
    ensures
        le_value(le_bytes(m)) == m,
    decreases m,
{
    if m > 0 {
        lemma_le_value_of_le_bytes(m / 256);
        assert(le_bytes(m).drop_first() =~= le_bytes(m / 256));
    }
}

proof fn lemma_le_bytes_last(m: nat)
    requires
        m > 0,
    ensures
        le_bytes(m).len() > 0,
        le_bytes(m).last() != 0,
    decreases m,
{
    if m / 256 > 0 {
        lemma_le_bytes_last(m / 256);
    } else {
        assert(le_bytes(m / 256) =~= Seq::<u8>::empty());
        assert(le_bytes(m) =~= seq![(m % 256) as u8]);
    }
}

proof fn lemma_le_value_push_zero(s: Seq<u8>)
    ensures
        le_value(s.push(0)) == le_value(s),
    decreases s.len(),
{
    if s.len() > 0 {
        lemma_le_value_push_zero(s.drop_first());
        assert(s.push(0).drop_first() =~= s.drop_first().push(0));
        assert(s.push(0)[0] == s[0]);
    } else {
        assert(s.push(0).drop_first() =~= Seq::<u8>::empty());
        assert(s.push(0)[0] == 0);
        assert(le_value(Seq::<u8>::empty()) == 0);
    }
}

proof fn lemma_le_value_positive(s: Seq<u8>)
    requires
        s.len() > 0,
        s.last() != 0,
    ensures
        le_value(s) > 0,
    decreases s.len(),
{
    if s.len() > 1 {
        lemma_le_value_positive(s.drop_first());
    }
}

proof fn lemma_le_bytes_of_le_value(t: Seq<u8>)
    requires
        t.len() > 0 ==> t.last() != 0,
    ensures
        le_bytes(le_value(t)) == t,
    decreases t.len(),
{
    if t.len() > 0 {
        let rest = t.drop_first();
        let x = le_value(rest);
        let v = le_value(t);
        assert(v == t[0] as nat + 256 * x);
        assert(v % 256 == t[0] as nat);
        assert(v / 256 == x);
        if rest.len() == 0 {
            assert(le_bytes(0) =~= Seq::<u8>::empty());
            assert(t =~= seq![t[0]]);
        } else {
            lemma_le_bytes_of_le_value(rest);
        }
        lemma_le_value_positive(t);
        assert(le_bytes(v) =~= seq![(v % 256) as u8] + le_bytes(v / 256));
        assert(t =~= seq![t[0]] + rest);
    } else {
        assert(le_bytes(0) =~= t);
    }
}

proof fn lemma_le_bytes_len(m: nat, k: nat)
    requires
        m < pow256(k),
    ensures
        le_bytes(m).len() <= k,
    decreases m,
{
    if m > 0 {
        assert(k > 0);
        lemma_le_bytes_len(m / 256, (k - 1) as nat);
    }
}

/// The shortest encoding of a number that fits a 64-bit signed machine
/// integer has at most 9 bytes.
pub proof fn lemma_encode_len(v: int)
    requires
        i64::MIN < v <= i64::MAX,
    ensures
        spec_encode(v).len() <= 9,
{
    if v != 0 {
        lemma_pow256_facts();
        lemma_le_bytes_len(abs(v), 8);
    }
}

/// An encoding of at most 8 bytes stands for a number that fits a 64-bit
/// signed machine integer (and is not its minimum).
pub proof fn lemma_decode_bound(s: Seq<u8>)
    requires
        s.len() <= 8,
    ensures
        i64::MIN < spec_decode(s) <= i64::MAX,
{
    if s.len() > 0 {
        let t = clear_sign(s);
        let p = pow256((s.len() - 1) as nat);
        assert(t.drop_last() =~= s.drop_last());
        lemma_le_value_bound(s.drop_last());
        lemma_le_value_last(t);
        lemma_pow256_monotonic((s.len() - 1) as nat, 7);
        lemma_pow256_facts();
        let a = le_value(s.drop_last());
        let l = t.last() as int;
        assert(l < 128);
        assert(a + l * p < 128 * p) by (nonlinear_arith)
            requires
                a < p,
                l < 128,
        ;
        assert(128 * p <= 0x8000_0000_0000_0000) by (nonlinear_arith)
            requires
                p <= 0x0100_0000_0000_0000,
        ;
        if s.last() < 0x80 {
            assert(t =~= s);
        }
    }
}

/// The shortest little-endian bytes of a positive number end in a byte that
/// is not zero.
pub proof fn lemma_le_bytes_last_pub(m: nat)
    requires
        m > 0,
    ensures
        le_bytes(m).len() > 0,
        le_bytes(m).last() != 0,
{
    lemma_le_bytes_last(m);
}

/// A zero byte after the last one does not change a little-endian value.
pub proof fn lemma_le_value_push_zero_pub(s: Seq<u8>)
    ensures
        le_value(s.push(0)) == le_value(s),
{
    lemma_le_value_push_zero(s);
}

/// Reading back the shortest encoding of a number gives the number, and that
/// encoding is minimal.
pub proof fn lemma_encode_decode(v: int)
    ensures
        spec_decode(spec_encode(v)) == v,
        spec_is_minimal(spec_encode(v)),
{
    if v != 0 {
        let m = abs(v);
        let b = le_bytes(m);
        lemma_le_bytes_last(m);
        lemma_le_value_of_le_bytes(m);
        let e = spec_encode(v);
        if b.last() >= 0x80 {
            if v < 0 {
                assert(clear_sign(e) =~= b.push(0));
            }
            lemma_le_value_push_zero(b);
        } else if v < 0 {
            assert(clear_sign(e) =~= b);
        }
    }
}

/// Every minimal encoding is the shortest encoding of the number it stands for.
pub proof fn lemma_decode_encode(s: Seq<u8>)
    requires
        spec_is_minimal(s),
    ensures
        spec_encode(spec_decode(s)) == s,
{
    if s.len() > 0 {
        let n = s.len();
        let t = clear_sign(s);
        if s.last() % 128 != 0 {
            lemma_le_bytes_of_le_value(t);
            lemma_le_value_positive(t);
            if s.last() >= 0x80 {
                assert(t.update(n - 1, (t.last() + 0x80) as u8) =~= s);
            } else {
                assert(t =~= s);
            }
        } else {
            let p = s.drop_last();
            assert(t =~= p.push(0));
            lemma_le_value_push_zero(p);
            lemma_le_bytes_of_le_value(p);
            lemma_le_value_positive(p);
            if s.last() >= 0x80 {
                assert(s.last() == 0x80);
            } else {
                assert(s.last() == 0);
                assert(p.push(0) =~= s);
                assert(le_value(s) == le_value(p));
            }
            assert(p.push(s.last()) =~= s);
        }
    }
}

/// Reading, with minimality required, the shortest encoding of a number gives
/// the number back whenever the encoding fits the size limit.
pub proof fn lemma_from_slice_of_encoding(v: int, max_size: nat)
    requires
        spec_encode(v).len() <= max_size,
    ensures
        spec_from_slice(spec_encode(v), true, max_size) == Ok::<int, Error>(v),
{
    lemma_encode_decode(v);
}

impl Num {
    /// The number `value`.
    pub fn new(value: i64) -> (r: Num)
        ensures
            r@ == value,
    {
        Num { value }
    }

    /// The number of a length.
    pub fn from_usize(n: usize) -> (r: Num)
        requires
            n <= i64::MAX,
        ensures
            r@ == n,
    {
        Num { value: n as i64 }
    }

    /// The number `n`.
    pub fn from_u8(n: u8) -> (r: Num)
        ensures
            r@ == n,
    {
        Num { value: n as i64 }
    }

    /// The number as a machine integer.
    pub fn value(&self) -> (r: i64)
        ensures
            r == self@,
    {
        self.value
    }

    /// Tells whether the number is below zero.
    pub fn is_negative(&self) -> (r: bool)
        ensures
            r == (self@ < 0),
    {
        self.value < 0
    }

    /// Tells whether the number is zero.
    pub fn is_zero(&self) -> (r: bool)
        ensures
            r == (self@ == 0),
    {
        self.value == 0
    }

    /// The bitwise and of two numbers, in two's complement.
    pub fn bit_and(&self, other: &Num) -> (r: Num)
        ensures
            r@ == (self@ as i64 & other@ as i64),
    {
        Num { value: self.value & other.value }
    }

    /// Reads a number of at most `max_size` bytes from its encoding; when
    /// `require_minimal` is set, the encoding must be the shortest one.
    pub fn from_slice(data: &[u8], require_minimal: bool, max_size: usize) -> (r: Result<
        Num,
        Error,
    >)
        requires
            data@.len() <= 8 || data@.len() > max_size,
        ensures
            match r {
                Ok(n) => spec_from_slice(data@, require_minimal, max_size as nat) == Ok::<
                    int,
                    Error,
                >(n@),
                Err(e) => spec_from_slice(data@, require_minimal, max_size as nat) == Err::<
                    int,
                    Error,
                >(e),
            },
    {
        let len = data.len();
        if len > max_size {
            return Err(Error::NumberOverflow);
        }
        if len == 0 {
            return Ok(Num { value: 0 });
        }
        let last = data[len - 1];
        if require_minimal && last % 128 == 0 && (len <= 1 || data[len - 2] < 0x80) {
            return Err(Error::NumberNotMinimallyEncoded);
        }
        let ghost t = clear_sign(data@);
        // Accumulate the magnitude from the most significant byte down.
        let mut acc: u64 = 0;
        let mut i: usize = len;
        assert(t.subrange(len as int, len as int) =~= Seq::<u8>::empty());
        while i > 0
            invariant
                0 < len <= 8,
                len == data@.len(),
                last == data@[len - 1],
                t == clear_sign(data@),
                i <= len,
                acc == le_value(t.subrange(i as int, len as int)),
                i == len ==> acc == 0,
                i < len ==> acc < 128 * pow256((len - 1 - i) as nat),
            decreases i,
        {
            let b: u8 = if i == len {
                last % 128
            } else {
                data[i - 1]
            };
            assert(b == t[i - 1]);
            assert(t.subrange(i - 1, len as int).drop_first() =~= t.subrange(i as int, len as int));
            proof {
                if i < len {
                    let p = pow256((len - 1 - i) as nat);
                    lemma_pow256_monotonic((len - 1 - i) as nat, 6);
                    lemma_pow256_facts();
                    assert(b + 256 * acc < 128 * (256 * p)) by (nonlinear_arith)
                        requires
                            b < 256,
                            acc < 128 * p,
                    ;
                    assert(128 * (256 * p) <= 0x8000_0000_0000_0000) by (nonlinear_arith)
                        requires
                            p <= 0x0001_0000_0000_0000,
                    ;
                }
            }
            acc = b as u64 + 256 * acc;
            i = i - 1;
        }
        assert(t.subrange(0, len as int) =~= t);
        proof {
            lemma_pow256_monotonic((len - 1) as nat, 7);
            lemma_pow256_facts();
        }
        let mag = acc as i64;
        if last >= 0x80 {
            Ok(Num { value: -mag })
        } else {
            assert(t =~= data@);
            Ok(Num { value: mag })
        }
    }

    /// The shortest encoding of the number.
    pub fn to_vec(&self) -> (r: Vec<u8>)
        requires
            self@ > i64::MIN,
        ensures
            r@ == spec_encode(self@),
    {
        if self.value == 0 {
            return Vec::new();
        }
        let negative = self.value < 0;
        let mut absvalue: u64 = if negative {
            (-self.value) as u64
        } else {
            self.value as u64
        };
        let ghost m = abs(self@);
        let mut result: Vec<u8> = Vec::new();
        assert(result@ + le_bytes(m) =~= le_bytes(m));
        while absvalue > 0
            invariant
                result@ + le_bytes(absvalue as nat) == le_bytes(m),
                m > 0,
                absvalue == 0 ==> result@.len() > 0,
                result@.len() > 0 || absvalue > 0,
            decreases absvalue,
        {
            let ghost a = absvalue as nat;
            assert(le_bytes(a) == seq![(a % 256) as u8] + le_bytes(a / 256));
            result.push((absvalue % 256) as u8);
            absvalue = absvalue / 256;
            assert(result@ + le_bytes(absvalue as nat) =~= le_bytes(m));
        }
        assert(le_bytes(0) =~= Seq::<u8>::empty());
        assert(result@ =~= le_bytes(m));
        let n = result.len();
        let top = result[n - 1];
        if top >= 0x80 {
            result.push(if negative {
                0x80
            } else {
                0
            });
        } else if negative {
            result.set(n - 1, top + 0x80);
        }
        result
    }
}

} // verus!
