//! Big-endian byte packing of integer operands.
//!
//! An immediate operand of width `w` bits always occupies exactly `w / 8`
//! bytes in the encoded stream, most significant byte first; the value is
//! truncated to the low `w` bits, whatever its magnitude.

use vstd::prelude::*;
use vstd::arithmetic::div_mod::{lemma_breakdown, lemma_mod_multiples_vanish};

verus! {

/// `256^n`: one more than the largest value that fits in `n` bytes.
pub open spec fn bytes_mod(n: nat) -> nat
    decreases n,
{
    if n == 0 {
        1
    } else {
        256 * bytes_mod((n - 1) as nat)
    }
}

/// The big-endian bytes of the low `8 * n` bits of `v`: exactly `n` bytes,
/// most significant first.
pub open spec fn be_bytes(v: nat, n: nat) -> Seq<u8>
    decreases n,
{
    if n == 0 {
        Seq::empty()
    } else {
        be_bytes(v / 256, (n - 1) as nat).push((v % 256) as u8)
    }
}

/// The unsigned value of a byte sequence read big-endian.
pub open spec fn be_val(s: Seq<u8>) -> nat
    decreases s.len(),
{
    if s.len() == 0 {
        0
    } else {
        be_val(s.drop_last()) * 256 + s.last() as nat
    }
}

/// A `w`-bit immediate always occupies exactly `w / 8` bytes.
pub proof fn lemma_be_bytes_len(v: nat, n: nat)
    ensures
        be_bytes(v, n).len() == n,
    decreases n,
{
    if n > 0 {
        lemma_be_bytes_len(v / 256, (n - 1) as nat);
    }
}

/// `bytes_mod` splits over addition: `256^(a + b) == 256^a * 256^b`.
pub proof fn lemma_bytes_mod_adds(a: nat, b: nat)
    ensures
        bytes_mod(a + b) == bytes_mod(a) * bytes_mod(b),
    decreases a,
{
    if a > 0 {
        lemma_bytes_mod_adds((a - 1) as nat, b);
        assert(bytes_mod(a) == 256 * bytes_mod((a - 1) as nat));
        assert(bytes_mod(a + b) == 256 * bytes_mod((a + b - 1) as nat));
        assert(bytes_mod(a + b) == 256 * (bytes_mod((a - 1) as nat) * bytes_mod(b)));
        assert(256 * (bytes_mod((a - 1) as nat) * bytes_mod(b)) == (256 * bytes_mod(
            (a - 1) as nat,
        )) * bytes_mod(b)) by (nonlinear_arith);
    } else {
        assert(bytes_mod(a) == 1);
        assert(bytes_mod(a + b) == 1 * bytes_mod(b)) by (nonlinear_arith)
            requires
                a == 0,
        ;
    }
}

/// Width fidelity: encoding `v` into `n` bytes and reading the bytes back
/// big-endian yields `v` reduced modulo `256^n`.
pub proof fn lemma_be_round_trip(v: nat, n: nat)
    ensures
        be_val(be_bytes(v, n)) == v % bytes_mod(n),
    decreases n,
{
    if n == 0 {
        assert(v % 1 == 0) by (nonlinear_arith);
    } else {
        let m = (n - 1) as nat;
        lemma_be_round_trip(v / 256, m);
        let s = be_bytes(v / 256, m);
        let b = (v % 256) as u8;
        assert(s.push(b).drop_last() =~= s);
        assert(s.push(b).last() == b);
        assert(be_val(be_bytes(v, n)) == ((v / 256) % bytes_mod(m)) * 256 + v % 256);
        lemma_bytes_mod_pos(m);
        lemma_breakdown(v as int, 256, bytes_mod(m) as int);
        assert((v as int) % (256 * bytes_mod(m) as int)
            == 256 * (((v as int) / 256) % (bytes_mod(m) as int)) + (v as int) % 256);
    }
}

/// Width fidelity for signed values: encoding the two's-complement bits of
/// `val` into `n <= 8` bytes and reading them back yields the mathematical
/// remainder `val mod 256^n` (always non-negative).
pub proof fn lemma_be_round_trip_signed(val: i64, n: nat)
    requires
        n <= 8,
    ensures
        be_val(be_bytes((val as u64) as nat, n)) == (val as int) % (bytes_mod(n) as int),
{
    lemma_be_round_trip((val as u64) as nat, n);
    let m = bytes_mod(n) as int;
    assert(m > 0) by {
        lemma_bytes_mod_pos(n);
    }
    if val >= 0 {
        assert((val as u64) as int == val as int) by (bit_vector)
            requires
                val >= 0,
        ;
    } else {
        assert((val as u64) as int == val as int + 0x1_0000_0000_0000_0000) by (bit_vector)
            requires
                val < 0,
        ;
        lemma_bytes_mod_adds(n, (8 - n) as nat);
        lemma_bytes_mod_values();
        let k = bytes_mod((8 - n) as nat) as int;
        assert((val as u64) as int == m * k + val);
        lemma_mod_multiples_vanish(k, val as int, m);
    }
}

/// The concrete values of `256^n` for the widths in use.
pub proof fn lemma_bytes_mod_values()
    ensures
        bytes_mod(1) == 0x100,
        bytes_mod(2) == 0x1_0000,
        bytes_mod(4) == 0x1_0000_0000,
        bytes_mod(7) == 0x100_0000_0000_0000,
        bytes_mod(8) == 0x1_0000_0000_0000_0000,
{
    assert(bytes_mod(0) == 1);
    assert(bytes_mod(1) == 0x100);
    assert(bytes_mod(2) == 0x1_0000);
    assert(bytes_mod(3) == 0x100_0000);
    assert(bytes_mod(4) == 0x1_0000_0000);
    assert(bytes_mod(5) == 0x100_0000_0000);
    assert(bytes_mod(6) == 0x1_0000_0000_0000);
    assert(bytes_mod(7) == 0x100_0000_0000_0000);
    assert(bytes_mod(8) == 0x1_0000_0000_0000_0000);
}

/// `256^n` is positive.
pub proof fn lemma_bytes_mod_pos(n: nat)
    ensures
        bytes_mod(n) > 0,
    decreases n,
{
    if n > 0 {
        lemma_bytes_mod_pos((n - 1) as nat);
    }
}

/// Packs the low `n * 8` bits of `v` as `n` big-endian bytes.
pub fn be_encode(v: u64, n: usize) -> (r: Vec<u8>)
    ensures
        r@ == be_bytes(v as nat, n as nat),
        r.len() == n,
    decreases n,
{
    proof {
        lemma_be_bytes_len(v as nat, n as nat);
    }
    if n == 0 {
        Vec::new()
    } else {
        let mut r = be_encode(v / 256, n - 1);
        r.push((v % 256) as u8);
        r
    }
}

/// Reads at most eight bytes back as a big-endian unsigned value.
pub fn be_decode(s: &[u8]) -> (r: u64)
    requires
        s@.len() <= 8,
    ensures
        r as nat == be_val(s@),
{
    let ghost full = s@;
    let mut r: u64 = 0;
    let mut i: usize = 0;
    proof {
        assert(full.take(0) =~= Seq::<u8>::empty());
    }
    while i < s.len()
        invariant
            i <= s@.len() <= 8,
            s@ == full,
            r as nat == be_val(full.take(i as int)),
            (r as nat) < bytes_mod(i as nat),
        decreases s@.len() - i,
    {
        proof {
            lemma_bytes_mod_values();
            lemma_bytes_mod_monotonic(i as nat, 7);
            assert(full.take(i + 1).drop_last() =~= full.take(i as int));
            assert(full.take(i + 1).last() == full[i as int]);
        }
        r = r * 256 + (s[i] as u64);
        i = i + 1;
    }
    proof {
        assert(full.take(s@.len() as int) =~= full);
    }
    r
}

/// `256^a <= 256^b` whenever `a <= b`.
pub proof fn lemma_bytes_mod_monotonic(a: nat, b: nat)
    requires
        a <= b,
    ensures
        bytes_mod(a) <= bytes_mod(b),
    decreases b,
{
    if a < b {
        lemma_bytes_mod_monotonic(a, (b - 1) as nat);
        lemma_bytes_mod_pos((b - 1) as nat);
    }
}

} // verus!
