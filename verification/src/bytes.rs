//! How integers are laid out in memory: little-endian, two's complement.
use vstd::prelude::*;
use vstd::arithmetic::div_mod::lemma_breakdown;

verus! {

/// `256` to the power `n`: the number of values that `n` bytes can hold.
pub open spec fn pow256(n: nat) -> nat
    decreases n,
{
    if n == 0 {
        1
    } else {
        256 * pow256((n - 1) as nat)
    }
}

/// The values of [`pow256`] for the widths that occur.
pub proof fn lemma_pow256_values()
    ensures
        pow256(0) == 1,
        pow256(1) == 0x100,
        pow256(2) == 0x1_0000,
        pow256(3) == 0x100_0000,
        pow256(4) == 0x1_0000_0000,
        pow256(5) == 0x100_0000_0000,
        pow256(6) == 0x1_0000_0000_0000,
        pow256(7) == 0x100_0000_0000_0000,
        pow256(8) == 0x1_0000_0000_0000_0000,
{
    reveal_with_fuel(pow256, 9);
}

/// Every power of 256 is positive.
pub proof fn lemma_pow256_positive(n: nat)
    ensures
        pow256(n) > 0,
    decreases n,
{
    if n > 0 {
        lemma_pow256_positive((n - 1) as nat);
    }
}

/// The `n` low bytes of `v`, lowest first.
pub open spec fn le_bytes(v: nat, n: nat) -> Seq<u8>
    decreases n,
{
    if n == 0 {
        Seq::empty()
    } else {
        seq![(v % 256) as u8].add(le_bytes(v / 256, (n - 1) as nat))
    }
}

/// The number whose bytes, lowest first, are `b`.
pub open spec fn le_value(b: Seq<u8>) -> nat
    decreases b.len(),
{
    if b.len() == 0 {
        0
    } else {
        b[0] as nat + 256 * le_value(b.drop_first())
    }
}

/// An encoding in `n` bytes has `n` bytes.
pub proof fn lemma_le_bytes_len(v: nat, n: nat)
    ensures
        le_bytes(v, n).len() == n,
    decreases n,
{
    if n > 0 {
        lemma_le_bytes_len(v / 256, (n - 1) as nat);
    }
}

/// A number decoded from `n` bytes is below `256` to the power `n`.
pub proof fn lemma_le_value_bound(b: Seq<u8>)
    ensures
        le_value(b) < pow256(b.len()),
    decreases b.len(),
{
    if b.len() > 0 {
        lemma_le_value_bound(b.drop_first());
    }
}

/// Decoding what was encoded gives the number back, reduced to the width.
pub proof fn lemma_le_value_of_le_bytes(v: nat, n: nat)
    ensures
        le_value(le_bytes(v, n)) == v % pow256(n),
    decreases n,
{
    if n > 0 {
        let rest = le_bytes(v / 256, (n - 1) as nat);
        let all = le_bytes(v, n);
        lemma_le_value_of_le_bytes(v / 256, (n - 1) as nat);
        lemma_pow256_positive((n - 1) as nat);
        assert(all.drop_first() =~= rest);
        assert(all[0] == (v % 256) as u8);
        lemma_breakdown(v as int, 256, pow256((n - 1) as nat) as int);
    }
}

/// A number that fits the width comes back unchanged.
pub proof fn lemma_le_roundtrip(v: nat, n: nat)
    requires
        v < pow256(n),
    ensures
        le_value(le_bytes(v, n)) == v,
{
    lemma_le_value_of_le_bytes(v, n);
    vstd::arithmetic::div_mod::lemma_small_mod(v, pow256(n));
}

/// The next byte of an encoding is the next base-256 digit.
pub proof fn lemma_le_bytes_push(v: nat, n: nat)
    ensures
        le_bytes(v, n + 1) == le_bytes(v, n).push(((v / pow256(n)) % 256) as u8),
    decreases n,
{
    if n == 0 {
        assert(pow256(0) == 1);
        assert(le_bytes(v, 0) =~= Seq::<u8>::empty());
        assert(le_bytes(v / 256, 0) =~= Seq::<u8>::empty());
        assert(le_bytes(v, 1) =~= seq![(v % 256) as u8]);
        assert(le_bytes(v, 0).push(((v / pow256(0)) % 256) as u8) =~= seq![(v % 256) as u8]);
    } else {
        lemma_le_bytes_push(v / 256, (n - 1) as nat);
        lemma_pow256_positive((n - 1) as nat);
        let p = pow256((n - 1) as nat) as int;
        assert((v as int / 256) / p == v as int / (256 * p)) by {
            vstd::arithmetic::div_mod::lemma_div_denominator(v as int, 256, p);
        }
        assert(le_bytes(v, n + 1) =~= le_bytes(v, n).push(((v / pow256(n)) % 256) as u8));
    }
}

/// The bit pattern of `v` in `n` bytes, two's complement.
pub open spec fn to_unsigned(v: int, n: nat) -> nat {
    (v % (pow256(n) as int)) as nat
}

/// The signed number that the `n`-byte pattern `u` stands for.
pub open spec fn to_signed(u: nat, n: nat) -> int {
    if 2 * u >= pow256(n) {
        u - pow256(n)
    } else {
        u as int
    }
}

/// A signed number that fits `n` bytes survives the trip through its pattern.
pub proof fn lemma_signed_roundtrip(v: int, n: nat)
    requires
        n == 1 || n == 2 || n == 4 || n == 8,
        -(pow256(n) as int) <= 2 * v < pow256(n) as int,
    ensures
        to_signed(to_unsigned(v, n), n) == v,
        to_unsigned(v, n) < pow256(n),
{
    lemma_pow256_values();
}

/// Whether `size` is the width of a machine integer.
pub open spec fn is_int_size(size: u64) -> bool {
    size == 1 || size == 2 || size == 4 || size == 8
}

/// Encodes the `size` low bytes of `v`.
pub fn encode_uint(v: u64, size: u64) -> (out: Vec<u8>)
    requires
        size <= 8,
    ensures
        out@ == le_bytes(v as nat, size as nat),
{
    let mut out: Vec<u8> = Vec::new();
    let mut cur: u64 = v;
    let mut i: u64 = 0;
    proof {
        lemma_pow256_values();
        assert(le_bytes(v as nat, 0) =~= out@);
    }
    while i < size
        invariant
            i <= size <= 8,
            out@ == le_bytes(v as nat, i as nat),
            cur as nat == (v as nat) / pow256(i as nat),
        decreases size - i,
    {
        proof {
            lemma_le_bytes_push(v as nat, i as nat);
            lemma_pow256_positive(i as nat);
            vstd::arithmetic::div_mod::lemma_div_denominator(v as int, pow256(i as nat) as int, 256);
            assert(pow256((i + 1) as nat) == 256 * pow256(i as nat));
            assert(pow256(i as nat) * 256 == 256 * pow256(i as nat)) by (nonlinear_arith);
        }
        out.push((cur % 256) as u8);
        cur = cur / 256;
        i += 1;
    }
    out
}

/// Decodes up to eight bytes.
pub fn decode_uint(bytes: &Vec<u8>) -> (r: u64)
    requires
        bytes@.len() <= 8,
    ensures
        r as nat == le_value(bytes@),
{
    let n = bytes.len();
    let mut acc: u64 = 0;
    let mut i: usize = n;
    proof {
        assert(bytes@.subrange(n as int, n as int) =~= Seq::<u8>::empty());
    }
    while i > 0
        invariant
            i <= n,
            n == bytes@.len(),
            n <= 8,
            acc as nat == le_value(bytes@.subrange(i as int, n as int)),
        decreases i,
    {
        proof {
            let cur = bytes@.subrange(i as int, n as int);
            let next = bytes@.subrange(i - 1, n as int);
            assert(next.drop_first() =~= cur);
            lemma_le_value_bound(cur);
            lemma_le_value_bound(next);
            lemma_pow256_values();
            assert(pow256(cur.len()) <= pow256(7)) by {
                lemma_pow256_monotonic(cur.len(), 7);
            }
            assert(pow256(next.len()) <= pow256(8)) by {
                lemma_pow256_monotonic(next.len(), 8);
            }
        }
        i -= 1;
        acc = acc * 256 + bytes[i] as u64;
    }
    proof {
        assert(bytes@.subrange(0, n as int) =~= bytes@);
    }
    acc
}

/// More bytes hold more values.
pub proof fn lemma_pow256_monotonic(a: nat, b: nat)
    requires
        a <= b,
    ensures
        pow256(a) <= pow256(b),
    decreases b,
{
    if a < b {
        lemma_pow256_monotonic(a, (b - 1) as nat);
    }
}

/// The two's complement pattern of `v` in `size` bytes.
pub fn int_to_bits(v: i64, size: u64) -> (r: u64)
    requires
        is_int_size(size),
    ensures
        r as nat == to_unsigned(v as int, size as nat),
        (r as nat) < pow256(size as nat),
{
    proof {
        lemma_pow256_values();
    }
    let wide: u64 = if v >= 0 {
        v as u64
    } else {
        ((v - i64::MIN) as u64) + 0x8000_0000_0000_0000u64
    };
    proof {
        let k: int = if v >= 0 { 0 } else { 1 };
        assert(wide as int == v as int + k * 0x1_0000_0000_0000_0000);
        if size == 1 {
            vstd::arithmetic::div_mod::lemma_mod_multiples_vanish(k * 0x100_0000_0000_0000, v as int, 0x100);
        } else if size == 2 {
            vstd::arithmetic::div_mod::lemma_mod_multiples_vanish(k * 0x1_0000_0000_0000, v as int, 0x1_0000);
        } else if size == 4 {
            vstd::arithmetic::div_mod::lemma_mod_multiples_vanish(k * 0x1_0000_0000, v as int, 0x1_0000_0000);
        } else {
            vstd::arithmetic::div_mod::lemma_mod_multiples_vanish(k, v as int, 0x1_0000_0000_0000_0000);
            vstd::arithmetic::div_mod::lemma_small_mod(wide as nat, 0x1_0000_0000_0000_0000);
        }
    }
    if size == 1 {
        wide % 0x100
    } else if size == 2 {
        wide % 0x1_0000
    } else if size == 4 {
        wide % 0x1_0000_0000
    } else {
        wide
    }
}

/// The signed number that the `size`-byte pattern `u` stands for.
pub fn bits_to_int(u: u64, size: u64) -> (r: i64)
    requires
        is_int_size(size),
        (u as nat) < pow256(size as nat),
    ensures
        r as int == to_signed(u as nat, size as nat),
{
    proof {
        lemma_pow256_values();
    }
    if size == 1 {
        if u >= 0x80 {
            (u as i64) - 0x100
        } else {
            u as i64
        }
    } else if size == 2 {
        if u >= 0x8000 {
            (u as i64) - 0x1_0000
        } else {
            u as i64
        }
    } else if size == 4 {
        if u >= 0x8000_0000 {
            (u as i64) - 0x1_0000_0000
        } else {
            u as i64
        }
    } else {
        if u >= 0x8000_0000_0000_0000 {
            ((u - 0x8000_0000_0000_0000) as i64) + i64::MIN
        } else {
            u as i64
        }
    }
}

} // verus!
