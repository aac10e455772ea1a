//! Bit counting and byte swapping on integers of a given width.
use vstd::prelude::*;
use crate::bytes::{decode_uint, encode_uint, le_bytes, le_value, lemma_le_bytes_len};
use crate::error::EvalError;
use crate::primval::PrimVal;

verus! {

/// The operations on the bits of an integer.
#[derive(Clone, Copy, Debug, PartialEq, Eq, Structural)]
pub enum NumericOp {
    /// The number of one bits.
    Ctpop,
    /// The number of zero bits below the lowest one bit.
    Cttz,
    /// The number of zero bits above the highest one bit.
    Ctlz,
    /// The bytes in reverse order.
    Bswap,
}

/// The number of ones among the `width` low bits of `bits`.
pub open spec fn spec_ctpop(bits: nat, width: nat) -> nat
    decreases width,
{
    if width == 0 {
        0
    } else {
        bits % 2 + spec_ctpop(bits / 2, (width - 1) as nat)
    }
}

/// The number of zeros below the lowest one among the `width` low bits of
/// `bits`; `width` if there is no one.
pub open spec fn spec_cttz(bits: nat, width: nat) -> nat
    decreases width,
{
    if width == 0 {
        0
    } else if bits % 2 == 1 {
        0
    } else {
        1 + spec_cttz(bits / 2, (width - 1) as nat)
    }
}

/// The number of zeros above the highest one of a number of `width` bits;
/// `width` for zero.
pub open spec fn spec_ctlz(bits: nat, width: nat) -> nat
    decreases width,
{
    if width == 0 {
        0
    } else if bits == 0 {
        width
    } else {
        spec_ctlz(bits / 2, (width - 1) as nat)
    }
}

/// The number whose `size` bytes are those of `bits` in reverse order.
pub open spec fn spec_bswap(bits: nat, size: nat) -> nat {
    le_value(le_bytes(bits, size).reverse())
}

/// The result of an operation on the bit pattern `bits` of an integer of
/// `size` bytes.
pub open spec fn spec_numeric_bits(op: NumericOp, bits: u64, size: u64) -> nat {
    match op {
        NumericOp::Ctpop => spec_ctpop(bits as nat, (8 * size) as nat),
        NumericOp::Cttz => spec_cttz(bits as nat, (8 * size) as nat),
        NumericOp::Ctlz => spec_ctlz(bits as nat, (8 * size) as nat),
        NumericOp::Bswap => spec_bswap(bits as nat, size as nat),
    }
}

/// The result of an operation on the bits of an integer: an integer of the
/// same type. Only integers have bits to work on.
pub open spec fn spec_numeric_intrinsic(op: NumericOp, val: PrimVal) -> Result<PrimVal, EvalError> {
    match val.spec_int_kind() {
        Some(k) => Ok(PrimVal::spec_wrapped(k, spec_numeric_bits(op, val.spec_bits(), k.spec_size()) as int)),
        None => Err(EvalError::Malformed),
    }
}

fn ctpop(bits: u64, width: u64) -> (r: u64)
    requires
        width <= 64,
    ensures
        r == spec_ctpop(bits as nat, width as nat),
        r <= width,
{
    let mut cur: u64 = bits;
    let mut count: u64 = 0;
    let mut i: u64 = 0;
    while i < width
        invariant
            i <= width <= 64,
            count <= i,
            count + spec_ctpop(cur as nat, (width - i) as nat) == spec_ctpop(bits as nat, width as nat),
        decreases width - i,
    {
        count = count + cur % 2;
        cur = cur / 2;
        i += 1;
    }
    count
}

fn cttz(bits: u64, width: u64) -> (r: u64)
    requires
        width <= 64,
    ensures
        r == spec_cttz(bits as nat, width as nat),
        r <= width,
{
    let mut cur: u64 = bits;
    let mut i: u64 = 0;
    while i < width && cur % 2 == 0
        invariant
            i <= width <= 64,
            i + spec_cttz(cur as nat, (width - i) as nat) == spec_cttz(bits as nat, width as nat),
        decreases width - i,
    {
        cur = cur / 2;
        i += 1;
    }
    i
}

fn ctlz(bits: u64, width: u64) -> (r: u64)
    requires
        width <= 64,
    ensures
        r == spec_ctlz(bits as nat, width as nat),
        r <= width,
{
    let mut cur: u64 = bits;
    let mut w: u64 = width;
    while w > 0 && cur != 0
        invariant
            w <= width,
            spec_ctlz(cur as nat, w as nat) == spec_ctlz(bits as nat, width as nat),
        decreases w,
    {
        cur = cur / 2;
        w -= 1;
    }
    w
}

fn bswap(bits: u64, size: u64) -> (r: u64)
    requires
        size <= 8,
    ensures
        r == spec_bswap(bits as nat, size as nat),
{
    let bytes = encode_uint(bits, size);
    proof {
        lemma_le_bytes_len(bits as nat, size as nat);
    }
    let n = bytes.len();
    let mut rev: Vec<u8> = Vec::new();
    let mut i: usize = 0;
    while i < n
        invariant
            i <= n,
            n == bytes@.len(),
            rev@.len() == i,
            forall|k: int| 0 <= k < i ==> rev@[k] == bytes@[n - 1 - k],
        decreases n - i,
    {
        rev.push(bytes[n - 1 - i]);
        i += 1;
    }
    assert(rev@ =~= bytes@.reverse());
    decode_uint(&rev)
}

/// Applies an operation to the bits of an integer.
pub fn numeric_intrinsic(op: NumericOp, val: PrimVal) -> (r: Result<PrimVal, EvalError>)
    ensures
        r == spec_numeric_intrinsic(op, val),
{
    match val.int_kind() {
        Some(k) => {
            let bits = val.bits();
            let size = k.size();
            let res: u64 = match op {
                NumericOp::Ctpop => ctpop(bits, 8 * size),
                NumericOp::Cttz => cttz(bits, 8 * size),
                NumericOp::Ctlz => ctlz(bits, 8 * size),
                NumericOp::Bswap => bswap(bits, size),
            };
            Ok(PrimVal::wrapped(k, res as i128))
        },
        None => Err(EvalError::Malformed),
    }
}

} // verus!
