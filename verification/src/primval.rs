//! Primitive values and the operators on them.
//!
//! Integer arithmetic is defined on mathematical integers: an operator
//! computes the exact result, reports whether it left the range of the
//! operands' type, and wraps it back into that range.
use vstd::prelude::*;
use vstd::arithmetic::div_mod::{lemma_mod_multiples_vanish, lemma_small_mod};
use crate::bytes::{bits_to_int, is_int_size, lemma_pow256_values, pow256, to_signed, to_unsigned};
use crate::error::EvalError;
use crate::memory::Pointer;
use crate::mir::{BinOp, UnOp};

verus! {

/// A value that fits one machine word. Floating-point numbers are held as
/// their bit patterns.
#[derive(Clone, Copy, Debug, PartialEq, Eq, Structural)]
pub enum PrimVal {
    Bool(bool),
    I8(i8),
    I16(i16),
    I32(i32),
    I64(i64),
    U8(u8),
    U16(u16),
    U32(u32),
    U64(u64),
    Ptr(Pointer),
    FnPtr(Pointer),
    Char(char),
    F32(u32),
    F64(u64),
}

/// The integer types that a [`PrimVal`] can have.
#[derive(Clone, Copy, Debug, PartialEq, Eq, Structural)]
pub enum IntKind {
    I8,
    I16,
    I32,
    I64,
    U8,
    U16,
    U32,
    U64,
}

impl IntKind {
    /// The width in bytes.
    pub open spec fn spec_size(self) -> u64 {
        match self {
            IntKind::I8 | IntKind::U8 => 1,
            IntKind::I16 | IntKind::U16 => 2,
            IntKind::I32 | IntKind::U32 => 4,
            IntKind::I64 | IntKind::U64 => 8,
        }
    }

    /// The width in bytes.
    #[verifier::when_used_as_spec(spec_size)]
    pub fn size(self) -> (r: u64)
        ensures
            r == self.spec_size(),
            is_int_size(r),
    {
        match self {
            IntKind::I8 | IntKind::U8 => 1,
            IntKind::I16 | IntKind::U16 => 2,
            IntKind::I32 | IntKind::U32 => 4,
            IntKind::I64 | IntKind::U64 => 8,
        }
    }

    /// Whether the type has negative values.
    pub open spec fn spec_signed(self) -> bool {
        match self {
            IntKind::I8 | IntKind::I16 | IntKind::I32 | IntKind::I64 => true,
            _ => false,
        }
    }

    /// Whether the type has negative values.
    #[verifier::when_used_as_spec(spec_signed)]
    pub fn signed(self) -> (r: bool)
        ensures
            r == self.spec_signed(),
    {
        match self {
            IntKind::I8 | IntKind::I16 | IntKind::I32 | IntKind::I64 => true,
            _ => false,
        }
    }

    /// The integer type with the given width and signedness.
    pub open spec fn spec_of(size: u64, signed: bool) -> IntKind {
        if size == 1 {
            if signed { IntKind::I8 } else { IntKind::U8 }
        } else if size == 2 {
            if signed { IntKind::I16 } else { IntKind::U16 }
        } else if size == 4 {
            if signed { IntKind::I32 } else { IntKind::U32 }
        } else {
            if signed { IntKind::I64 } else { IntKind::U64 }
        }
    }

    /// The integer type with the given width and signedness.
    #[verifier::when_used_as_spec(spec_of)]
    pub fn of(size: u64, signed: bool) -> (r: IntKind)
        ensures
            r == IntKind::spec_of(size, signed),
    {
        if size == 1 {
            if signed { IntKind::I8 } else { IntKind::U8 }
        } else if size == 2 {
            if signed { IntKind::I16 } else { IntKind::U16 }
        } else if size == 4 {
            if signed { IntKind::I32 } else { IntKind::U32 }
        } else {
            if signed { IntKind::I64 } else { IntKind::U64 }
        }
    }
}

/// Whether `v` is a value of the integer type `kind`.
pub open spec fn in_range(kind: IntKind, v: int) -> bool {
    if kind.spec_signed() {
        -(pow256(kind.spec_size() as nat) as int) <= 2 * v < pow256(kind.spec_size() as nat) as int
    } else {
        0 <= v < pow256(kind.spec_size() as nat) as int
    }
}

/// `v` wrapped into the range of `kind`: the value of that type with the
/// same low bits.
pub open spec fn wrap(kind: IntKind, v: int) -> int {
    let u = to_unsigned(v, kind.spec_size() as nat);
    if kind.spec_signed() {
        to_signed(u, kind.spec_size() as nat)
    } else {
        u as int
    }
}

/// Wrapping lands in the range and leaves values of the range alone.
pub proof fn lemma_wrap(kind: IntKind, v: int)
    ensures
        in_range(kind, wrap(kind, v)),
        in_range(kind, v) ==> wrap(kind, v) == v,
{
    lemma_pow256_values();
    let m = pow256(kind.spec_size() as nat) as int;
    assert(m == 0x100 || m == 0x1_0000 || m == 0x1_0000_0000 || m == 0x1_0000_0000_0000_0000);
    if in_range(kind, v) {
        if v >= 0 {
            lemma_small_mod(v as nat, m as nat);
        } else {
            lemma_mod_multiples_vanish(1, v, m);
            lemma_small_mod((v + m) as nat, m as nat);
        }
    }
}

/// The quotient rounded towards zero.
pub open spec fn trunc_div(l: int, r: int) -> int {
    if l >= 0 && r > 0 {
        l / r
    } else if l < 0 && r > 0 {
        -((-l) / r)
    } else if l >= 0 && r < 0 {
        -(l / (-r))
    } else {
        (-l) / (-r)
    }
}

/// The remainder that goes with [`trunc_div`]; it has the sign of `l`.
pub open spec fn trunc_rem(l: int, r: int) -> int {
    if l >= 0 && r > 0 {
        l % r
    } else if l < 0 && r > 0 {
        -((-l) % r)
    } else if l >= 0 && r < 0 {
        l % (-r)
    } else {
        -((-l) % (-r))
    }
}

impl PrimVal {
    /// The integer type of an integer value.
    pub open spec fn spec_int_kind(self) -> Option<IntKind> {
        match self {
            PrimVal::I8(_) => Some(IntKind::I8),
            PrimVal::I16(_) => Some(IntKind::I16),
            PrimVal::I32(_) => Some(IntKind::I32),
            PrimVal::I64(_) => Some(IntKind::I64),
            PrimVal::U8(_) => Some(IntKind::U8),
            PrimVal::U16(_) => Some(IntKind::U16),
            PrimVal::U32(_) => Some(IntKind::U32),
            PrimVal::U64(_) => Some(IntKind::U64),
            _ => None,
        }
    }

    /// The integer type of an integer value.
    #[verifier::when_used_as_spec(spec_int_kind)]
    pub fn int_kind(self) -> (r: Option<IntKind>)
        ensures
            r == self.spec_int_kind(),
    {
        match self {
            PrimVal::I8(_) => Some(IntKind::I8),
            PrimVal::I16(_) => Some(IntKind::I16),
            PrimVal::I32(_) => Some(IntKind::I32),
            PrimVal::I64(_) => Some(IntKind::I64),
            PrimVal::U8(_) => Some(IntKind::U8),
            PrimVal::U16(_) => Some(IntKind::U16),
            PrimVal::U32(_) => Some(IntKind::U32),
            PrimVal::U64(_) => Some(IntKind::U64),
            _ => None,
        }
    }

    /// The number that an integer value holds; 0 for any other value.
    pub open spec fn spec_int_value(self) -> int {
        match self {
            PrimVal::I8(n) => n as int,
            PrimVal::I16(n) => n as int,
            PrimVal::I32(n) => n as int,
            PrimVal::I64(n) => n as int,
            PrimVal::U8(n) => n as int,
            PrimVal::U16(n) => n as int,
            PrimVal::U32(n) => n as int,
            PrimVal::U64(n) => n as int,
            _ => 0,
        }
    }

    /// The number that an integer value holds; 0 for any other value.
    pub fn int_value(self) -> (r: i128)
        ensures
            r == self.spec_int_value(),
            -0x8000_0000_0000_0000 <= r < 0x1_0000_0000_0000_0000,
            self.spec_int_kind() matches Some(k) ==> in_range(k, r as int),
    {
        proof {
            lemma_pow256_values();
        }
        match self {
            PrimVal::I8(n) => n as i128,
            PrimVal::I16(n) => n as i128,
            PrimVal::I32(n) => n as i128,
            PrimVal::I64(n) => n as i128,
            PrimVal::U8(n) => n as i128,
            PrimVal::U16(n) => n as i128,
            PrimVal::U32(n) => n as i128,
            PrimVal::U64(n) => n as i128,
            _ => 0,
        }
    }

    /// The value of type `kind` that holds `v`, for `v` in the type's range.
    pub open spec fn spec_of_int(kind: IntKind, v: int) -> PrimVal {
        match kind {
            IntKind::I8 => PrimVal::I8(v as i8),
            IntKind::I16 => PrimVal::I16(v as i16),
            IntKind::I32 => PrimVal::I32(v as i32),
            IntKind::I64 => PrimVal::I64(v as i64),
            IntKind::U8 => PrimVal::U8(v as u8),
            IntKind::U16 => PrimVal::U16(v as u16),
            IntKind::U32 => PrimVal::U32(v as u32),
            IntKind::U64 => PrimVal::U64(v as u64),
        }
    }

    /// The value of type `kind` that holds `v`, for `v` in the type's range.
    pub fn of_int(kind: IntKind, v: i128) -> (r: PrimVal)
        requires
            in_range(kind, v as int),
        ensures
            r == PrimVal::spec_of_int(kind, v as int),
            r.spec_int_kind() == Some(kind),
            r.spec_int_value() == v,
    {
        proof {
            lemma_pow256_values();
        }
        match kind {
            IntKind::I8 => PrimVal::I8(v as i8),
            IntKind::I16 => PrimVal::I16(v as i16),
            IntKind::I32 => PrimVal::I32(v as i32),
            IntKind::I64 => PrimVal::I64(v as i64),
            IntKind::U8 => PrimVal::U8(v as u8),
            IntKind::U16 => PrimVal::U16(v as u16),
            IntKind::U32 => PrimVal::U32(v as u32),
            IntKind::U64 => PrimVal::U64(v as u64),
        }
    }

    /// The value of type `kind` with the low bits of `v`.
    pub open spec fn spec_wrapped(kind: IntKind, v: int) -> PrimVal {
        PrimVal::spec_of_int(kind, wrap(kind, v))
    }

    /// Computes [`PrimVal::spec_wrapped`] for numbers of up to 126 bits.
    pub fn wrapped(kind: IntKind, v: i128) -> (r: PrimVal)
        requires
            -0x4000_0000_0000_0000_0000_0000_0000_0000 <= v <= 0x4000_0000_0000_0000_0000_0000_0000_0000,
        ensures
            r == PrimVal::spec_wrapped(kind, v as int),
            r.spec_int_kind() == Some(kind),
            r.spec_int_value() == wrap(kind, v as int),
    {
        let bits = to_bits(kind, v);
        PrimVal::from_bits(kind, bits)
    }

    /// The value of type `kind` whose bit pattern is the low bits of `bits`.
    pub fn from_bits(kind: IntKind, bits: u64) -> (r: PrimVal)
        ensures
            r == PrimVal::spec_wrapped(kind, bits as int),
            r.spec_int_kind() == Some(kind),
            r.spec_int_value() == wrap(kind, bits as int),
    {
        let size = kind.size();
        proof {
            lemma_pow256_values();
            lemma_wrap(kind, bits as int);
            let m = pow256(size as nat) as int;
            assert(m == 0x100 || m == 0x1_0000 || m == 0x1_0000_0000 || m == 0x1_0000_0000_0000_0000);
            if size == 8 {
                lemma_small_mod(bits as nat, m as nat);
            }
            assert(to_unsigned(bits as int, size as nat) == bits as int % m);
        }
        let low: u64 = if size == 1 {
            bits % 0x100
        } else if size == 2 {
            bits % 0x1_0000
        } else if size == 4 {
            bits % 0x1_0000_0000
        } else {
            bits
        };
        if kind.signed() {
            PrimVal::of_int(kind, bits_to_int(low, size) as i128)
        } else {
            PrimVal::of_int(kind, low as i128)
        }
    }

    /// The bit pattern of an integer value, in the width of its type.
    pub open spec fn spec_bits(self) -> u64 {
        match self.spec_int_kind() {
            Some(k) => to_unsigned(self.spec_int_value(), k.spec_size() as nat) as u64,
            None => 0,
        }
    }

    /// The bit pattern of an integer value, in the width of its type.
    pub fn bits(self) -> (r: u64)
        ensures
            r == self.spec_bits(),
    {
        match self.int_kind() {
            Some(k) => to_bits(k, self.int_value()),
            None => 0,
        }
    }

    /// The signed integer of `size` bytes with the low bits of `n`.
    pub open spec fn spec_int_with_size(n: i64, size: u64) -> PrimVal {
        PrimVal::spec_wrapped(IntKind::spec_of(size, true), n as int)
    }

    /// The signed integer of `size` bytes with the low bits of `n`.
    pub fn int_with_size(n: i64, size: u64) -> (r: PrimVal)
        ensures
            r == PrimVal::spec_int_with_size(n, size),
    {
        PrimVal::wrapped(IntKind::of(size, true), n as i128)
    }

    /// The unsigned integer of `size` bytes with the low bits of `n`.
    pub open spec fn spec_uint_with_size(n: u64, size: u64) -> PrimVal {
        PrimVal::spec_wrapped(IntKind::spec_of(size, false), n as int)
    }

    /// The unsigned integer of `size` bytes with the low bits of `n`.
    pub fn uint_with_size(n: u64, size: u64) -> (r: PrimVal)
        ensures
            r == PrimVal::spec_uint_with_size(n, size),
    {
        PrimVal::wrapped(IntKind::of(size, false), n as i128)
    }

    /// The boolean held.
    pub open spec fn spec_expect_bool(self) -> Result<bool, EvalError> {
        match self {
            PrimVal::Bool(b) => Ok(b),
            _ => Err(EvalError::Malformed),
        }
    }

    /// The boolean held.
    pub fn expect_bool(self) -> (r: Result<bool, EvalError>)
        ensures
            r == self.spec_expect_bool(),
    {
        match self {
            PrimVal::Bool(b) => Ok(b),
            _ => Err(EvalError::Malformed),
        }
    }

    /// The unsigned integer held; an address that is a plain integer counts.
    pub open spec fn spec_expect_uint(self) -> Result<u64, EvalError> {
        match self {
            PrimVal::U8(n) => Ok(n as u64),
            PrimVal::U16(n) => Ok(n as u64),
            PrimVal::U32(n) => Ok(n as u64),
            PrimVal::U64(n) => Ok(n),
            PrimVal::Ptr(p) => match p.spec_to_int() {
                Ok(n) => Ok(n),
                Err(_) => Err(EvalError::Malformed),
            },
            _ => Err(EvalError::Malformed),
        }
    }

    /// The unsigned integer held; an address that is a plain integer counts.
    pub fn expect_uint(self) -> (r: Result<u64, EvalError>)
        ensures
            r == self.spec_expect_uint(),
    {
        match self {
            PrimVal::U8(n) => Ok(n as u64),
            PrimVal::U16(n) => Ok(n as u64),
            PrimVal::U32(n) => Ok(n as u64),
            PrimVal::U64(n) => Ok(n),
            PrimVal::Ptr(p) => match p.to_int() {
                Ok(n) => Ok(n),
                Err(_) => Err(EvalError::Malformed),
            },
            _ => Err(EvalError::Malformed),
        }
    }

    /// The signed integer held.
    pub open spec fn spec_expect_int(self) -> Result<i64, EvalError> {
        match self {
            PrimVal::I8(n) => Ok(n as i64),
            PrimVal::I16(n) => Ok(n as i64),
            PrimVal::I32(n) => Ok(n as i64),
            PrimVal::I64(n) => Ok(n),
            _ => Err(EvalError::Malformed),
        }
    }

    /// The signed integer held.
    pub fn expect_int(self) -> (r: Result<i64, EvalError>)
        ensures
            r == self.spec_expect_int(),
    {
        match self {
            PrimVal::I8(n) => Ok(n as i64),
            PrimVal::I16(n) => Ok(n as i64),
            PrimVal::I32(n) => Ok(n as i64),
            PrimVal::I64(n) => Ok(n),
            _ => Err(EvalError::Malformed),
        }
    }

    /// The bit pattern of the single-precision number held.
    pub open spec fn spec_expect_f32(self) -> Result<u32, EvalError> {
        match self {
            PrimVal::F32(b) => Ok(b),
            _ => Err(EvalError::Malformed),
        }
    }

    /// The bit pattern of the single-precision number held.
    pub fn expect_f32(self) -> (r: Result<u32, EvalError>)
        ensures
            r == self.spec_expect_f32(),
    {
        match self {
            PrimVal::F32(b) => Ok(b),
            _ => Err(EvalError::Malformed),
        }
    }

    /// The bit pattern of the double-precision number held.
    pub open spec fn spec_expect_f64(self) -> Result<u64, EvalError> {
        match self {
            PrimVal::F64(b) => Ok(b),
            _ => Err(EvalError::Malformed),
        }
    }

    /// The bit pattern of the double-precision number held.
    pub fn expect_f64(self) -> (r: Result<u64, EvalError>)
        ensures
            r == self.spec_expect_f64(),
    {
        match self {
            PrimVal::F64(b) => Ok(b),
            _ => Err(EvalError::Malformed),
        }
    }
}

/// The bit pattern of `v` in the width of `kind`.
pub fn to_bits(kind: IntKind, v: i128) -> (r: u64)
    requires
        -0x4000_0000_0000_0000_0000_0000_0000_0000 <= v <= 0x4000_0000_0000_0000_0000_0000_0000_0000,
    ensures
        r == to_unsigned(v as int, kind.spec_size() as nat),
        wrap(kind, r as int) == wrap(kind, v as int),
{
    let size = kind.size();
    let wide: u128 = if v >= 0 {
        v as u128
    } else {
        (v + 0x4000_0000_0000_0000_0000_0000_0000_0000) as u128
    };
    proof {
        lemma_pow256_values();
        let k: int = if v >= 0 { 0 } else { 1 };
        assert(wide as int == v as int + k * 0x4000_0000_0000_0000_0000_0000_0000_0000);
        if size == 1 {
            lemma_mod_multiples_vanish(k * 0x40_0000_0000_0000_0000_0000_0000_0000, v as int, 0x100);
            lemma_small_mod((wide % 0x100) as nat, 0x100);
        } else if size == 2 {
            lemma_mod_multiples_vanish(k * 0x4000_0000_0000_0000_0000_0000_0000, v as int, 0x1_0000);
            lemma_small_mod((wide % 0x1_0000) as nat, 0x1_0000);
        } else if size == 4 {
            lemma_mod_multiples_vanish(k * 0x4000_0000_0000_0000_0000_0000, v as int, 0x1_0000_0000);
            lemma_small_mod((wide % 0x1_0000_0000) as nat, 0x1_0000_0000);
        } else {
            lemma_mod_multiples_vanish(k * 0x4000_0000_0000_0000, v as int, 0x1_0000_0000_0000_0000);
            lemma_small_mod((wide % 0x1_0000_0000_0000_0000) as nat, 0x1_0000_0000_0000_0000);
        }
    }
    if size == 1 {
        (wide % 0x100) as u64
    } else if size == 2 {
        (wide % 0x1_0000) as u64
    } else if size == 4 {
        (wide % 0x1_0000_0000) as u64
    } else {
        (wide % 0x1_0000_0000_0000_0000) as u64
    }
}

/// The character with the code `c`, for the codes that are Unicode scalar
/// values: those up to `0x10FFFF` outside the surrogate range.
pub open spec fn spec_char_from_u32(c: u32) -> Option<char> {
    if c <= 0xD7FF || (0xE000 <= c && c <= 0x10FFFF) {
        Some(c as char)
    } else {
        None
    }
}

/// Calls [`char::from_u32`], which yields the character with the given code
/// exactly when the code is a Unicode scalar value.
#[verifier::external_body]
pub(crate) fn char_from_u32(c: u32) -> (r: Option<char>)
    ensures
        r == spec_char_from_u32(c),
{
    char::from_u32(c)
}

/// The outcome of comparing two numbers with `op`, if `op` compares.
pub open spec fn spec_compare(op: BinOp, l: int, r: int) -> Option<bool> {
    match op {
        BinOp::Eq => Some(l == r),
        BinOp::Ne => Some(l != r),
        BinOp::Lt => Some(l < r),
        BinOp::Le => Some(l <= r),
        BinOp::Gt => Some(l > r),
        BinOp::Ge => Some(l >= r),
        _ => None,
    }
}

fn compare(op: BinOp, l: i128, r: i128) -> (res: Option<bool>)
    ensures
        res == spec_compare(op, l as int, r as int),
{
    match op {
        BinOp::Eq => Some(l == r),
        BinOp::Ne => Some(l != r),
        BinOp::Lt => Some(l < r),
        BinOp::Le => Some(l <= r),
        BinOp::Gt => Some(l > r),
        BinOp::Ge => Some(l >= r),
        _ => None,
    }
}

/// The exact result `e` as a value of `kind`, with the overflow flag.
pub open spec fn spec_exact(kind: IntKind, e: int) -> (PrimVal, bool) {
    (PrimVal::spec_wrapped(kind, e), !in_range(kind, e))
}

fn fits(kind: IntKind, v: i128) -> (r: bool)
    ensures
        r == in_range(kind, v as int),
{
    proof {
        lemma_pow256_values();
    }
    match kind {
        IntKind::I8 => -0x80 <= v && v <= 0x7f,
        IntKind::I16 => -0x8000 <= v && v <= 0x7fff,
        IntKind::I32 => -0x8000_0000 <= v && v <= 0x7fff_ffff,
        IntKind::I64 => -0x8000_0000_0000_0000 <= v && v <= 0x7fff_ffff_ffff_ffff,
        IntKind::U8 => 0 <= v && v <= 0xff,
        IntKind::U16 => 0 <= v && v <= 0xffff,
        IntKind::U32 => 0 <= v && v <= 0xffff_ffff,
        IntKind::U64 => 0 <= v && v <= 0xffff_ffff_ffff_ffff,
    }
}

fn exact(kind: IntKind, e: i128) -> (r: (PrimVal, bool))
    requires
        -0x4000_0000_0000_0000_0000_0000_0000_0000 <= e <= 0x4000_0000_0000_0000_0000_0000_0000_0000,
    ensures
        r == spec_exact(kind, e as int),
{
    (PrimVal::wrapped(kind, e), !fits(kind, e))
}

fn multiply(kind: IntKind, l: i128, r: i128) -> (res: (PrimVal, bool))
    requires
        in_range(kind, l as int),
        in_range(kind, r as int),
    ensures
        res == spec_exact(kind, l * r),
{
    proof {
        lemma_pow256_values();
    }
    if kind.signed() {
        assert(-0x4000_0000_0000_0000_0000_0000_0000_0000 <= l * r
            <= 0x4000_0000_0000_0000_0000_0000_0000_0000) by (nonlinear_arith)
            requires
                -0x8000_0000_0000_0000 <= l <= 0x7fff_ffff_ffff_ffff,
                -0x8000_0000_0000_0000 <= r <= 0x7fff_ffff_ffff_ffff,
        ;
        exact(kind, l * r)
    } else {
        let lu: u128 = l as u128;
        let ru: u128 = r as u128;
        assert(0 <= lu * ru <= 0xffff_ffff_ffff_ffff * 0xffff_ffff_ffff_ffff) by (nonlinear_arith)
            requires
                0 <= lu <= 0xffff_ffff_ffff_ffff,
                0 <= ru <= 0xffff_ffff_ffff_ffff,
        ;
        let p: u128 = lu * ru;
        let size = kind.size();
        let m: u128 = if size == 1 {
            0x100
        } else if size == 2 {
            0x1_0000
        } else if size == 4 {
            0x1_0000_0000
        } else {
            0x1_0000_0000_0000_0000
        };
        let bits: u64 = (p % m) as u64;
        proof {
            assert(m == pow256(size as nat));
            vstd::arithmetic::div_mod::lemma_mod_twice(p as int, m as int);
            assert(to_unsigned(bits as int, size as nat) == to_unsigned(p as int, size as nat));
            assert(l * r == p);
        }
        (PrimVal::from_bits(kind, bits), p >= m)
    }
}

fn trunc_div_of(l: i128, r: i128) -> (q: (i128, i128))
    requires
        r != 0,
        -0x8000_0000_0000_0000 <= l < 0x1_0000_0000_0000_0000,
        -0x8000_0000_0000_0000 <= r < 0x1_0000_0000_0000_0000,
    ensures
        q.0 == trunc_div(l as int, r as int),
        q.1 == trunc_rem(l as int, r as int),
        -0x1_0000_0000_0000_0000 <= q.0 <= 0x1_0000_0000_0000_0000,
        -0x1_0000_0000_0000_0000 <= q.1 <= 0x1_0000_0000_0000_0000,
{
    let la: u128 = if l >= 0 { l as u128 } else { (-l) as u128 };
    let ra: u128 = if r >= 0 { r as u128 } else { (-r) as u128 };
    let qa: u128 = la / ra;
    let ma: u128 = la % ra;
    proof {
        vstd::arithmetic::div_mod::lemma_div_pos_is_pos(la as int, ra as int);
        vstd::arithmetic::div_mod::lemma_div_is_ordered_by_denominator(la as int, 1, ra as int);
        vstd::arithmetic::div_mod::lemma_div_basics(la as int);
    }
    let q: i128 = if (l >= 0) == (r > 0) { qa as i128 } else { -(qa as i128) };
    let m: i128 = if l >= 0 { ma as i128 } else { -(ma as i128) };
    (q, m)
}

/// An operator applied to two integers of type `kind`. The shifts are not
/// among these: their right operand may have another type.
pub open spec fn spec_int_op(op: BinOp, kind: IntKind, l: int, r: int) -> Result<(PrimVal, bool), EvalError> {
    let lb = to_unsigned(l, kind.spec_size() as nat) as u64;
    let rb = to_unsigned(r, kind.spec_size() as nat) as u64;
    match op {
        BinOp::Add => Ok(spec_exact(kind, l + r)),
        BinOp::Sub => Ok(spec_exact(kind, l - r)),
        BinOp::Mul => Ok(spec_exact(kind, l * r)),
        BinOp::Div => if r == 0 {
            Err(EvalError::DivisionByZero)
        } else {
            Ok(spec_exact(kind, trunc_div(l, r)))
        },
        BinOp::Rem => if r == 0 {
            Err(EvalError::DivisionByZero)
        } else {
            Ok((PrimVal::spec_wrapped(kind, trunc_rem(l, r)), !in_range(kind, trunc_div(l, r))))
        },
        BinOp::BitXor => Ok((PrimVal::spec_wrapped(kind, (lb ^ rb) as int), false)),
        BinOp::BitAnd => Ok((PrimVal::spec_wrapped(kind, (lb & rb) as int), false)),
        BinOp::BitOr => Ok((PrimVal::spec_wrapped(kind, (lb | rb) as int), false)),
        BinOp::Shl | BinOp::Shr => Err(EvalError::InvalidOperands),
        _ => match spec_compare(op, l, r) {
            Some(b) => Ok((PrimVal::Bool(b), false)),
            None => Err(EvalError::InvalidOperands),
        },
    }
}

fn int_op(op: BinOp, kind: IntKind, l: i128, r: i128) -> (res: Result<(PrimVal, bool), EvalError>)
    requires
        in_range(kind, l as int),
        in_range(kind, r as int),
    ensures
        res == spec_int_op(op, kind, l as int, r as int),
{
    proof {
        lemma_pow256_values();
    }
    match op {
        BinOp::Add => Ok(exact(kind, l + r)),
        BinOp::Sub => Ok(exact(kind, l - r)),
        BinOp::Mul => Ok(multiply(kind, l, r)),
        BinOp::Div => {
            if r == 0 {
                Err(EvalError::DivisionByZero)
            } else {
                let q = trunc_div_of(l, r);
                Ok(exact(kind, q.0))
            }
        },
        BinOp::Rem => {
            if r == 0 {
                Err(EvalError::DivisionByZero)
            } else {
                let q = trunc_div_of(l, r);
                Ok((PrimVal::wrapped(kind, q.1), !fits(kind, q.0)))
            }
        },
        BinOp::BitXor => Ok((PrimVal::from_bits(kind, to_bits(kind, l) ^ to_bits(kind, r)), false)),
        BinOp::BitAnd => Ok((PrimVal::from_bits(kind, to_bits(kind, l) & to_bits(kind, r)), false)),
        BinOp::BitOr => Ok((PrimVal::from_bits(kind, to_bits(kind, l) | to_bits(kind, r)), false)),
        BinOp::Shl | BinOp::Shr => Err(EvalError::InvalidOperands),
        _ => match compare(op, l, r) {
            Some(b) => Ok((PrimVal::Bool(b), false)),
            None => Err(EvalError::InvalidOperands),
        },
    }
}

/// A shift. The amount is the right operand reduced to the bit width of the
/// left one; a shift to the right keeps the sign of a signed number.
pub open spec fn spec_shift(op: BinOp, left: PrimVal, right: PrimVal) -> Result<(PrimVal, bool), EvalError> {
    match (left.spec_int_kind(), right.spec_int_kind()) {
        (Some(k), Some(_)) => {
            let amount = (right.spec_bits() % ((8 * k.spec_size()) as u64)) as u64;
            if op == BinOp::Shl {
                Ok((PrimVal::spec_wrapped(k, (left.spec_bits() << amount) as int), false))
            } else if k.spec_signed() {
                Ok((PrimVal::spec_wrapped(k, ((left.spec_int_value() as i64) >> amount) as int), false))
            } else {
                Ok((PrimVal::spec_wrapped(k, (left.spec_bits() >> amount) as int), false))
            }
        },
        _ => Err(EvalError::InvalidOperands),
    }
}

fn shift(op: BinOp, left: PrimVal, right: PrimVal) -> (res: Result<(PrimVal, bool), EvalError>)
    ensures
        res == spec_shift(op, left, right),
{
    match (left.int_kind(), right.int_kind()) {
        (Some(k), Some(_)) => {
            let width: u64 = 8 * k.size();
            let amount: u64 = right.bits() % width;
            match op {
                BinOp::Shl => Ok((PrimVal::from_bits(k, left.bits() << amount), false)),
                _ => {
                    if k.signed() {
                        let l: i64 = left.int_value() as i64;
                        proof {
                            lemma_pow256_values();
                        }
                        Ok((PrimVal::wrapped(k, (l >> amount) as i128), false))
                    } else {
                        Ok((PrimVal::from_bits(k, left.bits() >> amount), false))
                    }
                },
            }
        },
        _ => Err(EvalError::InvalidOperands),
    }
}

/// An operator applied to two booleans.
pub open spec fn spec_bool_op(op: BinOp, l: bool, r: bool) -> Result<(PrimVal, bool), EvalError> {
    match op {
        BinOp::Eq => Ok((PrimVal::Bool(l == r), false)),
        BinOp::Ne => Ok((PrimVal::Bool(l != r), false)),
        BinOp::Lt => Ok((PrimVal::Bool(!l && r), false)),
        BinOp::Le => Ok((PrimVal::Bool(!l || r), false)),
        BinOp::Gt => Ok((PrimVal::Bool(l && !r), false)),
        BinOp::Ge => Ok((PrimVal::Bool(l || !r), false)),
        BinOp::BitOr => Ok((PrimVal::Bool(l || r), false)),
        BinOp::BitXor => Ok((PrimVal::Bool(l != r), false)),
        BinOp::BitAnd => Ok((PrimVal::Bool(l && r), false)),
        _ => Err(EvalError::InvalidOperands),
    }
}

fn bool_op(op: BinOp, l: bool, r: bool) -> (res: Result<(PrimVal, bool), EvalError>)
    ensures
        res == spec_bool_op(op, l, r),
{
    match op {
        BinOp::Eq => Ok((PrimVal::Bool(l == r), false)),
        BinOp::Ne => Ok((PrimVal::Bool(l != r), false)),
        BinOp::Lt => Ok((PrimVal::Bool(!l && r), false)),
        BinOp::Le => Ok((PrimVal::Bool(!l || r), false)),
        BinOp::Gt => Ok((PrimVal::Bool(l && !r), false)),
        BinOp::Ge => Ok((PrimVal::Bool(l || !r), false)),
        BinOp::BitOr => Ok((PrimVal::Bool(l || r), false)),
        BinOp::BitXor => Ok((PrimVal::Bool(l != r), false)),
        BinOp::BitAnd => Ok((PrimVal::Bool(l && r), false)),
        _ => Err(EvalError::InvalidOperands),
    }
}

/// An operator applied to two addresses. Any two can be compared for
/// equality; only addresses into one allocation have an order.
pub open spec fn spec_ptr_op(op: BinOp, l: Pointer, r: Pointer) -> Result<(PrimVal, bool), EvalError> {
    match op {
        BinOp::Eq => Ok((PrimVal::Bool(l == r), false)),
        BinOp::Ne => Ok((PrimVal::Bool(l != r), false)),
        BinOp::Lt | BinOp::Le | BinOp::Gt | BinOp::Ge => if l.alloc_id == r.alloc_id {
            Ok((PrimVal::Bool(spec_compare(op, l.offset as int, r.offset as int)->Some_0), false))
        } else {
            Err(EvalError::InvalidPointerMath)
        },
        _ => Err(EvalError::InvalidOperands),
    }
}

fn ptr_op(op: BinOp, l: Pointer, r: Pointer) -> (res: Result<(PrimVal, bool), EvalError>)
    ensures
        res == spec_ptr_op(op, l, r),
{
    match op {
        BinOp::Eq => Ok((PrimVal::Bool(l == r), false)),
        BinOp::Ne => Ok((PrimVal::Bool(l != r), false)),
        BinOp::Lt | BinOp::Le | BinOp::Gt | BinOp::Ge => {
            if l.alloc_id == r.alloc_id {
                match compare(op, l.offset as i128, r.offset as i128) {
                    Some(b) => Ok((PrimVal::Bool(b), false)),
                    None => Err(EvalError::InvalidOperands),
                }
            } else {
                Err(EvalError::InvalidPointerMath)
            }
        },
        _ => Err(EvalError::InvalidOperands),
    }
}

/// What a binary operator yields: the result and whether the exact result
/// left the range of the type.
pub open spec fn spec_binary_op(
    op: BinOp,
    left: PrimVal,
    right: PrimVal,
) -> Result<(PrimVal, bool), EvalError> {
    if op == BinOp::Shl || op == BinOp::Shr {
        spec_shift(op, left, right)
    } else {
        match (left, right) {
            (PrimVal::Bool(l), PrimVal::Bool(r)) => spec_bool_op(op, l, r),
            (PrimVal::Char(l), PrimVal::Char(r)) => match spec_compare(op, l as int, r as int) {
                Some(b) => Ok((PrimVal::Bool(b), false)),
                None => Err(EvalError::InvalidOperands),
            },
            (PrimVal::Ptr(l), PrimVal::Ptr(r)) => spec_ptr_op(op, l, r),
            (PrimVal::FnPtr(l), PrimVal::FnPtr(r)) => spec_ptr_op(op, l, r),
            (PrimVal::F32(_), PrimVal::F32(_)) => Err(EvalError::UnsupportedFloat),
            (PrimVal::F64(_), PrimVal::F64(_)) => Err(EvalError::UnsupportedFloat),
            _ => match (left.spec_int_kind(), right.spec_int_kind()) {
                (Some(kl), Some(kr)) => if kl == kr {
                    spec_int_op(op, kl, left.spec_int_value(), right.spec_int_value())
                } else {
                    Err(EvalError::InvalidOperands)
                },
                _ => Err(EvalError::InvalidOperands),
            },
        }
    }
}

/// Applies a binary operator.
pub fn binary_op(op: BinOp, left: PrimVal, right: PrimVal) -> (res: Result<(PrimVal, bool), EvalError>)
    ensures
        res == spec_binary_op(op, left, right),
{
    match op {
        BinOp::Shl | BinOp::Shr => {
            return shift(op, left, right);
        },
        _ => {},
    }
    match (left, right) {
        (PrimVal::Bool(l), PrimVal::Bool(r)) => bool_op(op, l, r),
        (PrimVal::Char(l), PrimVal::Char(r)) => match compare(op, l as u32 as i128, r as u32 as i128) {
            Some(b) => Ok((PrimVal::Bool(b), false)),
            None => Err(EvalError::InvalidOperands),
        },
        (PrimVal::Ptr(l), PrimVal::Ptr(r)) => ptr_op(op, l, r),
        (PrimVal::FnPtr(l), PrimVal::FnPtr(r)) => ptr_op(op, l, r),
        (PrimVal::F32(_), PrimVal::F32(_)) => Err(EvalError::UnsupportedFloat),
        (PrimVal::F64(_), PrimVal::F64(_)) => Err(EvalError::UnsupportedFloat),
        _ => match (left.int_kind(), right.int_kind()) {
            (Some(kl), Some(kr)) => {
                if kl == kr {
                    int_op(op, kl, left.int_value(), right.int_value())
                } else {
                    Err(EvalError::InvalidOperands)
                }
            },
            _ => Err(EvalError::InvalidOperands),
        },
    }
}

/// What a unary operator yields. Negating an integer wraps; negating a
/// floating-point number flips its sign bit.
pub open spec fn spec_unary_op(op: UnOp, val: PrimVal) -> Result<PrimVal, EvalError> {
    match (op, val) {
        (UnOp::Not, PrimVal::Bool(b)) => Ok(PrimVal::Bool(!b)),
        (UnOp::Neg, PrimVal::F32(b)) => Ok(
            PrimVal::F32(
                if b >= 0x8000_0000 {
                    (b - 0x8000_0000) as u32
                } else {
                    (b + 0x8000_0000) as u32
                },
            ),
        ),
        (UnOp::Neg, PrimVal::F64(b)) => Ok(
            PrimVal::F64(
                if b >= 0x8000_0000_0000_0000 {
                    (b - 0x8000_0000_0000_0000) as u64
                } else {
                    (b + 0x8000_0000_0000_0000) as u64
                },
            ),
        ),
        _ => match val.spec_int_kind() {
            Some(k) => match op {
                UnOp::Not => Ok(PrimVal::spec_wrapped(k, -val.spec_int_value() - 1)),
                UnOp::Neg => Ok(PrimVal::spec_wrapped(k, -val.spec_int_value())),
            },
            None => Err(EvalError::InvalidOperands),
        },
    }
}

/// Applies a unary operator.
pub fn unary_op(op: UnOp, val: PrimVal) -> (res: Result<PrimVal, EvalError>)
    ensures
        res == spec_unary_op(op, val),
{
    match (op, val) {
        (UnOp::Not, PrimVal::Bool(b)) => Ok(PrimVal::Bool(!b)),
        (UnOp::Neg, PrimVal::F32(b)) => Ok(
            PrimVal::F32(
                if b >= 0x8000_0000 {
                    b - 0x8000_0000
                } else {
                    b + 0x8000_0000
                },
            ),
        ),
        (UnOp::Neg, PrimVal::F64(b)) => Ok(
            PrimVal::F64(
                if b >= 0x8000_0000_0000_0000 {
                    b - 0x8000_0000_0000_0000
                } else {
                    b + 0x8000_0000_0000_0000
                },
            ),
        ),
        _ => match val.int_kind() {
            Some(k) => {
                let v = val.int_value();
                match op {
                    UnOp::Not => Ok(PrimVal::wrapped(k, -v - 1)),
                    UnOp::Neg => Ok(PrimVal::wrapped(k, -v)),
                }
            },
            None => Err(EvalError::InvalidOperands),
        },
    }
}

} // verus!
