use mir_interpreter::error::EvalError;
use mir_interpreter::interpreter::numeric::{numeric_intrinsic, NumericOp};
use mir_interpreter::memory::{AllocId, Pointer};
use mir_interpreter::mir::{BinOp, UnOp};
use mir_interpreter::primval::{binary_op, unary_op, IntKind, PrimVal};

#[test]
fn checked_add_without_overflow() {
    assert_eq!(
        binary_op(BinOp::Add, PrimVal::U32(7), PrimVal::U32(5)),
        Ok((PrimVal::U32(12), false))
    );
}

#[test]
fn checked_add_with_overflow_wraps() {
    assert_eq!(
        binary_op(BinOp::Add, PrimVal::U8(255), PrimVal::U8(1)),
        Ok((PrimVal::U8(0), true))
    );
    assert_eq!(
        binary_op(BinOp::Add, PrimVal::I8(127), PrimVal::I8(1)),
        Ok((PrimVal::I8(-128), true))
    );
}

#[test]
fn subtraction_and_multiplication_report_overflow() {
    assert_eq!(
        binary_op(BinOp::Sub, PrimVal::U16(3), PrimVal::U16(5)),
        Ok((PrimVal::U16(0xfffe), true))
    );
    assert_eq!(
        binary_op(BinOp::Sub, PrimVal::I32(3), PrimVal::I32(5)),
        Ok((PrimVal::I32(-2), false))
    );
    assert_eq!(
        binary_op(BinOp::Mul, PrimVal::U64(u64::MAX), PrimVal::U64(u64::MAX)),
        Ok((PrimVal::U64(1), true))
    );
    assert_eq!(
        binary_op(BinOp::Mul, PrimVal::I64(i64::MIN), PrimVal::I64(-1)),
        Ok((PrimVal::I64(i64::MIN), true))
    );
    assert_eq!(
        binary_op(BinOp::Mul, PrimVal::I16(-3), PrimVal::I16(7)),
        Ok((PrimVal::I16(-21), false))
    );
}

#[test]
fn division_rounds_towards_zero() {
    assert_eq!(
        binary_op(BinOp::Div, PrimVal::I32(-7), PrimVal::I32(2)),
        Ok((PrimVal::I32(-3), false))
    );
    assert_eq!(
        binary_op(BinOp::Rem, PrimVal::I32(-7), PrimVal::I32(2)),
        Ok((PrimVal::I32(-1), false))
    );
    assert_eq!(
        binary_op(BinOp::Rem, PrimVal::I32(7), PrimVal::I32(-2)),
        Ok((PrimVal::I32(1), false))
    );
    assert_eq!(
        binary_op(BinOp::Div, PrimVal::I8(-128), PrimVal::I8(-1)),
        Ok((PrimVal::I8(-128), true))
    );
    assert_eq!(
        binary_op(BinOp::Rem, PrimVal::I8(-128), PrimVal::I8(-1)),
        Ok((PrimVal::I8(0), true))
    );
    assert_eq!(
        binary_op(BinOp::Div, PrimVal::U8(200), PrimVal::U8(7)),
        Ok((PrimVal::U8(28), false))
    );
}

#[test]
fn division_by_zero_is_an_error() {
    assert_eq!(
        binary_op(BinOp::Div, PrimVal::U8(1), PrimVal::U8(0)),
        Err(EvalError::DivisionByZero)
    );
    assert_eq!(
        binary_op(BinOp::Rem, PrimVal::I64(1), PrimVal::I64(0)),
        Err(EvalError::DivisionByZero)
    );
}

#[test]
fn bit_operators_work_on_the_pattern() {
    assert_eq!(
        binary_op(BinOp::BitXor, PrimVal::I8(-1), PrimVal::I8(0x0f)),
        Ok((PrimVal::I8(-16), false))
    );
    assert_eq!(
        binary_op(BinOp::BitAnd, PrimVal::U16(0xff0f), PrimVal::U16(0x0ff0)),
        Ok((PrimVal::U16(0x0f00), false))
    );
    assert_eq!(
        binary_op(BinOp::BitOr, PrimVal::I32(i32::MIN), PrimVal::I32(1)),
        Ok((PrimVal::I32(i32::MIN + 1), false))
    );
}

#[test]
fn shifts_reduce_the_amount_to_the_width() {
    assert_eq!(
        binary_op(BinOp::Shl, PrimVal::U8(0x81), PrimVal::U8(1)),
        Ok((PrimVal::U8(2), false))
    );
    assert_eq!(
        binary_op(BinOp::Shl, PrimVal::U8(1), PrimVal::I32(9)),
        Ok((PrimVal::U8(2), false))
    );
    assert_eq!(
        binary_op(BinOp::Shr, PrimVal::I16(-8), PrimVal::U8(1)),
        Ok((PrimVal::I16(-4), false))
    );
    assert_eq!(
        binary_op(BinOp::Shr, PrimVal::U16(0x8000), PrimVal::I8(-1)),
        Ok((PrimVal::U16(1), false))
    );
    assert_eq!(
        binary_op(BinOp::Shl, PrimVal::I64(1), PrimVal::U64(63)),
        Ok((PrimVal::I64(i64::MIN), false))
    );
}

#[test]
fn comparisons_yield_booleans() {
    assert_eq!(
        binary_op(BinOp::Lt, PrimVal::I8(-1), PrimVal::I8(1)),
        Ok((PrimVal::Bool(true), false))
    );
    assert_eq!(
        binary_op(BinOp::Ge, PrimVal::U8(255), PrimVal::U8(1)),
        Ok((PrimVal::Bool(true), false))
    );
    assert_eq!(
        binary_op(BinOp::Eq, PrimVal::Char('a'), PrimVal::Char('b')),
        Ok((PrimVal::Bool(false), false))
    );
    assert_eq!(
        binary_op(BinOp::Ne, PrimVal::Bool(true), PrimVal::Bool(false)),
        Ok((PrimVal::Bool(true), false))
    );
    assert_eq!(
        binary_op(BinOp::BitAnd, PrimVal::Bool(true), PrimVal::Bool(false)),
        Ok((PrimVal::Bool(false), false))
    );
}

#[test]
fn operands_must_agree() {
    assert_eq!(
        binary_op(BinOp::Add, PrimVal::U8(1), PrimVal::U16(1)),
        Err(EvalError::InvalidOperands)
    );
    assert_eq!(
        binary_op(BinOp::Add, PrimVal::Bool(true), PrimVal::Bool(true)),
        Err(EvalError::InvalidOperands)
    );
    assert_eq!(
        binary_op(BinOp::Add, PrimVal::F32(0), PrimVal::F32(0)),
        Err(EvalError::UnsupportedFloat)
    );
    assert_eq!(
        binary_op(BinOp::Shl, PrimVal::Bool(true), PrimVal::U8(1)),
        Err(EvalError::InvalidOperands)
    );
}

#[test]
fn pointers_compare_within_one_allocation() {
    let a = Pointer { alloc_id: AllocId(2), offset: 4 };
    let b = Pointer { alloc_id: AllocId(2), offset: 8 };
    let c = Pointer { alloc_id: AllocId(3), offset: 8 };
    assert_eq!(
        binary_op(BinOp::Lt, PrimVal::Ptr(a), PrimVal::Ptr(b)),
        Ok((PrimVal::Bool(true), false))
    );
    assert_eq!(
        binary_op(BinOp::Eq, PrimVal::Ptr(b), PrimVal::Ptr(c)),
        Ok((PrimVal::Bool(false), false))
    );
    assert_eq!(
        binary_op(BinOp::Lt, PrimVal::Ptr(b), PrimVal::Ptr(c)),
        Err(EvalError::InvalidPointerMath)
    );
    assert_eq!(
        binary_op(BinOp::Add, PrimVal::Ptr(a), PrimVal::Ptr(b)),
        Err(EvalError::InvalidOperands)
    );
}

#[test]
fn unary_operators() {
    assert_eq!(unary_op(UnOp::Not, PrimVal::Bool(true)), Ok(PrimVal::Bool(false)));
    assert_eq!(unary_op(UnOp::Not, PrimVal::U8(0x0f)), Ok(PrimVal::U8(0xf0)));
    assert_eq!(unary_op(UnOp::Not, PrimVal::I32(0)), Ok(PrimVal::I32(-1)));
    assert_eq!(unary_op(UnOp::Neg, PrimVal::I8(5)), Ok(PrimVal::I8(-5)));
    assert_eq!(unary_op(UnOp::Neg, PrimVal::I8(-128)), Ok(PrimVal::I8(-128)));
    assert_eq!(unary_op(UnOp::Neg, PrimVal::U8(1)), Ok(PrimVal::U8(255)));
    assert_eq!(
        unary_op(UnOp::Neg, PrimVal::F32(1.5f32.to_bits())),
        Ok(PrimVal::F32((-1.5f32).to_bits()))
    );
    assert_eq!(
        unary_op(UnOp::Neg, PrimVal::F64((-2.0f64).to_bits())),
        Ok(PrimVal::F64(2.0f64.to_bits()))
    );
    assert_eq!(unary_op(UnOp::Neg, PrimVal::Bool(true)), Err(EvalError::InvalidOperands));
    assert_eq!(unary_op(UnOp::Not, PrimVal::Char('a')), Err(EvalError::InvalidOperands));
}

#[test]
fn values_of_a_size() {
    assert_eq!(PrimVal::int_with_size(-1, 2), PrimVal::I16(-1));
    assert_eq!(PrimVal::int_with_size(0x1_0000_0001, 4), PrimVal::I32(1));
    assert_eq!(PrimVal::uint_with_size(0x1ff, 1), PrimVal::U8(0xff));
    assert_eq!(PrimVal::uint_with_size(9, 8), PrimVal::U64(9));
    assert_eq!(PrimVal::wrapped(IntKind::I8, 200), PrimVal::I8(-56));
    assert_eq!(PrimVal::from_bits(IntKind::I16, 0xffff), PrimVal::I16(-1));
    assert_eq!(PrimVal::I16(-1).bits(), 0xffff);
    assert_eq!(PrimVal::U32(7).int_value(), 7);
    assert_eq!(PrimVal::Bool(true).bits(), 0);
}

#[test]
fn expectations() {
    assert_eq!(PrimVal::Bool(true).expect_bool(), Ok(true));
    assert_eq!(PrimVal::U8(1).expect_bool(), Err(EvalError::Malformed));
    assert_eq!(PrimVal::U16(9).expect_uint(), Ok(9));
    assert_eq!(PrimVal::Ptr(Pointer::from_int(12)).expect_uint(), Ok(12));
    assert_eq!(PrimVal::I16(9).expect_uint(), Err(EvalError::Malformed));
    assert_eq!(PrimVal::I16(-9).expect_int(), Ok(-9));
    assert_eq!(PrimVal::F32(3).expect_f32(), Ok(3));
    assert_eq!(PrimVal::F64(3).expect_f64(), Ok(3));
    assert_eq!(PrimVal::F64(3).expect_f32(), Err(EvalError::Malformed));
}

#[test]
fn population_count() {
    assert_eq!(numeric_intrinsic(NumericOp::Ctpop, PrimVal::U8(0b1011_0001)), Ok(PrimVal::U8(4)));
    assert_eq!(numeric_intrinsic(NumericOp::Ctpop, PrimVal::I16(-1)), Ok(PrimVal::I16(16)));
    assert_eq!(numeric_intrinsic(NumericOp::Ctpop, PrimVal::U64(0)), Ok(PrimVal::U64(0)));
}

#[test]
fn trailing_and_leading_zeros() {
    assert_eq!(numeric_intrinsic(NumericOp::Cttz, PrimVal::U32(8)), Ok(PrimVal::U32(3)));
    assert_eq!(numeric_intrinsic(NumericOp::Cttz, PrimVal::U16(0)), Ok(PrimVal::U16(16)));
    assert_eq!(numeric_intrinsic(NumericOp::Cttz, PrimVal::I8(-128)), Ok(PrimVal::I8(7)));
    assert_eq!(numeric_intrinsic(NumericOp::Ctlz, PrimVal::U32(1)), Ok(PrimVal::U32(31)));
    assert_eq!(numeric_intrinsic(NumericOp::Ctlz, PrimVal::U8(0)), Ok(PrimVal::U8(8)));
    assert_eq!(numeric_intrinsic(NumericOp::Ctlz, PrimVal::I64(-1)), Ok(PrimVal::I64(0)));
    assert_eq!(numeric_intrinsic(NumericOp::Ctlz, PrimVal::I16(0x00ff)), Ok(PrimVal::I16(8)));
}

#[test]
fn byte_swap() {
    assert_eq!(
        numeric_intrinsic(NumericOp::Bswap, PrimVal::U32(0x1122_3344)),
        Ok(PrimVal::U32(0x4433_2211))
    );
    assert_eq!(numeric_intrinsic(NumericOp::Bswap, PrimVal::U8(0x12)), Ok(PrimVal::U8(0x12)));
    assert_eq!(
        numeric_intrinsic(NumericOp::Bswap, PrimVal::I16(0x00ff)),
        Ok(PrimVal::I16(-256))
    );
    assert_eq!(
        numeric_intrinsic(NumericOp::Bswap, PrimVal::Bool(true)),
        Err(EvalError::Malformed)
    );
}
