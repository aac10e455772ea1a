use mir_interpreter::error::{ErrorClass, EvalError};
use mir_interpreter::memory::{AllocId, Memory, Pointer};
use mir_interpreter::primval::PrimVal;
use mir_interpreter::ty::{DefId, FnTy, PointerWidth, Substs};

fn memory() -> Memory {
    Memory::new(PointerWidth::P64, 1024)
}

#[test]
fn write_then_read_uint() {
    let mut mem = memory();
    let ptr = mem.allocate(8, 8).unwrap();
    mem.write_uint(ptr, 0x1122_3344, 4).unwrap();
    assert_eq!(mem.read_uint(ptr, 4), Ok(0x1122_3344));
    assert_eq!(ptr, Pointer { alloc_id: AllocId(2), offset: 0 });
}

#[test]
fn integers_are_little_endian() {
    let mut mem = memory();
    let ptr = mem.allocate(4, 4).unwrap();
    mem.write_uint(ptr, 0x0102_0304, 4).unwrap();
    assert_eq!(mem.read_bytes(ptr, 4), Ok(vec![4, 3, 2, 1]));
}

#[test]
fn write_uint_keeps_the_low_bytes() {
    let mut mem = memory();
    let ptr = mem.allocate(2, 2).unwrap();
    mem.write_uint(ptr, 0x1_2345, 2).unwrap();
    assert_eq!(mem.read_uint(ptr, 2), Ok(0x2345));
}

#[test]
fn write_then_read_negative_int() {
    let mut mem = memory();
    let ptr = mem.allocate(8, 8).unwrap();
    mem.write_int(ptr, -2, 2).unwrap();
    assert_eq!(mem.read_int(ptr, 2), Ok(-2));
    assert_eq!(mem.read_uint(ptr, 2), Ok(0xfffe));
    mem.write_int(ptr, i64::MIN, 8).unwrap();
    assert_eq!(mem.read_int(ptr, 8), Ok(i64::MIN));
}

#[test]
fn write_then_read_bool() {
    let mut mem = memory();
    let ptr = mem.allocate(1, 1).unwrap();
    mem.write_bool(ptr, true).unwrap();
    assert_eq!(mem.read_bool(ptr), Ok(true));
    mem.write_bool(ptr, false).unwrap();
    assert_eq!(mem.read_bool(ptr), Ok(false));
}

#[test]
fn a_byte_other_than_zero_or_one_is_no_bool() {
    let mut mem = memory();
    let ptr = mem.allocate(1, 1).unwrap();
    mem.write_uint(ptr, 2, 1).unwrap();
    assert_eq!(mem.read_bool(ptr), Err(EvalError::InvalidBool));
}

#[test]
fn write_then_read_ptr() {
    let mut mem = memory();
    let a = mem.allocate(16, 8).unwrap();
    let b = mem.allocate(8, 8).unwrap();
    let target = a.offset(5);
    mem.write_ptr(b, target).unwrap();
    assert_eq!(mem.read_ptr(b), Ok(target));
}

#[test]
fn integer_address_round_trips() {
    let mut mem = memory();
    let b = mem.allocate(8, 8).unwrap();
    mem.write_ptr(b, Pointer::from_int(0x40)).unwrap();
    assert_eq!(mem.read_ptr(b), Ok(Pointer::from_int(0x40)));
    assert_eq!(mem.read_usize(b), Ok(0x40));
    assert_eq!(Pointer::from_int(0x40).to_int(), Ok(0x40));
}

#[test]
fn stored_pointer_is_not_plain_data() {
    let mut mem = memory();
    let a = mem.allocate(8, 8).unwrap();
    let b = mem.allocate(8, 8).unwrap();
    mem.write_ptr(b, a).unwrap();
    assert_eq!(mem.read_uint(b, 8), Err(EvalError::ReadPointerAsBytes));
    assert_eq!(a.to_int(), Err(EvalError::ReadPointerAsBytes));
}

#[test]
fn partly_overwritten_pointer_cannot_be_read() {
    let mut mem = memory();
    let a = mem.allocate(8, 8).unwrap();
    let b = mem.allocate(8, 8).unwrap();
    mem.write_ptr(b, a).unwrap();
    mem.write_uint(b, 0, 1).unwrap();
    assert_eq!(mem.read_ptr(b), Err(EvalError::ReadPointerAsBytes));
}

#[test]
fn fresh_memory_is_undefined() {
    let mut mem = memory();
    let ptr = mem.allocate(4, 4).unwrap();
    assert_eq!(mem.read_uint(ptr, 4), Err(EvalError::ReadUndefBytes));
    assert_eq!(mem.read_ptr(ptr.offset(0)), Err(EvalError::PointerOutOfBounds {
        ptr,
        size: 8,
        allocation_size: 4,
    }));
}

#[test]
fn zero_sized_allocation_is_the_zst_address() {
    let mut mem = memory();
    let ptr = mem.allocate(0, 1).unwrap();
    assert_eq!(ptr, Pointer::zst_ptr());
    assert!(ptr.points_to_zst());
    assert_eq!(mem.allocation_count(), 2);
    assert_eq!(mem.read_bytes(ptr, 0), Ok(vec![]));
    assert_eq!(mem.write_bytes(ptr, &[]), Ok(()));
}

#[test]
fn access_through_reserved_allocations_is_refused() {
    let mut mem = memory();
    assert_eq!(mem.read_uint(Pointer::zst_ptr(), 1), Err(EvalError::InvalidMemoryAccess));
    assert_eq!(mem.write_uint(Pointer::from_int(8), 0, 1), Err(EvalError::InvalidMemoryAccess));
}

#[test]
fn out_of_bounds_access_is_refused() {
    let mut mem = memory();
    let ptr = mem.allocate(4, 4).unwrap();
    let err = EvalError::PointerOutOfBounds { ptr: ptr.offset(2), size: 4, allocation_size: 4 };
    assert_eq!(mem.write_bytes(ptr.offset(2), &[1, 2, 3, 4]), Err(err));
    assert_eq!(mem.read_bytes(ptr.offset(2), 4), Err(err));
    assert_eq!(err.class(), ErrorClass::MemoryFault);
}

#[test]
fn dangling_pointer_is_refused() {
    let mem = memory();
    let ptr = Pointer { alloc_id: AllocId(99), offset: 0 };
    assert_eq!(mem.read_uint(ptr, 1), Err(EvalError::DanglingPointerDeref));
}

#[test]
fn misaligned_access_is_refused() {
    let mut mem = memory();
    let ptr = mem.allocate(16, 8).unwrap();
    assert_eq!(
        mem.write_uint(ptr.offset(2), 7, 4),
        Err(EvalError::AlignmentCheckFailed { required: 4, has: 2 })
    );
    let low = mem.allocate(8, 2).unwrap();
    assert_eq!(
        mem.write_uint(low, 7, 8),
        Err(EvalError::AlignmentCheckFailed { required: 8, has: 2 })
    );
}

#[test]
fn allocation_beyond_the_budget_is_refused() {
    let mut mem = Memory::new(PointerWidth::P32, 10);
    assert!(mem.allocate(6, 1).is_ok());
    let err = EvalError::OutOfMemory { allocation_size: 5, memory_size: 10, memory_usage: 6 };
    assert_eq!(mem.allocate(5, 1), Err(err));
    assert_eq!(err.class(), ErrorClass::ResourceExhausted);
    assert!(mem.allocate(4, 1).is_ok());
}

#[test]
fn pointer_size_follows_the_width() {
    assert_eq!(Memory::new(PointerWidth::P16, 0).pointer_size(), 2);
    assert_eq!(Memory::new(PointerWidth::P32, 0).pointer_size(), 4);
    assert_eq!(Memory::new(PointerWidth::P64, 0).pointer_size(), 8);
    let mut mem = Memory::new(PointerWidth::P32, 64);
    let ptr = mem.allocate(8, 4).unwrap();
    mem.write_usize(ptr, 0x1_0000_0007).unwrap();
    assert_eq!(mem.read_usize(ptr), Ok(7));
    assert_eq!(mem.read_uint(ptr.offset(4), 4), Err(EvalError::ReadUndefBytes));
}

#[test]
fn freezing_twice_is_freezing_once() {
    let mut mem = memory();
    let ptr = mem.allocate(4, 4).unwrap();
    mem.write_uint(ptr, 9, 4).unwrap();
    assert!(!mem.is_frozen(ptr.alloc_id));
    assert_eq!(mem.freeze(ptr.alloc_id), Ok(()));
    assert!(mem.is_frozen(ptr.alloc_id));
    assert_eq!(mem.freeze(ptr.alloc_id), Ok(()));
    assert!(mem.is_frozen(ptr.alloc_id));
    assert_eq!(mem.read_uint(ptr, 4), Ok(9));
}

#[test]
fn every_write_to_frozen_memory_is_refused() {
    let mut mem = memory();
    let ptr = mem.allocate(16, 8).unwrap();
    let other = mem.allocate(16, 8).unwrap();
    mem.write_uint(other, 1, 8).unwrap();
    mem.write_uint(ptr, 9, 8).unwrap();
    mem.freeze(ptr.alloc_id).unwrap();
    let refused = Err(EvalError::ModifiedConstantMemory);
    assert_eq!(mem.write_uint(ptr, 1, 4), refused);
    assert_eq!(mem.write_int(ptr, -1, 8), refused);
    assert_eq!(mem.write_bool(ptr, true), refused);
    assert_eq!(mem.write_bytes(ptr.offset(3), &[1]), refused);
    assert_eq!(mem.write_bytes(ptr.offset(300), &[1]), refused);
    assert_eq!(mem.write_ptr(ptr, other), refused);
    assert_eq!(mem.write_usize(ptr, 3), refused);
    assert_eq!(mem.write_primval(ptr, PrimVal::U8(1)), refused);
    assert_eq!(mem.write_repeat(ptr, 0, 16), refused);
    assert_eq!(mem.copy(other, ptr, 8, 8), refused);
    assert_eq!(mem.mark_definedness(ptr, 8, false), refused);
    assert_eq!(mem.read_uint(ptr, 8), Ok(9));
    assert_eq!(mem.write_uint(other, 2, 8), Ok(()));
}

#[test]
fn freezing_what_does_not_exist_fails() {
    let mut mem = memory();
    assert_eq!(mem.freeze(AllocId(40)), Err(EvalError::DanglingPointerDeref));
    assert_eq!(mem.freeze(AllocId(0)), Ok(()));
    assert_eq!(mem.write_bytes(Pointer::zst_ptr(), &[]), Ok(()));
}

#[test]
fn copy_takes_definedness_and_pointers_along() {
    let mut mem = memory();
    let a = mem.allocate(16, 8).unwrap();
    let b = mem.allocate(16, 8).unwrap();
    mem.write_ptr(a, b).unwrap();
    mem.copy(a, b, 16, 8).unwrap();
    assert_eq!(mem.read_ptr(b), Ok(b));
    assert_eq!(mem.read_uint(b.offset(8), 8), Err(EvalError::ReadUndefBytes));
}

#[test]
fn copy_of_overlapping_ranges_takes_the_source_first() {
    let mut mem = memory();
    let a = mem.allocate(8, 1).unwrap();
    mem.write_bytes(a, &[1, 2, 3, 4, 5, 6, 7, 8]).unwrap();
    mem.copy(a, a.offset(2), 4, 1).unwrap();
    assert_eq!(mem.read_bytes(a, 8), Ok(vec![1, 2, 1, 2, 3, 4, 7, 8]));
}

#[test]
fn write_repeat_fills_a_range() {
    let mut mem = memory();
    let a = mem.allocate(4, 1).unwrap();
    mem.write_repeat(a, 0xab, 3).unwrap();
    assert_eq!(mem.read_bytes(a, 3), Ok(vec![0xab, 0xab, 0xab]));
    assert_eq!(mem.read_bytes(a, 4), Err(EvalError::ReadUndefBytes));
}

#[test]
fn marking_undefined_forgets_the_bytes() {
    let mut mem = memory();
    let a = mem.allocate(4, 1).unwrap();
    mem.write_repeat(a, 7, 4).unwrap();
    mem.mark_definedness(a.offset(1), 2, false).unwrap();
    assert_eq!(mem.read_bytes(a, 1), Ok(vec![7]));
    assert_eq!(mem.read_bytes(a.offset(1), 1), Err(EvalError::ReadUndefBytes));
    mem.mark_definedness(a, 4, true).unwrap();
    assert_eq!(mem.read_bytes(a, 4), Ok(vec![7, 0, 0, 7]));
}

#[test]
fn each_function_has_one_address() {
    let mut mem = memory();
    let f = DefId { krate: 0, index: 3 };
    let g = DefId { krate: 0, index: 4 };
    let p = mem.create_fn_ptr(f, Substs(0), FnTy(1));
    let q = mem.create_fn_ptr(g, Substs(0), FnTy(1));
    let again = mem.create_fn_ptr(f, Substs(0), FnTy(1));
    assert_eq!(p, again);
    assert!(p != q);
    let def = mem.get_fn(p.alloc_id).unwrap();
    assert_eq!((def.def_id, def.substs, def.fn_ty), (f, Substs(0), FnTy(1)));
    assert_eq!(mem.read_uint(p, 1), Err(EvalError::DerefFunctionPointer));
    assert_eq!(mem.get_fn(AllocId(0)), Err(EvalError::InvalidFunctionPointer));
}

#[test]
fn pointer_offset_wraps() {
    let p = Pointer { alloc_id: AllocId(2), offset: 3 };
    assert_eq!(p.offset(4).offset, 7);
    assert_eq!(p.offset(-3).offset, 0);
    assert_eq!(p.offset(-4).offset, u64::MAX);
    assert_eq!(Pointer { alloc_id: AllocId(2), offset: u64::MAX }.offset(2).offset, 1);
    assert_eq!(p.offset_by(u64::MAX).offset, 2);
    assert_eq!(p.scaled(3, 4).offset, 15);
    assert_eq!(p.scaled(-1, 2).offset, 1);
}

#[test]
fn write_primval_uses_the_width_of_the_kind() {
    let mut mem = memory();
    let a = mem.allocate(16, 8).unwrap();
    mem.write_primval(a, PrimVal::I16(-1)).unwrap();
    assert_eq!(mem.read_bytes(a, 2), Ok(vec![0xff, 0xff]));
    assert_eq!(mem.read_bytes(a, 3), Err(EvalError::ReadUndefBytes));
    mem.write_primval(a, PrimVal::Char('A')).unwrap();
    assert_eq!(mem.read_bytes(a, 4), Ok(vec![65, 0, 0, 0]));
    mem.write_primval(a, PrimVal::F32(0x3f80_0000)).unwrap();
    assert_eq!(mem.read_uint(a, 4), Ok(0x3f80_0000));
    mem.write_primval(a, PrimVal::Bool(true)).unwrap();
    assert_eq!(mem.read_bytes(a, 1), Ok(vec![1]));
}

#[test]
fn what_is_frozen_stays_as_it_is() {
    let mut mem = memory();
    let frozen = mem.allocate(4, 4).unwrap();
    let other = mem.allocate(8, 4).unwrap();
    mem.write_uint(frozen, 0x0a0b_0c0d, 4).unwrap();
    mem.freeze(frozen.alloc_id).unwrap();
    mem.write_uint(other, 1, 4).unwrap();
    mem.copy(frozen, other.offset(4), 4, 4).unwrap();
    mem.mark_definedness(other, 4, false).unwrap();
    mem.allocate(16, 8).unwrap();
    mem.freeze(other.alloc_id).unwrap();
    mem.create_fn_ptr(DefId { krate: 0, index: 1 }, Substs(0), FnTy(0));
    assert!(mem.is_frozen(frozen.alloc_id));
    assert_eq!(mem.read_uint(frozen, 4), Ok(0x0a0b_0c0d));
    assert_eq!(mem.read_uint(other.offset(4), 4), Ok(0x0a0b_0c0d));
}
