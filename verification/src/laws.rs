//! What holds of the interpreter as a whole: laws that relate several
//! operations, proved from their definitions.
use vstd::prelude::*;
use crate::bytes::{
    is_int_size, le_bytes, lemma_le_bytes_len, lemma_le_roundtrip, lemma_pow256_values, lemma_signed_roundtrip,
    pow256, to_unsigned,
};
use crate::error::EvalError;
use crate::memory::{
    all_ptr_into, decode_ptr, has_ptr, has_undef, plain_bytes, ptr_cells, raw_cells, raw_values, splice, AllocId,
    Byte, MemoryModel, Pointer, NEVER_ALLOC_ID, ZST_ALLOC_ID,
};
use crate::interpreter::intrinsics::spec_nonnull_discriminant;
use crate::interpreter::place::{spec_index_place, spec_int_size, spec_uint_size};
use crate::interpreter::state::State;
use crate::interpreter::value::Value;
use crate::interpreter::{CachedMir, Env, Lvalue, LvalueExtra, StackPopCleanup};
use crate::mir::{AggregateKind, Operand, Span};
use crate::primval::{in_range, lemma_wrap, spec_char_from_u32, IntKind, PrimVal};
use crate::ty::{DefId, FloatTy, Layout, Substs, Ty, TyKind};

verus! {

/// Cells that were written are read back as they were written, through the
/// same address and with the same alignment.
pub proof fn lemma_write_then_read_cells(m: MemoryModel, ptr: Pointer, cells: Seq<Byte>, align: u64)
    requires
        0 < cells.len() <= u64::MAX,
        m.write_cells(ptr, cells, align) is Ok,
    ensures
        m.write_cells(ptr, cells, align)->Ok_0.read_cells(ptr, cells.len() as u64, align) == Ok::<
            Seq<Byte>,
            EvalError,
        >(cells),
        m.write_cells(ptr, cells, align)->Ok_0.pointer_width == m.pointer_width,
{
    let m2 = m.write_cells(ptr, cells, align)->Ok_0;
    let a = m.allocs[ptr.alloc_id.0 as int];
    let a2 = m2.allocs[ptr.alloc_id.0 as int];
    assert(a2.cells == splice(a.cells, ptr.offset as int, cells));
    assert(a2.cells.subrange(ptr.offset as int, ptr.offset + cells.len()) =~= cells);
}

/// A write leaves alone what lies before it or after it in the same
/// allocation, and all of every other allocation.
pub proof fn lemma_write_keeps_other_cells(
    m: MemoryModel,
    ptr: Pointer,
    cells: Seq<Byte>,
    align: u64,
    other: Pointer,
    size: u64,
    other_align: u64,
)
    requires
        cells.len() <= u64::MAX,
        m.write_cells(ptr, cells, align) is Ok,
        other.alloc_id != ptr.alloc_id || other.offset + size <= ptr.offset || ptr.offset + cells.len()
            <= other.offset,
    ensures
        m.write_cells(ptr, cells, align)->Ok_0.read_cells(other, size, other_align) == m.read_cells(
            other,
            size,
            other_align,
        ),
{
    let m2 = m.write_cells(ptr, cells, align)->Ok_0;
    if cells.len() > 0 && size > 0 {
        if other.alloc_id == ptr.alloc_id {
            let a = m.allocs[ptr.alloc_id.0 as int];
            let a2 = m2.allocs[ptr.alloc_id.0 as int];
            assert(a2.cells == splice(a.cells, ptr.offset as int, cells));
            if other.offset + size <= a.cells.len() {
                assert(a2.cells.subrange(other.offset as int, other.offset + size) =~= a.cells.subrange(
                    other.offset as int,
                    other.offset + size,
                ));
            }
        }
    }
}

/// Plain cells read back as the bytes they hold.
pub proof fn lemma_plain_bytes_of_raw_cells(bytes: Seq<u8>)
    ensures
        plain_bytes(raw_cells(bytes)) == Ok::<Seq<u8>, EvalError>(bytes),
{
    assert(raw_values(raw_cells(bytes)) =~= bytes);
}

/// An unsigned integer that was written is read back, reduced to the
/// width it was written in.
pub proof fn lemma_write_then_read_uint(m: MemoryModel, ptr: Pointer, v: u64, size: u64)
    requires
        is_int_size(size),
        m.write_uint(ptr, v, size) is Ok,
    ensures
        m.write_uint(ptr, v, size)->Ok_0.read_uint(ptr, size) == Ok::<u64, EvalError>(
            (v as nat % pow256(size as nat)) as u64,
        ),
{
    let bytes = le_bytes(v as nat, size as nat);
    lemma_le_bytes_len(v as nat, size as nat);
    lemma_write_then_read_cells(m, ptr, raw_cells(bytes), size);
    lemma_plain_bytes_of_raw_cells(bytes);
    crate::bytes::lemma_le_value_of_le_bytes(v as nat, size as nat);
    lemma_pow256_values();
}

/// A signed integer that fits the width it was written in is read back.
pub proof fn lemma_write_then_read_int(m: MemoryModel, ptr: Pointer, v: i64, size: u64)
    requires
        is_int_size(size),
        -(pow256(size as nat) as int) <= 2 * v < pow256(size as nat) as int,
        m.write_int(ptr, v, size) is Ok,
    ensures
        m.write_int(ptr, v, size)->Ok_0.read_int(ptr, size) == Ok::<i64, EvalError>(v),
{
    lemma_signed_roundtrip(v as int, size as nat);
    lemma_pow256_values();
    let u = to_unsigned(v as int, size as nat) as u64;
    lemma_write_then_read_uint(m, ptr, u, size);
    vstd::arithmetic::div_mod::lemma_small_mod(u as nat, pow256(size as nat));
}

/// A boolean that was written is read back.
pub proof fn lemma_write_then_read_bool(m: MemoryModel, ptr: Pointer, b: bool)
    requires
        m.write_bool(ptr, b) is Ok,
    ensures
        m.write_bool(ptr, b)->Ok_0.read_bool(ptr) == Ok::<bool, EvalError>(b),
{
    let bytes = seq![if b { 1u8 } else { 0u8 }];
    lemma_write_then_read_cells(m, ptr, raw_cells(bytes), 1);
    lemma_plain_bytes_of_raw_cells(bytes);
}

/// The cells of a stored address decode to that address, provided its
/// offset fits the pointer size.
pub proof fn lemma_decode_ptr_cells(p: Pointer, size: u64)
    requires
        is_int_size(size),
        (p.offset as nat) < pow256(size as nat),
    ensures
        decode_ptr(ptr_cells(p, size)) == Ok::<Pointer, EvalError>(p),
        ptr_cells(p, size).len() == size,
{
    let bytes = le_bytes(p.offset as nat, size as nat);
    let cells = ptr_cells(p, size);
    lemma_le_bytes_len(p.offset as nat, size as nat);
    lemma_le_roundtrip(p.offset as nat, size as nat);
    assert(raw_values(cells) =~= bytes);
    if p.alloc_id.0 == NEVER_ALLOC_ID {
        assert(!has_ptr(cells));
        assert(!has_undef(cells));
    } else {
        assert(cells[0] is Ptr);
        assert(has_ptr(cells));
        assert(!has_undef(cells));
        assert(all_ptr_into(cells, p.alloc_id));
    }
}

/// An address that was written is read back, provided its offset fits the
/// pointer size.
pub proof fn lemma_write_then_read_ptr(m: MemoryModel, dest: Pointer, p: Pointer)
    requires
        (p.offset as nat) < pow256(m.pointer_size() as nat),
        m.write_ptr(dest, p) is Ok,
    ensures
        m.write_ptr(dest, p)->Ok_0.read_ptr(dest) == Ok::<Pointer, EvalError>(p),
{
    let size = m.pointer_size();
    lemma_decode_ptr_cells(p, size);
    lemma_write_then_read_cells(m, dest, ptr_cells(p, size), size);
}

/// Freezing an allocation a second time changes nothing.
pub proof fn lemma_freeze_is_idempotent(m: MemoryModel, id: AllocId)
    requires
        m.freeze(id) is Ok,
    ensures
        m.freeze(id)->Ok_0.freeze(id) == Ok::<MemoryModel, EvalError>(m.freeze(id)->Ok_0),
{
    let m1 = m.freeze(id)->Ok_0;
    if id.0 != ZST_ALLOC_ID {
        assert(m1.freeze(id)->Ok_0.allocs =~= m1.allocs);
    }
}

/// Whether `id` names an allocation of data that is frozen.
pub open spec fn is_frozen(m: MemoryModel, id: AllocId) -> bool {
    &&& id.0 < m.allocs.len()
    &&& m.allocs[id.0 as int].kind is Data
    &&& m.allocs[id.0 as int].frozen
}

/// After an allocation has been frozen it is frozen.
pub proof fn lemma_freeze_freezes(m: MemoryModel, id: AllocId)
    requires
        m.freeze(id) is Ok,
        id.0 != ZST_ALLOC_ID,
    ensures
        is_frozen(m.freeze(id)->Ok_0, id),
{
}

/// Every write of at least one byte to a frozen allocation is refused, in
/// the same way whatever is written, and wherever in the allocation.
pub proof fn lemma_frozen_rejects_writes(m: MemoryModel, ptr: Pointer)
    requires
        is_frozen(m, ptr.alloc_id),
    ensures
        forall|cells: Seq<Byte>, align: u64|
            0 < cells.len() ==> #[trigger] m.write_cells(ptr, cells, align) == Err::<MemoryModel, EvalError>(
                EvalError::ModifiedConstantMemory,
            ),
        forall|bytes: Seq<u8>|
            0 < bytes.len() ==> #[trigger] m.write_bytes(ptr, bytes) == Err::<MemoryModel, EvalError>(
                EvalError::ModifiedConstantMemory,
            ),
        forall|val: u8, count: u64|
            0 < count ==> #[trigger] m.write_repeat(ptr, val, count) == Err::<MemoryModel, EvalError>(
                EvalError::ModifiedConstantMemory,
            ),
        forall|v: u64, size: u64|
            is_int_size(size) ==> #[trigger] m.write_uint(ptr, v, size) == Err::<MemoryModel, EvalError>(
                EvalError::ModifiedConstantMemory,
            ),
        forall|v: i64, size: u64|
            is_int_size(size) ==> #[trigger] m.write_int(ptr, v, size) == Err::<MemoryModel, EvalError>(
                EvalError::ModifiedConstantMemory,
            ),
        forall|b: bool| #[trigger]
            m.write_bool(ptr, b) == Err::<MemoryModel, EvalError>(EvalError::ModifiedConstantMemory),
        forall|p: Pointer| #[trigger]
            m.write_ptr(ptr, p) == Err::<MemoryModel, EvalError>(EvalError::ModifiedConstantMemory),
        forall|val: PrimVal| #[trigger]
            m.write_primval(ptr, val) == Err::<MemoryModel, EvalError>(EvalError::ModifiedConstantMemory),
        forall|src: Pointer, size: u64, align: u64|
            0 < size && m.read_cells(src, size, align) is Ok ==> #[trigger] m.copy(src, ptr, size, align) == Err::<
                MemoryModel,
                EvalError,
            >(EvalError::ModifiedConstantMemory),
        forall|size: u64, defined: bool|
            0 < size && m.read_cells(ptr, size, 1) is Ok ==> #[trigger] m.mark_definedness(ptr, size, defined)
                == Err::<MemoryModel, EvalError>(EvalError::ModifiedConstantMemory),
{
    assert forall|bytes: Seq<u8>| 0 < bytes.len() implies #[trigger] m.write_bytes(ptr, bytes) == Err::<
        MemoryModel,
        EvalError,
    >(EvalError::ModifiedConstantMemory) by {
        assert(raw_cells(bytes).len() == bytes.len());
    }
    assert forall|v: u64, size: u64| is_int_size(size) implies #[trigger] m.write_uint(ptr, v, size) == Err::<
        MemoryModel,
        EvalError,
    >(EvalError::ModifiedConstantMemory) by {
        lemma_le_bytes_len(v as nat, size as nat);
    }
    assert forall|v: i64, size: u64| is_int_size(size) implies #[trigger] m.write_int(ptr, v, size) == Err::<
        MemoryModel,
        EvalError,
    >(EvalError::ModifiedConstantMemory) by {
        lemma_le_bytes_len(to_unsigned(v as int, size as nat) as u64 as nat, size as nat);
    }
    assert forall|p: Pointer| #[trigger]
        m.write_ptr(ptr, p) == Err::<MemoryModel, EvalError>(EvalError::ModifiedConstantMemory) by {
        lemma_le_bytes_len(p.offset as nat, m.pointer_size() as nat);
    }
    assert forall|val: PrimVal| #[trigger]
        m.write_primval(ptr, val) == Err::<MemoryModel, EvalError>(EvalError::ModifiedConstantMemory) by {
        match val {
            PrimVal::Bool(b) => {},
            PrimVal::I8(n) => {
                assert(m.write_int(ptr, n as i64, 1) is Err);
            },
            PrimVal::I16(n) => {
                assert(m.write_int(ptr, n as i64, 2) is Err);
            },
            PrimVal::I32(n) => {
                assert(m.write_int(ptr, n as i64, 4) is Err);
            },
            PrimVal::I64(n) => {
                assert(m.write_int(ptr, n, 8) is Err);
            },
            PrimVal::U8(n) => {
                assert(m.write_uint(ptr, n as u64, 1) is Err);
            },
            PrimVal::U16(n) => {
                assert(m.write_uint(ptr, n as u64, 2) is Err);
            },
            PrimVal::U32(n) => {
                assert(m.write_uint(ptr, n as u64, 4) is Err);
            },
            PrimVal::U64(n) => {
                assert(m.write_uint(ptr, n, 8) is Err);
            },
            PrimVal::Char(c) => {
                assert(m.write_uint(ptr, c as u64, 4) is Err);
            },
            PrimVal::F32(b) => {
                assert(m.write_uint(ptr, b as u64, 4) is Err);
            },
            PrimVal::F64(b) => {
                assert(m.write_uint(ptr, b, 8) is Err);
            },
            PrimVal::Ptr(p) => {
                assert(m.write_ptr(ptr, p) is Err);
            },
            PrimVal::FnPtr(p) => {
                assert(m.write_ptr(ptr, p) is Err);
            },
        }
    }
}

/// Whether an address can be stored in a word of `size` bytes.
pub open spec fn ptr_fits(p: Pointer, size: u64) -> bool {
    (p.offset as nat) < pow256(size as nat)
}

impl<'a> Env<'a> {
    /// Whether `value` is the shape that a value of the scalar or pointer
    /// type `ty` has: one word of the right kind for a boolean, a
    /// character, an integer, a floating-point number, a function pointer
    /// or a thin pointer; for a fat pointer, an address together with a
    /// dispatch table where it points to a trait object, and with an
    /// element count of pointer width where it points to a slice or a
    /// string. Addresses must fit the pointer size.
    pub open spec fn represents(&self, mem: MemoryModel, value: Value, ty: Ty) -> bool {
        let psize = mem.pointer_size();
        match self.kind(ty) {
            Ok(TyKind::Bool) => value matches Value::ByVal(PrimVal::Bool(_)),
            Ok(TyKind::Char) => value matches Value::ByVal(PrimVal::Char(_)),
            Ok(TyKind::Int(t)) => value matches Value::ByVal(p) && p.spec_int_kind() == Some(
                IntKind::spec_of(spec_int_size(t, psize), true),
            ),
            Ok(TyKind::Uint(t)) => value matches Value::ByVal(p) && p.spec_int_kind() == Some(
                IntKind::spec_of(spec_uint_size(t, psize), false),
            ),
            Ok(TyKind::Float(FloatTy::F32)) => value matches Value::ByVal(PrimVal::F32(_)),
            Ok(TyKind::Float(FloatTy::F64)) => value matches Value::ByVal(PrimVal::F64(_)),
            Ok(TyKind::FnPtr(_)) => value matches Value::ByVal(PrimVal::FnPtr(p)) && ptr_fits(p, psize),
            Ok(TyKind::Box(t)) | Ok(TyKind::Ref(t)) | Ok(TyKind::RawPtr(t)) => if self.type_is_sized(t) {
                value matches Value::ByVal(PrimVal::Ptr(p)) && ptr_fits(p, psize)
            } else {
                &&& value matches Value::ByValPair(PrimVal::Ptr(p), extra)
                &&& ptr_fits(p, psize)
                &&& self.type_layout(ty) == Ok::<Layout, EvalError>(Layout::FatPointer)
                &&& match self.kind(self.program.types.spec_struct_tail(t)) {
                    Ok(TyKind::Trait(_)) => extra matches PrimVal::Ptr(vt) && ptr_fits(vt, psize),
                    Ok(TyKind::Slice(_)) | Ok(TyKind::Str) => extra.spec_int_kind() == Some(
                        IntKind::spec_of(psize, false),
                    ),
                    _ => false,
                }
            },
            _ => false,
        }
    }
}

/// An integer value that was written is read back as an integer of its
/// own kind.
proof fn lemma_write_then_read_integer(m: MemoryModel, ptr: Pointer, p: PrimVal, kind: IntKind)
    requires
        p.spec_int_kind() == Some(kind),
        m.write_primval(ptr, p) is Ok,
    ensures
        Env::read_integer(m.write_primval(ptr, p)->Ok_0, ptr, kind.spec_size(), kind.spec_signed()) == Ok::<
            PrimVal,
            EvalError,
        >(p),
{
    lemma_pow256_values();
    let size = kind.spec_size();
    let v = p.spec_int_value();
    lemma_wrap(kind, v);
    assert(in_range(kind, v));
    assert(IntKind::spec_of(size, kind.spec_signed()) == kind);
    if kind.spec_signed() {
        lemma_write_then_read_int(m, ptr, v as i64, size);
    } else {
        lemma_write_then_read_uint(m, ptr, v as u64, size);
        vstd::arithmetic::div_mod::lemma_small_mod(v as nat, pow256(size as nat));
    }
}

/// Write, then read: a value of a scalar or pointer type that was written
/// at an address is read back, at that address and at that type, as the
/// value that was written, and reading changes nothing.
pub proof fn lemma_write_then_read_value(env: Env, mem: MemoryModel, value: Value, ptr: Pointer, ty: Ty)
    requires
        mem.wf(),
        env.represents(mem, value, ty),
        env.write_value_to_ptr(mem, value, ptr, ty) is Ok,
    ensures
        env.read_value(env.write_value_to_ptr(mem, value, ptr, ty)->Ok_0, ptr, ty) == Ok::<
            (Value, MemoryModel),
            EvalError,
        >((value, env.write_value_to_ptr(mem, value, ptr, ty)->Ok_0)),
{
    reveal(Env::write_value_to_ptr);
    reveal(Env::read_value);
    lemma_pow256_values();
    let m2 = env.write_value_to_ptr(mem, value, ptr, ty)->Ok_0;
    let psize = mem.pointer_size();
    match value {
        Value::ByVal(p) => {
            lemma_primval_keeps_width(mem, ptr, p);
            match p {
                PrimVal::Bool(b) => {
                    lemma_write_then_read_bool(mem, ptr, b);
                },
                PrimVal::Char(c) => {
                    lemma_write_then_read_uint(mem, ptr, c as u64, 4);
                    vstd::arithmetic::div_mod::lemma_small_mod(c as nat, pow256(4));
                    assert(spec_char_from_u32(c as u32) == Some(c));
                },
                PrimVal::F32(b) => {
                    lemma_write_then_read_uint(mem, ptr, b as u64, 4);
                    vstd::arithmetic::div_mod::lemma_small_mod(b as nat, pow256(4));
                },
                PrimVal::F64(b) => {
                    lemma_write_then_read_uint(mem, ptr, b, 8);
                    vstd::arithmetic::div_mod::lemma_small_mod(b as nat, pow256(8));
                },
                PrimVal::Ptr(q) => {
                    lemma_write_then_read_ptr(mem, ptr, q);
                },
                PrimVal::FnPtr(q) => {
                    lemma_write_then_read_ptr(mem, ptr, q);
                },
                _ => {
                    let kind = p.spec_int_kind()->Some_0;
                    lemma_write_then_read_integer(mem, ptr, p, kind);
                },
            }
        },
        Value::ByValPair(a, b) => {
            let q = a->Ptr_0;
            let m1 = mem.write_primval(ptr, a)->Ok_0;
            let second = ptr.spec_offset(psize as i64);
            lemma_primval_keeps_width(mem, ptr, a);
            lemma_primval_keeps_width(m1, second, b);
            lemma_write_then_read_ptr(mem, ptr, q);
            lemma_le_bytes_len(q.offset as nat, psize as nat);
            assert(mem.write_cells(ptr, ptr_cells(q, psize), psize) is Ok);
            assert(ptr.offset + psize <= mem.allocs[ptr.alloc_id.0 as int].cells.len());
            assert(second.offset == ptr.offset + psize);
            lemma_second_word_keeps_first(m1, ptr, second, b);
            match b {
                PrimVal::Ptr(vt) => {
                    lemma_write_then_read_ptr(m1, second, vt);
                },
                _ => {
                    let kind = IntKind::spec_of(psize, false);
                    lemma_write_then_read_integer(m1, second, b, kind);
                    lemma_wrap(kind, b.spec_int_value());
                },
            }
        },
        Value::ByRef(_) => {},
    }
}

/// Writing a primitive value leaves the pointer size as it is.
proof fn lemma_primval_keeps_width(m: MemoryModel, ptr: Pointer, val: PrimVal)
    requires
        m.write_primval(ptr, val) is Ok,
    ensures
        m.write_primval(ptr, val)->Ok_0.pointer_width == m.pointer_width,
{
}

/// Writing the second word of a pair leaves the first word as it is.
proof fn lemma_second_word_keeps_first(m1: MemoryModel, ptr: Pointer, second: Pointer, b: PrimVal)
    requires
        second.alloc_id == ptr.alloc_id,
        second.offset == ptr.offset + m1.pointer_size(),
        m1.write_primval(second, b) is Ok,
    ensures
        m1.write_primval(second, b)->Ok_0.read_ptr(ptr) == m1.read_ptr(ptr),
{
    let psize = m1.pointer_size();
    lemma_pow256_values();
    match b {
        PrimVal::Bool(x) => {
            lemma_write_keeps_other_cells(
                m1,
                second,
                raw_cells(seq![if x { 1u8 } else { 0u8 }]),
                1,
                ptr,
                psize,
                psize,
            );
        },
        PrimVal::I8(n) => {
            lemma_int_keeps(m1, second, n as i64, 1, ptr);
        },
        PrimVal::I16(n) => {
            lemma_int_keeps(m1, second, n as i64, 2, ptr);
        },
        PrimVal::I32(n) => {
            lemma_int_keeps(m1, second, n as i64, 4, ptr);
        },
        PrimVal::I64(n) => {
            lemma_int_keeps(m1, second, n, 8, ptr);
        },
        PrimVal::U8(n) => {
            lemma_uint_keeps(m1, second, n as u64, 1, ptr);
        },
        PrimVal::U16(n) => {
            lemma_uint_keeps(m1, second, n as u64, 2, ptr);
        },
        PrimVal::U32(n) => {
            lemma_uint_keeps(m1, second, n as u64, 4, ptr);
        },
        PrimVal::U64(n) => {
            lemma_uint_keeps(m1, second, n, 8, ptr);
        },
        PrimVal::Char(c) => {
            lemma_uint_keeps(m1, second, c as u64, 4, ptr);
        },
        PrimVal::F32(x) => {
            lemma_uint_keeps(m1, second, x as u64, 4, ptr);
        },
        PrimVal::F64(x) => {
            lemma_uint_keeps(m1, second, x, 8, ptr);
        },
        PrimVal::Ptr(q) => {
            lemma_le_bytes_len(q.offset as nat, psize as nat);
            lemma_write_keeps_other_cells(m1, second, ptr_cells(q, psize), psize, ptr, psize, psize);
        },
        PrimVal::FnPtr(q) => {
            lemma_le_bytes_len(q.offset as nat, psize as nat);
            lemma_write_keeps_other_cells(m1, second, ptr_cells(q, psize), psize, ptr, psize, psize);
        },
    }
}

proof fn lemma_uint_keeps(m1: MemoryModel, second: Pointer, v: u64, size: u64, ptr: Pointer)
    requires
        second.alloc_id == ptr.alloc_id,
        second.offset == ptr.offset + m1.pointer_size(),
        m1.write_uint(second, v, size) is Ok,
    ensures
        m1.write_uint(second, v, size)->Ok_0.read_ptr(ptr) == m1.read_ptr(ptr),
{
    let psize = m1.pointer_size();
    lemma_le_bytes_len(v as nat, size as nat);
    lemma_write_keeps_other_cells(m1, second, raw_cells(le_bytes(v as nat, size as nat)), size, ptr, psize, psize);
}

proof fn lemma_int_keeps(m1: MemoryModel, second: Pointer, v: i64, size: u64, ptr: Pointer)
    requires
        second.alloc_id == ptr.alloc_id,
        second.offset == ptr.offset + m1.pointer_size(),
        m1.write_int(second, v, size) is Ok,
    ensures
        m1.write_int(second, v, size)->Ok_0.read_ptr(ptr) == m1.read_ptr(ptr),
{
    lemma_uint_keeps(m1, second, to_unsigned(v as int, size as nat) as u64, size, ptr);
}

/// Bare places, and only they, can be used as bare addresses: a place is
/// coerced to an address without error exactly when it comes with no extra
/// data, and the address is then the place's own.
pub proof fn lemma_bare_iff_coercible(l: Lvalue)
    ensures
        l.spec_to_ptr() is Ok <==> l.extra is Bare,
        l.extra is Bare ==> l.spec_to_ptr() == Ok::<Pointer, EvalError>(l.ptr),
        Lvalue::spec_from_ptr(l.ptr).spec_to_ptr() == Ok::<Pointer, EvalError>(l.ptr),
{
}

/// Call, then return: when a function is entered and left again, both
/// without error, the stack is as deep as it was; and as long as the frame
/// does not send its caller to another block, the stack is what it was.
pub proof fn lemma_call_return_depth(
    s: State,
    def_id: DefId,
    span: Span,
    mir: CachedMir,
    substs: Substs,
    return_lvalue: Lvalue,
    return_to_block: StackPopCleanup,
)
    requires
        s.push_stack_frame(def_id, span, mir, substs, return_lvalue, return_to_block).0 is Ok,
        s.push_stack_frame(def_id, span, mir, substs, return_lvalue, return_to_block).1.pop_stack_frame().0
            is Ok,
    ensures
        s.push_stack_frame(def_id, span, mir, substs, return_lvalue, return_to_block).1.pop_stack_frame().1.depth()
            == s.depth(),
        !(return_to_block is Goto) ==> s.push_stack_frame(
            def_id,
            span,
            mir,
            substs,
            return_lvalue,
            return_to_block,
        ).1.pop_stack_frame().1.stack == s.stack,
{
    let s1 = s.push_stack_frame(def_id, span, mir, substs, return_lvalue, return_to_block).1;
    let s2 = s1.pop_stack_frame().1;
    assert(s1.stack.drop_last() =~= s.stack);
    if return_to_block is Goto {
        assert(s2.stack.len() == s.stack.len());
    }
}

/// A call of a function with a body, then its return: when the call
/// succeeds and the frame it pushed is left again at once, the stack is as
/// deep as before the call, no frame below was touched, and the caller
/// stands at the start of the block that the call names as its target.
pub proof fn lemma_call_then_return(
    s: State,
    def_id: DefId,
    substs: Substs,
    dest: Option<(Lvalue, crate::mir::BasicBlock)>,
    args: Seq<Operand>,
    span: Span,
)
    requires
        s.depth() > 0,
        s.function_call(def_id, substs, dest, args, span).0 is Ok,
        s.function_call(def_id, substs, dest, args, span).1.pop_stack_frame().0 is Ok,
    ensures
        s.function_call(def_id, substs, dest, args, span).1.depth() == s.depth() + 1,
        s.function_call(def_id, substs, dest, args, span).1.stack.drop_last() == s.stack,
        s.function_call(def_id, substs, dest, args, span).1.pop_stack_frame().1.depth() == s.depth(),
        match dest {
            Some((_, target)) => s.function_call(def_id, substs, dest, args, span).1.pop_stack_frame().1.stack
                == s.goto_block(target).stack,
            None => s.function_call(def_id, substs, dest, args, span).1.pop_stack_frame().1.stack == s.stack,
        },
{
    reveal(State::function_call);
    let (vals, tys, m1) = s.env().eval_args_upto(s.memory, args, args.len())->Ok_0;
    let (loaded, s1) = s.with_memory(m1).load_mir(def_id);
    let mir = loaded->Ok_0;
    let (return_lvalue, cleanup) = match dest {
        Some((lvalue, block)) => (lvalue, StackPopCleanup::Goto(block)),
        None => (Lvalue::spec_from_ptr(Pointer::spec_from_int(0)), StackPopCleanup::Nothing),
    };
    let (pushed, s2) = s1.push_stack_frame(def_id, span, mir, substs, return_lvalue, cleanup);
    assert(s1.stack == s.stack);
    assert(s2.stack.drop_last() =~= s.stack);
    let s3 = s.function_call(def_id, substs, dest, args, span).1;
    assert(s3.stack == s2.stack);
}

/// A step moves the depth of the stack by one frame at most, whether it
/// succeeds or fails, and it never touches a frame below the current one
/// unless it returns into it.
pub proof fn lemma_step_moves_depth_by_one(s: State)
    requires
        s.depth() > 0,
    ensures
        ({
            let s1 = s.step().1;
            &&& s.depth() - 1 <= s1.depth() <= s.depth() + 1
            &&& s1.depth() >= s.depth() ==> s1.stack.subrange(0, s.depth() - 1) == s.stack.drop_last()
            &&& s1.program == s.program
            &&& s1.statics == s.statics
            &&& s1.stack_limit == s.stack_limit
        }),
{
    reveal(State::step);
    reveal(State::statement);
    reveal(State::eval_terminator);
    reveal(State::call);
    reveal(State::intrinsic_call);
    reveal(State::function_call);
    let s1 = s.step().1;
    let frame = s.stack.last();
    let body = frame.mir.spec_deref();
    if frame.block.0 < body.basic_blocks@.len() {
        let basic_block = body.basic_blocks@[frame.block.0 as int];
        if frame.stmt < basic_block.statements@.len() {
            assert(s1.stack.len() == s.stack.len());
            assert(s1.stack.subrange(0, s.depth() - 1) =~= s.stack.drop_last());
        } else {
            match basic_block.terminator.kind {
                crate::mir::TerminatorKind::Return => {},
                crate::mir::TerminatorKind::Call { func, args, destination } => {
                    if s1.stack.len() >= s.stack.len() {
                        assert(s1.stack.subrange(0, s.depth() - 1) =~= s.stack.drop_last());
                    }
                },
                _ => {
                    assert(s1.stack.len() == s.stack.len());
                    assert(s1.stack.subrange(0, s.depth() - 1) =~= s.stack.drop_last());
                },
            }
        }
    } else {
        assert(s1.stack.subrange(0, s.depth() - 1) =~= s.stack.drop_last());
    }
}

/// What is frozen stays as it is: no write, allocation or freezing changes
/// the cells of an allocation that is frozen, and none thaws it.
pub proof fn lemma_frozen_allocations_never_change(m: MemoryModel, id: AllocId)
    requires
        is_frozen(m, id),
    ensures
        forall|ptr: Pointer, cells: Seq<Byte>, align: u64|
            (#[trigger] m.write_cells(ptr, cells, align)) matches Ok(m2) ==> is_frozen(m2, id) && m2.allocs[id.0 as int]
                == m.allocs[id.0 as int],
        forall|src: Pointer, dest: Pointer, size: u64, align: u64|
            (#[trigger] m.copy(src, dest, size, align)) matches Ok(m2) ==> is_frozen(m2, id) && m2.allocs[id.0 as int]
                == m.allocs[id.0 as int],
        forall|ptr: Pointer, size: u64, defined: bool|
            (#[trigger] m.mark_definedness(ptr, size, defined)) matches Ok(m2) ==> is_frozen(m2, id)
                && m2.allocs[id.0 as int] == m.allocs[id.0 as int],
        forall|size: u64, align: u64|
            (#[trigger] m.allocate(size, align)) matches Ok((_, m2)) ==> is_frozen(m2, id) && m2.allocs[id.0 as int]
                == m.allocs[id.0 as int],
        forall|other: AllocId|
            (#[trigger] m.freeze(other)) matches Ok(m2) ==> is_frozen(m2, id) && m2.allocs[id.0 as int]
                == m.allocs[id.0 as int],
        forall|f: crate::memory::FunctionDefinition|
            is_frozen((#[trigger] m.create_fn_ptr(f)).1, id) && m.create_fn_ptr(f).1.allocs[id.0 as int]
                == m.allocs[id.0 as int],
{
}

/// An allocation never takes the memory past its budget, and a refused
/// allocation is one that would.
pub proof fn lemma_allocation_respects_budget(m: MemoryModel, size: u64, align: u64)
    requires
        m.usage <= m.limit,
        size > 0,
    ensures
        m.allocate(size, align) is Ok <==> m.usage + size <= m.limit,
        m.allocate(size, align) matches Ok((p, m2)) ==> m2.usage == m.usage + size && m2.usage <= m2.limit
            && m2.limit == m.limit && p.offset == 0 && m2.allocs.len() == m.allocs.len() + 1,
{
}

/// A constant is frozen once it is computed: when the frame that computes
/// a constant or static is popped without error, the allocation that holds
/// the value is frozen, unless the value has no size.
pub proof fn lemma_constant_is_frozen_when_computed(s: State)
    requires
        s.depth() > 0,
        s.stack.last().return_to_block matches StackPopCleanup::Freeze(id) && id.0 != ZST_ALLOC_ID,
        s.pop_stack_frame().0 is Ok,
    ensures
        s.stack.last().return_to_block matches StackPopCleanup::Freeze(id) && is_frozen(
            s.pop_stack_frame().1.memory,
            id,
        ),
        s.pop_stack_frame().1.depth() == s.depth() - 1,
{
}

/// The frame that computes a constant freezes the storage of the constant:
/// when starting to compute an item pushes a frame, the item's recorded
/// address is the return slot of that frame, and the frame is to freeze the
/// allocation of that address.
pub proof fn lemma_global_item_records_its_frame(s: State, def_id: DefId, substs: Substs, span: Span)
    requires
        s.global_item(def_id, substs, span).1.depth() > s.depth(),
    ensures
        ({
            let s1 = s.global_item(def_id, substs, span).1;
            let id = crate::interpreter::ConstantId {
                def_id,
                substs,
                kind: crate::interpreter::ConstantKind::Global,
            };
            &&& s1.depth() == s.depth() + 1
            &&& s1.statics.len() == s.statics.len() + 1
            &&& s1.statics.last().id == id
            &&& s1.stack.last().locals[0] == Value::ByRef(s1.statics.last().ptr)
            &&& s1.stack.last().return_to_block == StackPopCleanup::Freeze(s1.statics.last().ptr.alloc_id)
        }),
{
    reveal(State::global_item);
}

/// A frame that is one too many is pushed all the same: when entering a
/// function fails because the stack limit is reached, the stack is one
/// frame deeper than the limit.
pub proof fn lemma_stack_limit(
    s: State,
    def_id: DefId,
    span: Span,
    mir: CachedMir,
    substs: Substs,
    return_lvalue: Lvalue,
    return_to_block: StackPopCleanup,
)
    requires
        s.depth() <= s.stack_limit,
        s.env().frame_locals(s.memory, mir.spec_deref(), substs, return_lvalue) is Ok,
    ensures
        ({
            let (r, s1) = s.push_stack_frame(def_id, span, mir, substs, return_lvalue, return_to_block);
            &&& s1.depth() == s.depth() + 1
            &&& r is Ok <==> s.depth() < s.stack_limit
            &&& r is Err ==> r == Err::<(), EvalError>(EvalError::StackFrameLimitReached) && s1.depth()
                == s.stack_limit + 1
        }),
{
}

/// Indexing at the length fails, indexing one below it succeeds: in a
/// sequence of `len` elements of `elem_size` bytes, the index `len` is
/// refused, and the index `len - 1` yields the address of the last element,
/// `(len - 1) * elem_size` bytes after the start.
pub proof fn lemma_index_bounds(base: Lvalue, len: u64, elem_size: u64)
    ensures
        spec_index_place(base, len, elem_size, len) == Err::<Lvalue, EvalError>(
            EvalError::IndexOutOfRange { index: len, length: len },
        ),
        len > 0 ==> spec_index_place(base, len, elem_size, (len - 1) as u64) == Ok::<Lvalue, EvalError>(
            Lvalue { ptr: base.ptr.spec_displace((len - 1) * elem_size), extra: LvalueExtra::Bare },
        ),
        forall|n: u64| spec_index_place(base, len, elem_size, n) is Ok <==> n < len,
{
}

/// The empty variant of a sum type that is stored as its single pointer
/// field is read back as what it was built as: after the variant other
/// than `nndiscr` is built at a place, the discriminant read at that place
/// is that variant's.
pub proof fn lemma_raw_nullable_empty_variant(
    env: Env,
    mem: MemoryModel,
    adt: Ty,
    variant: usize,
    dest: Lvalue,
    dest_ty: Ty,
    nndiscr: u64,
)
    requires
        nndiscr <= 1,
        variant <= 1,
        variant != nndiscr,
        env.type_layout(dest_ty) == Ok::<Layout, EvalError>(Layout::RawNullablePointer { nndiscr }),
        env.aggregate_raw_nullable(mem, AggregateKind::Adt(adt, variant), Seq::empty(), dest, nndiscr) is Ok,
    ensures
        env.read_discriminant_value(
            env.aggregate_raw_nullable(mem, AggregateKind::Adt(adt, variant), Seq::empty(), dest, nndiscr)->Ok_0,
            dest.ptr,
            dest_ty,
        ) == Ok::<u64, EvalError>(variant as u64),
{
    reveal(Env::aggregate_raw_nullable);
    reveal(Env::read_discriminant_value);
    lemma_pow256_values();
    let psize = mem.pointer_size();
    let zero = env.isize_primval(mem, 0);
    let kind = IntKind::spec_of(psize, true);
    lemma_wrap(kind, 0);
    assert(zero == PrimVal::spec_of_int(kind, 0));
    let m2 = mem.write_primval(dest.ptr, zero)->Ok_0;
    assert(mem.write_primval(dest.ptr, zero) == mem.write_int(dest.ptr, 0, psize));
    assert(to_unsigned(0, psize as nat) == 0);
    lemma_write_then_read_uint(mem, dest.ptr, 0, psize);
}

/// The variant with data of a sum type that is stored as its single
/// pointer field is read back as what it was built as, provided that the
/// field it was built from is not zero: after variant `nndiscr` is built at
/// a place from a field of pointer size that, read as a discriminant, says
/// `nndiscr`, the discriminant read at the place is `nndiscr`.
pub proof fn lemma_raw_nullable_data_variant(
    env: Env,
    mem: MemoryModel,
    adt: Ty,
    operand: Operand,
    dest: Lvalue,
    dest_ty: Ty,
    nndiscr: u64,
)
    requires
        mem.wf(),
        nndiscr <= 1,
        env.type_layout(dest_ty) == Ok::<Layout, EvalError>(Layout::RawNullablePointer { nndiscr }),
        ({
            &&& env.eval_operand(mem, &operand) matches Ok((Value::ByRef(src), m1))
            &&& spec_nonnull_discriminant(m1.read_usize(src), nndiscr) == Ok::<u64, EvalError>(nndiscr)
            &&& m1.read_cells(src, m1.pointer_size(), m1.pointer_size()) is Ok
            &&& env.operand_ty(&operand) matches Ok(ty)
            &&& env.type_size(ty) == Ok::<u64, EvalError>(m1.pointer_size())
            &&& env.type_align(ty) == Ok::<u64, EvalError>(m1.pointer_size())
        }),
        env.aggregate_raw_nullable(
            mem,
            AggregateKind::Adt(adt, nndiscr as usize),
            seq![operand],
            dest,
            nndiscr,
        ) is Ok,
    ensures
        env.read_discriminant_value(
            env.aggregate_raw_nullable(
                mem,
                AggregateKind::Adt(adt, nndiscr as usize),
                seq![operand],
                dest,
                nndiscr,
            )->Ok_0,
            dest.ptr,
            dest_ty,
        ) == Ok::<u64, EvalError>(nndiscr),
{
    let operands = seq![operand];
    assert(operands[0] == operand);
    let (value, m1) = env.eval_operand(mem, &operand)->Ok_0;
    let src = value->ByRef_0;
    let psize = m1.pointer_size();
    let ty = env.operand_ty(&operand)->Ok_0;
    let built = env.aggregate_raw_nullable(mem, AggregateKind::Adt(adt, nndiscr as usize), operands, dest, nndiscr);
    assert(built == env.write_value(m1, value, dest, ty)) by {
        reveal(Env::aggregate_raw_nullable);
    }
    assert(built == m1.copy(src, dest.ptr, psize, psize)) by {
        reveal(Env::write_value_to_ptr);
    }
    lemma_copied_word_reads_alike(m1, src, dest.ptr);
    reveal(Env::read_discriminant_value);
}

/// A word that was copied reads at its new place as it read at its old one.
proof fn lemma_copied_word_reads_alike(m1: MemoryModel, src: Pointer, dest: Pointer)
    requires
        m1.read_cells(src, m1.pointer_size(), m1.pointer_size()) is Ok,
        m1.copy(src, dest, m1.pointer_size(), m1.pointer_size()) is Ok,
    ensures
        m1.copy(src, dest, m1.pointer_size(), m1.pointer_size())->Ok_0.read_usize(dest) == m1.read_usize(src),
        m1.copy(src, dest, m1.pointer_size(), m1.pointer_size())->Ok_0.pointer_width == m1.pointer_width,
{
    let psize = m1.pointer_size();
    let cells = m1.read_cells(src, psize, psize)->Ok_0;
    lemma_write_then_read_cells(m1, dest, cells, psize);
}

/// The empty variant of a sum type whose other variant is a record with a
/// field that is never zero is read back as what it was built as.
pub proof fn lemma_struct_wrapped_empty_variant(
    env: Env,
    mem: MemoryModel,
    adt: Ty,
    variant: usize,
    dest: Lvalue,
    dest_ty: Ty,
    nndiscr: u64,
    nonnull: crate::ty::Struct,
    discrfield: Seq<u32>,
)
    requires
        nndiscr <= 1,
        variant <= 1,
        variant != nndiscr,
        env.type_layout(dest_ty) matches Ok(
            Layout::StructWrappedNullablePointer { nndiscr: n, nonnull: s, discrfield: d },
        ) && n == nndiscr && s == nonnull && d@ == discrfield,
        env.aggregate_struct_wrapped(
            mem,
            AggregateKind::Adt(adt, variant),
            Seq::empty(),
            dest,
            dest_ty,
            nndiscr,
            nonnull,
            discrfield,
        ) is Ok,
    ensures
        env.read_discriminant_value(
            env.aggregate_struct_wrapped(
                mem,
                AggregateKind::Adt(adt, variant),
                Seq::empty(),
                dest,
                dest_ty,
                nndiscr,
                nonnull,
                discrfield,
            )->Ok_0,
            dest.ptr,
            dest_ty,
        ) == Ok::<u64, EvalError>(variant as u64),
{
    reveal(Env::aggregate_struct_wrapped);
    reveal(Env::read_discriminant_value);
    lemma_pow256_values();
    let psize = mem.pointer_size();
    let offset = env.nonnull_offset(dest_ty, nndiscr, discrfield)->Ok_0;
    let field = dest.ptr.spec_displace(offset as int);
    assert(to_unsigned(0, psize as nat) == 0);
    lemma_write_then_read_uint(mem, field, 0, psize);
}

/// The variant with data of such a sum type is read back as what it was
/// built as, provided that after it is built the field that is never zero
/// is indeed not zero.
pub proof fn lemma_struct_wrapped_data_variant(env: Env, m2: MemoryModel, dest: Lvalue, dest_ty: Ty)
    requires
        env.type_layout(dest_ty) matches Ok(Layout::StructWrappedNullablePointer { nndiscr, discrfield, .. })
            && env.nonnull_offset(dest_ty, nndiscr, discrfield@) matches Ok(offset)
            && spec_nonnull_discriminant(m2.read_usize(dest.ptr.spec_displace(offset as int)), nndiscr) == Ok::<
            u64,
            EvalError,
        >(nndiscr),
    ensures
        env.type_layout(dest_ty) matches Ok(Layout::StructWrappedNullablePointer { nndiscr, .. })
            && env.read_discriminant_value(m2, dest.ptr, dest_ty) == Ok::<u64, EvalError>(nndiscr),
{
    reveal(Env::read_discriminant_value);
}

/// Cells that were copied are read at their new place as they were read at
/// their old one.
pub proof fn lemma_copy_then_read_cells(m: MemoryModel, src: Pointer, dest: Pointer, size: u64, align: u64)
    requires
        size > 0,
        m.copy(src, dest, size, align) is Ok,
    ensures
        m.copy(src, dest, size, align)->Ok_0.read_cells(dest, size, align) == m.read_cells(src, size, align),
        m.copy(src, dest, size, align)->Ok_0.pointer_width == m.pointer_width,
{
    let cells = m.read_cells(src, size, align)->Ok_0;
    lemma_write_then_read_cells(m, dest, cells, align);
}

/// Part of a range that can be read can be read by itself, at any
/// alignment that its address has.
proof fn lemma_read_part(m: MemoryModel, p: Pointer, total: u64, align: u64, k: u64, len: u64, part_align: u64)
    requires
        m.wf(),
        m.read_cells(p, total, align) is Ok,
        len > 0,
        k + len <= total,
        part_align <= 1 || (part_align == align && k % part_align == 0),
    ensures
        m.read_cells(Pointer { alloc_id: p.alloc_id, offset: (p.offset + k) as u64 }, len, part_align) == Ok::<
            Seq<Byte>,
            EvalError,
        >(m.read_cells(p, total, align)->Ok_0.subrange(k as int, k + len)),
{
    let a = m.allocs[p.alloc_id.0 as int];
    let q = Pointer { alloc_id: p.alloc_id, offset: (p.offset + k) as u64 };
    assert(a.cells.len() <= u64::MAX);
    assert(a.cells.subrange(q.offset as int, q.offset + len) =~= a.cells.subrange(
        p.offset as int,
        p.offset + total,
    ).subrange(k as int, k + len));
    if part_align > 1 {
        assert(p.offset % part_align == 0);
        vstd::arithmetic::div_mod::lemma_add_mod_noop(p.offset as int, k as int, part_align as int);
        vstd::arithmetic::div_mod::lemma_small_mod(0, part_align as nat);
    }
}

/// Copy, then read: after a value of a scalar or pointer type is copied
/// from one address to another, reading at the new address gives what
/// reading at the old address gave before. The type must be as large and as
/// aligned as its representation: a scalar as wide as its kind says, a fat
/// pointer two pointers wide and aligned like one.
pub proof fn lemma_copy_then_read_value(env: Env, mem: MemoryModel, src: Pointer, dest: Pointer, ty: Ty)
    requires
        mem.wf(),
        env.kind(ty) matches Ok(kind) && match kind {
            TyKind::Bool => env.type_size(ty) == Ok::<u64, EvalError>(1) && env.type_align(ty) == Ok::<
                u64,
                EvalError,
            >(1),
            TyKind::Char | TyKind::Float(FloatTy::F32) => env.type_size(ty) == Ok::<u64, EvalError>(4)
                && env.type_align(ty) == Ok::<u64, EvalError>(4),
            TyKind::Float(FloatTy::F64) => env.type_size(ty) == Ok::<u64, EvalError>(8) && env.type_align(ty)
                == Ok::<u64, EvalError>(8),
            TyKind::Int(t) => env.type_size(ty) == Ok::<u64, EvalError>(spec_int_size(t, mem.pointer_size()))
                && env.type_align(ty) == Ok::<u64, EvalError>(spec_int_size(t, mem.pointer_size())),
            TyKind::Uint(t) => env.type_size(ty) == Ok::<u64, EvalError>(spec_uint_size(t, mem.pointer_size()))
                && env.type_align(ty) == Ok::<u64, EvalError>(spec_uint_size(t, mem.pointer_size())),
            TyKind::FnPtr(_) => env.type_size(ty) == Ok::<u64, EvalError>(mem.pointer_size())
                && env.type_align(ty) == Ok::<u64, EvalError>(mem.pointer_size()),
            TyKind::Box(t) | TyKind::Ref(t) | TyKind::RawPtr(t) => env.type_align(ty) == Ok::<u64, EvalError>(
                mem.pointer_size(),
            ) && env.type_size(ty) == Ok::<u64, EvalError>(
                if env.type_is_sized(t) {
                    mem.pointer_size()
                } else {
                    (2 * mem.pointer_size()) as u64
                },
            ),
            _ => false,
        },
        env.write_value_to_ptr(mem, Value::ByRef(src), dest, ty) is Ok,
    ensures
        match env.read_value(mem, src, ty) {
            Ok((v, _)) => env.read_value(env.write_value_to_ptr(mem, Value::ByRef(src), dest, ty)->Ok_0, dest, ty)
                == Ok::<(Value, MemoryModel), EvalError>(
                (v, env.write_value_to_ptr(mem, Value::ByRef(src), dest, ty)->Ok_0),
            ),
            Err(e) => env.read_value(env.write_value_to_ptr(mem, Value::ByRef(src), dest, ty)->Ok_0, dest, ty)
                == Err::<(Value, MemoryModel), EvalError>(e),
        },
{
    reveal(Env::write_value_to_ptr);
    reveal(Env::read_value);
    lemma_pow256_values();
    let size = env.type_size(ty)->Ok_0;
    let align = env.type_align(ty)->Ok_0;
    let m2 = mem.copy(src, dest, size, align)->Ok_0;
    let psize = mem.pointer_size();
    lemma_copy_then_read_cells(mem, src, dest, size, align);
    match env.kind(ty)->Ok_0 {
        TyKind::Box(t) | TyKind::Ref(t) | TyKind::RawPtr(t) => {
            if !env.type_is_sized(t) {
                lemma_read_part(mem, src, size, align, 0, psize, psize);
                lemma_read_part(mem, src, size, align, psize, psize, psize);
                lemma_read_part(m2, dest, size, align, 0, psize, psize);
                lemma_read_part(m2, dest, size, align, psize, psize, psize);
                assert(src.offset + size <= mem.allocs[src.alloc_id.0 as int].cells.len());
                assert(dest.offset + size <= m2.allocs[dest.alloc_id.0 as int].cells.len());
                assert(src.spec_offset(psize as i64) == Pointer {
                    alloc_id: src.alloc_id,
                    offset: (src.offset + psize) as u64,
                });
                assert(dest.spec_offset(psize as i64) == Pointer {
                    alloc_id: dest.alloc_id,
                    offset: (dest.offset + psize) as u64,
                });
                assert(Pointer { alloc_id: src.alloc_id, offset: (src.offset + 0) as u64 } == src);
                assert(Pointer { alloc_id: dest.alloc_id, offset: (dest.offset + 0) as u64 } == dest);
            }
        },
        _ => {},
    }
}

} // verus!
