//! Places and values: resolving a place expression to an address, and the
//! rules by which a value of a given type is read from and written to
//! memory.
use vstd::prelude::*;
use crate::error::EvalError;
use crate::interpreter::value::Value;
use crate::interpreter::{evaluates, ConstantId, ConstantKind, Env, EvalContext, Lvalue, LvalueExtra};
use crate::memory::{MemoryModel, Pointer};
use crate::mir::{Literal, Operand, Projection, ProjectionElem};
use crate::primval::{char_from_u32, spec_char_from_u32, PrimVal};
use crate::ty::{FloatTy, IntTy, Layout, Struct, Substs, Ty, TyKind, UintTy};

verus! {

/// What an operation of the interpreter that returns nothing and only
/// touches memory must do: succeed exactly when `expected` does, leave on
/// success the memory it says, and leave everything but the memory alone.
pub open spec fn performs(
    pre: &EvalContext,
    expected: Result<MemoryModel, EvalError>,
    r: Result<(), EvalError>,
    post: &EvalContext,
) -> bool {
    &&& post.same_frames(pre)
    &&& match expected {
        Ok(m) => r == Ok::<(), EvalError>(()) && post.memory@ == m,
        Err(e) => r == Err::<(), EvalError>(e),
    }
}

/// The offset of field `field` in a record layout.
pub open spec fn spec_field_offset(s: Struct, field: int) -> Result<u64, EvalError> {
    if 0 <= field < s.offsets@.len() {
        Ok(s.offsets@[field])
    } else {
        Err(EvalError::Malformed)
    }
}

/// Computes [`spec_field_offset`].
pub fn field_offset(s: &Struct, field: usize) -> (r: Result<u64, EvalError>)
    ensures
        r == spec_field_offset(*s, field as int),
{
    if field < s.offsets.len() {
        Ok(s.offsets[field])
    } else {
        Err(EvalError::Malformed)
    }
}

/// The place of element `n` of a sequence of `len` elements of `elem_size`
/// bytes that starts at `base`. The index must be below the length.
pub open spec fn spec_index_place(
    base: Lvalue,
    len: u64,
    elem_size: u64,
    n: u64,
) -> Result<Lvalue, EvalError> {
    if n < len {
        Ok(Lvalue { ptr: base.ptr.spec_displace(n * elem_size), extra: LvalueExtra::Bare })
    } else {
        Err(EvalError::IndexOutOfRange { index: n, length: len })
    }
}

/// Computes [`spec_index_place`].
pub fn index_place(base: Lvalue, len: u64, elem_size: u64, n: u64) -> (r: Result<Lvalue, EvalError>)
    ensures
        r == spec_index_place(base, len, elem_size, n),
        r is Ok <==> n < len,
{
    if n < len {
        Ok(Lvalue { ptr: base.ptr.scaled(n as i128, elem_size), extra: LvalueExtra::Bare })
    } else {
        Err(EvalError::IndexOutOfRange { index: n, length: len })
    }
}

/// The place of the element at a fixed distance from the start, or from
/// the end, of a sequence of `len` elements. The sequence must have at least
/// `min_length` elements.
pub open spec fn spec_constant_index_place(
    base: Lvalue,
    len: u64,
    elem_size: u64,
    offset: u32,
    min_length: u32,
    from_end: bool,
) -> Result<Lvalue, EvalError> {
    if len < min_length {
        Err(EvalError::IndexOutOfRange { index: min_length as u64, length: len })
    } else {
        let index: int = if from_end {
            len - offset
        } else {
            offset as int
        };
        Ok(Lvalue { ptr: base.ptr.spec_displace(index * elem_size), extra: LvalueExtra::Bare })
    }
}

/// Computes [`spec_constant_index_place`].
pub fn constant_index_place(
    base: Lvalue,
    len: u64,
    elem_size: u64,
    offset: u32,
    min_length: u32,
    from_end: bool,
) -> (r: Result<Lvalue, EvalError>)
    ensures
        r == spec_constant_index_place(base, len, elem_size, offset, min_length, from_end),
{
    if len < min_length as u64 {
        Err(EvalError::IndexOutOfRange { index: min_length as u64, length: len })
    } else {
        let index: i128 = if from_end {
            len as i128 - offset as i128
        } else {
            offset as i128
        };
        Ok(Lvalue { ptr: base.ptr.scaled(index, elem_size), extra: LvalueExtra::Bare })
    }
}

/// The place of the elements from `from` up to `to` before the end of a
/// sequence of `len` elements: a slice of `len - to - from` elements.
pub open spec fn spec_subslice_place(
    base: Lvalue,
    len: u64,
    elem_size: u64,
    from: u32,
    to: u32,
) -> Result<Lvalue, EvalError> {
    if from + to > len {
        Err(EvalError::IndexOutOfRange { index: from as u64, length: len })
    } else {
        Ok(
            Lvalue {
                ptr: base.ptr.spec_displace(from * elem_size),
                extra: LvalueExtra::Length((len - to - from) as u64),
            },
        )
    }
}

/// Computes [`spec_subslice_place`].
pub fn subslice_place(
    base: Lvalue,
    len: u64,
    elem_size: u64,
    from: u32,
    to: u32,
) -> (r: Result<Lvalue, EvalError>)
    ensures
        r == spec_subslice_place(base, len, elem_size, from, to),
{
    if from as u64 + to as u64 > len {
        Err(EvalError::IndexOutOfRange { index: from as u64, length: len })
    } else {
        Ok(
            Lvalue {
                ptr: base.ptr.scaled(from as i128, elem_size),
                extra: LvalueExtra::Length(len - to as u64 - from as u64),
            },
        )
    }
}

/// The place that a pointer value leads to: a thin pointer gives a bare
/// place, a fat pointer a place with a dispatch table or with a length.
pub open spec fn spec_deref_place(val: Value) -> Result<Lvalue, EvalError> {
    match val {
        Value::ByValPair(PrimVal::Ptr(p), PrimVal::Ptr(vptr)) => Ok(Lvalue { ptr: p, extra: LvalueExtra::Vtable(vptr) }),
        Value::ByValPair(PrimVal::Ptr(p), n) => match n.spec_expect_uint() {
            Ok(len) => Ok(Lvalue { ptr: p, extra: LvalueExtra::Length(len) }),
            Err(e) => Err(e),
        },
        Value::ByVal(PrimVal::Ptr(p)) => Ok(Lvalue { ptr: p, extra: LvalueExtra::Bare }),
        _ => Err(EvalError::Malformed),
    }
}

/// Computes [`spec_deref_place`].
pub fn deref_place(val: Value) -> (r: Result<Lvalue, EvalError>)
    ensures
        r == spec_deref_place(val),
{
    match val {
        Value::ByValPair(PrimVal::Ptr(p), PrimVal::Ptr(vptr)) => Ok(Lvalue { ptr: p, extra: LvalueExtra::Vtable(vptr) }),
        Value::ByValPair(PrimVal::Ptr(p), n) => {
            let len = n.expect_uint()?;
            Ok(Lvalue { ptr: p, extra: LvalueExtra::Length(len) })
        },
        Value::ByVal(PrimVal::Ptr(p)) => Ok(Lvalue { ptr: p, extra: LvalueExtra::Bare }),
        _ => Err(EvalError::Malformed),
    }
}

/// The place of a sum type seen as one of its variants. With a discriminant
/// column the place remembers the variant; where the representation itself
/// tells the variant, the place stays as it is.
pub open spec fn spec_downcast_place(
    base: Lvalue,
    layout: Layout,
    variant: usize,
) -> Result<Lvalue, EvalError> {
    match layout {
        Layout::General { .. } => Ok(Lvalue { ptr: base.ptr, extra: LvalueExtra::DowncastVariant(variant) }),
        Layout::RawNullablePointer { .. } => Ok(base),
        Layout::StructWrappedNullablePointer { .. } => Ok(base),
        _ => Err(EvalError::Malformed),
    }
}

/// Computes [`spec_downcast_place`].
pub fn downcast_place(base: Lvalue, layout: &Layout, variant: usize) -> (r: Result<Lvalue, EvalError>)
    ensures
        r == spec_downcast_place(base, *layout, variant),
{
    match layout {
        Layout::General { .. } => Ok(Lvalue { ptr: base.ptr, extra: LvalueExtra::DowncastVariant(variant) }),
        Layout::RawNullablePointer { .. } => Ok(base),
        Layout::StructWrappedNullablePointer { .. } => Ok(base),
        _ => Err(EvalError::Malformed),
    }
}

/// The place of field `field` of a place with the given layout. `None` as
/// offset means that the field is the whole representation. `sized` says
/// whether the field's type is sized: an unsized field keeps the extra data
/// of the place it lies in, which must be a length or a dispatch table.
pub open spec fn spec_field_place(
    base: Lvalue,
    layout: Layout,
    field: usize,
    sized: bool,
) -> Result<Lvalue, EvalError> {
    let offset: Result<Option<u64>, EvalError> = match layout {
        Layout::Univariant(variant) => match spec_field_offset(variant, field as int) {
            Ok(o) => Ok(Some(o)),
            Err(e) => Err(e),
        },
        Layout::General { variants, .. } => match base.extra {
            LvalueExtra::DowncastVariant(idx) => if idx < variants@.len() {
                match spec_field_offset(variants@[idx as int], field + 1) {
                    Ok(o) => Ok(Some(o)),
                    Err(e) => Err(e),
                }
            } else {
                Err(EvalError::Malformed)
            },
            LvalueExtra::Bare | LvalueExtra::Length(_) | LvalueExtra::Vtable(_) => Err(EvalError::Malformed),
        },
        Layout::RawNullablePointer { .. } => if field == 0 {
            Ok(None)
        } else {
            Err(EvalError::Malformed)
        },
        Layout::StructWrappedNullablePointer { nonnull, .. } => match spec_field_offset(nonnull, field as int) {
            Ok(o) => Ok(Some(o)),
            Err(e) => Err(e),
        },
        _ => Err(EvalError::Malformed),
    };
    match offset {
        Err(e) => Err(e),
        Ok(None) => Ok(base),
        Ok(Some(o)) => {
            let ptr = base.ptr.spec_displace(o as int);
            if sized {
                Ok(Lvalue { ptr, extra: LvalueExtra::Bare })
            } else {
                match base.extra {
                    LvalueExtra::Vtable(_) | LvalueExtra::Length(_) => Ok(Lvalue { ptr, extra: base.extra }),
                    LvalueExtra::Bare | LvalueExtra::DowncastVariant(_) => Err(EvalError::Malformed),
                }
            }
        },
    }
}

/// Computes [`spec_field_place`].
pub fn field_place(base: Lvalue, layout: &Layout, field: usize, sized: bool) -> (r: Result<Lvalue, EvalError>)
    ensures
        r == spec_field_place(base, *layout, field, sized),
{
    let offset: Option<u64> = match layout {
        Layout::Univariant(variant) => Some(field_offset(variant, field)?),
        Layout::General { variants, .. } => match base.extra {
            LvalueExtra::DowncastVariant(idx) => {
                if idx < variants.len() {
                    if field >= variants[idx].offsets.len() {
                        return Err(EvalError::Malformed);
                    }
                    Some(field_offset(&variants[idx], field + 1)?)
                } else {
                    return Err(EvalError::Malformed);
                }
            },
            LvalueExtra::Bare | LvalueExtra::Length(_) | LvalueExtra::Vtable(_) => {
                return Err(EvalError::Malformed);
            },
        },
        Layout::RawNullablePointer { .. } => {
            if field == 0 {
                None
            } else {
                return Err(EvalError::Malformed);
            }
        },
        Layout::StructWrappedNullablePointer { nonnull, .. } => Some(field_offset(nonnull, field)?),
        _ => {
            return Err(EvalError::Malformed);
        },
    };
    match offset {
        None => Ok(base),
        Some(o) => {
            let ptr = base.ptr.offset_by(o);
            if sized {
                Ok(Lvalue { ptr, extra: LvalueExtra::Bare })
            } else {
                match base.extra {
                    LvalueExtra::Vtable(_) | LvalueExtra::Length(_) => Ok(Lvalue { ptr, extra: base.extra }),
                    LvalueExtra::Bare | LvalueExtra::DowncastVariant(_) => Err(EvalError::Malformed),
                }
            }
        },
    }
}

/// The width of a signed integer type on a machine with the given pointer
/// size.
pub open spec fn spec_int_size(t: IntTy, pointer_size: u64) -> u64 {
    match t {
        IntTy::I8 => 1,
        IntTy::I16 => 2,
        IntTy::I32 => 4,
        IntTy::I64 => 8,
        IntTy::Is => pointer_size,
    }
}

/// The width of an unsigned integer type.
pub open spec fn spec_uint_size(t: UintTy, pointer_size: u64) -> u64 {
    match t {
        UintTy::U8 => 1,
        UintTy::U16 => 2,
        UintTy::U32 => 4,
        UintTy::U64 => 8,
        UintTy::Us => pointer_size,
    }
}

impl<'a> Env<'a> {
    /// Copies one value of type `ty`.
    pub open spec fn copy(
        &self,
        mem: MemoryModel,
        src: Pointer,
        dest: Pointer,
        ty: Ty,
    ) -> Result<MemoryModel, EvalError> {
        match self.type_size(ty) {
            Err(e) => Err(e),
            Ok(size) => match self.type_align(ty) {
                Err(e) => Err(e),
                Ok(align) => mem.copy(src, dest, size, align),
            },
        }
    }

    /// Writes a value of type `dest_ty` at `dest`. A value by reference is
    /// copied; one word is stored as it is; of a pair the first word goes to
    /// `dest` and the second one pointer further on, which only a fat
    /// pointer type allows.
    #[verifier::opaque]
    pub open spec fn write_value_to_ptr(
        &self,
        mem: MemoryModel,
        value: Value,
        dest: Pointer,
        dest_ty: Ty,
    ) -> Result<MemoryModel, EvalError> {
        match value {
            Value::ByRef(ptr) => self.copy(mem, ptr, dest, dest_ty),
            Value::ByVal(primval) => mem.write_primval(dest, primval),
            Value::ByValPair(a, b) => match mem.write_primval(dest, a) {
                Err(e) => Err(e),
                Ok(m1) => match self.type_layout(dest_ty) {
                    Err(e) => Err(e),
                    Ok(Layout::FatPointer) => m1.write_primval(dest.spec_offset(m1.pointer_size() as i64), b),
                    Ok(_) => Err(EvalError::Malformed),
                },
            },
        }
    }

    /// Writes a value of type `dest_ty` to a place.
    pub open spec fn write_value(
        &self,
        mem: MemoryModel,
        value: Value,
        dest: Lvalue,
        dest_ty: Ty,
    ) -> Result<MemoryModel, EvalError> {
        match dest.spec_to_ptr() {
            Err(e) => Err(e),
            Ok(p) => self.write_value_to_ptr(mem, value, p, dest_ty),
        }
    }

    /// Writes one word to a place.
    pub open spec fn write_primval(
        &self,
        mem: MemoryModel,
        dest: Lvalue,
        val: PrimVal,
    ) -> Result<MemoryModel, EvalError> {
        match dest.spec_to_ptr() {
            Err(e) => Err(e),
            Ok(p) => mem.write_primval(p, val),
        }
    }

    /// The second word of a fat pointer to a value of type `pointee`, read
    /// at `extra`: a dispatch table for a trait object, an element count for
    /// a slice or a string.
    pub open spec fn read_fat_extra(
        &self,
        mem: MemoryModel,
        extra: Pointer,
        pointee: Ty,
    ) -> Result<PrimVal, EvalError> {
        match self.kind(self.program.types.spec_struct_tail(pointee)) {
            Err(e) => Err(e),
            Ok(TyKind::Trait(_)) => match mem.read_ptr(extra) {
                Err(e) => Err(e),
                Ok(p) => Ok(PrimVal::Ptr(p)),
            },
            Ok(TyKind::Slice(_)) | Ok(TyKind::Str) => match mem.read_usize(extra) {
                Err(e) => Err(e),
                Ok(n) => Ok(self.usize_primval(mem, n)),
            },
            Ok(_) => Err(EvalError::Malformed),
        }
    }

    /// Reads a signed or unsigned integer of `size` bytes as a value.
    pub open spec fn read_integer(
        mem: MemoryModel,
        ptr: Pointer,
        size: u64,
        signed: bool,
    ) -> Result<PrimVal, EvalError> {
        if signed {
            match mem.read_int(ptr, size) {
                Err(e) => Err(e),
                Ok(n) => Ok(PrimVal::spec_int_with_size(n, size)),
            }
        } else {
            match mem.read_uint(ptr, size) {
                Err(e) => Err(e),
                Ok(n) => Ok(PrimVal::spec_uint_with_size(n, size)),
            }
        }
    }

    /// Reads the value of type `ty` at `ptr`. Only primitive types, pointers
    /// and sum types without data have a value that can be read. Reading at
    /// the type of a function item yields that function's address, which
    /// may have to be allocated.
    #[verifier::opaque]
    pub open spec fn read_value(
        &self,
        mem: MemoryModel,
        ptr: Pointer,
        ty: Ty,
    ) -> Result<(Value, MemoryModel), EvalError> {
        match self.kind(ty) {
            Err(e) => Err(e),
            Ok(TyKind::Bool) => match mem.read_bool(ptr) {
                Err(e) => Err(e),
                Ok(b) => Ok((Value::ByVal(PrimVal::Bool(b)), mem)),
            },
            Ok(TyKind::Char) => match mem.read_uint(ptr, 4) {
                Err(e) => Err(e),
                Ok(c) => match spec_char_from_u32(c as u32) {
                    Some(ch) => Ok((Value::ByVal(PrimVal::Char(ch)), mem)),
                    None => Err(EvalError::InvalidChar(c)),
                },
            },
            Ok(TyKind::Int(t)) => match Self::read_integer(mem, ptr, spec_int_size(t, mem.pointer_size()), true) {
                Err(e) => Err(e),
                Ok(v) => Ok((Value::ByVal(v), mem)),
            },
            Ok(TyKind::Uint(t)) => match Self::read_integer(
                mem,
                ptr,
                spec_uint_size(t, mem.pointer_size()),
                false,
            ) {
                Err(e) => Err(e),
                Ok(v) => Ok((Value::ByVal(v), mem)),
            },
            Ok(TyKind::Float(FloatTy::F32)) => match mem.read_uint(ptr, 4) {
                Err(e) => Err(e),
                Ok(b) => Ok((Value::ByVal(PrimVal::F32(b as u32)), mem)),
            },
            Ok(TyKind::Float(FloatTy::F64)) => match mem.read_uint(ptr, 8) {
                Err(e) => Err(e),
                Ok(b) => Ok((Value::ByVal(PrimVal::F64(b)), mem)),
            },
            Ok(TyKind::FnDef(def_id, substs, fn_ty)) => {
                let (p, m) = mem.create_fn_ptr(crate::memory::FunctionDefinition { def_id, substs, fn_ty });
                Ok((Value::ByVal(PrimVal::FnPtr(p)), m))
            },
            Ok(TyKind::FnPtr(_)) => match mem.read_ptr(ptr) {
                Err(e) => Err(e),
                Ok(p) => Ok((Value::ByVal(PrimVal::FnPtr(p)), mem)),
            },
            Ok(TyKind::Box(t)) | Ok(TyKind::Ref(t)) | Ok(TyKind::RawPtr(t)) => match mem.read_ptr(ptr) {
                Err(e) => Err(e),
                Ok(p) => if self.type_is_sized(t) {
                    Ok((Value::ByVal(PrimVal::Ptr(p)), mem))
                } else {
                    match self.read_fat_extra(mem, ptr.spec_offset(mem.pointer_size() as i64), t) {
                        Err(e) => Err(e),
                        Ok(extra) => Ok((Value::ByValPair(PrimVal::Ptr(p), extra), mem)),
                    }
                },
            },
            Ok(TyKind::Adt(_, _)) => match self.type_layout(ty) {
                Err(e) => Err(e),
                Ok(Layout::CEnum { discr, signed }) => match Self::read_integer(mem, ptr, discr.spec_size(), signed) {
                    Err(e) => Err(e),
                    Ok(v) => Ok((Value::ByVal(v), mem)),
                },
                Ok(_) => Err(EvalError::Malformed),
            },
            Ok(_) => Err(EvalError::Malformed),
        }
    }

    /// The single word that a value of type `ty` is.
    pub open spec fn value_to_primval(
        &self,
        mem: MemoryModel,
        value: Value,
        ty: Ty,
    ) -> Result<(PrimVal, MemoryModel), EvalError> {
        match value {
            Value::ByRef(ptr) => match self.read_value(mem, ptr, ty) {
                Err(e) => Err(e),
                Ok((Value::ByVal(p), m)) => Ok((p, m)),
                Ok(_) => Err(EvalError::Malformed),
            },
            Value::ByVal(p) => Ok((p, mem)),
            Value::ByValPair(_, _) => Err(EvalError::Malformed),
        }
    }

    /// An address at which the value lies: its own for a value by
    /// reference, fresh storage that the value is written to otherwise.
    #[verifier::opaque]
    pub open spec fn value_to_ptr(
        &self,
        mem: MemoryModel,
        value: Value,
        ty: Ty,
    ) -> Result<(Pointer, MemoryModel), EvalError> {
        match value {
            Value::ByRef(ptr) => Ok((ptr, mem)),
            Value::ByVal(p) => match self.alloc_ptr(mem, ty, self.substs) {
                Err(e) => Err(e),
                Ok((ptr, m1)) => match m1.write_primval(ptr, p) {
                    Err(e) => Err(e),
                    Ok(m2) => Ok((ptr, m2)),
                },
            },
            Value::ByValPair(a, b) => match self.alloc_ptr(mem, ty, self.substs) {
                Err(e) => Err(e),
                Ok((ptr, m1)) => match m1.write_primval(ptr, a) {
                    Err(e) => Err(e),
                    Ok(m2) => match m2.write_primval(ptr.spec_offset(m2.pointer_size() as i64), b) {
                        Err(e) => Err(e),
                        Ok(m3) => Ok((ptr, m3)),
                    },
                },
            },
        }
    }

    /// The address of a local: every local lives in memory.
    pub open spec fn local_ptr(&self, i: usize) -> Result<Pointer, EvalError> {
        if i < self.locals.len() {
            match self.locals[i as int] {
                Value::ByRef(p) => Ok(p),
                _ => Err(EvalError::Malformed),
            }
        } else {
            Err(EvalError::Malformed)
        }
    }

    /// The value of a constant operand of type `ty`. A function item is a
    /// zero-sized value; any other item, and a promoted constant, must have
    /// had its address recorded.
    #[verifier::opaque]
    pub open spec fn eval_literal(
        &self,
        mem: MemoryModel,
        literal: Literal,
        ty: Ty,
    ) -> Result<(Value, MemoryModel), EvalError> {
        match literal {
            Literal::Value { value } => self.const_to_value(mem, value),
            Literal::Item { def_id, substs } => if self.kind(ty) matches Ok(TyKind::FnDef(_, _, _)) {
                match mem.allocate(0, 0) {
                    Err(e) => Err(e),
                    Ok((p, m)) => Ok((Value::ByRef(p), m)),
                }
            } else {
                match self.static_ptr(ConstantId { def_id, substs, kind: ConstantKind::Global }) {
                    Err(e) => Err(e),
                    Ok(p) => Ok((Value::ByRef(p), mem)),
                }
            },
            Literal::Promoted { index } => match self.static_ptr(
                ConstantId { def_id: self.def_id, substs: self.substs, kind: ConstantKind::Promoted(index) },
            ) {
                Err(e) => Err(e),
                Ok(p) => Ok((Value::ByRef(p), mem)),
            },
        }
    }

    /// The place that a place expression denotes.
    pub open spec fn eval_lvalue(
        &self,
        mem: MemoryModel,
        lvalue: &crate::mir::Lvalue,
    ) -> Result<(Lvalue, MemoryModel), EvalError>
        decreases *lvalue, 0nat,
    {
        match lvalue {
            crate::mir::Lvalue::Local(i) => match self.local_ptr(*i) {
                Err(e) => Err(e),
                Ok(p) => Ok((Lvalue { ptr: p, extra: LvalueExtra::Bare }, mem)),
            },
            crate::mir::Lvalue::Static(def_id, _) => match self.static_ptr(
                ConstantId { def_id: *def_id, substs: Substs::spec_empty(), kind: ConstantKind::Global },
            ) {
                Err(e) => Err(e),
                Ok(p) => Ok((Lvalue { ptr: p, extra: LvalueExtra::Bare }, mem)),
            },
            crate::mir::Lvalue::Projection(proj) => self.eval_projection(mem, proj),
        }
    }

    /// The place that one projection step leads to.
    pub open spec fn eval_projection(
        &self,
        mem: MemoryModel,
        proj: &Projection,
    ) -> Result<(Lvalue, MemoryModel), EvalError>
        decreases *proj, 0nat,
    {
        match self.eval_lvalue(mem, &proj.base) {
            Err(e) => Err(e),
            Ok((base, m1)) => match self.lvalue_ty(&proj.base) {
                Err(e) => Err(e),
                Ok(base_ty) => match proj.elem {
                    ProjectionElem::Field(field, field_ty) => match self.type_layout(base_ty) {
                        Err(e) => Err(e),
                        Ok(layout) => match spec_field_place(
                            base,
                            layout,
                            field,
                            self.type_is_sized(self.mono(field_ty)),
                        ) {
                            Err(e) => Err(e),
                            Ok(l) => Ok((l, m1)),
                        },
                    },
                    ProjectionElem::Downcast(variant) => match self.type_layout(base_ty) {
                        Err(e) => Err(e),
                        Ok(layout) => match spec_downcast_place(base, layout, variant) {
                            Err(e) => Err(e),
                            Ok(l) => Ok((l, m1)),
                        },
                    },
                    ProjectionElem::Deref => match self.read_value(m1, base.ptr, base_ty) {
                        Err(e) => Err(e),
                        Ok((val, m2)) => match spec_deref_place(val) {
                            Err(e) => Err(e),
                            Ok(l) => Ok((l, m2)),
                        },
                    },
                    ProjectionElem::Index(operand) => match self.elem_size_and_len(base, base_ty) {
                        Err(e) => Err(e),
                        Ok((elem_size, len)) => match self.eval_operand(m1, &operand) {
                            Err(e) => Err(e),
                            Ok((n_val, m2)) => match self.value_to_primval(m2, n_val, self.program.types.usize_ty) {
                                Err(e) => Err(e),
                                Ok((n_prim, m3)) => match n_prim.spec_expect_uint() {
                                    Err(e) => Err(e),
                                    Ok(n) => match spec_index_place(base, len, elem_size, n) {
                                        Err(e) => Err(e),
                                        Ok(l) => Ok((l, m3)),
                                    },
                                },
                            },
                        },
                    },
                    ProjectionElem::ConstantIndex { offset, min_length, from_end } => match self.elem_size_and_len(
                        base,
                        base_ty,
                    ) {
                        Err(e) => Err(e),
                        Ok((elem_size, len)) => match spec_constant_index_place(
                            base,
                            len,
                            elem_size,
                            offset,
                            min_length,
                            from_end,
                        ) {
                            Err(e) => Err(e),
                            Ok(l) => Ok((l, m1)),
                        },
                    },
                    ProjectionElem::Subslice { from, to } => match self.elem_size_and_len(base, base_ty) {
                        Err(e) => Err(e),
                        Ok((elem_size, len)) => match spec_subslice_place(base, len, elem_size, from, to) {
                            Err(e) => Err(e),
                            Ok(l) => Ok((l, m1)),
                        },
                    },
                },
            },
        }
    }

    /// The element size and the element count of a sequence place.
    pub open spec fn elem_size_and_len(&self, base: Lvalue, base_ty: Ty) -> Result<(u64, u64), EvalError> {
        match self.kind(base_ty) {
            Err(e) => Err(e),
            Ok(kind) => match base.spec_elem_ty_and_len(kind) {
                Err(e) => Err(e),
                Ok((elem_ty, len)) => match self.type_size(elem_ty) {
                    Err(e) => Err(e),
                    Ok(elem_size) => Ok((elem_size, len)),
                },
            },
        }
    }

    /// The value of an operand. A place is consumed by reference, and only
    /// a place without extra data can be.
    pub open spec fn eval_operand(
        &self,
        mem: MemoryModel,
        op: &Operand,
    ) -> Result<(Value, MemoryModel), EvalError>
        decreases *op, 0nat,
    {
        match op {
            Operand::Consume(lvalue) => match self.eval_lvalue(mem, lvalue) {
                Err(e) => Err(e),
                Ok((l, m)) => match l.spec_to_ptr() {
                    Err(e) => Err(e),
                    Ok(p) => Ok((Value::ByRef(p), m)),
                },
            },
            Operand::Constant(c) => self.eval_literal(mem, c.literal, c.ty),
        }
    }

    /// The single word that an operand evaluates to.
    pub open spec fn eval_operand_to_primval(
        &self,
        mem: MemoryModel,
        op: &Operand,
    ) -> Result<(PrimVal, MemoryModel), EvalError> {
        match self.eval_operand(mem, op) {
            Err(e) => Err(e),
            Ok((value, m)) => match self.operand_ty(op) {
                Err(e) => Err(e),
                Ok(ty) => self.value_to_primval(m, value, ty),
            },
        }
    }
}

/// Computes [`spec_int_size`].
pub fn int_size(t: IntTy, pointer_size: u64) -> (r: u64)
    ensures
        r == spec_int_size(t, pointer_size),
{
    match t {
        IntTy::I8 => 1,
        IntTy::I16 => 2,
        IntTy::I32 => 4,
        IntTy::I64 => 8,
        IntTy::Is => pointer_size,
    }
}

/// Computes [`spec_uint_size`].
pub fn uint_size(t: UintTy, pointer_size: u64) -> (r: u64)
    ensures
        r == spec_uint_size(t, pointer_size),
{
    match t {
        UintTy::U8 => 1,
        UintTy::U16 => 2,
        UintTy::U32 => 4,
        UintTy::U64 => 8,
        UintTy::Us => pointer_size,
    }
}

impl<'a> EvalContext<'a> {
    /// Copies one value of type `ty` from `src` to `dest`.
    pub fn copy(&mut self, src: Pointer, dest: Pointer, ty: Ty) -> (r: Result<(), EvalError>)
        requires
            old(self).stack@.len() > 0,
        ensures
            performs(old(self), old(self).env().copy(old(self).memory@, src, dest, ty), r, final(self)),
    {
        let size = self.type_size(ty)?;
        let align = self.type_align(ty)?;
        self.memory.copy(src, dest, size, align)
    }

    /// Writes a value of type `dest_ty` at the address `dest`.
    pub fn write_value_to_ptr(
        &mut self,
        value: Value,
        dest: Pointer,
        dest_ty: Ty,
    ) -> (r: Result<(), EvalError>)
        requires
            old(self).stack@.len() > 0,
        ensures
            performs(
                old(self),
                old(self).env().write_value_to_ptr(old(self).memory@, value, dest, dest_ty),
                r,
                final(self),
            ),
    {
        proof {
            reveal(Env::write_value_to_ptr);
        }
        match value {
            Value::ByRef(ptr) => self.copy(ptr, dest, dest_ty),
            Value::ByVal(primval) => self.memory.write_primval(dest, primval),
            Value::ByValPair(a, b) => {
                self.memory.write_primval(dest, a)?;
                let layout = self.type_layout(dest_ty)?;
                match layout {
                    Layout::FatPointer => {
                        let extra_dest = dest.offset(self.memory.pointer_size() as i64);
                        self.memory.write_primval(extra_dest, b)
                    },
                    _ => Err(EvalError::Malformed),
                }
            },
        }
    }

    /// Writes a value of type `dest_ty` to a place.
    pub fn write_value(&mut self, value: Value, dest: Lvalue, dest_ty: Ty) -> (r: Result<(), EvalError>)
        requires
            old(self).stack@.len() > 0,
        ensures
            performs(
                old(self),
                old(self).env().write_value(old(self).memory@, value, dest, dest_ty),
                r,
                final(self),
            ),
    {
        let dest = dest.to_ptr()?;
        self.write_value_to_ptr(value, dest, dest_ty)
    }

    /// Writes one word to a place.
    pub fn write_primval(&mut self, dest: Lvalue, val: PrimVal) -> (r: Result<(), EvalError>)
        ensures
            performs(old(self), old(self).env().write_primval(old(self).memory@, dest, val), r, final(self)),
    {
        let dest = dest.to_ptr()?;
        self.memory.write_primval(dest, val)
    }

    fn read_integer(&self, ptr: Pointer, size: u64, signed: bool) -> (r: Result<PrimVal, EvalError>)
        requires
            crate::bytes::is_int_size(size),
        ensures
            r == Env::read_integer(self.memory@, ptr, size, signed),
    {
        if signed {
            let n = self.memory.read_int(ptr, size)?;
            Ok(PrimVal::int_with_size(n, size))
        } else {
            let n = self.memory.read_uint(ptr, size)?;
            Ok(PrimVal::uint_with_size(n, size))
        }
    }

    fn read_fat_extra(&self, extra: Pointer, pointee: Ty) -> (r: Result<PrimVal, EvalError>)
        ensures
            r == self.env().read_fat_extra(self.memory@, extra, pointee),
    {
        let tail = self.program.types.struct_tail(pointee);
        match self.kind(tail)? {
            TyKind::Trait(_) => Ok(PrimVal::Ptr(self.memory.read_ptr(extra)?)),
            TyKind::Slice(_) | TyKind::Str => {
                let n = self.memory.read_usize(extra)?;
                Ok(self.usize_primval(n))
            },
            _ => Err(EvalError::Malformed),
        }
    }

    /// Reads the value of type `ty` at `ptr`.
    pub fn read_value(&mut self, ptr: Pointer, ty: Ty) -> (r: Result<Value, EvalError>)
        requires
            old(self).stack@.len() > 0,
        ensures
            evaluates(old(self), old(self).env().read_value(old(self).memory@, ptr, ty), r, final(self)),
    {
        proof {
            reveal(Env::read_value);
        }
        let ptr_size = self.memory.pointer_size();
        match self.kind(ty)? {
            TyKind::Bool => Ok(Value::ByVal(PrimVal::Bool(self.memory.read_bool(ptr)?))),
            TyKind::Char => {
                let c = self.memory.read_uint(ptr, 4)?;
                proof {
                    crate::bytes::lemma_pow256_values();
                }
                match char_from_u32(c as u32) {
                    Some(ch) => Ok(Value::ByVal(PrimVal::Char(ch))),
                    None => Err(EvalError::InvalidChar(c)),
                }
            },
            TyKind::Int(t) => Ok(Value::ByVal(self.read_integer(ptr, int_size(*t, ptr_size), true)?)),
            TyKind::Uint(t) => Ok(Value::ByVal(self.read_integer(ptr, uint_size(*t, ptr_size), false)?)),
            TyKind::Float(FloatTy::F32) => {
                let b = self.memory.read_uint(ptr, 4)?;
                proof {
                    crate::bytes::lemma_pow256_values();
                }
                Ok(Value::ByVal(PrimVal::F32(b as u32)))
            },
            TyKind::Float(FloatTy::F64) => Ok(Value::ByVal(PrimVal::F64(self.memory.read_uint(ptr, 8)?))),
            TyKind::FnDef(def_id, substs, fn_ty) => {
                let p = self.memory.create_fn_ptr(*def_id, *substs, *fn_ty);
                Ok(Value::ByVal(PrimVal::FnPtr(p)))
            },
            TyKind::FnPtr(_) => Ok(Value::ByVal(PrimVal::FnPtr(self.memory.read_ptr(ptr)?))),
            TyKind::Box(t) | TyKind::Ref(t) | TyKind::RawPtr(t) => {
                let p = self.memory.read_ptr(ptr)?;
                if self.type_is_sized(*t) {
                    Ok(Value::ByVal(PrimVal::Ptr(p)))
                } else {
                    let extra = self.read_fat_extra(ptr.offset(ptr_size as i64), *t)?;
                    Ok(Value::ByValPair(PrimVal::Ptr(p), extra))
                }
            },
            TyKind::Adt(_, _) => match self.type_layout(ty)? {
                Layout::CEnum { discr, signed } => Ok(
                    Value::ByVal(self.read_integer(ptr, discr.size(), *signed)?),
                ),
                _ => Err(EvalError::Malformed),
            },
            _ => Err(EvalError::Malformed),
        }
    }

    /// The single word that a value of type `ty` is.
    pub fn value_to_primval(&mut self, value: Value, ty: Ty) -> (r: Result<PrimVal, EvalError>)
        requires
            old(self).stack@.len() > 0,
        ensures
            evaluates(
                old(self),
                old(self).env().value_to_primval(old(self).memory@, value, ty),
                r,
                final(self),
            ),
    {
        match value {
            Value::ByRef(ptr) => match self.read_value(ptr, ty)? {
                Value::ByVal(p) => Ok(p),
                _ => Err(EvalError::Malformed),
            },
            Value::ByVal(p) => Ok(p),
            Value::ByValPair(_, _) => Err(EvalError::Malformed),
        }
    }

    /// An address at which the value lies; a value that is not in memory
    /// is written to fresh storage.
    pub fn value_to_ptr(&mut self, value: Value, ty: Ty) -> (r: Result<Pointer, EvalError>)
        requires
            old(self).stack@.len() > 0,
        ensures
            evaluates(old(self), old(self).env().value_to_ptr(old(self).memory@, value, ty), r, final(self)),
    {
        proof {
            reveal(Env::value_to_ptr);
        }
        match value {
            Value::ByRef(ptr) => Ok(ptr),
            Value::ByVal(p) => {
                let substs = self.substs();
                let ptr = self.alloc_ptr(ty, substs)?;
                self.memory.write_primval(ptr, p)?;
                Ok(ptr)
            },
            Value::ByValPair(a, b) => {
                let substs = self.substs();
                let ptr = self.alloc_ptr(ty, substs)?;
                self.memory.write_primval(ptr, a)?;
                let second = ptr.offset(self.memory.pointer_size() as i64);
                self.memory.write_primval(second, b)?;
                Ok(ptr)
            },
        }
    }

    fn local_ptr(&self, i: usize) -> (r: Result<Pointer, EvalError>)
        requires
            self.stack@.len() > 0,
        ensures
            r == self.env().local_ptr(i),
    {
        let frame = self.frame();
        if i < frame.locals.len() {
            match frame.locals[i] {
                Value::ByRef(p) => Ok(p),
                _ => Err(EvalError::Malformed),
            }
        } else {
            Err(EvalError::Malformed)
        }
    }

    fn eval_literal(&mut self, literal: &Literal, ty: Ty) -> (r: Result<Value, EvalError>)
        requires
            old(self).stack@.len() > 0,
        ensures
            evaluates(
                old(self),
                old(self).env().eval_literal(old(self).memory@, *literal, ty),
                r,
                final(self),
            ),
    {
        proof {
            reveal(Env::eval_literal);
        }
        match literal {
            Literal::Value { value } => self.const_to_value(value),
            Literal::Item { def_id, substs } => {
                let is_fn = match self.kind(ty) {
                    Ok(TyKind::FnDef(_, _, _)) => true,
                    _ => false,
                };
                if is_fn {
                    Ok(Value::ByRef(self.memory.allocate(0, 0)?))
                } else {
                    let cid = ConstantId { def_id: *def_id, substs: *substs, kind: ConstantKind::Global };
                    Ok(Value::ByRef(self.static_ptr(cid)?))
                }
            },
            Literal::Promoted { index } => {
                let cid = ConstantId {
                    def_id: self.frame().def_id,
                    substs: self.substs(),
                    kind: ConstantKind::Promoted(*index),
                };
                Ok(Value::ByRef(self.static_ptr(cid)?))
            },
        }
    }

    fn elem_size_and_len(&self, base: Lvalue, base_ty: Ty) -> (r: Result<(u64, u64), EvalError>)
        requires
            self.stack@.len() > 0,
        ensures
            r == self.env().elem_size_and_len(base, base_ty),
    {
        let kind = self.kind(base_ty)?;
        let (elem_ty, len) = base.elem_ty_and_len(kind)?;
        let elem_size = self.type_size(elem_ty)?;
        Ok((elem_size, len))
    }

    /// Resolves a place expression to a place.
    pub fn eval_lvalue(&mut self, lvalue: &crate::mir::Lvalue) -> (r: Result<Lvalue, EvalError>)
        requires
            old(self).stack@.len() > 0,
        ensures
            evaluates(old(self), old(self).env().eval_lvalue(old(self).memory@, lvalue), r, final(self)),
        decreases *lvalue,
    {
        match lvalue {
            crate::mir::Lvalue::Local(i) => {
                let p = self.local_ptr(*i)?;
                Ok(Lvalue { ptr: p, extra: LvalueExtra::Bare })
            },
            crate::mir::Lvalue::Static(def_id, _) => {
                let cid = ConstantId { def_id: *def_id, substs: Substs::empty(), kind: ConstantKind::Global };
                let p = self.static_ptr(cid)?;
                Ok(Lvalue { ptr: p, extra: LvalueExtra::Bare })
            },
            crate::mir::Lvalue::Projection(proj) => self.eval_projection(proj),
        }
    }

    /// Resolves one projection step.
    pub fn eval_projection(&mut self, proj: &Projection) -> (r: Result<Lvalue, EvalError>)
        requires
            old(self).stack@.len() > 0,
        ensures
            evaluates(old(self), old(self).env().eval_projection(old(self).memory@, proj), r, final(self)),
        decreases *proj,
    {
        let base = self.eval_lvalue(&proj.base)?;
        let base_ty = self.lvalue_ty(&proj.base)?;
        match &proj.elem {
            ProjectionElem::Field(field, field_ty) => {
                let layout = self.type_layout(base_ty)?;
                let field_ty = self.monomorphize(*field_ty, self.substs());
                let sized = self.type_is_sized(field_ty);
                field_place(base, layout, *field, sized)
            },
            ProjectionElem::Downcast(variant) => {
                let layout = self.type_layout(base_ty)?;
                downcast_place(base, layout, *variant)
            },
            ProjectionElem::Deref => {
                let val = self.read_value(base.ptr, base_ty)?;
                deref_place(val)
            },
            ProjectionElem::Index(operand) => {
                let (elem_size, len) = self.elem_size_and_len(base, base_ty)?;
                let n_val = self.eval_operand(operand)?;
                let usize_ty = self.program.types.usize_ty;
                let n = self.value_to_primval(n_val, usize_ty)?.expect_uint()?;
                index_place(base, len, elem_size, n)
            },
            ProjectionElem::ConstantIndex { offset, min_length, from_end } => {
                let (elem_size, len) = self.elem_size_and_len(base, base_ty)?;
                constant_index_place(base, len, elem_size, *offset, *min_length, *from_end)
            },
            ProjectionElem::Subslice { from, to } => {
                let (elem_size, len) = self.elem_size_and_len(base, base_ty)?;
                subslice_place(base, len, elem_size, *from, *to)
            },
        }
    }

    /// Evaluates an operand.
    pub fn eval_operand(&mut self, op: &Operand) -> (r: Result<Value, EvalError>)
        requires
            old(self).stack@.len() > 0,
        ensures
            evaluates(old(self), old(self).env().eval_operand(old(self).memory@, op), r, final(self)),
        decreases *op,
    {
        match op {
            Operand::Consume(lvalue) => {
                let l = self.eval_lvalue(lvalue)?;
                Ok(Value::ByRef(l.to_ptr()?))
            },
            Operand::Constant(c) => self.eval_literal(&c.literal, c.ty),
        }
    }

    /// Evaluates an operand to the single word it is.
    pub fn eval_operand_to_primval(&mut self, op: &Operand) -> (r: Result<PrimVal, EvalError>)
        requires
            old(self).stack@.len() > 0,
        ensures
            evaluates(
                old(self),
                old(self).env().eval_operand_to_primval(old(self).memory@, op),
                r,
                final(self),
            ),
    {
        let value = self.eval_operand(op)?;
        let ty = self.operand_ty(op)?;
        self.value_to_primval(value, ty)
    }
}

} // verus!
