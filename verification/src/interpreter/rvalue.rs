//! Assignments: evaluating a right-hand side into the place on the left.
use vstd::prelude::*;
use crate::bytes::to_signed;
use crate::error::EvalError;
use crate::interpreter::fields::FieldOffsets;
use crate::interpreter::place::performs;
use crate::interpreter::value::Value;
use crate::interpreter::{evaluates, Env, EvalContext, Lvalue, LvalueExtra};
use crate::memory::{FunctionDefinition, MemoryModel, Pointer};
use crate::mir::{AggregateKind, BinOp, CastKind, Operand, Rvalue};
use crate::primval::{binary_op, spec_binary_op, spec_unary_op, unary_op};
use crate::ty::{Integer, Layout, Struct, Ty, TyKind};

verus! {

impl<'a> Env<'a> {
    /// Applies a binary operator to two operands and writes the result to
    /// `dest`; yields whether the exact result left the type's range.
    #[verifier::opaque]
    pub open spec fn intrinsic_overflowing(
        &self,
        mem: MemoryModel,
        op: BinOp,
        left: &Operand,
        right: &Operand,
        dest: Lvalue,
    ) -> Result<(bool, MemoryModel), EvalError> {
        match self.eval_operand_to_primval(mem, left) {
            Err(e) => Err(e),
            Ok((l, m1)) => match self.eval_operand_to_primval(m1, right) {
                Err(e) => Err(e),
                Ok((r, m2)) => match spec_binary_op(op, l, r) {
                    Err(e) => Err(e),
                    Ok((val, overflow)) => match self.write_primval(m2, dest, val) {
                        Err(e) => Err(e),
                        Ok(m3) => Ok((overflow, m3)),
                    },
                },
            },
        }
    }

    /// Applies a binary operator and writes the pair of the result and the
    /// overflow flag to `dest`, which must be laid out as a record: the
    /// result at its start, the flag at the offset of field 1.
    #[verifier::opaque]
    pub open spec fn intrinsic_with_overflow(
        &self,
        mem: MemoryModel,
        op: BinOp,
        left: &Operand,
        right: &Operand,
        dest: Lvalue,
        dest_layout: Layout,
    ) -> Result<MemoryModel, EvalError> {
        match dest_layout {
            Layout::Univariant(tup) => match self.intrinsic_overflowing(mem, op, left, right, dest) {
                Err(e) => Err(e),
                Ok((overflowed, m)) => match dest.spec_to_ptr() {
                    Err(e) => Err(e),
                    Ok(p) => match crate::interpreter::place::spec_field_offset(tup, 1) {
                        Err(e) => Err(e),
                        Ok(offset) => m.write_bool(p.spec_displace(offset as int), overflowed),
                    },
                },
            },
            _ => Err(EvalError::Malformed),
        }
    }

    /// The value that stands for variant `variant` of the data type `adt`.
    pub open spec fn adt_discr(&self, adt: Ty, variant: usize) -> Result<u64, EvalError> {
        match self.kind(adt) {
            Err(e) => Err(e),
            Ok(TyKind::Adt(_, variants)) => if variant < variants@.len() {
                Ok(variants@[variant as int].discr)
            } else {
                Err(EvalError::Malformed)
            },
            Ok(_) => Err(EvalError::Malformed),
        }
    }

    /// Builds a variant of a sum type with a discriminant column: the
    /// discriminant is written to field 0 of the variant, the operands to
    /// the fields after it.
    #[verifier::opaque]
    pub open spec fn aggregate_general(
        &self,
        mem: MemoryModel,
        kind: AggregateKind,
        operands: Seq<Operand>,
        dest: Lvalue,
        discr: Integer,
        variants: Seq<Struct>,
    ) -> Result<MemoryModel, EvalError> {
        match kind {
            AggregateKind::Adt(adt, variant) => match self.adt_discr(adt, variant) {
                Err(e) => Err(e),
                Ok(discr_val) => if variant >= variants.len() {
                    Err(EvalError::Malformed)
                } else {
                    match crate::interpreter::place::spec_field_offset(variants[variant as int], 0) {
                        Err(e) => Err(e),
                        Ok(discr_offset) => match dest.spec_to_ptr() {
                            Err(e) => Err(e),
                            Ok(p) => match mem.write_uint(
                                p.spec_displace(discr_offset as int),
                                discr_val,
                                discr.spec_size(),
                            ) {
                                Err(e) => Err(e),
                                Ok(m1) => self.assign_fields(
                                    m1,
                                    dest,
                                    (FieldOffsets::Listed { offsets: &variants[variant as int].offsets, skip: 1 }),
                                    operands,
                                ),
                            },
                        },
                    }
                },
            },
            _ => Err(EvalError::Malformed),
        }
    }

    /// Builds a variant of a two-variant sum type that is stored as its
    /// single field: the variant with the field is written as that field,
    /// the other one as a zero of pointer width.
    #[verifier::opaque]
    pub open spec fn aggregate_raw_nullable(
        &self,
        mem: MemoryModel,
        kind: AggregateKind,
        operands: Seq<Operand>,
        dest: Lvalue,
        nndiscr: u64,
    ) -> Result<MemoryModel, EvalError> {
        match kind {
            AggregateKind::Adt(_, variant) => if nndiscr == variant as u64 {
                if operands.len() != 1 {
                    Err(EvalError::Malformed)
                } else {
                    match self.eval_operand(mem, &operands[0]) {
                        Err(e) => Err(e),
                        Ok((value, m1)) => match self.operand_ty(&operands[0]) {
                            Err(e) => Err(e),
                            Ok(value_ty) => self.write_value(m1, value, dest, value_ty),
                        },
                    }
                }
            } else {
                if operands.len() != 0 {
                    Err(EvalError::Malformed)
                } else {
                    self.write_primval(mem, dest, self.isize_primval(mem, 0))
                }
            },
            _ => Err(EvalError::Malformed),
        }
    }

    /// Whether the first `n` operands all have types without size; the
    /// first that has not, or whose type is not known, decides the error.
    pub open spec fn zero_sized_upto(&self, operands: Seq<Operand>, n: nat) -> Result<(), EvalError>
        decreases n,
    {
        if n == 0 {
            Ok(())
        } else {
            match self.zero_sized_upto(operands, (n - 1) as nat) {
                Err(e) => Err(e),
                Ok(_) => match self.operand_ty(&operands[n - 1]) {
                    Err(e) => Err(e),
                    Ok(ty) => match self.type_size(ty) {
                        Err(e) => Err(e),
                        Ok(size) => if size == 0 {
                            Ok(())
                        } else {
                            Err(EvalError::Malformed)
                        },
                    },
                },
            }
        }
    }

    /// Once some operand has a size, the answer for all of them is the
    /// same error.
    pub proof fn lemma_zero_sized_fails(&self, operands: Seq<Operand>, i: nat, n: nat)
        requires
            i <= n,
            self.zero_sized_upto(operands, i) is Err,
        ensures
            self.zero_sized_upto(operands, n) == self.zero_sized_upto(operands, i),
        decreases n,
    {
        if i < n {
            self.lemma_zero_sized_fails(operands, i, (n - 1) as nat);
        }
    }

    /// Builds a variant of a two-variant sum type whose variant `nndiscr`
    /// is a record with a field that is never zero: that variant is written
    /// field by field, the other one, whose fields must all be without
    /// size, as a zero in that field.
    #[verifier::opaque]
    pub open spec fn aggregate_struct_wrapped(
        &self,
        mem: MemoryModel,
        kind: AggregateKind,
        operands: Seq<Operand>,
        dest: Lvalue,
        dest_ty: Ty,
        nndiscr: u64,
        nonnull: Struct,
        discrfield: Seq<u32>,
    ) -> Result<MemoryModel, EvalError> {
        match kind {
            AggregateKind::Adt(_, variant) => if nndiscr == variant as u64 {
                self.assign_fields(mem, dest, (FieldOffsets::Listed { offsets: &nonnull.offsets, skip: 0 }), operands)
            } else {
                match self.zero_sized_upto(operands, operands.len()) {
                    Err(e) => Err(e),
                    Ok(_) => match self.nonnull_offset(dest_ty, nndiscr, discrfield) {
                        Err(e) => Err(e),
                        Ok(offset) => match dest.spec_to_ptr() {
                            Err(e) => Err(e),
                            Ok(p) => mem.write_isize(p.spec_displace(offset as int), 0),
                        },
                    },
                }
            },
            _ => Err(EvalError::Malformed),
        }
    }

    /// Builds a variant of a sum type without data: its discriminant, as a
    /// signed or an unsigned integer of the declared width.
    #[verifier::opaque]
    pub open spec fn aggregate_c_enum(
        &self,
        mem: MemoryModel,
        kind: AggregateKind,
        operands: Seq<Operand>,
        dest: Lvalue,
        discr: Integer,
        signed: bool,
    ) -> Result<MemoryModel, EvalError> {
        if operands.len() != 0 {
            Err(EvalError::Malformed)
        } else {
            match kind {
                AggregateKind::Adt(adt, variant) => match self.adt_discr(adt, variant) {
                    Err(e) => Err(e),
                    Ok(val) => match dest.spec_to_ptr() {
                        Err(e) => Err(e),
                        Ok(p) => if signed {
                            mem.write_int(p, to_signed(val as nat, 8) as i64, discr.spec_size())
                        } else {
                            mem.write_uint(p, val, discr.spec_size())
                        },
                    },
                },
                _ => Err(EvalError::Malformed),
            }
        }
    }

    /// Builds an aggregate in the way that the layout of the destination
    /// asks for. A layout that no aggregate can be built for is not
    /// supported.
    #[verifier::opaque]
    pub open spec fn aggregate(
        &self,
        mem: MemoryModel,
        kind: AggregateKind,
        operands: Seq<Operand>,
        dest: Lvalue,
        dest_ty: Ty,
        dest_layout: Layout,
    ) -> Result<MemoryModel, EvalError> {
        match dest_layout {
            Layout::Univariant(variant) => self.assign_fields(
                mem,
                dest,
                (FieldOffsets::Listed { offsets: &variant.offsets, skip: 0 }),
                operands,
            ),
            Layout::Array => match self.kind(dest_ty) {
                Err(e) => Err(e),
                Ok(TyKind::Array(elem_ty, _)) => match self.type_size(elem_ty) {
                    Err(e) => Err(e),
                    Ok(elem_size) => self.assign_fields(mem, dest, (FieldOffsets::Strided { elem_size }), operands),
                },
                Ok(_) => Err(EvalError::Malformed),
            },
            Layout::General { discr, variants } => self.aggregate_general(mem, kind, operands, dest, discr, variants@),
            Layout::RawNullablePointer { nndiscr } => self.aggregate_raw_nullable(mem, kind, operands, dest, nndiscr),
            Layout::StructWrappedNullablePointer { nndiscr, nonnull, discrfield } => self.aggregate_struct_wrapped(
                mem,
                kind,
                operands,
                dest,
                dest_ty,
                nndiscr,
                nonnull,
                discrfield@,
            ),
            Layout::CEnum { discr, signed } => self.aggregate_c_enum(mem, kind, operands, dest, discr, signed),
            _ => Err(EvalError::UnsupportedLayout),
        }
    }

    /// The memory after `value` is written to the first `n` slots of an
    /// array at `dest`.
    pub open spec fn repeat_upto(
        &self,
        mem: MemoryModel,
        value: Value,
        dest: Pointer,
        elem_ty: Ty,
        elem_size: u64,
        n: nat,
    ) -> Result<MemoryModel, EvalError>
        decreases n,
    {
        if n == 0 {
            Ok(mem)
        } else {
            match self.repeat_upto(mem, value, dest, elem_ty, elem_size, (n - 1) as nat) {
                Err(e) => Err(e),
                Ok(m) => self.write_value_to_ptr(m, value, dest.spec_displace((n - 1) * elem_size), elem_ty),
            }
        }
    }

    /// Once writing some copy fails, writing all of them fails in the same
    /// way.
    pub proof fn lemma_repeat_fails(
        &self,
        mem: MemoryModel,
        value: Value,
        dest: Pointer,
        elem_ty: Ty,
        elem_size: u64,
        i: nat,
        n: nat,
    )
        requires
            i <= n,
            self.repeat_upto(mem, value, dest, elem_ty, elem_size, i) is Err,
        ensures
            self.repeat_upto(mem, value, dest, elem_ty, elem_size, n) == self.repeat_upto(
                mem,
                value,
                dest,
                elem_ty,
                elem_size,
                i,
            ),
        decreases n,
    {
        if i < n {
            self.lemma_repeat_fails(mem, value, dest, elem_ty, elem_size, i, (n - 1) as nat);
        }
    }

    /// Fills an array with copies of one operand, which is evaluated once.
    #[verifier::opaque]
    pub open spec fn repeat(
        &self,
        mem: MemoryModel,
        operand: &Operand,
        dest: Lvalue,
        dest_ty: Ty,
    ) -> Result<MemoryModel, EvalError> {
        match self.kind(dest_ty) {
            Err(e) => Err(e),
            Ok(TyKind::Array(elem_ty, length)) => match self.type_size(elem_ty) {
                Err(e) => Err(e),
                Ok(elem_size) => match self.eval_operand(mem, operand) {
                    Err(e) => Err(e),
                    Ok((value, m1)) => match dest.spec_to_ptr() {
                        Err(e) => Err(e),
                        Ok(p) => self.repeat_upto(m1, value, p, elem_ty, elem_size, length as nat),
                    },
                },
            },
            Ok(_) => Err(EvalError::Malformed),
        }
    }

    /// Writes the length of a sequence place: that of the type for an
    /// array, that of the place for a slice.
    #[verifier::opaque]
    pub open spec fn rvalue_len(
        &self,
        mem: MemoryModel,
        lvalue: &crate::mir::Lvalue,
        dest: Lvalue,
    ) -> Result<MemoryModel, EvalError> {
        match self.eval_lvalue(mem, lvalue) {
            Err(e) => Err(e),
            Ok((src, m1)) => match self.lvalue_ty(lvalue) {
                Err(e) => Err(e),
                Ok(ty) => match self.kind(ty) {
                    Err(e) => Err(e),
                    Ok(kind) => match src.spec_elem_ty_and_len(kind) {
                        Err(e) => Err(e),
                        Ok((_, len)) => self.write_primval(m1, dest, self.usize_primval(m1, len)),
                    },
                },
            },
        }
    }

    /// Writes a reference to a place: its address, and after it the length
    /// or the dispatch table that comes with the place. No reference can be
    /// taken to a place seen as a variant.
    #[verifier::opaque]
    pub open spec fn rvalue_ref(
        &self,
        mem: MemoryModel,
        lvalue: &crate::mir::Lvalue,
        dest: Lvalue,
    ) -> Result<MemoryModel, EvalError> {
        match dest.spec_to_ptr() {
            Err(e) => Err(e),
            Ok(p) => match self.eval_lvalue(mem, lvalue) {
                Err(e) => Err(e),
                Ok((l, m1)) => match m1.write_ptr(p, l.ptr) {
                    Err(e) => Err(e),
                    Ok(m2) => {
                        let extra_ptr = p.spec_offset(m2.pointer_size() as i64);
                        match l.extra {
                            LvalueExtra::Bare => Ok(m2),
                            LvalueExtra::Length(len) => m2.write_usize(extra_ptr, len),
                            LvalueExtra::Vtable(vt) => m2.write_ptr(extra_ptr, vt),
                            LvalueExtra::DowncastVariant(_) => Err(EvalError::Malformed),
                        }
                    },
                },
            },
        }
    }

    /// Allocates storage for a boxed value of type `ty` and writes its
    /// address; the storage stays undefined.
    #[verifier::opaque]
    pub open spec fn rvalue_box(
        &self,
        mem: MemoryModel,
        ty: Ty,
        dest: Lvalue,
    ) -> Result<MemoryModel, EvalError> {
        match dest.spec_to_ptr() {
            Err(e) => Err(e),
            Ok(p) => match self.alloc_ptr(mem, ty, self.substs) {
                Err(e) => Err(e),
                Ok((ptr, m1)) => m1.write_ptr(p, ptr),
            },
        }
    }

    /// A cast that keeps the bits. A fat pointer keeps both words when the
    /// target is fat too and only its first word when it is not; any other
    /// value is cast as a primitive.
    #[verifier::opaque]
    pub open spec fn cast_misc(
        &self,
        mem: MemoryModel,
        operand: &Operand,
        dest: Pointer,
        dest_ty: Ty,
    ) -> Result<MemoryModel, EvalError> {
        match self.eval_operand(mem, operand) {
            Err(e) => Err(e),
            Ok((src, m1)) => match self.operand_ty(operand) {
                Err(e) => Err(e),
                Ok(src_ty) => if self.type_is_fat_ptr(src_ty) {
                    let ptr_size = m1.pointer_size();
                    match (src, self.type_is_fat_ptr(dest_ty)) {
                        (Value::ByValPair(data, meta), true) => match m1.write_primval(dest, data) {
                            Err(e) => Err(e),
                            Ok(m2) => m2.write_primval(dest.spec_offset(ptr_size as i64), meta),
                        },
                        (Value::ByValPair(data, _), false) => m1.write_primval(dest, data),
                        (Value::ByRef(ptr), true) => m1.copy(ptr, dest, (ptr_size * 2) as u64, ptr_size),
                        (Value::ByRef(ptr), false) => m1.copy(ptr, dest, ptr_size, ptr_size),
                        (Value::ByVal(_), _) => Err(EvalError::Malformed),
                    }
                } else {
                    match self.value_to_primval(m1, src, src_ty) {
                        Err(e) => Err(e),
                        Ok((src_val, m2)) => match self.cast_primval(m2, src_val, dest_ty) {
                            Err(e) => Err(e),
                            Ok(dest_val) => m2.write_primval(dest, dest_val),
                        },
                    }
                },
            },
        }
    }

    /// Turns a function item into a pointer to that function.
    #[verifier::opaque]
    pub open spec fn cast_reify(
        &self,
        mem: MemoryModel,
        operand: &Operand,
        dest: Pointer,
    ) -> Result<MemoryModel, EvalError> {
        match self.operand_ty(operand) {
            Err(e) => Err(e),
            Ok(ty) => match self.kind(ty) {
                Err(e) => Err(e),
                Ok(TyKind::FnDef(def_id, substs, fn_ty)) => {
                    let (fn_ptr, m1) = mem.create_fn_ptr(FunctionDefinition { def_id, substs, fn_ty });
                    m1.write_ptr(dest, fn_ptr)
                },
                Ok(_) => Err(EvalError::Malformed),
            },
        }
    }

    /// Turns a function pointer into a pointer to the same function at the
    /// signature of the destination type.
    #[verifier::opaque]
    pub open spec fn cast_unsafe_fn(
        &self,
        mem: MemoryModel,
        operand: &Operand,
        dest: Pointer,
        dest_ty: Ty,
    ) -> Result<MemoryModel, EvalError> {
        match self.kind(dest_ty) {
            Err(e) => Err(e),
            Ok(TyKind::FnPtr(unsafe_fn_ty)) => match self.eval_operand(mem, operand) {
                Err(e) => Err(e),
                Ok((src, m1)) => match src.spec_read_ptr(m1) {
                    Err(e) => Err(e),
                    Ok(ptr) => match m1.get_fn(ptr.alloc_id) {
                        Err(e) => Err(e),
                        Ok(f) => {
                            let (fn_ptr, m2) = m1.create_fn_ptr(
                                FunctionDefinition { def_id: f.def_id, substs: f.substs, fn_ty: unsafe_fn_ty },
                            );
                            m2.write_ptr(dest, fn_ptr)
                        },
                    },
                },
            },
            Ok(_) => Err(EvalError::Malformed),
        }
    }

    /// Evaluates a cast into `dest`.
    #[verifier::opaque]
    pub open spec fn cast(
        &self,
        mem: MemoryModel,
        kind: CastKind,
        operand: &Operand,
        dest: Lvalue,
        dest_ty: Ty,
    ) -> Result<MemoryModel, EvalError> {
        match dest.spec_to_ptr() {
            Err(e) => Err(e),
            Ok(p) => match kind {
                CastKind::Unsize => match self.eval_operand(mem, operand) {
                    Err(e) => Err(e),
                    Ok((src, m1)) => match self.operand_ty(operand) {
                        Err(e) => Err(e),
                        Ok(src_ty) => self.unsize_into(m1, src, src_ty, p, dest_ty),
                    },
                },
                CastKind::Misc => self.cast_misc(mem, operand, p, dest_ty),
                CastKind::ReifyFnPointer => self.cast_reify(mem, operand, p),
                CastKind::UnsafeFnPointer => self.cast_unsafe_fn(mem, operand, p, dest_ty),
            },
        }
    }

    /// Evaluates a right-hand side into an already resolved destination.
    #[verifier::opaque]
    pub open spec fn eval_rvalue(
        &self,
        mem: MemoryModel,
        rvalue: &Rvalue,
        dest: Lvalue,
        dest_ty: Ty,
        dest_layout: Layout,
    ) -> Result<MemoryModel, EvalError> {
        match rvalue {
            Rvalue::Use(operand) => match self.eval_operand(mem, operand) {
                Err(e) => Err(e),
                Ok((value, m1)) => self.write_value(m1, value, dest, dest_ty),
            },
            Rvalue::BinaryOp(op, left, right) => match self.intrinsic_overflowing(mem, *op, left, right, dest) {
                Err(e) => Err(e),
                Ok((_, m1)) => Ok(m1),
            },
            Rvalue::CheckedBinaryOp(op, left, right) => self.intrinsic_with_overflow(
                mem,
                *op,
                left,
                right,
                dest,
                dest_layout,
            ),
            Rvalue::UnaryOp(op, operand) => match self.eval_operand_to_primval(mem, operand) {
                Err(e) => Err(e),
                Ok((val, m1)) => match spec_unary_op(*op, val) {
                    Err(e) => Err(e),
                    Ok(res) => self.write_primval(m1, dest, res),
                },
            },
            Rvalue::Aggregate(kind, operands) => self.aggregate(mem, *kind, operands@, dest, dest_ty, dest_layout),
            Rvalue::Repeat(operand, _) => self.repeat(mem, operand, dest, dest_ty),
            Rvalue::Len(lvalue) => self.rvalue_len(mem, lvalue, dest),
            Rvalue::Ref(lvalue) => self.rvalue_ref(mem, lvalue, dest),
            Rvalue::Box(ty) => self.rvalue_box(mem, *ty, dest),
            Rvalue::Cast(kind, operand, _) => self.cast(mem, *kind, operand, dest, dest_ty),
            Rvalue::InlineAsm => Err(EvalError::InlineAsm),
        }
    }

    /// Evaluates an assignment: the destination is resolved first, with its
    /// type and its layout, then the right-hand side is evaluated into it.
    pub open spec fn eval_rvalue_into_lvalue(
        &self,
        mem: MemoryModel,
        rvalue: &Rvalue,
        lvalue: &crate::mir::Lvalue,
    ) -> Result<MemoryModel, EvalError> {
        match self.eval_lvalue(mem, lvalue) {
            Err(e) => Err(e),
            Ok((dest, m1)) => match self.lvalue_ty(lvalue) {
                Err(e) => Err(e),
                Ok(dest_ty) => match self.type_layout(dest_ty) {
                    Err(e) => Err(e),
                    Ok(dest_layout) => self.eval_rvalue(m1, rvalue, dest, dest_ty, dest_layout),
                },
            },
        }
    }
}

impl<'a> EvalContext<'a> {
    /// Applies the binary operator `op` to two operands and writes the
    /// result to `dest`. Returns whether the operation overflowed.
    pub fn intrinsic_overflowing(
        &mut self,
        op: BinOp,
        left: &Operand,
        right: &Operand,
        dest: Lvalue,
    ) -> (r: Result<bool, EvalError>)
        requires
            old(self).stack@.len() > 0,
        ensures
            evaluates(
                old(self),
                old(self).env().intrinsic_overflowing(old(self).memory@, op, left, right, dest),
                r,
                final(self),
            ),
    {
        proof {
            reveal(Env::intrinsic_overflowing);
        }
        let left_primval = self.eval_operand_to_primval(left)?;
        let right_primval = self.eval_operand_to_primval(right)?;
        let (val, overflow) = binary_op(op, left_primval, right_primval)?;
        self.write_primval(dest, val)?;
        Ok(overflow)
    }

    /// Applies the binary operator `op` to two operands and writes the pair
    /// of the result and the overflow flag to `dest`.
    pub fn intrinsic_with_overflow(
        &mut self,
        op: BinOp,
        left: &Operand,
        right: &Operand,
        dest: Lvalue,
        dest_layout: &Layout,
    ) -> (r: Result<(), EvalError>)
        requires
            old(self).stack@.len() > 0,
        ensures
            performs(
                old(self),
                old(self).env().intrinsic_with_overflow(old(self).memory@, op, left, right, dest, *dest_layout),
                r,
                final(self),
            ),
    {
        proof {
            reveal(Env::intrinsic_with_overflow);
        }
        match dest_layout {
            Layout::Univariant(tup) => {
                let overflowed = self.intrinsic_overflowing(op, left, right, dest)?;
                let dest = dest.to_ptr()?;
                let offset = crate::interpreter::place::field_offset(tup, 1)?;
                self.memory.write_bool(dest.offset_by(offset), overflowed)
            },
            _ => Err(EvalError::Malformed),
        }
    }

    fn adt_discr(&self, adt: Ty, variant: usize) -> (r: Result<u64, EvalError>)
        ensures
            r == self.env().adt_discr(adt, variant),
    {
        match self.kind(adt)? {
            TyKind::Adt(_, variants) => {
                if variant < variants.len() {
                    Ok(variants[variant].discr)
                } else {
                    Err(EvalError::Malformed)
                }
            },
            _ => Err(EvalError::Malformed),
        }
    }

    fn aggregate_general(
        &mut self,
        kind: AggregateKind,
        operands: &Vec<Operand>,
        dest: Lvalue,
        discr: Integer,
        variants: &Vec<Struct>,
    ) -> (r: Result<(), EvalError>)
        requires
            old(self).stack@.len() > 0,
        ensures
            performs(
                old(self),
                old(self).env().aggregate_general(old(self).memory@, kind, operands@, dest, discr, variants@),
                r,
                final(self),
            ),
    {
        proof {
            reveal(Env::aggregate_general);
        }
        match kind {
            AggregateKind::Adt(adt, variant) => {
                let discr_val = self.adt_discr(adt, variant)?;
                if variant >= variants.len() {
                    return Err(EvalError::Malformed);
                }
                let discr_offset = crate::interpreter::place::field_offset(&variants[variant], 0)?;
                let discr_dest = dest.to_ptr()?.offset_by(discr_offset);
                self.memory.write_uint(discr_dest, discr_val, discr.size())?;
                self.assign_fields(dest, FieldOffsets::Listed { offsets: &variants[variant].offsets, skip: 1 }, operands)
            },
            _ => Err(EvalError::Malformed),
        }
    }

    fn aggregate_raw_nullable(
        &mut self,
        kind: AggregateKind,
        operands: &Vec<Operand>,
        dest: Lvalue,
        nndiscr: u64,
    ) -> (r: Result<(), EvalError>)
        requires
            old(self).stack@.len() > 0,
        ensures
            performs(
                old(self),
                old(self).env().aggregate_raw_nullable(old(self).memory@, kind, operands@, dest, nndiscr),
                r,
                final(self),
            ),
    {
        proof {
            reveal(Env::aggregate_raw_nullable);
        }
        match kind {
            AggregateKind::Adt(_, variant) => {
                if nndiscr == variant as u64 {
                    if operands.len() != 1 {
                        return Err(EvalError::Malformed);
                    }
                    let operand = &operands[0];
                    let value = self.eval_operand(operand)?;
                    let value_ty = self.operand_ty(operand)?;
                    self.write_value(value, dest, value_ty)
                } else {
                    if operands.len() != 0 {
                        return Err(EvalError::Malformed);
                    }
                    let zero = self.isize_primval(0);
                    self.write_primval(dest, zero)
                }
            },
            _ => Err(EvalError::Malformed),
        }
    }

    fn zero_sized(&self, operands: &Vec<Operand>) -> (r: Result<(), EvalError>)
        requires
            self.stack@.len() > 0,
        ensures
            r == self.env().zero_sized_upto(operands@, operands@.len()),
    {
        let mut i: usize = 0;
        while i < operands.len()
            invariant
                i <= operands@.len(),
                self.stack@.len() > 0,
                self.env().zero_sized_upto(operands@, i as nat) == Ok::<(), EvalError>(()),
            decreases operands@.len() - i,
        {
            proof {
                if self.env().zero_sized_upto(operands@, (i + 1) as nat) is Err {
                    self.env().lemma_zero_sized_fails(operands@, (i + 1) as nat, operands@.len());
                }
            }
            let ty = self.operand_ty(&operands[i])?;
            let size = self.type_size(ty)?;
            if size != 0 {
                return Err(EvalError::Malformed);
            }
            i += 1;
        }
        Ok(())
    }

    fn aggregate_struct_wrapped(
        &mut self,
        kind: AggregateKind,
        operands: &Vec<Operand>,
        dest: Lvalue,
        dest_ty: Ty,
        nndiscr: u64,
        nonnull: &Struct,
        discrfield: &Vec<u32>,
    ) -> (r: Result<(), EvalError>)
        requires
            old(self).stack@.len() > 0,
        ensures
            performs(
                old(self),
                old(self).env().aggregate_struct_wrapped(
                    old(self).memory@,
                    kind,
                    operands@,
                    dest,
                    dest_ty,
                    nndiscr,
                    *nonnull,
                    discrfield@,
                ),
                r,
                final(self),
            ),
    {
        proof {
            reveal(Env::aggregate_struct_wrapped);
        }
        match kind {
            AggregateKind::Adt(_, variant) => {
                if nndiscr == variant as u64 {
                    self.assign_fields(dest, FieldOffsets::Listed { offsets: &nonnull.offsets, skip: 0 }, operands)
                } else {
                    self.zero_sized(operands)?;
                    let offset = self.nonnull_offset(dest_ty, nndiscr, discrfield)?;
                    let dest = dest.to_ptr()?;
                    self.memory.write_isize(dest.offset_by(offset), 0)
                }
            },
            _ => Err(EvalError::Malformed),
        }
    }

    fn aggregate_c_enum(
        &mut self,
        kind: AggregateKind,
        operands: &Vec<Operand>,
        dest: Lvalue,
        discr: Integer,
        signed: bool,
    ) -> (r: Result<(), EvalError>)
        ensures
            performs(
                old(self),
                old(self).env().aggregate_c_enum(old(self).memory@, kind, operands@, dest, discr, signed),
                r,
                final(self),
            ),
    {
        proof {
            reveal(Env::aggregate_c_enum);
        }
        if operands.len() != 0 {
            return Err(EvalError::Malformed);
        }
        match kind {
            AggregateKind::Adt(adt, variant) => {
                let val = self.adt_discr(adt, variant)?;
                let size = discr.size();
                let dest = dest.to_ptr()?;
                if signed {
                    proof {
                        crate::bytes::lemma_pow256_values();
                    }
                    self.memory.write_int(dest, crate::bytes::bits_to_int(val, 8), size)
                } else {
                    self.memory.write_uint(dest, val, size)
                }
            },
            _ => Err(EvalError::Malformed),
        }
    }

    fn aggregate(
        &mut self,
        kind: AggregateKind,
        operands: &Vec<Operand>,
        dest: Lvalue,
        dest_ty: Ty,
        dest_layout: &Layout,
    ) -> (r: Result<(), EvalError>)
        requires
            old(self).stack@.len() > 0,
        ensures
            performs(
                old(self),
                old(self).env().aggregate(old(self).memory@, kind, operands@, dest, dest_ty, *dest_layout),
                r,
                final(self),
            ),
    {
        proof {
            reveal(Env::aggregate);
        }
        match dest_layout {
            Layout::Univariant(variant) => self.assign_fields(
                dest,
                FieldOffsets::Listed { offsets: &variant.offsets, skip: 0 },
                operands,
            ),
            Layout::Array => match self.kind(dest_ty)? {
                TyKind::Array(elem_ty, _) => {
                    let elem_size = self.type_size(*elem_ty)?;
                    self.assign_fields(dest, FieldOffsets::Strided { elem_size }, operands)
                },
                _ => Err(EvalError::Malformed),
            },
            Layout::General { discr, variants } => self.aggregate_general(kind, operands, dest, *discr, variants),
            Layout::RawNullablePointer { nndiscr } => self.aggregate_raw_nullable(kind, operands, dest, *nndiscr),
            Layout::StructWrappedNullablePointer { nndiscr, nonnull, discrfield } => self.aggregate_struct_wrapped(
                kind,
                operands,
                dest,
                dest_ty,
                *nndiscr,
                nonnull,
                discrfield,
            ),
            Layout::CEnum { discr, signed } => self.aggregate_c_enum(kind, operands, dest, *discr, *signed),
            _ => Err(EvalError::UnsupportedLayout),
        }
    }

    fn repeat(&mut self, operand: &Operand, dest: Lvalue, dest_ty: Ty) -> (r: Result<(), EvalError>)
        requires
            old(self).stack@.len() > 0,
        ensures
            performs(old(self), old(self).env().repeat(old(self).memory@, operand, dest, dest_ty), r, final(self)),
    {
        proof {
            reveal(Env::repeat);
        }
        let (elem_ty, length) = match self.kind(dest_ty)? {
            TyKind::Array(elem_ty, n) => (*elem_ty, *n),
            _ => {
                return Err(EvalError::Malformed);
            },
        };
        let elem_size = self.type_size(elem_ty)?;
        let value = self.eval_operand(operand)?;
        let dest = dest.to_ptr()?;
        let ghost env = self.env();
        let ghost mem1 = self.memory@;
        let mut i: u64 = 0;
        let mut failed: Option<EvalError> = None;
        let mut going = true;
        while i < length && going
            invariant
                i <= length,
                going == (failed is None),
                self.stack@.len() > 0,
                self.same_frames(old(self)),
                env == self.env(),
                match failed {
                    Some(e) => env.repeat_upto(mem1, value, dest, elem_ty, elem_size, length as nat) == Err::<
                        MemoryModel,
                        EvalError,
                    >(e),
                    None => env.repeat_upto(mem1, value, dest, elem_ty, elem_size, i as nat) == Ok::<
                        MemoryModel,
                        EvalError,
                    >(self.memory@),
                },
            decreases length - i + if going { 1int } else { 0int },
        {
            let elem_dest = dest.scaled(i as i128, elem_size);
            match self.write_value_to_ptr(value, elem_dest, elem_ty) {
                Ok(_) => {
                    i += 1;
                },
                Err(e) => {
                    proof {
                        assert(env.repeat_upto(mem1, value, dest, elem_ty, elem_size, (i + 1) as nat) == Err::<
                            MemoryModel,
                            EvalError,
                        >(e));
                        env.lemma_repeat_fails(mem1, value, dest, elem_ty, elem_size, (i + 1) as nat, length as nat);
                    }
                    failed = Some(e);
                    going = false;
                },
            }
        }
        match failed {
            Some(e) => Err(e),
            None => Ok(()),
        }
    }

    fn rvalue_len(&mut self, lvalue: &crate::mir::Lvalue, dest: Lvalue) -> (r: Result<(), EvalError>)
        requires
            old(self).stack@.len() > 0,
        ensures
            performs(old(self), old(self).env().rvalue_len(old(self).memory@, lvalue, dest), r, final(self)),
    {
        proof {
            reveal(Env::rvalue_len);
        }
        let src = self.eval_lvalue(lvalue)?;
        let ty = self.lvalue_ty(lvalue)?;
        let kind = self.kind(ty)?;
        let (_, len) = src.elem_ty_and_len(kind)?;
        let len_val = self.usize_primval(len);
        self.write_primval(dest, len_val)
    }

    fn rvalue_ref(&mut self, lvalue: &crate::mir::Lvalue, dest: Lvalue) -> (r: Result<(), EvalError>)
        requires
            old(self).stack@.len() > 0,
        ensures
            performs(old(self), old(self).env().rvalue_ref(old(self).memory@, lvalue, dest), r, final(self)),
    {
        proof {
            reveal(Env::rvalue_ref);
        }
        let dest = dest.to_ptr()?;
        let lvalue = self.eval_lvalue(lvalue)?;
        self.memory.write_ptr(dest, lvalue.ptr)?;
        let extra_ptr = dest.offset(self.memory.pointer_size() as i64);
        match lvalue.extra {
            LvalueExtra::Bare => Ok(()),
            LvalueExtra::Length(len) => self.memory.write_usize(extra_ptr, len),
            LvalueExtra::Vtable(ptr) => self.memory.write_ptr(extra_ptr, ptr),
            LvalueExtra::DowncastVariant(_) => Err(EvalError::Malformed),
        }
    }

    fn rvalue_box(&mut self, ty: Ty, dest: Lvalue) -> (r: Result<(), EvalError>)
        requires
            old(self).stack@.len() > 0,
        ensures
            performs(old(self), old(self).env().rvalue_box(old(self).memory@, ty, dest), r, final(self)),
    {
        proof {
            reveal(Env::rvalue_box);
        }
        let dest = dest.to_ptr()?;
        let substs = self.substs();
        let ptr = self.alloc_ptr(ty, substs)?;
        self.memory.write_ptr(dest, ptr)
    }

    fn cast_misc(&mut self, operand: &Operand, dest: Pointer, dest_ty: Ty) -> (r: Result<(), EvalError>)
        requires
            old(self).stack@.len() > 0,
        ensures
            performs(old(self), old(self).env().cast_misc(old(self).memory@, operand, dest, dest_ty), r, final(self)),
    {
        proof {
            reveal(Env::cast_misc);
        }
        let src = self.eval_operand(operand)?;
        let src_ty = self.operand_ty(operand)?;
        if self.type_is_fat_ptr(src_ty) {
            let ptr_size = self.memory.pointer_size();
            match (src, self.type_is_fat_ptr(dest_ty)) {
                (Value::ByValPair(data, meta), true) => {
                    self.memory.write_primval(dest, data)?;
                    self.memory.write_primval(dest.offset(ptr_size as i64), meta)
                },
                (Value::ByValPair(data, _), false) => self.memory.write_primval(dest, data),
                (Value::ByRef(ptr), true) => self.memory.copy(ptr, dest, ptr_size * 2, ptr_size),
                (Value::ByRef(ptr), false) => self.memory.copy(ptr, dest, ptr_size, ptr_size),
                (Value::ByVal(_), _) => Err(EvalError::Malformed),
            }
        } else {
            let src_val = self.value_to_primval(src, src_ty)?;
            let dest_val = self.cast_primval(src_val, dest_ty)?;
            self.memory.write_primval(dest, dest_val)
        }
    }

    fn cast_reify(&mut self, operand: &Operand, dest: Pointer) -> (r: Result<(), EvalError>)
        requires
            old(self).stack@.len() > 0,
        ensures
            performs(old(self), old(self).env().cast_reify(old(self).memory@, operand, dest), r, final(self)),
    {
        proof {
            reveal(Env::cast_reify);
        }
        let ty = self.operand_ty(operand)?;
        match self.kind(ty)? {
            TyKind::FnDef(def_id, substs, fn_ty) => {
                let fn_ptr = self.memory.create_fn_ptr(*def_id, *substs, *fn_ty);
                self.memory.write_ptr(dest, fn_ptr)
            },
            _ => Err(EvalError::Malformed),
        }
    }

    fn cast_unsafe_fn(&mut self, operand: &Operand, dest: Pointer, dest_ty: Ty) -> (r: Result<(), EvalError>)
        requires
            old(self).stack@.len() > 0,
        ensures
            performs(
                old(self),
                old(self).env().cast_unsafe_fn(old(self).memory@, operand, dest, dest_ty),
                r,
                final(self),
            ),
    {
        proof {
            reveal(Env::cast_unsafe_fn);
        }
        match self.kind(dest_ty)? {
            TyKind::FnPtr(unsafe_fn_ty) => {
                let src = self.eval_operand(operand)?;
                let ptr = src.read_ptr(&self.memory)?;
                let f = self.memory.get_fn(ptr.alloc_id)?;
                let fn_ptr = self.memory.create_fn_ptr(f.def_id, f.substs, *unsafe_fn_ty);
                self.memory.write_ptr(dest, fn_ptr)
            },
            _ => Err(EvalError::Malformed),
        }
    }

    fn cast(
        &mut self,
        kind: CastKind,
        operand: &Operand,
        dest: Lvalue,
        dest_ty: Ty,
    ) -> (r: Result<(), EvalError>)
        requires
            old(self).stack@.len() > 0,
        ensures
            performs(old(self), old(self).env().cast(old(self).memory@, kind, operand, dest, dest_ty), r, final(self)),
    {
        proof {
            reveal(Env::cast);
        }
        let dest = dest.to_ptr()?;
        match kind {
            CastKind::Unsize => {
                let src = self.eval_operand(operand)?;
                let src_ty = self.operand_ty(operand)?;
                self.unsize_into(src, src_ty, dest, dest_ty)
            },
            CastKind::Misc => self.cast_misc(operand, dest, dest_ty),
            CastKind::ReifyFnPointer => self.cast_reify(operand, dest),
            CastKind::UnsafeFnPointer => self.cast_unsafe_fn(operand, dest, dest_ty),
        }
    }

    fn eval_rvalue(
        &mut self,
        rvalue: &Rvalue,
        dest: Lvalue,
        dest_ty: Ty,
        dest_layout: &Layout,
    ) -> (r: Result<(), EvalError>)
        requires
            old(self).stack@.len() > 0,
        ensures
            performs(
                old(self),
                old(self).env().eval_rvalue(old(self).memory@, rvalue, dest, dest_ty, *dest_layout),
                r,
                final(self),
            ),
    {
        proof {
            reveal(Env::eval_rvalue);
        }
        match rvalue {
            Rvalue::Use(operand) => {
                let value = self.eval_operand(operand)?;
                self.write_value(value, dest, dest_ty)
            },
            Rvalue::BinaryOp(op, left, right) => {
                self.intrinsic_overflowing(*op, left, right, dest)?;
                Ok(())
            },
            Rvalue::CheckedBinaryOp(op, left, right) => self.intrinsic_with_overflow(*op, left, right, dest, dest_layout),
            Rvalue::UnaryOp(op, operand) => {
                let val = self.eval_operand_to_primval(operand)?;
                let res = unary_op(*op, val)?;
                self.write_primval(dest, res)
            },
            Rvalue::Aggregate(kind, operands) => self.aggregate(*kind, operands, dest, dest_ty, dest_layout),
            Rvalue::Repeat(operand, _) => self.repeat(operand, dest, dest_ty),
            Rvalue::Len(lvalue) => self.rvalue_len(lvalue, dest),
            Rvalue::Ref(lvalue) => self.rvalue_ref(lvalue, dest),
            Rvalue::Box(ty) => self.rvalue_box(*ty, dest),
            Rvalue::Cast(kind, operand, _) => self.cast(*kind, operand, dest, dest_ty),
            Rvalue::InlineAsm => Err(EvalError::InlineAsm),
        }
    }

    /// Evaluates an assignment. The result of each kind of right-hand side
    /// is written straight to the memory of the place on the left.
    pub fn eval_rvalue_into_lvalue(
        &mut self,
        rvalue: &Rvalue,
        lvalue: &crate::mir::Lvalue,
    ) -> (r: Result<(), EvalError>)
        requires
            old(self).stack@.len() > 0,
        ensures
            performs(
                old(self),
                old(self).env().eval_rvalue_into_lvalue(old(self).memory@, rvalue, lvalue),
                r,
                final(self),
            ),
    {
        let dest = self.eval_lvalue(lvalue)?;
        let dest_ty = self.lvalue_ty(lvalue)?;
        let dest_layout = self.type_layout(dest_ty)?;
        self.eval_rvalue(rvalue, dest, dest_ty, dest_layout)
    }
}

} // verus!
