//! The built-in operations: a fixed table from names to behaviours, used
//! in place of an ordinary call when the callee is a built-in.
use vstd::prelude::*;
use crate::error::EvalError;
use crate::interpreter::numeric::{numeric_intrinsic, spec_numeric_intrinsic, NumericOp};
use crate::interpreter::place::performs;
use crate::interpreter::value::Value;
use crate::interpreter::{Env, EvalContext, Lvalue};
use crate::memory::{MemoryModel, Pointer};
use crate::mir::{find_intrinsic, lookup_intrinsic, BinOp, Operand};
use crate::primval::{binary_op, spec_binary_op, PrimVal};
use crate::ty::{Layout, Substs, Ty, TyKind};

verus! {

/// The built-in operations that the interpreter knows.
#[derive(Clone, Copy, Debug, PartialEq, Eq, Structural)]
pub enum Intrinsic {
    AddWithOverflow,
    SubWithOverflow,
    MulWithOverflow,
    ArithOffset,
    Assume,
    Copy,
    CopyNonoverlapping,
    Ctpop,
    Cttz,
    Ctlz,
    Bswap,
    DiscriminantValue,
    Fabsf32,
    Fabsf64,
    FaddFast,
    Likely,
    Unlikely,
    Forget,
    Init,
    MinAlignOf,
    PrefAlignOf,
    MoveValInit,
    NeedsDrop,
    Offset,
    OverflowingSub,
    OverflowingMul,
    OverflowingAdd,
    Powif32,
    Powif64,
    Sqrtf32,
    Sqrtf64,
    SizeOf,
    SizeOfVal,
    TypeName,
    TypeId,
    Transmute,
    Uninit,
    VolatileLoad,
    VolatileStore,
}

/// The built-in operation with the given name.
pub open spec fn spec_intrinsic_of(name: Seq<char>) -> Option<Intrinsic> {
    if name == "add_with_overflow"@ {
        Some(Intrinsic::AddWithOverflow)
    } else if name == "sub_with_overflow"@ {
        Some(Intrinsic::SubWithOverflow)
    } else if name == "mul_with_overflow"@ {
        Some(Intrinsic::MulWithOverflow)
    } else if name == "arith_offset"@ {
        Some(Intrinsic::ArithOffset)
    } else if name == "assume"@ {
        Some(Intrinsic::Assume)
    } else if name == "copy"@ {
        Some(Intrinsic::Copy)
    } else if name == "copy_nonoverlapping"@ {
        Some(Intrinsic::CopyNonoverlapping)
    } else if name == "ctpop"@ {
        Some(Intrinsic::Ctpop)
    } else if name == "cttz"@ {
        Some(Intrinsic::Cttz)
    } else if name == "ctlz"@ {
        Some(Intrinsic::Ctlz)
    } else if name == "bswap"@ {
        Some(Intrinsic::Bswap)
    } else if name == "discriminant_value"@ {
        Some(Intrinsic::DiscriminantValue)
    } else if name == "fabsf32"@ {
        Some(Intrinsic::Fabsf32)
    } else if name == "fabsf64"@ {
        Some(Intrinsic::Fabsf64)
    } else if name == "fadd_fast"@ {
        Some(Intrinsic::FaddFast)
    } else if name == "likely"@ {
        Some(Intrinsic::Likely)
    } else if name == "unlikely"@ {
        Some(Intrinsic::Unlikely)
    } else if name == "forget"@ {
        Some(Intrinsic::Forget)
    } else if name == "init"@ {
        Some(Intrinsic::Init)
    } else if name == "min_align_of"@ {
        Some(Intrinsic::MinAlignOf)
    } else if name == "pref_align_of"@ {
        Some(Intrinsic::PrefAlignOf)
    } else if name == "move_val_init"@ {
        Some(Intrinsic::MoveValInit)
    } else if name == "needs_drop"@ {
        Some(Intrinsic::NeedsDrop)
    } else if name == "offset"@ {
        Some(Intrinsic::Offset)
    } else if name == "overflowing_sub"@ {
        Some(Intrinsic::OverflowingSub)
    } else if name == "overflowing_mul"@ {
        Some(Intrinsic::OverflowingMul)
    } else if name == "overflowing_add"@ {
        Some(Intrinsic::OverflowingAdd)
    } else if name == "powif32"@ {
        Some(Intrinsic::Powif32)
    } else if name == "powif64"@ {
        Some(Intrinsic::Powif64)
    } else if name == "sqrtf32"@ {
        Some(Intrinsic::Sqrtf32)
    } else if name == "sqrtf64"@ {
        Some(Intrinsic::Sqrtf64)
    } else if name == "size_of"@ {
        Some(Intrinsic::SizeOf)
    } else if name == "size_of_val"@ {
        Some(Intrinsic::SizeOfVal)
    } else if name == "type_name"@ {
        Some(Intrinsic::TypeName)
    } else if name == "type_id"@ {
        Some(Intrinsic::TypeId)
    } else if name == "transmute"@ {
        Some(Intrinsic::Transmute)
    } else if name == "uninit"@ {
        Some(Intrinsic::Uninit)
    } else if name == "volatile_load"@ {
        Some(Intrinsic::VolatileLoad)
    } else if name == "volatile_store"@ {
        Some(Intrinsic::VolatileStore)
    } else {
        None
    }
}

fn named(name: &String, literal: &str) -> (r: bool)
    ensures
        r == (name@ == literal@),
{
    let other = literal.to_owned();
    *name == other
}

/// Looks a name up in the table of built-in operations.
pub fn intrinsic_of(name: &String) -> (r: Option<Intrinsic>)
    ensures
        r == spec_intrinsic_of(name@),
{
    if named(name, "add_with_overflow") {
        Some(Intrinsic::AddWithOverflow)
    } else if named(name, "sub_with_overflow") {
        Some(Intrinsic::SubWithOverflow)
    } else if named(name, "mul_with_overflow") {
        Some(Intrinsic::MulWithOverflow)
    } else if named(name, "arith_offset") {
        Some(Intrinsic::ArithOffset)
    } else if named(name, "assume") {
        Some(Intrinsic::Assume)
    } else if named(name, "copy") {
        Some(Intrinsic::Copy)
    } else if named(name, "copy_nonoverlapping") {
        Some(Intrinsic::CopyNonoverlapping)
    } else if named(name, "ctpop") {
        Some(Intrinsic::Ctpop)
    } else if named(name, "cttz") {
        Some(Intrinsic::Cttz)
    } else if named(name, "ctlz") {
        Some(Intrinsic::Ctlz)
    } else if named(name, "bswap") {
        Some(Intrinsic::Bswap)
    } else if named(name, "discriminant_value") {
        Some(Intrinsic::DiscriminantValue)
    } else if named(name, "fabsf32") {
        Some(Intrinsic::Fabsf32)
    } else if named(name, "fabsf64") {
        Some(Intrinsic::Fabsf64)
    } else if named(name, "fadd_fast") {
        Some(Intrinsic::FaddFast)
    } else if named(name, "likely") {
        Some(Intrinsic::Likely)
    } else if named(name, "unlikely") {
        Some(Intrinsic::Unlikely)
    } else if named(name, "forget") {
        Some(Intrinsic::Forget)
    } else if named(name, "init") {
        Some(Intrinsic::Init)
    } else if named(name, "min_align_of") {
        Some(Intrinsic::MinAlignOf)
    } else if named(name, "pref_align_of") {
        Some(Intrinsic::PrefAlignOf)
    } else if named(name, "move_val_init") {
        Some(Intrinsic::MoveValInit)
    } else if named(name, "needs_drop") {
        Some(Intrinsic::NeedsDrop)
    } else if named(name, "offset") {
        Some(Intrinsic::Offset)
    } else if named(name, "overflowing_sub") {
        Some(Intrinsic::OverflowingSub)
    } else if named(name, "overflowing_mul") {
        Some(Intrinsic::OverflowingMul)
    } else if named(name, "overflowing_add") {
        Some(Intrinsic::OverflowingAdd)
    } else if named(name, "powif32") {
        Some(Intrinsic::Powif32)
    } else if named(name, "powif64") {
        Some(Intrinsic::Powif64)
    } else if named(name, "sqrtf32") {
        Some(Intrinsic::Sqrtf32)
    } else if named(name, "sqrtf64") {
        Some(Intrinsic::Sqrtf64)
    } else if named(name, "size_of") {
        Some(Intrinsic::SizeOf)
    } else if named(name, "size_of_val") {
        Some(Intrinsic::SizeOfVal)
    } else if named(name, "type_name") {
        Some(Intrinsic::TypeName)
    } else if named(name, "type_id") {
        Some(Intrinsic::TypeId)
    } else if named(name, "transmute") {
        Some(Intrinsic::Transmute)
    } else if named(name, "uninit") {
        Some(Intrinsic::Uninit)
    } else if named(name, "volatile_load") {
        Some(Intrinsic::VolatileLoad)
    } else if named(name, "volatile_store") {
        Some(Intrinsic::VolatileStore)
    } else {
        None
    }
}

/// `size` rounded up to a multiple of `align`.
pub open spec fn spec_round_up(size: u64, align: u64) -> Result<u64, EvalError> {
    if align == 0 {
        Err(EvalError::Malformed)
    } else if size % align == 0 {
        Ok(size)
    } else if size + (align - size % align) > u64::MAX {
        Err(EvalError::Malformed)
    } else {
        Ok((size + (align - size % align)) as u64)
    }
}

fn round_up(size: u64, align: u64) -> (r: Result<u64, EvalError>)
    ensures
        r == spec_round_up(size, align),
{
    if align == 0 {
        Err(EvalError::Malformed)
    } else {
        let rem: u64 = size % align;
        if rem == 0 {
            Ok(size)
        } else if align - rem > u64::MAX - size {
            Err(EvalError::Malformed)
        } else {
            Ok(size + (align - rem))
        }
    }
}

/// The value at position `i` of the evaluated arguments.
pub open spec fn spec_arg(vals: Seq<Value>, i: int) -> Result<Value, EvalError> {
    if 0 <= i < vals.len() {
        Ok(vals[i])
    } else {
        Err(EvalError::Malformed)
    }
}

fn arg(vals: &Vec<Value>, i: usize) -> (r: Result<Value, EvalError>)
    ensures
        r == spec_arg(vals@, i as int),
{
    if i < vals.len() {
        Ok(vals[i])
    } else {
        Err(EvalError::Malformed)
    }
}

/// The variant that a two-variant sum type holds when the word that is
/// never zero in variant `nndiscr` reads as `word`. A word that holds a
/// stored pointer is not zero.
pub open spec fn spec_nonnull_discriminant(
    word: Result<u64, EvalError>,
    nndiscr: u64,
) -> Result<u64, EvalError> {
    let not_null: Result<bool, EvalError> = match word {
        Ok(n) => Ok(n != 0),
        Err(EvalError::ReadPointerAsBytes) => Ok(true),
        Err(e) => Err(e),
    };
    match not_null {
        Err(e) => Err(e),
        Ok(b) => if nndiscr > 1 {
            Err(EvalError::Malformed)
        } else if b {
            Ok(nndiscr)
        } else {
            Ok((1 - nndiscr) as u64)
        },
    }
}

fn nonnull_discriminant(word: Result<u64, EvalError>, nndiscr: u64) -> (r: Result<u64, EvalError>)
    ensures
        r == spec_nonnull_discriminant(word, nndiscr),
{
    let not_null = match word {
        Ok(n) => n != 0,
        Err(EvalError::ReadPointerAsBytes) => true,
        Err(e) => {
            return Err(e);
        },
    };
    if nndiscr > 1 {
        Err(EvalError::Malformed)
    } else if not_null {
        Ok(nndiscr)
    } else {
        Ok(1 - nndiscr)
    }
}

impl<'a> Env<'a> {
    /// The size and the alignment of a value whose type may be unsized.
    /// A record with an unsized tail has the size of its sized part plus
    /// that of the tail, rounded up to the larger of the two alignments; a
    /// trait object has what slots 1 and 2 of its dispatch table say; a
    /// slice has its element count times the element size.
    pub open spec fn size_and_align_of_dst(
        &self,
        mem: MemoryModel,
        ty: Ty,
        value: Value,
    ) -> Result<(u64, u64), EvalError>
        decreases ty.0,
    {
        if self.type_is_sized(ty) {
            match (self.type_size(ty), self.type_align(ty)) {
                (Err(e), _) => Err(e),
                (_, Err(e)) => Err(e),
                (Ok(s), Ok(a)) => Ok((s, a)),
            }
        } else {
            match self.kind(ty) {
                Err(e) => Err(e),
                Ok(TyKind::Adt(_, _)) => match self.type_layout(ty) {
                    Err(e) => Err(e),
                    Ok(Layout::Univariant(variant)) => {
                        let sized_size: u64 = if variant.offsets@.len() == 0 {
                            0
                        } else {
                            variant.offsets@.last()
                        };
                        match self.program.types.spec_last_field(ty) {
                            None => Err(EvalError::Malformed),
                            Some(field_ty) => match self.size_and_align_of_dst(mem, field_ty, value) {
                                Err(e) => Err(e),
                                Ok((unsized_size, unsized_align)) => if sized_size + unsized_size > u64::MAX {
                                    Err(EvalError::Malformed)
                                } else {
                                    let align = if variant.align >= unsized_align {
                                        variant.align
                                    } else {
                                        unsized_align
                                    };
                                    match spec_round_up((sized_size + unsized_size) as u64, align) {
                                        Err(e) => Err(e),
                                        Ok(size) => Ok((size, align)),
                                    }
                                },
                            },
                        }
                    },
                    Ok(_) => Err(EvalError::Malformed),
                },
                Ok(TyKind::Trait(_)) => match value.spec_expect_vtable(mem) {
                    Err(e) => Err(e),
                    Ok(vtable) => match mem.read_usize(vtable.spec_displace(mem.pointer_size() as int)) {
                        Err(e) => Err(e),
                        Ok(size) => match mem.read_usize(vtable.spec_displace(2 * mem.pointer_size())) {
                            Err(e) => Err(e),
                            Ok(align) => Ok((size, align)),
                        },
                    },
                },
                Ok(TyKind::Slice(elem_ty)) => match (self.type_size(elem_ty), self.type_align(elem_ty)) {
                    (Err(e), _) => Err(e),
                    (_, Err(e)) => Err(e),
                    (Ok(elem_size), Ok(align)) => match value.spec_expect_slice_len(mem) {
                        Err(e) => Err(e),
                        Ok(len) => if len * elem_size > u64::MAX {
                            Err(EvalError::Malformed)
                        } else {
                            Ok(((len * elem_size) as u64, align))
                        },
                    },
                },
                Ok(TyKind::Str) => match value.spec_expect_slice_len(mem) {
                    Err(e) => Err(e),
                    Ok(len) => Ok((len, 1)),
                },
                Ok(_) => Err(EvalError::Malformed),
            }
        }
    }

    /// The value that tells which variant the sum type at `adt_ptr` holds.
    /// A type that is no sum type has the value 0.
    #[verifier::opaque]
    pub open spec fn read_discriminant_value(
        &self,
        mem: MemoryModel,
        adt_ptr: Pointer,
        adt_ty: Ty,
    ) -> Result<u64, EvalError> {
        match self.type_layout(adt_ty) {
            Err(e) => Err(e),
            Ok(Layout::General { discr, .. }) => mem.read_uint(adt_ptr, discr.spec_size()),
            Ok(Layout::CEnum { discr, .. }) => mem.read_uint(adt_ptr, discr.spec_size()),
            Ok(Layout::RawNullablePointer { nndiscr }) => spec_nonnull_discriminant(mem.read_usize(adt_ptr), nndiscr),
            Ok(Layout::StructWrappedNullablePointer { nndiscr, discrfield, .. }) => match self.nonnull_offset(
                adt_ty,
                nndiscr,
                discrfield@,
            ) {
                Err(e) => Err(e),
                Ok(offset) => spec_nonnull_discriminant(
                    mem.read_usize(adt_ptr.spec_displace(offset as int)),
                    nndiscr,
                ),
            },
            Ok(_) => Ok(0),
        }
    }

    /// The values of the first `n` operands, evaluated in order.
    pub open spec fn eval_operands_upto(
        &self,
        mem: MemoryModel,
        args: Seq<Operand>,
        n: nat,
    ) -> Result<(Seq<Value>, MemoryModel), EvalError>
        decreases n,
    {
        if n == 0 {
            Ok((Seq::empty(), mem))
        } else {
            match self.eval_operands_upto(mem, args, (n - 1) as nat) {
                Err(e) => Err(e),
                Ok((vals, m1)) => match self.eval_operand(m1, &args[n - 1]) {
                    Err(e) => Err(e),
                    Ok((v, m2)) => Ok((vals.push(v), m2)),
                },
            }
        }
    }

    /// Once evaluating some operand fails, evaluating all of them fails in
    /// the same way.
    pub proof fn lemma_eval_operands_fails(&self, mem: MemoryModel, args: Seq<Operand>, i: nat, n: nat)
        requires
            i <= n,
            self.eval_operands_upto(mem, args, i) is Err,
        ensures
            self.eval_operands_upto(mem, args, n) == self.eval_operands_upto(mem, args, i),
        decreases n,
    {
        if i < n {
            self.lemma_eval_operands_fails(mem, args, i, (n - 1) as nat);
        }
    }

    /// The built-ins that apply a binary operator to their first two
    /// arguments.
    #[verifier::opaque]
    pub open spec fn arith_intrinsic(
        &self,
        mem: MemoryModel,
        intrinsic: Intrinsic,
        args: Seq<Operand>,
        dest: Lvalue,
        dest_layout: Layout,
    ) -> Result<MemoryModel, EvalError> {
        if args.len() < 2 {
            Err(EvalError::Malformed)
        } else {
            match intrinsic {
                Intrinsic::AddWithOverflow => self.intrinsic_with_overflow(
                    mem,
                    BinOp::Add,
                    &args[0],
                    &args[1],
                    dest,
                    dest_layout,
                ),
                Intrinsic::SubWithOverflow => self.intrinsic_with_overflow(
                    mem,
                    BinOp::Sub,
                    &args[0],
                    &args[1],
                    dest,
                    dest_layout,
                ),
                Intrinsic::MulWithOverflow => self.intrinsic_with_overflow(
                    mem,
                    BinOp::Mul,
                    &args[0],
                    &args[1],
                    dest,
                    dest_layout,
                ),
                Intrinsic::OverflowingAdd => match self.intrinsic_overflowing(mem, BinOp::Add, &args[0], &args[1], dest) {
                    Err(e) => Err(e),
                    Ok((_, m)) => Ok(m),
                },
                Intrinsic::OverflowingSub => match self.intrinsic_overflowing(mem, BinOp::Sub, &args[0], &args[1], dest) {
                    Err(e) => Err(e),
                    Ok((_, m)) => Ok(m),
                },
                Intrinsic::OverflowingMul => match self.intrinsic_overflowing(mem, BinOp::Mul, &args[0], &args[1], dest) {
                    Err(e) => Err(e),
                    Ok((_, m)) => Ok(m),
                },
                _ => Err(EvalError::Malformed),
            }
        }
    }

    /// Pointer arithmetic. `arith_offset` moves an address by a number of
    /// bytes, `offset` by a number of values of the type argument.
    #[verifier::opaque]
    pub open spec fn pointer_intrinsic(
        &self,
        mem: MemoryModel,
        intrinsic: Intrinsic,
        substs: Substs,
        vals: Seq<Value>,
        dest: Lvalue,
    ) -> Result<MemoryModel, EvalError> {
        match intrinsic {
            Intrinsic::ArithOffset => match spec_arg(vals, 0) {
                Err(e) => Err(e),
                Ok(v0) => match v0.spec_read_ptr(mem) {
                    Err(e) => Err(e),
                    Ok(ptr) => match spec_arg(vals, 1) {
                        Err(e) => Err(e),
                        Ok(v1) => match self.value_to_primval(mem, v1, self.program.types.isize_ty) {
                            Err(e) => Err(e),
                            Ok((p, m1)) => match p.spec_expect_int() {
                                Err(e) => Err(e),
                                Ok(offset) => self.write_primval(m1, dest, PrimVal::Ptr(ptr.spec_offset(offset))),
                            },
                        },
                    },
                },
            },
            Intrinsic::Offset => match self.program.types.spec_type_at(substs, 0) {
                Err(e) => Err(e),
                Ok(pointee_ty) => match self.type_size(pointee_ty) {
                    Err(e) => Err(e),
                    Ok(pointee_size) => match spec_arg(vals, 1) {
                        Err(e) => Err(e),
                        Ok(v1) => match self.value_to_primval(mem, v1, self.program.types.isize_ty) {
                            Err(e) => Err(e),
                            Ok((p, m1)) => match p.spec_expect_int() {
                                Err(e) => Err(e),
                                Ok(offset) => match spec_arg(vals, 0) {
                                    Err(e) => Err(e),
                                    Ok(v0) => match v0.spec_read_ptr(m1) {
                                        Err(e) => Err(e),
                                        Ok(ptr) => self.write_primval(
                                            m1,
                                            dest,
                                            PrimVal::Ptr(ptr.spec_displace(offset * pointee_size)),
                                        ),
                                    },
                                },
                            },
                        },
                    },
                },
            },
            _ => Err(EvalError::Malformed),
        }
    }

    /// The built-ins that move or reset memory. Both copies take a source,
    /// a destination and a count of values of the type argument, and
    /// neither asks that the two ranges be apart: the bytes of the source
    /// are taken before any byte is written.
    #[verifier::opaque]
    pub open spec fn memory_intrinsic(
        &self,
        mem: MemoryModel,
        intrinsic: Intrinsic,
        substs: Substs,
        vals: Seq<Value>,
        dest: Lvalue,
        dest_ty: Ty,
    ) -> Result<MemoryModel, EvalError> {
        match intrinsic {
            Intrinsic::Copy | Intrinsic::CopyNonoverlapping => match self.program.types.spec_type_at(substs, 0) {
                Err(e) => Err(e),
                Ok(elem_ty) => match (self.type_size(elem_ty), self.type_align(elem_ty)) {
                    (Err(e), _) => Err(e),
                    (_, Err(e)) => Err(e),
                    (Ok(elem_size), Ok(elem_align)) => match (spec_arg(vals, 0), spec_arg(vals, 1), spec_arg(vals, 2)) {
                        (Ok(v0), Ok(v1), Ok(v2)) => match v0.spec_read_ptr(mem) {
                            Err(e) => Err(e),
                            Ok(src) => match v1.spec_read_ptr(mem) {
                                Err(e) => Err(e),
                                Ok(dest_ptr) => match self.value_to_primval(mem, v2, self.program.types.usize_ty) {
                                    Err(e) => Err(e),
                                    Ok((p, m1)) => match p.spec_expect_uint() {
                                        Err(e) => Err(e),
                                        Ok(count) => if count * elem_size > u64::MAX {
                                            Err(EvalError::Malformed)
                                        } else {
                                            m1.copy(src, dest_ptr, (count * elem_size) as u64, elem_align)
                                        },
                                    },
                                },
                            },
                        },
                        _ => Err(EvalError::Malformed),
                    },
                },
            },
            Intrinsic::Init => match dest.spec_to_ptr() {
                Err(e) => Err(e),
                Ok(p) => match self.type_size(dest_ty) {
                    Err(e) => Err(e),
                    Ok(size) => mem.write_repeat(p, 0, size),
                },
            },
            Intrinsic::Uninit => match dest.spec_to_ptr() {
                Err(e) => Err(e),
                Ok(p) => match self.type_size(dest_ty) {
                    Err(e) => Err(e),
                    Ok(size) => mem.mark_definedness(p, size, false),
                },
            },
            Intrinsic::MoveValInit | Intrinsic::VolatileStore => match self.program.types.spec_type_at(substs, 0) {
                Err(e) => Err(e),
                Ok(ty) => match (spec_arg(vals, 0), spec_arg(vals, 1)) {
                    (Ok(v0), Ok(v1)) => match v0.spec_read_ptr(mem) {
                        Err(e) => Err(e),
                        Ok(ptr) => self.write_value_to_ptr(mem, v1, ptr, ty),
                    },
                    _ => Err(EvalError::Malformed),
                },
            },
            Intrinsic::VolatileLoad => match self.program.types.spec_type_at(substs, 0) {
                Err(e) => Err(e),
                Ok(ty) => match spec_arg(vals, 0) {
                    Err(e) => Err(e),
                    Ok(v0) => match v0.spec_read_ptr(mem) {
                        Err(e) => Err(e),
                        Ok(ptr) => self.write_value(mem, Value::ByRef(ptr), dest, ty),
                    },
                },
            },
            Intrinsic::Transmute => match self.program.types.spec_type_at(substs, 0) {
                Err(e) => Err(e),
                Ok(ty) => match spec_arg(vals, 0) {
                    Err(e) => Err(e),
                    Ok(v0) => self.write_value(mem, v0, dest, ty),
                },
            },
            _ => Err(EvalError::Malformed),
        }
    }

    /// The built-ins that answer a question about their type argument, or
    /// about a value of it.
    #[verifier::opaque]
    pub open spec fn query_intrinsic(
        &self,
        mem: MemoryModel,
        intrinsic: Intrinsic,
        substs: Substs,
        vals: Seq<Value>,
        dest: Lvalue,
        dest_ty: Ty,
    ) -> Result<MemoryModel, EvalError> {
        match self.program.types.spec_type_at(substs, 0) {
            Err(e) => Err(e),
            Ok(ty) => match intrinsic {
                Intrinsic::MinAlignOf => match self.type_align(ty) {
                    Err(e) => Err(e),
                    Ok(align) => self.write_primval(mem, dest, self.usize_primval(mem, align)),
                },
                Intrinsic::PrefAlignOf => match self.type_info(ty) {
                    Err(e) => Err(e),
                    Ok(info) => self.write_primval(mem, dest, self.usize_primval(mem, info.pref_align)),
                },
                Intrinsic::SizeOf => match self.type_size(ty) {
                    Err(e) => Err(e),
                    Ok(size) => self.write_primval(mem, dest, self.usize_primval(mem, size)),
                },
                Intrinsic::SizeOfVal => match spec_arg(vals, 0) {
                    Err(e) => Err(e),
                    Ok(v0) => match self.size_and_align_of_dst(mem, ty, v0) {
                        Err(e) => Err(e),
                        Ok((size, _)) => self.write_primval(mem, dest, self.usize_primval(mem, size)),
                    },
                },
                Intrinsic::NeedsDrop => match self.program.types.spec_info(ty) {
                    None => Err(EvalError::Malformed),
                    Some(info) => self.write_primval(mem, dest, PrimVal::Bool(info.needs_drop)),
                },
                Intrinsic::TypeId => match self.program.types.spec_info(ty) {
                    None => Err(EvalError::Malformed),
                    Some(info) => self.write_primval(mem, dest, PrimVal::U64(info.id_hash)),
                },
                Intrinsic::TypeName => match self.program.types.spec_info(ty) {
                    None => Err(EvalError::Malformed),
                    Some(info) => match self.str_to_value(mem, info.name@) {
                        Err(e) => Err(e),
                        Ok((s, m1)) => self.write_value(m1, s, dest, dest_ty),
                    },
                },
                Intrinsic::DiscriminantValue => match spec_arg(vals, 0) {
                    Err(e) => Err(e),
                    Ok(v0) => match v0.spec_read_ptr(mem) {
                        Err(e) => Err(e),
                        Ok(adt_ptr) => match self.read_discriminant_value(mem, adt_ptr, ty) {
                            Err(e) => Err(e),
                            Ok(discr_val) => self.write_primval(mem, dest, PrimVal::U64(discr_val)),
                        },
                    },
                },
                _ => Err(EvalError::Malformed),
            },
        }
    }

    /// The built-ins that compute on one value. The absolute value of a
    /// floating-point number clears the sign bit of its pattern; the other
    /// floating-point built-ins are not performed.
    #[verifier::opaque]
    pub open spec fn value_intrinsic(
        &self,
        mem: MemoryModel,
        intrinsic: Intrinsic,
        substs: Substs,
        vals: Seq<Value>,
        dest: Lvalue,
    ) -> Result<MemoryModel, EvalError> {
        match intrinsic {
            Intrinsic::Assume => match spec_arg(vals, 0) {
                Err(e) => Err(e),
                Ok(v0) => match self.value_to_primval(mem, v0, self.program.types.bool_ty) {
                    Err(e) => Err(e),
                    Ok((p, m1)) => match p.spec_expect_bool() {
                        Err(e) => Err(e),
                        Ok(b) => if b {
                            Ok(m1)
                        } else {
                            Err(EvalError::AssumptionNotHeld)
                        },
                    },
                },
            },
            Intrinsic::Ctpop | Intrinsic::Cttz | Intrinsic::Ctlz | Intrinsic::Bswap => match self.program.types.spec_type_at(
                substs,
                0,
            ) {
                Err(e) => Err(e),
                Ok(elem_ty) => match spec_arg(vals, 0) {
                    Err(e) => Err(e),
                    Ok(v0) => match self.value_to_primval(mem, v0, elem_ty) {
                        Err(e) => Err(e),
                        Ok((num, m1)) => match spec_numeric_intrinsic(spec_numeric_op(intrinsic), num) {
                            Err(e) => Err(e),
                            Ok(res) => self.write_primval(m1, dest, res),
                        },
                    },
                },
            },
            Intrinsic::Fabsf32 => match spec_arg(vals, 0) {
                Err(e) => Err(e),
                Ok(v0) => match self.value_to_primval(mem, v0, self.program.types.f32_ty) {
                    Err(e) => Err(e),
                    Ok((p, m1)) => match p.spec_expect_f32() {
                        Err(e) => Err(e),
                        Ok(b) => self.write_primval(
                            m1,
                            dest,
                            PrimVal::F32(if b >= 0x8000_0000 { (b - 0x8000_0000) as u32 } else { b }),
                        ),
                    },
                },
            },
            Intrinsic::Fabsf64 => match spec_arg(vals, 0) {
                Err(e) => Err(e),
                Ok(v0) => match self.value_to_primval(mem, v0, self.program.types.f64_ty) {
                    Err(e) => Err(e),
                    Ok((p, m1)) => match p.spec_expect_f64() {
                        Err(e) => Err(e),
                        Ok(b) => self.write_primval(
                            m1,
                            dest,
                            PrimVal::F64(
                                if b >= 0x8000_0000_0000_0000 {
                                    (b - 0x8000_0000_0000_0000) as u64
                                } else {
                                    b
                                },
                            ),
                        ),
                    },
                },
            },
            Intrinsic::FaddFast => match self.program.types.spec_type_at(substs, 0) {
                Err(e) => Err(e),
                Ok(ty) => match spec_arg(vals, 0) {
                    Err(e) => Err(e),
                    Ok(v0) => match self.value_to_primval(mem, v0, ty) {
                        Err(e) => Err(e),
                        Ok((a, m1)) => match self.value_to_primval(m1, v0, ty) {
                            Err(e) => Err(e),
                            Ok((b, m2)) => match spec_binary_op(BinOp::Add, a, b) {
                                Err(e) => Err(e),
                                Ok((res, _)) => self.write_primval(m2, dest, res),
                            },
                        },
                    },
                },
            },
            Intrinsic::Powif32 | Intrinsic::Powif64 | Intrinsic::Sqrtf32 | Intrinsic::Sqrtf64 => Err(
                EvalError::UnsupportedFloat,
            ),
            Intrinsic::Likely | Intrinsic::Unlikely | Intrinsic::Forget => Ok(mem),
            _ => Err(EvalError::Malformed),
        }
    }

    /// What a built-in operation does, given the values of its arguments.
    pub open spec fn intrinsic_effect(
        &self,
        mem: MemoryModel,
        intrinsic: Intrinsic,
        substs: Substs,
        args: Seq<Operand>,
        vals: Seq<Value>,
        dest: Lvalue,
        dest_ty: Ty,
        dest_layout: Layout,
    ) -> Result<MemoryModel, EvalError> {
        match intrinsic {
            Intrinsic::AddWithOverflow
            | Intrinsic::SubWithOverflow
            | Intrinsic::MulWithOverflow
            | Intrinsic::OverflowingAdd
            | Intrinsic::OverflowingSub
            | Intrinsic::OverflowingMul => self.arith_intrinsic(mem, intrinsic, args, dest, dest_layout),
            Intrinsic::ArithOffset | Intrinsic::Offset => self.pointer_intrinsic(mem, intrinsic, substs, vals, dest),
            Intrinsic::Copy
            | Intrinsic::CopyNonoverlapping
            | Intrinsic::Init
            | Intrinsic::Uninit
            | Intrinsic::MoveValInit
            | Intrinsic::VolatileLoad
            | Intrinsic::VolatileStore
            | Intrinsic::Transmute => self.memory_intrinsic(mem, intrinsic, substs, vals, dest, dest_ty),
            Intrinsic::MinAlignOf
            | Intrinsic::PrefAlignOf
            | Intrinsic::SizeOf
            | Intrinsic::SizeOfVal
            | Intrinsic::NeedsDrop
            | Intrinsic::TypeId
            | Intrinsic::TypeName
            | Intrinsic::DiscriminantValue => self.query_intrinsic(mem, intrinsic, substs, vals, dest, dest_ty),
            _ => self.value_intrinsic(mem, intrinsic, substs, vals, dest),
        }
    }

    /// What a call of the built-in operation `def_id` does: the arguments
    /// are evaluated in order, then the operation that the name of the item
    /// stands for is carried out. An item that the program does not list as
    /// a built-in operation is malformed; a name that is not in the table
    /// of built-in operations is an error that names the item.
    pub open spec fn call_intrinsic(
        &self,
        mem: MemoryModel,
        def_id: crate::ty::DefId,
        substs: Substs,
        args: Seq<Operand>,
        dest: Lvalue,
        dest_ty: Ty,
        dest_layout: Layout,
    ) -> Result<MemoryModel, EvalError> {
        match find_intrinsic(self.program.intrinsics@, def_id, 0) {
            None => Err(EvalError::Malformed),
            Some(i) => match self.eval_operands_upto(mem, args, args.len()) {
                Err(e) => Err(e),
                Ok((vals, m1)) => match spec_intrinsic_of(self.program.intrinsics@[i].name@) {
                    None => Err(EvalError::UnimplementedIntrinsic(def_id)),
                    Some(intrinsic) => self.intrinsic_effect(
                        m1,
                        intrinsic,
                        substs,
                        args,
                        vals,
                        dest,
                        dest_ty,
                        dest_layout,
                    ),
                },
            },
        }
    }
}

/// The bit operation that a built-in of that kind stands for.
pub open spec fn spec_numeric_op(intrinsic: Intrinsic) -> NumericOp {
    match intrinsic {
        Intrinsic::Ctpop => NumericOp::Ctpop,
        Intrinsic::Cttz => NumericOp::Cttz,
        Intrinsic::Ctlz => NumericOp::Ctlz,
        _ => NumericOp::Bswap,
    }
}

fn numeric_op(intrinsic: Intrinsic) -> (r: NumericOp)
    ensures
        r == spec_numeric_op(intrinsic),
{
    match intrinsic {
        Intrinsic::Ctpop => NumericOp::Ctpop,
        Intrinsic::Cttz => NumericOp::Cttz,
        Intrinsic::Ctlz => NumericOp::Ctlz,
        _ => NumericOp::Bswap,
    }
}

impl<'a> EvalContext<'a> {
    /// The type of a field, which the table holds fully instantiated.
    pub fn field_ty(&self, substs: Substs, field: Ty) -> (r: Ty)
        ensures
            r == self.program.types.spec_monomorphize(field, substs),
    {
        self.program.types.monomorphize(field, substs)
    }

    /// The size and the alignment of a value whose type may be unsized.
    pub fn size_and_align_of_dst(&self, ty: Ty, value: Value) -> (r: Result<(u64, u64), EvalError>)
        requires
            self.stack@.len() > 0,
        ensures
            r == self.env().size_and_align_of_dst(self.memory@, ty, value),
        decreases ty.0,
    {
        let pointer_size = self.memory.pointer_size();
        if self.type_is_sized(ty) {
            let s = self.type_size(ty);
            let a = self.type_align(ty);
            match (s, a) {
                (Err(e), _) => Err(e),
                (_, Err(e)) => Err(e),
                (Ok(s), Ok(a)) => Ok((s, a)),
            }
        } else {
            match self.kind(ty)? {
                TyKind::Adt(_, _) => match self.type_layout(ty)? {
                    Layout::Univariant(variant) => {
                        let sized_size: u64 = if variant.offsets.len() == 0 {
                            0
                        } else {
                            variant.offsets[variant.offsets.len() - 1]
                        };
                        match self.program.types.last_field(ty) {
                            None => Err(EvalError::Malformed),
                            Some(field_ty) => {
                                let (unsized_size, unsized_align) = self.size_and_align_of_dst(field_ty, value)?;
                                if unsized_size > u64::MAX - sized_size {
                                    Err(EvalError::Malformed)
                                } else {
                                    let align = if variant.align >= unsized_align {
                                        variant.align
                                    } else {
                                        unsized_align
                                    };
                                    let size = round_up(sized_size + unsized_size, align)?;
                                    Ok((size, align))
                                }
                            },
                        }
                    },
                    _ => Err(EvalError::Malformed),
                },
                TyKind::Trait(_) => {
                    let vtable = value.expect_vtable(&self.memory)?;
                    let size = self.memory.read_usize(vtable.offset_by(pointer_size))?;
                    let align = self.memory.read_usize(vtable.offset_by(2 * pointer_size))?;
                    Ok((size, align))
                },
                TyKind::Slice(elem_ty) => {
                    let s = self.type_size(*elem_ty);
                    let a = self.type_align(*elem_ty);
                    match (s, a) {
                        (Err(e), _) => Err(e),
                        (_, Err(e)) => Err(e),
                        (Ok(elem_size), Ok(align)) => {
                            let len = value.expect_slice_len(&self.memory)?;
                            if elem_size != 0 && len > u64::MAX / elem_size {
                                assert(len * elem_size > u64::MAX) by (nonlinear_arith)
                                    requires
                                        elem_size > 0,
                                        len > u64::MAX / elem_size,
                                ;
                                Err(EvalError::Malformed)
                            } else {
                                assert(len * elem_size <= u64::MAX) by (nonlinear_arith)
                                    requires
                                        elem_size == 0 || len <= u64::MAX / elem_size,
                                        len >= 0,
                                        elem_size >= 0,
                                ;
                                Ok((len * elem_size, align))
                            }
                        },
                    }
                },
                TyKind::Str => {
                    let len = value.expect_slice_len(&self.memory)?;
                    Ok((len, 1))
                },
                _ => Err(EvalError::Malformed),
            }
        }
    }

    /// Reads which variant the sum type at `adt_ptr` holds.
    pub fn read_discriminant_value(&self, adt_ptr: Pointer, adt_ty: Ty) -> (r: Result<u64, EvalError>)
        requires
            self.stack@.len() > 0,
        ensures
            r == self.env().read_discriminant_value(self.memory@, adt_ptr, adt_ty),
    {
        proof {
            reveal(Env::read_discriminant_value);
        }
        match self.type_layout(adt_ty)? {
            Layout::General { discr, .. } => self.memory.read_uint(adt_ptr, discr.size()),
            Layout::CEnum { discr, .. } => self.memory.read_uint(adt_ptr, discr.size()),
            Layout::RawNullablePointer { nndiscr } => nonnull_discriminant(self.memory.read_usize(adt_ptr), *nndiscr),
            Layout::StructWrappedNullablePointer { nndiscr, discrfield, .. } => {
                let offset = self.nonnull_offset(adt_ty, *nndiscr, discrfield)?;
                nonnull_discriminant(self.memory.read_usize(adt_ptr.offset_by(offset)), *nndiscr)
            },
            _ => Ok(0),
        }
    }

    /// Evaluates operands in order.
    pub fn eval_operands(&mut self, args: &Vec<Operand>) -> (r: Result<Vec<Value>, EvalError>)
        requires
            old(self).stack@.len() > 0,
        ensures
            final(self).same_frames(old(self)),
            match old(self).env().eval_operands_upto(old(self).memory@, args@, args@.len()) {
                Ok((vals, m)) => r matches Ok(v) && v@ == vals && final(self).memory@ == m,
                Err(e) => r matches Err(x) && x == e,
            },
    {
        let ghost env = self.env();
        let ghost mem0 = self.memory@;
        let mut vals: Vec<Value> = Vec::new();
        let mut i: usize = 0;
        let mut failed: Option<EvalError> = None;
        let mut going = true;
        while i < args.len() && going
            invariant
                i <= args@.len(),
                going == (failed is None),
                self.stack@.len() > 0,
                self.same_frames(old(self)),
                env == self.env(),
                match failed {
                    Some(e) => env.eval_operands_upto(mem0, args@, args@.len()) == Err::<
                        (Seq<Value>, MemoryModel),
                        EvalError,
                    >(e),
                    None => env.eval_operands_upto(mem0, args@, i as nat) == Ok::<
                        (Seq<Value>, MemoryModel),
                        EvalError,
                    >((vals@, self.memory@)),
                },
            decreases args@.len() - i + if going { 1int } else { 0int },
        {
            match self.eval_operand(&args[i]) {
                Ok(v) => {
                    vals.push(v);
                    i += 1;
                },
                Err(e) => {
                    proof {
                        assert(env.eval_operands_upto(mem0, args@, (i + 1) as nat) == Err::<
                            (Seq<Value>, MemoryModel),
                            EvalError,
                        >(e));
                        env.lemma_eval_operands_fails(mem0, args@, (i + 1) as nat, args@.len());
                    }
                    failed = Some(e);
                    going = false;
                },
            }
        }
        match failed {
            Some(e) => Err(e),
            None => Ok(vals),
        }
    }

    fn arith_intrinsic(
        &mut self,
        intrinsic: Intrinsic,
        args: &Vec<Operand>,
        dest: Lvalue,
        dest_layout: &Layout,
    ) -> (r: Result<(), EvalError>)
        requires
            old(self).stack@.len() > 0,
        ensures
            performs(
                old(self),
                old(self).env().arith_intrinsic(old(self).memory@, intrinsic, args@, dest, *dest_layout),
                r,
                final(self),
            ),
    {
        proof {
            reveal(Env::arith_intrinsic);
        }
        if args.len() < 2 {
            return Err(EvalError::Malformed);
        }
        match intrinsic {
            Intrinsic::AddWithOverflow => self.intrinsic_with_overflow(BinOp::Add, &args[0], &args[1], dest, dest_layout),
            Intrinsic::SubWithOverflow => self.intrinsic_with_overflow(BinOp::Sub, &args[0], &args[1], dest, dest_layout),
            Intrinsic::MulWithOverflow => self.intrinsic_with_overflow(BinOp::Mul, &args[0], &args[1], dest, dest_layout),
            Intrinsic::OverflowingAdd => {
                self.intrinsic_overflowing(BinOp::Add, &args[0], &args[1], dest)?;
                Ok(())
            },
            Intrinsic::OverflowingSub => {
                self.intrinsic_overflowing(BinOp::Sub, &args[0], &args[1], dest)?;
                Ok(())
            },
            Intrinsic::OverflowingMul => {
                self.intrinsic_overflowing(BinOp::Mul, &args[0], &args[1], dest)?;
                Ok(())
            },
            _ => Err(EvalError::Malformed),
        }
    }

    fn pointer_intrinsic(
        &mut self,
        intrinsic: Intrinsic,
        substs: Substs,
        vals: &Vec<Value>,
        dest: Lvalue,
    ) -> (r: Result<(), EvalError>)
        requires
            old(self).stack@.len() > 0,
        ensures
            performs(
                old(self),
                old(self).env().pointer_intrinsic(old(self).memory@, intrinsic, substs, vals@, dest),
                r,
                final(self),
            ),
    {
        proof {
            reveal(Env::pointer_intrinsic);
        }
        let isize_ty = self.program.types.isize_ty;
        match intrinsic {
            Intrinsic::ArithOffset => {
                let ptr = arg(vals, 0)?.read_ptr(&self.memory)?;
                let v1 = arg(vals, 1)?;
                let offset = self.value_to_primval(v1, isize_ty)?.expect_int()?;
                let new_ptr = ptr.offset(offset);
                self.write_primval(dest, PrimVal::Ptr(new_ptr))
            },
            Intrinsic::Offset => {
                let pointee_ty = self.program.types.type_at(substs, 0)?;
                let pointee_size = self.type_size(pointee_ty)?;
                let v1 = arg(vals, 1)?;
                let offset = self.value_to_primval(v1, isize_ty)?.expect_int()?;
                let ptr = arg(vals, 0)?.read_ptr(&self.memory)?;
                let result_ptr = ptr.scaled(offset as i128, pointee_size);
                self.write_primval(dest, PrimVal::Ptr(result_ptr))
            },
            _ => Err(EvalError::Malformed),
        }
    }

    fn memory_intrinsic(
        &mut self,
        intrinsic: Intrinsic,
        substs: Substs,
        vals: &Vec<Value>,
        dest: Lvalue,
        dest_ty: Ty,
    ) -> (r: Result<(), EvalError>)
        requires
            old(self).stack@.len() > 0,
        ensures
            performs(
                old(self),
                old(self).env().memory_intrinsic(old(self).memory@, intrinsic, substs, vals@, dest, dest_ty),
                r,
                final(self),
            ),
    {
        proof {
            reveal(Env::memory_intrinsic);
        }
        match intrinsic {
            Intrinsic::Copy | Intrinsic::CopyNonoverlapping => {
                let elem_ty = self.program.types.type_at(substs, 0)?;
                let s = self.type_size(elem_ty);
                let a = self.type_align(elem_ty);
                let (elem_size, elem_align) = match (s, a) {
                    (Err(e), _) => {
                        return Err(e);
                    },
                    (_, Err(e)) => {
                        return Err(e);
                    },
                    (Ok(s), Ok(a)) => (s, a),
                };
                let (v0, v1, v2) = match (arg(vals, 0), arg(vals, 1), arg(vals, 2)) {
                    (Ok(v0), Ok(v1), Ok(v2)) => (v0, v1, v2),
                    _ => {
                        return Err(EvalError::Malformed);
                    },
                };
                let src = v0.read_ptr(&self.memory)?;
                let dest_ptr = v1.read_ptr(&self.memory)?;
                let usize_ty = self.program.types.usize_ty;
                let count = self.value_to_primval(v2, usize_ty)?.expect_uint()?;
                if elem_size != 0 && count > u64::MAX / elem_size {
                    assert(count * elem_size > u64::MAX) by (nonlinear_arith)
                        requires
                            elem_size > 0,
                            count > u64::MAX / elem_size,
                    ;
                    return Err(EvalError::Malformed);
                }
                assert(count * elem_size <= u64::MAX) by (nonlinear_arith)
                    requires
                        elem_size == 0 || count <= u64::MAX / elem_size,
                        count >= 0,
                        elem_size >= 0,
                ;
                self.memory.copy(src, dest_ptr, count * elem_size, elem_align)
            },
            Intrinsic::Init => {
                let dest = dest.to_ptr()?;
                let size = self.type_size(dest_ty)?;
                self.memory.write_repeat(dest, 0, size)
            },
            Intrinsic::Uninit => {
                let dest = dest.to_ptr()?;
                let size = self.type_size(dest_ty)?;
                self.memory.mark_definedness(dest, size, false)
            },
            Intrinsic::MoveValInit | Intrinsic::VolatileStore => {
                let ty = self.program.types.type_at(substs, 0)?;
                let (v0, v1) = match (arg(vals, 0), arg(vals, 1)) {
                    (Ok(v0), Ok(v1)) => (v0, v1),
                    _ => {
                        return Err(EvalError::Malformed);
                    },
                };
                let ptr = v0.read_ptr(&self.memory)?;
                self.write_value_to_ptr(v1, ptr, ty)
            },
            Intrinsic::VolatileLoad => {
                let ty = self.program.types.type_at(substs, 0)?;
                let ptr = arg(vals, 0)?.read_ptr(&self.memory)?;
                self.write_value(Value::ByRef(ptr), dest, ty)
            },
            Intrinsic::Transmute => {
                let ty = self.program.types.type_at(substs, 0)?;
                let v0 = arg(vals, 0)?;
                self.write_value(v0, dest, ty)
            },
            _ => Err(EvalError::Malformed),
        }
    }

    fn query_intrinsic(
        &mut self,
        intrinsic: Intrinsic,
        substs: Substs,
        vals: &Vec<Value>,
        dest: Lvalue,
        dest_ty: Ty,
    ) -> (r: Result<(), EvalError>)
        requires
            old(self).stack@.len() > 0,
        ensures
            performs(
                old(self),
                old(self).env().query_intrinsic(old(self).memory@, intrinsic, substs, vals@, dest, dest_ty),
                r,
                final(self),
            ),
    {
        proof {
            reveal(Env::query_intrinsic);
        }
        let program = self.program;
        let ty = program.types.type_at(substs, 0)?;
        match intrinsic {
            Intrinsic::MinAlignOf => {
                let align = self.type_align(ty)?;
                let val = self.usize_primval(align);
                self.write_primval(dest, val)
            },
            Intrinsic::PrefAlignOf => {
                let align = self.type_info(ty)?.pref_align;
                let val = self.usize_primval(align);
                self.write_primval(dest, val)
            },
            Intrinsic::SizeOf => {
                let size = self.type_size(ty)?;
                let val = self.usize_primval(size);
                self.write_primval(dest, val)
            },
            Intrinsic::SizeOfVal => {
                let v0 = arg(vals, 0)?;
                let (size, _) = self.size_and_align_of_dst(ty, v0)?;
                let val = self.usize_primval(size);
                self.write_primval(dest, val)
            },
            Intrinsic::NeedsDrop => match program.types.info(ty) {
                None => Err(EvalError::Malformed),
                Some(info) => self.write_primval(dest, PrimVal::Bool(info.needs_drop)),
            },
            Intrinsic::TypeId => match program.types.info(ty) {
                None => Err(EvalError::Malformed),
                Some(info) => self.write_primval(dest, PrimVal::U64(info.id_hash)),
            },
            Intrinsic::TypeName => match program.types.info(ty) {
                None => Err(EvalError::Malformed),
                Some(info) => {
                    let s = self.str_to_value(info.name.as_str())?;
                    self.write_value(s, dest, dest_ty)
                },
            },
            Intrinsic::DiscriminantValue => {
                let adt_ptr = arg(vals, 0)?.read_ptr(&self.memory)?;
                let discr_val = self.read_discriminant_value(adt_ptr, ty)?;
                self.write_primval(dest, PrimVal::U64(discr_val))
            },
            _ => Err(EvalError::Malformed),
        }
    }

    fn value_intrinsic(
        &mut self,
        intrinsic: Intrinsic,
        substs: Substs,
        vals: &Vec<Value>,
        dest: Lvalue,
    ) -> (r: Result<(), EvalError>)
        requires
            old(self).stack@.len() > 0,
        ensures
            performs(
                old(self),
                old(self).env().value_intrinsic(old(self).memory@, intrinsic, substs, vals@, dest),
                r,
                final(self),
            ),
    {
        proof {
            reveal(Env::value_intrinsic);
        }
        match intrinsic {
            Intrinsic::Assume => {
                let v0 = arg(vals, 0)?;
                let bool_ty = self.program.types.bool_ty;
                if !self.value_to_primval(v0, bool_ty)?.expect_bool()? {
                    return Err(EvalError::AssumptionNotHeld);
                }
                Ok(())
            },
            Intrinsic::Ctpop | Intrinsic::Cttz | Intrinsic::Ctlz | Intrinsic::Bswap => {
                let elem_ty = self.program.types.type_at(substs, 0)?;
                let v0 = arg(vals, 0)?;
                let num = self.value_to_primval(v0, elem_ty)?;
                let num = numeric_intrinsic(numeric_op(intrinsic), num)?;
                self.write_primval(dest, num)
            },
            Intrinsic::Fabsf32 => {
                let v0 = arg(vals, 0)?;
                let f32_ty = self.program.types.f32_ty;
                let b = self.value_to_primval(v0, f32_ty)?.expect_f32()?;
                let abs: u32 = if b >= 0x8000_0000 {
                    b - 0x8000_0000
                } else {
                    b
                };
                self.write_primval(dest, PrimVal::F32(abs))
            },
            Intrinsic::Fabsf64 => {
                let v0 = arg(vals, 0)?;
                let f64_ty = self.program.types.f64_ty;
                let b = self.value_to_primval(v0, f64_ty)?.expect_f64()?;
                let abs: u64 = if b >= 0x8000_0000_0000_0000 {
                    b - 0x8000_0000_0000_0000
                } else {
                    b
                };
                self.write_primval(dest, PrimVal::F64(abs))
            },
            Intrinsic::FaddFast => {
                let ty = self.program.types.type_at(substs, 0)?;
                let v0 = arg(vals, 0)?;
                let a = self.value_to_primval(v0, ty)?;
                let b = self.value_to_primval(v0, ty)?;
                let result = binary_op(BinOp::Add, a, b)?;
                self.write_primval(dest, result.0)
            },
            Intrinsic::Powif32 | Intrinsic::Powif64 | Intrinsic::Sqrtf32 | Intrinsic::Sqrtf64 => Err(
                EvalError::UnsupportedFloat,
            ),
            Intrinsic::Likely | Intrinsic::Unlikely | Intrinsic::Forget => Ok(()),
            _ => Err(EvalError::Malformed),
        }
    }

    /// Carries out a built-in operation on the values of its arguments.
    pub fn intrinsic_effect(
        &mut self,
        intrinsic: Intrinsic,
        substs: Substs,
        args: &Vec<Operand>,
        vals: &Vec<Value>,
        dest: Lvalue,
        dest_ty: Ty,
        dest_layout: &Layout,
    ) -> (r: Result<(), EvalError>)
        requires
            old(self).stack@.len() > 0,
        ensures
            performs(
                old(self),
                old(self).env().intrinsic_effect(
                    old(self).memory@,
                    intrinsic,
                    substs,
                    args@,
                    vals@,
                    dest,
                    dest_ty,
                    *dest_layout,
                ),
                r,
                final(self),
            ),
    {
        match intrinsic {
            Intrinsic::AddWithOverflow
            | Intrinsic::SubWithOverflow
            | Intrinsic::MulWithOverflow
            | Intrinsic::OverflowingAdd
            | Intrinsic::OverflowingSub
            | Intrinsic::OverflowingMul => self.arith_intrinsic(intrinsic, args, dest, dest_layout),
            Intrinsic::ArithOffset | Intrinsic::Offset => self.pointer_intrinsic(intrinsic, substs, vals, dest),
            Intrinsic::Copy
            | Intrinsic::CopyNonoverlapping
            | Intrinsic::Init
            | Intrinsic::Uninit
            | Intrinsic::MoveValInit
            | Intrinsic::VolatileLoad
            | Intrinsic::VolatileStore
            | Intrinsic::Transmute => self.memory_intrinsic(intrinsic, substs, vals, dest, dest_ty),
            Intrinsic::MinAlignOf
            | Intrinsic::PrefAlignOf
            | Intrinsic::SizeOf
            | Intrinsic::SizeOfVal
            | Intrinsic::NeedsDrop
            | Intrinsic::TypeId
            | Intrinsic::TypeName
            | Intrinsic::DiscriminantValue => self.query_intrinsic(intrinsic, substs, vals, dest, dest_ty),
            _ => self.value_intrinsic(intrinsic, substs, vals, dest),
        }
    }

    /// Calls the built-in operation `def_id` with the generic arguments
    /// `substs`. The arguments are evaluated first, in order. A name that
    /// is not in the table of built-in operations is an error that names
    /// the item, and so is the halting `breakpoint`.
    pub fn call_intrinsic(
        &mut self,
        def_id: crate::ty::DefId,
        substs: Substs,
        args: &Vec<Operand>,
        dest: Lvalue,
        dest_ty: Ty,
        dest_layout: &Layout,
    ) -> (r: Result<(), EvalError>)
        requires
            old(self).stack@.len() > 0,
        ensures
            performs(
                old(self),
                old(self).env().call_intrinsic(
                    old(self).memory@,
                    def_id,
                    substs,
                    args@,
                    dest,
                    dest_ty,
                    *dest_layout,
                ),
                r,
                final(self),
            ),
    {
        let program = self.program;
        match lookup_intrinsic(&program.intrinsics, def_id) {
            None => Err(EvalError::Malformed),
            Some(name) => {
                let vals = self.eval_operands(args)?;
                match intrinsic_of(name) {
                    Some(intrinsic) => self.intrinsic_effect(intrinsic, substs, args, &vals, dest, dest_ty, dest_layout),
                    None => Err(EvalError::UnimplementedIntrinsic(def_id)),
                }
            },
        }
    }
}

} // verus!
