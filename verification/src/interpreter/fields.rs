//! Field types and offsets, paths through nested fields, and writing the
//! operands of an aggregate to their fields.
use vstd::prelude::*;
use crate::error::EvalError;
use crate::interpreter::place::performs;
use crate::interpreter::{Env, EvalContext, Lvalue};
use crate::memory::{MemoryModel, Pointer};
use crate::mir::Operand;
use crate::ty::{Layout, Ty, TyKind};

verus! {

/// Where the fields of an aggregate go.
pub enum FieldOffsets<'b> {
    /// At the listed offsets, the first `skip` of which are passed over.
    Listed { offsets: &'b Vec<u64>, skip: usize },
    /// One after the other, `elem_size` bytes apart.
    Strided { elem_size: u64 },
}

impl<'b> FieldOffsets<'b> {
    /// The distance of field `k` from the start, if there is such a field.
    pub open spec fn spec_at(&self, k: int) -> Option<int> {
        match *self {
            FieldOffsets::Listed { offsets, skip } => if 0 <= k && skip + k < offsets@.len() {
                Some(offsets@[skip + k] as int)
            } else {
                None
            },
            FieldOffsets::Strided { elem_size } => if 0 <= k {
                Some(k * elem_size)
            } else {
                None
            },
        }
    }

    /// How many of `n` operands have a field to go to.
    pub open spec fn spec_count(&self, n: nat) -> nat {
        match *self {
            FieldOffsets::Listed { offsets, skip } => if skip >= offsets@.len() {
                0
            } else if offsets@.len() - skip < n {
                (offsets@.len() - skip) as nat
            } else {
                n
            },
            FieldOffsets::Strided { .. } => n,
        }
    }

    /// How many of `n` operands have a field to go to.
    pub fn count(&self, n: usize) -> (r: usize)
        ensures
            r == self.spec_count(n as nat),
            r <= n,
            forall|k: int| 0 <= k < r ==> self.spec_at(k) is Some,
    {
        match self {
            FieldOffsets::Listed { offsets, skip } => {
                if *skip >= offsets.len() {
                    0
                } else if offsets.len() - *skip < n {
                    offsets.len() - *skip
                } else {
                    n
                }
            },
            FieldOffsets::Strided { .. } => n,
        }
    }

    /// The address of field `k` of an aggregate that starts at `dest`.
    pub fn field_dest(&self, dest: Pointer, k: usize) -> (r: Pointer)
        requires
            self.spec_at(k as int) is Some,
        ensures
            r == dest.spec_displace(self.spec_at(k as int)->Some_0),
    {
        match self {
            FieldOffsets::Listed { offsets, skip } => {
                let len = offsets.len();
                assert(*skip + k < len);
                dest.offset_by(offsets[*skip + k])
            },
            FieldOffsets::Strided { elem_size } => dest.scaled(k as i128, *elem_size),
        }
    }
}

impl<'a> Env<'a> {
    /// The type of field `field_index` of a record, a tuple, or, as its
    /// only field, of what a pointer points to.
    pub open spec fn get_field_ty(&self, ty: Ty, field_index: usize) -> Result<Ty, EvalError> {
        match self.kind(ty) {
            Err(e) => Err(e),
            Ok(TyKind::Adt(_, variants)) => if variants@.len() == 1 && field_index < variants@[0].fields@.len() {
                Ok(variants@[0].fields@[field_index as int])
            } else {
                Err(EvalError::Malformed)
            },
            Ok(TyKind::Tuple(fields)) => if field_index < fields@.len() {
                Ok(fields@[field_index as int])
            } else {
                Err(EvalError::Malformed)
            },
            Ok(TyKind::Ref(t)) | Ok(TyKind::RawPtr(t)) | Ok(TyKind::Box(t)) => if field_index == 0 {
                Ok(t)
            } else {
                Err(EvalError::Malformed)
            },
            Ok(_) => Err(EvalError::UnsupportedType),
        }
    }

    /// The offset of field `field_index` of a type laid out as a record; the
    /// address word of a fat pointer lies at offset 0.
    pub open spec fn get_field_offset(&self, ty: Ty, field_index: usize) -> Result<u64, EvalError> {
        match self.type_layout(ty) {
            Err(e) => Err(e),
            Ok(Layout::Univariant(variant)) => crate::interpreter::place::spec_field_offset(
                variant,
                field_index as int,
            ),
            Ok(Layout::FatPointer) => Ok(0),
            Ok(_) => Err(EvalError::UnsupportedType),
        }
    }

    /// The offset reached by following `path`, from entry `from` on,
    /// through nested fields that start in a value of type `ty`, added to
    /// `acc`. The sum must fit 64 bits.
    pub open spec fn field_path_offset(
        &self,
        ty: Ty,
        path: Seq<u32>,
        from: int,
        acc: u64,
    ) -> Result<u64, EvalError>
        decreases path.len() - from,
    {
        if from < 0 || from >= path.len() {
            Ok(acc)
        } else {
            match self.get_field_offset(ty, path[from] as usize) {
                Err(e) => Err(e),
                Ok(field_offset) => match self.get_field_ty(ty, path[from] as usize) {
                    Err(e) => Err(e),
                    Ok(field_ty) => if acc + field_offset > u64::MAX {
                        Err(EvalError::Malformed)
                    } else {
                        self.field_path_offset(field_ty, path, from + 1, (acc + field_offset) as u64)
                    },
                },
            }
        }
    }

    /// The offset, in a sum type `ty` whose variant `nndiscr` holds the
    /// data, of the field that is never zero. Entry 0 of `discrfield` is
    /// passed over, entry 1 names a field of the variant, and the rest is a
    /// path through that field.
    pub open spec fn nonnull_offset(
        &self,
        ty: Ty,
        nndiscr: u64,
        discrfield: Seq<u32>,
    ) -> Result<u64, EvalError> {
        match self.kind(ty) {
            Err(e) => Err(e),
            Ok(TyKind::Adt(_, variants)) => if nndiscr < variants@.len() && discrfield.len() >= 2
                && discrfield[1] < variants@[nndiscr as int].fields@.len() {
                self.field_path_offset(variants@[nndiscr as int].fields@[discrfield[1] as int], discrfield, 2, 0)
            } else {
                Err(EvalError::Malformed)
            },
            Ok(_) => Err(EvalError::Malformed),
        }
    }

    /// Evaluates an operand and writes its value at `dest`.
    pub open spec fn write_operand(
        &self,
        mem: MemoryModel,
        operand: &Operand,
        dest: Pointer,
    ) -> Result<MemoryModel, EvalError> {
        match self.eval_operand(mem, operand) {
            Err(e) => Err(e),
            Ok((value, m)) => match self.operand_ty(operand) {
                Err(e) => Err(e),
                Ok(ty) => self.write_value_to_ptr(m, value, dest, ty),
            },
        }
    }

    /// The memory after the first `n` operands of an aggregate at `dest`
    /// have been evaluated and written, each to its field, in order.
    pub open spec fn assign_fields_upto(
        &self,
        mem: MemoryModel,
        dest: Pointer,
        offsets: FieldOffsets,
        operands: Seq<Operand>,
        n: nat,
    ) -> Result<MemoryModel, EvalError>
        decreases n,
    {
        if n == 0 {
            Ok(mem)
        } else {
            match self.assign_fields_upto(mem, dest, offsets, operands, (n - 1) as nat) {
                Err(e) => Err(e),
                Ok(m1) => self.write_operand(
                    m1,
                    &operands[n - 1],
                    dest.spec_displace(offsets.spec_at(n - 1)->Some_0),
                ),
            }
        }
    }

    /// Once writing some field fails, writing all of them fails in the
    /// same way.
    pub proof fn lemma_assign_fields_fails(
        &self,
        mem: MemoryModel,
        dest: Pointer,
        offsets: FieldOffsets,
        operands: Seq<Operand>,
        i: nat,
        n: nat,
    )
        requires
            i <= n,
            self.assign_fields_upto(mem, dest, offsets, operands, i) is Err,
        ensures
            self.assign_fields_upto(mem, dest, offsets, operands, n) == self.assign_fields_upto(
                mem,
                dest,
                offsets,
                operands,
                i,
            ),
        decreases n,
    {
        if i < n {
            self.lemma_assign_fields_fails(mem, dest, offsets, operands, i, (n - 1) as nat);
        }
    }

    /// Writes the operands of an aggregate to their fields. Operands and
    /// fields are paired up in order; what is left over of either is
    /// ignored.
    pub open spec fn assign_fields(
        &self,
        mem: MemoryModel,
        dest: Lvalue,
        offsets: FieldOffsets,
        operands: Seq<Operand>,
    ) -> Result<MemoryModel, EvalError> {
        match dest.spec_to_ptr() {
            Err(e) => Err(e),
            Ok(p) => self.assign_fields_upto(mem, p, offsets, operands, offsets.spec_count(operands.len())),
        }
    }
}

impl<'a> EvalContext<'a> {
    /// The type of field `field_index` of a record, a tuple, or, as its
    /// only field, of what a pointer points to.
    pub fn get_field_ty(&self, ty: Ty, field_index: usize) -> (r: Result<Ty, EvalError>)
        ensures
            r == self.env().get_field_ty(ty, field_index),
    {
        match self.kind(ty)? {
            TyKind::Adt(_, variants) => {
                if variants.len() == 1 && field_index < variants[0].fields.len() {
                    Ok(variants[0].fields[field_index])
                } else {
                    Err(EvalError::Malformed)
                }
            },
            TyKind::Tuple(fields) => {
                if field_index < fields.len() {
                    Ok(fields[field_index])
                } else {
                    Err(EvalError::Malformed)
                }
            },
            TyKind::Ref(t) | TyKind::RawPtr(t) | TyKind::Box(t) => {
                if field_index == 0 {
                    Ok(*t)
                } else {
                    Err(EvalError::Malformed)
                }
            },
            _ => Err(EvalError::UnsupportedType),
        }
    }

    /// The offset of field `field_index` of a type laid out as a record; the
    /// address word of a fat pointer lies at offset 0.
    pub fn get_field_offset(&self, ty: Ty, field_index: usize) -> (r: Result<u64, EvalError>)
        requires
            self.stack@.len() > 0,
        ensures
            r == self.env().get_field_offset(ty, field_index),
    {
        match self.type_layout(ty)? {
            Layout::Univariant(variant) => crate::interpreter::place::field_offset(variant, field_index),
            Layout::FatPointer => Ok(0),
            _ => Err(EvalError::UnsupportedType),
        }
    }

    /// Follows a path through nested fields and adds up the offsets.
    pub fn field_path_offset(&self, ty: Ty, path: &Vec<u32>, from: usize) -> (r: Result<u64, EvalError>)
        requires
            self.stack@.len() > 0,
        ensures
            r == self.env().field_path_offset(ty, path@, from as int, 0),
    {
        let mut cur = ty;
        let mut acc: u64 = 0;
        let mut i: usize = from;
        while i < path.len()
            invariant
                self.stack@.len() > 0,
                self.env().field_path_offset(ty, path@, from as int, 0) == self.env().field_path_offset(
                    cur,
                    path@,
                    i as int,
                    acc,
                ),
            decreases path@.len() - i,
        {
            let index: usize = path[i] as usize;
            let field_offset = self.get_field_offset(cur, index)?;
            let field_ty = self.get_field_ty(cur, index)?;
            if field_offset > u64::MAX - acc {
                return Err(EvalError::Malformed);
            }
            acc = acc + field_offset;
            cur = field_ty;
            i += 1;
        }
        Ok(acc)
    }

    /// The offset, in a sum type `ty` whose variant `nndiscr` holds the
    /// data, of the field that is never zero. Entry 0 of `discrfield` is
    /// passed over, entry 1 names a field of the variant, and the rest is a
    /// path through that field.
    pub fn nonnull_offset(&self, ty: Ty, nndiscr: u64, discrfield: &Vec<u32>) -> (r: Result<u64, EvalError>)
        requires
            self.stack@.len() > 0,
        ensures
            r == self.env().nonnull_offset(ty, nndiscr, discrfield@),
    {
        match self.kind(ty)? {
            TyKind::Adt(_, variants) => {
                if nndiscr < variants.len() as u64 && discrfield.len() >= 2 {
                    let variant = &variants[nndiscr as usize];
                    let index: usize = discrfield[1] as usize;
                    if index < variant.fields.len() {
                        self.field_path_offset(variant.fields[index], discrfield, 2)
                    } else {
                        Err(EvalError::Malformed)
                    }
                } else {
                    Err(EvalError::Malformed)
                }
            },
            _ => Err(EvalError::Malformed),
        }
    }

    /// Evaluates an operand and writes its value at `dest`.
    pub fn write_operand(&mut self, operand: &Operand, dest: Pointer) -> (r: Result<(), EvalError>)
        requires
            old(self).stack@.len() > 0,
        ensures
            performs(old(self), old(self).env().write_operand(old(self).memory@, operand, dest), r, final(self)),
    {
        let value = self.eval_operand(operand)?;
        let value_ty = self.operand_ty(operand)?;
        self.write_value_to_ptr(value, dest, value_ty)
    }

    /// Evaluates the operands of an aggregate and writes each to its field.
    pub fn assign_fields(
        &mut self,
        dest: Lvalue,
        offsets: FieldOffsets,
        operands: &Vec<Operand>,
    ) -> (r: Result<(), EvalError>)
        requires
            old(self).stack@.len() > 0,
        ensures
            performs(
                old(self),
                old(self).env().assign_fields(old(self).memory@, dest, offsets, operands@),
                r,
                final(self),
            ),
    {
        let dest = dest.to_ptr()?;
        let count = offsets.count(operands.len());
        let ghost env = self.env();
        let ghost mem0 = self.memory@;
        let mut i: usize = 0;
        let mut failed: Option<EvalError> = None;
        let mut going = true;
        while i < count && going
            invariant
                i <= count <= operands@.len(),
                count == offsets.spec_count(operands@.len()),
                going == (failed is None),
                self.stack@.len() > 0,
                self.same_frames(old(self)),
                env == self.env(),
                match failed {
                    Some(e) => env.assign_fields_upto(mem0, dest, offsets, operands@, count as nat) == Err::<
                        MemoryModel,
                        EvalError,
                    >(e),
                    None => env.assign_fields_upto(mem0, dest, offsets, operands@, i as nat) == Ok::<
                        MemoryModel,
                        EvalError,
                    >(self.memory@),
                },
            decreases count - i + if going { 1int } else { 0int },
        {
            let field_dest = offsets.field_dest(dest, i);
            let ghost before = self.memory@;
            match self.write_operand(&operands[i], field_dest) {
                Ok(_) => {
                    proof {
                        assert(env.write_operand(before, &operands@[i as int], field_dest) == Ok::<
                            MemoryModel,
                            EvalError,
                        >(self.memory@));
                    }
                    i += 1;
                },
                Err(e) => {
                    proof {
                        assert(env.write_operand(before, &operands@[i as int], field_dest) == Err::<
                            MemoryModel,
                            EvalError,
                        >(e));
                        assert(env.assign_fields_upto(mem0, dest, offsets, operands@, (i + 1) as nat) == Err::<
                            MemoryModel,
                            EvalError,
                        >(e));
                        env.lemma_assign_fields_fails(mem0, dest, offsets, operands@, (i + 1) as nat, count as nat);
                    }
                    failed = Some(e);
                    going = false;
                },
            }
        }
        match failed {
            Some(e) => Err(e),
            None => Ok(()),
        }
    }
}

} // verus!
