//! Casts between primitive values, dispatch tables, and the coercions
//! that turn a pointer to a sized value into a pointer to an unsized one.
use vstd::prelude::*;
use crate::error::EvalError;
use crate::interpreter::place::{int_size, performs, spec_int_size, spec_uint_size, uint_size};
use crate::interpreter::value::Value;
use crate::interpreter::{evaluates, Env, EvalContext};
use crate::memory::{FunctionDefinition, MemoryModel, Pointer};
use crate::mir::VtableEntry;
use crate::primval::{char_from_u32, IntKind, PrimVal};
use crate::ty::{Ty, TyKind};

verus! {

/// The number that a boolean, an integer or a character casts from.
pub open spec fn spec_cast_source(val: PrimVal) -> Option<int> {
    match val {
        PrimVal::Bool(b) => Some(if b { 1int } else { 0int }),
        PrimVal::Char(c) => Some(c as int),
        _ => match val.spec_int_kind() {
            Some(_) => Some(val.spec_int_value()),
            None => None,
        },
    }
}

fn cast_source(val: PrimVal) -> (r: Option<i128>)
    ensures
        match spec_cast_source(val) {
            Some(v) => r == Some(v as i128) && -0x8000_0000_0000_0000 <= v < 0x1_0000_0000_0000_0000,
            None => r is None,
        },
{
    match val {
        PrimVal::Bool(b) => Some(if b { 1i128 } else { 0i128 }),
        PrimVal::Char(c) => Some(c as u32 as i128),
        _ => match val.int_kind() {
            Some(_) => Some(val.int_value()),
            None => None,
        },
    }
}

/// What the number `v` is as a value of a type of the given shape, on a
/// machine with the given pointer size. Integers wrap; a boolean must come
/// from 0 or 1 and a character from a number below 256; a raw pointer gets
/// the number as its address.
pub open spec fn spec_cast_int(v: int, kind: TyKind, pointer_size: u64) -> Result<PrimVal, EvalError> {
    match kind {
        TyKind::Bool => if v == 0 {
            Ok(PrimVal::Bool(false))
        } else if v == 1 {
            Ok(PrimVal::Bool(true))
        } else {
            Err(EvalError::InvalidBool)
        },
        TyKind::Int(t) => Ok(PrimVal::spec_wrapped(IntKind::spec_of(spec_int_size(t, pointer_size), true), v)),
        TyKind::Uint(t) => Ok(
            PrimVal::spec_wrapped(IntKind::spec_of(spec_uint_size(t, pointer_size), false), v),
        ),
        TyKind::Float(_) => Err(EvalError::UnsupportedFloat),
        TyKind::RawPtr(_) => Ok(PrimVal::Ptr(Pointer::spec_from_int(crate::bytes::to_unsigned(v, 8) as u64))),
        TyKind::Char => if 0 <= v < 256 {
            Ok(PrimVal::Char(v as char))
        } else {
            Err(EvalError::InvalidChar(crate::bytes::to_unsigned(v, 8) as u64))
        },
        _ => Err(EvalError::Malformed),
    }
}

fn cast_int(v: i128, kind: &TyKind, pointer_size: u64) -> (r: Result<PrimVal, EvalError>)
    requires
        -0x8000_0000_0000_0000 <= v < 0x1_0000_0000_0000_0000,
    ensures
        r == spec_cast_int(v as int, *kind, pointer_size),
{
    match kind {
        TyKind::Bool => {
            if v == 0 {
                Ok(PrimVal::Bool(false))
            } else if v == 1 {
                Ok(PrimVal::Bool(true))
            } else {
                Err(EvalError::InvalidBool)
            }
        },
        TyKind::Int(t) => Ok(PrimVal::wrapped(IntKind::of(int_size(*t, pointer_size), true), v)),
        TyKind::Uint(t) => Ok(PrimVal::wrapped(IntKind::of(uint_size(*t, pointer_size), false), v)),
        TyKind::Float(_) => Err(EvalError::UnsupportedFloat),
        TyKind::RawPtr(_) => Ok(PrimVal::Ptr(Pointer::from_int(crate::primval::to_bits(IntKind::U64, v)))),
        TyKind::Char => {
            if 0 <= v && v < 256 {
                match char_from_u32(v as u32) {
                    Some(c) => Ok(PrimVal::Char(c)),
                    None => Err(EvalError::Malformed),
                }
            } else {
                Err(EvalError::InvalidChar(crate::primval::to_bits(IntKind::U64, v)))
            }
        },
        _ => Err(EvalError::Malformed),
    }
}

/// The index of the first dispatch table for `ty` and `trait_id`.
pub open spec fn find_vtable(vtables: Seq<VtableEntry>, ty: Ty, trait_id: u64, from: int) -> Option<int>
    decreases vtables.len() - from,
{
    if from < 0 || from >= vtables.len() {
        None
    } else if vtables[from].ty == ty && vtables[from].trait_id == trait_id {
        Some(from)
    } else {
        find_vtable(vtables, ty, trait_id, from + 1)
    }
}

/// The memory after the first `n` functions of a dispatch table at `vt`
/// are written down. Function `i` goes to slot `3 + i`; a slot without a
/// function stays as it is.
pub open spec fn spec_write_methods(
    mem: MemoryModel,
    vt: Pointer,
    methods: Seq<Option<FunctionDefinition>>,
    n: nat,
) -> Result<MemoryModel, EvalError>
    decreases n,
{
    if n == 0 {
        Ok(mem)
    } else {
        match spec_write_methods(mem, vt, methods, (n - 1) as nat) {
            Err(e) => Err(e),
            Ok(m1) => match methods[n - 1] {
                None => Ok(m1),
                Some(f) => {
                    let (p, m2) = m1.create_fn_ptr(f);
                    m2.write_ptr(vt.spec_displace((2 + n) * m2.pointer_size()), p)
                },
            },
        }
    }
}

/// Once writing some function fails, writing all of them fails in the
/// same way.
pub proof fn lemma_write_methods_fails(
    mem: MemoryModel,
    vt: Pointer,
    methods: Seq<Option<FunctionDefinition>>,
    i: nat,
    n: nat,
)
    requires
        i <= n,
        spec_write_methods(mem, vt, methods, i) is Err,
    ensures
        spec_write_methods(mem, vt, methods, n) == spec_write_methods(mem, vt, methods, i),
    decreases n,
{
    if i < n {
        lemma_write_methods_fails(mem, vt, methods, i, (n - 1) as nat);
    }
}

/// The two pointees of a pair of pointer types between which a pointer can
/// be unsized.
pub open spec fn spec_unsize_pointees(src: TyKind, dest: TyKind) -> Option<(Ty, Ty)> {
    match (src, dest) {
        (TyKind::Box(s), TyKind::Box(d)) => Some((s, d)),
        (TyKind::Ref(s), TyKind::Ref(d)) => Some((s, d)),
        (TyKind::Ref(s), TyKind::RawPtr(d)) => Some((s, d)),
        (TyKind::RawPtr(s), TyKind::RawPtr(d)) => Some((s, d)),
        _ => None,
    }
}

fn unsize_pointees(src: &TyKind, dest: &TyKind) -> (r: Option<(Ty, Ty)>)
    ensures
        r == spec_unsize_pointees(*src, *dest),
{
    match (src, dest) {
        (TyKind::Box(s), TyKind::Box(d)) => Some((*s, *d)),
        (TyKind::Ref(s), TyKind::Ref(d)) => Some((*s, *d)),
        (TyKind::Ref(s), TyKind::RawPtr(d)) => Some((*s, *d)),
        (TyKind::RawPtr(s), TyKind::RawPtr(d)) => Some((*s, *d)),
        _ => None,
    }
}

impl<'a> Env<'a> {
    /// A primitive value cast to the type `ty`. An address stays what it is
    /// when cast to a pointer type; floating-point casts are not performed.
    pub open spec fn cast_primval(
        &self,
        mem: MemoryModel,
        val: PrimVal,
        ty: Ty,
    ) -> Result<PrimVal, EvalError> {
        match self.kind(ty) {
            Err(e) => Err(e),
            Ok(kind) => match val {
                PrimVal::F32(_) | PrimVal::F64(_) => Err(EvalError::UnsupportedFloat),
                PrimVal::Ptr(p) | PrimVal::FnPtr(p) => match kind {
                    TyKind::Ref(_) | TyKind::RawPtr(_) | TyKind::Box(_) => Ok(PrimVal::Ptr(p)),
                    TyKind::FnPtr(_) => Ok(PrimVal::FnPtr(p)),
                    _ => Err(EvalError::Malformed),
                },
                _ => match spec_cast_source(val) {
                    Some(v) => spec_cast_int(v, kind, mem.pointer_size()),
                    None => Err(EvalError::Malformed),
                },
            },
        }
    }

    /// A dispatch table for the type `ty` and the trait `trait_id`, built in
    /// fresh storage and frozen. Slot 0 is left undefined, slot 1 holds the
    /// size of `ty`, slot 2 its alignment, and the slots from 3 on the
    /// functions that the program lists for the pair.
    #[verifier::opaque]
    pub open spec fn get_vtable(
        &self,
        mem: MemoryModel,
        ty: Ty,
        trait_id: u64,
    ) -> Result<(Pointer, MemoryModel), EvalError> {
        match find_vtable(self.program.vtables@, ty, trait_id, 0) {
            None => Err(EvalError::Malformed),
            Some(i) => {
                let methods = self.program.vtables@[i].methods@;
                let psize = mem.pointer_size();
                match (self.program.types.spec_size_of(ty), self.program.types.spec_align_of(ty)) {
                    (Err(e), _) => Err(e),
                    (_, Err(e)) => Err(e),
                    (Ok(size), Ok(align)) => if psize * (3 + methods.len()) > u64::MAX {
                        Err(EvalError::Malformed)
                    } else {
                        match mem.allocate((psize * (3 + methods.len())) as u64, psize) {
                            Err(e) => Err(e),
                            Ok((vt, m1)) => match m1.write_usize(vt.spec_displace(psize as int), size) {
                                Err(e) => Err(e),
                                Ok(m2) => match m2.write_usize(vt.spec_displace(2 * psize), align) {
                                    Err(e) => Err(e),
                                    Ok(m3) => match spec_write_methods(m3, vt, methods, methods.len()) {
                                        Err(e) => Err(e),
                                        Ok(m4) => match m4.freeze(vt.alloc_id) {
                                            Err(e) => Err(e),
                                            Ok(m5) => Ok((vt, m5)),
                                        },
                                    },
                                },
                            },
                        }
                    },
                }
            },
        }
    }

    /// Unsizes a pointer whose pointee has type `sty` into a pointer whose
    /// pointee has type `dty`, and writes it at `dest`. An array becomes a
    /// slice with the array's length; a trait object stays as it is; any
    /// other value becomes a trait object with its dispatch table.
    #[verifier::opaque]
    pub open spec fn unsize_pointer(
        &self,
        mem: MemoryModel,
        src: Value,
        sty: Ty,
        dest: Pointer,
        dty: Ty,
        dest_ty: Ty,
    ) -> Result<MemoryModel, EvalError> {
        let tails = self.program.types.spec_lockstep_tails(sty, dty);
        match (self.kind(tails.0), self.kind(tails.1)) {
            (Err(e), _) => Err(e),
            (_, Err(e)) => Err(e),
            (Ok(TyKind::Array(_, length)), Ok(TyKind::Slice(_))) => match src.spec_read_ptr(mem) {
                Err(e) => Err(e),
                Ok(ptr) => match mem.write_ptr(dest, ptr) {
                    Err(e) => Err(e),
                    Ok(m1) => m1.write_usize(dest.spec_offset(m1.pointer_size() as i64), length),
                },
            },
            (Ok(TyKind::Trait(_)), Ok(TyKind::Trait(_))) => self.write_value_to_ptr(mem, src, dest, dest_ty),
            (Ok(_), Ok(TyKind::Trait(trait_id))) => match self.get_vtable(mem, tails.0, trait_id) {
                Err(e) => Err(e),
                Ok((vtable, m1)) => match src.spec_read_ptr(m1) {
                    Err(e) => Err(e),
                    Ok(ptr) => match m1.write_ptr(dest, ptr) {
                        Err(e) => Err(e),
                        Ok(m2) => m2.write_ptr(dest.spec_offset(m2.pointer_size() as i64), vtable),
                    },
                },
            },
            (Ok(_), Ok(_)) => Err(EvalError::Malformed),
        }
    }

    /// Unsizes a value of type `src_ty` into one of type `dest_ty` and
    /// writes it at `dest`. The types are two pointer types, or one record
    /// definition at two instances, which is unsized field by field.
    pub open spec fn unsize_into(
        &self,
        mem: MemoryModel,
        src: Value,
        src_ty: Ty,
        dest: Pointer,
        dest_ty: Ty,
    ) -> Result<MemoryModel, EvalError>
        decreases src_ty.0 + 1, 0nat,
    {
        match (self.kind(src_ty), self.kind(dest_ty)) {
            (Err(e), _) => Err(e),
            (_, Err(e)) => Err(e),
            (Ok(sk), Ok(dk)) => match spec_unsize_pointees(sk, dk) {
                Some((sty, dty)) => self.unsize_pointer(mem, src, sty, dest, dty, dest_ty),
                None => match (sk, dk) {
                    (TyKind::Adt(def_a, va), TyKind::Adt(def_b, vb)) => if def_a != def_b || va@.len() == 0
                        || vb@.len() == 0 {
                        Err(EvalError::Malformed)
                    } else {
                        match src {
                            Value::ByRef(src_ptr) => self.unsize_fields(
                                mem,
                                src_ptr,
                                src_ty,
                                dest,
                                dest_ty,
                                va@[0].fields@,
                                vb@[0].fields@,
                                if va@[0].fields@.len() < vb@[0].fields@.len() {
                                    va@[0].fields@.len()
                                } else {
                                    vb@[0].fields@.len()
                                },
                            ),
                            _ => Err(EvalError::Malformed),
                        }
                    },
                    _ => Err(EvalError::Malformed),
                },
            },
        }
    }

    /// The memory after the first `n` fields of a record are unsized.
    pub open spec fn unsize_fields(
        &self,
        mem: MemoryModel,
        src_ptr: Pointer,
        src_ty: Ty,
        dest: Pointer,
        dest_ty: Ty,
        src_fields: Seq<Ty>,
        dest_fields: Seq<Ty>,
        n: nat,
    ) -> Result<MemoryModel, EvalError>
        decreases src_ty.0, n + 2,
    {
        if n == 0 {
            Ok(mem)
        } else {
            match self.unsize_fields(mem, src_ptr, src_ty, dest, dest_ty, src_fields, dest_fields, (n - 1) as nat) {
                Err(e) => Err(e),
                Ok(m1) => self.unsize_field(
                    m1,
                    src_ptr,
                    src_ty,
                    dest,
                    dest_ty,
                    src_fields[n - 1],
                    dest_fields[n - 1],
                    (n - 1) as usize,
                ),
            }
        }
    }

    /// Unsizes field `i` of a record. A field without size is passed over,
    /// a field whose type stays the same is copied, and any other field,
    /// whose type must come before the record's in the table, is unsized in
    /// turn.
    pub open spec fn unsize_field(
        &self,
        mem: MemoryModel,
        src_ptr: Pointer,
        src_ty: Ty,
        dest: Pointer,
        dest_ty: Ty,
        src_fty: Ty,
        dest_fty: Ty,
        i: usize,
    ) -> Result<MemoryModel, EvalError>
        decreases src_ty.0, 1nat,
    {
        match self.type_size(dest_fty) {
            Err(e) => Err(e),
            Ok(size) => if size == 0 {
                Ok(mem)
            } else {
                match self.get_field_offset(src_ty, i) {
                    Err(e) => Err(e),
                    Ok(src_offset) => match self.get_field_offset(dest_ty, i) {
                        Err(e) => Err(e),
                        Ok(dest_offset) => {
                            let src_f_ptr = src_ptr.spec_displace(src_offset as int);
                            let dest_f_ptr = dest.spec_displace(dest_offset as int);
                            if src_fty == dest_fty {
                                self.copy(mem, src_f_ptr, dest_f_ptr, src_fty)
                            } else if src_fty.0 < src_ty.0 {
                                self.unsize_into(mem, Value::ByRef(src_f_ptr), src_fty, dest_f_ptr, dest_fty)
                            } else {
                                Err(EvalError::Malformed)
                            }
                        },
                    },
                }
            },
        }
    }

    /// Once unsizing some field fails, unsizing all of them fails in the
    /// same way.
    pub proof fn lemma_unsize_fields_fails(
        &self,
        mem: MemoryModel,
        src_ptr: Pointer,
        src_ty: Ty,
        dest: Pointer,
        dest_ty: Ty,
        src_fields: Seq<Ty>,
        dest_fields: Seq<Ty>,
        i: nat,
        n: nat,
    )
        requires
            i <= n,
            self.unsize_fields(mem, src_ptr, src_ty, dest, dest_ty, src_fields, dest_fields, i) is Err,
        ensures
            self.unsize_fields(mem, src_ptr, src_ty, dest, dest_ty, src_fields, dest_fields, n)
                == self.unsize_fields(mem, src_ptr, src_ty, dest, dest_ty, src_fields, dest_fields, i),
        decreases n,
    {
        if i < n {
            self.lemma_unsize_fields_fails(
                mem,
                src_ptr,
                src_ty,
                dest,
                dest_ty,
                src_fields,
                dest_fields,
                i,
                (n - 1) as nat,
            );
        }
    }
}

impl<'a> EvalContext<'a> {
    /// Casts a primitive value to the type `ty`.
    pub fn cast_primval(&self, val: PrimVal, ty: Ty) -> (r: Result<PrimVal, EvalError>)
        ensures
            r == self.env().cast_primval(self.memory@, val, ty),
    {
        let kind = self.kind(ty)?;
        match val {
            PrimVal::F32(_) | PrimVal::F64(_) => Err(EvalError::UnsupportedFloat),
            PrimVal::Ptr(p) | PrimVal::FnPtr(p) => match kind {
                TyKind::Ref(_) | TyKind::RawPtr(_) | TyKind::Box(_) => Ok(PrimVal::Ptr(p)),
                TyKind::FnPtr(_) => Ok(PrimVal::FnPtr(p)),
                _ => Err(EvalError::Malformed),
            },
            _ => match cast_source(val) {
                Some(v) => cast_int(v, kind, self.memory.pointer_size()),
                None => Err(EvalError::Malformed),
            },
        }
    }

    fn find_vtable(&self, ty: Ty, trait_id: u64) -> (r: Option<usize>)
        ensures
            match find_vtable(self.program.vtables@, ty, trait_id, 0) {
                Some(i) => r matches Some(k) && k == i && 0 <= i < self.program.vtables@.len(),
                None => r is None,
            },
    {
        let mut i: usize = 0;
        while i < self.program.vtables.len()
            invariant
                i <= self.program.vtables@.len(),
                find_vtable(self.program.vtables@, ty, trait_id, 0) == find_vtable(
                    self.program.vtables@,
                    ty,
                    trait_id,
                    i as int,
                ),
            decreases self.program.vtables@.len() - i,
        {
            if self.program.vtables[i].ty == ty && self.program.vtables[i].trait_id == trait_id {
                return Some(i);
            }
            i += 1;
        }
        None
    }

    fn write_methods(
        &mut self,
        vt: Pointer,
        methods: &Vec<Option<FunctionDefinition>>,
    ) -> (r: Result<(), EvalError>)
        requires
            (3 + methods@.len()) * old(self).memory@.pointer_size() <= u64::MAX,
        ensures
            performs(
                old(self),
                spec_write_methods(old(self).memory@, vt, methods@, methods@.len()),
                r,
                final(self),
            ),
    {
        let ghost mem0 = self.memory@;
        let psize = self.memory.pointer_size();
        let n = methods.len();
        let mut i: usize = 0;
        let mut failed: Option<EvalError> = None;
        let mut going = true;
        while i < n && going
            invariant
                i <= n,
                n == methods@.len(),
                (3 + n) * psize <= u64::MAX,
                psize == self.memory@.pointer_size(),
                psize >= 1,
                going == (failed is None),
                self.same_frames(old(self)),
                match failed {
                    Some(e) => spec_write_methods(mem0, vt, methods@, n as nat) == Err::<MemoryModel, EvalError>(e),
                    None => spec_write_methods(mem0, vt, methods@, i as nat) == Ok::<MemoryModel, EvalError>(
                        self.memory@,
                    ),
                },
            decreases n - i + if going { 1int } else { 0int },
        {
            match methods[i] {
                None => {
                    i += 1;
                },
                Some(f) => {
                    let p = self.memory.create_fn_ptr(f.def_id, f.substs, f.fn_ty);
                    assert((3 + i) * psize <= (3 + n) * psize && 3 + n <= (3 + n) * psize) by (nonlinear_arith)
                        requires
                            i <= n,
                            psize >= 1,
                    ;
                    let slot = vt.scaled(3 + i as i128, psize);
                    match self.memory.write_ptr(slot, p) {
                        Ok(_) => {
                            i += 1;
                        },
                        Err(e) => {
                            proof {
                                assert(spec_write_methods(mem0, vt, methods@, (i + 1) as nat) == Err::<
                                    MemoryModel,
                                    EvalError,
                                >(e));
                                lemma_write_methods_fails(mem0, vt, methods@, (i + 1) as nat, n as nat);
                            }
                            failed = Some(e);
                            going = false;
                        },
                    }
                },
            }
        }
        match failed {
            Some(e) => Err(e),
            None => Ok(()),
        }
    }

    /// Builds the dispatch table for a type and a trait.
    pub fn get_vtable(&mut self, ty: Ty, trait_id: u64) -> (r: Result<Pointer, EvalError>)
        ensures
            evaluates(old(self), old(self).env().get_vtable(old(self).memory@, ty, trait_id), r, final(self)),
    {
        proof {
            reveal(Env::get_vtable);
        }
        let program = self.program;
        match self.find_vtable(ty, trait_id) {
            None => Err(EvalError::Malformed),
            Some(i) => {
                let methods = &program.vtables[i].methods;
                let psize = self.memory.pointer_size();
                let size = program.types.size_of(ty)?;
                let align = program.types.align_of(ty)?;
                let count: u64 = methods.len() as u64;
                proof {
                    assert(find_vtable(self.program.vtables@, ty, trait_id, 0) == Some(i as int));
                    assert(methods@ == self.program.vtables@[i as int].methods@);
                    assert(self.env().program == self.program);
                }
                let ghost env = self.env();
                let ghost mem0 = self.memory@;
                if count > (u64::MAX - 3 * psize) / psize {
                    assert(psize * (3 + count) > u64::MAX) by (nonlinear_arith)
                        requires
                            count > (u64::MAX - 3 * psize) / (psize as int),
                            psize > 0,
                    ;
                    assert(psize * (3 + methods@.len()) > u64::MAX);
                    return Err(EvalError::Malformed);
                }
                assert(psize * (3 + count) <= u64::MAX) by (nonlinear_arith)
                    requires
                        count <= (u64::MAX - 3 * psize) / (psize as int),
                        psize > 0,
                ;
                assert(psize * (3 + methods@.len()) <= u64::MAX);
                let vt = self.memory.allocate(psize * (3 + count), psize)?;
                let ghost m1 = self.memory@;
                assert(mem0.allocate((psize * (3 + methods@.len())) as u64, psize) == Ok::<
                    (Pointer, MemoryModel),
                    EvalError,
                >((vt, m1)));
                self.memory.write_usize(vt.offset_by(psize), size)?;
                let ghost m2 = self.memory@;
                assert(m1.write_usize(vt.spec_displace(psize as int), size) == Ok::<MemoryModel, EvalError>(m2));
                self.memory.write_usize(vt.offset_by(2 * psize), align)?;
                let ghost m3 = self.memory@;
                assert(m2.write_usize(vt.spec_displace(2 * psize), align) == Ok::<MemoryModel, EvalError>(m3));
                assert((3 + count) * psize == psize * (3 + count)) by (nonlinear_arith);
                self.write_methods(vt, methods)?;
                let ghost m4 = self.memory@;
                assert(spec_write_methods(m3, vt, methods@, methods@.len()) == Ok::<MemoryModel, EvalError>(m4));
                self.memory.freeze(vt.alloc_id)?;
                assert(env.get_vtable(mem0, ty, trait_id) == Ok::<(Pointer, MemoryModel), EvalError>(
                    (vt, self.memory@),
                ));
                Ok(vt)
            },
        }
    }

    fn unsize_pointer(
        &mut self,
        src: Value,
        sty: Ty,
        dest: Pointer,
        dty: Ty,
        dest_ty: Ty,
    ) -> (r: Result<(), EvalError>)
        requires
            old(self).stack@.len() > 0,
        ensures
            performs(
                old(self),
                old(self).env().unsize_pointer(old(self).memory@, src, sty, dest, dty, dest_ty),
                r,
                final(self),
            ),
    {
        proof {
            reveal(Env::unsize_pointer);
        }
        let tails = self.program.types.lockstep_tails(sty, dty);
        let sk = self.kind(tails.0)?;
        let dk = self.kind(tails.1)?;
        match (sk, dk) {
            (TyKind::Array(_, length), TyKind::Slice(_)) => {
                let ptr = src.read_ptr(&self.memory)?;
                self.memory.write_ptr(dest, ptr)?;
                let dest_extra = dest.offset(self.memory.pointer_size() as i64);
                self.memory.write_usize(dest_extra, *length)
            },
            (TyKind::Trait(_), TyKind::Trait(_)) => self.write_value_to_ptr(src, dest, dest_ty),
            (_, TyKind::Trait(trait_id)) => {
                let vtable = self.get_vtable(tails.0, *trait_id)?;
                let ptr = src.read_ptr(&self.memory)?;
                self.memory.write_ptr(dest, ptr)?;
                let dest_extra = dest.offset(self.memory.pointer_size() as i64);
                self.memory.write_ptr(dest_extra, vtable)
            },
            _ => Err(EvalError::Malformed),
        }
    }

    /// Unsizes a value of type `src_ty` into one of type `dest_ty` and
    /// writes it at `dest`.
    pub fn unsize_into(
        &mut self,
        src: Value,
        src_ty: Ty,
        dest: Pointer,
        dest_ty: Ty,
    ) -> (r: Result<(), EvalError>)
        requires
            old(self).stack@.len() > 0,
        ensures
            performs(
                old(self),
                old(self).env().unsize_into(old(self).memory@, src, src_ty, dest, dest_ty),
                r,
                final(self),
            ),
        decreases src_ty.0 + 1, 0nat,
    {
        let sk = self.kind(src_ty)?;
        let dk = self.kind(dest_ty)?;
        match unsize_pointees(sk, dk) {
            Some((sty, dty)) => self.unsize_pointer(src, sty, dest, dty, dest_ty),
            None => match (sk, dk) {
                (TyKind::Adt(def_a, va), TyKind::Adt(def_b, vb)) => {
                    if *def_a != *def_b || va.len() == 0 || vb.len() == 0 {
                        Err(EvalError::Malformed)
                    } else {
                        match src {
                            Value::ByRef(src_ptr) => self.unsize_fields(
                                src_ptr,
                                src_ty,
                                dest,
                                dest_ty,
                                &va[0].fields,
                                &vb[0].fields,
                            ),
                            _ => Err(EvalError::Malformed),
                        }
                    }
                },
                _ => Err(EvalError::Malformed),
            },
        }
    }

    fn unsize_fields(
        &mut self,
        src_ptr: Pointer,
        src_ty: Ty,
        dest: Pointer,
        dest_ty: Ty,
        src_fields: &Vec<Ty>,
        dest_fields: &Vec<Ty>,
    ) -> (r: Result<(), EvalError>)
        requires
            old(self).stack@.len() > 0,
        ensures
            performs(
                old(self),
                old(self).env().unsize_fields(
                    old(self).memory@,
                    src_ptr,
                    src_ty,
                    dest,
                    dest_ty,
                    src_fields@,
                    dest_fields@,
                    if src_fields@.len() < dest_fields@.len() {
                        src_fields@.len()
                    } else {
                        dest_fields@.len()
                    },
                ),
                r,
                final(self),
            ),
        decreases src_ty.0, 2nat,
    {
        let n: usize = if src_fields.len() < dest_fields.len() {
            src_fields.len()
        } else {
            dest_fields.len()
        };
        let ghost env = self.env();
        let ghost mem0 = self.memory@;
        let mut i: usize = 0;
        let mut failed: Option<EvalError> = None;
        let mut going = true;
        while i < n && going
            invariant
                i <= n,
                n <= src_fields@.len(),
                n <= dest_fields@.len(),
                going == (failed is None),
                self.stack@.len() > 0,
                self.same_frames(old(self)),
                env == self.env(),
                match failed {
                    Some(e) => env.unsize_fields(
                        mem0,
                        src_ptr,
                        src_ty,
                        dest,
                        dest_ty,
                        src_fields@,
                        dest_fields@,
                        n as nat,
                    ) == Err::<MemoryModel, EvalError>(e),
                    None => env.unsize_fields(
                        mem0,
                        src_ptr,
                        src_ty,
                        dest,
                        dest_ty,
                        src_fields@,
                        dest_fields@,
                        i as nat,
                    ) == Ok::<MemoryModel, EvalError>(self.memory@),
                },
            decreases n - i + if going { 1int } else { 0int },
        {
            let ghost before = self.memory@;
            match self.unsize_field(src_ptr, src_ty, dest, dest_ty, src_fields[i], dest_fields[i], i) {
                Ok(_) => {
                    proof {
                        assert(env.unsize_field(
                            before,
                            src_ptr,
                            src_ty,
                            dest,
                            dest_ty,
                            src_fields@[i as int],
                            dest_fields@[i as int],
                            i,
                        ) == Ok::<MemoryModel, EvalError>(self.memory@));
                    }
                    i += 1;
                },
                Err(e) => {
                    proof {
                        assert(env.unsize_fields(
                            mem0,
                            src_ptr,
                            src_ty,
                            dest,
                            dest_ty,
                            src_fields@,
                            dest_fields@,
                            (i + 1) as nat,
                        ) == Err::<MemoryModel, EvalError>(e));
                        env.lemma_unsize_fields_fails(
                            mem0,
                            src_ptr,
                            src_ty,
                            dest,
                            dest_ty,
                            src_fields@,
                            dest_fields@,
                            (i + 1) as nat,
                            n as nat,
                        );
                    }
                    failed = Some(e);
                    going = false;
                },
            }
        }
        match failed {
            Some(e) => Err(e),
            None => Ok(()),
        }
    }

    fn unsize_field(
        &mut self,
        src_ptr: Pointer,
        src_ty: Ty,
        dest: Pointer,
        dest_ty: Ty,
        src_fty: Ty,
        dest_fty: Ty,
        i: usize,
    ) -> (r: Result<(), EvalError>)
        requires
            old(self).stack@.len() > 0,
        ensures
            performs(
                old(self),
                old(self).env().unsize_field(
                    old(self).memory@,
                    src_ptr,
                    src_ty,
                    dest,
                    dest_ty,
                    src_fty,
                    dest_fty,
                    i,
                ),
                r,
                final(self),
            ),
        decreases src_ty.0, 1nat,
    {
        if self.type_size(dest_fty)? == 0 {
            return Ok(());
        }
        let src_offset = self.get_field_offset(src_ty, i)?;
        let dest_offset = self.get_field_offset(dest_ty, i)?;
        let src_f_ptr = src_ptr.offset_by(src_offset);
        let dest_f_ptr = dest.offset_by(dest_offset);
        if src_fty == dest_fty {
            self.copy(src_f_ptr, dest_f_ptr, src_fty)
        } else if src_fty.0 < src_ty.0 {
            self.unsize_into(Value::ByRef(src_f_ptr), src_fty, dest_f_ptr, dest_fty)
        } else {
            Err(EvalError::Malformed)
        }
    }
}

} // verus!
