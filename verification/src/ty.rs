//! Types and what is known of their layout.
//!
//! Types are entries of a [`TypeTable`] and are named by their index, a
//! [`Ty`]. Each entry records the shape of the type and the answers to the
//! layout questions the interpreter asks of it: size, alignment, field
//! offsets, how a sum type encodes its variant. The table also records
//! which type a generic type becomes under which generic arguments. The
//! walks over nested types only ever step to a type that comes earlier in
//! the table, which is what makes them end.
use vstd::prelude::*;
use crate::error::EvalError;

verus! {

/// Identifies an item (a function, a static, a data type definition).
#[derive(Clone, Copy, Debug, PartialEq, Eq, Structural, Hash)]
pub struct DefId {
    pub krate: u32,
    pub index: u32,
}

impl DefId {
    /// Items of crate 0 are the ones whose bodies are at hand.
    pub open spec fn spec_is_local(self) -> bool {
        self.krate == 0
    }

    /// Items of crate 0 are the ones whose bodies are at hand.
    #[verifier::when_used_as_spec(spec_is_local)]
    pub fn is_local(self) -> (r: bool)
        ensures
            r == self.spec_is_local(),
    {
        self.krate == 0
    }
}

/// Identifies one binding of generic arguments. `Substs(0)` binds nothing.
#[derive(Clone, Copy, Debug, PartialEq, Eq, Structural, Hash)]
pub struct Substs(pub u64);

impl Substs {
    /// The binding of no arguments.
    pub open spec fn spec_empty() -> Substs {
        Substs(0)
    }

    /// The binding of no arguments.
    #[verifier::when_used_as_spec(spec_empty)]
    pub fn empty() -> (r: Substs)
        ensures
            r == Substs::spec_empty(),
    {
        Substs(0)
    }
}

/// Identifies a function signature.
#[derive(Clone, Copy, Debug, PartialEq, Eq, Structural, Hash)]
pub struct FnTy(pub u64);

/// Names a type: its index in the [`TypeTable`].
#[derive(Clone, Copy, Debug, PartialEq, Eq, Structural, Hash)]
pub struct Ty(pub usize);

/// The signed integer types; `Is` is as wide as an address.
#[derive(Clone, Copy, Debug, PartialEq, Eq, Structural, Hash)]
pub enum IntTy {
    I8,
    I16,
    I32,
    I64,
    Is,
}

/// The unsigned integer types; `Us` is as wide as an address.
#[derive(Clone, Copy, Debug, PartialEq, Eq, Structural, Hash)]
pub enum UintTy {
    U8,
    U16,
    U32,
    U64,
    Us,
}

/// The floating-point types.
#[derive(Clone, Copy, Debug, PartialEq, Eq, Structural, Hash)]
pub enum FloatTy {
    F32,
    F64,
}

/// The width of an address on the interpreted machine.
#[derive(Clone, Copy, Debug, PartialEq, Eq, Structural, Hash)]
pub enum PointerWidth {
    P8,
    P16,
    P32,
    P64,
}

impl PointerWidth {
    /// The number of bytes an address takes.
    pub open spec fn spec_bytes(self) -> u64 {
        match self {
            PointerWidth::P8 => 1,
            PointerWidth::P16 => 2,
            PointerWidth::P32 => 4,
            PointerWidth::P64 => 8,
        }
    }

    /// The number of bytes an address takes.
    #[verifier::when_used_as_spec(spec_bytes)]
    pub fn bytes(self) -> (r: u64)
        ensures
            r == self.spec_bytes(),
            r == 1 || r == 2 || r == 4 || r == 8,
    {
        match self {
            PointerWidth::P8 => 1,
            PointerWidth::P16 => 2,
            PointerWidth::P32 => 4,
            PointerWidth::P64 => 8,
        }
    }
}

/// The integer a discriminant is stored as.
#[derive(Clone, Copy, Debug, PartialEq, Eq, Structural, Hash)]
pub enum Integer {
    I1,
    I8,
    I16,
    I32,
    I64,
}

impl Integer {
    /// The number of bytes the integer takes; a one-bit integer takes a byte.
    pub open spec fn spec_size(self) -> u64 {
        match self {
            Integer::I1 | Integer::I8 => 1,
            Integer::I16 => 2,
            Integer::I32 => 4,
            Integer::I64 => 8,
        }
    }

    /// The number of bytes the integer takes; a one-bit integer takes a byte.
    #[verifier::when_used_as_spec(spec_size)]
    pub fn size(self) -> (r: u64)
        ensures
            r == self.spec_size(),
            r == 1 || r == 2 || r == 4 || r == 8,
    {
        match self {
            Integer::I1 | Integer::I8 => 1,
            Integer::I16 => 2,
            Integer::I32 => 4,
            Integer::I64 => 8,
        }
    }
}

/// Where the fields of one record, or of one variant, lie.
#[derive(Clone, Debug, PartialEq, Eq)]
pub struct Struct {
    /// The byte offset of each field, in declaration order.
    pub offsets: Vec<u64>,
    pub align: u64,
}

/// One variant of a data type definition.
#[derive(Clone, Debug, PartialEq, Eq)]
pub struct VariantDef {
    /// The value that stands for the variant.
    pub discr: u64,
    pub fields: Vec<Ty>,
}

/// The shape of a type.
#[derive(Clone, Debug, PartialEq, Eq)]
pub enum TyKind {
    Bool,
    Char,
    Int(IntTy),
    Uint(UintTy),
    Float(FloatTy),
    /// The zero-sized type of one function item.
    FnDef(DefId, Substs, FnTy),
    FnPtr(FnTy),
    Box(Ty),
    Ref(Ty),
    RawPtr(Ty),
    /// A record (one variant) or a sum type, with the item that defines it.
    Adt(DefId, Vec<VariantDef>),
    Tuple(Vec<Ty>),
    Array(Ty, u64),
    Slice(Ty),
    Str,
    /// A trait object, with the trait's identity.
    Trait(u64),
    /// A generic parameter that is still to be instantiated.
    Param(u32),
    /// Any other type; it has a layout but no value can be read at it.
    Opaque,
}

/// How a type is laid out: one closed set of strategies, read alike by the
/// code that builds aggregates and the code that projects fields.
#[derive(Clone, Debug, PartialEq, Eq)]
pub enum Layout {
    Scalar,
    FatPointer,
    Univariant(Struct),
    Array,
    /// A sum type with a discriminant column; field 0 of every variant is
    /// the discriminant.
    General { discr: Integer, variants: Vec<Struct> },
    /// Two variants, one without data that is stored as zero, the other
    /// (`nndiscr`) a single field that is never zero.
    RawNullablePointer { nndiscr: u64 },
    /// Two variants, one without data; `discrfield` is the path to the field
    /// of variant `nndiscr` that is never zero.
    StructWrappedNullablePointer { nndiscr: u64, nonnull: Struct, discrfield: Vec<u32> },
    /// A sum type without data.
    CEnum { discr: Integer, signed: bool },
    Other,
}

/// Everything recorded for one type.
#[derive(Clone, Debug, PartialEq, Eq)]
pub struct TypeInfo {
    pub kind: TyKind,
    pub layout: Layout,
    pub size: u64,
    pub align: u64,
    /// The preferred alignment.
    pub pref_align: u64,
    /// Whether the size is known without looking at a value.
    pub sized: bool,
    /// Whether dropping a value of the type runs code.
    pub needs_drop: bool,
    pub name: String,
    /// A hash that identifies the type.
    pub id_hash: u64,
}

/// `generic` with the arguments `substs` is `concrete`.
#[derive(Clone, Copy, Debug, PartialEq, Eq, Structural)]
pub struct Instance {
    pub generic: Ty,
    pub substs: Substs,
    pub concrete: Ty,
}

/// The types that one binding of generic arguments binds, in order.
#[derive(Clone, Debug, PartialEq, Eq)]
pub struct GenericArgs {
    pub substs: Substs,
    pub types: Vec<Ty>,
}

/// The types of a program.
#[derive(Clone, Debug, PartialEq, Eq)]
pub struct TypeTable {
    pub pointer_width: PointerWidth,
    pub types: Vec<TypeInfo>,
    pub instances: Vec<Instance>,
    pub generic_args: Vec<GenericArgs>,
    pub bool_ty: Ty,
    pub i32_ty: Ty,
    pub isize_ty: Ty,
    pub usize_ty: Ty,
    pub f32_ty: Ty,
    pub f64_ty: Ty,
}

/// The index of the first entry for `substs`, from `from` on.
pub open spec fn find_generic_args(entries: Seq<GenericArgs>, substs: Substs, from: int) -> Option<int>
    decreases entries.len() - from,
{
    if from < 0 || from >= entries.len() {
        None
    } else if entries[from].substs == substs {
        Some(from)
    } else {
        find_generic_args(entries, substs, from + 1)
    }
}

/// The first entry of `instances`, from `from` on, for `ty` under `substs`.
pub open spec fn find_instance(instances: Seq<Instance>, ty: Ty, substs: Substs, from: int) -> Option<Ty>
    decreases instances.len() - from,
{
    if from < 0 || from >= instances.len() {
        None
    } else if instances[from].generic == ty && instances[from].substs == substs {
        Some(instances[from].concrete)
    } else {
        find_instance(instances, ty, substs, from + 1)
    }
}

impl TypeTable {
    /// The entry of `ty`, if the table has one.
    pub open spec fn spec_info(&self, ty: Ty) -> Option<TypeInfo> {
        if ty.0 < self.types@.len() {
            Some(self.types@[ty.0 as int])
        } else {
            None
        }
    }

    /// The entry of `ty`, if the table has one.
    pub fn info(&self, ty: Ty) -> (r: Option<&TypeInfo>)
        ensures
            match self.spec_info(ty) {
                Some(i) => r == Some(&i),
                None => r is None,
            },
    {
        if ty.0 < self.types.len() {
            Some(&self.types[ty.0])
        } else {
            None
        }
    }

    /// `ty` with the generic arguments `substs` put in: the first recorded
    /// instance, and `ty` itself where none is recorded.
    pub open spec fn spec_monomorphize(&self, ty: Ty, substs: Substs) -> Ty {
        match find_instance(self.instances@, ty, substs, 0) {
            Some(t) => t,
            None => ty,
        }
    }

    /// `ty` with the generic arguments `substs` put in: the first recorded
    /// instance, and `ty` itself where none is recorded.
    pub fn monomorphize(&self, ty: Ty, substs: Substs) -> (r: Ty)
        ensures
            r == self.spec_monomorphize(ty, substs),
    {
        let mut i: usize = 0;
        while i < self.instances.len()
            invariant
                i <= self.instances@.len(),
                find_instance(self.instances@, ty, substs, 0) == find_instance(
                    self.instances@,
                    ty,
                    substs,
                    i as int,
                ),
            decreases self.instances@.len() - i,
        {
            let inst = &self.instances[i];
            if inst.generic == ty && inst.substs == substs {
                return inst.concrete;
            }
            i += 1;
        }
        ty
    }

    /// The type that `substs` binds at position `i`.
    pub open spec fn spec_type_at(&self, substs: Substs, i: usize) -> Result<Ty, EvalError> {
        match find_generic_args(self.generic_args@, substs, 0) {
            Some(k) => if i < self.generic_args@[k].types@.len() {
                Ok(self.generic_args@[k].types@[i as int])
            } else {
                Err(EvalError::Malformed)
            },
            None => Err(EvalError::Malformed),
        }
    }

    /// The type that `substs` binds at position `i`.
    pub fn type_at(&self, substs: Substs, i: usize) -> (r: Result<Ty, EvalError>)
        ensures
            r == self.spec_type_at(substs, i),
    {
        let mut k: usize = 0;
        while k < self.generic_args.len()
            invariant
                k <= self.generic_args@.len(),
                find_generic_args(self.generic_args@, substs, 0) == find_generic_args(
                    self.generic_args@,
                    substs,
                    k as int,
                ),
            decreases self.generic_args@.len() - k,
        {
            if self.generic_args[k].substs == substs {
                if i < self.generic_args[k].types.len() {
                    return Ok(self.generic_args[k].types[i]);
                } else {
                    return Err(EvalError::Malformed);
                }
            }
            k += 1;
        }
        Err(EvalError::Malformed)
    }

    /// The size of `ty` in bytes.
    pub open spec fn spec_size_of(&self, ty: Ty) -> Result<u64, EvalError> {
        match self.spec_info(ty) {
            Some(i) => Ok(i.size),
            None => Err(EvalError::Malformed),
        }
    }

    /// The size of `ty` in bytes.
    pub fn size_of(&self, ty: Ty) -> (r: Result<u64, EvalError>)
        ensures
            r == self.spec_size_of(ty),
    {
        match self.info(ty) {
            Some(i) => Ok(i.size),
            None => Err(EvalError::Malformed),
        }
    }

    /// The alignment of `ty` in bytes.
    pub open spec fn spec_align_of(&self, ty: Ty) -> Result<u64, EvalError> {
        match self.spec_info(ty) {
            Some(i) => Ok(i.align),
            None => Err(EvalError::Malformed),
        }
    }

    /// The alignment of `ty` in bytes.
    pub fn align_of(&self, ty: Ty) -> (r: Result<u64, EvalError>)
        ensures
            r == self.spec_align_of(ty),
    {
        match self.info(ty) {
            Some(i) => Ok(i.align),
            None => Err(EvalError::Malformed),
        }
    }

    /// Whether the size of `ty` is known from the type alone. A type the
    /// table does not hold counts as sized.
    pub open spec fn spec_is_sized(&self, ty: Ty) -> bool {
        match self.spec_info(ty) {
            Some(i) => i.sized,
            None => true,
        }
    }

    /// Whether the size of `ty` is known from the type alone. A type the
    /// table does not hold counts as sized.
    pub fn is_sized(&self, ty: Ty) -> (r: bool)
        ensures
            r == self.spec_is_sized(ty),
    {
        match self.info(ty) {
            Some(i) => i.sized,
            None => true,
        }
    }

    /// What a box, reference or raw pointer type points to.
    pub open spec fn spec_pointee(&self, ty: Ty) -> Option<Ty> {
        match self.spec_info(ty) {
            Some(i) => match i.kind {
                TyKind::Box(t) | TyKind::Ref(t) | TyKind::RawPtr(t) => Some(t),
                _ => None,
            },
            None => None,
        }
    }

    /// What a box, reference or raw pointer type points to.
    pub fn pointee(&self, ty: Ty) -> (r: Option<Ty>)
        ensures
            r == self.spec_pointee(ty),
    {
        match self.info(ty) {
            Some(i) => match &i.kind {
                TyKind::Box(t) | TyKind::Ref(t) | TyKind::RawPtr(t) => Some(*t),
                _ => None,
            },
            None => None,
        }
    }

    /// A pointer type is fat when what it points to is not sized.
    pub open spec fn spec_is_fat_ptr(&self, ty: Ty) -> bool {
        match self.spec_pointee(ty) {
            Some(t) => !self.spec_is_sized(t),
            None => false,
        }
    }

    /// A pointer type is fat when what it points to is not sized.
    pub fn is_fat_ptr(&self, ty: Ty) -> (r: bool)
        ensures
            r == self.spec_is_fat_ptr(ty),
    {
        match self.pointee(ty) {
            Some(t) => !self.is_sized(t),
            None => false,
        }
    }

    /// The last field of a record type that comes before the record in the
    /// table; `None` for any other type.
    pub open spec fn spec_last_field(&self, ty: Ty) -> Option<Ty> {
        match self.spec_info(ty) {
            Some(i) => match i.kind {
                TyKind::Adt(_, variants) => if variants@.len() == 1 && variants@[0].fields@.len() > 0
                    && variants@[0].fields@.last().0 < ty.0 {
                    Some(variants@[0].fields@.last())
                } else {
                    None
                },
                _ => None,
            },
            None => None,
        }
    }

    /// The last field of a record type that comes before the record in the
    /// table; `None` for any other type.
    pub fn last_field(&self, ty: Ty) -> (r: Option<Ty>)
        ensures
            r == self.spec_last_field(ty),
            r matches Some(t) ==> t.0 < ty.0,
    {
        match self.info(ty) {
            Some(i) => match &i.kind {
                TyKind::Adt(_, variants) => {
                    if variants.len() == 1 && variants[0].fields.len() > 0 {
                        let f = variants[0].fields[variants[0].fields.len() - 1];
                        if f.0 < ty.0 {
                            Some(f)
                        } else {
                            None
                        }
                    } else {
                        None
                    }
                },
                _ => None,
            },
            None => None,
        }
    }

    /// The type at the end of a chain of last fields: the part of a record
    /// that may be unsized.
    pub open spec fn spec_struct_tail(&self, ty: Ty) -> Ty
        decreases ty.0,
    {
        match self.spec_last_field(ty) {
            Some(t) => self.spec_struct_tail(t),
            None => ty,
        }
    }

    /// The type at the end of a chain of last fields: the part of a record
    /// that may be unsized.
    pub fn struct_tail(&self, ty: Ty) -> (r: Ty)
        ensures
            r == self.spec_struct_tail(ty),
    {
        let mut cur = ty;
        loop
            invariant
                self.spec_struct_tail(cur) == self.spec_struct_tail(ty),
            decreases cur.0,
        {
            match self.last_field(cur) {
                Some(t) => {
                    cur = t;
                },
                None => {
                    return cur;
                },
            }
        }
    }

    /// The item that defines `ty`, for a record or sum type.
    pub open spec fn spec_adt_def(&self, ty: Ty) -> Option<DefId> {
        match self.spec_info(ty) {
            Some(i) => match i.kind {
                TyKind::Adt(d, _) => Some(d),
                _ => None,
            },
            None => None,
        }
    }

    /// The item that defines `ty`, for a record or sum type.
    pub fn adt_def(&self, ty: Ty) -> (r: Option<DefId>)
        ensures
            r == self.spec_adt_def(ty),
    {
        match self.info(ty) {
            Some(i) => match &i.kind {
                TyKind::Adt(d, _) => Some(*d),
                _ => None,
            },
            None => None,
        }
    }

    /// Walks two types down their last fields for as long as both are
    /// records of one definition, and returns where the walk stops.
    pub open spec fn spec_lockstep_tails(&self, a: Ty, b: Ty) -> (Ty, Ty)
        decreases a.0,
    {
        match (self.spec_adt_def(a), self.spec_adt_def(b), self.spec_last_field(a), self.spec_last_field(b)) {
            (Some(da), Some(db), Some(fa), Some(fb)) => if da == db {
                self.spec_lockstep_tails(fa, fb)
            } else {
                (a, b)
            },
            _ => (a, b),
        }
    }

    /// Walks two types down their last fields for as long as both are
    /// records of one definition, and returns where the walk stops.
    pub fn lockstep_tails(&self, a: Ty, b: Ty) -> (r: (Ty, Ty))
        ensures
            r == self.spec_lockstep_tails(a, b),
    {
        let mut ca = a;
        let mut cb = b;
        loop
            invariant
                self.spec_lockstep_tails(ca, cb) == self.spec_lockstep_tails(a, b),
            decreases ca.0,
        {
            match (self.adt_def(ca), self.adt_def(cb), self.last_field(ca), self.last_field(cb)) {
                (Some(da), Some(db), Some(fa), Some(fb)) => {
                    if da == db {
                        ca = fa;
                        cb = fb;
                    } else {
                        return (ca, cb);
                    }
                },
                _ => {
                    return (ca, cb);
                },
            }
        }
    }
}

} // verus!
