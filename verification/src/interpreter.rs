//! The evaluation context: call stack, memory and the caches of one run,
//! and the operations that every other part of the interpreter builds on.
use vstd::prelude::*;
use crate::error::EvalError;
use crate::memory::{AllocId, Memory, MemoryModel, Pointer};
use crate::mir::{
    lookup_mir, BasicBlock, ConstFloat, ConstInt, ConstIsize, ConstUsize, ConstVal, Mir, Operand, Program, Span,
};
use crate::primval::PrimVal;
use crate::ty::{DefId, Layout, Substs, Ty, TyKind, TypeInfo};
use self::value::Value;

pub use self::run::{eval_main, Report, TraceEntry};

pub mod cast;
pub mod fields;
pub mod intrinsics;
pub mod numeric;
pub mod place;
pub mod run;
pub mod rvalue;
pub mod state;
pub mod step;
pub mod value;

verus! {

/// What comes with the address of a place.
#[derive(Clone, Copy, Debug, PartialEq, Eq, Structural)]
pub enum LvalueExtra {
    /// Nothing: the place is fully described by its address.
    Bare,
    /// The element count of a slice or string.
    Length(u64),
    /// The dispatch table of a trait object.
    Vtable(Pointer),
    /// The variant that a sum type is currently seen as.
    DowncastVariant(usize),
}

/// A resolved place: an address and what comes with it.
#[derive(Clone, Copy, Debug, PartialEq, Eq, Structural)]
pub struct Lvalue {
    pub ptr: Pointer,
    pub extra: LvalueExtra,
}

impl Lvalue {
    /// The place at a bare address.
    pub open spec fn spec_from_ptr(ptr: Pointer) -> Lvalue {
        Lvalue { ptr, extra: LvalueExtra::Bare }
    }

    /// The place at a bare address.
    #[verifier::when_used_as_spec(spec_from_ptr)]
    pub fn from_ptr(ptr: Pointer) -> (r: Lvalue)
        ensures
            r == Lvalue::spec_from_ptr(ptr),
    {
        Lvalue { ptr, extra: LvalueExtra::Bare }
    }

    /// The address of the place. Only a place without extra data can be
    /// used as a bare address.
    pub open spec fn spec_to_ptr(self) -> Result<Pointer, EvalError> {
        match self.extra {
            LvalueExtra::Bare => Ok(self.ptr),
            LvalueExtra::Length(_) | LvalueExtra::Vtable(_) | LvalueExtra::DowncastVariant(_) => Err(
                EvalError::NotABareAddress,
            ),
        }
    }

    /// The address of the place. Only a place without extra data can be
    /// used as a bare address.
    pub fn to_ptr(self) -> (r: Result<Pointer, EvalError>)
        ensures
            r == self.spec_to_ptr(),
            r is Ok <==> self.extra is Bare,
            r matches Ok(p) ==> p == self.ptr,
    {
        match self.extra {
            LvalueExtra::Bare => Ok(self.ptr),
            LvalueExtra::Length(_) | LvalueExtra::Vtable(_) | LvalueExtra::DowncastVariant(_) => Err(
                EvalError::NotABareAddress,
            ),
        }
    }

    /// The element type and the element count of a sequence place of type
    /// `kind`: an array has its length in the type, a slice in the place.
    pub open spec fn spec_elem_ty_and_len(self, kind: TyKind) -> Result<(Ty, u64), EvalError> {
        match kind {
            TyKind::Array(elem, n) => Ok((elem, n)),
            TyKind::Slice(elem) => match self.extra {
                LvalueExtra::Length(len) => Ok((elem, len)),
                LvalueExtra::Bare | LvalueExtra::Vtable(_) | LvalueExtra::DowncastVariant(_) => Err(
                    EvalError::Malformed,
                ),
            },
            _ => Err(EvalError::Malformed),
        }
    }

    /// The element type and the element count of a sequence place of type
    /// `kind`: an array has its length in the type, a slice in the place.
    pub fn elem_ty_and_len(self, kind: &TyKind) -> (r: Result<(Ty, u64), EvalError>)
        ensures
            r == self.spec_elem_ty_and_len(*kind),
    {
        match kind {
            TyKind::Array(elem, n) => Ok((*elem, *n)),
            TyKind::Slice(elem) => match self.extra {
                LvalueExtra::Length(len) => Ok((*elem, len)),
                LvalueExtra::Bare | LvalueExtra::Vtable(_) | LvalueExtra::DowncastVariant(_) => Err(
                    EvalError::Malformed,
                ),
            },
            _ => Err(EvalError::Malformed),
        }
    }
}

/// A function body as a frame holds it.
#[derive(Clone, Copy, Debug)]
pub enum CachedMir<'mir> {
    /// The body of an item of the crate under evaluation.
    Ref(&'mir Mir),
    /// A body taken from another crate.
    Owned(&'mir Mir),
}

impl<'mir> CachedMir<'mir> {
    /// The body itself.
    pub open spec fn spec_deref(&self) -> &'mir Mir {
        match *self {
            CachedMir::Ref(r) => r,
            CachedMir::Owned(r) => r,
        }
    }

    /// The body itself.
    pub fn deref(&self) -> (r: &'mir Mir)
        ensures
            r == self.spec_deref(),
    {
        match *self {
            CachedMir::Ref(r) => r,
            CachedMir::Owned(r) => r,
        }
    }
}

/// Whether a memoized address belongs to a promoted constant of a function
/// or to a constant or static item.
#[derive(Clone, Copy, Debug, PartialEq, Eq, Structural, Hash)]
pub enum ConstantKind {
    Promoted(usize),
    /// Statics, constants and associated constants.
    Global,
}

/// Identifies one constant or static. For a promoted constant `def_id` is
/// the function it was lifted from.
#[derive(Clone, Copy, Debug, PartialEq, Eq, Structural, Hash)]
pub struct ConstantId {
    pub def_id: DefId,
    pub substs: Substs,
    pub kind: ConstantKind,
}

/// The memoized address of one constant or static.
#[derive(Clone, Copy, Debug, PartialEq, Eq, Structural)]
pub struct StaticEntry {
    pub id: ConstantId,
    pub ptr: Pointer,
}

/// What is to be done when a frame is popped.
#[derive(Clone, Copy, Debug, PartialEq, Eq, Structural, Hash)]
pub enum StackPopCleanup {
    /// The frame computed a constant or static: freeze its allocation.
    Freeze(AllocId),
    /// The frame belongs to a call: go on with this block of the caller.
    Goto(BasicBlock),
    /// There is nowhere to return to.
    Nothing,
}

/// One activation record.
pub struct Frame<'a> {
    /// The body of the function being run.
    pub mir: CachedMir<'a>,
    /// The function being run.
    pub def_id: DefId,
    /// The generic arguments of this call.
    pub substs: Substs,
    /// Where the call was made.
    pub span: Span,
    /// What to do when the frame is popped.
    pub return_to_block: StackPopCleanup,
    /// The locals: the return value first, then arguments, variables and
    /// temporaries.
    pub locals: Vec<Value>,
    /// The block being run.
    pub block: BasicBlock,
    /// The index of the statement being run.
    pub stmt: usize,
}

/// A body of another crate that has been looked up before.
#[derive(Clone, Copy, Debug)]
pub struct CachedBody<'a> {
    pub def_id: DefId,
    pub mir: &'a Mir,
}

/// The state of one evaluation.
pub struct EvalContext<'a> {
    /// The program: its types and the bodies of its functions.
    pub program: &'a Program,
    /// The bodies of other crates that have been loaded.
    pub mir_cache: Vec<CachedBody<'a>>,
    /// The simulated memory.
    pub memory: Memory,
    /// The addresses of the statics, constants and promoted constants that
    /// have been computed.
    pub statics: Vec<StaticEntry>,
    /// The call stack.
    pub stack: Vec<Frame<'a>>,
    /// The most frames the stack may hold.
    pub stack_limit: usize,
}

/// The first address recorded for `id`, from `from` on.
pub open spec fn find_static(statics: Seq<StaticEntry>, id: ConstantId, from: int) -> Option<Pointer>
    decreases statics.len() - from,
{
    if from < 0 || from >= statics.len() {
        None
    } else if statics[from].id == id {
        Some(statics[from].ptr)
    } else {
        find_static(statics, id, from + 1)
    }
}

/// The first body cached for `def_id`, from `from` on.
pub open spec fn find_cached<'a>(cache: Seq<CachedBody<'a>>, def_id: DefId, from: int) -> Option<&'a Mir>
    decreases cache.len() - from,
{
    if from < 0 || from >= cache.len() {
        None
    } else if cache[from].def_id == def_id {
        Some(cache[from].mir)
    } else {
        find_cached(cache, def_id, from + 1)
    }
}

/// Storage for `bytes`: a fresh allocation that holds them and is frozen.
pub open spec fn spec_alloc_bytes(
    mem: MemoryModel,
    bytes: Seq<u8>,
) -> Result<(Pointer, MemoryModel), EvalError> {
    match mem.allocate(bytes.len() as u64, 1) {
        Err(e) => Err(e),
        Ok((ptr, m1)) => match m1.write_bytes(ptr, bytes) {
            Err(e) => Err(e),
            Ok(m2) => match m2.freeze(ptr.alloc_id) {
                Err(e) => Err(e),
                Ok(m3) => Ok((ptr, m3)),
            },
        },
    }
}

/// The primitive value of a constant that is one.
pub open spec fn spec_const_primval(c: ConstVal) -> Option<PrimVal> {
    match c {
        ConstVal::Integral(ConstInt::I8(i)) => Some(PrimVal::I8(i)),
        ConstVal::Integral(ConstInt::U8(i)) => Some(PrimVal::U8(i)),
        ConstVal::Integral(ConstInt::Isize(ConstIsize::Is16(i))) => Some(PrimVal::I16(i)),
        ConstVal::Integral(ConstInt::I16(i)) => Some(PrimVal::I16(i)),
        ConstVal::Integral(ConstInt::Usize(ConstUsize::Us16(i))) => Some(PrimVal::U16(i)),
        ConstVal::Integral(ConstInt::U16(i)) => Some(PrimVal::U16(i)),
        ConstVal::Integral(ConstInt::Isize(ConstIsize::Is32(i))) => Some(PrimVal::I32(i)),
        ConstVal::Integral(ConstInt::I32(i)) => Some(PrimVal::I32(i)),
        ConstVal::Integral(ConstInt::Usize(ConstUsize::Us32(i))) => Some(PrimVal::U32(i)),
        ConstVal::Integral(ConstInt::U32(i)) => Some(PrimVal::U32(i)),
        ConstVal::Integral(ConstInt::Isize(ConstIsize::Is64(i))) => Some(PrimVal::I64(i)),
        ConstVal::Integral(ConstInt::I64(i)) => Some(PrimVal::I64(i)),
        ConstVal::Integral(ConstInt::Usize(ConstUsize::Us64(i))) => Some(PrimVal::U64(i)),
        ConstVal::Integral(ConstInt::U64(i)) => Some(PrimVal::U64(i)),
        ConstVal::Float(ConstFloat::F32(f)) => Some(PrimVal::F32(f)),
        ConstVal::Float(ConstFloat::F64(f)) => Some(PrimVal::F64(f)),
        ConstVal::Bool(b) => Some(PrimVal::Bool(b)),
        ConstVal::Char(c) => Some(PrimVal::Char(c)),
        _ => None,
    }
}

/// Computes [`spec_const_primval`].
pub fn const_primval(c: &ConstVal) -> (r: Option<PrimVal>)
    ensures
        r == spec_const_primval(*c),
{
    match c {
        ConstVal::Integral(ConstInt::I8(i)) => Some(PrimVal::I8(*i)),
        ConstVal::Integral(ConstInt::U8(i)) => Some(PrimVal::U8(*i)),
        ConstVal::Integral(ConstInt::Isize(ConstIsize::Is16(i))) => Some(PrimVal::I16(*i)),
        ConstVal::Integral(ConstInt::I16(i)) => Some(PrimVal::I16(*i)),
        ConstVal::Integral(ConstInt::Usize(ConstUsize::Us16(i))) => Some(PrimVal::U16(*i)),
        ConstVal::Integral(ConstInt::U16(i)) => Some(PrimVal::U16(*i)),
        ConstVal::Integral(ConstInt::Isize(ConstIsize::Is32(i))) => Some(PrimVal::I32(*i)),
        ConstVal::Integral(ConstInt::I32(i)) => Some(PrimVal::I32(*i)),
        ConstVal::Integral(ConstInt::Usize(ConstUsize::Us32(i))) => Some(PrimVal::U32(*i)),
        ConstVal::Integral(ConstInt::U32(i)) => Some(PrimVal::U32(*i)),
        ConstVal::Integral(ConstInt::Isize(ConstIsize::Is64(i))) => Some(PrimVal::I64(*i)),
        ConstVal::Integral(ConstInt::I64(i)) => Some(PrimVal::I64(*i)),
        ConstVal::Integral(ConstInt::Usize(ConstUsize::Us64(i))) => Some(PrimVal::U64(*i)),
        ConstVal::Integral(ConstInt::U64(i)) => Some(PrimVal::U64(*i)),
        ConstVal::Float(ConstFloat::F32(f)) => Some(PrimVal::F32(*f)),
        ConstVal::Float(ConstFloat::F64(f)) => Some(PrimVal::F64(*f)),
        ConstVal::Bool(b) => Some(PrimVal::Bool(*b)),
        ConstVal::Char(c) => Some(PrimVal::Char(*c)),
        _ => None,
    }
}

/// What an evaluation reads besides memory: the program, the addresses of
/// the statics, and the frame that is being run.
pub struct Env<'a> {
    pub program: &'a Program,
    pub statics: Seq<StaticEntry>,
    /// The locals of the current frame.
    pub locals: Seq<Value>,
    /// The body of the current function.
    pub mir: &'a Mir,
    /// The generic arguments of the current call.
    pub substs: Substs,
    /// The current function.
    pub def_id: DefId,
}

impl<'a> Env<'a> {
    /// `ty` under the generic arguments of the current call.
    pub open spec fn mono(&self, ty: Ty) -> Ty {
        self.program.types.spec_monomorphize(ty, self.substs)
    }

    /// Whether the size of `ty` is known from the type alone.
    pub open spec fn type_is_sized(&self, ty: Ty) -> bool {
        self.program.types.spec_is_sized(ty)
    }

    /// Whether `ty` is a pointer to something unsized.
    pub open spec fn type_is_fat_ptr(&self, ty: Ty) -> bool {
        self.program.types.spec_is_fat_ptr(ty)
    }

    /// What the table records for `ty` once `substs` are put in.
    pub open spec fn type_info_with_substs(&self, ty: Ty, substs: Substs) -> Result<TypeInfo, EvalError> {
        match self.program.types.spec_info(self.program.types.spec_monomorphize(ty, substs)) {
            Some(i) => Ok(i),
            None => Err(EvalError::Malformed),
        }
    }

    /// The size of `ty` once `substs` are put in.
    pub open spec fn type_size_with_substs(&self, ty: Ty, substs: Substs) -> Result<u64, EvalError> {
        match self.type_info_with_substs(ty, substs) {
            Ok(i) => Ok(i.size),
            Err(e) => Err(e),
        }
    }

    /// The alignment of `ty` once `substs` are put in.
    pub open spec fn type_align_with_substs(&self, ty: Ty, substs: Substs) -> Result<u64, EvalError> {
        match self.type_info_with_substs(ty, substs) {
            Ok(i) => Ok(i.align),
            Err(e) => Err(e),
        }
    }

    /// What the table records for `ty` under the current generic
    /// arguments.
    pub open spec fn type_info(&self, ty: Ty) -> Result<TypeInfo, EvalError> {
        self.type_info_with_substs(ty, self.substs)
    }

    /// The size of `ty` under the current generic arguments.
    pub open spec fn type_size(&self, ty: Ty) -> Result<u64, EvalError> {
        self.type_size_with_substs(ty, self.substs)
    }

    /// The alignment of `ty` under the current generic arguments.
    pub open spec fn type_align(&self, ty: Ty) -> Result<u64, EvalError> {
        self.type_align_with_substs(ty, self.substs)
    }

    /// The layout of `ty` under the current generic arguments.
    pub open spec fn type_layout(&self, ty: Ty) -> Result<Layout, EvalError> {
        match self.type_info(ty) {
            Ok(i) => Ok(i.layout),
            Err(e) => Err(e),
        }
    }

    /// The shape of `ty` as the table records it, without instantiation.
    pub open spec fn kind(&self, ty: Ty) -> Result<TyKind, EvalError> {
        match self.program.types.spec_info(ty) {
            Some(i) => Ok(i.kind),
            None => Err(EvalError::Malformed),
        }
    }

    /// The type of a place under the current generic arguments.
    pub open spec fn lvalue_ty(&self, lvalue: &crate::mir::Lvalue) -> Result<Ty, EvalError> {
        match lvalue.spec_ty(self.mir) {
            Ok(t) => Ok(self.mono(t)),
            Err(e) => Err(e),
        }
    }

    /// The type of an operand under the current generic arguments.
    pub open spec fn operand_ty(&self, operand: &Operand) -> Result<Ty, EvalError> {
        match operand.spec_ty(self.mir) {
            Ok(t) => Ok(self.mono(t)),
            Err(e) => Err(e),
        }
    }

    /// `n` as a signed integer of pointer width.
    pub open spec fn isize_primval(&self, mem: MemoryModel, n: i64) -> PrimVal {
        PrimVal::spec_int_with_size(n, mem.pointer_size())
    }

    /// `n` as an unsigned integer of pointer width.
    pub open spec fn usize_primval(&self, mem: MemoryModel, n: u64) -> PrimVal {
        PrimVal::spec_uint_with_size(n, mem.pointer_size())
    }

    /// The address recorded for a constant or static.
    pub open spec fn static_ptr(&self, id: ConstantId) -> Result<Pointer, EvalError> {
        match find_static(self.statics, id, 0) {
            Some(p) => Ok(p),
            None => Err(EvalError::MissingStatic),
        }
    }

    /// Fresh storage for one value of type `ty`.
    pub open spec fn alloc_ptr(
        &self,
        mem: MemoryModel,
        ty: Ty,
        substs: Substs,
    ) -> Result<(Pointer, MemoryModel), EvalError> {
        match self.type_size_with_substs(ty, substs) {
            Err(e) => Err(e),
            Ok(size) => match self.type_align_with_substs(ty, substs) {
                Err(e) => Err(e),
                Ok(align) => mem.allocate(size, align),
            },
        }
    }

    /// The value of a string constant: a fat pointer to its bytes, which
    /// are stored in a fresh frozen allocation.
    pub open spec fn str_to_value(
        &self,
        mem: MemoryModel,
        s: Seq<char>,
    ) -> Result<(Value, MemoryModel), EvalError> {
        let bytes = vstd::utf8::encode_utf8(s);
        match spec_alloc_bytes(mem, bytes) {
            Err(e) => Err(e),
            Ok((ptr, m)) => Ok(
                (Value::ByValPair(PrimVal::Ptr(ptr), self.usize_primval(m, bytes.len() as u64)), m),
            ),
        }
    }

    /// The value of a constant. Strings and byte strings are stored in
    /// fresh frozen allocations; compound constants are not supported, and
    /// a literal whose type was never inferred is malformed.
    pub open spec fn const_to_value(
        &self,
        mem: MemoryModel,
        c: ConstVal,
    ) -> Result<(Value, MemoryModel), EvalError> {
        match spec_const_primval(c) {
            Some(p) => Ok((Value::ByVal(p), mem)),
            None => match c {
                ConstVal::Str(s) => self.str_to_value(mem, s@),
                ConstVal::ByteStr(bs) => match spec_alloc_bytes(mem, bs@) {
                    Err(e) => Err(e),
                    Ok((ptr, m)) => Ok((Value::ByVal(PrimVal::Ptr(ptr)), m)),
                },
                ConstVal::Integral(_) | ConstVal::Float(_) => Err(EvalError::Malformed),
                _ => Err(EvalError::UnsupportedConstant),
            },
        }
    }

    /// Storage for the locals `1..=n` of a function: one allocation each,
    /// in order, sized and aligned for the local's type.
    pub open spec fn alloc_locals(
        &self,
        mem: MemoryModel,
        decls: Seq<Ty>,
        substs: Substs,
        n: nat,
    ) -> Result<(Seq<Value>, MemoryModel), EvalError>
        decreases n,
    {
        if n == 0 {
            Ok((Seq::empty(), mem))
        } else {
            match self.alloc_locals(mem, decls, substs, (n - 1) as nat) {
                Err(e) => Err(e),
                Ok((acc, m)) => match self.alloc_ptr(m, decls[n as int], substs) {
                    Err(e) => Err(e),
                    Ok((p, m2)) => Ok((acc.push(Value::ByRef(p)), m2)),
                },
            }
        }
    }

    /// The locals of a new frame: slot 0 is the caller's destination, every
    /// other local gets storage of its own.
    pub open spec fn frame_locals(
        &self,
        mem: MemoryModel,
        mir: &Mir,
        substs: Substs,
        return_lvalue: Lvalue,
    ) -> Result<(Seq<Value>, MemoryModel), EvalError> {
        match return_lvalue.spec_to_ptr() {
            Err(e) => Err(e),
            Ok(return_ptr) => match self.alloc_locals(
                mem,
                mir.local_decls@,
                substs,
                if mir.local_decls@.len() == 0 {
                    0
                } else {
                    (mir.local_decls@.len() - 1) as nat
                },
            ) {
                Err(e) => Err(e),
                Ok((rest, m)) => Ok((seq![Value::ByRef(return_ptr)] + rest, m)),
            },
        }
    }

    /// Once the storage of some local cannot be had, that of all the
    /// locals cannot be had, with the same error.
    pub proof fn lemma_alloc_locals_fails(
        &self,
        mem: MemoryModel,
        decls: Seq<Ty>,
        substs: Substs,
        i: nat,
        n: nat,
    )
        requires
            i <= n,
            self.alloc_locals(mem, decls, substs, i) is Err,
        ensures
            self.alloc_locals(mem, decls, substs, n) == self.alloc_locals(mem, decls, substs, i),
        decreases n,
    {
        if i < n {
            self.lemma_alloc_locals_fails(mem, decls, substs, i, (n - 1) as nat);
        }
    }

    /// The storage of the locals of a function depends on the program
    /// only, not on the frame that is being run.
    pub proof fn lemma_alloc_locals_of_program(
        &self,
        other: Env<'a>,
        mem: MemoryModel,
        decls: Seq<Ty>,
        substs: Substs,
        n: nat,
    )
        requires
            self.program == other.program,
        ensures
            self.alloc_locals(mem, decls, substs, n) == other.alloc_locals(mem, decls, substs, n),
        decreases n,
    {
        if n > 0 {
            self.lemma_alloc_locals_of_program(other, mem, decls, substs, (n - 1) as nat);
        }
    }

    /// The locals of a new frame depend on the program only.
    pub proof fn lemma_frame_locals_of_program(
        &self,
        other: Env<'a>,
        mem: MemoryModel,
        mir: &Mir,
        substs: Substs,
        return_lvalue: Lvalue,
    )
        requires
            self.program == other.program,
        ensures
            self.frame_locals(mem, mir, substs, return_lvalue) == other.frame_locals(
                mem,
                mir,
                substs,
                return_lvalue,
            ),
    {
        self.lemma_alloc_locals_of_program(
            other,
            mem,
            mir.local_decls@,
            substs,
            if mir.local_decls@.len() == 0 {
                0
            } else {
                (mir.local_decls@.len() - 1) as nat
            },
        );
    }
}

/// What an operation of the interpreter that only touches memory must do:
/// return what `expected` says, leave on success the memory it says, and
/// leave everything but the memory alone.
pub open spec fn evaluates<T>(
    pre: &EvalContext,
    expected: Result<(T, MemoryModel), EvalError>,
    r: Result<T, EvalError>,
    post: &EvalContext,
) -> bool {
    &&& post.same_frames(pre)
    &&& match expected {
        Ok((v, m)) => r == Ok::<T, EvalError>(v) && post.memory@ == m,
        Err(e) => r == Err::<T, EvalError>(e),
    }
}

impl<'a> EvalContext<'a> {
    /// What this state offers to an evaluation besides its memory.
    pub open spec fn env(&self) -> Env<'a> {
        Env {
            program: self.program,
            statics: self.statics@,
            locals: self.spec_frame().locals@,
            mir: self.spec_mir(),
            substs: self.spec_substs(),
            def_id: self.spec_frame().def_id,
        }
    }

    /// Whether two states differ in memory at most.
    pub open spec fn same_frames(&self, other: &EvalContext) -> bool {
        &&& self.program == other.program
        &&& self.mir_cache == other.mir_cache
        &&& self.statics == other.statics
        &&& self.stack == other.stack
        &&& self.stack_limit == other.stack_limit
    }

    /// A fresh state: an empty stack and an empty memory of at most
    /// `memory_size` bytes.
    pub fn new(program: &'a Program, memory_size: u64, stack_limit: usize) -> (ecx: EvalContext<'a>)
        ensures
            ecx@ == crate::interpreter::state::State::initial(program, memory_size, stack_limit),
    {
        let ecx = EvalContext {
            program,
            mir_cache: Vec::new(),
            memory: Memory::new(program.types.pointer_width, memory_size),
            statics: Vec::new(),
            stack: Vec::new(),
            stack_limit,
        };
        proof {
            let init = crate::interpreter::state::State::initial(program, memory_size, stack_limit);
            assert(ecx@.stack =~= init.stack);
            assert(ecx@.mir_cache =~= init.mir_cache);
            assert(ecx@.statics =~= init.statics);
        }
        ecx
    }

    /// The memory, for reading.
    pub fn memory(&self) -> (r: &Memory)
        ensures
            r == &self.memory,
    {
        &self.memory
    }

    /// The call stack, the current frame last.
    pub fn stack(&self) -> (r: &[Frame<'a>])
        ensures
            r@ == self.stack@,
    {
        self.stack.as_slice()
    }

    /// The frame on top of the stack.
    pub open spec fn spec_frame(&self) -> Frame<'a> {
        self.stack@.last()
    }

    /// The frame on top of the stack.
    pub fn frame(&self) -> (r: &Frame<'a>)
        requires
            self.stack@.len() > 0,
        ensures
            *r == self.spec_frame(),
    {
        &self.stack[self.stack.len() - 1]
    }

    /// The body that is being run.
    pub open spec fn spec_mir(&self) -> &'a Mir {
        self.spec_frame().mir.spec_deref()
    }

    /// The body that is being run.
    pub fn mir(&self) -> (r: &'a Mir)
        requires
            self.stack@.len() > 0,
        ensures
            r == self.spec_mir(),
    {
        self.frame().mir.deref()
    }

    /// The generic arguments of the call that is being run.
    pub open spec fn spec_substs(&self) -> Substs {
        self.spec_frame().substs
    }

    /// The generic arguments of the call that is being run.
    pub fn substs(&self) -> (r: Substs)
        requires
            self.stack@.len() > 0,
        ensures
            r == self.spec_substs(),
    {
        self.frame().substs
    }

    /// Puts generic arguments into a type.
    pub fn monomorphize(&self, ty: Ty, substs: Substs) -> (r: Ty)
        ensures
            r == self.program.types.spec_monomorphize(ty, substs),
    {
        self.program.types.monomorphize(ty, substs)
    }

    /// Puts generic arguments into the type of a field.
    pub fn monomorphize_field_ty(&self, field: Ty, substs: Substs) -> (r: Ty)
        ensures
            r == self.program.types.spec_monomorphize(field, substs),
    {
        self.program.types.monomorphize(field, substs)
    }

    /// Whether the size of `ty` is known from the type alone.
    pub fn type_is_sized(&self, ty: Ty) -> (r: bool)
        ensures
            r == self.env().type_is_sized(ty),
    {
        self.program.types.is_sized(ty)
    }

    /// Whether `ty` is a pointer to something unsized.
    pub fn type_is_fat_ptr(&self, ty: Ty) -> (r: bool)
        ensures
            r == self.env().type_is_fat_ptr(ty),
    {
        self.program.types.is_fat_ptr(ty)
    }

    /// What the table records for `ty` once `substs` are put in.
    pub fn type_info_with_substs(&self, ty: Ty, substs: Substs) -> (r: Result<&'a TypeInfo, EvalError>)
        ensures
            match self.env().type_info_with_substs(ty, substs) {
                Ok(i) => r == Ok::<&TypeInfo, EvalError>(&i),
                Err(e) => r == Err::<&TypeInfo, EvalError>(e),
            },
    {
        match self.program.types.info(self.program.types.monomorphize(ty, substs)) {
            Some(i) => Ok(i),
            None => Err(EvalError::Malformed),
        }
    }

    /// The size of `ty` once `substs` are put in.
    pub fn type_size_with_substs(&self, ty: Ty, substs: Substs) -> (r: Result<u64, EvalError>)
        ensures
            r == self.env().type_size_with_substs(ty, substs),
    {
        Ok(self.type_info_with_substs(ty, substs)?.size)
    }

    /// The alignment of `ty` once `substs` are put in.
    pub fn type_align_with_substs(&self, ty: Ty, substs: Substs) -> (r: Result<u64, EvalError>)
        ensures
            r == self.env().type_align_with_substs(ty, substs),
    {
        Ok(self.type_info_with_substs(ty, substs)?.align)
    }

    /// What the table records for `ty` under the current generic arguments.
    pub fn type_info(&self, ty: Ty) -> (r: Result<&'a TypeInfo, EvalError>)
        requires
            self.stack@.len() > 0,
        ensures
            match self.env().type_info(ty) {
                Ok(i) => r == Ok::<&TypeInfo, EvalError>(&i),
                Err(e) => r == Err::<&TypeInfo, EvalError>(e),
            },
    {
        self.type_info_with_substs(ty, self.substs())
    }

    /// The size of `ty` under the current generic arguments.
    pub fn type_size(&self, ty: Ty) -> (r: Result<u64, EvalError>)
        requires
            self.stack@.len() > 0,
        ensures
            r == self.env().type_size(ty),
    {
        self.type_size_with_substs(ty, self.substs())
    }

    /// The alignment of `ty` under the current generic arguments.
    pub fn type_align(&self, ty: Ty) -> (r: Result<u64, EvalError>)
        requires
            self.stack@.len() > 0,
        ensures
            r == self.env().type_align(ty),
    {
        self.type_align_with_substs(ty, self.substs())
    }

    /// The layout of `ty` under the current generic arguments.
    pub fn type_layout(&self, ty: Ty) -> (r: Result<&'a Layout, EvalError>)
        requires
            self.stack@.len() > 0,
        ensures
            match self.env().type_layout(ty) {
                Ok(l) => r == Ok::<&Layout, EvalError>(&l),
                Err(e) => r == Err::<&Layout, EvalError>(e),
            },
    {
        Ok(&self.type_info(ty)?.layout)
    }

    /// The shape of `ty` as the table records it, without instantiation.
    pub fn kind(&self, ty: Ty) -> (r: Result<&'a TyKind, EvalError>)
        ensures
            match self.env().kind(ty) {
                Ok(k) => r == Ok::<&TyKind, EvalError>(&k),
                Err(e) => r == Err::<&TyKind, EvalError>(e),
            },
    {
        match self.program.types.info(ty) {
            Some(i) => Ok(&i.kind),
            None => Err(EvalError::Malformed),
        }
    }

    /// The type of a place under the current generic arguments.
    pub fn lvalue_ty(&self, lvalue: &crate::mir::Lvalue) -> (r: Result<Ty, EvalError>)
        requires
            self.stack@.len() > 0,
        ensures
            r == self.env().lvalue_ty(lvalue),
    {
        let t = lvalue.ty(self.mir())?;
        Ok(self.monomorphize(t, self.substs()))
    }

    /// The type of an operand under the current generic arguments.
    pub fn operand_ty(&self, operand: &Operand) -> (r: Result<Ty, EvalError>)
        requires
            self.stack@.len() > 0,
        ensures
            r == self.env().operand_ty(operand),
    {
        let t = operand.ty(self.mir())?;
        Ok(self.monomorphize(t, self.substs()))
    }

    /// `n` as a signed integer of pointer width.
    pub fn isize_primval(&self, n: i64) -> (r: PrimVal)
        ensures
            r == self.env().isize_primval(self.memory@, n),
    {
        PrimVal::int_with_size(n, self.memory.pointer_size())
    }

    /// `n` as an unsigned integer of pointer width.
    pub fn usize_primval(&self, n: u64) -> (r: PrimVal)
        ensures
            r == self.env().usize_primval(self.memory@, n),
    {
        PrimVal::uint_with_size(n, self.memory.pointer_size())
    }

    /// The address recorded for a constant or static.
    pub fn static_ptr(&self, id: ConstantId) -> (r: Result<Pointer, EvalError>)
        ensures
            r == self.env().static_ptr(id),
    {
        let mut i: usize = 0;
        while i < self.statics.len()
            invariant
                i <= self.statics@.len(),
                find_static(self.statics@, id, 0) == find_static(self.statics@, id, i as int),
            decreases self.statics@.len() - i,
        {
            if self.statics[i].id == id {
                return Ok(self.statics[i].ptr);
            }
            i += 1;
        }
        Err(EvalError::MissingStatic)
    }

    /// Allocates storage for one value of type `ty`.
    pub fn alloc_ptr(&mut self, ty: Ty, substs: Substs) -> (r: Result<Pointer, EvalError>)
        ensures
            evaluates(old(self), old(self).env().alloc_ptr(old(self).memory@, ty, substs), r, final(self)),
    {
        let size = self.type_size_with_substs(ty, substs)?;
        let align = self.type_align_with_substs(ty, substs)?;
        self.memory.allocate(size, align)
    }

    /// The memory, for writing.
    pub fn memory_mut(&mut self) -> (r: &mut Memory)
        ensures
            *r == old(self).memory,
            final(self).memory == *final(r),
            final(self).same_frames(old(self)),
    {
        &mut self.memory
    }

    /// The frame on top of the stack, for writing.
    pub fn frame_mut(&mut self) -> (r: &mut Frame<'a>)
        requires
            old(self).stack@.len() > 0,
        ensures
            *r == old(self).spec_frame(),
            final(self).stack@ == old(self).stack@.update(old(self).stack@.len() - 1, *final(r)),
            final(self).memory == old(self).memory,
            final(self).program == old(self).program,
            final(self).statics == old(self).statics,
            final(self).mir_cache == old(self).mir_cache,
            final(self).stack_limit == old(self).stack_limit,
    {
        let n = self.stack.len();
        &mut self.stack[n - 1]
    }

    /// Moves the frame on top of the stack to the start of block `target`.
    pub fn goto_block(&mut self, target: BasicBlock)
        requires
            old(self).stack@.len() > 0,
        ensures
            final(self)@ == old(self)@.goto_block(target),
            final(self).stack@.len() == old(self).stack@.len(),
    {
        let n = self.stack.len();
        self.stack[n - 1].block = target;
        self.stack[n - 1].stmt = 0;
        proof {
            assert(self@.stack =~= old(self)@.goto_block(target).stack);
        }
    }

    /// Stores the bytes in a fresh frozen allocation.
    pub fn alloc_bytes(&mut self, bytes: &[u8]) -> (r: Result<Pointer, EvalError>)
        ensures
            evaluates(old(self), spec_alloc_bytes(old(self).memory@, bytes@), r, final(self)),
    {
        let ptr = self.memory.allocate(bytes.len() as u64, 1)?;
        self.memory.write_bytes(ptr, bytes)?;
        self.memory.freeze(ptr.alloc_id)?;
        Ok(ptr)
    }

    /// The value of a string constant: a fat pointer to its bytes, which
    /// are stored in a fresh frozen allocation.
    pub fn str_to_value(&mut self, s: &str) -> (r: Result<Value, EvalError>)
        ensures
            evaluates(old(self), old(self).env().str_to_value(old(self).memory@, s@), r, final(self)),
    {
        let bytes = s.as_bytes();
        let ptr = self.alloc_bytes(bytes)?;
        Ok(Value::ByValPair(PrimVal::Ptr(ptr), self.usize_primval(bytes.len() as u64)))
    }

    /// The value of a constant. Strings and byte strings are stored in
    /// fresh frozen allocations; compound constants are not supported, and
    /// a literal whose type was never inferred is malformed.
    pub fn const_to_value(&mut self, c: &ConstVal) -> (r: Result<Value, EvalError>)
        ensures
            evaluates(old(self), old(self).env().const_to_value(old(self).memory@, *c), r, final(self)),
    {
        match const_primval(c) {
            Some(p) => Ok(Value::ByVal(p)),
            None => match c {
                ConstVal::Str(s) => self.str_to_value(s.as_str()),
                ConstVal::ByteStr(bs) => {
                    let ptr = self.alloc_bytes(bs.as_slice())?;
                    Ok(Value::ByVal(PrimVal::Ptr(ptr)))
                },
                ConstVal::Integral(_) | ConstVal::Float(_) => Err(EvalError::Malformed),
                _ => Err(EvalError::UnsupportedConstant),
            },
        }
    }

    fn cached(&self, def_id: DefId) -> (r: Option<&'a Mir>)
        ensures
            r == find_cached(self.mir_cache@, def_id, 0),
    {
        let mut i: usize = 0;
        while i < self.mir_cache.len()
            invariant
                i <= self.mir_cache@.len(),
                find_cached(self.mir_cache@, def_id, 0) == find_cached(self.mir_cache@, def_id, i as int),
            decreases self.mir_cache@.len() - i,
        {
            if self.mir_cache[i].def_id == def_id {
                return Some(self.mir_cache[i].mir);
            }
            i += 1;
        }
        None
    }

    /// Finds the body of a function, and remembers a body that another
    /// crate had to be asked for.
    pub fn load_mir(&mut self, def_id: DefId) -> (r: Result<CachedMir<'a>, EvalError>)
        ensures
            r == old(self)@.load_mir(def_id).0,
            final(self)@ == old(self)@.load_mir(def_id).1,
    {
        if def_id.is_local() {
            match lookup_mir(&self.program.mir_map, def_id) {
                Some(m) => Ok(CachedMir::Ref(m)),
                None => Err(EvalError::NoMirFor(def_id)),
            }
        } else {
            match self.cached(def_id) {
                Some(m) => Ok(CachedMir::Owned(m)),
                None => match lookup_mir(&self.program.extern_mir, def_id) {
                    Some(m) => {
                        self.mir_cache.push(CachedBody { def_id, mir: m });
                        Ok(CachedMir::Owned(m))
                    },
                    None => Err(EvalError::NoMirFor(def_id)),
                },
            }
        }
    }

    /// Enters a function: allocates its locals and pushes a frame that
    /// starts at the first statement of the first block. When the locals
    /// cannot be had, nothing is pushed. When the new frame is one too many
    /// for the stack limit, it is pushed all the same and the call fails.
    pub fn push_stack_frame(
        &mut self,
        def_id: DefId,
        span: Span,
        mir: CachedMir<'a>,
        substs: Substs,
        return_lvalue: Lvalue,
        return_to_block: StackPopCleanup,
    ) -> (r: Result<(), EvalError>)
        ensures
            ({
                let expected = old(self)@.push_stack_frame(
                    def_id,
                    span,
                    mir,
                    substs,
                    return_lvalue,
                    return_to_block,
                );
                &&& r == expected.0
                &&& final(self)@.same_but_memory(expected.1)
                &&& expected.1.depth() > old(self)@.depth() ==> final(self)@ == expected.1
            }),
    {
        proof {
            if old(self).stack@.len() > 0 {
                old(self).lemma_env_of_view();
            }
            assert(old(self)@.env().frame_locals(old(self).memory@, mir.spec_deref(), substs, return_lvalue)
                == old(self).env().frame_locals(old(self).memory@, mir.spec_deref(), substs, return_lvalue))
                by {
                old(self).env().lemma_frame_locals_of_program(
                    old(self)@.env(),
                    old(self).memory@,
                    mir.spec_deref(),
                    substs,
                    return_lvalue,
                );
            }
        }
        let return_ptr = return_lvalue.to_ptr()?;
        let body = mir.deref();
        let count: usize = body.local_decls.len();
        let mut locals: Vec<Value> = Vec::new();
        locals.push(Value::ByRef(return_ptr));
        let mut i: usize = 1;
        let mut failed: Option<EvalError> = None;
        proof {
            assert(locals@.subrange(1, locals@.len() as int) =~= Seq::<Value>::empty());
        }
        let mut going = true;
        while i < count && going
            invariant
                going == (failed is None),
                count == body.local_decls@.len(),
                return_lvalue.spec_to_ptr() == Ok::<Pointer, EvalError>(return_ptr),
                1 <= i,
                i <= count || (count == 0 && i == 1),
                self.same_frames(old(self)),
                match failed {
                    Some(e) => old(self).env().frame_locals(old(self).memory@, body, substs, return_lvalue)
                        == Err::<(Seq<Value>, MemoryModel), EvalError>(e),
                    None => old(self).env().alloc_locals(
                        old(self).memory@,
                        body.local_decls@,
                        substs,
                        (i - 1) as nat,
                    ) == Ok::<(Seq<Value>, MemoryModel), EvalError>(
                        (locals@.subrange(1, locals@.len() as int), self.memory@),
                    ) && locals@.len() == i && locals@[0] == Value::ByRef(return_ptr),
                },
            decreases count - i + if failed is None { 1int } else { 0int },
        {
            let ghost before = locals@.subrange(1, locals@.len() as int);
            let ghost mem_before = self.memory@;
            match self.alloc_ptr(body.local_decls[i], substs) {
                Ok(p) => {
                    locals.push(Value::ByRef(p));
                    proof {
                        assert(old(self).env().alloc_ptr(mem_before, body.local_decls@[i as int], substs)
                            == Ok::<(Pointer, MemoryModel), EvalError>((p, self.memory@)));
                        assert(locals@.subrange(1, locals@.len() as int) =~= before.push(Value::ByRef(p)));
                    }
                    i += 1;
                },
                Err(e) => {
                    proof {
                        assert(old(self).env().alloc_ptr(mem_before, body.local_decls@[i as int], substs)
                            == Err::<(Pointer, MemoryModel), EvalError>(e));
                        assert(old(self).env().alloc_locals(
                            old(self).memory@,
                            body.local_decls@,
                            substs,
                            i as nat,
                        ) == Err::<(Seq<Value>, MemoryModel), EvalError>(e));
                        old(self).env().lemma_alloc_locals_fails(
                            old(self).memory@,
                            body.local_decls@,
                            substs,
                            i as nat,
                            (count - 1) as nat,
                        );
                    }
                    failed = Some(e);
                    going = false;
                },
            }
        }
        match failed {
            Some(e) => Err(e),
            None => {
                proof {
                    assert(locals@ =~= seq![Value::ByRef(return_ptr)] + locals@.subrange(
                        1,
                        locals@.len() as int,
                    ));
                }
                self.stack.push(
                    Frame {
                        mir,
                        def_id,
                        substs,
                        span,
                        return_to_block,
                        locals,
                        block: BasicBlock::start(),
                        stmt: 0,
                    },
                );
                proof {
                    assert(self.stack@.drop_last() =~= old(self).stack@);
                    let expected = old(self)@.push_stack_frame(
                        def_id,
                        span,
                        mir,
                        substs,
                        return_lvalue,
                        return_to_block,
                    );
                    assert(self@.stack =~= expected.1.stack);
                }
                if self.stack.len() > self.stack_limit {
                    Err(EvalError::StackFrameLimitReached)
                } else {
                    Ok(())
                }
            },
        }
    }

    /// Leaves a function: pops the top frame and does what the frame asks
    /// for. `Freeze` freezes an allocation; `Goto` moves the caller, which
    /// must exist, to a block. The storage of the locals of the popped frame
    /// stays allocated.
    pub fn pop_stack_frame(&mut self) -> (r: Result<(), EvalError>)
        requires
            old(self).stack@.len() > 0,
        ensures
            r == old(self)@.pop_stack_frame().0,
            final(self)@ == old(self)@.pop_stack_frame().1,
    {
        let frame = self.stack.pop();
        proof {
            assert(self.stack@ =~= old(self).stack@.drop_last());
            assert(self@.stack =~= old(self)@.stack.drop_last());
        }
        match frame {
            Some(f) => match f.return_to_block {
                StackPopCleanup::Freeze(id) => self.memory.freeze(id),
                StackPopCleanup::Goto(target) => {
                    if self.stack.len() == 0 {
                        Err(EvalError::EmptyStack)
                    } else {
                        self.goto_block(target);
                        Ok(())
                    }
                },
                StackPopCleanup::Nothing => Ok(()),
            },
            None => Err(EvalError::EmptyStack),
        }
    }
}

} // verus!
