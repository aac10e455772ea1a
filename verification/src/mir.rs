//! The program representation that is evaluated: for each function a graph
//! of basic blocks, each a run of statements closed by one terminator.
//!
//! Every place projection carries the type of the place it yields, so the
//! type of any place can be read off without looking at a value.
use vstd::prelude::*;
use crate::error::EvalError;
use crate::ty::{DefId, Substs, Ty, TypeTable};

verus! {

/// A region of source text.
#[derive(Clone, Copy, Debug, PartialEq, Eq, Structural, Hash)]
pub struct Span {
    pub lo: u32,
    pub hi: u32,
}

/// Names a basic block of a function body.
#[derive(Clone, Copy, Debug, PartialEq, Eq, Structural, Hash)]
pub struct BasicBlock(pub usize);

impl BasicBlock {
    /// The block in which every function starts.
    pub open spec fn spec_start() -> BasicBlock {
        BasicBlock(0)
    }

    /// The block in which every function starts.
    #[verifier::when_used_as_spec(spec_start)]
    pub fn start() -> (r: BasicBlock)
        ensures
            r == BasicBlock::spec_start(),
    {
        BasicBlock(0)
    }
}

/// The binary operators.
#[derive(Clone, Copy, Debug, PartialEq, Eq, Structural, Hash)]
pub enum BinOp {
    Add,
    Sub,
    Mul,
    Div,
    Rem,
    BitXor,
    BitAnd,
    BitOr,
    Shl,
    Shr,
    Eq,
    Lt,
    Le,
    Ne,
    Ge,
    Gt,
}

/// The unary operators.
#[derive(Clone, Copy, Debug, PartialEq, Eq, Structural, Hash)]
pub enum UnOp {
    Not,
    Neg,
}

/// An isize constant, by the width of the target.
#[derive(Clone, Copy, Debug, PartialEq, Eq, Structural)]
pub enum ConstIsize {
    Is16(i16),
    Is32(i32),
    Is64(i64),
}

/// A usize constant, by the width of the target.
#[derive(Clone, Copy, Debug, PartialEq, Eq, Structural)]
pub enum ConstUsize {
    Us16(u16),
    Us32(u32),
    Us64(u64),
}

/// An integer constant.
#[derive(Clone, Copy, Debug, PartialEq, Eq, Structural)]
pub enum ConstInt {
    I8(i8),
    I16(i16),
    I32(i32),
    I64(i64),
    Isize(ConstIsize),
    U8(u8),
    U16(u16),
    U32(u32),
    U64(u64),
    Usize(ConstUsize),
    /// A literal whose type was never inferred.
    Infer(u64),
    InferSigned(i64),
}

/// A floating-point constant, as its bit pattern.
#[derive(Clone, Copy, Debug, PartialEq, Eq, Structural)]
pub enum ConstFloat {
    F32(u32),
    F64(u64),
    /// A literal whose type was never inferred.
    FInfer,
}

/// A constant value.
#[derive(Debug, PartialEq, Eq)]
pub enum ConstVal {
    Integral(ConstInt),
    Float(ConstFloat),
    Str(String),
    ByteStr(Vec<u8>),
    Bool(bool),
    Char(char),
    Struct,
    Tuple,
    Function(DefId),
    Array,
    Repeat,
    Dummy,
}

/// Where a constant operand takes its value from.
#[derive(Debug, PartialEq, Eq)]
pub enum Literal {
    /// A constant or static item, or a function item.
    Item { def_id: DefId, substs: Substs },
    Value { value: ConstVal },
    /// A constant lifted out of the current function.
    Promoted { index: usize },
}

/// A constant operand.
#[derive(Debug, PartialEq, Eq)]
pub struct Constant {
    pub span: Span,
    pub ty: Ty,
    pub literal: Literal,
}

/// A place expression.
#[derive(Debug, PartialEq, Eq)]
pub enum Lvalue {
    /// A slot of the current frame.
    Local(usize),
    /// A static item, with its type.
    Static(DefId, Ty),
    Projection(Box<Projection>),
}

/// A step from one place to a place inside it.
#[derive(Debug, PartialEq, Eq)]
pub struct Projection {
    pub base: Lvalue,
    pub elem: ProjectionElem,
    /// The type of the place projected to.
    pub ty: Ty,
}

/// The kinds of projection.
#[derive(Debug, PartialEq, Eq)]
pub enum ProjectionElem {
    Deref,
    /// The field with the given index, and its type.
    Field(usize, Ty),
    Index(Operand),
    /// The element `offset` from the start, or from the end.
    ConstantIndex { offset: u32, min_length: u32, from_end: bool },
    /// The elements from `from` to `to` before the end.
    Subslice { from: u32, to: u32 },
    /// The place seen as the variant with the given index.
    Downcast(usize),
}

/// What an operation takes as input.
#[derive(Debug, PartialEq, Eq)]
pub enum Operand {
    Consume(Lvalue),
    Constant(Constant),
}

/// What is being built by an aggregate.
#[derive(Clone, Copy, Debug, PartialEq, Eq, Structural)]
pub enum AggregateKind {
    Vec,
    Tuple,
    /// The variant with the given index of the data type `Ty`.
    Adt(Ty, usize),
    Closure,
}

/// The kinds of cast.
#[derive(Clone, Copy, Debug, PartialEq, Eq, Structural)]
pub enum CastKind {
    Misc,
    ReifyFnPointer,
    UnsafeFnPointer,
    Unsize,
}

/// The right-hand side of an assignment.
#[derive(Debug, PartialEq, Eq)]
pub enum Rvalue {
    Use(Operand),
    /// An array of copies of one operand.
    Repeat(Operand, u64),
    Ref(Lvalue),
    Len(Lvalue),
    Cast(CastKind, Operand, Ty),
    BinaryOp(BinOp, Operand, Operand),
    CheckedBinaryOp(BinOp, Operand, Operand),
    UnaryOp(UnOp, Operand),
    /// Fresh storage for a boxed value of the given type.
    Box(Ty),
    Aggregate(AggregateKind, Vec<Operand>),
    InlineAsm,
}

/// What a statement does.
#[derive(Debug, PartialEq, Eq)]
pub enum StatementKind {
    Assign(Lvalue, Rvalue),
    SetDiscriminant { lvalue: Lvalue, variant_index: usize },
    StorageLive(Lvalue),
    StorageDead(Lvalue),
    Nop,
}

/// One statement of a basic block, with its place in the source.
#[derive(Debug, PartialEq, Eq)]
pub struct Statement {
    pub span: Span,
    pub kind: StatementKind,
}

/// Where the result of a call goes, and where control goes after it.
#[derive(Debug, PartialEq, Eq)]
pub struct Destination {
    pub lvalue: Lvalue,
    pub target: BasicBlock,
}

/// How control leaves a basic block.
#[derive(Debug, PartialEq, Eq)]
pub enum TerminatorKind {
    Goto { target: BasicBlock },
    /// To `then_target` if the condition holds, else to `else_target`.
    If { cond: Operand, then_target: BasicBlock, else_target: BasicBlock },
    /// To the target of the first value equal to the integer at `discr`,
    /// and to the last target if none is.
    SwitchInt { discr: Lvalue, switch_ty: Ty, values: Vec<u64>, targets: Vec<BasicBlock> },
    /// To the target with the index of the variant that `discr` holds.
    Switch { discr: Lvalue, targets: Vec<BasicBlock> },
    Return,
    Unreachable,
    Resume,
    /// Calls `func`; the result goes to the place of `destination`, and
    /// control to its block.
    Call { func: Operand, args: Vec<Operand>, destination: Option<Destination> },
    /// Goes on to `target` when `cond` evaluates to `expected`.
    Assert { cond: Operand, expected: bool, target: BasicBlock },
    Drop { location: Lvalue, target: BasicBlock },
}

/// The terminator of a basic block, with its place in the source.
#[derive(Debug, PartialEq, Eq)]
pub struct Terminator {
    pub span: Span,
    pub kind: TerminatorKind,
}

/// A basic block: statements that run in order, then one terminator.
#[derive(Debug, PartialEq, Eq)]
pub struct BasicBlockData {
    pub statements: Vec<Statement>,
    pub terminator: Terminator,
}

/// The body of one function.
#[derive(Debug, PartialEq, Eq)]
pub struct Mir {
    pub basic_blocks: Vec<BasicBlockData>,
    /// The type of each local; local 0 is the return value.
    pub local_decls: Vec<Ty>,
    pub return_ty: Ty,
    pub span: Span,
}

impl Lvalue {
    /// The type of a place, as declared: that of the local, of the static,
    /// or the one recorded with the projection.
    pub open spec fn spec_ty(self, mir: &Mir) -> Result<Ty, EvalError> {
        match self {
            Lvalue::Local(i) => if i < mir.local_decls@.len() {
                Ok(mir.local_decls@[i as int])
            } else {
                Err(EvalError::Malformed)
            },
            Lvalue::Static(_, ty) => Ok(ty),
            Lvalue::Projection(p) => Ok(p.ty),
        }
    }

    /// The type of a place, as declared: that of the local, of the static,
    /// or the one recorded with the projection.
    pub fn ty(&self, mir: &Mir) -> (r: Result<Ty, EvalError>)
        ensures
            r == self.spec_ty(mir),
    {
        match self {
            Lvalue::Local(i) => {
                if *i < mir.local_decls.len() {
                    Ok(mir.local_decls[*i])
                } else {
                    Err(EvalError::Malformed)
                }
            },
            Lvalue::Static(_, ty) => Ok(*ty),
            Lvalue::Projection(p) => Ok(p.ty),
        }
    }
}

impl Operand {
    /// The type of an operand, as declared.
    pub open spec fn spec_ty(self, mir: &Mir) -> Result<Ty, EvalError> {
        match self {
            Operand::Consume(l) => l.spec_ty(mir),
            Operand::Constant(c) => Ok(c.ty),
        }
    }

    /// The type of an operand, as declared.
    pub fn ty(&self, mir: &Mir) -> (r: Result<Ty, EvalError>)
        ensures
            r == self.spec_ty(mir),
    {
        match self {
            Operand::Consume(l) => l.ty(mir),
            Operand::Constant(c) => Ok(c.ty),
        }
    }
}

/// The body of an item.
#[derive(Debug, PartialEq, Eq)]
pub struct MirEntry {
    pub def_id: DefId,
    pub mir: Mir,
}

/// What is to be put into a dispatch table for one type and one trait.
#[derive(Clone, Debug, PartialEq, Eq)]
pub struct VtableEntry {
    /// The concrete type.
    pub ty: Ty,
    /// The trait's identity.
    pub trait_id: u64,
    /// The functions of the table, in order; `None` where the type has none.
    pub methods: Vec<Option<crate::memory::FunctionDefinition>>,
}

/// The name of a built-in operation.
#[derive(Debug, PartialEq, Eq)]
pub struct IntrinsicEntry {
    pub def_id: DefId,
    pub name: String,
}

/// The index of the first entry for `def_id`, from `from` on.
pub open spec fn find_intrinsic(entries: Seq<IntrinsicEntry>, def_id: DefId, from: int) -> Option<int>
    decreases entries.len() - from,
{
    if from < 0 || from >= entries.len() {
        None
    } else if entries[from].def_id == def_id {
        Some(from)
    } else {
        find_intrinsic(entries, def_id, from + 1)
    }
}

/// Finds the name recorded for the built-in operation `def_id`.
pub fn lookup_intrinsic<'a>(entries: &'a Vec<IntrinsicEntry>, def_id: DefId) -> (r: Option<&'a String>)
    ensures
        match find_intrinsic(entries@, def_id, 0) {
            Some(i) => r == Some(&entries@[i].name),
            None => r is None,
        },
{
    let mut i: usize = 0;
    while i < entries.len()
        invariant
            i <= entries@.len(),
            find_intrinsic(entries@, def_id, 0) == find_intrinsic(entries@, def_id, i as int),
        decreases entries@.len() - i,
    {
        if entries[i].def_id == def_id {
            return Some(&entries[i].name);
        }
        i += 1;
    }
    None
}

/// A program: its types, the bodies of its functions, the names of the
/// built-in operations it calls, and the dispatch tables of its trait
/// implementations.
#[derive(Debug, PartialEq, Eq)]
pub struct Program {
    pub types: TypeTable,
    /// The items that are built-in operations, with their names.
    pub intrinsics: Vec<IntrinsicEntry>,
    /// The items that are closures.
    pub closures: Vec<DefId>,
    /// The bodies of the items of the crate under evaluation.
    pub mir_map: Vec<MirEntry>,
    /// The bodies that other crates offer.
    pub extern_mir: Vec<MirEntry>,
    pub vtables: Vec<VtableEntry>,
}

/// The index of the first entry for `def_id`, from `from` on.
pub open spec fn find_mir(entries: Seq<MirEntry>, def_id: DefId, from: int) -> Option<int>
    decreases entries.len() - from,
{
    if from < 0 || from >= entries.len() {
        None
    } else if entries[from].def_id == def_id {
        Some(from)
    } else {
        find_mir(entries, def_id, from + 1)
    }
}

/// Finds the first body recorded for `def_id`.
pub fn lookup_mir<'a>(entries: &'a Vec<MirEntry>, def_id: DefId) -> (r: Option<&'a Mir>)
    ensures
        match find_mir(entries@, def_id, 0) {
            Some(i) => r == Some(&entries@[i].mir),
            None => r is None,
        },
{
    let mut i: usize = 0;
    while i < entries.len()
        invariant
            i <= entries@.len(),
            find_mir(entries@, def_id, 0) == find_mir(entries@, def_id, i as int),
        decreases entries@.len() - i,
    {
        if entries[i].def_id == def_id {
            return Some(&entries[i].mir);
        }
        i += 1;
    }
    None
}

} // verus!
