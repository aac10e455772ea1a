use mir_interpreter::error::{ErrorClass, EvalError};
use mir_interpreter::interpreter::fields::FieldOffsets;
use mir_interpreter::interpreter::intrinsics::{intrinsic_of, Intrinsic};
use mir_interpreter::interpreter::place::{constant_index_place, index_place, subslice_place};
use mir_interpreter::interpreter::run::eval_main;
use mir_interpreter::interpreter::value::Value;
use mir_interpreter::interpreter::{CachedMir, ConstantId, ConstantKind, EvalContext, LvalueExtra, StackPopCleanup, StaticEntry};
use mir_interpreter::memory::{AllocId, FunctionDefinition, Pointer};
use mir_interpreter::mir::{
    AggregateKind, BasicBlock, BasicBlockData, BinOp, CastKind, ConstInt, ConstVal, Constant, Destination,
    IntrinsicEntry, Literal, Lvalue, Mir, MirEntry, Operand, Program, Projection, ProjectionElem, Rvalue, Span,
    Statement, StatementKind, Terminator, TerminatorKind, UnOp, VtableEntry,
};
use mir_interpreter::primval::PrimVal;
use mir_interpreter::ty::{
    DefId, FloatTy, FnTy, GenericArgs, Instance, IntTy, Integer, Layout, PointerWidth, Struct, Substs, Ty, TyKind,
    TypeInfo, TypeTable, UintTy, VariantDef,
};

const BOOL: Ty = Ty(0);
const I32: Ty = Ty(1);
const ISIZE: Ty = Ty(2);
const USIZE: Ty = Ty(3);
const F32: Ty = Ty(4);
const F64: Ty = Ty(5);
const U8: Ty = Ty(6);
const U32: Ty = Ty(7);
const CHAR: Ty = Ty(8);
const U32_BOOL: Ty = Ty(9);
const U8_BOOL: Ty = Ty(10);
const ARRAY4: Ty = Ty(11);
const SLICE: Ty = Ty(12);
const REF_ARRAY4: Ty = Ty(13);
const REF_SLICE: Ty = Ty(14);
const RAW_U32: Ty = Ty(15);
const OPTION_REF: Ty = Ty(16);
const REF_U32: Ty = Ty(17);
const C_ENUM: Ty = Ty(18);
const GENERAL: Ty = Ty(19);
const RECORD: Ty = Ty(20);
const FN_ITEM: Ty = Ty(21);
const FN_PTR: Ty = Ty(22);
const UNIT: Ty = Ty(23);
const TRAIT_OBJECT: Ty = Ty(24);
const REF_TRAIT: Ty = Ty(25);
const TAILED: Ty = Ty(26);
const REF_TAILED: Ty = Ty(27);
const I8: Ty = Ty(28);
const PAIR_U32_REF: Ty = Ty(29);
const OPTION_PAIR: Ty = Ty(30);
const PARAM: Ty = Ty(31);
const INTRINSIC_ITEM: Ty = Ty(32);
const STR: Ty = Ty(33);
const REF_STR: Ty = Ty(34);
const I64: Ty = Ty(35);
const BYTES: Ty = Ty(36);
const TAILED_BYTES: Ty = Ty(37);
const DROPPED: Ty = Ty(38);
const OTHER_FN_PTR: Ty = Ty(39);
const HOLDER_THIN: Ty = Ty(40);
const HOLDER_FAT: Ty = Ty(41);

const MAIN: DefId = DefId { krate: 0, index: 1 };
const CALLEE: DefId = DefId { krate: 0, index: 10 };
const INTRINSIC: DefId = DefId { krate: 0, index: 50 };
const SP: Span = Span { lo: 0, hi: 0 };

fn info(kind: TyKind, layout: Layout, size: u64, align: u64, sized: bool, name: &str) -> TypeInfo {
    TypeInfo {
        kind,
        layout,
        size,
        align,
        pref_align: align * 2,
        sized,
        needs_drop: false,
        name: name.to_string(),
        id_hash: size * 1000 + align,
    }
}

fn record(offsets: Vec<u64>, align: u64) -> Struct {
    Struct { offsets, align }
}

fn types() -> TypeTable {
    let scalar = |kind: TyKind, size: u64, name: &str| info(kind, Layout::Scalar, size, size.max(1), true, name);
    let types = vec![
        scalar(TyKind::Bool, 1, "bool"),
        scalar(TyKind::Int(IntTy::I32), 4, "i32"),
        scalar(TyKind::Int(IntTy::Is), 8, "isize"),
        scalar(TyKind::Uint(UintTy::Us), 8, "usize"),
        scalar(TyKind::Float(FloatTy::F32), 4, "f32"),
        scalar(TyKind::Float(FloatTy::F64), 8, "f64"),
        scalar(TyKind::Uint(UintTy::U8), 1, "u8"),
        scalar(TyKind::Uint(UintTy::U32), 4, "u32"),
        scalar(TyKind::Char, 4, "char"),
        info(TyKind::Tuple(vec![U32, BOOL]), Layout::Univariant(record(vec![0, 4], 4)), 8, 4, true, "(u32, bool)"),
        info(TyKind::Tuple(vec![U8, BOOL]), Layout::Univariant(record(vec![0, 1], 1)), 2, 1, true, "(u8, bool)"),
        info(TyKind::Array(U32, 4), Layout::Array, 16, 4, true, "[u32; 4]"),
        info(TyKind::Slice(U32), Layout::Array, 0, 4, false, "[u32]"),
        scalar(TyKind::Ref(ARRAY4), 8, "&[u32; 4]"),
        info(TyKind::Ref(SLICE), Layout::FatPointer, 16, 8, true, "&[u32]"),
        scalar(TyKind::RawPtr(U32), 8, "*const u32"),
        info(
            TyKind::Adt(
                DefId { krate: 0, index: 100 },
                vec![VariantDef { discr: 0, fields: vec![] }, VariantDef { discr: 1, fields: vec![REF_U32] }],
            ),
            Layout::RawNullablePointer { nndiscr: 1 },
            8,
            8,
            true,
            "Option<&u32>",
        ),
        scalar(TyKind::Ref(U32), 8, "&u32"),
        info(
            TyKind::Adt(
                DefId { krate: 0, index: 101 },
                vec![
                    VariantDef { discr: 0, fields: vec![] },
                    VariantDef { discr: 5, fields: vec![] },
                    VariantDef { discr: 200, fields: vec![] },
                ],
            ),
            Layout::CEnum { discr: Integer::I8, signed: false },
            1,
            1,
            true,
            "Level",
        ),
        info(
            TyKind::Adt(
                DefId { krate: 0, index: 102 },
                vec![VariantDef { discr: 0, fields: vec![U32] }, VariantDef { discr: 1, fields: vec![U8, U8] }],
            ),
            Layout::General {
                discr: Integer::I32,
                variants: vec![record(vec![0, 4], 4), record(vec![0, 4, 5], 4)],
            },
            8,
            4,
            true,
            "Shape",
        ),
        info(
            TyKind::Adt(DefId { krate: 0, index: 103 }, vec![VariantDef { discr: 0, fields: vec![U32, U8] }]),
            Layout::Univariant(record(vec![0, 4], 4)),
            8,
            4,
            true,
            "Record",
        ),
        info(TyKind::FnDef(CALLEE, Substs(0), FnTy(1)), Layout::Scalar, 0, 1, true, "fn item"),
        scalar(TyKind::FnPtr(FnTy(1)), 8, "fn()"),
        info(TyKind::Tuple(vec![]), Layout::Univariant(record(vec![], 1)), 0, 1, true, "()"),
        info(TyKind::Trait(7), Layout::Other, 0, 1, false, "Trait"),
        info(TyKind::Ref(TRAIT_OBJECT), Layout::FatPointer, 16, 8, true, "&Trait"),
        info(
            TyKind::Adt(DefId { krate: 0, index: 104 }, vec![VariantDef { discr: 0, fields: vec![U8, SLICE] }]),
            Layout::Univariant(record(vec![0, 4], 4)),
            0,
            4,
            false,
            "Tailed",
        ),
        info(TyKind::Ref(TAILED), Layout::FatPointer, 16, 8, true, "&Tailed"),
        scalar(TyKind::Int(IntTy::I8), 1, "i8"),
        info(TyKind::Tuple(vec![U32, REF_U32]), Layout::Univariant(record(vec![0, 8], 8)), 16, 8, true, "(u32, &u32)"),
        info(
            TyKind::Adt(
                DefId { krate: 0, index: 105 },
                vec![VariantDef { discr: 0, fields: vec![] }, VariantDef { discr: 1, fields: vec![PAIR_U32_REF] }],
            ),
            Layout::StructWrappedNullablePointer {
                nndiscr: 1,
                nonnull: record(vec![0], 8),
                discrfield: vec![0, 0, 1],
            },
            16,
            8,
            true,
            "Option<(u32, &u32)>",
        ),
        info(TyKind::Param(0), Layout::Other, 0, 1, true, "T"),
        info(TyKind::FnDef(INTRINSIC, Substs(3), FnTy(2)), Layout::Scalar, 0, 1, true, "intrinsic item"),
        info(TyKind::Str, Layout::Other, 0, 1, false, "str"),
        info(TyKind::Ref(STR), Layout::FatPointer, 16, 8, true, "&str"),
        scalar(TyKind::Int(IntTy::I64), 8, "i64"),
        info(TyKind::Slice(U8), Layout::Array, 0, 1, false, "[u8]"),
        info(
            TyKind::Adt(DefId { krate: 0, index: 106 }, vec![VariantDef { discr: 0, fields: vec![U32, BYTES] }]),
            Layout::Univariant(record(vec![0, 4], 4)),
            0,
            4,
            false,
            "TailedBytes",
        ),
        TypeInfo { needs_drop: true, ..scalar(TyKind::Box(U32), 8, "Box<u32>") },
        scalar(TyKind::FnPtr(FnTy(9)), 8, "fn(u8)"),
        info(
            TyKind::Adt(
                DefId { krate: 0, index: 110 },
                vec![VariantDef { discr: 0, fields: vec![REF_ARRAY4, U32, UNIT] }],
            ),
            Layout::Univariant(record(vec![0, 8], 8)),
            16,
            8,
            true,
            "Holder<[u32; 4]>",
        ),
        info(
            TyKind::Adt(
                DefId { krate: 0, index: 110 },
                vec![VariantDef { discr: 0, fields: vec![REF_SLICE, U32, UNIT] }],
            ),
            Layout::Univariant(record(vec![0, 16], 8)),
            24,
            8,
            true,
            "Holder<[u32]>",
        ),
    ];
    TypeTable {
        pointer_width: PointerWidth::P64,
        types,
        instances: vec![Instance { generic: PARAM, substs: Substs(1), concrete: U32 }],
        generic_args: vec![
            GenericArgs { substs: Substs(1), types: vec![U32] },
            GenericArgs { substs: Substs(2), types: vec![U8] },
            GenericArgs { substs: Substs(3), types: vec![U32] },
            GenericArgs { substs: Substs(4), types: vec![SLICE] },
            GenericArgs { substs: Substs(5), types: vec![OPTION_REF] },
            GenericArgs { substs: Substs(6), types: vec![TAILED] },
            GenericArgs { substs: Substs(7), types: vec![TRAIT_OBJECT] },
            GenericArgs { substs: Substs(8), types: vec![C_ENUM] },
            GenericArgs { substs: Substs(9), types: vec![TAILED_BYTES] },
        ],
        bool_ty: BOOL,
        i32_ty: I32,
        isize_ty: ISIZE,
        usize_ty: USIZE,
        f32_ty: F32,
        f64_ty: F64,
    }
}

fn ret() -> Terminator {
    Terminator { span: Span { lo: 90, hi: 91 }, kind: TerminatorKind::Return }
}

fn body(locals: Vec<Ty>, statements: Vec<Statement>, terminator: Terminator) -> Mir {
    let return_ty = locals[0];
    Mir {
        basic_blocks: vec![BasicBlockData { statements, terminator }],
        local_decls: locals,
        return_ty,
        span: Span { lo: 1, hi: 2 },
    }
}

fn intrinsic_names() -> Vec<IntrinsicEntry> {
    let names = [
        "size_of",
        "offset",
        "ctpop",
        "transmute",
        "frobnicate",
        "add_with_overflow",
        "copy",
        "discriminant_value",
        "size_of_val",
        "min_align_of",
        "type_name",
        "assume",
        "sqrtf32",
        "fabsf32",
        "uninit",
        "init",
        "arith_offset",
        "breakpoint",
        "type_id",
        "needs_drop",
        "pref_align_of",
        "bswap",
        "overflowing_sub",
        "likely",
        "volatile_load",
        "volatile_store",
        "move_val_init",
    ];
    names
        .iter()
        .enumerate()
        .map(|(i, n)| IntrinsicEntry { def_id: DefId { krate: 0, index: 50 + i as u32 }, name: n.to_string() })
        .collect()
}

fn intrinsic(name: &str) -> DefId {
    intrinsic_names().into_iter().find(|e| e.name == name).unwrap().def_id
}

fn program(mir_map: Vec<MirEntry>) -> Program {
    Program {
        types: types(),
        intrinsics: intrinsic_names(),
        closures: vec![DefId { krate: 0, index: 11 }],
        mir_map,
        extern_mir: vec![MirEntry { def_id: DefId { krate: 7, index: 1 }, mir: body(vec![UNIT], vec![], ret()) }],
        vtables: vec![VtableEntry {
            ty: U32,
            trait_id: 7,
            methods: vec![
                Some(FunctionDefinition { def_id: CALLEE, substs: Substs(0), fn_ty: FnTy(1) }),
                None,
                Some(FunctionDefinition { def_id: MAIN, substs: Substs(0), fn_ty: FnTy(1) }),
            ],
        }],
    }
}

/// A program whose only function has the given locals.
fn with_locals(locals: Vec<Ty>) -> Program {
    program(vec![MirEntry { def_id: MAIN, mir: body(locals, vec![], ret()) }])
}

/// A context that runs the only function of `program`, with the given
/// generic arguments.
fn enter_with<'a>(program: &'a Program, substs: Substs) -> EvalContext<'a> {
    let mut ecx = EvalContext::new(program, 4096, 8);
    let mir = &program.mir_map[0].mir;
    let return_ptr = ecx.alloc_ptr(mir.return_ty, substs).unwrap();
    ecx.push_stack_frame(
        MAIN,
        SP,
        CachedMir::Ref(mir),
        substs,
        mir_interpreter::interpreter::Lvalue::from_ptr(return_ptr),
        StackPopCleanup::Nothing,
    )
    .unwrap();
    ecx
}

fn enter<'a>(program: &'a Program) -> EvalContext<'a> {
    enter_with(program, Substs(0))
}

fn local(i: usize) -> Lvalue {
    Lvalue::Local(i)
}

fn consume(i: usize) -> Operand {
    Operand::Consume(local(i))
}

fn project(base: Lvalue, elem: ProjectionElem, ty: Ty) -> Lvalue {
    Lvalue::Projection(Box::new(Projection { base, elem, ty }))
}

fn constant(value: ConstVal, ty: Ty) -> Operand {
    Operand::Constant(Constant { span: SP, ty, literal: Literal::Value { value } })
}

fn const_u32(n: u32) -> Operand {
    constant(ConstVal::Integral(ConstInt::U32(n)), U32)
}

fn const_u8(n: u8) -> Operand {
    constant(ConstVal::Integral(ConstInt::U8(n)), U8)
}

fn const_usize(n: u64) -> Operand {
    constant(ConstVal::Integral(ConstInt::U64(n)), USIZE)
}

fn const_isize(n: i64) -> Operand {
    constant(ConstVal::Integral(ConstInt::I64(n)), ISIZE)
}

fn const_bool(b: bool) -> Operand {
    constant(ConstVal::Bool(b), BOOL)
}

fn local_ptr(ecx: &EvalContext, i: usize) -> Pointer {
    match ecx.frame().locals[i] {
        Value::ByRef(p) => p,
        _ => panic!("a local that is not in memory"),
    }
}

fn assign(ecx: &mut EvalContext, i: usize, rvalue: Rvalue) -> Result<(), EvalError> {
    ecx.eval_rvalue_into_lvalue(&rvalue, &local(i))
}

fn read_u32(ecx: &EvalContext, ptr: Pointer) -> u64 {
    ecx.memory().read_uint(ptr, 4).unwrap()
}

#[test]
fn checked_add_of_7_and_5() {
    let program = with_locals(vec![UNIT, U32_BOOL]);
    let mut ecx = enter(&program);
    assign(&mut ecx, 1, Rvalue::CheckedBinaryOp(BinOp::Add, const_u32(7), const_u32(5))).unwrap();
    let dest = local_ptr(&ecx, 1);
    assert_eq!(ecx.memory().read_uint(dest, 4), Ok(12));
    assert_eq!(ecx.memory().read_bool(dest.offset(4)), Ok(false));
}

#[test]
fn checked_add_of_255_and_1() {
    let program = with_locals(vec![UNIT, U8_BOOL]);
    let mut ecx = enter(&program);
    assign(&mut ecx, 1, Rvalue::CheckedBinaryOp(BinOp::Add, const_u8(255), const_u8(1))).unwrap();
    let dest = local_ptr(&ecx, 1);
    assert_eq!(ecx.memory().read_uint(dest, 1), Ok(0));
    assert_eq!(ecx.memory().read_bool(dest.offset(1)), Ok(true));
}

#[test]
fn checked_op_needs_a_pair_to_write_to() {
    let program = with_locals(vec![UNIT, U32]);
    let mut ecx = enter(&program);
    assert_eq!(
        assign(&mut ecx, 1, Rvalue::CheckedBinaryOp(BinOp::Add, const_u32(7), const_u32(5))),
        Err(EvalError::Malformed)
    );
}

#[test]
fn unchecked_binary_op_drops_the_flag() {
    let program = with_locals(vec![UNIT, U8, U8]);
    let mut ecx = enter(&program);
    assign(&mut ecx, 1, Rvalue::BinaryOp(BinOp::Add, const_u8(250), const_u8(10))).unwrap();
    assert_eq!(ecx.memory().read_uint(local_ptr(&ecx, 1), 1), Ok(4));
    assign(&mut ecx, 2, Rvalue::BinaryOp(BinOp::Mul, consume(1), const_u8(3))).unwrap();
    assert_eq!(ecx.memory().read_uint(local_ptr(&ecx, 2), 1), Ok(12));
    let place = ecx.eval_lvalue(&local(1)).unwrap();
    assert_eq!(ecx.intrinsic_overflowing(BinOp::Sub, &const_u8(1), &const_u8(2), place), Ok(true));
    assert_eq!(ecx.memory().read_uint(local_ptr(&ecx, 1), 1), Ok(255));
}

#[test]
fn use_and_unary_op() {
    let program = with_locals(vec![UNIT, U32, U32, BOOL]);
    let mut ecx = enter(&program);
    assign(&mut ecx, 1, Rvalue::Use(const_u32(41))).unwrap();
    assign(&mut ecx, 2, Rvalue::Use(consume(1))).unwrap();
    assert_eq!(read_u32(&ecx, local_ptr(&ecx, 2)), 41);
    assign(&mut ecx, 2, Rvalue::UnaryOp(UnOp::Not, consume(1))).unwrap();
    assert_eq!(read_u32(&ecx, local_ptr(&ecx, 2)), 0xffff_ffd6);
    assign(&mut ecx, 3, Rvalue::UnaryOp(UnOp::Not, const_bool(false))).unwrap();
    assert_eq!(ecx.memory().read_bool(local_ptr(&ecx, 3)), Ok(true));
}

#[test]
fn reading_an_unwritten_local_fails() {
    let program = with_locals(vec![UNIT, U32, U32]);
    let mut ecx = enter(&program);
    assert_eq!(assign(&mut ecx, 2, Rvalue::Use(consume(1))), Ok(()));
    assert_eq!(ecx.read_value(local_ptr(&ecx, 2), U32), Err(EvalError::ReadUndefBytes));
    assert_eq!(
        assign(&mut ecx, 2, Rvalue::UnaryOp(UnOp::Neg, consume(1))),
        Err(EvalError::ReadUndefBytes)
    );
    assert_eq!(assign(&mut ecx, 9, Rvalue::Use(const_u32(1))), Err(EvalError::Malformed));
}

#[test]
fn inline_assembly_is_not_supported() {
    let program = with_locals(vec![UNIT, U32]);
    let mut ecx = enter(&program);
    let err = assign(&mut ecx, 1, Rvalue::InlineAsm).unwrap_err();
    assert_eq!(err, EvalError::InlineAsm);
    assert_eq!(err.class(), ErrorClass::UnsupportedOperation);
}

#[test]
fn aggregate_of_a_record() {
    let program = with_locals(vec![UNIT, RECORD]);
    let mut ecx = enter(&program);
    assign(&mut ecx, 1, Rvalue::Aggregate(AggregateKind::Adt(RECORD, 0), vec![const_u32(9), const_u8(3)])).unwrap();
    let dest = local_ptr(&ecx, 1);
    assert_eq!(read_u32(&ecx, dest), 9);
    assert_eq!(ecx.memory().read_uint(dest.offset(4), 1), Ok(3));
}

#[test]
fn aggregate_of_an_array() {
    let program = with_locals(vec![UNIT, ARRAY4]);
    let mut ecx = enter(&program);
    let elems = vec![const_u32(10), const_u32(20), const_u32(30), const_u32(40)];
    assign(&mut ecx, 1, Rvalue::Aggregate(AggregateKind::Vec, elems)).unwrap();
    let dest = local_ptr(&ecx, 1);
    assert_eq!(read_u32(&ecx, dest), 10);
    assert_eq!(read_u32(&ecx, dest.offset(4)), 20);
    assert_eq!(read_u32(&ecx, dest.offset(12)), 40);
}

#[test]
fn aggregate_of_a_tagged_variant() {
    let program = with_locals(vec![UNIT, GENERAL]);
    let mut ecx = enter(&program);
    assign(&mut ecx, 1, Rvalue::Aggregate(AggregateKind::Adt(GENERAL, 1), vec![const_u8(7), const_u8(8)])).unwrap();
    let dest = local_ptr(&ecx, 1);
    assert_eq!(read_u32(&ecx, dest), 1);
    assert_eq!(ecx.memory().read_uint(dest.offset(4), 1), Ok(7));
    assert_eq!(ecx.memory().read_uint(dest.offset(5), 1), Ok(8));
    assert_eq!(ecx.read_discriminant_value(dest, GENERAL), Ok(1));
    assert_eq!(
        assign(&mut ecx, 1, Rvalue::Aggregate(AggregateKind::Tuple, vec![])),
        Err(EvalError::Malformed)
    );
    assert_eq!(
        assign(&mut ecx, 1, Rvalue::Aggregate(AggregateKind::Adt(GENERAL, 2), vec![])),
        Err(EvalError::Malformed)
    );
}

#[test]
fn aggregate_of_a_plain_enum() {
    let program = with_locals(vec![UNIT, C_ENUM]);
    let mut ecx = enter(&program);
    assign(&mut ecx, 1, Rvalue::Aggregate(AggregateKind::Adt(C_ENUM, 2), vec![])).unwrap();
    let dest = local_ptr(&ecx, 1);
    assert_eq!(ecx.memory().read_uint(dest, 1), Ok(200));
    assert_eq!(ecx.read_value(dest, C_ENUM), Ok(Value::ByVal(PrimVal::U8(200))));
    assert_eq!(ecx.read_discriminant_value(dest, C_ENUM), Ok(200));
    assert_eq!(
        assign(&mut ecx, 1, Rvalue::Aggregate(AggregateKind::Adt(C_ENUM, 1), vec![const_u8(1)])),
        Err(EvalError::Malformed)
    );
}

#[test]
fn niche_enum_recovers_both_variants() {
    let program = with_locals(vec![UNIT, OPTION_REF, U32, REF_U32]);
    let mut ecx = enter(&program);
    assign(&mut ecx, 1, Rvalue::Aggregate(AggregateKind::Adt(OPTION_REF, 0), vec![])).unwrap();
    let dest = local_ptr(&ecx, 1);
    assert_eq!(ecx.memory().read_usize(dest), Ok(0));
    assert_eq!(ecx.read_discriminant_value(dest, OPTION_REF), Ok(0));

    assign(&mut ecx, 2, Rvalue::Use(const_u32(5))).unwrap();
    assign(&mut ecx, 3, Rvalue::Ref(local(2))).unwrap();
    assign(&mut ecx, 1, Rvalue::Aggregate(AggregateKind::Adt(OPTION_REF, 1), vec![consume(3)])).unwrap();
    assert_eq!(ecx.memory().read_ptr(dest), Ok(local_ptr(&ecx, 2)));
    assert_eq!(ecx.read_discriminant_value(dest, OPTION_REF), Ok(1));

    assert_eq!(
        assign(&mut ecx, 1, Rvalue::Aggregate(AggregateKind::Adt(OPTION_REF, 1), vec![])),
        Err(EvalError::Malformed)
    );
    assert_eq!(
        assign(&mut ecx, 1, Rvalue::Aggregate(AggregateKind::Adt(OPTION_REF, 0), vec![consume(3)])),
        Err(EvalError::Malformed)
    );
}

#[test]
fn niche_enum_inside_a_record_recovers_both_variants() {
    let program = with_locals(vec![UNIT, OPTION_PAIR, U32, PAIR_U32_REF, UNIT]);
    let mut ecx = enter(&program);
    let dest = local_ptr(&ecx, 1);
    assert_eq!(ecx.nonnull_offset(OPTION_PAIR, 1, &vec![0, 0, 1]), Ok(8));
    assign(&mut ecx, 1, Rvalue::Aggregate(AggregateKind::Adt(OPTION_PAIR, 0), vec![])).unwrap();
    assert_eq!(ecx.memory().read_usize(dest.offset(8)), Ok(0));
    assert_eq!(ecx.read_discriminant_value(dest, OPTION_PAIR), Ok(0));

    assign(&mut ecx, 2, Rvalue::Use(const_u32(5))).unwrap();
    let field0 = project(local(3), ProjectionElem::Field(0, U32), U32);
    let field1 = project(local(3), ProjectionElem::Field(1, REF_U32), REF_U32);
    ecx.eval_rvalue_into_lvalue(&Rvalue::Use(const_u32(77)), &field0).unwrap();
    ecx.eval_rvalue_into_lvalue(&Rvalue::Ref(local(2)), &field1).unwrap();
    assign(&mut ecx, 1, Rvalue::Aggregate(AggregateKind::Adt(OPTION_PAIR, 1), vec![consume(3)])).unwrap();
    assert_eq!(read_u32(&ecx, dest), 77);
    assert_eq!(ecx.read_discriminant_value(dest, OPTION_PAIR), Ok(1));

    assert_eq!(
        assign(&mut ecx, 1, Rvalue::Aggregate(AggregateKind::Adt(OPTION_PAIR, 0), vec![consume(2)])),
        Err(EvalError::Malformed)
    );
    assign(&mut ecx, 1, Rvalue::Aggregate(AggregateKind::Adt(OPTION_PAIR, 0), vec![consume(4)])).unwrap();
    assert_eq!(ecx.read_discriminant_value(dest, OPTION_PAIR), Ok(0));
}

#[test]
fn aggregate_for_an_unsupported_layout() {
    let program = with_locals(vec![UNIT, U32]);
    let mut ecx = enter(&program);
    assert_eq!(
        assign(&mut ecx, 1, Rvalue::Aggregate(AggregateKind::Tuple, vec![])),
        Err(EvalError::UnsupportedLayout)
    );
}

#[test]
fn repeat_fills_every_slot() {
    let program = with_locals(vec![UNIT, ARRAY4, U32]);
    let mut ecx = enter(&program);
    assign(&mut ecx, 1, Rvalue::Repeat(const_u32(6), 4)).unwrap();
    let dest = local_ptr(&ecx, 1);
    for i in 0..4 {
        assert_eq!(read_u32(&ecx, dest.offset(4 * i)), 6);
    }
    assert_eq!(assign(&mut ecx, 2, Rvalue::Repeat(const_u32(6), 4)), Err(EvalError::Malformed));
}

#[test]
fn length_of_an_array_and_of_a_slice() {
    let program = with_locals(vec![UNIT, ARRAY4, USIZE, REF_SLICE]);
    let mut ecx = enter(&program);
    assign(&mut ecx, 2, Rvalue::Len(local(1))).unwrap();
    assert_eq!(ecx.memory().read_usize(local_ptr(&ecx, 2)), Ok(4));

    let fat = local_ptr(&ecx, 3);
    let array = local_ptr(&ecx, 1);
    ecx.memory_mut().write_ptr(fat, array).unwrap();
    ecx.memory_mut().write_usize(fat.offset(8), 3).unwrap();
    let slice = project(local(3), ProjectionElem::Deref, SLICE);
    ecx.eval_rvalue_into_lvalue(&Rvalue::Len(slice), &local(2)).unwrap();
    assert_eq!(ecx.memory().read_usize(local_ptr(&ecx, 2)), Ok(3));
    assert_eq!(assign(&mut ecx, 2, Rvalue::Len(local(2))), Err(EvalError::Malformed));
}

#[test]
fn reference_to_a_sized_and_to_an_unsized_place() {
    let program = with_locals(vec![UNIT, U32, REF_U32, REF_SLICE, REF_SLICE, ARRAY4]);
    let mut ecx = enter(&program);
    assign(&mut ecx, 2, Rvalue::Ref(local(1))).unwrap();
    assert_eq!(ecx.memory().read_ptr(local_ptr(&ecx, 2)), Ok(local_ptr(&ecx, 1)));

    let fat = local_ptr(&ecx, 3);
    let array = local_ptr(&ecx, 5);
    ecx.memory_mut().write_ptr(fat, array).unwrap();
    ecx.memory_mut().write_usize(fat.offset(8), 4).unwrap();
    let slice = project(local(3), ProjectionElem::Deref, SLICE);
    ecx.eval_rvalue_into_lvalue(&Rvalue::Ref(slice), &local(4)).unwrap();
    let copy = local_ptr(&ecx, 4);
    assert_eq!(ecx.memory().read_ptr(copy), Ok(array));
    assert_eq!(ecx.memory().read_usize(copy.offset(8)), Ok(4));
    assert_eq!(
        ecx.read_value(copy, REF_SLICE),
        Ok(Value::ByValPair(PrimVal::Ptr(array), PrimVal::U64(4)))
    );
}

#[test]
fn reference_through_a_downcast_is_refused() {
    let program = with_locals(vec![UNIT, GENERAL, REF_U32]);
    let mut ecx = enter(&program);
    let variant = project(local(1), ProjectionElem::Downcast(0), GENERAL);
    assert_eq!(
        ecx.eval_rvalue_into_lvalue(&Rvalue::Ref(variant), &local(2)),
        Err(EvalError::Malformed)
    );
}

#[test]
fn box_allocates_undefined_storage() {
    let program = with_locals(vec![UNIT, RAW_U32]);
    let mut ecx = enter(&program);
    let before = ecx.memory().allocation_count();
    assign(&mut ecx, 1, Rvalue::Box(U32)).unwrap();
    assert_eq!(ecx.memory().allocation_count(), before + 1);
    let boxed = ecx.memory().read_ptr(local_ptr(&ecx, 1)).unwrap();
    assert_eq!(boxed, Pointer { alloc_id: AllocId(before), offset: 0 });
    assert_eq!(ecx.memory().read_uint(boxed, 4), Err(EvalError::ReadUndefBytes));
}

#[test]
fn unsizing_an_array_reference() {
    let program = with_locals(vec![UNIT, ARRAY4, REF_ARRAY4, REF_SLICE]);
    let mut ecx = enter(&program);
    assign(&mut ecx, 2, Rvalue::Ref(local(1))).unwrap();
    assign(&mut ecx, 3, Rvalue::Cast(CastKind::Unsize, consume(2), REF_SLICE)).unwrap();
    let dest = local_ptr(&ecx, 3);
    assert_eq!(ecx.memory().read_ptr(dest), Ok(local_ptr(&ecx, 1)));
    assert_eq!(ecx.memory().read_usize(dest.offset(8)), Ok(4));
}

#[test]
fn unsizing_to_a_trait_object_attaches_the_dispatch_table() {
    let program = with_locals(vec![UNIT, U32, REF_U32, REF_TRAIT, REF_TRAIT, USIZE]);
    let mut ecx = enter_with(&program, Substs(7));
    assign(&mut ecx, 2, Rvalue::Ref(local(1))).unwrap();
    assign(&mut ecx, 3, Rvalue::Cast(CastKind::Unsize, consume(2), REF_TRAIT)).unwrap();
    let dest = local_ptr(&ecx, 3);
    assert_eq!(ecx.memory().read_ptr(dest), Ok(local_ptr(&ecx, 1)));
    let vtable = ecx.memory().read_ptr(dest.offset(8)).unwrap();
    assert!(ecx.memory().is_frozen(vtable.alloc_id));
    assert_eq!(ecx.memory().read_uint(vtable, 8), Err(EvalError::ReadUndefBytes));
    assert_eq!(ecx.memory().read_usize(vtable.offset(8)), Ok(4));
    assert_eq!(ecx.memory().read_usize(vtable.offset(16)), Ok(4));
    let first = ecx.memory().read_ptr(vtable.offset(24)).unwrap();
    assert_eq!(ecx.memory().get_fn(first.alloc_id).unwrap().def_id, CALLEE);
    assert_eq!(ecx.memory().read_uint(vtable.offset(32), 8), Err(EvalError::ReadUndefBytes));
    let third = ecx.memory().read_ptr(vtable.offset(40)).unwrap();
    assert_eq!(ecx.memory().get_fn(third.alloc_id).unwrap().def_id, MAIN);
    assert_eq!(
        ecx.read_value(dest, REF_TRAIT),
        Ok(Value::ByValPair(PrimVal::Ptr(local_ptr(&ecx, 1)), PrimVal::Ptr(vtable)))
    );

    assign(&mut ecx, 4, Rvalue::Cast(CastKind::Unsize, consume(3), REF_TRAIT)).unwrap();
    assert_eq!(ecx.memory().read_ptr(local_ptr(&ecx, 4).offset(8)), Ok(vtable));

    let size = ecx.size_and_align_of_dst(TRAIT_OBJECT, Value::ByRef(dest));
    assert_eq!(size, Ok((4, 4)));
    assert_eq!(ecx.get_vtable(U8, 7), Err(EvalError::Malformed));
}

#[test]
fn unsizing_between_unrelated_types_is_refused() {
    let program = with_locals(vec![UNIT, U32, REF_U32, REF_SLICE, U32]);
    let mut ecx = enter(&program);
    assign(&mut ecx, 2, Rvalue::Ref(local(1))).unwrap();
    assert_eq!(
        assign(&mut ecx, 3, Rvalue::Cast(CastKind::Unsize, consume(2), REF_SLICE)),
        Err(EvalError::Malformed)
    );
    assert_eq!(
        assign(&mut ecx, 4, Rvalue::Cast(CastKind::Unsize, consume(1), U32)),
        Err(EvalError::Malformed)
    );
}

#[test]
fn numeric_casts() {
    let program = with_locals(vec![UNIT, U8, I32, BOOL, CHAR, RAW_U32, I8]);
    let mut ecx = enter(&program);
    assign(&mut ecx, 1, Rvalue::Cast(CastKind::Misc, const_u32(0x1ff), U8)).unwrap();
    assert_eq!(ecx.memory().read_uint(local_ptr(&ecx, 1), 1), Ok(0xff));
    assign(&mut ecx, 6, Rvalue::Cast(CastKind::Misc, const_u32(0xff), I8)).unwrap();
    assert_eq!(ecx.memory().read_int(local_ptr(&ecx, 6), 1), Ok(-1));
    assign(&mut ecx, 2, Rvalue::Cast(CastKind::Misc, consume(6), I32)).unwrap();
    assert_eq!(ecx.memory().read_int(local_ptr(&ecx, 2), 4), Ok(-1));
    assign(&mut ecx, 2, Rvalue::Cast(CastKind::Misc, const_bool(true), I32)).unwrap();
    assert_eq!(ecx.memory().read_int(local_ptr(&ecx, 2), 4), Ok(1));
    assign(&mut ecx, 3, Rvalue::Cast(CastKind::Misc, const_u8(1), BOOL)).unwrap();
    assert_eq!(ecx.memory().read_bool(local_ptr(&ecx, 3)), Ok(true));
    assert_eq!(
        assign(&mut ecx, 3, Rvalue::Cast(CastKind::Misc, const_u8(2), BOOL)),
        Err(EvalError::InvalidBool)
    );
    assign(&mut ecx, 4, Rvalue::Cast(CastKind::Misc, const_u8(65), CHAR)).unwrap();
    assert_eq!(ecx.read_value(local_ptr(&ecx, 4), CHAR), Ok(Value::ByVal(PrimVal::Char('A'))));
    assert_eq!(
        assign(&mut ecx, 4, Rvalue::Cast(CastKind::Misc, const_u32(300), CHAR)),
        Err(EvalError::InvalidChar(300))
    );
    assign(&mut ecx, 5, Rvalue::Cast(CastKind::Misc, const_usize(64), RAW_U32)).unwrap();
    assert_eq!(ecx.memory().read_ptr(local_ptr(&ecx, 5)), Ok(Pointer::from_int(64)));
    assert_eq!(
        assign(&mut ecx, 2, Rvalue::Cast(CastKind::Misc, constant(ConstVal::Float(mir_interpreter::mir::ConstFloat::F32(0)), F32), I32)),
        Err(EvalError::UnsupportedFloat)
    );
    assert_eq!(ecx.cast_primval(PrimVal::U8(3), F64), Err(EvalError::UnsupportedFloat));
    assert_eq!(ecx.cast_primval(PrimVal::U8(3), UNIT), Err(EvalError::Malformed));
    assert_eq!(ecx.cast_primval(PrimVal::I8(-1), USIZE), Ok(PrimVal::U64(u64::MAX)));
}

#[test]
fn casting_a_fat_pointer_keeps_or_drops_the_second_word() {
    let program = with_locals(vec![UNIT, ARRAY4, REF_SLICE, REF_SLICE, RAW_U32]);
    let mut ecx = enter(&program);
    let fat = local_ptr(&ecx, 2);
    let array = local_ptr(&ecx, 1);
    ecx.memory_mut().write_ptr(fat, array).unwrap();
    ecx.memory_mut().write_usize(fat.offset(8), 4).unwrap();
    assign(&mut ecx, 3, Rvalue::Cast(CastKind::Misc, consume(2), REF_SLICE)).unwrap();
    assert_eq!(ecx.memory().read_ptr(local_ptr(&ecx, 3)), Ok(array));
    assert_eq!(ecx.memory().read_usize(local_ptr(&ecx, 3).offset(8)), Ok(4));
    assign(&mut ecx, 4, Rvalue::Cast(CastKind::Misc, consume(2), RAW_U32)).unwrap();
    assert_eq!(ecx.memory().read_ptr(local_ptr(&ecx, 4)), Ok(array));
}

#[test]
fn function_pointer_casts() {
    let program = with_locals(vec![UNIT, FN_PTR, FN_PTR]);
    let mut ecx = enter(&program);
    let item = Operand::Constant(Constant {
        span: SP,
        ty: FN_ITEM,
        literal: Literal::Item { def_id: CALLEE, substs: Substs(0) },
    });
    assign(&mut ecx, 1, Rvalue::Cast(CastKind::ReifyFnPointer, item, FN_PTR)).unwrap();
    let fn_ptr = ecx.memory().read_ptr(local_ptr(&ecx, 1)).unwrap();
    assert_eq!(
        ecx.memory().get_fn(fn_ptr.alloc_id),
        Ok(FunctionDefinition { def_id: CALLEE, substs: Substs(0), fn_ty: FnTy(1) })
    );
    assert_eq!(ecx.read_value(local_ptr(&ecx, 1), FN_PTR), Ok(Value::ByVal(PrimVal::FnPtr(fn_ptr))));
    assign(&mut ecx, 2, Rvalue::Cast(CastKind::UnsafeFnPointer, consume(1), FN_PTR)).unwrap();
    assert_eq!(ecx.memory().read_ptr(local_ptr(&ecx, 2)), Ok(fn_ptr));
    assert_eq!(
        assign(&mut ecx, 2, Rvalue::Cast(CastKind::ReifyFnPointer, const_u32(1), FN_PTR)),
        Err(EvalError::Malformed)
    );
}

#[test]
fn bare_place_is_an_address() {
    let bare = mir_interpreter::interpreter::Lvalue::from_ptr(Pointer::from_int(8));
    assert_eq!(bare.extra, LvalueExtra::Bare);
    assert_eq!(bare.to_ptr(), Ok(Pointer::from_int(8)));
    for extra in [
        LvalueExtra::Length(0),
        LvalueExtra::Vtable(Pointer::from_int(0)),
        LvalueExtra::DowncastVariant(0),
    ] {
        let place = mir_interpreter::interpreter::Lvalue { ptr: Pointer::from_int(8), extra };
        assert_eq!(place.to_ptr(), Err(EvalError::NotABareAddress));
    }
}

#[test]
fn consuming_a_place_with_extra_data_is_refused() {
    let program = with_locals(vec![UNIT, GENERAL, GENERAL]);
    let mut ecx = enter(&program);
    let variant = project(local(1), ProjectionElem::Downcast(0), GENERAL);
    assert_eq!(
        ecx.eval_rvalue_into_lvalue(&Rvalue::Use(Operand::Consume(variant)), &local(2)),
        Err(EvalError::NotABareAddress)
    );
}

#[test]
fn index_at_the_length_fails() {
    let base = mir_interpreter::interpreter::Lvalue::from_ptr(Pointer { alloc_id: AllocId(5), offset: 16 });
    assert_eq!(
        index_place(base, 4, 4, 4),
        Err(EvalError::IndexOutOfRange { index: 4, length: 4 })
    );
    assert_eq!(
        index_place(base, 4, 4, 3),
        Ok(mir_interpreter::interpreter::Lvalue::from_ptr(Pointer { alloc_id: AllocId(5), offset: 28 }))
    );
    assert_eq!(index_place(base, 0, 4, 0), Err(EvalError::IndexOutOfRange { index: 0, length: 0 }));
}

#[test]
fn index_projection_checks_the_bound() {
    let program = with_locals(vec![UNIT, ARRAY4, U32]);
    let mut ecx = enter(&program);
    assign(&mut ecx, 1, Rvalue::Repeat(const_u32(1), 4)).unwrap();
    let at = |i: u64| project(local(1), ProjectionElem::Index(const_usize(i)), U32);
    let array = local_ptr(&ecx, 1);
    assert_eq!(ecx.eval_lvalue(&at(3)).unwrap().to_ptr(), Ok(array.offset(12)));
    assert_eq!(ecx.eval_lvalue(&at(4)), Err(EvalError::IndexOutOfRange { index: 4, length: 4 }));
    ecx.eval_rvalue_into_lvalue(&Rvalue::Use(const_u32(9)), &at(2)).unwrap();
    assert_eq!(read_u32(&ecx, array.offset(8)), 9);
    let err = EvalError::IndexOutOfRange { index: 4, length: 4 };
    assert_eq!(err.class(), ErrorClass::InvalidProgramState);
}

#[test]
fn constant_index_and_subslice() {
    let base = mir_interpreter::interpreter::Lvalue::from_ptr(Pointer { alloc_id: AllocId(5), offset: 0 });
    let at = |offset: u64, extra: LvalueExtra| mir_interpreter::interpreter::Lvalue {
        ptr: Pointer { alloc_id: AllocId(5), offset },
        extra,
    };
    assert_eq!(constant_index_place(base, 4, 4, 1, 2, false), Ok(at(4, LvalueExtra::Bare)));
    assert_eq!(constant_index_place(base, 4, 4, 1, 2, true), Ok(at(12, LvalueExtra::Bare)));
    assert_eq!(
        constant_index_place(base, 1, 4, 1, 2, true),
        Err(EvalError::IndexOutOfRange { index: 2, length: 1 })
    );
    assert_eq!(subslice_place(base, 4, 4, 1, 1), Ok(at(4, LvalueExtra::Length(2))));
    assert_eq!(subslice_place(base, 4, 4, 2, 2), Ok(at(8, LvalueExtra::Length(0))));
    assert_eq!(
        subslice_place(base, 4, 4, 3, 2),
        Err(EvalError::IndexOutOfRange { index: 3, length: 4 })
    );
}

#[test]
fn field_and_downcast_projections() {
    let program = with_locals(vec![UNIT, RECORD, GENERAL, OPTION_REF, OPTION_PAIR]);
    let mut ecx = enter(&program);
    let record = local_ptr(&ecx, 1);
    let field = |base: Lvalue, i: usize, ty: Ty| project(base, ProjectionElem::Field(i, ty), ty);
    assert_eq!(ecx.eval_lvalue(&field(local(1), 1, U8)).unwrap().to_ptr(), Ok(record.offset(4)));
    assert_eq!(ecx.eval_lvalue(&field(local(1), 2, U8)), Err(EvalError::Malformed));

    let general = local_ptr(&ecx, 2);
    assert_eq!(ecx.eval_lvalue(&field(local(2), 0, U32)), Err(EvalError::Malformed));
    let seen = project(local(2), ProjectionElem::Downcast(1), GENERAL);
    let place = ecx.eval_lvalue(&seen).unwrap();
    assert_eq!(place.extra, LvalueExtra::DowncastVariant(1));
    assert_eq!(place.ptr, general);
    let second = field(project(local(2), ProjectionElem::Downcast(1), GENERAL), 1, U8);
    assert_eq!(ecx.eval_lvalue(&second).unwrap().to_ptr(), Ok(general.offset(5)));

    let option = local_ptr(&ecx, 3);
    let payload = field(project(local(3), ProjectionElem::Downcast(1), OPTION_REF), 0, REF_U32);
    assert_eq!(ecx.eval_lvalue(&payload).unwrap().to_ptr(), Ok(option));
    let wrapped = field(project(local(4), ProjectionElem::Downcast(1), OPTION_PAIR), 0, PAIR_U32_REF);
    assert_eq!(ecx.eval_lvalue(&wrapped).unwrap().to_ptr(), Ok(local_ptr(&ecx, 4)));
    assert_eq!(
        ecx.eval_lvalue(&project(local(1), ProjectionElem::Downcast(0), RECORD)),
        Err(EvalError::Malformed)
    );
}

#[test]
fn deref_of_thin_and_fat_pointers() {
    let program = with_locals(vec![UNIT, U32, REF_U32, U32, REF_TRAIT]);
    let mut ecx = enter(&program);
    assign(&mut ecx, 1, Rvalue::Use(const_u32(66))).unwrap();
    assign(&mut ecx, 2, Rvalue::Ref(local(1))).unwrap();
    let through = project(local(2), ProjectionElem::Deref, U32);
    assign(&mut ecx, 3, Rvalue::Use(Operand::Consume(through))).unwrap();
    assert_eq!(read_u32(&ecx, local_ptr(&ecx, 3)), 66);
    assert_eq!(
        ecx.eval_lvalue(&project(local(1), ProjectionElem::Deref, U32)),
        Err(EvalError::Malformed)
    );

    let fat = local_ptr(&ecx, 4);
    let target = local_ptr(&ecx, 1);
    let table = local_ptr(&ecx, 3);
    ecx.memory_mut().write_ptr(fat, target).unwrap();
    ecx.memory_mut().write_ptr(fat.offset(8), table).unwrap();
    let object = ecx.eval_lvalue(&project(local(4), ProjectionElem::Deref, TRAIT_OBJECT)).unwrap();
    assert_eq!(object.ptr, target);
    assert_eq!(object.extra, LvalueExtra::Vtable(table));
}

#[test]
fn statics_must_have_been_recorded() {
    let program = with_locals(vec![UNIT, U32]);
    let mut ecx = enter(&program);
    let item = DefId { krate: 0, index: 70 };
    let place = Lvalue::Static(item, U32);
    assert_eq!(ecx.eval_lvalue(&place), Err(EvalError::MissingStatic));
    let storage = ecx.alloc_ptr(U32, Substs(0)).unwrap();
    ecx.memory_mut().write_uint(storage, 8, 4).unwrap();
    ecx.statics.push(StaticEntry {
        id: ConstantId { def_id: item, substs: Substs::empty(), kind: ConstantKind::Global },
        ptr: storage,
    });
    ecx.statics.push(StaticEntry {
        id: ConstantId { def_id: MAIN, substs: Substs(0), kind: ConstantKind::Promoted(2) },
        ptr: storage.offset(0),
    });
    assert_eq!(ecx.eval_lvalue(&place).unwrap().to_ptr(), Ok(storage));
    let promoted = Operand::Constant(Constant { span: SP, ty: U32, literal: Literal::Promoted { index: 2 } });
    assert_eq!(ecx.eval_operand(&promoted), Ok(Value::ByRef(storage)));
    let missing = Operand::Constant(Constant { span: SP, ty: U32, literal: Literal::Promoted { index: 3 } });
    assert_eq!(ecx.eval_operand(&missing), Err(EvalError::MissingStatic));
    let global = Operand::Constant(Constant {
        span: SP,
        ty: U32,
        literal: Literal::Item { def_id: item, substs: Substs(0) },
    });
    assert_eq!(ecx.eval_operand_to_primval(&global), Ok(PrimVal::U32(8)));
}

#[test]
fn constants_become_values() {
    let program = with_locals(vec![UNIT]);
    let mut ecx = enter(&program);
    assert_eq!(
        ecx.const_to_value(&ConstVal::Integral(ConstInt::Isize(mir_interpreter::mir::ConstIsize::Is32(-4)))),
        Ok(Value::ByVal(PrimVal::I32(-4)))
    );
    assert_eq!(ecx.const_to_value(&ConstVal::Char('x')), Ok(Value::ByVal(PrimVal::Char('x'))));
    assert_eq!(ecx.const_to_value(&ConstVal::Tuple), Err(EvalError::UnsupportedConstant));
    assert_eq!(ecx.const_to_value(&ConstVal::Integral(ConstInt::Infer(3))), Err(EvalError::Malformed));
    let text = ecx.const_to_value(&ConstVal::Str("h\u{e9}".to_string())).unwrap();
    match text {
        Value::ByValPair(PrimVal::Ptr(p), PrimVal::U64(3)) => {
            assert_eq!(ecx.memory().read_bytes(p, 3), Ok(vec![b'h', 0xc3, 0xa9]));
            assert!(ecx.memory().is_frozen(p.alloc_id));
            assert_eq!(ecx.memory_mut().write_uint(p, 0, 1), Err(EvalError::ModifiedConstantMemory));
        }
        other => panic!("{:?}", other),
    }
    let bytes = ecx.const_to_value(&ConstVal::ByteStr(vec![1, 2])).unwrap();
    match bytes {
        Value::ByVal(PrimVal::Ptr(p)) => assert_eq!(ecx.memory().read_bytes(p, 2), Ok(vec![1, 2])),
        other => panic!("{:?}", other),
    }
    assert_eq!(ecx.isize_primval(-1), PrimVal::I64(-1));
    assert_eq!(ecx.usize_primval(7), PrimVal::U64(7));
}

#[test]
fn write_then_read_returns_the_value() {
    let program = with_locals(vec![UNIT, U32_BOOL, REF_SLICE]);
    let mut ecx = enter(&program);
    let at = local_ptr(&ecx, 2);
    let target = local_ptr(&ecx, 1);
    let cases = vec![
        (Value::ByVal(PrimVal::Bool(true)), BOOL),
        (Value::ByVal(PrimVal::Char('\u{10ffff}')), CHAR),
        (Value::ByVal(PrimVal::I32(-7)), I32),
        (Value::ByVal(PrimVal::I8(-128)), I8),
        (Value::ByVal(PrimVal::I64(i64::MIN)), ISIZE),
        (Value::ByVal(PrimVal::U64(u64::MAX)), USIZE),
        (Value::ByVal(PrimVal::U32(0xdead_beef)), U32),
        (Value::ByVal(PrimVal::F32(0x7fc0_0001)), F32),
        (Value::ByVal(PrimVal::F64(0x8000_0000_0000_0000)), F64),
        (Value::ByVal(PrimVal::Ptr(target.offset(4))), REF_U32),
        (Value::ByVal(PrimVal::Ptr(Pointer::from_int(0))), RAW_U32),
        (Value::ByVal(PrimVal::FnPtr(target)), FN_PTR),
        (Value::ByValPair(PrimVal::Ptr(target), PrimVal::U64(2)), REF_SLICE),
        (Value::ByValPair(PrimVal::Ptr(target), PrimVal::U64(0)), REF_STR),
        (Value::ByValPair(PrimVal::Ptr(target), PrimVal::Ptr(at)), REF_TRAIT),
        (Value::ByValPair(PrimVal::Ptr(target), PrimVal::U64(5)), REF_TAILED),
    ];
    for (value, ty) in cases {
        ecx.write_value_to_ptr(value, at, ty).unwrap();
        assert_eq!(ecx.read_value(at, ty), Ok(value));
        assert_eq!(ecx.read_value(at, ty), Ok(value));
    }
}

#[test]
fn a_pair_needs_a_fat_pointer_type() {
    let program = with_locals(vec![UNIT, U32_BOOL]);
    let mut ecx = enter(&program);
    let at = local_ptr(&ecx, 1);
    let pair = Value::ByValPair(PrimVal::U32(1), PrimVal::Bool(true));
    assert_eq!(ecx.write_value_to_ptr(pair, at, U32_BOOL), Err(EvalError::Malformed));
    assert_eq!(ecx.value_to_primval(pair, U32_BOOL), Err(EvalError::Malformed));
    assert_eq!(ecx.read_value(at, U32_BOOL), Err(EvalError::Malformed));
    assert_eq!(ecx.read_value(at, Ty(999)), Err(EvalError::Malformed));
}

#[test]
fn invalid_character_is_refused() {
    let program = with_locals(vec![UNIT, CHAR]);
    let mut ecx = enter(&program);
    let at = local_ptr(&ecx, 1);
    ecx.memory_mut().write_uint(at, 0xd800, 4).unwrap();
    assert_eq!(ecx.read_value(at, CHAR), Err(EvalError::InvalidChar(0xd800)));
    ecx.memory_mut().write_uint(at, 0x11_0000, 4).unwrap();
    assert_eq!(ecx.read_value(at, CHAR), Err(EvalError::InvalidChar(0x11_0000)));
    ecx.memory_mut().write_uint(at, 0xe000, 4).unwrap();
    assert_eq!(ecx.read_value(at, CHAR), Ok(Value::ByVal(PrimVal::Char('\u{e000}'))));
}

#[test]
fn value_to_ptr_stores_values_that_are_not_in_memory() {
    let program = with_locals(vec![UNIT, U32]);
    let mut ecx = enter(&program);
    let here = local_ptr(&ecx, 1);
    assert_eq!(ecx.value_to_ptr(Value::ByRef(here), U32), Ok(here));
    let stored = ecx.value_to_ptr(Value::ByVal(PrimVal::U32(3)), U32).unwrap();
    assert!(stored != here);
    assert_eq!(read_u32(&ecx, stored), 3);
    let pair = Value::ByValPair(PrimVal::Ptr(here), PrimVal::U64(2));
    let stored = ecx.value_to_ptr(pair, REF_SLICE).unwrap();
    assert_eq!(ecx.read_value(stored, REF_SLICE), Ok(pair));
    assert_eq!(pair.read_ptr(ecx.memory()), Ok(here));
    assert_eq!(pair.expect_slice_len(ecx.memory()), Ok(2));
    assert_eq!(pair.expect_vtable(ecx.memory()), Err(EvalError::Malformed));
    assert_eq!(Value::ByRef(stored).expect_slice_len(ecx.memory()), Ok(2));
    assert_eq!(Value::ByRef(stored).read_ptr(ecx.memory()), Ok(here));
}

#[test]
fn types_are_instantiated_under_the_generic_arguments() {
    let program = with_locals(vec![UNIT, PARAM]);
    let ecx = enter_with(&program, Substs(1));
    assert_eq!(ecx.monomorphize(PARAM, Substs(1)), U32);
    assert_eq!(ecx.monomorphize(PARAM, Substs(2)), PARAM);
    assert_eq!(ecx.monomorphize_field_ty(U8, Substs(1)), U8);
    assert_eq!(ecx.lvalue_ty(&local(1)), Ok(U32));
    assert_eq!(ecx.type_size(PARAM), Ok(4));
    assert_eq!(ecx.type_align_with_substs(PARAM, Substs(0)), Ok(1));
    assert_eq!(ecx.type_size(Ty(400)), Err(EvalError::Malformed));
    assert!(ecx.type_is_fat_ptr(REF_SLICE));
    assert!(!ecx.type_is_fat_ptr(REF_U32));
    assert!(!ecx.type_is_sized(SLICE));
    assert_eq!(ecx.substs(), Substs(1));
    assert_eq!(ecx.stack().len(), 1);
    assert_eq!(program.types.struct_tail(TAILED), SLICE);
    assert_eq!(program.types.struct_tail(RECORD), U8);
    assert_eq!(program.types.lockstep_tails(RECORD, RECORD), (U8, U8));
    assert_eq!(program.types.type_at(Substs(2), 0), Ok(U8));
    assert_eq!(program.types.type_at(Substs(2), 1), Err(EvalError::Malformed));
    assert_eq!(Integer::I1.size(), 1);
    assert_eq!(Integer::I16.size(), 2);
    assert_eq!(Integer::I64.size(), 8);
}

#[test]
fn field_types_and_offsets() {
    let program = with_locals(vec![UNIT]);
    let ecx = enter(&program);
    assert_eq!(ecx.get_field_ty(RECORD, 1), Ok(U8));
    assert_eq!(ecx.get_field_ty(U32_BOOL, 0), Ok(U32));
    assert_eq!(ecx.get_field_ty(REF_U32, 0), Ok(U32));
    assert_eq!(ecx.get_field_ty(REF_U32, 1), Err(EvalError::Malformed));
    assert_eq!(ecx.get_field_ty(U32, 0), Err(EvalError::UnsupportedType));
    assert_eq!(ecx.get_field_offset(RECORD, 1), Ok(4));
    assert_eq!(ecx.get_field_offset(REF_SLICE, 0), Ok(0));
    assert_eq!(ecx.get_field_offset(U32, 0), Err(EvalError::UnsupportedType));
    assert_eq!(ecx.field_path_offset(PAIR_U32_REF, &vec![1], 0), Ok(8));
    assert_eq!(ecx.field_path_offset(PAIR_U32_REF, &vec![9, 1], 1), Ok(8));
    assert_eq!(ecx.field_path_offset(RECORD, &vec![1], 0), Ok(4));
    assert_eq!(ecx.field_path_offset(PAIR_U32_REF, &vec![1, 0], 0), Err(EvalError::UnsupportedType));
    assert_eq!(ecx.field_path_offset(PAIR_U32_REF, &vec![2], 0), Err(EvalError::Malformed));
    assert_eq!(ecx.field_path_offset(PAIR_U32_REF, &vec![], 0), Ok(0));
    assert_eq!(ecx.nonnull_offset(OPTION_PAIR, 1, &vec![0]), Err(EvalError::Malformed));
    let listed = FieldOffsets::Listed { offsets: &vec![0, 4, 8], skip: 1 };
    assert_eq!(listed.count(5), 2);
    assert_eq!(listed.count(1), 1);
    assert_eq!(listed.field_dest(Pointer::from_int(100), 1), Pointer::from_int(108));
    let strided = FieldOffsets::Strided { elem_size: 3 };
    assert_eq!(strided.count(5), 5);
    assert_eq!(strided.field_dest(Pointer::from_int(100), 2), Pointer::from_int(106));
}

#[test]
fn size_and_alignment_of_unsized_values() {
    let program = with_locals(vec![UNIT, ARRAY4]);
    let ecx = enter(&program);
    let data = local_ptr(&ecx, 1);
    let slice = Value::ByValPair(PrimVal::Ptr(data), PrimVal::U64(3));
    assert_eq!(ecx.size_and_align_of_dst(U32, slice), Ok((4, 4)));
    assert_eq!(ecx.size_and_align_of_dst(SLICE, slice), Ok((12, 4)));
    assert_eq!(ecx.size_and_align_of_dst(STR, slice), Ok((3, 1)));
    assert_eq!(ecx.size_and_align_of_dst(TAILED, slice), Ok((16, 4)));
    assert_eq!(ecx.size_and_align_of_dst(TAILED_BYTES, slice), Ok((8, 4)));
    let one = Value::ByValPair(PrimVal::Ptr(data), PrimVal::U64(1));
    assert_eq!(ecx.size_and_align_of_dst(TAILED_BYTES, one), Ok((8, 4)));
    let none = Value::ByValPair(PrimVal::Ptr(data), PrimVal::U64(0));
    assert_eq!(ecx.size_and_align_of_dst(TAILED_BYTES, none), Ok((4, 4)));
    let five = Value::ByValPair(PrimVal::Ptr(data), PrimVal::U64(5));
    assert_eq!(ecx.size_and_align_of_dst(TAILED_BYTES, five), Ok((12, 4)));
    let huge = Value::ByValPair(PrimVal::Ptr(data), PrimVal::U64(u64::MAX));
    assert_eq!(ecx.size_and_align_of_dst(SLICE, huge), Err(EvalError::Malformed));
    assert_eq!(ecx.size_and_align_of_dst(TRAIT_OBJECT, slice), Err(EvalError::Malformed));
    assert_eq!(ecx.field_ty(Substs(1), PARAM), U32);
}

#[test]
fn call_and_return_keep_the_depth() {
    let program = with_locals(vec![U32, U32, U8]);
    let mut ecx = enter(&program);
    let mir = &program.mir_map[0].mir;
    let before = ecx.stack().len();
    let allocations = ecx.memory().allocation_count();
    let result = local_ptr(&ecx, 1);
    ecx.push_stack_frame(
        CALLEE,
        SP,
        CachedMir::Ref(mir),
        Substs(0),
        mir_interpreter::interpreter::Lvalue::from_ptr(result),
        StackPopCleanup::Goto(BasicBlock(3)),
    )
    .unwrap();
    assert_eq!(ecx.stack().len(), before + 1);
    assert_eq!(ecx.memory().allocation_count(), allocations + 2);
    assert_eq!(ecx.frame().locals[0], Value::ByRef(result));
    assert_eq!(ecx.frame().locals.len(), 3);
    assert_eq!(ecx.frame().block, BasicBlock::start());
    ecx.frame_mut().stmt = 7;
    assert_eq!(ecx.frame().stmt, 7);
    ecx.pop_stack_frame().unwrap();
    assert_eq!(ecx.stack().len(), before);
    assert_eq!(ecx.frame().block, BasicBlock(3));
    assert_eq!(ecx.frame().stmt, 0);
}

#[test]
fn popping_a_constant_frame_freezes_its_allocation() {
    let program = with_locals(vec![U32]);
    let mut ecx = enter(&program);
    let mir = &program.mir_map[0].mir;
    let storage = ecx.alloc_ptr(U32, Substs(0)).unwrap();
    ecx.push_stack_frame(
        CALLEE,
        SP,
        CachedMir::Ref(mir),
        Substs(0),
        mir_interpreter::interpreter::Lvalue::from_ptr(storage),
        StackPopCleanup::Freeze(storage.alloc_id),
    )
    .unwrap();
    ecx.eval_rvalue_into_lvalue(&Rvalue::Use(const_u32(3)), &local(0)).unwrap();
    ecx.pop_stack_frame().unwrap();
    assert!(ecx.memory().is_frozen(storage.alloc_id));
    assert_eq!(ecx.memory_mut().write_uint(storage, 4, 4), Err(EvalError::ModifiedConstantMemory));
    assert_eq!(read_u32(&ecx, storage), 3);
}

#[test]
fn a_frame_needs_a_bare_return_place() {
    let program = with_locals(vec![U32]);
    let mut ecx = enter(&program);
    let mir = &program.mir_map[0].mir;
    let place = mir_interpreter::interpreter::Lvalue { ptr: Pointer::from_int(0), extra: LvalueExtra::Length(1) };
    assert_eq!(
        ecx.push_stack_frame(CALLEE, SP, CachedMir::Ref(mir), Substs(0), place, StackPopCleanup::Nothing),
        Err(EvalError::NotABareAddress)
    );
    assert_eq!(ecx.stack().len(), 1);
}

#[test]
fn a_frame_whose_locals_do_not_fit_is_not_pushed() {
    let program = with_locals(vec![U32, ARRAY4, ARRAY4]);
    let mut ecx = EvalContext::new(&program, 20, 8);
    let mir = &program.mir_map[0].mir;
    let place = mir_interpreter::interpreter::Lvalue::from_ptr(Pointer::from_int(0));
    assert_eq!(
        ecx.push_stack_frame(MAIN, SP, CachedMir::Ref(mir), Substs(0), place, StackPopCleanup::Nothing),
        Err(EvalError::OutOfMemory { allocation_size: 16, memory_size: 20, memory_usage: 16 })
    );
    assert_eq!(ecx.stack().len(), 0);
}

#[test]
fn the_frame_past_the_limit_is_still_pushed() {
    let program = with_locals(vec![UNIT]);
    let mut ecx = EvalContext::new(&program, 4096, 2);
    let mir = &program.mir_map[0].mir;
    let place = mir_interpreter::interpreter::Lvalue::from_ptr(Pointer::zst_ptr());
    let root = StackPopCleanup::Nothing;
    assert_eq!(ecx.push_stack_frame(MAIN, SP, CachedMir::Ref(mir), Substs(0), place, root), Ok(()));
    assert_eq!(ecx.push_stack_frame(MAIN, SP, CachedMir::Ref(mir), Substs(0), place, root), Ok(()));
    assert_eq!(
        ecx.push_stack_frame(MAIN, SP, CachedMir::Ref(mir), Substs(0), place, root),
        Err(EvalError::StackFrameLimitReached)
    );
    assert_eq!(ecx.stack().len(), 3);
    assert_eq!(EvalError::StackFrameLimitReached.class(), ErrorClass::ResourceExhausted);
}

#[test]
fn bodies_are_loaded_and_cached() {
    let program = with_locals(vec![UNIT]);
    let mut ecx = EvalContext::new(&program, 64, 8);
    match ecx.load_mir(MAIN) {
        Ok(CachedMir::Ref(m)) => assert_eq!(m.local_decls.len(), 1),
        other => panic!("{:?}", other),
    }
    assert_eq!(ecx.mir_cache.len(), 0);
    let foreign = DefId { krate: 7, index: 1 };
    assert!(matches!(ecx.load_mir(foreign), Ok(CachedMir::Owned(_))));
    assert_eq!(ecx.mir_cache.len(), 1);
    assert!(matches!(ecx.load_mir(foreign), Ok(CachedMir::Owned(_))));
    assert_eq!(ecx.mir_cache.len(), 1);
    let unknown = DefId { krate: 7, index: 2 };
    assert!(matches!(ecx.load_mir(unknown), Err(EvalError::NoMirFor(d)) if d == unknown));
    let missing = DefId { krate: 0, index: 999 };
    assert!(matches!(ecx.load_mir(missing), Err(EvalError::NoMirFor(d)) if d == missing));
    assert!(MAIN.is_local());
    assert!(!foreign.is_local());
}

fn call_intrinsic(
    ecx: &mut EvalContext,
    name: &str,
    substs: Substs,
    args: Vec<Operand>,
    dest: usize,
    dest_ty: Ty,
) -> Result<(), EvalError> {
    let place = ecx.eval_lvalue(&local(dest)).unwrap();
    let layout = ecx.type_layout(dest_ty).unwrap();
    ecx.call_intrinsic(intrinsic(name), substs, &args, place, dest_ty, layout)
}

#[test]
fn intrinsic_names_are_a_fixed_table() {
    assert_eq!(intrinsic_of(&"ctpop".to_string()), Some(Intrinsic::Ctpop));
    assert_eq!(intrinsic_of(&"copy_nonoverlapping".to_string()), Some(Intrinsic::CopyNonoverlapping));
    assert_eq!(intrinsic_of(&"volatile_store".to_string()), Some(Intrinsic::VolatileStore));
    assert_eq!(intrinsic_of(&"Ctpop".to_string()), None);
    assert_eq!(intrinsic_of(&"".to_string()), None);
}

#[test]
fn unknown_intrinsic_is_named_in_the_error() {
    let program = with_locals(vec![UNIT, U32]);
    let mut ecx = enter(&program);
    let err = call_intrinsic(&mut ecx, "frobnicate", Substs(1), vec![], 1, U32).unwrap_err();
    assert_eq!(err, EvalError::UnimplementedIntrinsic(intrinsic("frobnicate")));
    assert_eq!(err.class(), ErrorClass::UnsupportedOperation);
    let err = call_intrinsic(&mut ecx, "breakpoint", Substs(1), vec![], 1, U32).unwrap_err();
    assert_eq!(err, EvalError::UnimplementedIntrinsic(intrinsic("breakpoint")));
    let place = ecx.eval_lvalue(&local(1)).unwrap();
    assert_eq!(
        ecx.call_intrinsic(MAIN, Substs(1), &vec![], place, U32, &Layout::Scalar),
        Err(EvalError::Malformed)
    );
}

#[test]
fn size_and_alignment_queries() {
    let program = with_locals(vec![UNIT, USIZE, ARRAY4, REF_SLICE, BOOL, REF_STR]);
    let mut ecx = enter(&program);
    let out = local_ptr(&ecx, 1);
    call_intrinsic(&mut ecx, "size_of", Substs(1), vec![], 1, USIZE).unwrap();
    assert_eq!(ecx.memory().read_usize(out), Ok(4));
    call_intrinsic(&mut ecx, "min_align_of", Substs(2), vec![], 1, USIZE).unwrap();
    assert_eq!(ecx.memory().read_usize(out), Ok(1));
    call_intrinsic(&mut ecx, "pref_align_of", Substs(1), vec![], 1, USIZE).unwrap();
    assert_eq!(ecx.memory().read_usize(out), Ok(8));
    call_intrinsic(&mut ecx, "type_id", Substs(1), vec![], 1, USIZE).unwrap();
    assert_eq!(ecx.memory().read_uint(out, 8), Ok(4004));
    call_intrinsic(&mut ecx, "needs_drop", Substs(1), vec![], 4, BOOL).unwrap();
    assert_eq!(ecx.memory().read_bool(local_ptr(&ecx, 4)), Ok(false));

    let fat = local_ptr(&ecx, 3);
    let array = local_ptr(&ecx, 2);
    ecx.memory_mut().write_ptr(fat, array).unwrap();
    ecx.memory_mut().write_usize(fat.offset(8), 3).unwrap();
    call_intrinsic(&mut ecx, "size_of_val", Substs(4), vec![consume(3)], 1, USIZE).unwrap();
    assert_eq!(ecx.memory().read_usize(out), Ok(12));
    call_intrinsic(&mut ecx, "size_of_val", Substs(6), vec![consume(3)], 1, USIZE).unwrap();
    assert_eq!(ecx.memory().read_usize(out), Ok(16));

    call_intrinsic(&mut ecx, "type_name", Substs(8), vec![], 5, REF_STR).unwrap();
    let name = ecx.memory().read_ptr(local_ptr(&ecx, 5)).unwrap();
    assert_eq!(ecx.memory().read_usize(local_ptr(&ecx, 5).offset(8)), Ok(5));
    assert_eq!(ecx.memory().read_bytes(name, 5), Ok(b"Level".to_vec()));
    assert_eq!(
        call_intrinsic(&mut ecx, "size_of", Substs(99), vec![], 1, USIZE),
        Err(EvalError::Malformed)
    );
}

#[test]
fn pointer_arithmetic_intrinsics() {
    let program = with_locals(vec![UNIT, ARRAY4, REF_U32, REF_U32]);
    let mut ecx = enter(&program);
    let array = local_ptr(&ecx, 1);
    assign(&mut ecx, 2, Rvalue::Ref(local(1))).unwrap();
    call_intrinsic(&mut ecx, "offset", Substs(1), vec![consume(2), const_isize(3)], 3, REF_U32).unwrap();
    assert_eq!(ecx.memory().read_ptr(local_ptr(&ecx, 3)), Ok(array.offset(12)));
    call_intrinsic(&mut ecx, "offset", Substs(1), vec![consume(3), const_isize(-2)], 3, REF_U32).unwrap();
    assert_eq!(ecx.memory().read_ptr(local_ptr(&ecx, 3)), Ok(array.offset(4)));
    call_intrinsic(&mut ecx, "arith_offset", Substs(1), vec![consume(2), const_isize(3)], 3, REF_U32).unwrap();
    assert_eq!(ecx.memory().read_ptr(local_ptr(&ecx, 3)), Ok(array.offset(3)));
    assert_eq!(
        call_intrinsic(&mut ecx, "offset", Substs(1), vec![consume(2)], 3, REF_U32),
        Err(EvalError::Malformed)
    );
    assert_eq!(
        call_intrinsic(&mut ecx, "offset", Substs(1), vec![consume(2), const_usize(1)], 3, REF_U32),
        Err(EvalError::Malformed)
    );
}

#[test]
fn bit_intrinsics() {
    let program = with_locals(vec![UNIT, U32]);
    let mut ecx = enter(&program);
    let out = local_ptr(&ecx, 1);
    call_intrinsic(&mut ecx, "ctpop", Substs(1), vec![const_u32(0xf0f0)], 1, U32).unwrap();
    assert_eq!(read_u32(&ecx, out), 8);
    call_intrinsic(&mut ecx, "bswap", Substs(1), vec![const_u32(0x0102_0304)], 1, U32).unwrap();
    assert_eq!(read_u32(&ecx, out), 0x0403_0201);
}

#[test]
fn arithmetic_intrinsics() {
    let program = with_locals(vec![UNIT, U32_BOOL, U8]);
    let mut ecx = enter(&program);
    let args = vec![const_u32(u32::MAX), const_u32(2)];
    call_intrinsic(&mut ecx, "add_with_overflow", Substs(1), args, 1, U32_BOOL).unwrap();
    let out = local_ptr(&ecx, 1);
    assert_eq!(read_u32(&ecx, out), 1);
    assert_eq!(ecx.memory().read_bool(out.offset(4)), Ok(true));
    call_intrinsic(&mut ecx, "overflowing_sub", Substs(2), vec![const_u8(1), const_u8(3)], 2, U8).unwrap();
    assert_eq!(ecx.memory().read_uint(local_ptr(&ecx, 2), 1), Ok(254));
    assert_eq!(
        call_intrinsic(&mut ecx, "add_with_overflow", Substs(1), vec![const_u32(1)], 1, U32_BOOL),
        Err(EvalError::Malformed)
    );
}

#[test]
fn memory_intrinsics() {
    let program = with_locals(vec![UNIT, ARRAY4, ARRAY4, REF_U32, REF_U32, U32, UNIT]);
    let mut ecx = enter(&program);
    let src = local_ptr(&ecx, 1);
    let dst = local_ptr(&ecx, 2);
    assign(&mut ecx, 1, Rvalue::Aggregate(AggregateKind::Vec, vec![const_u32(1), const_u32(2), const_u32(3)])).unwrap();
    assign(&mut ecx, 3, Rvalue::Ref(local(1))).unwrap();
    assign(&mut ecx, 4, Rvalue::Ref(local(2))).unwrap();
    call_intrinsic(&mut ecx, "copy", Substs(1), vec![consume(3), consume(4), const_usize(3)], 6, UNIT).unwrap();
    assert_eq!(read_u32(&ecx, dst.offset(8)), 3);
    assert_eq!(ecx.memory().read_uint(dst.offset(12), 4), Err(EvalError::ReadUndefBytes));
    assert_eq!(
        call_intrinsic(&mut ecx, "copy", Substs(1), vec![consume(3), consume(4), const_usize(u64::MAX)], 6, UNIT),
        Err(EvalError::Malformed)
    );

    call_intrinsic(&mut ecx, "init", Substs(1), vec![], 2, ARRAY4).unwrap();
    assert_eq!(ecx.memory().read_bytes(dst, 16), Ok(vec![0; 16]));
    call_intrinsic(&mut ecx, "uninit", Substs(1), vec![], 2, ARRAY4).unwrap();
    assert_eq!(ecx.memory().read_uint(dst, 4), Err(EvalError::ReadUndefBytes));

    call_intrinsic(&mut ecx, "transmute", Substs(1), vec![const_u32(0x55)], 5, U32).unwrap();
    assert_eq!(read_u32(&ecx, local_ptr(&ecx, 5)), 0x55);
    call_intrinsic(&mut ecx, "volatile_store", Substs(1), vec![consume(4), const_u32(44)], 6, UNIT).unwrap();
    assert_eq!(read_u32(&ecx, dst), 44);
    call_intrinsic(&mut ecx, "move_val_init", Substs(1), vec![consume(4), const_u32(45)], 6, UNIT).unwrap();
    assert_eq!(read_u32(&ecx, dst), 45);
    call_intrinsic(&mut ecx, "volatile_load", Substs(1), vec![consume(3)], 5, U32).unwrap();
    assert_eq!(read_u32(&ecx, local_ptr(&ecx, 5)), 1);
    assert_eq!(src, local_ptr(&ecx, 1));
}

#[test]
fn assume_likely_and_float_intrinsics() {
    let program = with_locals(vec![UNIT, F32, BOOL]);
    let mut ecx = enter(&program);
    assert_eq!(call_intrinsic(&mut ecx, "assume", Substs(1), vec![const_bool(true)], 0, UNIT), Ok(()));
    assert_eq!(
        call_intrinsic(&mut ecx, "assume", Substs(1), vec![const_bool(false)], 0, UNIT),
        Err(EvalError::AssumptionNotHeld)
    );
    assert_eq!(call_intrinsic(&mut ecx, "likely", Substs(1), vec![const_bool(false)], 2, BOOL), Ok(()));
    assert_eq!(ecx.memory().read_bool(local_ptr(&ecx, 2)), Err(EvalError::ReadUndefBytes));
    let minus = constant(ConstVal::Float(mir_interpreter::mir::ConstFloat::F32((-2.5f32).to_bits())), F32);
    call_intrinsic(&mut ecx, "fabsf32", Substs(1), vec![minus], 1, F32).unwrap();
    assert_eq!(ecx.memory().read_uint(local_ptr(&ecx, 1), 4), Ok(2.5f32.to_bits() as u64));
    let four = constant(ConstVal::Float(mir_interpreter::mir::ConstFloat::F32(4.0f32.to_bits())), F32);
    assert_eq!(
        call_intrinsic(&mut ecx, "sqrtf32", Substs(1), vec![four], 1, F32),
        Err(EvalError::UnsupportedFloat)
    );
}

#[test]
fn discriminant_value_intrinsic() {
    let program = with_locals(vec![UNIT, OPTION_REF, REF_U32, U32, USIZE, REF_U32]);
    let mut ecx = enter(&program);
    assign(&mut ecx, 3, Rvalue::Use(const_u32(1))).unwrap();
    assign(&mut ecx, 5, Rvalue::Ref(local(3))).unwrap();
    assign(&mut ecx, 1, Rvalue::Aggregate(AggregateKind::Adt(OPTION_REF, 1), vec![consume(5)])).unwrap();
    assign(&mut ecx, 2, Rvalue::Ref(local(1))).unwrap();
    call_intrinsic(&mut ecx, "discriminant_value", Substs(5), vec![consume(2)], 4, USIZE).unwrap();
    assert_eq!(ecx.memory().read_uint(local_ptr(&ecx, 4), 8), Ok(1));
    assign(&mut ecx, 1, Rvalue::Aggregate(AggregateKind::Adt(OPTION_REF, 0), vec![])).unwrap();
    call_intrinsic(&mut ecx, "discriminant_value", Substs(5), vec![consume(2)], 4, USIZE).unwrap();
    assert_eq!(ecx.memory().read_uint(local_ptr(&ecx, 4), 8), Ok(0));
    call_intrinsic(&mut ecx, "discriminant_value", Substs(1), vec![consume(5)], 4, USIZE).unwrap();
    assert_eq!(ecx.memory().read_uint(local_ptr(&ecx, 4), 8), Ok(0));
}

fn stmt(kind: StatementKind) -> Statement {
    Statement { span: Span { lo: 10, hi: 11 }, kind }
}

fn term(kind: TerminatorKind) -> Terminator {
    Terminator { span: Span { lo: 20, hi: 21 }, kind }
}

fn block(statements: Vec<Statement>, kind: TerminatorKind) -> BasicBlockData {
    BasicBlockData { statements, terminator: term(kind) }
}

fn function(def_id: DefId, locals: Vec<Ty>, basic_blocks: Vec<BasicBlockData>) -> MirEntry {
    let return_ty = locals[0];
    MirEntry { def_id, mir: Mir { basic_blocks, local_decls: locals, return_ty, span: Span { lo: 1, hi: 2 } } }
}

fn callee_item() -> Operand {
    Operand::Constant(Constant {
        span: SP,
        ty: FN_ITEM,
        literal: Literal::Item { def_id: CALLEE, substs: Substs(0) },
    })
}

#[test]
fn a_program_that_returns_runs_to_the_end() {
    let main = function(
        MAIN,
        vec![U32, U32],
        vec![block(
            vec![
                stmt(StatementKind::StorageLive(local(1))),
                stmt(StatementKind::Assign(local(1), Rvalue::Use(const_u32(2)))),
                stmt(StatementKind::Nop),
                stmt(StatementKind::Assign(local(0), Rvalue::BinaryOp(BinOp::Mul, consume(1), const_u32(21)))),
                stmt(StatementKind::StorageDead(local(1))),
            ],
            TerminatorKind::Return,
        )],
    );
    let program = program(vec![main]);
    assert_eq!(eval_main(&program, MAIN, 1024, 100, 8), Ok(()));
    assert_eq!(eval_main(&program, MAIN, 1024, 7, 8), Ok(()));
    assert_eq!(eval_main(&program, MAIN, 1024, 6, 8), Ok(()));
    let report = eval_main(&program, MAIN, 1024, 5, 8).unwrap_err();
    assert_eq!(report.error, EvalError::ExecutionTimeLimitReached);
    assert_eq!(report.span, Some(Span { lo: 20, hi: 21 }));
    assert_eq!(report.trace.len(), 1);
    let report = eval_main(&program, MAIN, 1024, 2, 8).unwrap_err();
    assert_eq!(report.span, Some(Span { lo: 10, hi: 11 }));
    let report = eval_main(&program, MAIN, 1024, 0, 8).unwrap_err();
    assert_eq!(report.error, EvalError::ExecutionTimeLimitReached);
}

#[test]
fn stepping_walks_through_statements_and_terminators() {
    let main = function(
        MAIN,
        vec![U32, BOOL],
        vec![
            block(
                vec![stmt(StatementKind::Assign(local(1), Rvalue::Use(const_bool(false))))],
                TerminatorKind::If { cond: consume(1), then_target: BasicBlock(1), else_target: BasicBlock(2) },
            ),
            block(vec![], TerminatorKind::Unreachable),
            block(
                vec![stmt(StatementKind::Assign(local(0), Rvalue::Use(const_u32(5))))],
                TerminatorKind::Assert { cond: consume(1), expected: false, target: BasicBlock(3) },
            ),
            block(vec![], TerminatorKind::Goto { target: BasicBlock(4) }),
            block(vec![], TerminatorKind::Drop { location: local(1), target: BasicBlock(5) }),
            block(vec![], TerminatorKind::Return),
        ],
    );
    let program = program(vec![main]);
    let mut ecx = enter(&program);
    let result = local_ptr(&ecx, 0);
    assert_eq!(ecx.step(), Ok(true));
    assert_eq!((ecx.frame().block, ecx.frame().stmt), (BasicBlock(0), 1));
    assert_eq!(ecx.step(), Ok(true));
    assert_eq!((ecx.frame().block, ecx.frame().stmt), (BasicBlock(2), 0));
    assert_eq!(ecx.step(), Ok(true));
    assert_eq!(read_u32(&ecx, result), 5);
    assert_eq!(ecx.step(), Ok(true));
    assert_eq!(ecx.frame().block, BasicBlock(3));
    assert_eq!(ecx.step(), Ok(true));
    assert_eq!(ecx.step(), Ok(true));
    assert_eq!(ecx.frame().block, BasicBlock(5));
    assert_eq!(ecx.step(), Ok(true));
    assert_eq!(ecx.stack().len(), 0);
    assert_eq!(ecx.step(), Ok(false));
    assert_eq!(ecx.step(), Ok(false));
}

#[test]
fn a_failing_step_is_reported_with_the_stack() {
    let main = function(
        MAIN,
        vec![UNIT, U32],
        vec![block(
            vec![],
            TerminatorKind::Call {
                func: callee_item(),
                args: vec![const_u32(3)],
                destination: Some(Destination { lvalue: local(1), target: BasicBlock(1) }),
            },
        )],
    );
    let callee = function(
        CALLEE,
        vec![U32, U32, BOOL],
        vec![block(
            vec![
                stmt(StatementKind::Assign(local(0), Rvalue::Use(consume(1)))),
                stmt(StatementKind::Assign(local(2), Rvalue::Use(const_bool(true)))),
            ],
            TerminatorKind::Assert { cond: consume(2), expected: false, target: BasicBlock(0) },
        )],
    );
    let program = program(vec![main, callee]);
    let report = eval_main(&program, MAIN, 1024, 100, 8).unwrap_err();
    assert_eq!(report.error, EvalError::AssertionFailed);
    assert_eq!(report.span, Some(Span { lo: 20, hi: 21 }));
    assert_eq!(report.trace.len(), 2);
    assert_eq!(report.trace[0].def_id, CALLEE);
    assert_eq!(report.trace[0].span, Span { lo: 20, hi: 21 });
    assert_eq!(report.trace[0].substs, Substs(0));
    assert!(!report.trace[0].is_closure);
    assert_eq!(report.trace[1].def_id, MAIN);
    assert_eq!(report.trace[1].span, Span { lo: 1, hi: 2 });
}

#[test]
fn a_call_passes_arguments_and_returns_a_result() {
    let main = function(
        MAIN,
        vec![U32, U32],
        vec![
            block(
                vec![],
                TerminatorKind::Call {
                    func: callee_item(),
                    args: vec![const_u32(20), const_u32(22)],
                    destination: Some(Destination { lvalue: local(1), target: BasicBlock(1) }),
                },
            ),
            block(vec![stmt(StatementKind::Assign(local(0), Rvalue::Use(consume(1))))], TerminatorKind::Return),
        ],
    );
    let callee = function(
        CALLEE,
        vec![U32, U32, U32],
        vec![block(
            vec![stmt(StatementKind::Assign(local(0), Rvalue::BinaryOp(BinOp::Add, consume(1), consume(2))))],
            TerminatorKind::Return,
        )],
    );
    let program = program(vec![main, callee]);
    let mut ecx = enter(&program);
    let result = local_ptr(&ecx, 0);
    assert_eq!(ecx.step(), Ok(true));
    assert_eq!(ecx.stack().len(), 2);
    assert_eq!(ecx.frame().def_id, CALLEE);
    assert_eq!(ecx.frame().locals[0], Value::ByRef(local_ptr_of(&ecx, 0, 1)));
    assert_eq!(ecx.frame().return_to_block, StackPopCleanup::Goto(BasicBlock(1)));
    assert_eq!(read_u32(&ecx, local_ptr(&ecx, 2)), 22);
    assert_eq!(ecx.step(), Ok(true));
    assert_eq!(ecx.step(), Ok(true));
    assert_eq!(ecx.stack().len(), 1);
    assert_eq!((ecx.frame().block, ecx.frame().stmt), (BasicBlock(1), 0));
    assert_eq!(ecx.step(), Ok(true));
    assert_eq!(read_u32(&ecx, result), 42);
    assert_eq!(ecx.step(), Ok(true));
    assert_eq!(ecx.step(), Ok(false));
}

fn local_ptr_of(ecx: &EvalContext, frame: usize, i: usize) -> Pointer {
    match ecx.stack()[frame].locals[i] {
        Value::ByRef(p) => p,
        _ => panic!("a local that is not in memory"),
    }
}

#[test]
fn a_call_through_a_function_pointer() {
    let main = function(
        MAIN,
        vec![UNIT, FN_PTR, UNIT],
        vec![
            block(
                vec![stmt(StatementKind::Assign(
                    local(1),
                    Rvalue::Cast(CastKind::ReifyFnPointer, callee_item(), FN_PTR),
                ))],
                TerminatorKind::Call {
                    func: consume(1),
                    args: vec![],
                    destination: Some(Destination { lvalue: local(2), target: BasicBlock(1) }),
                },
            ),
            block(vec![], TerminatorKind::Return),
        ],
    );
    let callee = function(CALLEE, vec![UNIT], vec![block(vec![], TerminatorKind::Return)]);
    let program = program(vec![main, callee]);
    assert_eq!(eval_main(&program, MAIN, 1024, 100, 8), Ok(()));
}

#[test]
fn a_call_of_an_intrinsic_happens_on_the_spot() {
    let item = Operand::Constant(Constant {
        span: SP,
        ty: INTRINSIC_ITEM,
        literal: Literal::Item { def_id: INTRINSIC, substs: Substs(3) },
    });
    let main = function(
        MAIN,
        vec![USIZE],
        vec![
            block(
                vec![],
                TerminatorKind::Call {
                    func: item,
                    args: vec![],
                    destination: Some(Destination { lvalue: local(0), target: BasicBlock(1) }),
                },
            ),
            block(vec![], TerminatorKind::Return),
        ],
    );
    let program = program(vec![main]);
    let mut ecx = enter(&program);
    let result = local_ptr(&ecx, 0);
    assert_eq!(ecx.step(), Ok(true));
    assert_eq!(ecx.stack().len(), 1);
    assert_eq!(ecx.frame().block, BasicBlock(1));
    assert_eq!(ecx.memory().read_usize(result), Ok(4));
}

#[test]
fn switches_pick_their_target()  {
    let main = function(
        MAIN,
        vec![UNIT, U32, C_ENUM],
        vec![
            block(
                vec![
                    stmt(StatementKind::Assign(local(1), Rvalue::Use(const_u32(7)))),
                    stmt(StatementKind::Assign(local(2), Rvalue::Aggregate(AggregateKind::Adt(C_ENUM, 1), vec![]))),
                ],
                TerminatorKind::SwitchInt {
                    discr: local(1),
                    switch_ty: U32,
                    values: vec![3, 7],
                    targets: vec![BasicBlock(3), BasicBlock(1), BasicBlock(3)],
                },
            ),
            block(
                vec![],
                TerminatorKind::Switch {
                    discr: local(2),
                    targets: vec![BasicBlock(3), BasicBlock(2), BasicBlock(3)],
                },
            ),
            block(
                vec![stmt(StatementKind::Assign(local(1), Rvalue::Use(const_u32(8))))],
                TerminatorKind::SwitchInt {
                    discr: local(1),
                    switch_ty: U32,
                    values: vec![3, 7],
                    targets: vec![BasicBlock(3), BasicBlock(3), BasicBlock(4)],
                },
            ),
            block(vec![], TerminatorKind::Resume),
            block(vec![], TerminatorKind::Return),
        ],
    );
    let program = program(vec![main]);
    assert_eq!(eval_main(&program, MAIN, 1024, 100, 8), Ok(()));
}

#[test]
fn unsupported_steps_are_errors() {
    let main = function(
        MAIN,
        vec![UNIT, C_ENUM],
        vec![
            block(vec![], TerminatorKind::Goto { target: BasicBlock(1) }),
            block(
                vec![stmt(StatementKind::SetDiscriminant { lvalue: local(1), variant_index: 0 })],
                TerminatorKind::Return,
            ),
        ],
    );
    let program = program(vec![main]);
    let report = eval_main(&program, MAIN, 1024, 100, 8).unwrap_err();
    assert_eq!(report.error, EvalError::UnsupportedStatement);
    assert_eq!(report.span, Some(Span { lo: 10, hi: 11 }));

    let main = function(MAIN, vec![UNIT], vec![block(vec![], TerminatorKind::Unreachable)]);
    let program = super_program(main);
    let report = eval_main(&program, MAIN, 1024, 100, 8).unwrap_err();
    assert_eq!(report.error, EvalError::UnsupportedTerminator);

    let main = function(MAIN, vec![UNIT], vec![block(vec![], TerminatorKind::Goto { target: BasicBlock(9) })]);
    let program = super_program(main);
    let report = eval_main(&program, MAIN, 1024, 100, 8).unwrap_err();
    assert_eq!(report.error, EvalError::Malformed);
    assert_eq!(report.span, None);
}

fn super_program(main: MirEntry) -> Program {
    program(vec![main])
}

#[test]
fn an_endless_loop_runs_out_of_steps() {
    let main = function(MAIN, vec![UNIT], vec![block(vec![], TerminatorKind::Goto { target: BasicBlock(0) })]);
    let program = program(vec![main]);
    let report = eval_main(&program, MAIN, 1024, 1000, 8).unwrap_err();
    assert_eq!(report.error, EvalError::ExecutionTimeLimitReached);
    assert_eq!(report.error.class(), ErrorClass::ResourceExhausted);
    assert_eq!(report.trace.len(), 1);
}

#[test]
fn recursion_stops_at_the_stack_limit() {
    let recursive = |def_id: DefId| {
        function(
            def_id,
            vec![UNIT, UNIT],
            vec![
                block(
                    vec![],
                    TerminatorKind::Call {
                        func: callee_item(),
                        args: vec![],
                        destination: Some(Destination { lvalue: local(1), target: BasicBlock(1) }),
                    },
                ),
                block(vec![], TerminatorKind::Return),
            ],
        )
    };
    let program = program(vec![recursive(MAIN), recursive(CALLEE)]);
    let limit = 5;
    let mut ecx = EvalContext::new(&program, 1024, limit);
    let mir = &program.mir_map[0].mir;
    let place = mir_interpreter::interpreter::Lvalue::from_ptr(Pointer::zst_ptr());
    ecx.push_stack_frame(MAIN, SP, CachedMir::Ref(mir), Substs(0), place, StackPopCleanup::Nothing).unwrap();
    let mut calls = 0;
    let error = loop {
        match ecx.step() {
            Ok(true) => calls += 1,
            Ok(false) => panic!("the recursion ended"),
            Err(e) => break e,
        }
    };
    assert_eq!(error, EvalError::StackFrameLimitReached);
    assert_eq!(calls, limit - 1);
    assert_eq!(ecx.stack().len(), limit + 1);

    let report = eval_main(&program, MAIN, 1024, 1000, limit).unwrap_err();
    assert_eq!(report.error, EvalError::StackFrameLimitReached);
    assert_eq!(report.trace.len(), limit + 1);
    assert_eq!(report.trace[0].def_id, CALLEE);
    assert_eq!(report.trace[limit].def_id, MAIN);
}

#[test]
fn running_needs_an_entry_function() {
    let program = program(vec![]);
    let report = eval_main(&program, MAIN, 1024, 10, 8).unwrap_err();
    assert_eq!(report.error, EvalError::NoMirFor(MAIN));
    assert_eq!(report.span, None);
    assert!(report.trace.is_empty());
    let main = function(MAIN, vec![ARRAY4], vec![block(vec![], TerminatorKind::Return)]);
    let program = super_program(main);
    let report = eval_main(&program, MAIN, 8, 10, 8).unwrap_err();
    assert_eq!(
        report.error,
        EvalError::OutOfMemory { allocation_size: 16, memory_size: 8, memory_usage: 0 }
    );
}

#[test]
fn closures_are_marked_in_the_trace() {
    let closure = DefId { krate: 0, index: 11 };
    let main = function(MAIN, vec![UNIT], vec![block(vec![], TerminatorKind::Return)]);
    let program = program(vec![main]);
    let mut ecx = enter(&program);
    let mir = &program.mir_map[0].mir;
    let place = mir_interpreter::interpreter::Lvalue::from_ptr(Pointer::zst_ptr());
    ecx.push_stack_frame(closure, Span { lo: 5, hi: 6 }, CachedMir::Ref(mir), Substs(2), place, StackPopCleanup::Nothing)
        .unwrap();
    let report = ecx.report(EvalError::Malformed);
    assert_eq!(report.trace.len(), 2);
    assert!(report.trace[0].is_closure);
    assert_eq!(report.trace[0].substs, Substs(2));
    assert_eq!(report.trace[0].span, Span { lo: 5, hi: 6 });
    assert!(!report.trace[1].is_closure);
    assert_eq!(report.span, Some(Span { lo: 20, hi: 21 }));
}

#[test]
fn returning_to_a_caller_that_is_not_there_fails() {
    let program = with_locals(vec![UNIT]);
    let mut ecx = EvalContext::new(&program, 64, 8);
    let mir = &program.mir_map[0].mir;
    let place = mir_interpreter::interpreter::Lvalue::from_ptr(Pointer::zst_ptr());
    ecx.push_stack_frame(MAIN, SP, CachedMir::Ref(mir), Substs(0), place, StackPopCleanup::Goto(BasicBlock(0)))
        .unwrap();
    assert_eq!(ecx.pop_stack_frame(), Err(EvalError::EmptyStack));
    assert_eq!(ecx.stack().len(), 0);
    assert_eq!(EvalError::EmptyStack.class(), ErrorClass::InvalidProgramState);
}

#[test]
fn a_discriminant_of_no_variant_is_refused() {
    let main = function(
        MAIN,
        vec![UNIT, C_ENUM],
        vec![
            block(
                vec![stmt(StatementKind::Assign(local(1), Rvalue::Aggregate(AggregateKind::Adt(C_ENUM, 1), vec![])))],
                TerminatorKind::Switch { discr: local(1), targets: vec![BasicBlock(1), BasicBlock(1), BasicBlock(1)] },
            ),
            block(vec![], TerminatorKind::Return),
        ],
    );
    let program = program(vec![main]);
    let mut ecx = enter(&program);
    assert_eq!(ecx.step(), Ok(true));
    let at = local_ptr(&ecx, 1);
    ecx.memory_mut().write_uint(at, 6, 1).unwrap();
    assert_eq!(ecx.step(), Err(EvalError::InvalidDiscriminant));
    assert_eq!(ecx.frame().block, BasicBlock(0));
    ecx.memory_mut().write_uint(at, 200, 1).unwrap();
    assert_eq!(ecx.step(), Ok(true));
    assert_eq!(ecx.frame().block, BasicBlock(1));
}

#[test]
fn a_call_through_a_pointer_of_another_signature_is_refused() {
    let main = function(
        MAIN,
        vec![UNIT, OTHER_FN_PTR, UNIT],
        vec![block(
            vec![stmt(StatementKind::Assign(
                local(1),
                Rvalue::Cast(CastKind::ReifyFnPointer, callee_item(), OTHER_FN_PTR),
            ))],
            TerminatorKind::Call {
                func: consume(1),
                args: vec![],
                destination: Some(Destination { lvalue: local(2), target: BasicBlock(0) }),
            },
        )],
    );
    let callee = function(CALLEE, vec![UNIT], vec![block(vec![], TerminatorKind::Return)]);
    let program = program(vec![main, callee]);
    let report = eval_main(&program, MAIN, 1024, 100, 8).unwrap_err();
    assert_eq!(report.error, EvalError::FunctionPointerTyMismatch);
    assert_eq!(report.trace.len(), 1);
}

#[test]
fn dropping_a_value_that_needs_code_is_not_supported() {
    let main = function(
        MAIN,
        vec![UNIT, DROPPED],
        vec![
            block(vec![], TerminatorKind::Drop { location: local(1), target: BasicBlock(1) }),
            block(vec![], TerminatorKind::Return),
        ],
    );
    let program = program(vec![main]);
    let report = eval_main(&program, MAIN, 1024, 100, 8).unwrap_err();
    assert_eq!(report.error, EvalError::UnsupportedTerminator);
    assert_eq!(report.span, Some(Span { lo: 20, hi: 21 }));
}

#[test]
fn a_call_without_destination_returns_nowhere() {
    let main = function(
        MAIN,
        vec![UNIT],
        vec![block(vec![], TerminatorKind::Call { func: callee_item(), args: vec![], destination: None })],
    );
    let callee = function(CALLEE, vec![UNIT], vec![block(vec![], TerminatorKind::Goto { target: BasicBlock(0) })]);
    let program = program(vec![main, callee]);
    let mut ecx = enter(&program);
    assert_eq!(ecx.step(), Ok(true));
    assert_eq!(ecx.stack().len(), 2);
    assert_eq!(ecx.frame().return_to_block, StackPopCleanup::Nothing);
    assert_eq!(ecx.frame().locals[0], Value::ByRef(Pointer::from_int(0)));
}

#[test]
fn a_copied_value_reads_as_it_did_at_its_source() {
    let program = with_locals(vec![UNIT, REF_SLICE, REF_SLICE, U32, U32, CHAR, CHAR]);
    let mut ecx = enter(&program);
    let target = local_ptr(&ecx, 3);
    let fat = Value::ByValPair(PrimVal::Ptr(target), PrimVal::U64(9));
    ecx.write_value_to_ptr(fat, local_ptr(&ecx, 1), REF_SLICE).unwrap();
    ecx.write_value_to_ptr(Value::ByRef(local_ptr(&ecx, 1)), local_ptr(&ecx, 2), REF_SLICE).unwrap();
    assert_eq!(ecx.read_value(local_ptr(&ecx, 2), REF_SLICE), Ok(fat));

    ecx.write_value_to_ptr(Value::ByVal(PrimVal::U32(77)), local_ptr(&ecx, 3), U32).unwrap();
    ecx.write_value_to_ptr(Value::ByRef(local_ptr(&ecx, 3)), local_ptr(&ecx, 4), U32).unwrap();
    assert_eq!(ecx.read_value(local_ptr(&ecx, 4), U32), Ok(Value::ByVal(PrimVal::U32(77))));

    let odd = local_ptr(&ecx, 5);
    ecx.memory_mut().write_uint(odd, 0xdfff, 4).unwrap();
    ecx.write_value_to_ptr(Value::ByRef(odd), local_ptr(&ecx, 6), CHAR).unwrap();
    assert_eq!(ecx.read_value(local_ptr(&ecx, 5), CHAR), Err(EvalError::InvalidChar(0xdfff)));
    assert_eq!(ecx.read_value(local_ptr(&ecx, 6), CHAR), Err(EvalError::InvalidChar(0xdfff)));
}

#[test]
fn a_step_moves_the_depth_by_one_at_most() {
    let main = function(
        MAIN,
        vec![U32, U32],
        vec![
            block(
                vec![stmt(StatementKind::Nop)],
                TerminatorKind::Call {
                    func: callee_item(),
                    args: vec![],
                    destination: Some(Destination { lvalue: local(1), target: BasicBlock(1) }),
                },
            ),
            block(vec![], TerminatorKind::Return),
        ],
    );
    let callee = function(
        CALLEE,
        vec![U32],
        vec![block(vec![stmt(StatementKind::Assign(local(0), Rvalue::Use(const_u32(1))))], TerminatorKind::Return)],
    );
    let program = program(vec![main, callee]);
    let mut ecx = enter(&program);
    let mut depths = vec![ecx.stack().len()];
    while ecx.step() == Ok(true) {
        depths.push(ecx.stack().len());
    }
    assert_eq!(depths, vec![1, 1, 2, 2, 1, 0]);
}

#[test]
fn a_static_is_computed_once_and_then_frozen() {
    let item = DefId { krate: 0, index: 70 };
    let main = function(
        MAIN,
        vec![U32],
        vec![block(
            vec![stmt(StatementKind::Assign(local(0), Rvalue::Use(Operand::Consume(Lvalue::Static(item, U32)))))],
            TerminatorKind::Return,
        )],
    );
    let initializer = function(
        item,
        vec![U32],
        vec![block(
            vec![stmt(StatementKind::Assign(local(0), Rvalue::BinaryOp(BinOp::Add, const_u32(40), const_u32(2))))],
            TerminatorKind::Return,
        )],
    );
    let program = program(vec![main, initializer]);
    let mut ecx = enter(&program);
    let result = local_ptr(&ecx, 0);
    assert_eq!(ecx.global_item(item, Substs::empty(), Span { lo: 3, hi: 4 }), Ok(()));
    assert_eq!(ecx.stack().len(), 2);
    assert_eq!(ecx.statics.len(), 1);
    let storage = ecx.statics[0].ptr;
    assert_eq!(ecx.frame().return_to_block, StackPopCleanup::Freeze(storage.alloc_id));
    assert!(!ecx.memory().is_frozen(storage.alloc_id));
    assert_eq!(ecx.step(), Ok(true));
    assert_eq!(ecx.step(), Ok(true));
    assert_eq!(ecx.stack().len(), 1);
    assert!(ecx.memory().is_frozen(storage.alloc_id));
    assert_eq!(read_u32(&ecx, storage), 42);

    assert_eq!(ecx.global_item(item, Substs::empty(), SP), Ok(()));
    assert_eq!(ecx.stack().len(), 1);
    assert_eq!(ecx.statics.len(), 1);
    assert_eq!(ecx.step(), Ok(true));
    assert_eq!(read_u32(&ecx, result), 42);
    let place = Lvalue::Static(item, U32);
    assert_eq!(
        ecx.eval_rvalue_into_lvalue(&Rvalue::Use(const_u32(1)), &place),
        Err(EvalError::ModifiedConstantMemory)
    );
    let unknown = DefId { krate: 0, index: 71 };
    assert_eq!(ecx.global_item(unknown, Substs::empty(), SP), Err(EvalError::NoMirFor(unknown)));
    assert_eq!(ecx.statics.len(), 1);
}

#[test]
fn unsizing_a_record_unsizes_the_field_that_differs() {
    let program = with_locals(vec![UNIT, ARRAY4, HOLDER_THIN, HOLDER_FAT, RECORD]);
    let mut ecx = enter(&program);
    let array = local_ptr(&ecx, 1);
    let thin = local_ptr(&ecx, 2);
    let fat = local_ptr(&ecx, 3);
    ecx.memory_mut().write_ptr(thin, array).unwrap();
    ecx.memory_mut().write_uint(thin.offset(8), 99, 4).unwrap();
    assign(&mut ecx, 3, Rvalue::Cast(CastKind::Unsize, consume(2), HOLDER_FAT)).unwrap();
    assert_eq!(ecx.memory().read_ptr(fat), Ok(array));
    assert_eq!(ecx.memory().read_usize(fat.offset(8)), Ok(4));
    assert_eq!(read_u32(&ecx, fat.offset(16)), 99);
    assert_eq!(ecx.memory().read_uint(fat.offset(20), 4), Err(EvalError::ReadUndefBytes));
    assert_eq!(
        assign(&mut ecx, 4, Rvalue::Cast(CastKind::Unsize, consume(2), RECORD)),
        Err(EvalError::Malformed)
    );
    assert_eq!(
        ecx.unsize_into(Value::ByVal(PrimVal::U32(1)), HOLDER_THIN, fat, HOLDER_FAT),
        Err(EvalError::Malformed)
    );
}

#[test]
fn casting_a_string_constant() {
    let program = with_locals(vec![UNIT, REF_STR, RAW_U32, REF_STR]);
    let mut ecx = enter(&program);
    let text = || constant(ConstVal::Str("abc".to_string()), REF_STR);
    assign(&mut ecx, 1, Rvalue::Cast(CastKind::Misc, text(), REF_STR)).unwrap();
    let bytes = ecx.memory().read_ptr(local_ptr(&ecx, 1)).unwrap();
    assert_eq!(ecx.memory().read_bytes(bytes, 3), Ok(b"abc".to_vec()));
    assert_eq!(ecx.memory().read_usize(local_ptr(&ecx, 1).offset(8)), Ok(3));
    assign(&mut ecx, 2, Rvalue::Cast(CastKind::Misc, text(), RAW_U32)).unwrap();
    let thin = ecx.memory().read_ptr(local_ptr(&ecx, 2)).unwrap();
    assert_eq!(ecx.memory().read_bytes(thin, 3), Ok(b"abc".to_vec()));
    assign(&mut ecx, 3, Rvalue::Use(text())).unwrap();
    assert_eq!(ecx.memory().read_usize(local_ptr(&ecx, 3).offset(8)), Ok(3));
    assert_eq!(
        assign(&mut ecx, 2, Rvalue::Use(text())),
        Err(EvalError::Malformed)
    );
}

#[test]
fn switching_on_a_boolean_and_on_a_character() {
    let main = function(
        MAIN,
        vec![UNIT, BOOL, CHAR],
        vec![
            block(
                vec![
                    stmt(StatementKind::Assign(local(1), Rvalue::Use(const_bool(true)))),
                    stmt(StatementKind::Assign(local(2), Rvalue::Use(constant(ConstVal::Char('b'), CHAR)))),
                ],
                TerminatorKind::SwitchInt {
                    discr: local(1),
                    switch_ty: BOOL,
                    values: vec![0, 1],
                    targets: vec![BasicBlock(3), BasicBlock(1), BasicBlock(3)],
                },
            ),
            block(
                vec![],
                TerminatorKind::SwitchInt {
                    discr: local(2),
                    switch_ty: CHAR,
                    values: vec![97, 98],
                    targets: vec![BasicBlock(3), BasicBlock(2), BasicBlock(3)],
                },
            ),
            block(vec![], TerminatorKind::Return),
            block(vec![], TerminatorKind::Unreachable),
        ],
    );
    let program = program(vec![main]);
    assert_eq!(eval_main(&program, MAIN, 1024, 100, 8), Ok(()));
}
