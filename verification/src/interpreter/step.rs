//! Stepping: carrying out the current statement, or the terminator of the
//! current block, of the frame on top of the stack.
use vstd::prelude::*;
use crate::error::EvalError;
use crate::interpreter::state::State;
use crate::interpreter::value::Value;
use crate::interpreter::{
    find_cached, find_static, CachedBody, CachedMir, ConstantId, ConstantKind, Env, EvalContext, Lvalue,
    StackPopCleanup, StaticEntry,
};
use crate::memory::{MemoryModel, Pointer};
use crate::mir::{
    find_intrinsic, find_mir, lookup_intrinsic, BasicBlock, Destination, Operand, Span, Statement, StatementKind,
    Terminator, TerminatorKind,
};
use crate::primval::PrimVal;
use crate::ty::{DefId, Substs, Ty, TyKind, VariantDef};

verus! {

/// What an operation that changes more than memory must do: return what
/// `expected` says, leave everything but the memory as it says, and on
/// success leave the memory as it says too.
pub open spec fn follows<T>(
    r: Result<T, EvalError>,
    post: State,
    expected: (Result<T, EvalError>, State),
) -> bool {
    &&& r == expected.0
    &&& post.same_but_memory(expected.1)
    &&& r is Ok ==> post == expected.1
}

/// The number that a switch compares: 0 or 1 for a boolean, the code of a
/// character, the bit pattern of an integer.
pub open spec fn spec_switch_value(p: PrimVal) -> Result<u64, EvalError> {
    match p {
        PrimVal::Bool(b) => Ok(if b { 1u64 } else { 0u64 }),
        PrimVal::Char(c) => Ok(c as u64),
        _ => match p.spec_int_kind() {
            Some(_) => Ok(p.spec_bits()),
            None => Err(EvalError::Malformed),
        },
    }
}

fn switch_value(p: PrimVal) -> (r: Result<u64, EvalError>)
    ensures
        r == spec_switch_value(p),
{
    match p {
        PrimVal::Bool(b) => Ok(if b { 1u64 } else { 0u64 }),
        PrimVal::Char(c) => Ok(c as u32 as u64),
        _ => match p.int_kind() {
            Some(_) => Ok(p.bits()),
            None => Err(EvalError::Malformed),
        },
    }
}

/// The index of the first of `values`, from `from` on, that equals `n`.
pub open spec fn find_value(values: Seq<u64>, n: u64, from: int) -> Option<int>
    decreases values.len() - from,
{
    if from < 0 || from >= values.len() {
        None
    } else if values[from] == n {
        Some(from)
    } else {
        find_value(values, n, from + 1)
    }
}

/// Where a switch on `n` goes: to the target of the first value that
/// equals `n`, and to the last target if no value does.
pub open spec fn spec_switch_target(
    values: Seq<u64>,
    targets: Seq<BasicBlock>,
    n: u64,
) -> Result<BasicBlock, EvalError> {
    match find_value(values, n, 0) {
        Some(i) => if i < targets.len() {
            Ok(targets[i])
        } else {
            Err(EvalError::Malformed)
        },
        None => if targets.len() > 0 {
            Ok(targets.last())
        } else {
            Err(EvalError::Malformed)
        },
    }
}

fn switch_target(values: &Vec<u64>, targets: &Vec<BasicBlock>, n: u64) -> (r: Result<BasicBlock, EvalError>)
    ensures
        r == spec_switch_target(values@, targets@, n),
{
    let mut i: usize = 0;
    while i < values.len()
        invariant
            i <= values@.len(),
            find_value(values@, n, 0) == find_value(values@, n, i as int),
        decreases values@.len() - i,
    {
        if values[i] == n {
            if i < targets.len() {
                return Ok(targets[i]);
            } else {
                return Err(EvalError::Malformed);
            }
        }
        i += 1;
    }
    if targets.len() > 0 {
        Ok(targets[targets.len() - 1])
    } else {
        Err(EvalError::Malformed)
    }
}

/// The index of the first variant, from `from` on, that `discr` stands for.
pub open spec fn find_variant(variants: Seq<VariantDef>, discr: u64, from: int) -> Option<int>
    decreases variants.len() - from,
{
    if from < 0 || from >= variants.len() {
        None
    } else if variants[from].discr == discr {
        Some(from)
    } else {
        find_variant(variants, discr, from + 1)
    }
}

/// Where a switch on the variant of a sum type goes: to the target with
/// the index of the variant that the discriminant stands for.
pub open spec fn spec_variant_target(
    kind: TyKind,
    targets: Seq<BasicBlock>,
    discr: u64,
) -> Result<BasicBlock, EvalError> {
    match kind {
        TyKind::Adt(_, variants) => match find_variant(variants@, discr, 0) {
            Some(i) => if i < targets.len() {
                Ok(targets[i])
            } else {
                Err(EvalError::Malformed)
            },
            None => Err(EvalError::InvalidDiscriminant),
        },
        _ => Err(EvalError::Malformed),
    }
}

fn find_variant_of(variants: &Vec<VariantDef>, discr: u64) -> (r: Option<usize>)
    ensures
        match find_variant(variants@, discr, 0) {
            Some(i) => r matches Some(k) && k == i,
            None => r is None,
        },
{
    let mut i: usize = 0;
    while i < variants.len()
        invariant
            i <= variants@.len(),
            find_variant(variants@, discr, 0) == find_variant(variants@, discr, i as int),
        decreases variants@.len() - i,
    {
        if variants[i].discr == discr {
            return Some(i);
        }
        i += 1;
    }
    None
}

fn variant_target(kind: &TyKind, targets: &Vec<BasicBlock>, discr: u64) -> (r: Result<BasicBlock, EvalError>)
    ensures
        r == spec_variant_target(*kind, targets@, discr),
{
    match kind {
        TyKind::Adt(_, variants) => match find_variant_of(variants, discr) {
            Some(i) => {
                if i < targets.len() {
                    Ok(targets[i])
                } else {
                    Err(EvalError::Malformed)
                }
            },
            None => Err(EvalError::InvalidDiscriminant),
        },
        _ => Err(EvalError::Malformed),
    }
}

impl<'a> Env<'a> {
    /// Where a two-way branch on `cond` goes.
    #[verifier::opaque]
    pub open spec fn branch_target(
        &self,
        mem: MemoryModel,
        cond: &Operand,
        then_target: BasicBlock,
        else_target: BasicBlock,
    ) -> Result<(BasicBlock, MemoryModel), EvalError> {
        match self.eval_operand_to_primval(mem, cond) {
            Err(e) => Err(e),
            Ok((p, m)) => match p.spec_expect_bool() {
                Err(e) => Err(e),
                Ok(b) => Ok((if b { then_target } else { else_target }, m)),
            },
        }
    }

    /// Whether the condition of an assertion evaluates to what is expected.
    #[verifier::opaque]
    pub open spec fn check_assert(
        &self,
        mem: MemoryModel,
        cond: &Operand,
        expected: bool,
    ) -> Result<MemoryModel, EvalError> {
        match self.eval_operand_to_primval(mem, cond) {
            Err(e) => Err(e),
            Ok((p, m)) => match p.spec_expect_bool() {
                Err(e) => Err(e),
                Ok(b) => if b == expected {
                    Ok(m)
                } else {
                    Err(EvalError::AssertionFailed)
                },
            },
        }
    }

    /// Where a switch on the integer at `discr` goes.
    #[verifier::opaque]
    pub open spec fn switch_int_target(
        &self,
        mem: MemoryModel,
        discr: &crate::mir::Lvalue,
        values: Seq<u64>,
        targets: Seq<BasicBlock>,
    ) -> Result<(BasicBlock, MemoryModel), EvalError> {
        match self.eval_lvalue(mem, discr) {
            Err(e) => Err(e),
            Ok((l, m1)) => match l.spec_to_ptr() {
                Err(e) => Err(e),
                Ok(discr_ptr) => match self.lvalue_ty(discr) {
                    Err(e) => Err(e),
                    Ok(discr_ty) => match self.read_value(m1, discr_ptr, discr_ty) {
                        Err(e) => Err(e),
                        Ok((val, m2)) => match self.value_to_primval(m2, val, discr_ty) {
                            Err(e) => Err(e),
                            Ok((prim, m3)) => match spec_switch_value(prim) {
                                Err(e) => Err(e),
                                Ok(n) => match spec_switch_target(values, targets, n) {
                                    Err(e) => Err(e),
                                    Ok(t) => Ok((t, m3)),
                                },
                            },
                        },
                    },
                },
            },
        }
    }

    /// Where a switch on the variant of the sum type at `discr` goes.
    #[verifier::opaque]
    pub open spec fn switch_target(
        &self,
        mem: MemoryModel,
        discr: &crate::mir::Lvalue,
        targets: Seq<BasicBlock>,
    ) -> Result<(BasicBlock, MemoryModel), EvalError> {
        match self.eval_lvalue(mem, discr) {
            Err(e) => Err(e),
            Ok((l, m1)) => match l.spec_to_ptr() {
                Err(e) => Err(e),
                Ok(adt_ptr) => match self.lvalue_ty(discr) {
                    Err(e) => Err(e),
                    Ok(adt_ty) => match self.read_discriminant_value(m1, adt_ptr, adt_ty) {
                        Err(e) => Err(e),
                        Ok(discr_val) => match self.kind(adt_ty) {
                            Err(e) => Err(e),
                            Ok(kind) => match spec_variant_target(kind, targets, discr_val) {
                                Err(e) => Err(e),
                                Ok(t) => Ok((t, m1)),
                            },
                        },
                    },
                },
            },
        }
    }

    /// Whether a value at the place can be dropped without running code.
    pub open spec fn check_drop(&self, location: &crate::mir::Lvalue) -> Result<(), EvalError> {
        match self.lvalue_ty(location) {
            Err(e) => Err(e),
            Ok(ty) => match self.program.types.spec_info(ty) {
                None => Err(EvalError::Malformed),
                Some(info) => if info.needs_drop {
                    Err(EvalError::UnsupportedTerminator)
                } else {
                    Ok(())
                },
            },
        }
    }

    /// The place and the block that a call returns to.
    pub open spec fn call_destination(
        &self,
        mem: MemoryModel,
        destination: Option<Destination>,
    ) -> Result<(Option<(Lvalue, BasicBlock)>, MemoryModel), EvalError> {
        match destination {
            None => Ok((None, mem)),
            Some(d) => match self.eval_lvalue(mem, &d.lvalue) {
                Err(e) => Err(e),
                Ok((l, m)) => Ok((Some((l, d.target)), m)),
            },
        }
    }

    /// The function that a call calls: for a function item the item, for a
    /// function pointer the function it leads to, whose signature must be
    /// that of the pointer's type.
    #[verifier::opaque]
    pub open spec fn callee(
        &self,
        mem: MemoryModel,
        func: &Operand,
    ) -> Result<((DefId, Substs), MemoryModel), EvalError> {
        match self.operand_ty(func) {
            Err(e) => Err(e),
            Ok(func_ty) => match self.kind(func_ty) {
                Err(e) => Err(e),
                Ok(TyKind::FnPtr(bare_fn_ty)) => match self.eval_operand_to_primval(mem, func) {
                    Err(e) => Err(e),
                    Ok((PrimVal::FnPtr(fn_ptr), m)) => match m.get_fn(fn_ptr.alloc_id) {
                        Err(e) => Err(e),
                        Ok(f) => if f.fn_ty != bare_fn_ty {
                            Err(EvalError::FunctionPointerTyMismatch)
                        } else {
                            Ok(((f.def_id, f.substs), m))
                        },
                    },
                    Ok(_) => Err(EvalError::Malformed),
                },
                Ok(TyKind::FnDef(def_id, substs, _)) => Ok(((def_id, substs), mem)),
                Ok(_) => Err(EvalError::UnsupportedTerminator),
            },
        }
    }

    /// The values and the types of the first `n` arguments of a call.
    pub open spec fn eval_args_upto(
        &self,
        mem: MemoryModel,
        args: Seq<Operand>,
        n: nat,
    ) -> Result<(Seq<Value>, Seq<Ty>, MemoryModel), EvalError>
        decreases n,
    {
        if n == 0 {
            Ok((Seq::empty(), Seq::empty(), mem))
        } else {
            match self.eval_args_upto(mem, args, (n - 1) as nat) {
                Err(e) => Err(e),
                Ok((vals, tys, m1)) => match self.eval_operand(m1, &args[n - 1]) {
                    Err(e) => Err(e),
                    Ok((v, m2)) => match self.operand_ty(&args[n - 1]) {
                        Err(e) => Err(e),
                        Ok(ty) => Ok((vals.push(v), tys.push(ty), m2)),
                    },
                },
            }
        }
    }

    /// There are as many values and as many types as arguments.
    pub proof fn lemma_eval_args_len(&self, mem: MemoryModel, args: Seq<Operand>, n: nat)
        ensures
            self.eval_args_upto(mem, args, n) matches Ok((vals, tys, _)) ==> vals.len() == n && tys.len() == n,
        decreases n,
    {
        if n > 0 {
            self.lemma_eval_args_len(mem, args, (n - 1) as nat);
        }
    }

    /// Once evaluating some argument fails, evaluating all of them fails
    /// in the same way.
    pub proof fn lemma_eval_args_fails(&self, mem: MemoryModel, args: Seq<Operand>, i: nat, n: nat)
        requires
            i <= n,
            self.eval_args_upto(mem, args, i) is Err,
        ensures
            self.eval_args_upto(mem, args, n) == self.eval_args_upto(mem, args, i),
        decreases n,
    {
        if i < n {
            self.lemma_eval_args_fails(mem, args, i, (n - 1) as nat);
        }
    }

    /// The memory after the first `n` arguments are written to the locals
    /// `1..=n` of the frame that is being run.
    pub open spec fn write_args_upto(
        &self,
        mem: MemoryModel,
        vals: Seq<Value>,
        tys: Seq<Ty>,
        n: nat,
    ) -> Result<MemoryModel, EvalError>
        decreases n,
    {
        if n == 0 {
            Ok(mem)
        } else {
            match self.write_args_upto(mem, vals, tys, (n - 1) as nat) {
                Err(e) => Err(e),
                Ok(m1) => match self.local_ptr(n as usize) {
                    Err(e) => Err(e),
                    Ok(p) => self.write_value_to_ptr(m1, vals[n - 1], p, tys[n - 1]),
                },
            }
        }
    }

    /// Once writing some argument fails, writing all of them fails in the
    /// same way.
    pub proof fn lemma_write_args_fails(
        &self,
        mem: MemoryModel,
        vals: Seq<Value>,
        tys: Seq<Ty>,
        i: nat,
        n: nat,
    )
        requires
            i <= n,
            self.write_args_upto(mem, vals, tys, i) is Err,
        ensures
            self.write_args_upto(mem, vals, tys, n) == self.write_args_upto(mem, vals, tys, i),
        decreases n,
    {
        if i < n {
            self.lemma_write_args_fails(mem, vals, tys, i, (n - 1) as nat);
        }
    }
}

impl<'a> State<'a> {
    /// Finding the body of a function: for an item of the crate under
    /// evaluation the one in its table, for any other the cached one, or
    /// else the one that its crate offers, which is then cached.
    pub open spec fn load_mir(self, def_id: DefId) -> (Result<CachedMir<'a>, EvalError>, State<'a>) {
        if def_id.spec_is_local() {
            match find_mir(self.program.mir_map@, def_id, 0) {
                Some(i) => (Ok(CachedMir::Ref(&self.program.mir_map@[i].mir)), self),
                None => (Err(EvalError::NoMirFor(def_id)), self),
            }
        } else {
            match find_cached(self.mir_cache, def_id, 0) {
                Some(m) => (Ok(CachedMir::Owned(m)), self),
                None => match find_mir(self.program.extern_mir@, def_id, 0) {
                    Some(i) => (
                        Ok(CachedMir::Owned(&self.program.extern_mir@[i].mir)),
                        State {
                            mir_cache: self.mir_cache.push(
                                CachedBody { def_id, mir: &self.program.extern_mir@[i].mir },
                            ),
                            ..self
                        },
                    ),
                    None => (Err(EvalError::NoMirFor(def_id)), self),
                },
            }
        }
    }

    /// Starting to compute a constant or static item. If its address has
    /// been recorded, nothing happens. Else storage for its value is
    /// allocated and recorded as its address, and a frame for its body is
    /// pushed that writes the value there and freezes it when it is popped.
    #[verifier::opaque]
    pub open spec fn global_item(self, def_id: DefId, substs: Substs, span: Span) -> (
        Result<(), EvalError>,
        State<'a>,
    ) {
        let id = ConstantId { def_id, substs, kind: ConstantKind::Global };
        if find_static(self.statics, id, 0) is Some {
            (Ok(()), self)
        } else {
            let (loaded, s1) = self.load_mir(def_id);
            match loaded {
                Err(e) => (Err(e), s1),
                Ok(mir) => match s1.env().alloc_ptr(s1.memory, mir.spec_deref().return_ty, substs) {
                    Err(e) => (Err(e), s1),
                    Ok((ptr, m)) => State {
                        memory: m,
                        statics: s1.statics.push(StaticEntry { id, ptr }),
                        ..s1
                    }.push_stack_frame(
                        def_id,
                        span,
                        mir,
                        substs,
                        Lvalue::spec_from_ptr(ptr),
                        StackPopCleanup::Freeze(ptr.alloc_id),
                    ),
                },
            }
        }
    }

    /// The state after the current frame moves on by one statement.
    pub open spec fn next_stmt(self) -> State<'a> {
        self.with_top(self.stack.last().at_stmt((self.stack.last().stmt + 1) as usize))
    }

    /// Carrying out a statement. An assignment is evaluated; markers for
    /// the life of storage and empty statements do nothing; setting a
    /// discriminant is not supported.
    #[verifier::opaque]
    pub open spec fn statement(self, stmt: &Statement) -> (Result<(), EvalError>, State<'a>) {
        match stmt.kind {
            StatementKind::Assign(lvalue, rvalue) => match self.env().eval_rvalue_into_lvalue(
                self.memory,
                &rvalue,
                &lvalue,
            ) {
                Err(e) => (Err(e), self),
                Ok(m) => (Ok(()), self.with_memory(m).next_stmt()),
            },
            StatementKind::SetDiscriminant { .. } => (Err(EvalError::UnsupportedStatement), self),
            _ => (Ok(()), self.next_stmt()),
        }
    }

    /// Going to the block that an evaluation yields.
    pub open spec fn go(
        self,
        target: Result<(BasicBlock, MemoryModel), EvalError>,
    ) -> (Result<(), EvalError>, State<'a>) {
        match target {
            Err(e) => (Err(e), self),
            Ok((t, m)) => (Ok(()), self.with_memory(m).goto_block(t)),
        }
    }

    /// Calling a built-in operation: it is carried out on the spot, its
    /// result written to the destination, which must exist, and the caller
    /// goes on in the block after the call.
    #[verifier::opaque]
    pub open spec fn intrinsic_call(
        self,
        def_id: DefId,
        substs: Substs,
        dest: Option<(Lvalue, BasicBlock)>,
        dest_ty: Result<Ty, EvalError>,
        args: Seq<Operand>,
    ) -> (Result<(), EvalError>, State<'a>) {
        match dest {
            None => (Err(EvalError::Malformed), self),
            Some((ret, target)) => match dest_ty {
                Err(e) => (Err(e), self),
                Ok(ty) => match self.env().type_layout(ty) {
                    Err(e) => (Err(e), self),
                    Ok(layout) => match self.env().call_intrinsic(self.memory, def_id, substs, args, ret, ty, layout) {
                        Err(e) => (Err(e), self),
                        Ok(m) => (Ok(()), self.with_memory(m).goto_block(target)),
                    },
                },
            },
        }
    }

    /// Calling a function with a body: the arguments are evaluated, the
    /// body is found, a frame is pushed whose return slot is the
    /// destination, and the arguments are written to the locals after the
    /// return slot. A call without destination returns nowhere.
    #[verifier::opaque]
    pub open spec fn function_call(
        self,
        def_id: DefId,
        substs: Substs,
        dest: Option<(Lvalue, BasicBlock)>,
        args: Seq<Operand>,
        span: Span,
    ) -> (Result<(), EvalError>, State<'a>) {
        match self.env().eval_args_upto(self.memory, args, args.len()) {
            Err(e) => (Err(e), self),
            Ok((vals, tys, m1)) => {
                let (loaded, s1) = self.with_memory(m1).load_mir(def_id);
                match loaded {
                    Err(e) => (Err(e), s1),
                    Ok(mir) => {
                        let (return_lvalue, cleanup) = match dest {
                            Some((lvalue, block)) => (lvalue, StackPopCleanup::Goto(block)),
                            None => (
                                Lvalue::spec_from_ptr(Pointer::spec_from_int(0)),
                                StackPopCleanup::Nothing,
                            ),
                        };
                        let (pushed, s2) = s1.push_stack_frame(def_id, span, mir, substs, return_lvalue, cleanup);
                        match pushed {
                            Err(e) => (Err(e), s2),
                            Ok(_) => match s2.env().write_args_upto(s2.memory, vals, tys, vals.len()) {
                                Err(e) => (Err(e), s2),
                                Ok(m3) => (Ok(()), s2.with_memory(m3)),
                            },
                        }
                    },
                }
            },
        }
    }

    /// Carrying out a call.
    #[verifier::opaque]
    pub open spec fn call(
        self,
        func: &Operand,
        args: Seq<Operand>,
        destination: Option<Destination>,
        span: Span,
    ) -> (Result<(), EvalError>, State<'a>) {
        match self.env().call_destination(self.memory, destination) {
            Err(e) => (Err(e), self),
            Ok((dest, m1)) => match self.env().callee(m1, func) {
                Err(e) => (Err(e), self),
                Ok(((def_id, substs), m2)) => if find_intrinsic(self.program.intrinsics@, def_id, 0) is Some {
                    self.with_memory(m2).intrinsic_call(
                        def_id,
                        substs,
                        dest,
                        match destination {
                            Some(d) => self.env().lvalue_ty(&d.lvalue),
                            None => Err(EvalError::Malformed),
                        },
                        args,
                    )
                } else {
                    self.with_memory(m2).function_call(def_id, substs, dest, args, span)
                },
            },
        }
    }

    /// Carrying out a terminator.
    #[verifier::opaque]
    pub open spec fn eval_terminator(self, terminator: &Terminator) -> (Result<(), EvalError>, State<'a>) {
        match terminator.kind {
            TerminatorKind::Return => self.pop_stack_frame(),
            TerminatorKind::Goto { target } => (Ok(()), self.goto_block(target)),
            TerminatorKind::If { cond, then_target, else_target } => self.go(
                self.env().branch_target(self.memory, &cond, then_target, else_target),
            ),
            TerminatorKind::SwitchInt { discr, values, targets, .. } => self.go(
                self.env().switch_int_target(self.memory, &discr, values@, targets@),
            ),
            TerminatorKind::Switch { discr, targets } => self.go(
                self.env().switch_target(self.memory, &discr, targets@),
            ),
            TerminatorKind::Call { func, args, destination } => self.call(&func, args@, destination, terminator.span),
            TerminatorKind::Assert { cond, expected, target } => match self.env().check_assert(
                self.memory,
                &cond,
                expected,
            ) {
                Err(e) => (Err(e), self),
                Ok(m) => (Ok(()), self.with_memory(m).goto_block(target)),
            },
            TerminatorKind::Drop { location, target } => match self.env().check_drop(&location) {
                Err(e) => (Err(e), self),
                Ok(_) => (Ok(()), self.goto_block(target)),
            },
            TerminatorKind::Unreachable | TerminatorKind::Resume => (Err(EvalError::UnsupportedTerminator), self),
        }
    }

    /// One step. With an empty stack there is nothing left to do. Else
    /// the current statement of the current frame is carried out, or, when
    /// the statements of the block are done, its terminator.
    #[verifier::opaque]
    pub open spec fn step(self) -> (Result<bool, EvalError>, State<'a>) {
        if self.stack.len() == 0 {
            (Ok(false), self)
        } else {
            let frame = self.stack.last();
            let body = frame.mir.spec_deref();
            if frame.block.0 >= body.basic_blocks@.len() {
                (Err(EvalError::Malformed), self)
            } else {
                let basic_block = body.basic_blocks@[frame.block.0 as int];
                let (r, s) = if frame.stmt < basic_block.statements@.len() {
                    self.statement(&basic_block.statements@[frame.stmt as int])
                } else {
                    self.eval_terminator(&basic_block.terminator)
                };
                match r {
                    Ok(_) => (Ok(true), s),
                    Err(e) => (Err(e), s),
                }
            }
        }
    }
}

impl<'a> EvalContext<'a> {
    /// A state that differs from another in memory only has the picture of
    /// the other with its own memory.
    pub proof fn lemma_view_with_memory(&self, pre: &EvalContext<'a>)
        requires
            self.same_frames(pre),
        ensures
            self@ == pre@.with_memory(self.memory@),
            self.env() == pre.env(),
    {
    }

    fn branch_target(
        &mut self,
        cond: &Operand,
        then_target: BasicBlock,
        else_target: BasicBlock,
    ) -> (r: Result<BasicBlock, EvalError>)
        requires
            old(self).stack@.len() > 0,
        ensures
            crate::interpreter::evaluates(
                old(self),
                old(self).env().branch_target(old(self).memory@, cond, then_target, else_target),
                r,
                final(self),
            ),
    {
        proof {
            reveal(Env::branch_target);
        }
        let b = self.eval_operand_to_primval(cond)?.expect_bool()?;
        Ok(if b { then_target } else { else_target })
    }

    fn check_assert(&mut self, cond: &Operand, expected: bool) -> (r: Result<(), EvalError>)
        requires
            old(self).stack@.len() > 0,
        ensures
            crate::interpreter::place::performs(
                old(self),
                old(self).env().check_assert(old(self).memory@, cond, expected),
                r,
                final(self),
            ),
    {
        proof {
            reveal(Env::check_assert);
        }
        let b = self.eval_operand_to_primval(cond)?.expect_bool()?;
        if b == expected {
            Ok(())
        } else {
            Err(EvalError::AssertionFailed)
        }
    }

    fn switch_int_target(
        &mut self,
        discr: &crate::mir::Lvalue,
        values: &Vec<u64>,
        targets: &Vec<BasicBlock>,
    ) -> (r: Result<BasicBlock, EvalError>)
        requires
            old(self).stack@.len() > 0,
        ensures
            crate::interpreter::evaluates(
                old(self),
                old(self).env().switch_int_target(old(self).memory@, discr, values@, targets@),
                r,
                final(self),
            ),
    {
        proof {
            reveal(Env::switch_int_target);
        }
        let discr_ptr = self.eval_lvalue(discr)?.to_ptr()?;
        let discr_ty = self.lvalue_ty(discr)?;
        let discr_val = self.read_value(discr_ptr, discr_ty)?;
        let discr_prim = self.value_to_primval(discr_val, discr_ty)?;
        let n = switch_value(discr_prim)?;
        switch_target(values, targets, n)
    }

    fn switch_variant_target(
        &mut self,
        discr: &crate::mir::Lvalue,
        targets: &Vec<BasicBlock>,
    ) -> (r: Result<BasicBlock, EvalError>)
        requires
            old(self).stack@.len() > 0,
        ensures
            crate::interpreter::evaluates(
                old(self),
                old(self).env().switch_target(old(self).memory@, discr, targets@),
                r,
                final(self),
            ),
    {
        proof {
            reveal(Env::switch_target);
        }
        let adt_ptr = self.eval_lvalue(discr)?.to_ptr()?;
        let adt_ty = self.lvalue_ty(discr)?;
        let discr_val = self.read_discriminant_value(adt_ptr, adt_ty)?;
        let kind = self.kind(adt_ty)?;
        variant_target(kind, targets, discr_val)
    }

    fn check_drop(&self, location: &crate::mir::Lvalue) -> (r: Result<(), EvalError>)
        requires
            self.stack@.len() > 0,
        ensures
            r == self.env().check_drop(location),
    {
        let ty = self.lvalue_ty(location)?;
        match self.program.types.info(ty) {
            None => Err(EvalError::Malformed),
            Some(info) => {
                if info.needs_drop {
                    Err(EvalError::UnsupportedTerminator)
                } else {
                    Ok(())
                }
            },
        }
    }

    fn call_destination(
        &mut self,
        destination: &Option<Destination>,
    ) -> (r: Result<Option<(Lvalue, BasicBlock)>, EvalError>)
        requires
            old(self).stack@.len() > 0,
        ensures
            crate::interpreter::evaluates(
                old(self),
                old(self).env().call_destination(old(self).memory@, *destination),
                r,
                final(self),
            ),
    {
        match destination {
            None => Ok(None),
            Some(d) => {
                let l = self.eval_lvalue(&d.lvalue)?;
                Ok(Some((l, d.target)))
            },
        }
    }

    fn callee(&mut self, func: &Operand) -> (r: Result<(DefId, Substs), EvalError>)
        requires
            old(self).stack@.len() > 0,
        ensures
            crate::interpreter::evaluates(old(self), old(self).env().callee(old(self).memory@, func), r, final(self)),
    {
        proof {
            reveal(Env::callee);
        }
        let func_ty = self.operand_ty(func)?;
        match self.kind(func_ty)? {
            TyKind::FnPtr(bare_fn_ty) => match self.eval_operand_to_primval(func)? {
                PrimVal::FnPtr(fn_ptr) => {
                    let f = self.memory.get_fn(fn_ptr.alloc_id)?;
                    if f.fn_ty != *bare_fn_ty {
                        Err(EvalError::FunctionPointerTyMismatch)
                    } else {
                        Ok((f.def_id, f.substs))
                    }
                },
                _ => Err(EvalError::Malformed),
            },
            TyKind::FnDef(def_id, substs, _) => Ok((*def_id, *substs)),
            _ => Err(EvalError::UnsupportedTerminator),
        }
    }

    fn eval_args(&mut self, args: &Vec<Operand>) -> (r: Result<(Vec<Value>, Vec<Ty>), EvalError>)
        requires
            old(self).stack@.len() > 0,
        ensures
            final(self).same_frames(old(self)),
            match old(self).env().eval_args_upto(old(self).memory@, args@, args@.len()) {
                Ok((vals, tys, m)) => r matches Ok(v) && v.0@ == vals && v.1@ == tys && final(self).memory@ == m,
                Err(e) => r matches Err(x) && x == e,
            },
    {
        let ghost env = self.env();
        let ghost mem0 = self.memory@;
        let mut vals: Vec<Value> = Vec::new();
        let mut tys: Vec<Ty> = Vec::new();
        let mut i: usize = 0;
        let mut failed: Option<EvalError> = None;
        let mut going = true;
        while i < args.len() && going
            invariant
                i <= args@.len(),
                going == (failed is None),
                self.stack@.len() > 0,
                self.same_frames(old(self)),
                env == self.env(),
                match failed {
                    Some(e) => env.eval_args_upto(mem0, args@, args@.len()) == Err::<
                        (Seq<Value>, Seq<Ty>, MemoryModel),
                        EvalError,
                    >(e),
                    None => env.eval_args_upto(mem0, args@, i as nat) == Ok::<
                        (Seq<Value>, Seq<Ty>, MemoryModel),
                        EvalError,
                    >((vals@, tys@, self.memory@)),
                },
            decreases args@.len() - i + if going { 1int } else { 0int },
        {
            let v = self.eval_operand(&args[i]);
            let t = self.operand_ty(&args[i]);
            match (v, t) {
                (Ok(v), Ok(t)) => {
                    vals.push(v);
                    tys.push(t);
                    i += 1;
                },
                (Err(e), _) => {
                    proof {
                        assert(env.eval_args_upto(mem0, args@, (i + 1) as nat) == Err::<
                            (Seq<Value>, Seq<Ty>, MemoryModel),
                            EvalError,
                        >(e));
                        env.lemma_eval_args_fails(mem0, args@, (i + 1) as nat, args@.len());
                    }
                    failed = Some(e);
                    going = false;
                },
                (Ok(_), Err(e)) => {
                    proof {
                        assert(env.eval_args_upto(mem0, args@, (i + 1) as nat) == Err::<
                            (Seq<Value>, Seq<Ty>, MemoryModel),
                            EvalError,
                        >(e));
                        env.lemma_eval_args_fails(mem0, args@, (i + 1) as nat, args@.len());
                    }
                    failed = Some(e);
                    going = false;
                },
            }
        }
        match failed {
            Some(e) => Err(e),
            None => Ok((vals, tys)),
        }
    }

    fn write_args(&mut self, vals: &Vec<Value>, tys: &Vec<Ty>) -> (r: Result<(), EvalError>)
        requires
            old(self).stack@.len() > 0,
            vals@.len() == tys@.len(),
        ensures
            crate::interpreter::place::performs(
                old(self),
                old(self).env().write_args_upto(old(self).memory@, vals@, tys@, vals@.len()),
                r,
                final(self),
            ),
    {
        let ghost env = self.env();
        let ghost mem0 = self.memory@;
        let n = vals.len();
        let mut i: usize = 0;
        let mut failed: Option<EvalError> = None;
        let mut going = true;
        while i < n && going
            invariant
                i <= n,
                n == vals@.len(),
                n == tys@.len(),
                going == (failed is None),
                self.stack@.len() > 0,
                self.same_frames(old(self)),
                env == self.env(),
                match failed {
                    Some(e) => env.write_args_upto(mem0, vals@, tys@, n as nat) == Err::<MemoryModel, EvalError>(e),
                    None => env.write_args_upto(mem0, vals@, tys@, i as nat) == Ok::<MemoryModel, EvalError>(
                        self.memory@,
                    ),
                },
            decreases n - i + if going { 1int } else { 0int },
        {
            let dest = self.eval_lvalue(&crate::mir::Lvalue::Local(i + 1));
            let res = match dest {
                Ok(d) => {
                    proof {
                        assert(d.spec_to_ptr() == env.local_ptr((i + 1) as usize));
                    }
                    self.write_value(vals[i], d, tys[i])
                },
                Err(e) => Err(e),
            };
            match res {
                Ok(_) => {
                    i += 1;
                },
                Err(e) => {
                    proof {
                        assert(env.write_args_upto(mem0, vals@, tys@, (i + 1) as nat) == Err::<
                            MemoryModel,
                            EvalError,
                        >(e));
                        env.lemma_write_args_fails(mem0, vals@, tys@, (i + 1) as nat, n as nat);
                    }
                    failed = Some(e);
                    going = false;
                },
            }
        }
        match failed {
            Some(e) => Err(e),
            None => Ok(()),
        }
    }

    /// Starts to compute the constant or static item `def_id`, unless its
    /// address has been recorded already. The frame that is pushed has to
    /// be run to its end before the item is used.
    pub fn global_item(&mut self, def_id: DefId, substs: Substs, span: Span) -> (r: Result<(), EvalError>)
        ensures
            follows(r, final(self)@, old(self)@.global_item(def_id, substs, span)),
    {
        proof {
            reveal(State::global_item);
        }
        let id = ConstantId { def_id, substs, kind: ConstantKind::Global };
        if self.static_ptr(id).is_ok() {
            return Ok(());
        }
        let mir = self.load_mir(def_id)?;
        let ghost s1 = self@;
        let ghost pre = *self;
        let ptr = match self.alloc_ptr(mir.deref().return_ty, substs) {
            Ok(p) => p,
            Err(e) => {
                proof {
                    self.lemma_view_with_memory(&pre);
                }
                return Err(e);
            },
        };
        proof {
            self.lemma_view_with_memory(&pre);
            assert(pre.env().alloc_ptr(pre.memory@, mir.spec_deref().return_ty, substs) == s1.env().alloc_ptr(
                s1.memory,
                mir.spec_deref().return_ty,
                substs,
            ));
        }
        self.statics.push(StaticEntry { id, ptr });
        self.push_stack_frame(def_id, span, mir, substs, Lvalue::from_ptr(ptr), StackPopCleanup::Freeze(ptr.alloc_id))
    }

    fn next_stmt(&mut self)
        requires
            old(self).stack@.len() > 0,
            old(self).stack@.last().stmt < usize::MAX,
        ensures
            final(self)@ == old(self)@.next_stmt(),
    {
        let n = self.stack.len();
        let stmt = self.stack[n - 1].stmt;
        self.stack[n - 1].stmt = stmt + 1;
        proof {
            assert(self@.stack =~= old(self)@.next_stmt().stack);
        }
    }

    /// Carries out a statement.
    pub fn statement(&mut self, stmt: &Statement) -> (r: Result<(), EvalError>)
        requires
            old(self).stack@.len() > 0,
            old(self).stack@.last().stmt < usize::MAX,
        ensures
            follows(r, final(self)@, old(self)@.statement(stmt)),
    {
        proof {
            reveal(State::statement);
        }
        proof {
            self.lemma_env_of_view();
        }
        match &stmt.kind {
            StatementKind::Assign(lvalue, rvalue) => {
                let ghost pre = *self;
                match self.eval_rvalue_into_lvalue(rvalue, lvalue) {
                    Ok(_) => {
                        proof {
                            self.lemma_view_with_memory(&pre);
                        }
                        self.next_stmt();
                        Ok(())
                    },
                    Err(e) => {
                        proof {
                            self.lemma_view_with_memory(&pre);
                        }
                        Err(e)
                    },
                }
            },
            StatementKind::SetDiscriminant { .. } => Err(EvalError::UnsupportedStatement),
            _ => {
                self.next_stmt();
                Ok(())
            },
        }
    }

    fn go(&mut self, target: Result<BasicBlock, EvalError>, Ghost(pre): Ghost<State<'a>>, Ghost(expected): Ghost<
        Result<(BasicBlock, MemoryModel), EvalError>,
    >) -> (r: Result<(), EvalError>)
        requires
            old(self).stack@.len() > 0,
            old(self)@.same_but_memory(pre),
            match expected {
                Ok((t, m)) => target == Ok::<BasicBlock, EvalError>(t) && old(self).memory@ == m,
                Err(e) => target == Err::<BasicBlock, EvalError>(e),
            },
        ensures
            follows(r, final(self)@, pre.go(expected)),
    {
        match target {
            Ok(t) => {
                self.goto_block(t);
                Ok(())
            },
            Err(e) => Err(e),
        }
    }

    fn intrinsic_call(
        &mut self,
        def_id: DefId,
        substs: Substs,
        dest: Option<(Lvalue, BasicBlock)>,
        dest_ty: Result<Ty, EvalError>,
        args: &Vec<Operand>,
    ) -> (r: Result<(), EvalError>)
        requires
            old(self).stack@.len() > 0,
        ensures
            follows(r, final(self)@, old(self)@.intrinsic_call(def_id, substs, dest, dest_ty, args@)),
    {
        proof {
            reveal(State::intrinsic_call);
        }
        proof {
            self.lemma_env_of_view();
        }
        match dest {
            None => Err(EvalError::Malformed),
            Some((ret, target)) => {
                let ty = dest_ty?;
                let layout = self.type_layout(ty)?;
                let ghost pre = *self;
                match self.call_intrinsic(def_id, substs, args, ret, ty, layout) {
                    Ok(_) => {
                        proof {
                            self.lemma_view_with_memory(&pre);
                        }
                        self.goto_block(target);
                        Ok(())
                    },
                    Err(e) => {
                        proof {
                            self.lemma_view_with_memory(&pre);
                        }
                        Err(e)
                    },
                }
            },
        }
    }

    fn function_call(
        &mut self,
        def_id: DefId,
        substs: Substs,
        dest: Option<(Lvalue, BasicBlock)>,
        args: &Vec<Operand>,
        span: Span,
    ) -> (r: Result<(), EvalError>)
        requires
            old(self).stack@.len() > 0,
        ensures
            follows(r, final(self)@, old(self)@.function_call(def_id, substs, dest, args@, span)),
    {
        proof {
            reveal(State::function_call);
        }
        proof {
            self.lemma_env_of_view();
        }
        let ghost pre = *self;
        let (vals, tys) = match self.eval_args(args) {
            Ok(v) => v,
            Err(e) => {
                proof {
                    self.lemma_view_with_memory(&pre);
                }
                return Err(e);
            },
        };
        proof {
            self.lemma_view_with_memory(&pre);
            pre.env().lemma_eval_args_len(pre.memory@, args@, args@.len());
        }
        let mir = self.load_mir(def_id)?;
        let (return_lvalue, cleanup) = match dest {
            Some((lvalue, block)) => (lvalue, StackPopCleanup::Goto(block)),
            None => (Lvalue::from_ptr(Pointer::from_int(0)), StackPopCleanup::Nothing),
        };
        match self.push_stack_frame(def_id, span, mir, substs, return_lvalue, cleanup) {
            Ok(_) => {},
            Err(e) => {
                return Err(e);
            },
        }
        let ghost mid = *self;
        proof {
            self.lemma_env_of_view();
        }
        match self.write_args(&vals, &tys) {
            Ok(_) => {
                proof {
                    self.lemma_view_with_memory(&mid);
                }
                Ok(())
            },
            Err(e) => {
                proof {
                    self.lemma_view_with_memory(&mid);
                }
                Err(e)
            },
        }
    }

    fn call(
        &mut self,
        func: &Operand,
        args: &Vec<Operand>,
        destination: &Option<Destination>,
        span: Span,
    ) -> (r: Result<(), EvalError>)
        requires
            old(self).stack@.len() > 0,
        ensures
            follows(r, final(self)@, old(self)@.call(func, args@, *destination, span)),
    {
        proof {
            reveal(State::call);
        }
        proof {
            self.lemma_env_of_view();
        }
        let ghost pre = *self;
        let dest = match self.call_destination(destination) {
            Ok(d) => d,
            Err(e) => {
                proof {
                    self.lemma_view_with_memory(&pre);
                }
                return Err(e);
            },
        };
        proof {
            self.lemma_view_with_memory(&pre);
        }
        let (def_id, substs) = match self.callee(func) {
            Ok(c) => c,
            Err(e) => {
                proof {
                    self.lemma_view_with_memory(&pre);
                }
                return Err(e);
            },
        };
        proof {
            self.lemma_view_with_memory(&pre);
        }
        let program = self.program;
        if lookup_intrinsic(&program.intrinsics, def_id).is_some() {
            let dest_ty = match destination {
                Some(d) => self.lvalue_ty(&d.lvalue),
                None => Err(EvalError::Malformed),
            };
            self.intrinsic_call(def_id, substs, dest, dest_ty, args)
        } else {
            self.function_call(def_id, substs, dest, args, span)
        }
    }

    /// Carries out a terminator.
    pub fn eval_terminator(&mut self, terminator: &Terminator) -> (r: Result<(), EvalError>)
        requires
            old(self).stack@.len() > 0,
        ensures
            follows(r, final(self)@, old(self)@.eval_terminator(terminator)),
    {
        proof {
            reveal(State::eval_terminator);
        }
        proof {
            self.lemma_env_of_view();
        }
        let ghost pre = *self;
        match &terminator.kind {
            TerminatorKind::Return => self.pop_stack_frame(),
            TerminatorKind::Goto { target } => {
                self.goto_block(*target);
                Ok(())
            },
            TerminatorKind::If { cond, then_target, else_target } => {
                let t = self.branch_target(cond, *then_target, *else_target);
                proof {
                    self.lemma_view_with_memory(&pre);
                }
                self.go(
                    t,
                    Ghost(pre@),
                    Ghost(pre.env().branch_target(pre.memory@, cond, *then_target, *else_target)),
                )
            },
            TerminatorKind::SwitchInt { discr, values, targets, .. } => {
                let t = self.switch_int_target(discr, values, targets);
                proof {
                    self.lemma_view_with_memory(&pre);
                }
                self.go(t, Ghost(pre@), Ghost(pre.env().switch_int_target(pre.memory@, discr, values@, targets@)))
            },
            TerminatorKind::Switch { discr, targets } => {
                let t = self.switch_variant_target(discr, targets);
                proof {
                    self.lemma_view_with_memory(&pre);
                }
                self.go(t, Ghost(pre@), Ghost(pre.env().switch_target(pre.memory@, discr, targets@)))
            },
            TerminatorKind::Call { func, args, destination } => self.call(func, args, destination, terminator.span),
            TerminatorKind::Assert { cond, expected, target } => {
                match self.check_assert(cond, *expected) {
                    Ok(_) => {
                        proof {
                            self.lemma_view_with_memory(&pre);
                        }
                        self.goto_block(*target);
                        Ok(())
                    },
                    Err(e) => {
                        proof {
                            self.lemma_view_with_memory(&pre);
                        }
                        Err(e)
                    },
                }
            },
            TerminatorKind::Drop { location, target } => {
                self.check_drop(location)?;
                self.goto_block(*target);
                Ok(())
            },
            TerminatorKind::Unreachable | TerminatorKind::Resume => Err(EvalError::UnsupportedTerminator),
        }
    }

    /// Takes one step. Returns whether there was anything left to do.
    pub fn step(&mut self) -> (r: Result<bool, EvalError>)
        ensures
            follows(r, final(self)@, old(self)@.step()),
    {
        proof {
            reveal(State::step);
        }
        if self.stack.len() == 0 {
            return Ok(false);
        }
        let n = self.stack.len();
        let block = self.stack[n - 1].block;
        let stmt = self.stack[n - 1].stmt;
        let body = self.stack[n - 1].mir.deref();
        if block.0 >= body.basic_blocks.len() {
            return Err(EvalError::Malformed);
        }
        let basic_block = &body.basic_blocks[block.0];
        if stmt < basic_block.statements.len() {
            self.statement(&basic_block.statements[stmt])?;
            Ok(true)
        } else {
            self.eval_terminator(&basic_block.terminator)?;
            Ok(true)
        }
    }
}

} // verus!
