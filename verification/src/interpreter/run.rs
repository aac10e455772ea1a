//! Running a program from its entry function, and describing where a run
//! that failed stood.
use vstd::prelude::*;
use crate::error::EvalError;
use crate::interpreter::state::State;
use crate::interpreter::{CachedMir, EvalContext, Lvalue, StackPopCleanup};
use crate::memory::MemoryModel;
use crate::mir::{find_mir, lookup_mir, Program, Span};
use crate::ty::{DefId, Substs};

verus! {

/// One call that was under way when a run failed.
#[derive(Clone, Copy, Debug, PartialEq, Eq, Structural)]
pub struct TraceEntry {
    /// The function that was called.
    pub def_id: DefId,
    /// The generic arguments it was called with.
    pub substs: Substs,
    /// Where it was called.
    pub span: Span,
    /// Whether the function is a closure.
    pub is_closure: bool,
}

/// Where a run stood when it failed.
#[derive(Clone, Debug, PartialEq, Eq)]
pub struct Report {
    pub error: EvalError,
    /// The statement or terminator that was being carried out, if the
    /// stack was not empty.
    pub span: Option<Span>,
    /// The calls that were under way, the innermost first.
    pub trace: Vec<TraceEntry>,
}

/// The picture of a [`Report`].
pub struct ReportModel {
    pub error: EvalError,
    pub span: Option<Span>,
    pub trace: Seq<TraceEntry>,
}

impl View for Report {
    type V = ReportModel;

    open spec fn view(&self) -> ReportModel {
        ReportModel { error: self.error, span: self.span, trace: self.trace@ }
    }
}

/// Whether `def_id` is among `closures`, from `from` on.
pub open spec fn spec_is_closure(closures: Seq<DefId>, def_id: DefId, from: int) -> bool
    decreases closures.len() - from,
{
    if from < 0 || from >= closures.len() {
        false
    } else if closures[from] == def_id {
        true
    } else {
        spec_is_closure(closures, def_id, from + 1)
    }
}

fn is_closure(closures: &Vec<DefId>, def_id: DefId) -> (r: bool)
    ensures
        r == spec_is_closure(closures@, def_id, 0),
{
    let mut i: usize = 0;
    while i < closures.len()
        invariant
            i <= closures@.len(),
            spec_is_closure(closures@, def_id, 0) == spec_is_closure(closures@, def_id, i as int),
        decreases closures@.len() - i,
    {
        if closures[i] == def_id {
            return true;
        }
        i += 1;
    }
    false
}

impl<'a> State<'a> {
    /// Where the current frame stands in the source: at its current
    /// statement, or at the terminator of its block when the statements
    /// are done.
    pub open spec fn current_span(self) -> Option<Span> {
        if self.stack.len() == 0 {
            None
        } else {
            let frame = self.stack.last();
            let body = frame.mir.spec_deref();
            if frame.block.0 >= body.basic_blocks@.len() {
                None
            } else {
                let block = body.basic_blocks@[frame.block.0 as int];
                if frame.stmt < block.statements@.len() {
                    Some(block.statements@[frame.stmt as int].span)
                } else {
                    Some(block.terminator.span)
                }
            }
        }
    }

    /// The entry of the trace for frame `i` of the stack.
    pub open spec fn trace_entry(self, i: int) -> TraceEntry {
        TraceEntry {
            def_id: self.stack[i].def_id,
            substs: self.stack[i].substs,
            span: self.stack[i].span,
            is_closure: spec_is_closure(self.program.closures@, self.stack[i].def_id, 0),
        }
    }

    /// What is reported when a run fails with `e` in this state: the error,
    /// the place in the source, and one entry for each frame, the current
    /// frame first.
    pub open spec fn report(self, e: EvalError) -> ReportModel {
        ReportModel {
            error: e,
            span: self.current_span(),
            trace: Seq::new(self.stack.len(), |i: int| self.trace_entry(self.stack.len() - 1 - i)),
        }
    }

    /// What is reported does not depend on the memory.
    pub proof fn lemma_report_ignores_memory(self, other: State<'a>, e: EvalError)
        requires
            self.same_but_memory(other),
        ensures
            self.report(e) == other.report(e),
    {
        assert(self.report(e).trace =~= other.report(e).trace);
    }

    /// A run of at most `fuel` steps: steps are taken until the stack is
    /// empty, which is success, until a step fails, or until the steps run
    /// out with frames left on the stack, which is an error too.
    pub open spec fn run(self, fuel: nat) -> (Result<(), EvalError>, State<'a>)
        decreases fuel,
    {
        if fuel == 0 {
            if self.stack.len() == 0 {
                (Ok(()), self)
            } else {
                (Err(EvalError::ExecutionTimeLimitReached), self)
            }
        } else {
            match self.step() {
                (Ok(true), s) => s.run((fuel - 1) as nat),
                (Ok(false), s) => (Ok(()), s),
                (Err(e), s) => (Err(e), s),
            }
        }
    }

    /// The start of a run: storage for the result of the entry function is
    /// allocated, and a frame for the function is pushed that returns
    /// nowhere.
    pub open spec fn start(self, def_id: DefId) -> (Result<(), EvalError>, State<'a>) {
        match find_mir(self.program.mir_map@, def_id, 0) {
            None => (Err(EvalError::NoMirFor(def_id)), self),
            Some(i) => {
                let mir = &self.program.mir_map@[i].mir;
                match self.env().alloc_ptr(self.memory, mir.return_ty, Substs::spec_empty()) {
                    Err(e) => (Err(e), self),
                    Ok((p, m)) => self.with_memory(m).push_stack_frame(
                        def_id,
                        mir.span,
                        CachedMir::Ref(mir),
                        Substs::spec_empty(),
                        Lvalue::spec_from_ptr(p),
                        StackPopCleanup::Nothing,
                    ),
                }
            },
        }
    }
}

/// What running a program from the entry function `def_id` comes to, and
/// the state it ends in.
pub open spec fn spec_eval_main<'a>(
    program: &'a Program,
    def_id: DefId,
    memory_size: u64,
    step_limit: u64,
    stack_limit: usize,
) -> (Result<(), EvalError>, State<'a>) {
    match State::initial(program, memory_size, stack_limit).start(def_id) {
        (Err(e), s) => (Err(e), s),
        (Ok(_), s) => s.run(step_limit as nat),
    }
}

impl<'a> EvalContext<'a> {
    fn current_span(&self) -> (r: Option<Span>)
        ensures
            r == self@.current_span(),
    {
        if self.stack.len() == 0 {
            None
        } else {
            let frame = &self.stack[self.stack.len() - 1];
            let body = frame.mir.deref();
            if frame.block.0 >= body.basic_blocks.len() {
                None
            } else {
                let block = &body.basic_blocks[frame.block.0];
                if frame.stmt < block.statements.len() {
                    Some(block.statements[frame.stmt].span)
                } else {
                    Some(block.terminator.span)
                }
            }
        }
    }

    /// Describes where the run stands, for the error `e`.
    pub fn report(&self, e: EvalError) -> (r: Report)
        ensures
            r@ == self@.report(e),
    {
        let span = self.current_span();
        let n = self.stack.len();
        let mut trace: Vec<TraceEntry> = Vec::new();
        let mut i: usize = 0;
        while i < n
            invariant
                i <= n,
                n == self.stack@.len(),
                trace@.len() == i,
                forall|k: int| 0 <= k < i ==> trace@[k] == self@.trace_entry(n - 1 - k),
            decreases n - i,
        {
            let frame = &self.stack[n - 1 - i];
            trace.push(
                TraceEntry {
                    def_id: frame.def_id,
                    substs: frame.substs,
                    span: frame.span,
                    is_closure: is_closure(&self.program.closures, frame.def_id),
                },
            );
            i += 1;
        }
        let r = Report { error: e, span, trace };
        proof {
            assert(r@.trace =~= self@.report(e).trace);
        }
        r
    }
}

/// Runs a program from the entry function `def_id`, with at most
/// `memory_size` bytes of memory, `step_limit` steps and `stack_limit`
/// frames. Returns a report of where the run stood if it failed.
pub fn eval_main<'a>(
    program: &'a Program,
    def_id: DefId,
    memory_size: u64,
    step_limit: u64,
    stack_limit: usize,
) -> (r: Result<(), Report>)
    ensures
        match spec_eval_main(program, def_id, memory_size, step_limit, stack_limit) {
            (Ok(_), _) => r is Ok,
            (Err(e), s) => r matches Err(report) && report@ == s.report(e),
        },
{
    let mut ecx = EvalContext::new(program, memory_size, stack_limit);
    let ghost init = State::initial(program, memory_size, stack_limit);
    let mir = match lookup_mir(&program.mir_map, def_id) {
        Some(m) => m,
        None => {
            return Err(ecx.report(EvalError::NoMirFor(def_id)));
        },
    };
    let substs = Substs::empty();
    let ghost pre = ecx;
    let return_ptr = match ecx.alloc_ptr(mir.return_ty, substs) {
        Ok(p) => p,
        Err(e) => {
            proof {
                ecx.lemma_view_with_memory(&pre);
                ecx@.lemma_report_ignores_memory(init, e);
            }
            return Err(ecx.report(e));
        },
    };
    proof {
        ecx.lemma_view_with_memory(&pre);
    }
    match ecx.push_stack_frame(
        def_id,
        mir.span,
        CachedMir::Ref(mir),
        substs,
        Lvalue::from_ptr(return_ptr),
        StackPopCleanup::Nothing,
    ) {
        Ok(_) => {},
        Err(e) => {
            proof {
                let s = init.start(def_id).1;
                assert(ecx@.same_but_memory(s));
                ecx@.lemma_report_ignores_memory(s, e);
            }
            return Err(ecx.report(e));
        },
    }
    let ghost expected = spec_eval_main(program, def_id, memory_size, step_limit, stack_limit);
    proof {
        assert(init.start(def_id).0 is Ok);
        assert(ecx@ == init.start(def_id).1);
    }
    let mut i: u64 = 0;
    while i < step_limit
        invariant
            i <= step_limit,
            expected == ecx@.run((step_limit - i) as nat),
            expected == spec_eval_main(program, def_id, memory_size, step_limit, stack_limit),
        decreases step_limit - i,
    {
        let ghost before = ecx@;
        match ecx.step() {
            Ok(true) => {},
            Ok(false) => {
                return Ok(());
            },
            Err(e) => {
                proof {
                    let s = before.step().1;
                    ecx@.lemma_report_ignores_memory(s, e);
                }
                return Err(ecx.report(e));
            },
        }
        i += 1;
    }
    if ecx.stack.len() == 0 {
        Ok(())
    } else {
        Err(ecx.report(EvalError::ExecutionTimeLimitReached))
    }
}

} // verus!
