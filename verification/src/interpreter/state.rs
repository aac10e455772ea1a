//! The mathematical picture of an evaluation state, and what entering and
//! leaving a function do to it.
use vstd::prelude::*;
use crate::error::EvalError;
use crate::interpreter::value::Value;
use crate::interpreter::{CachedBody, CachedMir, Env, EvalContext, Frame, Lvalue, StackPopCleanup, StaticEntry};
use crate::memory::MemoryModel;
use crate::mir::{BasicBlock, Program, Span};
use crate::ty::{DefId, Substs};

verus! {

/// The picture of a [`Frame`].
pub struct FrameModel<'a> {
    pub mir: CachedMir<'a>,
    pub def_id: DefId,
    pub substs: Substs,
    pub span: Span,
    pub return_to_block: StackPopCleanup,
    pub locals: Seq<Value>,
    pub block: BasicBlock,
    pub stmt: usize,
}

impl<'a> View for Frame<'a> {
    type V = FrameModel<'a>;

    open spec fn view(&self) -> FrameModel<'a> {
        FrameModel {
            mir: self.mir,
            def_id: self.def_id,
            substs: self.substs,
            span: self.span,
            return_to_block: self.return_to_block,
            locals: self.locals@,
            block: self.block,
            stmt: self.stmt,
        }
    }
}

/// The picture of an [`EvalContext`].
pub struct State<'a> {
    pub program: &'a Program,
    pub mir_cache: Seq<CachedBody<'a>>,
    pub memory: MemoryModel,
    pub statics: Seq<StaticEntry>,
    /// The call stack, the current frame last.
    pub stack: Seq<FrameModel<'a>>,
    pub stack_limit: usize,
}

impl<'a> View for EvalContext<'a> {
    type V = State<'a>;

    open spec fn view(&self) -> State<'a> {
        State {
            program: self.program,
            mir_cache: self.mir_cache@,
            memory: self.memory@,
            statics: self.statics@,
            stack: Seq::new(self.stack@.len(), |i: int| self.stack@[i]@),
            stack_limit: self.stack_limit,
        }
    }
}

impl<'a> FrameModel<'a> {
    /// This frame at the start of the block `target`.
    pub open spec fn at_block(self, target: BasicBlock) -> FrameModel<'a> {
        FrameModel { block: target, stmt: 0, ..self }
    }

    /// This frame at statement `stmt` of its block.
    pub open spec fn at_stmt(self, stmt: usize) -> FrameModel<'a> {
        FrameModel { stmt, ..self }
    }
}

impl<'a> State<'a> {
    /// The state before anything has happened.
    pub open spec fn initial(program: &'a Program, memory_size: u64, stack_limit: usize) -> State<'a> {
        State {
            program,
            mir_cache: Seq::empty(),
            memory: MemoryModel::spec_new(program.types.pointer_width, memory_size),
            statics: Seq::empty(),
            stack: Seq::empty(),
            stack_limit,
        }
    }

    /// What this state offers to an evaluation besides its memory.
    pub open spec fn env(self) -> Env<'a> {
        Env {
            program: self.program,
            statics: self.statics,
            locals: self.stack.last().locals,
            mir: self.stack.last().mir.spec_deref(),
            substs: self.stack.last().substs,
            def_id: self.stack.last().def_id,
        }
    }

    /// Whether two states differ in memory at most.
    pub open spec fn same_but_memory(self, other: State<'a>) -> bool {
        &&& self.program == other.program
        &&& self.mir_cache == other.mir_cache
        &&& self.statics == other.statics
        &&& self.stack == other.stack
        &&& self.stack_limit == other.stack_limit
    }

    /// This state with another memory.
    pub open spec fn with_memory(self, memory: MemoryModel) -> State<'a> {
        State { memory, ..self }
    }

    /// The number of frames on the stack.
    pub open spec fn depth(self) -> nat {
        self.stack.len()
    }

    /// This state with the current frame replaced.
    pub open spec fn with_top(self, frame: FrameModel<'a>) -> State<'a> {
        State { stack: self.stack.drop_last().push(frame), ..self }
    }

    /// The state after the current frame moves to the start of `target`.
    pub open spec fn goto_block(self, target: BasicBlock) -> State<'a> {
        self.with_top(self.stack.last().at_block(target))
    }

    /// Entering a function. The locals are allocated first; if they cannot
    /// be had the state stays as it is. Then the frame is pushed, and if it
    /// is one too many for the stack limit the call fails with the frame
    /// on the stack.
    pub open spec fn push_stack_frame(
        self,
        def_id: DefId,
        span: Span,
        mir: CachedMir<'a>,
        substs: Substs,
        return_lvalue: Lvalue,
        return_to_block: StackPopCleanup,
    ) -> (Result<(), EvalError>, State<'a>) {
        match self.env().frame_locals(self.memory, mir.spec_deref(), substs, return_lvalue) {
            Err(e) => (Err(e), self),
            Ok((locals, m)) => (
                if self.stack.len() + 1 > self.stack_limit {
                    Err(EvalError::StackFrameLimitReached)
                } else {
                    Ok(())
                },
                State {
                    memory: m,
                    stack: self.stack.push(
                        FrameModel {
                            mir,
                            def_id,
                            substs,
                            span,
                            return_to_block,
                            locals,
                            block: BasicBlock::spec_start(),
                            stmt: 0,
                        },
                    ),
                    ..self
                },
            ),
        }
    }

    /// Leaving a function: the current frame is popped, and then what it
    /// asks for is done. Freezing may fail; going to a block of the caller
    /// fails if there is no caller.
    pub open spec fn pop_stack_frame(self) -> (Result<(), EvalError>, State<'a>) {
        let popped = State { stack: self.stack.drop_last(), ..self };
        match self.stack.last().return_to_block {
            StackPopCleanup::Freeze(id) => match self.memory.freeze(id) {
                Ok(m) => (Ok(()), popped.with_memory(m)),
                Err(e) => (Err(e), popped),
            },
            StackPopCleanup::Goto(target) => if popped.stack.len() == 0 {
                (Err(EvalError::EmptyStack), popped)
            } else {
                (Ok(()), popped.goto_block(target))
            },
            StackPopCleanup::Nothing => (Ok(()), popped),
        }
    }
}

impl<'a> EvalContext<'a> {
    /// The environment of a state is that of its picture.
    pub proof fn lemma_env_of_view(&self)
        requires
            self.stack@.len() > 0,
        ensures
            self@.env() == self.env(),
    {
    }
}

} // verus!
