//! Evaluation errors. Every error ends the current run.
use vstd::prelude::*;
use crate::memory::Pointer;
use crate::ty::DefId;

verus! {

/// The four families an error belongs to.
#[derive(Clone, Copy, Debug, PartialEq, Eq, Structural)]
pub enum ErrorClass {
    /// A configured budget ran out.
    ResourceExhausted,
    /// The program asked for something the interpreter does not model.
    UnsupportedOperation,
    /// The program, or the data describing it, is inconsistent.
    InvalidProgramState,
    /// An access that the simulated memory rejects.
    MemoryFault,
}

/// Why an evaluation stopped.
#[derive(Clone, Copy, Debug, PartialEq, Eq, Structural)]
pub enum EvalError {
    /// The allocation named by a pointer does not exist.
    DanglingPointerDeref,
    /// A non-empty access through the zero-sized or the integer allocation.
    InvalidMemoryAccess,
    /// A function's allocation was read or written as bytes.
    DerefFunctionPointer,
    /// An allocation that holds no function was used as one.
    InvalidFunctionPointer,
    /// The access `[ptr.offset, ptr.offset + size)` leaves its allocation.
    PointerOutOfBounds { ptr: Pointer, size: u64, allocation_size: u64 },
    /// Bytes that belong to a stored pointer were read as plain data, or a
    /// pointer was read from bytes that only partly belong to one.
    ReadPointerAsBytes,
    /// Undefined bytes were read.
    ReadUndefBytes,
    /// A write to a frozen allocation.
    ModifiedConstantMemory,
    /// The access needs alignment `required` and has only `has`.
    AlignmentCheckFailed { required: u64, has: u64 },
    /// A byte other than 0 or 1 was read as a boolean.
    InvalidBool,
    /// The memory budget does not cover an allocation.
    OutOfMemory { allocation_size: u64, memory_size: u64, memory_usage: u64 },
    /// The call stack grew past its limit.
    StackFrameLimitReached,
    /// The step budget ran out.
    ExecutionTimeLimitReached,
    /// The built-in operation, named by its item, has a name that is not
    /// in the table of built-in operations.
    UnimplementedIntrinsic(DefId),
    /// A statement that the interpreter does not carry out.
    UnsupportedStatement,
    /// A terminator that the interpreter does not carry out.
    UnsupportedTerminator,
    /// An aggregate cannot be built for the destination's layout.
    UnsupportedLayout,
    /// A field was asked of a type that has none the interpreter knows of.
    UnsupportedType,
    /// A constant of a kind that cannot be turned into a value.
    UnsupportedConstant,
    /// Floating-point arithmetic, which this library does not perform.
    UnsupportedFloat,
    /// Inline assembly.
    InlineAsm,
    /// An `assume` whose condition was false.
    AssumptionNotHeld,
    /// Four bytes that are not a Unicode scalar value were read as a character.
    InvalidChar(u64),
    /// A constant or static was used before its address was recorded.
    MissingStatic,
    /// No body is known for the function.
    NoMirFor(DefId),
    /// An operator applied to operands it is not defined on.
    InvalidOperands,
    /// Division or remainder by zero.
    DivisionByZero,
    /// Pointers into different allocations were compared for order.
    InvalidPointerMath,
    /// A place with extra data was used where a bare address is needed.
    NotABareAddress,
    /// An index outside the sequence it is applied to.
    IndexOutOfRange { index: u64, length: u64 },
    /// A value, place or type of another shape than the operation needs.
    Malformed,
    /// There is no stack frame.
    EmptyStack,
    /// An `assert` whose condition did not evaluate to what was expected.
    AssertionFailed,
    /// A sum type holds a value that stands for none of its variants.
    InvalidDiscriminant,
    /// A function was called through a pointer of another signature.
    FunctionPointerTyMismatch,
}

impl EvalError {
    /// The family of each error.
    pub open spec fn spec_class(self) -> ErrorClass {
        match self {
            EvalError::DanglingPointerDeref
            | EvalError::InvalidMemoryAccess
            | EvalError::DerefFunctionPointer
            | EvalError::InvalidFunctionPointer
            | EvalError::PointerOutOfBounds { .. }
            | EvalError::ReadPointerAsBytes
            | EvalError::ReadUndefBytes
            | EvalError::ModifiedConstantMemory
            | EvalError::AlignmentCheckFailed { .. }
            | EvalError::InvalidBool => ErrorClass::MemoryFault,
            EvalError::OutOfMemory { .. }
            | EvalError::StackFrameLimitReached
            | EvalError::ExecutionTimeLimitReached => ErrorClass::ResourceExhausted,
            EvalError::UnimplementedIntrinsic(_)
            | EvalError::UnsupportedStatement
            | EvalError::UnsupportedTerminator
            | EvalError::UnsupportedLayout
            | EvalError::UnsupportedType
            | EvalError::UnsupportedConstant
            | EvalError::UnsupportedFloat
            | EvalError::InlineAsm => ErrorClass::UnsupportedOperation,
            EvalError::AssumptionNotHeld
            | EvalError::InvalidChar(_)
            | EvalError::MissingStatic
            | EvalError::NoMirFor(_)
            | EvalError::InvalidOperands
            | EvalError::DivisionByZero
            | EvalError::InvalidPointerMath
            | EvalError::NotABareAddress
            | EvalError::IndexOutOfRange { .. }
            | EvalError::Malformed
            | EvalError::EmptyStack
            | EvalError::AssertionFailed
            | EvalError::InvalidDiscriminant
            | EvalError::FunctionPointerTyMismatch => ErrorClass::InvalidProgramState,
        }
    }

    /// Computes [`EvalError::spec_class`].
    pub fn class(&self) -> (r: ErrorClass)
        ensures
            r == self.spec_class(),
    {
        match self {
            EvalError::DanglingPointerDeref
            | EvalError::InvalidMemoryAccess
            | EvalError::DerefFunctionPointer
            | EvalError::InvalidFunctionPointer
            | EvalError::PointerOutOfBounds { .. }
            | EvalError::ReadPointerAsBytes
            | EvalError::ReadUndefBytes
            | EvalError::ModifiedConstantMemory
            | EvalError::AlignmentCheckFailed { .. }
            | EvalError::InvalidBool => ErrorClass::MemoryFault,
            EvalError::OutOfMemory { .. }
            | EvalError::StackFrameLimitReached
            | EvalError::ExecutionTimeLimitReached => ErrorClass::ResourceExhausted,
            EvalError::UnimplementedIntrinsic(_)
            | EvalError::UnsupportedStatement
            | EvalError::UnsupportedTerminator
            | EvalError::UnsupportedLayout
            | EvalError::UnsupportedType
            | EvalError::UnsupportedConstant
            | EvalError::UnsupportedFloat
            | EvalError::InlineAsm => ErrorClass::UnsupportedOperation,
            EvalError::AssumptionNotHeld
            | EvalError::InvalidChar(_)
            | EvalError::MissingStatic
            | EvalError::NoMirFor(_)
            | EvalError::InvalidOperands
            | EvalError::DivisionByZero
            | EvalError::InvalidPointerMath
            | EvalError::NotABareAddress
            | EvalError::IndexOutOfRange { .. }
            | EvalError::Malformed
            | EvalError::EmptyStack
            | EvalError::AssertionFailed
            | EvalError::InvalidDiscriminant
            | EvalError::FunctionPointerTyMismatch => ErrorClass::InvalidProgramState,
        }
    }
}

/// What every fallible operation of the interpreter returns.
pub type EvalResult<T> = Result<T, EvalError>;

} // verus!
