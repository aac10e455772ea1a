//! The three shapes a computed value can have.
use vstd::prelude::*;
use crate::error::EvalError;
use crate::memory::{Memory, MemoryModel, Pointer};
use crate::primval::PrimVal;

verus! {

/// A computed value: the address where the full representation lies, one
/// machine word, or a pair of words (a fat pointer, or a result together
/// with its overflow flag).
#[derive(Clone, Copy, Debug, PartialEq, Eq, Structural)]
pub enum Value {
    ByRef(Pointer),
    ByVal(PrimVal),
    ByValPair(PrimVal, PrimVal),
}

impl Value {
    /// The address that a pointer value holds: read from memory for a value
    /// by reference, the first word otherwise.
    pub open spec fn spec_read_ptr(self, mem: MemoryModel) -> Result<Pointer, EvalError> {
        match self {
            Value::ByRef(p) => mem.read_ptr(p),
            Value::ByVal(PrimVal::Ptr(p)) => Ok(p),
            Value::ByVal(PrimVal::FnPtr(p)) => Ok(p),
            Value::ByValPair(PrimVal::Ptr(p), _) => Ok(p),
            _ => Err(EvalError::Malformed),
        }
    }

    /// The address that a pointer value holds: read from memory for a value
    /// by reference, the first word otherwise.
    pub fn read_ptr(&self, mem: &Memory) -> (r: Result<Pointer, EvalError>)
        ensures
            r == self.spec_read_ptr(mem@),
    {
        match self {
            Value::ByRef(p) => mem.read_ptr(*p),
            Value::ByVal(PrimVal::Ptr(p)) => Ok(*p),
            Value::ByVal(PrimVal::FnPtr(p)) => Ok(*p),
            Value::ByValPair(PrimVal::Ptr(p), _) => Ok(*p),
            _ => Err(EvalError::Malformed),
        }
    }

    /// The dispatch table of a trait-object pointer: its second word.
    pub open spec fn spec_expect_vtable(self, mem: MemoryModel) -> Result<Pointer, EvalError> {
        match self {
            Value::ByRef(p) => mem.read_ptr(p.spec_offset(mem.pointer_size() as i64)),
            Value::ByValPair(_, PrimVal::Ptr(vtable)) => Ok(vtable),
            _ => Err(EvalError::Malformed),
        }
    }

    /// The dispatch table of a trait-object pointer: its second word.
    pub fn expect_vtable(&self, mem: &Memory) -> (r: Result<Pointer, EvalError>)
        ensures
            r == self.spec_expect_vtable(mem@),
    {
        match self {
            Value::ByRef(p) => mem.read_ptr(p.offset(mem.pointer_size() as i64)),
            Value::ByValPair(_, PrimVal::Ptr(vtable)) => Ok(*vtable),
            _ => Err(EvalError::Malformed),
        }
    }

    /// The element count of a slice pointer: its second word.
    pub open spec fn spec_expect_slice_len(self, mem: MemoryModel) -> Result<u64, EvalError> {
        match self {
            Value::ByRef(p) => mem.read_usize(p.spec_offset(mem.pointer_size() as i64)),
            Value::ByValPair(_, val) => val.spec_expect_uint(),
            _ => Err(EvalError::Malformed),
        }
    }

    /// The element count of a slice pointer: its second word.
    pub fn expect_slice_len(&self, mem: &Memory) -> (r: Result<u64, EvalError>)
        ensures
            r == self.spec_expect_slice_len(mem@),
    {
        match self {
            Value::ByRef(p) => mem.read_usize(p.offset(mem.pointer_size() as i64)),
            Value::ByValPair(_, val) => val.expect_uint(),
            _ => Err(EvalError::Malformed),
        }
    }
}

} // verus!
