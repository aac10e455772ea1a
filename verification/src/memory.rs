//! The simulated memory: a table of allocations, each a run of cells.
//!
//! A cell is undefined, a plain byte, or one byte of a stored pointer together
//! with the allocation that pointer leads into. An allocation can be frozen,
//! after which every write to it is refused. Allocations 0 and 1 are set
//! aside: 0 stands for all zero-sized values, 1 for addresses that are plain
//! integers.
//!
//! What each operation does is defined on [`MemoryModel`], the mathematical
//! picture of a [`Memory`]; the executable operations are proved against it.
use vstd::prelude::*;
use crate::bytes::{
    bits_to_int, decode_uint, encode_uint, int_to_bits, is_int_size, le_bytes, le_value,
    lemma_le_bytes_len, lemma_le_value_bound, lemma_pow256_values, pow256, to_signed, to_unsigned,
};
use crate::error::EvalError;
use crate::primval::PrimVal;
use crate::ty::{DefId, FnTy, PointerWidth, Substs};

verus! {

/// Names an allocation.
#[derive(Clone, Copy, Debug, PartialEq, Eq, Structural, Hash)]
pub struct AllocId(pub u64);

/// The allocation that every zero-sized value lives in.
pub const ZST_ALLOC_ID: u64 = 0;

/// The allocation that integer addresses are said to point into.
pub const NEVER_ALLOC_ID: u64 = 1;

/// An address: an allocation and a byte offset into it.
#[derive(Clone, Copy, Debug, PartialEq, Eq, Structural, Hash)]
pub struct Pointer {
    pub alloc_id: AllocId,
    pub offset: u64,
}

/// `v` reduced into the range of `u64`, for `v` within one wrap of it.
pub open spec fn wrap_u64(v: int) -> u64 {
    if v < 0 {
        (v + 0x1_0000_0000_0000_0000) as u64
    } else if v >= 0x1_0000_0000_0000_0000 {
        (v - 0x1_0000_0000_0000_0000) as u64
    } else {
        v as u64
    }
}

impl Pointer {
    /// The address `i` bytes further on, wrapping at the ends of the range.
    pub open spec fn spec_offset(self, i: i64) -> Pointer {
        Pointer { alloc_id: self.alloc_id, offset: wrap_u64(self.offset + i) }
    }

    /// The address `i` bytes further on, wrapping at the ends of the range.
    #[verifier::when_used_as_spec(spec_offset)]
    pub fn offset(self, i: i64) -> (r: Pointer)
        ensures
            r == self.spec_offset(i),
    {
        let offset: u64 = if i >= 0 {
            let d: u64 = i as u64;
            if self.offset <= u64::MAX - d {
                self.offset + d
            } else {
                self.offset - (u64::MAX - d) - 1
            }
        } else {
            let d: u64 = ((-(i + 1)) as u64) + 1;
            if self.offset >= d {
                self.offset - d
            } else {
                u64::MAX - (d - self.offset) + 1
            }
        };
        Pointer { alloc_id: self.alloc_id, offset }
    }

    /// The address `d` bytes further on, for any distance, wrapping at the
    /// ends of the range.
    pub open spec fn spec_displace(self, d: int) -> Pointer {
        Pointer {
            alloc_id: self.alloc_id,
            offset: ((self.offset + d) % 0x1_0000_0000_0000_0000) as u64,
        }
    }

    /// The address `d` bytes further on.
    pub fn offset_by(self, d: u64) -> (r: Pointer)
        ensures
            r == self.spec_displace(d as int),
    {
        let sum: u128 = self.offset as u128 + d as u128;
        Pointer { alloc_id: self.alloc_id, offset: (sum % 0x1_0000_0000_0000_0000) as u64 }
    }

    /// The address of element `index` of a sequence of elements of `size`
    /// bytes that starts here.
    pub fn scaled(self, index: i128, size: u64) -> (r: Pointer)
        requires
            -0x1_0000_0000_0000_0000 < index < 0x1_0000_0000_0000_0000,
        ensures
            r == self.spec_displace(index * size),
    {
        let a: u64 = if index >= 0 {
            index as u64
        } else {
            (index + 0x1_0000_0000_0000_0000) as u64
        };
        assert(0 <= (a as u128) * (size as u128) <= 0xffff_ffff_ffff_ffff * 0xffff_ffff_ffff_ffff)
            by (nonlinear_arith)
            requires
                0 <= a <= 0xffff_ffff_ffff_ffff,
                0 <= size <= 0xffff_ffff_ffff_ffff,
        ;
        let prod: u128 = (a as u128) * (size as u128);
        let d: u64 = (prod % 0x1_0000_0000_0000_0000) as u64;
        let sum: u128 = self.offset as u128 + d as u128;
        proof {
            let m: int = 0x1_0000_0000_0000_0000;
            let k: int = if index >= 0 { 0 } else { 1 };
            assert(a as int == index as int + k * m);
            vstd::arithmetic::div_mod::lemma_mod_multiples_vanish(k, index as int, m);
            vstd::arithmetic::div_mod::lemma_small_mod(a as nat, m as nat);
            assert(a as int == (index as int) % m);
            vstd::arithmetic::div_mod::lemma_mul_mod_noop_left(index as int, size as int, m);
            assert(d as int == (index * size) % m);
            vstd::arithmetic::div_mod::lemma_add_mod_noop_right(self.offset as int, index * size, m);
        }
        Pointer { alloc_id: self.alloc_id, offset: (sum % 0x1_0000_0000_0000_0000) as u64 }
    }

    /// The address that is the plain integer `n`.
    pub open spec fn spec_from_int(n: u64) -> Pointer {
        Pointer { alloc_id: AllocId(NEVER_ALLOC_ID), offset: n }
    }

    /// The address that is the plain integer `n`.
    #[verifier::when_used_as_spec(spec_from_int)]
    pub fn from_int(n: u64) -> (r: Pointer)
        ensures
            r == Pointer::spec_from_int(n),
    {
        Pointer { alloc_id: AllocId(NEVER_ALLOC_ID), offset: n }
    }

    /// The integer that an integer address stands for.
    pub open spec fn spec_to_int(self) -> Result<u64, EvalError> {
        if self.alloc_id.0 == NEVER_ALLOC_ID {
            Ok(self.offset)
        } else {
            Err(EvalError::ReadPointerAsBytes)
        }
    }

    /// The integer that an integer address stands for.
    pub fn to_int(self) -> (r: Result<u64, EvalError>)
        ensures
            r == self.spec_to_int(),
    {
        if self.alloc_id.0 == NEVER_ALLOC_ID {
            Ok(self.offset)
        } else {
            Err(EvalError::ReadPointerAsBytes)
        }
    }

    /// The address of every zero-sized value.
    pub open spec fn spec_zst_ptr() -> Pointer {
        Pointer { alloc_id: AllocId(ZST_ALLOC_ID), offset: 0 }
    }

    /// The address of every zero-sized value.
    #[verifier::when_used_as_spec(spec_zst_ptr)]
    pub fn zst_ptr() -> (r: Pointer)
        ensures
            r == Pointer::spec_zst_ptr(),
    {
        Pointer { alloc_id: AllocId(ZST_ALLOC_ID), offset: 0 }
    }

    /// Whether this is an address in the allocation of zero-sized values.
    pub open spec fn spec_points_to_zst(self) -> bool {
        self.alloc_id.0 == ZST_ALLOC_ID
    }

    /// Whether this is an address in the allocation of zero-sized values.
    #[verifier::when_used_as_spec(spec_points_to_zst)]
    pub fn points_to_zst(self) -> (r: bool)
        ensures
            r == self.spec_points_to_zst(),
    {
        self.alloc_id.0 == ZST_ALLOC_ID
    }
}

/// One cell of memory.
#[derive(Clone, Copy, Debug, PartialEq, Eq, Structural)]
pub enum Byte {
    /// Never written, or marked undefined.
    Undef,
    /// A plain byte.
    Raw(u8),
    /// One byte of the offset of a stored pointer into the given allocation.
    Ptr(u8, AllocId),
}

impl Byte {
    /// The byte held, 0 for an undefined cell.
    pub open spec fn spec_value(self) -> u8 {
        match self {
            Byte::Undef => 0,
            Byte::Raw(b) => b,
            Byte::Ptr(b, _) => b,
        }
    }

    /// The allocation that the pointer this cell belongs to leads into.
    pub open spec fn spec_target(self) -> Option<AllocId> {
        match self {
            Byte::Ptr(_, id) => Some(id),
            _ => None,
        }
    }

    /// The allocation that the pointer this cell belongs to leads into.
    #[verifier::when_used_as_spec(spec_target)]
    pub fn target(self) -> (r: Option<AllocId>)
        ensures
            r == self.spec_target(),
    {
        match self {
            Byte::Ptr(_, id) => Some(id),
            _ => None,
        }
    }

    /// The byte held, 0 for an undefined cell.
    #[verifier::when_used_as_spec(spec_value)]
    pub fn value(self) -> (r: u8)
        ensures
            r == self.spec_value(),
    {
        match self {
            Byte::Undef => 0,
            Byte::Raw(b) => b,
            Byte::Ptr(b, _) => b,
        }
    }
}

/// The function that a function pointer leads to.
#[derive(Clone, Copy, Debug, PartialEq, Eq, Structural, Hash)]
pub struct FunctionDefinition {
    pub def_id: DefId,
    pub substs: Substs,
    pub fn_ty: FnTy,
}

/// What an allocation is for.
#[derive(Clone, Copy, Debug, PartialEq, Eq, Structural)]
pub enum AllocKind {
    /// Bytes that can be read and written.
    Data,
    /// The target of pointers to one function; it holds no bytes.
    Function(FunctionDefinition),
    /// One of the two allocations that are set aside.
    Reserved,
}

/// One allocation.
pub struct Allocation {
    bytes: Vec<Byte>,
    align: u64,
    frozen: bool,
    kind: AllocKind,
}

/// The mathematical picture of an [`Allocation`].
pub struct AllocModel {
    pub cells: Seq<Byte>,
    pub align: u64,
    pub frozen: bool,
    pub kind: AllocKind,
}

impl View for Allocation {
    type V = AllocModel;

    closed spec fn view(&self) -> AllocModel {
        AllocModel { cells: self.bytes@, align: self.align, frozen: self.frozen, kind: self.kind }
    }
}

/// The memory of one evaluation.
pub struct Memory {
    allocs: Vec<Allocation>,
    usage: u64,
    limit: u64,
    pointer_width: PointerWidth,
}

/// The mathematical picture of a [`Memory`].
pub struct MemoryModel {
    /// The allocations, by identifier.
    pub allocs: Seq<AllocModel>,
    /// The bytes allocated so far.
    pub usage: u64,
    /// The most bytes that may be allocated.
    pub limit: u64,
    pub pointer_width: PointerWidth,
}

impl View for Memory {
    type V = MemoryModel;

    closed spec fn view(&self) -> MemoryModel {
        MemoryModel {
            allocs: Seq::new(self.allocs@.len(), |i: int| self.allocs@[i]@),
            usage: self.usage,
            limit: self.limit,
            pointer_width: self.pointer_width,
        }
    }
}

/// `old` with the cells from `at` on replaced by `new`.
pub open spec fn splice(old: Seq<Byte>, at: int, new: Seq<Byte>) -> Seq<Byte> {
    Seq::new(
        old.len(),
        |i: int|
            if at <= i < at + new.len() {
                new[i - at]
            } else {
                old[i]
            },
    )
}

/// Whether some cell belongs to a stored pointer.
pub open spec fn has_ptr(cells: Seq<Byte>) -> bool {
    exists|i: int| 0 <= i < cells.len() && #[trigger] cells[i] is Ptr
}

/// Whether some cell is undefined.
pub open spec fn has_undef(cells: Seq<Byte>) -> bool {
    exists|i: int| 0 <= i < cells.len() && #[trigger] cells[i] is Undef
}

/// The byte held by each cell.
pub open spec fn raw_values(cells: Seq<Byte>) -> Seq<u8> {
    Seq::new(cells.len(), |i: int| cells[i].spec_value())
}

/// Plain cells holding `bytes`.
pub open spec fn raw_cells(bytes: Seq<u8>) -> Seq<Byte> {
    Seq::new(bytes.len(), |i: int| Byte::Raw(bytes[i]))
}

/// Reads cells as plain data: every one must be a plain byte.
pub open spec fn plain_bytes(cells: Seq<Byte>) -> Result<Seq<u8>, EvalError> {
    if has_ptr(cells) {
        Err(EvalError::ReadPointerAsBytes)
    } else if has_undef(cells) {
        Err(EvalError::ReadUndefBytes)
    } else {
        Ok(raw_values(cells))
    }
}

/// Whether every cell is a byte of a pointer into `id`.
pub open spec fn all_ptr_into(cells: Seq<Byte>, id: AllocId) -> bool {
    forall|i: int| 0 <= i < cells.len() ==> (#[trigger] cells[i]).spec_target() == Some(id)
}

/// Reads cells as an address. Plain bytes give an integer address, the bytes
/// of one stored pointer give that pointer, and any mixture is refused.
pub open spec fn decode_ptr(cells: Seq<Byte>) -> Result<Pointer, EvalError> {
    if has_undef(cells) {
        Err(EvalError::ReadUndefBytes)
    } else if !has_ptr(cells) {
        Ok(Pointer::spec_from_int(le_value(raw_values(cells)) as u64))
    } else {
        match cells[0].spec_target() {
            Some(id) => if all_ptr_into(cells, id) {
                Ok(Pointer { alloc_id: id, offset: le_value(raw_values(cells)) as u64 })
            } else {
                Err(EvalError::ReadPointerAsBytes)
            },
            None => Err(EvalError::ReadPointerAsBytes),
        }
    }
}

/// The cells that store the address `p` in `size` bytes.
pub open spec fn ptr_cells(p: Pointer, size: u64) -> Seq<Byte> {
    let bytes = le_bytes(p.offset as nat, size as nat);
    if p.alloc_id.0 == NEVER_ALLOC_ID {
        raw_cells(bytes)
    } else {
        Seq::new(size as nat, |i: int| Byte::Ptr(bytes[i], p.alloc_id))
    }
}

/// The alignment rule: the allocation must be aligned as asked, and so must
/// the offset. An alignment of 0 or 1 asks nothing.
pub open spec fn check_align(a: AllocModel, offset: u64, align: u64) -> Result<(), EvalError> {
    if align <= 1 {
        Ok(())
    } else if a.align < align {
        Err(EvalError::AlignmentCheckFailed { required: align, has: a.align })
    } else if offset % align != 0 {
        Err(EvalError::AlignmentCheckFailed { required: align, has: offset % align })
    } else {
        Ok(())
    }
}

/// The bounds rule: the access must end inside the allocation.
pub open spec fn check_bounds(a: AllocModel, ptr: Pointer, size: u64) -> Result<(), EvalError> {
    if ptr.offset + size > a.cells.len() {
        Err(
            EvalError::PointerOutOfBounds {
                ptr,
                size,
                allocation_size: a.cells.len() as u64,
            },
        )
    } else {
        Ok(())
    }
}

/// What a memory operation that returns nothing must do: on success leave
/// the memory that the model gives, on failure report the model's error and
/// leave the memory as it was.
pub open spec fn updates(
    pre: MemoryModel,
    expected: Result<MemoryModel, EvalError>,
    r: Result<(), EvalError>,
    post: MemoryModel,
) -> bool {
    match expected {
        Ok(m) => r == Ok::<(), EvalError>(()) && post == m,
        Err(e) => r == Err::<(), EvalError>(e) && post == pre,
    }
}

impl MemoryModel {
    /// Whether every allocation is small enough for its offsets to be
    /// 64-bit numbers. The picture of every [`Memory`] is.
    pub open spec fn wf(self) -> bool {
        forall|i: int| 0 <= i < self.allocs.len() ==> (#[trigger] self.allocs[i]).cells.len() <= u64::MAX
    }

    /// An empty memory: only the two allocations that are set aside.
    pub open spec fn spec_new(pointer_width: PointerWidth, limit: u64) -> MemoryModel {
        let reserved = AllocModel {
            cells: Seq::empty(),
            align: 1,
            frozen: false,
            kind: AllocKind::Reserved,
        };
        MemoryModel { allocs: seq![reserved, reserved], usage: 0, limit, pointer_width }
    }

    /// The number of bytes an address takes.
    pub open spec fn pointer_size(self) -> u64 {
        self.pointer_width.spec_bytes()
    }

    /// The data allocation that a non-empty access through `id` reaches.
    pub open spec fn lookup(self, id: AllocId) -> Result<AllocModel, EvalError> {
        if id.0 >= self.allocs.len() {
            Err(EvalError::DanglingPointerDeref)
        } else {
            match self.allocs[id.0 as int].kind {
                AllocKind::Data => Ok(self.allocs[id.0 as int]),
                AllocKind::Function(_) => Err(EvalError::DerefFunctionPointer),
                AllocKind::Reserved => Err(EvalError::InvalidMemoryAccess),
            }
        }
    }

    /// This memory with the cells of allocation `id` replaced.
    pub open spec fn with_cells(self, id: AllocId, cells: Seq<Byte>) -> MemoryModel {
        MemoryModel {
            allocs: self.allocs.update(
                id.0 as int,
                AllocModel { cells, ..self.allocs[id.0 as int] },
            ),
            ..self
        }
    }

    /// A new allocation of `size` undefined bytes. A request for no bytes
    /// allocates nothing and yields the zero-sized address.
    pub open spec fn allocate(self, size: u64, align: u64) -> Result<(Pointer, MemoryModel), EvalError> {
        if size == 0 {
            Ok((Pointer::spec_zst_ptr(), self))
        } else if self.usage > self.limit || self.limit - self.usage < size {
            Err(
                EvalError::OutOfMemory {
                    allocation_size: size,
                    memory_size: self.limit,
                    memory_usage: self.usage,
                },
            )
        } else {
            Ok(
                (
                    Pointer { alloc_id: AllocId(self.allocs.len() as u64), offset: 0 },
                    MemoryModel {
                        allocs: self.allocs.push(
                            AllocModel {
                                cells: Seq::new(size as nat, |i: int| Byte::Undef),
                                align,
                                frozen: false,
                                kind: AllocKind::Data,
                            },
                        ),
                        usage: (self.usage + size) as u64,
                        ..self
                    },
                ),
            )
        }
    }

    /// The cells of an access of `size` bytes at `ptr`. An access of no bytes
    /// succeeds anywhere.
    pub open spec fn read_cells(self, ptr: Pointer, size: u64, align: u64) -> Result<Seq<Byte>, EvalError> {
        if size == 0 {
            Ok(Seq::empty())
        } else {
            match self.lookup(ptr.alloc_id) {
                Err(e) => Err(e),
                Ok(a) => match check_bounds(a, ptr, size) {
                    Err(e) => Err(e),
                    Ok(_) => match check_align(a, ptr.offset, align) {
                        Err(e) => Err(e),
                        Ok(_) => Ok(a.cells.subrange(ptr.offset as int, ptr.offset + size)),
                    },
                },
            }
        }
    }

    /// Whether cells may be written at `ptr`: the allocation must hold data,
    /// must not be frozen, and the access must be in bounds and aligned.
    pub open spec fn check_write(self, ptr: Pointer, size: u64, align: u64) -> Result<(), EvalError> {
        match self.lookup(ptr.alloc_id) {
            Err(e) => Err(e),
            Ok(a) => if a.frozen {
                Err(EvalError::ModifiedConstantMemory)
            } else {
                match check_bounds(a, ptr, size) {
                    Err(e) => Err(e),
                    Ok(_) => check_align(a, ptr.offset, align),
                }
            },
        }
    }

    /// The memory after `cells` are stored at `ptr`. Storing no cells
    /// succeeds anywhere and changes nothing.
    pub open spec fn write_cells(
        self,
        ptr: Pointer,
        cells: Seq<Byte>,
        align: u64,
    ) -> Result<MemoryModel, EvalError> {
        if cells.len() == 0 {
            Ok(self)
        } else {
            match self.check_write(ptr, cells.len() as u64, align) {
                Err(e) => Err(e),
                Ok(_) => Ok(
                    self.with_cells(
                        ptr.alloc_id,
                        splice(self.allocs[ptr.alloc_id.0 as int].cells, ptr.offset as int, cells),
                    ),
                ),
            }
        }
    }

    /// Reads `size` plain bytes.
    pub open spec fn read_bytes(self, ptr: Pointer, size: u64) -> Result<Seq<u8>, EvalError> {
        match self.read_cells(ptr, size, 1) {
            Err(e) => Err(e),
            Ok(cells) => plain_bytes(cells),
        }
    }

    /// Stores plain bytes.
    pub open spec fn write_bytes(self, ptr: Pointer, bytes: Seq<u8>) -> Result<MemoryModel, EvalError> {
        self.write_cells(ptr, raw_cells(bytes), 1)
    }

    /// Stores `count` copies of one byte.
    pub open spec fn write_repeat(self, ptr: Pointer, val: u8, count: u64) -> Result<MemoryModel, EvalError> {
        self.write_cells(ptr, Seq::new(count as nat, |i: int| Byte::Raw(val)), 1)
    }

    /// Reads an unsigned integer of `size` bytes, aligned to its size.
    pub open spec fn read_uint(self, ptr: Pointer, size: u64) -> Result<u64, EvalError> {
        match self.read_cells(ptr, size, size) {
            Err(e) => Err(e),
            Ok(cells) => match plain_bytes(cells) {
                Err(e) => Err(e),
                Ok(bytes) => Ok(le_value(bytes) as u64),
            },
        }
    }

    /// Stores the `size` low bytes of `v`, aligned to the size.
    pub open spec fn write_uint(self, ptr: Pointer, v: u64, size: u64) -> Result<MemoryModel, EvalError> {
        self.write_cells(ptr, raw_cells(le_bytes(v as nat, size as nat)), size)
    }

    /// Reads a signed integer of `size` bytes.
    pub open spec fn read_int(self, ptr: Pointer, size: u64) -> Result<i64, EvalError> {
        match self.read_uint(ptr, size) {
            Err(e) => Err(e),
            Ok(u) => Ok(to_signed(u as nat, size as nat) as i64),
        }
    }

    /// Stores `v` in `size` bytes, two's complement.
    pub open spec fn write_int(self, ptr: Pointer, v: i64, size: u64) -> Result<MemoryModel, EvalError> {
        self.write_uint(ptr, to_unsigned(v as int, size as nat) as u64, size)
    }

    /// Reads a boolean: the byte 0 or 1.
    pub open spec fn read_bool(self, ptr: Pointer) -> Result<bool, EvalError> {
        match self.read_bytes(ptr, 1) {
            Err(e) => Err(e),
            Ok(bytes) => if bytes[0] == 0 {
                Ok(false)
            } else if bytes[0] == 1 {
                Ok(true)
            } else {
                Err(EvalError::InvalidBool)
            },
        }
    }

    /// Stores a boolean as the byte 0 or 1.
    pub open spec fn write_bool(self, ptr: Pointer, b: bool) -> Result<MemoryModel, EvalError> {
        self.write_bytes(ptr, seq![if b { 1u8 } else { 0u8 }])
    }

    /// Reads an address, aligned to the pointer size.
    pub open spec fn read_ptr(self, ptr: Pointer) -> Result<Pointer, EvalError> {
        match self.read_cells(ptr, self.pointer_size(), self.pointer_size()) {
            Err(e) => Err(e),
            Ok(cells) => decode_ptr(cells),
        }
    }

    /// Stores an address.
    pub open spec fn write_ptr(self, dest: Pointer, p: Pointer) -> Result<MemoryModel, EvalError> {
        self.write_cells(dest, ptr_cells(p, self.pointer_size()), self.pointer_size())
    }

    /// Reads an unsigned integer as wide as an address.
    pub open spec fn read_usize(self, ptr: Pointer) -> Result<u64, EvalError> {
        self.read_uint(ptr, self.pointer_size())
    }

    /// Stores an unsigned integer as wide as an address.
    pub open spec fn write_usize(self, ptr: Pointer, n: u64) -> Result<MemoryModel, EvalError> {
        self.write_uint(ptr, n, self.pointer_size())
    }

    /// Stores a signed integer as wide as an address.
    pub open spec fn write_isize(self, ptr: Pointer, n: i64) -> Result<MemoryModel, EvalError> {
        self.write_int(ptr, n, self.pointer_size())
    }

    /// Stores a primitive value in the width of its type. A character takes
    /// four bytes, a floating-point number the bytes of its bit pattern.
    pub open spec fn write_primval(self, dest: Pointer, val: PrimVal) -> Result<MemoryModel, EvalError> {
        match val {
            PrimVal::Bool(b) => self.write_bool(dest, b),
            PrimVal::I8(n) => self.write_int(dest, n as i64, 1),
            PrimVal::I16(n) => self.write_int(dest, n as i64, 2),
            PrimVal::I32(n) => self.write_int(dest, n as i64, 4),
            PrimVal::I64(n) => self.write_int(dest, n, 8),
            PrimVal::U8(n) => self.write_uint(dest, n as u64, 1),
            PrimVal::U16(n) => self.write_uint(dest, n as u64, 2),
            PrimVal::U32(n) => self.write_uint(dest, n as u64, 4),
            PrimVal::U64(n) => self.write_uint(dest, n, 8),
            PrimVal::Char(c) => self.write_uint(dest, c as u64, 4),
            PrimVal::F32(b) => self.write_uint(dest, b as u64, 4),
            PrimVal::F64(b) => self.write_uint(dest, b, 8),
            PrimVal::Ptr(p) => self.write_ptr(dest, p),
            PrimVal::FnPtr(p) => self.write_ptr(dest, p),
        }
    }

    /// Copies `size` cells, with their definedness and what they point
    /// into, from `src` to `dest`. The ranges may overlap.
    pub open spec fn copy(
        self,
        src: Pointer,
        dest: Pointer,
        size: u64,
        align: u64,
    ) -> Result<MemoryModel, EvalError> {
        match self.read_cells(src, size, align) {
            Err(e) => Err(e),
            Ok(cells) => self.write_cells(dest, cells, align),
        }
    }

    /// The cells after their definedness is set: marking undefined forgets
    /// them, marking defined turns undefined cells into zero bytes.
    pub open spec fn marked(cells: Seq<Byte>, defined: bool) -> Seq<Byte> {
        Seq::new(
            cells.len(),
            |i: int|
                if !defined {
                    Byte::Undef
                } else if cells[i] is Undef {
                    Byte::Raw(0)
                } else {
                    cells[i]
                },
        )
    }

    /// Sets the definedness of `size` cells.
    pub open spec fn mark_definedness(
        self,
        ptr: Pointer,
        size: u64,
        defined: bool,
    ) -> Result<MemoryModel, EvalError> {
        match self.read_cells(ptr, size, 1) {
            Err(e) => Err(e),
            Ok(cells) => self.write_cells(ptr, Self::marked(cells, defined), 1),
        }
    }

    /// The memory after allocation `id` is frozen. The zero-sized allocation
    /// is never frozen; freezing a frozen allocation changes nothing.
    pub open spec fn freeze(self, id: AllocId) -> Result<MemoryModel, EvalError> {
        if id.0 == ZST_ALLOC_ID {
            Ok(self)
        } else if id.0 >= self.allocs.len() || !(self.allocs[id.0 as int].kind is Data) {
            Err(EvalError::DanglingPointerDeref)
        } else {
            Ok(
                MemoryModel {
                    allocs: self.allocs.update(
                        id.0 as int,
                        AllocModel { frozen: true, ..self.allocs[id.0 as int] },
                    ),
                    ..self
                },
            )
        }
    }

    /// The first allocation from `from` on that stands for the function `f`.
    pub open spec fn find_fn(self, f: FunctionDefinition, from: int) -> Option<int>
        decreases self.allocs.len() - from,
    {
        if from < 0 || from >= self.allocs.len() {
            None
        } else if self.allocs[from].kind == AllocKind::Function(f) {
            Some(from)
        } else {
            self.find_fn(f, from + 1)
        }
    }

    /// The address of the function `f`. Each function has one allocation,
    /// made when its address is first asked for.
    pub open spec fn create_fn_ptr(self, f: FunctionDefinition) -> (Pointer, MemoryModel) {
        match self.find_fn(f, 0) {
            Some(i) => (Pointer { alloc_id: AllocId(i as u64), offset: 0 }, self),
            None => (
                Pointer { alloc_id: AllocId(self.allocs.len() as u64), offset: 0 },
                MemoryModel {
                    allocs: self.allocs.push(
                        AllocModel {
                            cells: Seq::empty(),
                            align: 1,
                            frozen: true,
                            kind: AllocKind::Function(f),
                        },
                    ),
                    ..self
                },
            ),
        }
    }

    /// The function that allocation `id` stands for.
    pub open spec fn get_fn(self, id: AllocId) -> Result<FunctionDefinition, EvalError> {
        if id.0 >= self.allocs.len() {
            Err(EvalError::InvalidFunctionPointer)
        } else {
            match self.allocs[id.0 as int].kind {
                AllocKind::Function(f) => Ok(f),
                _ => Err(EvalError::InvalidFunctionPointer),
            }
        }
    }
}

/// What an operation that returns a collection must return: a value whose
/// view is the expected one, or the expected error.
pub open spec fn yields<T: View>(r: Result<T, EvalError>, expected: Result<T::V, EvalError>) -> bool {
    match expected {
        Ok(v) => r matches Ok(x) && x@ == v,
        Err(e) => r matches Err(x) && x == e,
    }
}

/// Applies the alignment rule.
fn check_align_of(alloc_align: u64, offset: u64, align: u64) -> (r: Result<(), EvalError>)
    ensures
        forall|a: AllocModel| a.align == alloc_align ==> r == #[trigger] check_align(a, offset, align),
{
    if align <= 1 {
        Ok(())
    } else if alloc_align < align {
        Err(EvalError::AlignmentCheckFailed { required: align, has: alloc_align })
    } else if offset % align != 0 {
        Err(EvalError::AlignmentCheckFailed { required: align, has: offset % align })
    } else {
        Ok(())
    }
}

/// Computes [`raw_cells`].
pub fn raw_cells_of(bytes: &[u8]) -> (out: Vec<Byte>)
    ensures
        out@ == raw_cells(bytes@),
{
    let mut out: Vec<Byte> = Vec::new();
    let mut i: usize = 0;
    while i < bytes.len()
        invariant
            i <= bytes@.len(),
            out@.len() == i,
            forall|k: int| 0 <= k < i ==> out@[k] == Byte::Raw(bytes@[k]),
        decreases bytes@.len() - i,
    {
        out.push(Byte::Raw(bytes[i]));
        i += 1;
    }
    assert(out@ =~= raw_cells(bytes@));
    out
}

/// Computes [`plain_bytes`].
pub fn plain_bytes_of(cells: &Vec<Byte>) -> (r: Result<Vec<u8>, EvalError>)
    ensures
        yields(r, plain_bytes(cells@)),
{
    let mut out: Vec<u8> = Vec::new();
    let mut saw_ptr = false;
    let mut saw_undef = false;
    let mut i: usize = 0;
    while i < cells.len()
        invariant
            i <= cells@.len(),
            out@.len() == i,
            forall|k: int| 0 <= k < i ==> out@[k] == cells@[k].spec_value(),
            saw_ptr <==> has_ptr(cells@.subrange(0, i as int)),
            saw_undef <==> has_undef(cells@.subrange(0, i as int)),
        decreases cells@.len() - i,
    {
        let c = cells[i];
        proof {
            let before = cells@.subrange(0, i as int);
            let after = cells@.subrange(0, i + 1);
            assert(after[i as int] == c);
            assert forall|k: int| 0 <= k < i implies before[k] == after[k] by {}
            if has_ptr(before) {
                let w = choose|k: int| 0 <= k < before.len() && #[trigger] before[k] is Ptr;
                assert(after[w] is Ptr);
            }
            if has_undef(before) {
                let w = choose|k: int| 0 <= k < before.len() && #[trigger] before[k] is Undef;
                assert(after[w] is Undef);
            }
            if has_ptr(after) && !(c is Ptr) {
                let w = choose|k: int| 0 <= k < after.len() && #[trigger] after[k] is Ptr;
                assert(before[w] is Ptr);
            }
            if has_undef(after) && !(c is Undef) {
                let w = choose|k: int| 0 <= k < after.len() && #[trigger] after[k] is Undef;
                assert(before[w] is Undef);
            }
        }
        match c {
            Byte::Ptr(_, _) => {
                saw_ptr = true;
            },
            Byte::Undef => {
                saw_undef = true;
            },
            Byte::Raw(_) => {},
        }
        out.push(c.value());
        i += 1;
    }
    proof {
        assert(cells@.subrange(0, i as int) =~= cells@);
        assert(out@ =~= raw_values(cells@));
    }
    if saw_ptr {
        Err(EvalError::ReadPointerAsBytes)
    } else if saw_undef {
        Err(EvalError::ReadUndefBytes)
    } else {
        Ok(out)
    }
}

/// Computes [`decode_ptr`] for at most eight cells.
pub fn decode_ptr_of(cells: &Vec<Byte>) -> (r: Result<Pointer, EvalError>)
    requires
        cells@.len() <= 8,
    ensures
        r == decode_ptr(cells@),
{
    let mut out: Vec<u8> = Vec::new();
    let mut saw_ptr = false;
    let mut saw_undef = false;
    let mut same = true;
    let first: Option<AllocId> = if cells.len() > 0 {
        cells[0].target()
    } else {
        None
    };
    let mut i: usize = 0;
    while i < cells.len()
        invariant
            i <= cells@.len(),
            out@.len() == i,
            forall|k: int| 0 <= k < i ==> out@[k] == cells@[k].spec_value(),
            saw_ptr <==> has_ptr(cells@.subrange(0, i as int)),
            saw_undef <==> has_undef(cells@.subrange(0, i as int)),
            same <==> forall|k: int| 0 <= k < i ==> (#[trigger] cells@[k]).spec_target() == first,
        decreases cells@.len() - i,
    {
        let c = cells[i];
        proof {
            let before = cells@.subrange(0, i as int);
            let after = cells@.subrange(0, i + 1);
            assert(after[i as int] == c);
            assert forall|k: int| 0 <= k < i implies before[k] == after[k] by {}
            if has_ptr(before) {
                let w = choose|k: int| 0 <= k < before.len() && #[trigger] before[k] is Ptr;
                assert(after[w] is Ptr);
            }
            if has_undef(before) {
                let w = choose|k: int| 0 <= k < before.len() && #[trigger] before[k] is Undef;
                assert(after[w] is Undef);
            }
            if has_ptr(after) && !(c is Ptr) {
                let w = choose|k: int| 0 <= k < after.len() && #[trigger] after[k] is Ptr;
                assert(before[w] is Ptr);
            }
            if has_undef(after) && !(c is Undef) {
                let w = choose|k: int| 0 <= k < after.len() && #[trigger] after[k] is Undef;
                assert(before[w] is Undef);
            }
        }
        match c {
            Byte::Ptr(_, _) => {
                saw_ptr = true;
            },
            Byte::Undef => {
                saw_undef = true;
            },
            Byte::Raw(_) => {},
        }
        if c.target() != first {
            same = false;
        }
        out.push(c.value());
        i += 1;
    }
    proof {
        assert(cells@.subrange(0, i as int) =~= cells@);
        assert(out@ =~= raw_values(cells@));
        lemma_le_value_bound(out@);
        lemma_pow256_values();
        crate::bytes::lemma_pow256_monotonic(out@.len(), 8);
    }
    let n = decode_uint(&out);
    if saw_undef {
        Err(EvalError::ReadUndefBytes)
    } else if !saw_ptr {
        Ok(Pointer::from_int(n))
    } else {
        match first {
            Some(id) => {
                if same {
                    Ok(Pointer { alloc_id: id, offset: n })
                } else {
                    Err(EvalError::ReadPointerAsBytes)
                }
            },
            None => Err(EvalError::ReadPointerAsBytes),
        }
    }
}

/// Computes [`ptr_cells`].
pub fn ptr_cells_of(p: Pointer, size: u64) -> (out: Vec<Byte>)
    requires
        size <= 8,
    ensures
        out@ == ptr_cells(p, size),
{
    let bytes = encode_uint(p.offset, size);
    proof {
        lemma_le_bytes_len(p.offset as nat, size as nat);
    }
    if p.alloc_id.0 == NEVER_ALLOC_ID {
        raw_cells_of(bytes.as_slice())
    } else {
        let mut out: Vec<Byte> = Vec::new();
        let mut i: usize = 0;
        while i < bytes.len()
            invariant
                i <= bytes@.len(),
                bytes@.len() == size,
                out@.len() == i,
                forall|k: int| 0 <= k < i ==> out@[k] == Byte::Ptr(bytes@[k], p.alloc_id),
            decreases bytes@.len() - i,
        {
            out.push(Byte::Ptr(bytes[i], p.alloc_id));
            i += 1;
        }
        assert(out@ =~= ptr_cells(p, size));
        out
    }
}

impl Memory {
    /// The picture of a memory is well formed.
    pub proof fn lemma_view_wf(&self)
        ensures
            self@.wf(),
    {
        assert forall|i: int| 0 <= i < self@.allocs.len() implies (#[trigger] self@.allocs[i]).cells.len()
            <= u64::MAX by {
            let a = self.allocs@[i];
            assert(a.bytes.len() == a.bytes@.len());
        }
    }

    /// An empty memory that may grow to `limit` bytes.
    pub fn new(pointer_width: PointerWidth, limit: u64) -> (m: Memory)
        ensures
            m@ == MemoryModel::spec_new(pointer_width, limit),
    {
        let mut allocs: Vec<Allocation> = Vec::new();
        allocs.push(
            Allocation { bytes: Vec::new(), align: 1, frozen: false, kind: AllocKind::Reserved },
        );
        allocs.push(
            Allocation { bytes: Vec::new(), align: 1, frozen: false, kind: AllocKind::Reserved },
        );
        let m = Memory { allocs, usage: 0, limit, pointer_width };
        proof {
            assert(m@.allocs =~= MemoryModel::spec_new(pointer_width, limit).allocs);
        }
        m
    }

    /// The number of bytes an address takes.
    pub fn pointer_size(&self) -> (r: u64)
        ensures
            r == self@.pointer_size(),
            is_int_size(r),
    {
        self.pointer_width.bytes()
    }

    /// The number of allocations made so far, the two set aside included.
    pub fn allocation_count(&self) -> (r: u64)
        ensures
            r == self@.allocs.len(),
    {
        self.allocs.len() as u64
    }

    /// Whether allocation `id` exists and is frozen.
    pub fn is_frozen(&self, id: AllocId) -> (r: bool)
        ensures
            r == (id.0 < self@.allocs.len() && self@.allocs[id.0 as int].frozen),
    {
        if id.0 < self.allocs.len() as u64 {
            self.allocs[id.0 as usize].frozen
        } else {
            false
        }
    }

    fn lookup(&self, id: AllocId) -> (r: Result<usize, EvalError>)
        ensures
            match self@.lookup(id) {
                Ok(a) => r matches Ok(i) && i == id.0 && i < self.allocs@.len() && self.allocs@[i as int]@
                    == a,
                Err(e) => r == Err::<usize, EvalError>(e),
            },
    {
        if id.0 >= self.allocs.len() as u64 {
            Err(EvalError::DanglingPointerDeref)
        } else {
            let idx: usize = id.0 as usize;
            match self.allocs[idx].kind {
                AllocKind::Data => Ok(idx),
                AllocKind::Function(_) => Err(EvalError::DerefFunctionPointer),
                AllocKind::Reserved => Err(EvalError::InvalidMemoryAccess),
            }
        }
    }

    /// Makes a new allocation of `size` undefined bytes.
    pub fn allocate(&mut self, size: u64, align: u64) -> (r: Result<Pointer, EvalError>)
        ensures
            match old(self)@.allocate(size, align) {
                Ok((p, m)) => r == Ok::<Pointer, EvalError>(p) && final(self)@ == m,
                Err(e) => r == Err::<Pointer, EvalError>(e) && final(self)@ == old(self)@,
            },
    {
        if size == 0 {
            return Ok(Pointer::zst_ptr());
        }
        if self.usage > self.limit || self.limit - self.usage < size {
            return Err(
                EvalError::OutOfMemory {
                    allocation_size: size,
                    memory_size: self.limit,
                    memory_usage: self.usage,
                },
            );
        }
        let mut bytes: Vec<Byte> = Vec::new();
        let mut i: u64 = 0;
        while i < size
            invariant
                i <= size,
                bytes@.len() == i,
                forall|k: int| 0 <= k < i ==> bytes@[k] == Byte::Undef,
            decreases size - i,
        {
            bytes.push(Byte::Undef);
            i += 1;
        }
        let id: u64 = self.allocs.len() as u64;
        self.allocs.push(Allocation { bytes, align, frozen: false, kind: AllocKind::Data });
        self.usage = self.usage + size;
        proof {
            let m = old(self)@.allocate(size, align)->Ok_0.1;
            assert(bytes@ =~= Seq::new(size as nat, |i: int| Byte::Undef));
            assert(self@.allocs =~= m.allocs);
        }
        Ok(Pointer { alloc_id: AllocId(id), offset: 0 })
    }

    /// Reads the cells of an access.
    pub fn read_cells(&self, ptr: Pointer, size: u64, align: u64) -> (r: Result<Vec<Byte>, EvalError>)
        ensures
            yields(r, self@.read_cells(ptr, size, align)),
            r matches Ok(v) ==> v@.len() == size,
    {
        if size == 0 {
            return Ok(Vec::new());
        }
        let idx = self.lookup(ptr.alloc_id)?;
        let a = &self.allocs[idx];
        let len: u64 = a.bytes.len() as u64;
        if size > len || ptr.offset > len - size {
            return Err(EvalError::PointerOutOfBounds { ptr, size, allocation_size: len });
        }
        check_align_of(a.align, ptr.offset, align)?;
        let start: usize = ptr.offset as usize;
        let n: usize = size as usize;
        let mut out: Vec<Byte> = Vec::new();
        let mut j: usize = 0;
        while j < n
            invariant
                j <= n,
                start + n <= a.bytes@.len() <= usize::MAX,
                out@.len() == j,
                forall|k: int| 0 <= k < j ==> out@[k] == a.bytes@[start + k],
            decreases n - j,
        {
            out.push(a.bytes[start + j]);
            j += 1;
        }
        assert(out@ =~= a.bytes@.subrange(start as int, start + n));
        Ok(out)
    }

    /// Stores cells.
    pub fn write_cells(&mut self, ptr: Pointer, cells: &Vec<Byte>, align: u64) -> (r: Result<(), EvalError>)
        ensures
            updates(old(self)@, old(self)@.write_cells(ptr, cells@, align), r, final(self)@),
    {
        if cells.len() == 0 {
            return Ok(());
        }
        let size: u64 = cells.len() as u64;
        let idx = self.lookup(ptr.alloc_id)?;
        if self.allocs[idx].frozen {
            return Err(EvalError::ModifiedConstantMemory);
        }
        let len: u64 = self.allocs[idx].bytes.len() as u64;
        if size > len || ptr.offset > len - size {
            return Err(EvalError::PointerOutOfBounds { ptr, size, allocation_size: len });
        }
        check_align_of(self.allocs[idx].align, ptr.offset, align)?;
        let start: usize = ptr.offset as usize;
        let ghost pre = *self;
        let ghost pre_bytes = self.allocs@[idx as int].bytes@;
        let mut j: usize = 0;
        while j < cells.len()
            invariant
                j <= cells@.len(),
                idx < self.allocs@.len(),
                self.allocs@.len() == pre.allocs@.len(),
                forall|k: int| 0 <= k < self.allocs@.len() && k != idx ==> self.allocs@[k] == pre.allocs@[k],
                self.allocs@[idx as int].align == pre.allocs@[idx as int].align,
                self.allocs@[idx as int].frozen == pre.allocs@[idx as int].frozen,
                self.allocs@[idx as int].kind == pre.allocs@[idx as int].kind,
                self.allocs@[idx as int].bytes@.len() == pre_bytes.len(),
                start + cells@.len() <= pre_bytes.len() <= usize::MAX,
                forall|k: int|
                    0 <= k < pre_bytes.len() ==> self.allocs@[idx as int].bytes@[k] == if start <= k < start
                        + j {
                        cells@[k - start]
                    } else {
                        pre_bytes[k]
                    },
                self.usage == pre.usage,
                self.limit == pre.limit,
                self.pointer_width == pre.pointer_width,
            decreases cells@.len() - j,
        {
            self.allocs[idx].bytes[start + j] = cells[j];
            j += 1;
        }
        proof {
            let m = pre@.write_cells(ptr, cells@, align)->Ok_0;
            assert(self.allocs@[idx as int].bytes@ =~= splice(pre_bytes, start as int, cells@));
            assert(self@.allocs =~= m.allocs);
        }
        Ok(())
    }

    /// Reads plain bytes.
    pub fn read_bytes(&self, ptr: Pointer, size: u64) -> (r: Result<Vec<u8>, EvalError>)
        ensures
            yields(r, self@.read_bytes(ptr, size)),
    {
        let cells = self.read_cells(ptr, size, 1)?;
        plain_bytes_of(&cells)
    }

    /// Stores plain bytes.
    pub fn write_bytes(&mut self, ptr: Pointer, bytes: &[u8]) -> (r: Result<(), EvalError>)
        ensures
            updates(old(self)@, old(self)@.write_bytes(ptr, bytes@), r, final(self)@),
    {
        let cells = raw_cells_of(bytes);
        self.write_cells(ptr, &cells, 1)
    }

    /// Stores `count` copies of the byte `val`.
    pub fn write_repeat(&mut self, ptr: Pointer, val: u8, count: u64) -> (r: Result<(), EvalError>)
        ensures
            updates(old(self)@, old(self)@.write_repeat(ptr, val, count), r, final(self)@),
    {
        let mut cells: Vec<Byte> = Vec::new();
        let mut i: u64 = 0;
        while i < count
            invariant
                i <= count,
                cells@.len() == i,
                forall|k: int| 0 <= k < i ==> cells@[k] == Byte::Raw(val),
            decreases count - i,
        {
            cells.push(Byte::Raw(val));
            i += 1;
        }
        assert(cells@ =~= Seq::new(count as nat, |i: int| Byte::Raw(val)));
        self.write_cells(ptr, &cells, 1)
    }

    /// Reads an unsigned integer of `size` bytes.
    pub fn read_uint(&self, ptr: Pointer, size: u64) -> (r: Result<u64, EvalError>)
        requires
            is_int_size(size),
        ensures
            r == self@.read_uint(ptr, size),
            r matches Ok(v) ==> (v as nat) < pow256(size as nat),
    {
        let cells = self.read_cells(ptr, size, size)?;
        let bytes = plain_bytes_of(&cells)?;
        proof {
            lemma_le_value_bound(bytes@);
            lemma_pow256_values();
        }
        Ok(decode_uint(&bytes))
    }

    /// Stores the `size` low bytes of `v`.
    pub fn write_uint(&mut self, ptr: Pointer, v: u64, size: u64) -> (r: Result<(), EvalError>)
        requires
            is_int_size(size),
        ensures
            updates(old(self)@, old(self)@.write_uint(ptr, v, size), r, final(self)@),
    {
        let bytes = encode_uint(v, size);
        let cells = raw_cells_of(bytes.as_slice());
        self.write_cells(ptr, &cells, size)
    }

    /// Reads a signed integer of `size` bytes.
    pub fn read_int(&self, ptr: Pointer, size: u64) -> (r: Result<i64, EvalError>)
        requires
            is_int_size(size),
        ensures
            r == self@.read_int(ptr, size),
    {
        let u = self.read_uint(ptr, size)?;
        Ok(bits_to_int(u, size))
    }

    /// Stores `v` in `size` bytes, two's complement.
    pub fn write_int(&mut self, ptr: Pointer, v: i64, size: u64) -> (r: Result<(), EvalError>)
        requires
            is_int_size(size),
        ensures
            updates(old(self)@, old(self)@.write_int(ptr, v, size), r, final(self)@),
    {
        let bits = int_to_bits(v, size);
        self.write_uint(ptr, bits, size)
    }

    /// Reads a boolean.
    pub fn read_bool(&self, ptr: Pointer) -> (r: Result<bool, EvalError>)
        ensures
            r == self@.read_bool(ptr),
    {
        let bytes = self.read_bytes(ptr, 1)?;
        assert(bytes@.len() == 1);
        let b: u8 = bytes[0];
        if b == 0 {
            Ok(false)
        } else if b == 1 {
            Ok(true)
        } else {
            Err(EvalError::InvalidBool)
        }
    }

    /// Stores a boolean as the byte 0 or 1.
    pub fn write_bool(&mut self, ptr: Pointer, b: bool) -> (r: Result<(), EvalError>)
        ensures
            updates(old(self)@, old(self)@.write_bool(ptr, b), r, final(self)@),
    {
        let mut bytes: Vec<u8> = Vec::new();
        bytes.push(if b { 1u8 } else { 0u8 });
        assert(bytes@ =~= seq![if b { 1u8 } else { 0u8 }]);
        self.write_bytes(ptr, bytes.as_slice())
    }

    /// Reads an address.
    pub fn read_ptr(&self, ptr: Pointer) -> (r: Result<Pointer, EvalError>)
        ensures
            r == self@.read_ptr(ptr),
    {
        let size = self.pointer_size();
        let cells = self.read_cells(ptr, size, size)?;
        decode_ptr_of(&cells)
    }

    /// Stores an address.
    pub fn write_ptr(&mut self, dest: Pointer, p: Pointer) -> (r: Result<(), EvalError>)
        ensures
            updates(old(self)@, old(self)@.write_ptr(dest, p), r, final(self)@),
    {
        let size = self.pointer_size();
        let cells = ptr_cells_of(p, size);
        self.write_cells(dest, &cells, size)
    }

    /// Reads an unsigned integer as wide as an address.
    pub fn read_usize(&self, ptr: Pointer) -> (r: Result<u64, EvalError>)
        ensures
            r == self@.read_usize(ptr),
    {
        let size = self.pointer_size();
        self.read_uint(ptr, size)
    }

    /// Stores an unsigned integer as wide as an address.
    pub fn write_usize(&mut self, ptr: Pointer, n: u64) -> (r: Result<(), EvalError>)
        ensures
            updates(old(self)@, old(self)@.write_usize(ptr, n), r, final(self)@),
    {
        let size = self.pointer_size();
        self.write_uint(ptr, n, size)
    }

    /// Stores a signed integer as wide as an address.
    pub fn write_isize(&mut self, ptr: Pointer, n: i64) -> (r: Result<(), EvalError>)
        ensures
            updates(old(self)@, old(self)@.write_isize(ptr, n), r, final(self)@),
    {
        let size = self.pointer_size();
        self.write_int(ptr, n, size)
    }

    /// Stores a primitive value.
    pub fn write_primval(&mut self, dest: Pointer, val: PrimVal) -> (r: Result<(), EvalError>)
        ensures
            updates(old(self)@, old(self)@.write_primval(dest, val), r, final(self)@),
    {
        match val {
            PrimVal::Bool(b) => self.write_bool(dest, b),
            PrimVal::I8(n) => self.write_int(dest, n as i64, 1),
            PrimVal::I16(n) => self.write_int(dest, n as i64, 2),
            PrimVal::I32(n) => self.write_int(dest, n as i64, 4),
            PrimVal::I64(n) => self.write_int(dest, n, 8),
            PrimVal::U8(n) => self.write_uint(dest, n as u64, 1),
            PrimVal::U16(n) => self.write_uint(dest, n as u64, 2),
            PrimVal::U32(n) => self.write_uint(dest, n as u64, 4),
            PrimVal::U64(n) => self.write_uint(dest, n, 8),
            PrimVal::Char(c) => self.write_uint(dest, c as u32 as u64, 4),
            PrimVal::F32(b) => self.write_uint(dest, b as u64, 4),
            PrimVal::F64(b) => self.write_uint(dest, b, 8),
            PrimVal::Ptr(p) => self.write_ptr(dest, p),
            PrimVal::FnPtr(p) => self.write_ptr(dest, p),
        }
    }

    /// Copies `size` cells from `src` to `dest`.
    pub fn copy(&mut self, src: Pointer, dest: Pointer, size: u64, align: u64) -> (r: Result<(), EvalError>)
        ensures
            updates(old(self)@, old(self)@.copy(src, dest, size, align), r, final(self)@),
    {
        let cells = self.read_cells(src, size, align)?;
        self.write_cells(dest, &cells, align)
    }

    /// Sets the definedness of `size` cells.
    pub fn mark_definedness(&mut self, ptr: Pointer, size: u64, defined: bool) -> (r: Result<(), EvalError>)
        ensures
            updates(old(self)@, old(self)@.mark_definedness(ptr, size, defined), r, final(self)@),
    {
        let cells = self.read_cells(ptr, size, 1)?;
        let mut out: Vec<Byte> = Vec::new();
        let mut i: usize = 0;
        while i < cells.len()
            invariant
                i <= cells@.len(),
                out@.len() == i,
                forall|k: int| 0 <= k < i ==> out@[k] == MemoryModel::marked(cells@, defined)[k],
            decreases cells@.len() - i,
        {
            let c = cells[i];
            let n = if !defined {
                Byte::Undef
            } else {
                match c {
                    Byte::Undef => Byte::Raw(0),
                    _ => c,
                }
            };
            out.push(n);
            i += 1;
        }
        assert(out@ =~= MemoryModel::marked(cells@, defined));
        self.write_cells(ptr, &out, 1)
    }

    /// Freezes an allocation: from now on every write to it is refused.
    pub fn freeze(&mut self, id: AllocId) -> (r: Result<(), EvalError>)
        ensures
            updates(old(self)@, old(self)@.freeze(id), r, final(self)@),
    {
        if id.0 == ZST_ALLOC_ID {
            return Ok(());
        }
        if id.0 >= self.allocs.len() as u64 {
            return Err(EvalError::DanglingPointerDeref);
        }
        let idx: usize = id.0 as usize;
        match self.allocs[idx].kind {
            AllocKind::Data => {},
            _ => {
                return Err(EvalError::DanglingPointerDeref);
            },
        }
        self.allocs[idx].frozen = true;
        proof {
            let m = old(self)@.freeze(id)->Ok_0;
            assert(self@.allocs =~= m.allocs);
        }
        Ok(())
    }

    /// The address of a function, allocated on first use.
    pub fn create_fn_ptr(&mut self, def_id: DefId, substs: Substs, fn_ty: FnTy) -> (r: Pointer)
        ensures
            (r, final(self)@) == old(self)@.create_fn_ptr(FunctionDefinition { def_id, substs, fn_ty }),
    {
        let f = FunctionDefinition { def_id, substs, fn_ty };
        let mut i: usize = 0;
        let mut found: Option<usize> = None;
        proof {
            assert forall|k: int| 0 <= k < self.allocs@.len() implies #[trigger] self@.allocs[k].kind
                == self.allocs@[k].kind by {}
        }
        while i < self.allocs.len() && found.is_none()
            invariant
                i <= self.allocs@.len(),
                self@.allocs.len() == self.allocs@.len(),
                forall|k: int| 0 <= k < self.allocs@.len() ==> #[trigger] self@.allocs[k].kind
                    == self.allocs@[k].kind,
                match found {
                    Some(k) => self@.find_fn(f, 0) == Some(k as int),
                    None => self@.find_fn(f, 0) == self@.find_fn(f, i as int),
                },
            decreases self.allocs@.len() - i + if found is None { 1int } else { 0int },
        {
            if self.allocs[i].kind == AllocKind::Function(f) {
                assert(self@.find_fn(f, i as int) == Some(i as int));
                found = Some(i);
            } else {
                i += 1;
            }
        }
        match found {
            Some(k) => Pointer { alloc_id: AllocId(k as u64), offset: 0 },
            None => {
                let id: u64 = self.allocs.len() as u64;
                self.allocs.push(
                    Allocation { bytes: Vec::new(), align: 1, frozen: true, kind: AllocKind::Function(f) },
                );
                proof {
                    let m = old(self)@.create_fn_ptr(f).1;
                    assert(self@.allocs =~= m.allocs);
                }
                Pointer { alloc_id: AllocId(id), offset: 0 }
            },
        }
    }

    /// The function that a function pointer's allocation stands for.
    pub fn get_fn(&self, id: AllocId) -> (r: Result<FunctionDefinition, EvalError>)
        ensures
            r == self@.get_fn(id),
    {
        if id.0 >= self.allocs.len() as u64 {
            Err(EvalError::InvalidFunctionPointer)
        } else {
            match self.allocs[id.0 as usize].kind {
                AllocKind::Function(f) => Ok(f),
                _ => Err(EvalError::InvalidFunctionPointer),
            }
        }
    }
}

} // verus!
