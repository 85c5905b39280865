//! The initial linear-memory layout, derived from the size of a module's
//! static data segment.

use vstd::prelude::*;

verus! {

/// Bytes reserved for the guest stack.
pub const TOTAL_STACK: u32 = 5242880;

/// Distance from the end of static data to the DYNAMICTOP bookkeeping word.
pub const DYNAMICTOP_PTR_DIFF: u32 = 1088;

/// Size of the static data segment assumed by default.
pub const STATIC_BUMP: u32 = 215536;

/// The largest static data size whose layout fits in a 32-bit address space.
pub const MAX_STATIC_BUMP: u32 = 4289723308;

/// `x` rounded up to the next multiple of 16.
pub open spec fn align16(x: int) -> int {
    x + 15 - (x + 15) % 16
}

pub open spec fn spec_dynamictop_ptr(static_bump: int) -> int {
    static_bump + DYNAMICTOP_PTR_DIFF
}

pub open spec fn spec_stacktop(static_bump: int) -> int {
    align16(spec_dynamictop_ptr(static_bump) + 4)
}

pub open spec fn spec_stack_max(static_bump: int) -> int {
    spec_stacktop(static_bump) + TOTAL_STACK
}

pub open spec fn spec_dynamic_base(static_bump: int) -> int {
    align16(spec_stack_max(static_bump))
}

/// The layout of a static data segment of this size fits in 32 bits.
pub open spec fn layout_fits(static_bump: int) -> bool {
    spec_dynamic_base(static_bump) <= u32::MAX
}

/// Rounds `ptr` up to the next multiple of 16.
pub fn align_memory(ptr: u32) -> (r: u32)
    requires
        ptr <= u32::MAX - 15,
    ensures
        r == align16(ptr as int),
{
    let q: u32 = ptr + 15;
    assert(q & !15u32 == q - q % 16) by (bit_vector);
    q & !15u32
}

/// The size limit is exact: a layout fits in 32 bits iff the static data
/// segment is at most `MAX_STATIC_BUMP` bytes.
pub proof fn lemma_layout_fits(static_bump: int)
    requires
        0 <= static_bump,
    ensures
        layout_fits(static_bump) <==> static_bump <= MAX_STATIC_BUMP,
{
}

/// For every static data size whose layout fits, the regions are ordered
/// `dynamictop_ptr < stacktop <= stack_max <= dynamic_base`, and the last
/// three are 16-byte aligned.
pub proof fn lemma_layout_ordered(static_bump: int)
    requires
        0 <= static_bump <= MAX_STATIC_BUMP,
    ensures
        spec_dynamictop_ptr(static_bump) < spec_stacktop(static_bump),
        spec_stacktop(static_bump) <= spec_stack_max(static_bump),
        spec_stack_max(static_bump) <= spec_dynamic_base(static_bump),
        spec_stacktop(static_bump) % 16 == 0,
        spec_stack_max(static_bump) % 16 == 0,
        spec_dynamic_base(static_bump) % 16 == 0,
        spec_dynamic_base(static_bump) <= u32::MAX,
{
}

pub fn dynamictop_ptr(static_bump: u32) -> (r: u32)
    requires
        static_bump <= u32::MAX - DYNAMICTOP_PTR_DIFF,
    ensures
        r == spec_dynamictop_ptr(static_bump as int),
{
    static_bump + DYNAMICTOP_PTR_DIFF
}

pub fn stacktop(static_bump: u32) -> (r: u32)
    requires
        static_bump <= u32::MAX - DYNAMICTOP_PTR_DIFF - 4 - 15,
    ensures
        r == spec_stacktop(static_bump as int),
{
    align_memory(dynamictop_ptr(static_bump) + 4)
}

pub fn stack_max(static_bump: u32) -> (r: u32)
    requires
        static_bump <= MAX_STATIC_BUMP,
    ensures
        r == spec_stack_max(static_bump as int),
{
    stacktop(static_bump) + TOTAL_STACK
}

pub fn dynamic_base(static_bump: u32) -> (r: u32)
    requires
        static_bump <= MAX_STATIC_BUMP,
    ensures
        r == spec_dynamic_base(static_bump as int),
{
    align_memory(stack_max(static_bump))
}

/// The derived layout: where the DYNAMICTOP word lives, the stack bounds,
/// and the start of the dynamically allocated heap.
#[derive(Clone, Copy, Debug, PartialEq, Eq, Structural)]
pub struct MemoryLayout {
    pub dynamictop_ptr: u32,
    pub stacktop: u32,
    pub stack_max: u32,
    pub dynamic_base: u32,
}

impl MemoryLayout {
    /// The layout that a static data segment of `static_bump` bytes yields.
    pub open spec fn of(static_bump: int) -> MemoryLayout {
        MemoryLayout {
            dynamictop_ptr: spec_dynamictop_ptr(static_bump) as u32,
            stacktop: spec_stacktop(static_bump) as u32,
            stack_max: spec_stack_max(static_bump) as u32,
            dynamic_base: spec_dynamic_base(static_bump) as u32,
        }
    }

    /// The regions are ordered and the region boundaries 16-byte aligned.
    pub open spec fn wf(self) -> bool {
        &&& self.dynamictop_ptr < self.stacktop
        &&& self.stacktop <= self.stack_max
        &&& self.stack_max <= self.dynamic_base
        &&& self.stacktop % 16 == 0
        &&& self.stack_max % 16 == 0
        &&& self.dynamic_base % 16 == 0
    }
}

/// Computes the layout for a static data segment of `static_bump` bytes.
pub fn compute_layout(static_bump: u32) -> (r: MemoryLayout)
    requires
        static_bump <= MAX_STATIC_BUMP,
    ensures
        r == MemoryLayout::of(static_bump as int),
        r.wf(),
{
    proof {
        lemma_layout_ordered(static_bump as int);
    }
    MemoryLayout {
        dynamictop_ptr: dynamictop_ptr(static_bump),
        stacktop: stacktop(static_bump),
        stack_max: stack_max(static_bump),
        dynamic_base: dynamic_base(static_bump),
    }
}

/// Computes the layout, or `None` where it would not fit in 32 bits.
pub fn try_compute_layout(static_bump: u32) -> (r: Option<MemoryLayout>)
    ensures
        r is None <==> !layout_fits(static_bump as int),
        r is Some ==> r->0 == MemoryLayout::of(static_bump as int) && r->0.wf(),
{
    proof {
        lemma_layout_fits(static_bump as int);
    }
    if static_bump <= MAX_STATIC_BUMP {
        Some(compute_layout(static_bump))
    } else {
        None
    }
}

} // verus!
