//! Writing the layout into a freshly allocated linear memory.

use crate::layout::{
    compute_layout, spec_dynamic_base, spec_dynamictop_ptr, MemoryLayout, STATIC_BUMP,
};
use byteorder::{ByteOrder, LittleEndian};
use vstd::prelude::*;

verus! {

/// The four bytes of `n`, least significant first.
pub open spec fn le_bytes(n: u32) -> Seq<u8> {
    seq![(n & 0xff) as u8, ((n >> 8) & 0xff) as u8, ((n >> 16) & 0xff) as u8, (n >> 24) as u8]
}

/// The unsigned value of four bytes read least significant first.
pub open spec fn le_value(b: Seq<u8>) -> int {
    b[0] + 256 * b[1] + 65536 * b[2] + 16777216 * b[3]
}

/// `mem` with the four bytes at `offset` replaced by `n` in little-endian order.
pub open spec fn with_le_u32(mem: Seq<u8>, offset: int, n: u32) -> Seq<u8> {
    mem.take(offset) + le_bytes(n) + mem.skip(offset + 4)
}

/// Reading back the four bytes of `n` gives `n`.
pub proof fn lemma_le_round_trip(n: u32)
    ensures
        le_value(le_bytes(n)) == n,
{
    let b0 = (n & 0xff) as u8;
    let b1 = ((n >> 8) & 0xff) as u8;
    let b2 = ((n >> 16) & 0xff) as u8;
    let b3 = (n >> 24) as u8;
    assert(b0 + 256 * b1 + 65536 * b2 + 16777216 * b3 == n) by (bit_vector)
        requires
            b0 == (n & 0xff) as u8,
            b1 == ((n >> 8) & 0xff) as u8,
            b2 == ((n >> 16) & 0xff) as u8,
            b3 == (n >> 24) as u8,
    ;
}

/// Initialising twice with the same value leaves the same bytes as
/// initialising once.
pub proof fn lemma_initialize_idempotent(mem: Seq<u8>, offset: int, n: u32)
    requires
        0 <= offset,
        offset + 4 <= mem.len(),
    ensures
        with_le_u32(with_le_u32(mem, offset, n), offset, n) == with_le_u32(mem, offset, n),
{
    assert(with_le_u32(with_le_u32(mem, offset, n), offset, n) =~= with_le_u32(mem, offset, n));
}

/// Relies on byteorder's `LittleEndian::write_u32`, which writes the four
/// little-endian bytes of `n` to the start of the slice it is given and
/// touches nothing else.
#[verifier::external_body]
fn write_u32_le(mem: &mut Vec<u8>, offset: usize, n: u32)
    requires
        offset + 4 <= old(mem)@.len(),
    ensures
        final(mem)@ == with_le_u32(old(mem)@, offset as int, n),
{
    LittleEndian::write_u32(&mut mem[offset..], n)
}

/// Stores `layout.dynamic_base`, little-endian, in the four bytes at
/// `layout.dynamictop_ptr`; every other byte of `memory` is left as it was.
pub fn initialize_memory(memory: &mut Vec<u8>, layout: &MemoryLayout)
    requires
        layout.dynamictop_ptr + 4 <= old(memory)@.len(),
    ensures
        final(memory)@ == with_le_u32(old(memory)@, layout.dynamictop_ptr as int, layout.dynamic_base),
        final(memory)@.len() == old(memory)@.len(),
        le_value(final(memory)@.subrange(layout.dynamictop_ptr as int, layout.dynamictop_ptr + 4))
            == layout.dynamic_base,
        forall|i: int|
            0 <= i < old(memory)@.len() && !(layout.dynamictop_ptr <= i < layout.dynamictop_ptr + 4)
                ==> #[trigger] final(memory)@[i] == old(memory)@[i],
{
    let offset = layout.dynamictop_ptr as usize;
    write_u32_le(memory, offset, layout.dynamic_base);
    proof {
        let off = offset as int;
        assert(memory@.subrange(off, off + 4) =~= le_bytes(layout.dynamic_base));
        lemma_le_round_trip(layout.dynamic_base);
    }
}

/// Initialises `memory` for the default static data size `STATIC_BUMP`.
pub fn emscripten_set_up_memory(memory: &mut Vec<u8>)
    requires
        spec_dynamictop_ptr(STATIC_BUMP as int) + 4 <= old(memory)@.len(),
    ensures
        final(memory)@ == with_le_u32(
            old(memory)@,
            spec_dynamictop_ptr(STATIC_BUMP as int),
            spec_dynamic_base(STATIC_BUMP as int) as u32,
        ),
{
    let layout = compute_layout(STATIC_BUMP);
    initialize_memory(memory, &layout);
}

} // verus!
