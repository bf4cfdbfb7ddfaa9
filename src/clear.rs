//! The clearing primitive: overwrite a byte region with zeros.
//!
//! Two interchangeable strategies meet the same contract. The fast one is a
//! single bulk fill, which compiles to a block clear; the reference one writes
//! the bytes one by one and then places a compiler fence after them.

use vstd::prelude::*;

verus! {

/// `n` zero bytes.
pub open spec fn zeros(n: nat) -> Seq<u8> {
    Seq::new(n, |i: int| 0u8)
}

/// True when every byte of `s` is zero.
pub open spec fn all_zero(s: Seq<u8>) -> bool {
    forall|i: int| 0 <= i < s.len() ==> s[i] == 0
}

/// The two ways of clearing a region.
#[derive(Clone, Copy, Debug, PartialEq, Eq)]
pub enum ClearStrategy {
    /// One bulk fill of the whole region.
    Fast,
    /// One write per byte, followed by a compiler fence.
    Reference,
}

/// The strategy that the allocator wrapper clears with.
pub const CLEAR_STRATEGY: ClearStrategy = ClearStrategy::Fast;

/// Relies on `<[u8]>::fill`: every element of the slice becomes `value`, and
/// the length is unchanged.
#[verifier::external_body]
fn fill_slice(buf: &mut [u8], value: u8)
    ensures
        final(buf)@ == Seq::new(old(buf)@.len(), |i: int| value),
{
    buf.fill(value);
}

/// Relies on `core::sync::atomic::compiler_fence`: it orders the compiler's
/// view of the writes before it and changes no value.
#[verifier::external_body]
fn compiler_fence_seq_cst() {
    core::sync::atomic::compiler_fence(core::sync::atomic::Ordering::SeqCst);
}

/// Clears `buf` with one bulk fill.
pub fn clear_bytes(buf: &mut [u8])
    ensures
        final(buf)@ == zeros(old(buf)@.len()),
{
    fill_slice(buf, 0);
}

/// Clears `buf` one byte at a time, then fences.
pub fn clear_bytes_ordered(buf: &mut [u8])
    ensures
        final(buf)@ == zeros(old(buf)@.len()),
{
    let n = buf.len();
    let mut i: usize = 0;
    while i < n
        invariant
            n == buf@.len(),
            n == old(buf)@.len(),
            i <= n,
            forall|j: int| 0 <= j < i ==> buf@[j] == 0,
        decreases n - i,
    {
        buf[i] = 0;
        i = i + 1;
    }
    compiler_fence_seq_cst();
    assert(buf@ =~= zeros(n as nat));
}

/// Clears `buf` with the given strategy. Both strategies leave the same bytes.
pub fn zero(buf: &mut [u8], strategy: ClearStrategy)
    ensures
        final(buf)@ == zeros(old(buf)@.len()),
{
    match strategy {
        ClearStrategy::Fast => clear_bytes(buf),
        ClearStrategy::Reference => clear_bytes_ordered(buf),
    }
}

} // verus!
