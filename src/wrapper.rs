//! The allocator capability set and the wrapper that zeros blocks on release.

use crate::clear::{zero, zeros, CLEAR_STRATEGY};
use crate::layout::Layout;
use vstd::prelude::*;

verus! {

/// A block of memory handed out by an allocator: its address, and the bytes
/// that it holds. The caller owns it until it passes it back to `deallocate`.
#[derive(Debug)]
pub struct Block {
    pub addr: usize,
    pub bytes: Vec<u8>,
}

impl Block {
    /// The address and the contents.
    pub open spec fn view(&self) -> (usize, Seq<u8>) {
        (self.addr, self.bytes@)
    }
}

/// What an allocation call returned: the address and contents of the block,
/// or `None` on failure.
pub open spec fn block_view(r: Option<Block>) -> Option<(usize, Seq<u8>)> {
    match r {
        Some(b) => Some(b.view()),
        None => None,
    }
}

/// The capability set of a dynamic-memory manager: allocate, allocate zeroed,
/// deallocate.
///
/// Each operation is described by a relation between the allocator's state
/// before the call, its arguments, the state after, and what it returned.
pub trait BlockAllocator: Sized {
    /// `allocate(layout)` may take the allocator from `pre` to `post` returning `r`.
    spec fn allocate_step(pre: Self, layout: Layout, post: Self, r: Option<(usize, Seq<u8>)>) -> bool;

    /// `allocate_zeroed(layout)` may take the allocator from `pre` to `post`
    /// returning `r`.
    spec fn allocate_zeroed_step(
        pre: Self,
        layout: Layout,
        post: Self,
        r: Option<(usize, Seq<u8>)>,
    ) -> bool;

    /// `deallocate` of the block at `addr` holding `contents` may take the
    /// allocator from `pre` to `post`.
    spec fn deallocate_step(pre: Self, addr: usize, contents: Seq<u8>, layout: Layout, post: Self) -> bool;

    /// A block of `layout.size()` bytes at an address aligned to
    /// `layout.align()`, or `None` when the request cannot be met.
    fn allocate(&mut self, layout: Layout) -> (r: Option<Block>)
        ensures
            Self::allocate_step(*old(self), layout, *final(self), block_view(r)),
            r matches Some(b) ==> b.bytes@.len() == layout.size() && b.addr % layout.align() == 0,
    ;

    /// A block of `layout.size()` zero bytes at an address aligned to
    /// `layout.align()`, or `None` when the request cannot be met.
    fn allocate_zeroed(&mut self, layout: Layout) -> (r: Option<Block>)
        ensures
            Self::allocate_zeroed_step(*old(self), layout, *final(self), block_view(r)),
            r matches Some(b) ==> b.bytes@ == zeros(layout.size() as nat) && b.addr % layout.align() == 0,
    ;

    /// Takes back a block that was allocated with `layout`.
    fn deallocate(&mut self, block: Block, layout: Layout)
        requires
            block.bytes@.len() == layout.size(),
        ensures
            Self::deallocate_step(*old(self), block.addr, block.bytes@, layout, *final(self)),
    ;
}

/// Allocator wrapper that zeros on free: allocation calls go to the wrapped
/// allocator untouched, and every released block is cleared before the
/// wrapped allocator receives it.
pub struct ZeroAlloc<A: BlockAllocator>(pub A);

impl<A: BlockAllocator> ZeroAlloc<A> {
    /// Forwards to the wrapped allocator's `allocate`: the result and the
    /// wrapped allocator's new state are exactly those of that call.
    pub fn allocate(&mut self, layout: Layout) -> (r: Option<Block>)
        ensures
            A::allocate_step(old(self).0, layout, final(self).0, block_view(r)),
            r matches Some(b) ==> b.bytes@.len() == layout.size() && b.addr % layout.align() == 0,
    {
        self.0.allocate(layout)
    }

    /// Forwards to the wrapped allocator's `allocate_zeroed`, adding no clearing
    /// of its own: the result and the wrapped allocator's new state are
    /// exactly those of that call.
    pub fn allocate_zeroed(&mut self, layout: Layout) -> (r: Option<Block>)
        ensures
            A::allocate_zeroed_step(old(self).0, layout, final(self).0, block_view(r)),
            r matches Some(b) ==> b.bytes@ == zeros(layout.size() as nat) && b.addr % layout.align() == 0,
    {
        self.0.allocate_zeroed(layout)
    }

    /// Clears all `layout.size()` bytes of `block`, then passes it to the
    /// wrapped allocator's `deallocate`: that call receives the block at the same
    /// address with every byte zero.
    pub fn deallocate(&mut self, block: Block, layout: Layout)
        requires
            block.bytes@.len() == layout.size(),
        ensures
            A::deallocate_step(old(self).0, block.addr, zeros(layout.size() as nat), layout, final(self).0),
    {
        let mut block = block;
        zero(block.bytes.as_mut_slice(), CLEAR_STRATEGY);
        self.0.deallocate(block, layout);
    }
}

} // verus!
