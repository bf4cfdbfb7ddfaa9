//! An instrumented allocator: it hands out addresses from a fixed range in
//! order, and records the address and contents of every block at the moment
//! its `deallocate` is entered.

use crate::clear::{all_zero, zeros};
use crate::layout::Layout;
use crate::wrapper::{block_view, Block, BlockAllocator};
use vstd::arithmetic::div_mod::{lemma_fundamental_div_mod, lemma_mod_multiples_basic};
use vstd::prelude::*;

verus! {

/// The first address that a new recording allocator hands out.
pub const BASE_ADDR: usize = 4096;

/// The byte that fills each block from `allocate`, standing for stale contents.
pub const FRESH_BYTE: u8 = 0xAA;

/// The bytes to skip at `next` to reach a multiple of `align`.
pub open spec fn padding(next: usize, align: usize) -> int {
    if next % align == 0 {
        0
    } else {
        align - next % align
    }
}

/// The part of the address range not handed out yet: it starts at `next` and
/// holds `remaining` bytes, and it ends within the address space.
#[derive(Debug)]
struct Cursor {
    next: usize,
    remaining: usize,
}

impl Cursor {
    #[verifier::type_invariant]
    spec fn inv(self) -> bool {
        self.next + self.remaining <= usize::MAX
    }
}

/// Instrumented allocator that records each block it takes back.
#[derive(Debug)]
pub struct RecordingAlloc {
    cursor: Cursor,
    freed: Vec<Block>,
}

impl RecordingAlloc {
    /// The first address not handed out yet.
    pub closed spec fn next_addr(self) -> usize {
        self.cursor.next
    }

    /// The number of bytes from `next_addr` on that can still be handed out.
    pub closed spec fn remaining(self) -> usize {
        self.cursor.remaining
    }

    /// The address and contents of each block taken back, in order.
    pub closed spec fn freed_log(self) -> Seq<(usize, Seq<u8>)> {
        self.freed@.map_values(|b: Block| b.view())
    }

    /// How `allocate` and `allocate_zeroed` behave, with `fill` the byte the
    /// new block holds: the block starts at the first multiple of the
    /// alignment from `next_addr` on, when it fits in what remains.
    pub open spec fn grant(
        pre: Self,
        layout: Layout,
        post: Self,
        r: Option<(usize, Seq<u8>)>,
        fill: u8,
    ) -> bool {
        let pad = padding(pre.next_addr(), layout.align());
        let size = layout.size();
        &&& post.freed_log() == pre.freed_log()
        &&& if pad + size <= pre.remaining() {
            &&& r == Some(((pre.next_addr() + pad) as usize, Seq::new(size as nat, |i: int| fill)))
            &&& post.next_addr() == pre.next_addr() + pad + size
            &&& post.remaining() == pre.remaining() - pad - size
        } else {
            &&& r is None
            &&& post.next_addr() == pre.next_addr()
            &&& post.remaining() == pre.remaining()
        }
    }

    /// An allocator over `capacity` bytes from `BASE_ADDR` on, with nothing
    /// recorded.
    pub fn new(capacity: usize) -> (r: RecordingAlloc)
        requires
            capacity <= usize::MAX - BASE_ADDR,
        ensures
            r.next_addr() == BASE_ADDR,
            r.remaining() == capacity,
            r.freed_log() == Seq::<(usize, Seq<u8>)>::empty(),
    {
        let r = RecordingAlloc {
            cursor: Cursor { next: BASE_ADDR, remaining: capacity },
            freed: Vec::new(),
        };
        assert(r.freed_log() =~= Seq::<(usize, Seq<u8>)>::empty());
        r
    }

    /// The blocks taken back so far, each as it was when `deallocate` received it.
    pub fn freed(&self) -> (r: &Vec<Block>)
        ensures
            r@.len() == self.freed_log().len(),
            forall|k: int| 0 <= k < r@.len() ==> (#[trigger] r@[k]).view() == self.freed_log()[k],
    {
        &self.freed
    }

    fn grant_block(&mut self, layout: Layout, fill: u8) -> (r: Option<Block>)
        ensures
            Self::grant(*old(self), layout, *final(self), block_view(r), fill),
            r matches Some(b) ==> b.addr % layout.align() == 0,
    {
        proof {
            use_type_invariant(&self.cursor);
        }
        let size = layout.size();
        let align = layout.align();
        let rem = self.cursor.next % align;
        let pad: usize = if rem == 0 {
            0
        } else {
            align - rem
        };
        if pad > self.cursor.remaining || size > self.cursor.remaining - pad {
            return None;
        }
        let addr = self.cursor.next + pad;
        proof {
            let n = self.cursor.next as int;
            let a = align as int;
            lemma_fundamental_div_mod(n, a);
            if rem != 0 {
                assert(n + pad == (n / a + 1) * a) by (nonlinear_arith)
                    requires
                        n == a * (n / a) + n % a,
                        pad == a - n % a,
                ;
                lemma_mod_multiples_basic(n / a + 1, a);
            }
        }
        let mut bytes: Vec<u8> = Vec::new();
        let mut i: usize = 0;
        while i < size
            invariant
                i <= size,
                bytes@ == Seq::new(i as nat, |j: int| fill),
            decreases size - i,
        {
            bytes.push(fill);
            i = i + 1;
            assert(bytes@ =~= Seq::new(i as nat, |j: int| fill));
        }
        self.cursor = Cursor { next: addr + size, remaining: self.cursor.remaining - pad - size };
        Some(Block { addr, bytes })
    }
}

impl BlockAllocator for RecordingAlloc {
    open spec fn allocate_step(pre: Self, layout: Layout, post: Self, r: Option<(usize, Seq<u8>)>) -> bool {
        Self::grant(pre, layout, post, r, FRESH_BYTE)
    }

    open spec fn allocate_zeroed_step(
        pre: Self,
        layout: Layout,
        post: Self,
        r: Option<(usize, Seq<u8>)>,
    ) -> bool {
        Self::grant(pre, layout, post, r, 0)
    }

    open spec fn deallocate_step(
        pre: Self,
        addr: usize,
        contents: Seq<u8>,
        layout: Layout,
        post: Self,
    ) -> bool {
        &&& post.freed_log() == pre.freed_log().push((addr, contents))
        &&& post.next_addr() == pre.next_addr()
        &&& post.remaining() == pre.remaining()
    }

    fn allocate(&mut self, layout: Layout) -> (r: Option<Block>) {
        self.grant_block(layout, FRESH_BYTE)
    }

    fn allocate_zeroed(&mut self, layout: Layout) -> (r: Option<Block>) {
        let r = self.grant_block(layout, 0);
        proof {
            if r is Some {
                assert(r.unwrap().bytes@ =~= zeros(layout.size() as nat));
            }
        }
        r
    }

    fn deallocate(&mut self, block: Block, layout: Layout) {
        let ghost pre = *self;
        let ghost entry = block.view();
        self.freed.push(block);
        assert(self.freed_log() =~= pre.freed_log().push(entry));
    }
}

/// The recording allocator answers an allocation request in one way only:
/// from one state and one layout, two calls of `allocate` (or two of
/// `allocate_zeroed`) return the same address and contents and leave the same
/// state. So what the zeroing wrapper's calls return over it, which its
/// contracts relate to the recording allocator's own relations, is exactly
/// what the recording allocator returns alone.
pub proof fn lemma_allocation_deterministic(
    pre: RecordingAlloc,
    layout: Layout,
    fill: u8,
    post1: RecordingAlloc,
    r1: Option<(usize, Seq<u8>)>,
    post2: RecordingAlloc,
    r2: Option<(usize, Seq<u8>)>,
)
    requires
        RecordingAlloc::grant(pre, layout, post1, r1, fill),
        RecordingAlloc::grant(pre, layout, post2, r2, fill),
    ensures
        r1 == r2,
        post1.next_addr() == post2.next_addr(),
        post1.remaining() == post2.remaining(),
        post1.freed_log() == post2.freed_log(),
{
}

/// A recording allocator that receives blocks only as the zeroing wrapper's
/// `deallocate` passes them on records nothing but zero bytes: if every block
/// recorded before a release was all zero, so is every block recorded after
/// it, and the newest one is the released block's address with `size` zeros.
pub proof fn lemma_released_blocks_zero(
    pre: RecordingAlloc,
    addr: usize,
    layout: Layout,
    post: RecordingAlloc,
)
    requires
        RecordingAlloc::deallocate_step(pre, addr, zeros(layout.size() as nat), layout, post),
        forall|k: int| 0 <= k < pre.freed_log().len() ==> all_zero(#[trigger] pre.freed_log()[k].1),
    ensures
        post.freed_log().last() == (addr, zeros(layout.size() as nat)),
        forall|k: int| 0 <= k < post.freed_log().len() ==> all_zero(#[trigger] post.freed_log()[k].1),
{
    assert forall|k: int| 0 <= k < post.freed_log().len() implies all_zero(
        #[trigger] post.freed_log()[k].1,
    ) by {
        if k < pre.freed_log().len() {
            assert(post.freed_log()[k] == pre.freed_log()[k]);
        }
    }
}

} // verus!
