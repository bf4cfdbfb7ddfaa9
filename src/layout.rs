//! The size and alignment of a requested block.

use vstd::arithmetic::power2::is_pow2;
use vstd::layout::valid_layout;
use vstd::prelude::*;

verus! {

/// A (size, alignment) pair that an allocator accepts: the alignment is a power
/// of two, and the size rounded up to it does not exceed `isize::MAX`.
#[derive(Clone, Copy, Debug, PartialEq, Eq)]
pub struct Layout {
    size: usize,
    align: usize,
}

impl Layout {
    #[verifier::type_invariant]
    spec fn valid(self) -> bool {
        valid_layout(self.size, self.align)
    }

    pub closed spec fn spec_size(&self) -> usize {
        self.size
    }

    pub closed spec fn spec_align(&self) -> usize {
        self.align
    }

    /// The layout of `size` bytes aligned to `align`, or `None` where the pair
    /// is no valid layout.
    pub fn from_size_align(size: usize, align: usize) -> (r: Option<Layout>)
        ensures
            r is Some <==> valid_layout(size, align),
            r matches Some(l) ==> l.size() == size && l.align() == align,
    {
        if align == 0 {
            proof {
                reveal(is_pow2);
            }
            return None;
        }
        let mut a: usize = align;
        while a > 1 && a % 2 == 0
            invariant
                a > 0,
                is_pow2(a as int) == is_pow2(align as int),
            decreases a,
        {
            proof {
                reveal(is_pow2);
            }
            a = a / 2;
        }
        proof {
            reveal(is_pow2);
        }
        if a != 1 {
            return None;
        }
        let max: usize = isize::MAX as usize;
        assert(max % align <= max) by (nonlinear_arith)
            requires
                align > 0,
        ;
        if size > max - max % align {
            return None;
        }
        Some(Layout { size, align })
    }

    /// The number of bytes.
    #[verifier::when_used_as_spec(spec_size)]
    pub fn size(&self) -> (r: usize)
        ensures
            r == self.spec_size(),
    {
        self.size
    }

    /// The alignment in bytes: a power of two, positive, that the size fits
    /// with.
    #[verifier::when_used_as_spec(spec_align)]
    pub fn align(&self) -> (r: usize)
        ensures
            r == self.spec_align(),
            r > 0,
            valid_layout(self.spec_size(), r),
    {
        proof {
            use_type_invariant(self);
            reveal(is_pow2);
        }
        self.align
    }
}

} // verus!
