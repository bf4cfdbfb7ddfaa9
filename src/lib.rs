//! A heap-allocator wrapper that overwrites every released block with zeros
//! before handing it back to the allocator underneath.
//!
//! The clearing primitive lives in [`clear`]; the allocator capability set and
//! the zeroing wrapper in [`wrapper`]; an allocator that records what each
//! released block held, and the laws proved over it, in [`recording`].

pub mod clear;
pub mod layout;
pub mod recording;
pub mod wrapper;

pub use clear::{clear_bytes, clear_bytes_ordered, zero, ClearStrategy, CLEAR_STRATEGY};
pub use layout::Layout;
pub use recording::RecordingAlloc;
pub use wrapper::{Block, BlockAllocator, ZeroAlloc};
