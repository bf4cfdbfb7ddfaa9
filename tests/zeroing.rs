use zeroizing_alloc::recording::{BASE_ADDR, FRESH_BYTE};
use zeroizing_alloc::{
    clear_bytes, clear_bytes_ordered, zero, Block, BlockAllocator, ClearStrategy, Layout,
    RecordingAlloc, ZeroAlloc, CLEAR_STRATEGY,
};

fn layout(size: usize, align: usize) -> Layout {
    Layout::from_size_align(size, align).unwrap()
}

fn last_freed(a: &ZeroAlloc<RecordingAlloc>) -> &Block {
    a.0.freed().last().unwrap()
}

#[test]
fn can_alloc() {
    let mut a = ZeroAlloc(RecordingAlloc::new(1 << 16));

    let l = layout(6, 1);
    let mut allocation = a.allocate(l).unwrap();
    allocation.bytes.copy_from_slice(&[1, 1, 1, 2, 2, 2]);
    a.deallocate(allocation, l);
    assert_eq!(last_freed(&a).bytes, vec![0u8; 6]);

    let small = layout(2, 1);
    let allocation_2 = a.allocate(small).unwrap();
    a.deallocate(allocation_2, small);
    let l2 = layout(2048, 1);
    let mut allocation_2 = a.allocate(l2).unwrap();
    allocation_2.bytes.fill(0xFF);
    a.deallocate(allocation_2, l2);
    assert_eq!(last_freed(&a).bytes, vec![0u8; 2048]);
}

#[test]
fn six_bytes_reach_the_allocator_zeroed() {
    let mut a = ZeroAlloc(RecordingAlloc::new(4096));
    let l = layout(6, 1);
    let mut b = a.allocate(l).unwrap();
    b.bytes.copy_from_slice(&[1, 1, 1, 2, 2, 2]);
    assert_eq!(b.bytes, vec![1, 1, 1, 2, 2, 2]);
    let addr = b.addr;
    a.deallocate(b, l);
    let freed = a.0.freed();
    assert_eq!(freed.len(), 1);
    assert_eq!(freed[0].addr, addr);
    assert_eq!(freed[0].bytes, vec![0, 0, 0, 0, 0, 0]);
}

#[test]
fn block_of_2048_ff_bytes_reaches_the_allocator_zeroed() {
    let mut a = ZeroAlloc(RecordingAlloc::new(4096));
    let l = layout(2048, 8);
    let mut b = a.allocate(l).unwrap();
    for x in b.bytes.iter_mut() {
        *x = 0xFF;
    }
    a.deallocate(b, l);
    let freed = last_freed(&a);
    assert_eq!(freed.bytes.len(), 2048);
    assert!(freed.bytes.iter().all(|&x| x == 0));
}

#[test]
fn every_released_block_is_recorded_zeroed() {
    let mut a = ZeroAlloc(RecordingAlloc::new(1 << 20));
    let sizes: [usize; 6] = [0, 1, 7, 64, 1000, 4097];
    let mut blocks = Vec::new();
    for (k, &n) in sizes.iter().enumerate() {
        let l = layout(n, 1 << (k % 4));
        let mut b = a.allocate(l).unwrap();
        b.bytes.fill(0x5A);
        blocks.push((b, l));
    }
    for (b, l) in blocks.into_iter().rev() {
        a.deallocate(b, l);
    }
    let freed = a.0.freed();
    assert_eq!(freed.len(), sizes.len());
    for (k, b) in freed.iter().enumerate() {
        assert_eq!(b.bytes.len(), sizes[sizes.len() - 1 - k]);
        assert!(b.bytes.iter().all(|&x| x == 0));
    }
}

#[test]
fn zeroed_allocation_is_passed_through() {
    let mut a = ZeroAlloc(RecordingAlloc::new(4096));
    let l = layout(100, 4);
    let b = a.allocate_zeroed(l).unwrap();
    assert_eq!(b.addr, BASE_ADDR);
    assert_eq!(b.bytes, vec![0u8; 100]);
    // nothing was released on the way
    assert!(a.0.freed().is_empty());
}

#[test]
fn plain_allocation_is_not_cleared() {
    let mut a = ZeroAlloc(RecordingAlloc::new(4096));
    let b = a.allocate(layout(5, 1)).unwrap();
    assert_eq!(b.bytes, vec![FRESH_BYTE; 5]);
}

#[test]
fn wrapper_returns_what_the_allocator_returns() {
    let mut wrapped = ZeroAlloc(RecordingAlloc::new(300));
    let mut bare = RecordingAlloc::new(300);
    let requests: [(usize, usize, bool); 6] = [
        (3, 1, false),
        (10, 8, true),
        (0, 16, false),
        (200, 4, true),
        (100, 1, false),
        (40, 2, false),
    ];
    let mut failures = 0;
    for &(size, align, zeroed) in requests.iter() {
        let l = layout(size, align);
        let (x, y) = if zeroed {
            (wrapped.allocate_zeroed(l), bare.allocate_zeroed(l))
        } else {
            (wrapped.allocate(l), bare.allocate(l))
        };
        match (x, y) {
            (Some(x), Some(y)) => {
                assert_eq!(x.addr, y.addr);
                assert_eq!(x.bytes, y.bytes);
                assert_eq!(x.addr % align, 0);
            }
            (None, None) => failures += 1,
            _ => panic!("the wrapper and the allocator disagree"),
        }
    }
    assert_eq!(failures, 1);
}

#[test]
fn allocation_failure_is_passed_through() {
    let mut a = ZeroAlloc(RecordingAlloc::new(10));
    assert!(a.allocate(layout(11, 1)).is_none());
    assert!(a.allocate_zeroed(layout(11, 1)).is_none());
    let b = a.allocate(layout(10, 1)).unwrap();
    assert_eq!(b.addr, BASE_ADDR);
    assert!(a.allocate(layout(1, 1)).is_none());
}

#[test]
fn blocks_are_aligned() {
    let mut a = ZeroAlloc(RecordingAlloc::new(4096));
    let b = a.allocate(layout(3, 1)).unwrap();
    assert_eq!(b.addr, 4096);
    let c = a.allocate(layout(8, 8)).unwrap();
    assert_eq!(c.addr, 4104);
    let d = a.allocate_zeroed(layout(1, 64)).unwrap();
    assert_eq!(d.addr, 4160);
}

#[test]
fn clear_bytes_zeros_the_slice() {
    let mut buf = [9u8, 8, 7, 6, 5];
    clear_bytes(&mut buf);
    assert_eq!(buf, [0u8; 5]);
    let mut empty: [u8; 0] = [];
    clear_bytes(&mut empty);
}

#[test]
fn clear_bytes_ordered_zeros_the_slice() {
    let mut buf = vec![0xFFu8; 2048];
    clear_bytes_ordered(&mut buf);
    assert_eq!(buf, vec![0u8; 2048]);
    let mut empty: [u8; 0] = [];
    clear_bytes_ordered(&mut empty);
}

#[test]
fn both_strategies_agree() {
    let original: Vec<u8> = (0..=255u8).collect();
    let mut fast = original.clone();
    let mut reference = original.clone();
    zero(&mut fast, ClearStrategy::Fast);
    zero(&mut reference, ClearStrategy::Reference);
    assert_eq!(fast, reference);
    assert_eq!(fast, vec![0u8; 256]);
    assert_eq!(CLEAR_STRATEGY, ClearStrategy::Fast);
}

#[test]
fn layout_accepts_valid_pairs() {
    let l = layout(6, 1);
    assert_eq!(l.size(), 6);
    assert_eq!(l.align(), 1);
    assert!(Layout::from_size_align(0, 1).is_some());
    assert!(Layout::from_size_align(2048, 4096).is_some());
    let max = isize::MAX as usize;
    assert!(Layout::from_size_align(max, 1).is_some());
    assert!(Layout::from_size_align(max - 7, 8).is_some());
}

#[test]
fn layout_rejects_invalid_pairs() {
    assert!(Layout::from_size_align(6, 0).is_none());
    assert!(Layout::from_size_align(6, 3).is_none());
    assert!(Layout::from_size_align(6, 12).is_none());
    let max = isize::MAX as usize;
    assert!(Layout::from_size_align(max + 1, 1).is_none());
    assert!(Layout::from_size_align(max - 6, 8).is_none());
}
