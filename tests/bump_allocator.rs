use context_allocator::allocator::{AllocError, Allocator, LocalAllocator};
use context_allocator::bump_allocator::BumpAllocator;
use context_allocator::memory_address::MemoryAddress;
use context_allocator::memory_source::MemorySource;
use context_allocator::non_zero::NonZeroUsize;
use std::cell::RefCell;
use std::rc::Rc;

/// What a memory source was asked to do.
#[derive(Default)]
struct Log {
    obtained: Vec<(usize, usize)>,
    released: Vec<(usize, usize)>,
    copies: Vec<(usize, usize, usize)>,
}

/// A memory source that hands out a fixed address and records every call.
struct RecordingSource {
    start: usize,
    fail: bool,
    log: Rc<RefCell<Log>>,
}

impl MemorySource for RecordingSource {
    fn obtain(&self, non_zero_size: NonZeroUsize) -> Result<MemoryAddress, AllocError> {
        if self.fail {
            return Err(AllocError);
        }
        self.log.borrow_mut().obtained.push((non_zero_size.get(), self.start));
        Ok(MemoryAddress::new(self.start).unwrap())
    }

    fn release(&mut self, non_zero_size: NonZeroUsize, current_memory: MemoryAddress) {
        self.log.borrow_mut().released.push((non_zero_size.get(), current_memory.value()));
    }

    fn copy_bytes(&mut self, from: MemoryAddress, to: MemoryAddress, length: usize) {
        self.log.borrow_mut().copies.push((from.value(), to.value(), length));
    }
}

fn nz(value: usize) -> NonZeroUsize {
    NonZeroUsize::new(value).unwrap()
}

fn allocator(start: usize, size: usize) -> (BumpAllocator<RecordingSource>, Rc<RefCell<Log>>) {
    let log = Rc::new(RefCell::new(Log::default()));
    let source = RecordingSource { start, fail: false, log: log.clone() };
    (BumpAllocator::new(source, nz(size)).unwrap(), log)
}

fn address(a: Result<MemoryAddress, AllocError>) -> usize {
    a.unwrap().value()
}

#[test]
fn region_of_4096_reuses_freed_tail() {
    let (mut b, _log) = allocator(0x10000, 4096);
    let first = address(b.allocate(nz(100), nz(8)));
    assert_eq!(first, 0x10000);
    let second = b.allocate(nz(50), nz(8)).unwrap();
    assert_eq!(second.value(), first + 104);
    b.deallocate(nz(50), nz(8), second);
    let third = b.allocate(nz(200), nz(8)).unwrap();
    assert_eq!(third, second);
    assert_eq!(address(b.allocate(nz(1), nz(1))), first + 104 + 200);
}

#[test]
fn region_of_16_refuses_second_allocation() {
    let (mut b, _log) = allocator(0x2000, 16);
    let first = address(b.allocate(nz(10), nz(1)));
    assert_eq!(first, 0x2000);
    assert_eq!(b.allocate(nz(10), nz(1)), Err(AllocError));
    // The cursor did not move: what is left still fits exactly.
    assert_eq!(address(b.allocate(nz(6), nz(1))), 0x2000 + 10);
    assert_eq!(b.allocate(nz(1), nz(1)), Err(AllocError));
}

#[test]
fn dropping_hands_back_whole_region_once() {
    let (mut b, log) = allocator(0x4000, 1024);
    b.allocate(nz(10), nz(4)).unwrap();
    b.allocate(nz(300), nz(64)).unwrap();
    let source = b.release();
    assert_eq!(source.start, 0x4000);
    let log = log.borrow();
    assert_eq!(log.obtained, vec![(1024, 0x4000)]);
    assert_eq!(log.released, vec![(1024, 0x4000)]);
}

#[test]
fn allocations_are_ordered_disjoint_and_aligned() {
    let (mut b, _log) = allocator(0x1001, 4096);
    let requests = [(3, 1), (5, 4), (7, 16), (1, 2), (20, 64), (9, 8)];
    let mut previous_end = 0x1001;
    for (size, alignment) in requests {
        let a = address(b.allocate(nz(size), nz(alignment)));
        assert_eq!(a % alignment, 0);
        assert!(a >= previous_end);
        assert!(a < previous_end + alignment);
        previous_end = a + size;
    }
    assert_eq!(previous_end, 0x1058 + 9);
}

#[test]
fn failed_allocation_leaves_cursor() {
    let (mut b, _log) = allocator(0x1000, 64);
    assert_eq!(address(b.allocate(nz(30), nz(1))), 0x1000);
    assert_eq!(b.allocate(nz(40), nz(1)), Err(AllocError));
    assert_eq!(b.allocate(nz(1), nz(4096)), Err(AllocError));
    assert_eq!(address(b.allocate(nz(34), nz(1))), 0x1000 + 30);
}

#[test]
fn shrink_then_grow_restores_cursor() {
    let (mut b, _log) = allocator(0x1000, 256);
    let a = b.allocate(nz(100), nz(8)).unwrap();
    assert_eq!(b.shrinking_reallocate(nz(40), nz(8), nz(100), a), Ok(a));
    assert_eq!(b.growing_reallocate(nz(100), nz(8), nz(40), a), Ok(a));
    assert_eq!(address(b.allocate(nz(1), nz(1))), 0x1000 + 100);
}

#[test]
fn shrink_gives_back_tail_of_most_recent() {
    let (mut b, _log) = allocator(0x1000, 256);
    let a = b.allocate(nz(100), nz(8)).unwrap();
    assert_eq!(b.shrinking_reallocate(nz(10), nz(8), nz(100), a), Ok(a));
    assert_eq!(address(b.allocate(nz(1), nz(1))), 0x1000 + 10);
}

#[test]
fn shrink_of_older_allocation_changes_nothing() {
    let (mut b, _log) = allocator(0x1000, 256);
    let a = b.allocate(nz(100), nz(8)).unwrap();
    b.allocate(nz(20), nz(8)).unwrap();
    assert_eq!(b.shrinking_reallocate(nz(10), nz(8), nz(100), a), Ok(a));
    assert_eq!(address(b.allocate(nz(1), nz(1))), 0x1000 + 124);
}

#[test]
fn deallocate_of_most_recent_allows_reuse_after_rounding() {
    let (mut b, _log) = allocator(0x1000, 256);
    b.allocate(nz(3), nz(1)).unwrap();
    let a = b.allocate(nz(16), nz(16)).unwrap();
    assert_eq!(a.value(), 0x1010);
    b.deallocate(nz(16), nz(16), a);
    assert_eq!(b.allocate(nz(32), nz(16)), Ok(a));
}

#[test]
fn deallocate_of_older_allocation_is_a_no_op() {
    let (mut b, _log) = allocator(0x1000, 256);
    let a = b.allocate(nz(10), nz(1)).unwrap();
    b.allocate(nz(10), nz(1)).unwrap();
    b.deallocate(nz(10), nz(1), a);
    assert_eq!(address(b.allocate(nz(1), nz(1))), 0x1000 + 20);
}

#[test]
fn growing_older_allocation_moves_and_copies_old_size() {
    let (mut b, log) = allocator(0x1000, 256);
    let a = b.allocate(nz(10), nz(8)).unwrap();
    b.allocate(nz(5), nz(8)).unwrap();
    let moved = b.growing_reallocate(nz(40), nz(8), nz(10), a).unwrap();
    assert_eq!(moved.value(), 0x1000 + 24);
    assert_eq!(log.borrow().copies, vec![(0x1000, 0x1018, 10)]);
    assert_eq!(address(b.allocate(nz(1), nz(1))), 0x1018 + 40);
}

#[test]
fn growing_older_allocation_without_room_fails_without_copy() {
    let (mut b, log) = allocator(0x1000, 32);
    let a = b.allocate(nz(10), nz(1)).unwrap();
    b.allocate(nz(10), nz(1)).unwrap();
    assert_eq!(b.growing_reallocate(nz(20), nz(1), nz(10), a), Err(AllocError));
    assert!(log.borrow().copies.is_empty());
    assert_eq!(address(b.allocate(nz(12), nz(1))), 0x1000 + 20);
}

#[test]
fn growing_most_recent_stays_in_place() {
    let (mut b, log) = allocator(0x1000, 64);
    let a = b.allocate(nz(10), nz(1)).unwrap();
    assert_eq!(b.growing_reallocate(nz(64), nz(1), nz(10), a), Ok(a));
    assert!(log.borrow().copies.is_empty());
    assert_eq!(b.allocate(nz(1), nz(1)), Err(AllocError));
}

#[test]
fn growing_most_recent_past_region_fails() {
    let (mut b, _log) = allocator(0x1000, 64);
    let a = b.allocate(nz(10), nz(1)).unwrap();
    assert_eq!(b.growing_reallocate(nz(65), nz(1), nz(10), a), Err(AllocError));
    assert_eq!(address(b.allocate(nz(1), nz(1))), 0x1000 + 10);
}

#[test]
fn memory_range_spans_whole_region() {
    let (mut b, _log) = allocator(0x3000, 512);
    b.allocate(nz(100), nz(1)).unwrap();
    let range = b.memory_range();
    assert_eq!(range.start().value(), 0x3000);
    assert_eq!(range.end().value(), 0x3000 + 512);
}

#[test]
fn new_fails_when_source_fails() {
    let log = Rc::new(RefCell::new(Log::default()));
    let source = RecordingSource { start: 0x1000, fail: true, log: log.clone() };
    assert!(BumpAllocator::new(source, nz(64)).is_err());
    assert!(log.borrow().released.is_empty());
}

#[test]
fn new_hands_back_block_past_address_space() {
    let log = Rc::new(RefCell::new(Log::default()));
    let source = RecordingSource { start: usize::MAX - 10, fail: false, log: log.clone() };
    assert!(BumpAllocator::new(source, nz(64)).is_err());
    assert_eq!(log.borrow().released, vec![(64, usize::MAX - 10)]);
}

#[test]
fn region_at_top_of_address_space() {
    let (mut b, _log) = allocator(usize::MAX - 64, 64);
    assert_eq!(address(b.allocate(nz(60), nz(1))), usize::MAX - 64);
    assert_eq!(b.allocate(nz(1), nz(4096)), Err(AllocError));
    assert_eq!(address(b.allocate(nz(4), nz(1))), usize::MAX - 4);
}

#[test]
fn from_obtained_builds_state_at_block_start() {
    let log = Rc::new(RefCell::new(Log::default()));
    let source = RecordingSource { start: 0x1000, fail: false, log: log.clone() };
    let start = MemoryAddress::new(0x8000).unwrap();
    let mut b = BumpAllocator::from_obtained(source, nz(128), start).unwrap();
    let range = b.memory_range();
    assert_eq!(range.start().value(), 0x8000);
    assert_eq!(range.end().value(), 0x8000 + 128);
    assert_eq!(b.allocations_start_from(), start);
    assert_eq!(address(b.allocate(nz(8), nz(8))), 0x8000);
    assert!(log.borrow().released.is_empty());
}

#[test]
fn from_obtained_refuses_block_past_address_space() {
    let log = Rc::new(RefCell::new(Log::default()));
    let source = RecordingSource { start: 0x1000, fail: false, log: log.clone() };
    let start = MemoryAddress::new(usize::MAX - 127).unwrap();
    assert!(BumpAllocator::from_obtained(source, nz(128), start).is_err());
    assert_eq!(log.borrow().released, vec![(128, usize::MAX - 127)]);
    let source = RecordingSource { start: 0x1000, fail: false, log: log.clone() };
    let start = MemoryAddress::new(usize::MAX - 128).unwrap();
    assert!(BumpAllocator::from_obtained(source, nz(128), start).is_ok());
}

#[test]
fn shrink_after_free_sets_cursor_to_new_end() {
    let (mut b, _log) = allocator(0x1000, 256);
    let a = b.allocate(nz(100), nz(8)).unwrap();
    b.deallocate(nz(100), nz(8), a);
    assert_eq!(b.shrinking_reallocate(nz(40), nz(8), nz(100), a), Ok(a));
    assert_eq!(address(b.allocate(nz(1), nz(1))), 0x1000 + 40);
}

#[test]
fn shrink_on_fresh_allocator_sets_cursor_to_new_end() {
    let (mut b, _log) = allocator(0x1000, 256);
    let start = b.allocations_start_from();
    assert_eq!(b.shrinking_reallocate(nz(16), nz(1), nz(32), start), Ok(start));
    assert_eq!(address(b.allocate(nz(1), nz(1))), 0x1000 + 16);
}
