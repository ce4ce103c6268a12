use frost_core::fundamental::memory::memory_align;
use frost_core::fundamental::memory::Allocator;
use frost_core::fundamental::memory::DoubleStackAllocator;
use frost_core::fundamental::memory::HeapAllocator;
use frost_core::fundamental::memory::LinearAllocator;
use frost_core::fundamental::memory::MemoryService;
use frost_core::fundamental::memory::MemoryServiceConfiguration;
use frost_core::fundamental::memory::StackAllocator;
use frost_core::fundamental::memory::GIGA;
use frost_core::fundamental::memory::KILO;
use frost_core::fundamental::memory::MEGA;

#[test]
fn memory_align_rounds_up_to_the_next_multiple() {
    assert_eq!(memory_align(0, 8), 0);
    assert_eq!(memory_align(1, 8), 8);
    assert_eq!(memory_align(8, 8), 8);
    assert_eq!(memory_align(9, 8), 16);
    assert_eq!(memory_align(13, 1), 13);
    assert_eq!(memory_align(13, 5), 15);
    assert_eq!(memory_align(100, 64), 128);
}

#[test]
fn memory_align_result_is_the_least_multiple_not_below() {
    for alignment in 1usize..20 {
        for size in 0usize..200 {
            let aligned = memory_align(size, alignment);
            assert_eq!(aligned % alignment, 0);
            assert!(aligned >= size);
            assert!(aligned < size + alignment);
        }
    }
}

#[test]
fn size_constants() {
    assert_eq!(KILO, 1024);
    assert_eq!(MEGA, 1024 * 1024);
    assert_eq!(GIGA, 1024 * 1024 * 1024);
    assert_eq!(MemoryServiceConfiguration::default().maximum_dynamic_size, 32 * 1024 * 1024);
}

#[test]
fn linear_arena_fills_up_and_clears() {
    let mut arena = LinearAllocator::new();
    arena.init(100);
    assert!(arena.can_allocate(60, 1));
    assert_eq!(arena.allocate(60, 1), 0);
    // 60 + 50 > 100: the request is one that must not be made.
    assert!(!arena.can_allocate(50, 1));
    assert!(arena.can_allocate(40, 1));
    arena.clear();
    assert!(arena.can_allocate(50, 1));
    assert_eq!(arena.allocate(50, 1), 0);
    assert_eq!(arena.allocate(50, 1), 50);
    assert!(!arena.can_allocate(1, 1));
    assert!(arena.can_allocate(0, 1));
}

#[test]
fn linear_arena_aligns_the_start_of_each_allocation() {
    let mut arena = LinearAllocator::new();
    arena.init(64);
    assert_eq!(arena.allocate(3, 1), 0);
    assert_eq!(arena.allocate(4, 8), 8);
    assert_eq!(arena.allocate(1, 16), 16);
    assert_eq!(arena.allocate(1, 1), 17);
    // The next multiple of 32 is 32, and 32 + 32 fits exactly.
    assert!(arena.can_allocate(32, 32));
    assert!(!arena.can_allocate(33, 32));
    assert!(!arena.can_allocate(1, 0));
    assert_eq!(arena.allocate(32, 32), 32);
}

#[test]
fn linear_arena_deallocate_changes_nothing() {
    let mut arena = LinearAllocator::new();
    arena.init(16);
    let first = arena.allocate(8, 1);
    arena.deallocate(first);
    assert_eq!(arena.allocate(8, 1), 8);
    assert!(!arena.can_allocate(1, 1));
}

#[test]
fn linear_arena_without_block_has_no_room() {
    let mut arena = LinearAllocator::new();
    assert!(!arena.can_allocate(1, 1));
    arena.init(4);
    assert!(arena.can_allocate(4, 1));
    arena.shutdown();
    assert!(!arena.can_allocate(1, 1));
}

#[test]
fn linear_arena_block_is_zeroed_and_keeps_what_is_written() {
    let mut arena = LinearAllocator::new();
    arena.init(8);
    let offset = arena.allocate(4, 4);
    assert_eq!(arena.read(offset), 0);
    arena.write(offset + 1, 0xab);
    assert_eq!(arena.read(offset + 1), 0xab);
    assert_eq!(arena.read(offset), 0);
    arena.clear();
    assert_eq!(arena.read(offset + 1), 0xab);
}

#[test]
fn marker_arena_restores_the_cursor() {
    let mut arena = StackAllocator::new(100);
    arena.init(100);
    let before = arena.allocate(10, 1);
    assert_eq!(before, 0);
    let marker = arena.get_marker();
    assert_eq!(marker, 10);
    assert_eq!(arena.allocate(20, 1), 10);
    assert_eq!(arena.get_marker(), 30);
    arena.free_marker(marker);
    assert_eq!(arena.get_marker(), marker);
}

#[test]
fn marker_arena_never_moves_the_cursor_forward() {
    let mut arena = StackAllocator::new(100);
    arena.init(100);
    arena.allocate(10, 1);
    arena.free_marker(50);
    assert_eq!(arena.get_marker(), 10);
    arena.free_marker(10);
    assert_eq!(arena.get_marker(), 10);
    arena.free_marker(0);
    assert_eq!(arena.get_marker(), 0);
}

#[test]
fn marker_arena_allocates_like_the_linear_arena() {
    let mut arena = StackAllocator::new(100);
    arena.init(100);
    assert_eq!(arena.allocate(60, 1), 0);
    assert!(!arena.can_allocate(50, 1));
    arena.clear();
    assert_eq!(arena.get_marker(), 0);
    assert_eq!(arena.allocate(3, 4), 0);
    assert_eq!(arena.allocate(50, 4), 4);
    arena.deallocate(4);
    assert_eq!(arena.get_marker(), 54);
    arena.write(4, 9);
    assert_eq!(arena.read(4), 9);
    arena.shutdown();
    assert_eq!(arena.get_marker(), 0);
    assert!(!arena.can_allocate(1, 1));
}

#[test]
fn dual_cursor_arena_sides_do_not_cross() {
    let mut arena = DoubleStackAllocator::new(100);
    arena.init(100);
    assert!(arena.can_allocate_top(40, 1));
    assert_eq!(arena.allocate_top(40, 1), 60);
    assert_eq!(arena.get_top_marker(), 60);
    // The bottom would have to reach 70, past the top at 60.
    assert!(!arena.can_allocate_bottom(70, 1));
    // Meeting the other cursor is refused as well.
    assert!(!arena.can_allocate_bottom(60, 1));
    assert!(arena.can_allocate_bottom(59, 1));
    assert_eq!(arena.allocate_bottom(59, 1), 0);
    assert_eq!(arena.get_bottom_marker(), 59);
    assert!(!arena.can_allocate_top(1, 1));
    assert!(!arena.can_allocate_bottom(1, 1));
}

#[test]
fn dual_cursor_arena_aligns_top_down_and_bottom_up() {
    let mut arena = DoubleStackAllocator::new(100);
    arena.init(100);
    // 100 - 10 = 90, aligned downward to 88.
    assert_eq!(arena.allocate_top(10, 8), 88);
    assert_eq!(arena.allocate_bottom(3, 1), 0);
    // 3 aligned upward to 16.
    assert_eq!(arena.allocate_bottom(4, 16), 16);
    assert_eq!(arena.get_bottom_marker(), 20);
    assert!(!arena.can_allocate_top(89, 1));
    assert!(!arena.can_allocate_top(68, 1));
    assert!(arena.can_allocate_top(67, 1));
    assert!(!arena.can_allocate_top(1, 0));
    assert!(!arena.can_allocate_bottom(1, 0));
}

#[test]
fn dual_cursor_arena_gives_back_by_size_and_stops_at_the_ends() {
    let mut arena = DoubleStackAllocator::new(100);
    arena.init(100);
    arena.allocate_top(40, 1);
    arena.allocate_bottom(30, 1);
    arena.deallocate_top(10);
    assert_eq!(arena.get_top_marker(), 70);
    arena.deallocate_top(1000);
    assert_eq!(arena.get_top_marker(), 100);
    arena.deallocate_bottom(10);
    assert_eq!(arena.get_bottom_marker(), 20);
    arena.deallocate_bottom(21);
    assert_eq!(arena.get_bottom_marker(), 0);
}

#[test]
fn dual_cursor_arena_markers() {
    let mut arena = DoubleStackAllocator::new(100);
    arena.init(100);
    arena.allocate_top(10, 1);
    let top = arena.get_top_marker();
    assert_eq!(top, 90);
    arena.allocate_top(20, 1);
    arena.free_top_marker(top);
    assert_eq!(arena.get_top_marker(), 90);
    // A marker below the top, or beyond the capacity, is ignored.
    arena.free_top_marker(50);
    assert_eq!(arena.get_top_marker(), 90);
    arena.free_top_marker(90);
    assert_eq!(arena.get_top_marker(), 90);
    arena.free_top_marker(101);
    assert_eq!(arena.get_top_marker(), 90);
    arena.free_top_marker(usize::MAX);
    assert_eq!(arena.get_top_marker(), 90);
    arena.free_top_marker(99);
    assert_eq!(arena.get_top_marker(), 99);
    // The capacity itself is a marker: that of the empty top side.
    arena.free_top_marker(100);
    assert_eq!(arena.get_top_marker(), 100);

    arena.allocate_bottom(10, 1);
    let bottom = arena.get_bottom_marker();
    arena.allocate_bottom(20, 1);
    arena.free_bottom_marker(bottom);
    assert_eq!(arena.get_bottom_marker(), 10);
    arena.free_bottom_marker(40);
    assert_eq!(arena.get_bottom_marker(), 10);
    arena.clear_top();
    assert_eq!(arena.get_top_marker(), 100);
    arena.clear_bottom();
    assert_eq!(arena.get_bottom_marker(), 0);
}

#[test]
fn top_marker_of_the_empty_side_is_restored() {
    let mut arena = DoubleStackAllocator::new(100);
    arena.init(100);
    let marker = arena.get_top_marker();
    assert_eq!(marker, 100);
    assert_eq!(arena.allocate_top(40, 1), 60);
    assert_eq!(arena.allocate_bottom(10, 1), 0);
    arena.free_top_marker(marker);
    assert_eq!(arena.get_top_marker(), marker);
    assert_eq!(arena.get_bottom_marker(), 10);
    assert!(arena.can_allocate_top(89, 1));
    assert!(!arena.can_allocate_top(90, 1));
}

#[test]
fn dual_cursor_arena_keeps_its_capacity_on_record_after_shutdown() {
    let mut arena = DoubleStackAllocator::new(64);
    arena.init(64);
    arena.allocate_top(8, 1);
    arena.allocate_bottom(8, 1);
    arena.shutdown();
    assert_eq!(arena.get_top_marker(), 0);
    assert_eq!(arena.get_bottom_marker(), 0);
    assert!(!arena.can_allocate_top(1, 1));
    assert!(!arena.can_allocate_bottom(1, 1));
    // The capacity is still 64: a marker up to there is taken.
    arena.free_top_marker(64);
    assert_eq!(arena.get_top_marker(), 64);
    arena.free_top_marker(65);
    assert_eq!(arena.get_top_marker(), 64);
}

#[test]
fn dual_cursor_arena_as_allocator_serves_from_the_top() {
    let mut arena = DoubleStackAllocator::new(32);
    arena.init(32);
    assert_eq!(Allocator::allocate(&mut arena, 8, 1), 24);
    Allocator::deallocate(&mut arena, 24);
    assert_eq!(arena.get_top_marker(), 24);
    arena.write(24, 7);
    assert_eq!(arena.read(24), 7);
    arena.shutdown();
    assert_eq!(arena.get_top_marker(), 0);
    assert_eq!(arena.get_bottom_marker(), 0);
}

#[test]
fn dual_cursor_arena_of_no_capacity_serves_nothing() {
    let arena = DoubleStackAllocator::new(0);
    assert!(!arena.can_allocate_top(0, 1));
    assert!(!arena.can_allocate_bottom(0, 1));
}

#[test]
fn heap_arena_hands_out_a_block_per_request() {
    let mut heap = HeapAllocator::new();
    heap.init(1024);
    let first = heap.allocate(16, 8);
    let second = heap.allocate(4, 1);
    assert_eq!(first, 0);
    assert_eq!(second, 1);
    assert_eq!(heap.read(first, 15), 0);
    heap.write(first, 15, 42);
    heap.write(second, 0, 7);
    assert_eq!(heap.read(first, 15), 42);
    assert_eq!(heap.read(second, 0), 7);
    heap.deallocate(first);
    assert_eq!(heap.read(second, 0), 7);
    // A handle that was never handed out is ignored.
    heap.deallocate(99);
    assert_eq!(heap.allocate(1, 1), 2);
    heap.shutdown();
    assert_eq!(heap.read(second, 0), 7);
}

#[test]
fn memory_service_starts_and_stops() {
    let mut service = MemoryService::new();
    let configuration = MemoryServiceConfiguration { maximum_dynamic_size: 4096 };
    service.init(&configuration);
    let block = service.system_allocator.allocate(8, 1);
    assert_eq!(block, 0);
    assert!(!service.scratch_allocator.can_allocate(1, 1));
    service.shutdown();
}
