use kernel::allocator::util::{align_up, is_power_of_two};
use kernel::allocator::{AllocErr, Allocator, Layout};

fn layout(size: usize, align: usize) -> Layout {
    Layout::from_size_align(size, align).unwrap()
}

#[test]
fn layout_keeps_size_and_align() {
    let l = layout(24, 8);
    assert_eq!(l.size(), 24);
    assert_eq!(l.align(), 8);
}

#[test]
fn layout_wants_a_power_of_two() {
    assert!(Layout::from_size_align(8, 0).is_none());
    assert!(Layout::from_size_align(8, 3).is_none());
    assert!(Layout::from_size_align(8, 24).is_none());
    assert!(Layout::from_size_align(8, 1).is_some());
    assert!(Layout::from_size_align(0, 4096).is_some());
}

#[test]
fn powers_of_two() {
    assert!(!is_power_of_two(0));
    assert!(is_power_of_two(1));
    assert!(is_power_of_two(2));
    assert!(!is_power_of_two(6));
    assert!(is_power_of_two(1 << 20));
    assert!(!is_power_of_two((1 << 20) + 1));
    assert!(!is_power_of_two(usize::MAX));
}

#[test]
fn align_up_rounds_to_the_next_multiple() {
    assert_eq!(align_up(0, 16), Some(0));
    assert_eq!(align_up(1, 16), Some(16));
    assert_eq!(align_up(16, 16), Some(16));
    assert_eq!(align_up(17, 16), Some(32));
    assert_eq!(align_up(100, 8), Some(104));
    assert_eq!(align_up(7, 1), Some(7));
}

#[test]
fn align_up_past_the_last_address() {
    assert_eq!(align_up(usize::MAX, 16), None);
    assert_eq!(align_up(usize::MAX - 14, 16), None);
    assert_eq!(align_up(usize::MAX - 16, 16), Some(usize::MAX - 15));
    assert_eq!(align_up(usize::MAX - 15, 16), Some(usize::MAX - 15));
}

#[test]
fn blocks_are_aligned_and_in_order() {
    let mut heap = Allocator::new(100, 1000);
    let a: usize = heap.allocate(layout(10, 16)).unwrap();
    let b: usize = heap.allocate(layout(8, 8)).unwrap();
    let c: usize = heap.allocate(layout(1, 1)).unwrap();
    let d: usize = heap.allocate(layout(64, 64)).unwrap();
    assert_eq!(a, 112);
    assert_eq!(b, 128);
    assert_eq!(c, 136);
    assert_eq!(d, 192);
    assert!(a + 10 <= b && b + 8 <= c && c + 1 <= d);
    assert_eq!(a % 16, 0);
    assert_eq!(b % 8, 0);
    assert_eq!(d % 64, 0);
}

#[test]
fn zero_size_is_unsupported() {
    let mut heap = Allocator::new(0, 1000);
    assert_eq!(
        heap.allocate(layout(0, 8)),
        Err(AllocErr::Unsupported { details: "zero sized allocation" })
    );
    // The refusal took nothing.
    assert_eq!(heap.allocate(layout(1000, 1)), Ok(0));
}

#[test]
fn block_may_end_at_the_end() {
    let mut heap = Allocator::new(16, 48);
    assert_eq!(heap.allocate(layout(32, 16)), Ok(16));
    assert_eq!(heap.allocate(layout(1, 1)), Err(AllocErr::Exhausted { request: layout(1, 1) }));
}

#[test]
fn exhausted_leaves_room_for_what_fits() {
    let mut heap = Allocator::new(0, 100);
    assert_eq!(heap.allocate(layout(60, 4)), Ok(0));
    let big = layout(50, 4);
    assert_eq!(heap.allocate(big), Err(AllocErr::Exhausted { request: big }));
    // A request that still fits is served, where the refused one would have started.
    assert_eq!(heap.allocate(layout(30, 4)), Ok(60));
    // The one that was refused is refused again, and so is any that goes past the end.
    assert_eq!(heap.allocate(big), Err(AllocErr::Exhausted { request: big }));
    let eleven = layout(11, 1);
    assert_eq!(heap.allocate(eleven), Err(AllocErr::Exhausted { request: eleven }));
    assert_eq!(heap.allocate(layout(10, 1)), Ok(90));
    let one = layout(1, 1);
    assert_eq!(heap.allocate(one), Err(AllocErr::Exhausted { request: one }));
}

#[test]
fn alignment_can_exhaust() {
    let mut heap = Allocator::new(1, 64);
    let l = layout(1, 64);
    // The first multiple of 64 at or above 1 is 64, where the region ends.
    assert_eq!(heap.allocate(l), Err(AllocErr::Exhausted { request: l }));
    assert_eq!(heap.allocate(layout(63, 1)), Ok(1));
}

#[test]
fn no_block_beyond_the_address_space() {
    let mut heap = Allocator::new(usize::MAX - 4, usize::MAX);
    let l = layout(8, 16);
    assert_eq!(heap.allocate(l), Err(AllocErr::Exhausted { request: l }));
    let m = layout(8, 1);
    assert_eq!(heap.allocate(m), Err(AllocErr::Exhausted { request: m }));
    assert_eq!(heap.allocate(layout(4, 1)), Ok(usize::MAX - 4));
}

#[test]
fn empty_region_serves_nothing() {
    let mut heap = Allocator::new(500, 100);
    let l = layout(1, 1);
    assert_eq!(heap.allocate(l), Err(AllocErr::Exhausted { request: l }));
}

#[test]
fn dealloc_frees_nothing() {
    let mut heap = Allocator::new(0, 64);
    let l = layout(64, 1);
    let a: usize = heap.allocate(l).unwrap();
    heap.dealloc(a, l);
    assert_eq!(heap.allocate(l), Err(AllocErr::Exhausted { request: l }));
}
