use minixrs::abi::errno::{EINVAL, ENOMEM};
use minixrs::abi::uspace::{USER_REGION_LIMIT, USER_STACK_BASE, USER_STACK_TOP};
use minixrs::vm::region::{
    contains, exec, fork, mmap, munmap, page_align_up, record_stack, set_brk, ClientRegions, Kind,
    RegionTable, HEAP_BASE, MAX_CLIENTS, MAX_REGIONS, MMAP_BASE, MMAP_GAP, PAGE_SIZE, REGION_LIMIT,
};

#[test]
fn set_brk_creates_heap_region() {
    let mut c = ClientRegions::empty();
    let brk = c.set_brk(HEAP_BASE + 0x4000).unwrap();
    assert_eq!(brk, HEAP_BASE + 0x4000);
    assert!(c.contains(HEAP_BASE));
    assert!(c.contains(HEAP_BASE + 0x3FFF));
    assert!(!c.contains(HEAP_BASE + 0x4000));
    assert!(!c.contains(HEAP_BASE - 1));
}

#[test]
fn set_brk_grows_existing_heap_in_place() {
    let mut c = ClientRegions::empty();
    c.set_brk(HEAP_BASE + 0x4000).unwrap();
    let brk = c.set_brk(HEAP_BASE + 0x8000).unwrap();
    assert_eq!(brk, HEAP_BASE + 0x8000);
    let heaps = c.regions.iter().filter(|r| r.kind == Kind::Heap).count();
    assert_eq!(heaps, 1);
    assert!(c.contains(HEAP_BASE + 0x4000));
    assert!(c.contains(HEAP_BASE + 0x7FFF));
    assert!(!c.contains(HEAP_BASE + 0x8000));
}

#[test]
fn set_brk_shrinks_heap() {
    let mut c = ClientRegions::empty();
    c.set_brk(HEAP_BASE + 0x8000).unwrap();
    let brk = c.set_brk(HEAP_BASE + 0x4000).unwrap();
    assert_eq!(brk, HEAP_BASE + 0x4000);
    assert!(c.contains(HEAP_BASE + 0x3FFF));
    assert!(!c.contains(HEAP_BASE + 0x4000));
}

#[test]
fn set_brk_rounds_break_up_to_page() {
    let mut c = ClientRegions::empty();
    let brk = c.set_brk(HEAP_BASE + 1).unwrap();
    assert_eq!(brk, HEAP_BASE + PAGE_SIZE);
    assert!(c.contains(HEAP_BASE + PAGE_SIZE - 1));
    assert!(!c.contains(HEAP_BASE + PAGE_SIZE));
}

#[test]
fn set_brk_page_aligned_break_is_unchanged() {
    let mut c = ClientRegions::empty();
    assert_eq!(c.set_brk(HEAP_BASE + PAGE_SIZE), Ok(HEAP_BASE + PAGE_SIZE));
}

#[test]
fn set_brk_below_heap_base_is_einval() {
    let mut c = ClientRegions::empty();
    assert_eq!(c.set_brk(HEAP_BASE - 1), Err(EINVAL));
    assert_eq!(c.set_brk(0), Err(EINVAL));
}

#[test]
fn set_brk_overflow_is_einval_not_wrap() {
    let mut c = ClientRegions::empty();
    assert_eq!(c.set_brk(u64::MAX), Err(EINVAL));
    assert_eq!(c.set_brk(u64::MAX - (PAGE_SIZE - 2)), Err(EINVAL));
    let max_ok = !(PAGE_SIZE - 1);
    assert_eq!(c.set_brk(max_ok), Err(ENOMEM));
}

#[test]
fn contains_is_false_for_untracked_client() {
    let t = RegionTable::new();
    assert!(!contains(&t, 14, HEAP_BASE));
}

#[test]
fn contains_rejects_out_of_range_proc_numbers() {
    let t = RegionTable::new();
    assert!(!contains(&t, -1, HEAP_BASE));
    assert!(!contains(&t, MAX_CLIENTS as i32, HEAP_BASE));
}

#[test]
fn empty_client_contains_nothing() {
    let c = ClientRegions::empty();
    assert!(!c.contains(HEAP_BASE));
    assert!(!c.contains(0));
}

#[test]
fn mmap_creates_region_and_returns_base() {
    let mut c = ClientRegions::empty();
    let a = c.mmap(0x2000).unwrap();
    assert_eq!(a, MMAP_BASE);
    assert!(c.contains(MMAP_BASE));
    assert!(c.contains(MMAP_BASE + 0x1FFF));
    assert!(!c.contains(MMAP_BASE + 0x2000));
}

#[test]
fn mmap_rounds_len_up_to_page() {
    let mut c = ClientRegions::empty();
    let a = c.mmap(1).unwrap();
    assert!(c.contains(a + PAGE_SIZE - 1));
    assert!(!c.contains(a + PAGE_SIZE));
    let b = c.mmap(1).unwrap();
    assert_eq!(b, a + PAGE_SIZE);
}

#[test]
fn mmap_bumps_address_each_call() {
    let mut c = ClientRegions::empty();
    let a = c.mmap(0x2000).unwrap();
    let b = c.mmap(0x1000).unwrap();
    assert_eq!(b, a + 0x2000);
    assert!(c.contains(a));
    assert!(c.contains(b));
}

#[test]
fn mmap_zero_len_is_einval() {
    let mut c = ClientRegions::empty();
    assert_eq!(c.mmap(0), Err(EINVAL));
}

#[test]
fn mmap_overflowing_len_is_einval_not_wrap() {
    let mut c = ClientRegions::empty();
    assert_eq!(c.mmap(u64::MAX), Err(EINVAL));
}

#[test]
fn mmap_enomem_when_no_slot_free() {
    let mut c = ClientRegions::empty();
    for _ in 0..MAX_REGIONS {
        c.mmap(0x1000).unwrap();
    }
    assert_eq!(c.mmap(0x1000), Err(ENOMEM));
}
#[test]
fn set_brk_stops_at_the_region_ceiling() {
    let mut c = ClientRegions::empty();
    assert_eq!(c.set_brk(REGION_LIMIT), Ok(REGION_LIMIT));
    assert!(!c.contains(REGION_LIMIT));
    assert!(c.contains(REGION_LIMIT - 1));
    assert_eq!(c.set_brk(REGION_LIMIT + 1), Err(ENOMEM));
    let heap = c.regions.iter().find(|r| r.kind == Kind::Heap).unwrap();
    assert_eq!(heap.end, REGION_LIMIT, "a refused brk must change nothing");
    let mut c = ClientRegions::empty();
    assert_eq!(c.set_brk(REGION_LIMIT - PAGE_SIZE + 1), Ok(REGION_LIMIT));
    assert_eq!(
        c.set_brk(REGION_LIMIT - PAGE_SIZE + 1 + PAGE_SIZE),
        Err(ENOMEM)
    );
    let mut c = ClientRegions::empty();
    assert_eq!(c.set_brk(0x8000_0000), Err(ENOMEM));
    assert!(c.regions.iter().all(|r| r.kind == Kind::Unused));
}

#[test]
fn both_region_origins_sit_below_the_bound() {
    assert_eq!(REGION_LIMIT, USER_REGION_LIMIT);
    assert_eq!(HEAP_BASE.min(REGION_LIMIT), HEAP_BASE);
    assert_eq!(MMAP_BASE.min(REGION_LIMIT), MMAP_BASE);
}
#[test]
fn mmap_stops_at_the_region_ceiling() {
    let mut c = ClientRegions::empty();
    c.mmap_next = REGION_LIMIT - PAGE_SIZE;
    let last = c.mmap(PAGE_SIZE).unwrap();
    assert_eq!(last, REGION_LIMIT - PAGE_SIZE);
    assert_eq!(c.mmap_next, REGION_LIMIT);
    assert_eq!(c.mmap(PAGE_SIZE), Err(ENOMEM));
    c.mmap_next = REGION_LIMIT - PAGE_SIZE;
    assert_eq!(c.mmap(2 * PAGE_SIZE), Err(ENOMEM));
    assert_eq!(
        c.mmap_next,
        REGION_LIMIT - PAGE_SIZE,
        "cursor moved on failure"
    );
}

#[test]
fn the_arena_starts_below_the_region_ceiling() {
    assert_eq!(REGION_LIMIT, USER_REGION_LIMIT);
    assert_eq!(MMAP_BASE.min(REGION_LIMIT), MMAP_BASE);
}

#[test]
fn munmap_removes_region_and_returns_range() {
    let mut c = ClientRegions::empty();
    let a = c.mmap(0x2000).unwrap();
    let (start, end) = c.munmap(a, 0x2000).unwrap();
    assert_eq!((start, end), (a, a + 0x2000));
    assert!(!c.contains(a));
    let mmaps = c.regions.iter().filter(|r| r.kind == Kind::Mmap).count();
    assert_eq!(mmaps, 0);
}

#[test]
fn munmap_unknown_addr_is_einval() {
    let mut c = ClientRegions::empty();
    assert_eq!(c.munmap(MMAP_BASE, 0x1000), Err(EINVAL));
    let a = c.mmap(0x1000).unwrap();
    assert_eq!(c.munmap(a + 0x1000, 0x1000), Err(EINVAL));
}

#[test]
fn munmap_does_not_touch_heap_region() {
    let mut c = ClientRegions::empty();
    c.set_brk(HEAP_BASE + 0x1000).unwrap();
    let a = c.mmap(0x1000).unwrap();
    c.munmap(a, 0x1000).unwrap();
    assert!(c.contains(HEAP_BASE));
    assert_eq!(c.regions.iter().filter(|r| r.kind == Kind::Heap).count(), 1);
}

#[test]
fn munmap_zero_len_is_einval_and_keeps_region() {
    let mut c = ClientRegions::empty();
    let a = c.mmap(0x1000).unwrap();
    assert_eq!(c.munmap(a, 0), Err(EINVAL));
    assert!(c.contains(a));
    assert_eq!(c.regions.iter().filter(|r| r.kind == Kind::Mmap).count(), 1);
}

#[test]
fn munmap_caps_sweep_to_region_end() {
    let mut c = ClientRegions::empty();
    let a = c.mmap(0x1000).unwrap();
    let (start, end) = c.munmap(a, 0x4000).unwrap();
    assert_eq!((start, end), (a, a + 0x1000));
}

#[test]
fn fork_clones_parent_regions_into_child() {
    let mut t = RegionTable::new();
    set_brk(&mut t, 20, HEAP_BASE + 0x4000).unwrap();
    let mmap_base = mmap(&mut t, 20, 0x2000).unwrap();

    fork(&mut t, 20, 21).unwrap();
    assert!(contains(&t, 21, HEAP_BASE));
    assert!(contains(&t, 21, HEAP_BASE + 0x3FFF));
    assert!(contains(&t, 21, mmap_base));
    assert!(!contains(&t, 21, HEAP_BASE + 0x4000));
}

#[test]
fn fork_from_untracked_parent_gives_empty_child() {
    let mut t = RegionTable::new();
    fork(&mut t, 28, 29).unwrap();
    assert!(!contains(&t, 29, HEAP_BASE));
}

#[test]
fn fork_out_of_range_is_einval() {
    let mut t = RegionTable::new();
    assert_eq!(fork(&mut t, -1, 5), Err(EINVAL));
    assert_eq!(fork(&mut t, 30, MAX_CLIENTS as i32), Err(EINVAL));
}

#[test]
fn a_fresh_client_still_uses_the_legacy_origins() {
    let mut c = ClientRegions::empty();
    let brk = c.set_brk(HEAP_BASE + 0x1000).unwrap();
    assert_eq!(brk, HEAP_BASE + 0x1000);
    assert!(c.contains(HEAP_BASE));
}

#[test]
fn exec_moves_the_heap_origin_to_the_image_end() {
    let mut c = ClientRegions::empty();
    let image_end = 0x0030_2000;
    c.exec(image_end);
    let brk = c.set_brk(image_end + 0x1000).unwrap();
    assert_eq!(brk, image_end + 0x1000);
    assert!(c.contains(image_end));
    assert!(!c.contains(HEAP_BASE));
}

#[test]
fn a_brk_below_the_recorded_origin_is_einval() {
    let mut c = ClientRegions::empty();
    let image_end = HEAP_BASE + 0x0010_0000;
    c.exec(image_end);
    assert_eq!(c.set_brk(image_end - 1), Err(EINVAL));
    assert_eq!(c.set_brk(HEAP_BASE + 0x1000), Err(EINVAL));
}

#[test]
fn exec_drops_the_previous_images_regions() {
    let mut c = ClientRegions::empty();
    c.set_brk(HEAP_BASE + 0x4000).unwrap();
    let old_mmap = c.mmap(0x2000).unwrap();
    assert!(c.contains(old_mmap));

    let dropped = c.exec(0x0030_2000);
    assert_eq!(dropped, 2, "heap + one mmap should have been dropped");
    assert!(!c.contains(old_mmap));
    assert!(!c.contains(HEAP_BASE));
}

#[test]
fn the_mmap_arena_bumps_from_the_recorded_origin_plus_the_gap() {
    let mut c = ClientRegions::empty();
    let image_end = 0x0030_2000;
    c.exec(image_end);
    let base = c.mmap(0x1000).unwrap();
    assert_eq!(base, image_end + MMAP_GAP);
    assert_eq!(MMAP_BASE, HEAP_BASE + MMAP_GAP);
}

#[test]
fn a_recorded_stack_is_contained_but_is_not_a_heap_or_an_mmap() {
    let mut c = ClientRegions::empty();
    c.record_stack();
    assert!(c.contains(USER_STACK_BASE));
    assert!(c.contains(USER_STACK_TOP - 1));
    assert!(!c.contains(USER_STACK_TOP), "the range is half-open");
    assert!(!c.contains(USER_STACK_BASE - 1));
    assert_eq!(c.munmap(USER_STACK_BASE, 0x1000), Err(EINVAL));
}

#[test]
fn the_region_ceiling_excludes_the_stack_and_its_guard_page() {
    let mut c = ClientRegions::empty();
    assert_eq!(c.set_brk(REGION_LIMIT + 1), Err(ENOMEM));
    assert_eq!(REGION_LIMIT, USER_REGION_LIMIT);
    let guard = USER_STACK_BASE - REGION_LIMIT;
    assert_eq!(guard, PAGE_SIZE, "the guard page is not one page wide");
}

#[test]
fn a_page_is_rounded_up_unless_that_overflows() {
    assert_eq!(page_align_up(0), Some(0));
    assert_eq!(page_align_up(1), Some(4096));
    assert_eq!(page_align_up(8192), Some(8192));
    assert_eq!(page_align_up(u64::MAX - 4095), Some(u64::MAX - 4095));
    assert_eq!(page_align_up(u64::MAX - 4094), None);
}

#[test]
fn the_table_keeps_each_process_apart() {
    let mut t = RegionTable::new();
    assert_eq!(exec(&mut t, 12, 0x0030_2000), Ok(0));
    assert_eq!(record_stack(&mut t, 12), Ok(()));
    assert_eq!(set_brk(&mut t, 12, 0x0030_3000), Ok(0x0030_3000));
    let base = mmap(&mut t, 12, 0x1000).unwrap();
    assert_eq!(base, 0x0030_2000 + MMAP_GAP);
    assert!(contains(&t, 12, USER_STACK_TOP - 1));
    assert!(!contains(&t, 13, USER_STACK_TOP - 1));
    assert_eq!(munmap(&mut t, 12, base, 0x1000), Ok((base, base + 0x1000)));
    assert_eq!(munmap(&mut t, 13, base, 0x1000), Err(EINVAL));
    assert_eq!(exec(&mut t, 12, 0x0040_0000), Ok(2));
    for nr in [-1, MAX_CLIENTS as i32] {
        assert_eq!(set_brk(&mut t, nr, HEAP_BASE), Err(EINVAL));
        assert_eq!(mmap(&mut t, nr, 1), Err(EINVAL));
        assert_eq!(exec(&mut t, nr, 0), Err(EINVAL));
        assert_eq!(record_stack(&mut t, nr), Err(EINVAL));
    }
}
