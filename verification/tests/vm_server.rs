use minixrs::abi::callnr::{
    SYS_VMCTL, VMCTL_CLEAR_PAGEFAULT, VMCTL_PROT_WRITE, VMCTL_PT_MAP, VMCTL_PT_UNMAP, VM_BRK,
    VM_FORK, VM_MMAP, VM_MUNMAP, VM_PAGEFAULT,
};
use minixrs::abi::errno::{EINVAL, ENOMEM, OK};
use minixrs::abi::message::Message;
use minixrs::rt::payload::{rd_i32, rd_u64, wr_i32, wr_u64};
use minixrs::vm::region::{contains, set_brk, RegionTable, HEAP_BASE, MMAP_BASE, REGION_LIMIT};
use minixrs::vm::server::{
    handle_brk, handle_fork, handle_mmap, handle_munmap, handle_pagefault, request, Request,
};

fn ask(m_type: i32, source: i32, a: u64, b: u64) -> Message {
    let mut m = Message::request(m_type);
    m.m_source = source;
    wr_u64(&mut m, 0, a);
    wr_u64(&mut m, 8, b);
    m
}

#[test]
fn a_fault_inside_the_heap_is_resolved_and_one_outside_is_not() {
    let mut t = RegionTable::new();
    set_brk(&mut t, 12, HEAP_BASE + 0x2000).unwrap();
    let (map, clear) = handle_pagefault(&t, 12, HEAP_BASE + 0x1234).expect("inside the heap");
    assert_eq!((map.m_type, rd_i32(&map, 0), rd_i32(&map, 4)), (SYS_VMCTL, VMCTL_PT_MAP, 12));
    assert_eq!((rd_u64(&map, 8), rd_i32(&map, 16)), (HEAP_BASE + 0x1000, VMCTL_PROT_WRITE));
    assert_eq!((rd_i32(&clear, 0), rd_i32(&clear, 4)), (VMCTL_CLEAR_PAGEFAULT, 12));
    assert!(handle_pagefault(&t, 12, HEAP_BASE + 0x2000).is_none());
    assert!(handle_pagefault(&t, 13, HEAP_BASE).is_none());
    assert!(handle_pagefault(&t, 0x7ffe, HEAP_BASE).is_none());
}

#[test]
fn a_break_and_a_mapping_are_answered_with_their_address() {
    let mut t = RegionTable::new();
    let mut m = ask(VM_BRK, 12, HEAP_BASE + 1, 0);
    assert_eq!(handle_brk(&mut t, &mut m), 12);
    assert_eq!((m.m_type, m.m_source, rd_u64(&m, 0)), (OK, 0, HEAP_BASE + 0x1000));
    let mut m = ask(VM_MMAP, 12, 0x2000, 0);
    assert_eq!(handle_mmap(&mut t, &mut m), 12);
    assert_eq!((m.m_type, rd_u64(&m, 0)), (OK, MMAP_BASE));
    let mut m = ask(VM_BRK, 12, HEAP_BASE - 1, 0);
    handle_brk(&mut t, &mut m);
    assert_eq!((m.m_type, rd_u64(&m, 0)), (EINVAL, HEAP_BASE - 1));
    let mut m = ask(VM_BRK, 12, REGION_LIMIT + 1, 0);
    handle_brk(&mut t, &mut m);
    assert_eq!(m.m_type, ENOMEM);
    let mut m = ask(VM_MMAP, 0x7ffe, 0x2000, 0);
    handle_mmap(&mut t, &mut m);
    assert_eq!(m.m_type, EINVAL);
}

#[test]
fn an_unmapping_sweeps_every_page_once() {
    let mut t = RegionTable::new();
    let mut m = ask(VM_MMAP, 12, 0x3000, 0);
    handle_mmap(&mut t, &mut m);
    let mut m = ask(VM_MUNMAP, 12, MMAP_BASE, 0x10_0000);
    let (caller, mut sweep) = handle_munmap(&mut t, &mut m);
    assert_eq!((caller, m.m_type), (12, OK));
    let mut pages = Vec::new();
    while let Some(call) = sweep.next() {
        assert_eq!((rd_i32(&call, 0), rd_i32(&call, 4)), (VMCTL_PT_UNMAP, 12));
        pages.push(rd_u64(&call, 8));
    }
    assert_eq!(pages, [MMAP_BASE, MMAP_BASE + 0x1000, MMAP_BASE + 0x2000]);
    let mut m = ask(VM_MUNMAP, 12, MMAP_BASE, 0x3000);
    let (_, mut sweep) = handle_munmap(&mut t, &mut m);
    assert_eq!(m.m_type, EINVAL);
    assert!(sweep.next().is_none());
}

#[test]
fn a_fork_copies_the_regions_of_the_processes_it_names() {
    let mut t = RegionTable::new();
    set_brk(&mut t, 12, HEAP_BASE + 0x1000).unwrap();
    let mut m = Message::request(VM_FORK);
    m.m_source = 0;
    wr_i32(&mut m, 0, 12);
    wr_i32(&mut m, 4, 0x8000 + 15);
    assert_eq!(handle_fork(&mut t, &mut m), 0);
    assert_eq!(m.m_type, OK);
    assert!(contains(&t, 15, HEAP_BASE));
    wr_i32(&mut m, 4, 200);
    handle_fork(&mut t, &mut m);
    assert_eq!(m.m_type, EINVAL);
}

#[test]
fn memory_requests_are_told_apart() {
    assert_eq!(request(VM_PAGEFAULT), Request::PageFault);
    assert_eq!(request(VM_BRK), Request::Brk);
    assert_eq!(request(VM_MMAP), Request::Mmap);
    assert_eq!(request(VM_MUNMAP), Request::Munmap);
    assert_eq!(request(VM_FORK), Request::Fork);
    assert_eq!(request(0), Request::Unknown);
}
