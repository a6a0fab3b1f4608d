use qkernel::allocator::{BitmapAllocatorWrapper, ListAllocator, OOMHandler};
use qkernel::effect::Effect;
use qkernel::memory::{CCMode, Heap, HeapSetup, HostAllocator, MemoryDef};

const HEADER: usize = 0x300;

fn map() -> MemoryDef {
    MemoryDef {
        HEAP_OFFSET: 0x40_0000_0000,
        HEAP_END: 0x52_0000_0000,
        GUEST_PRIVATE_HEAP_OFFSET: 0x44_0000_0000,
        GUEST_PRIVATE_RUNNING_HEAP_OFFSET: 0x48_0000_0000,
        GUEST_PRIVATE_RUNNING_HEAP_SIZE: 0x2_0000_0000,
        GUEST_HOST_SHARED_HEAP_OFFSET: 0x50_0000_0000,
        GUEST_HOST_SHARED_HEAP_SIZE: 0x2_0000_0000,
        IO_HEAP_SIZE: 0x1_0000_0000,
        PAGE_SIZE: 0x1000,
        PAGE_SHIFT: 12,
        HUGE_PAGE_SIZE: 0x20_0000,
        HYPERCALL_MMIO_BASE: 0x1000_0000,
        HYPERCALL_PARA_PAGE_OFFSET: 0x50_0000_3000,
    }
}

#[test]
fn new_host_allocator_knows_no_heap() {
    let h = HostAllocator::New();
    assert_eq!(
        h,
        HostAllocator {
            ioHeapAddr: 0,
            guestPrivHeapAddr: 0,
            hostInitHeapAddr: 0,
            sharedHeapAddr: 0,
            vmLaunched: true,
            initialized: true,
        }
    );
}

#[test]
fn private_heap_of_an_emulated_machine() {
    let mut h = HostAllocator::New();
    let setup = h.InitPrivateAllocator(CCMode::NormalEmu, &map(), HEADER);
    assert_eq!(h.guestPrivHeapAddr, 0x48_0000_0000);
    assert_eq!(h.sharedHeapAddr, 0);
    assert_eq!(
        setup,
        vec![
            HeapSetup::ClearIdenticalMapping,
            HeapSetup::Place {
                heap: Heap::GuestPrivate,
                at: 0x48_0000_0000,
                start: 0x48_0000_0000,
                end: 0x4a_0000_0000,
            },
            HeapSetup::Add {
                heap: Heap::GuestPrivate,
                base: 0x48_0000_0300,
                len: 0x1_ffff_fd00,
            },
        ]
    );
}

#[test]
fn private_heap_that_is_there_already() {
    let mut h = HostAllocator::New();
    assert!(h.InitPrivateAllocator(CCMode::Off, &map(), HEADER).is_empty());
    assert_eq!(h.guestPrivHeapAddr, 0x40_0000_0000);
    assert!(h.InitPrivateAllocator(CCMode::Other(3), &map(), HEADER).is_empty());
    assert_eq!(h.guestPrivHeapAddr, 0x44_0000_0000);
}

#[test]
fn shared_heaps_under_confidential_computing() {
    for mode in [CCMode::NormalEmu, CCMode::Other(1)] {
        let mut h = HostAllocator::New();
        let setup = h.InitSharedAllocator(mode, &map(), HEADER);
        assert_eq!(h.sharedHeapAddr, 0x50_0000_0000);
        assert_eq!(h.ioHeapAddr, 0x52_0000_0000);
        assert_eq!(h.guestPrivHeapAddr, 0);
        assert_eq!(
            setup,
            vec![
                HeapSetup::Place {
                    heap: Heap::GuestHostShared,
                    at: 0x50_0000_0000,
                    start: 0x50_0000_0000,
                    end: 0x52_0000_0000,
                },
                HeapSetup::Place {
                    heap: Heap::IO,
                    at: 0x52_0000_0000,
                    start: 0x52_0000_0000,
                    end: 0x53_0000_0000,
                },
                HeapSetup::Add {
                    heap: Heap::IO,
                    base: 0x52_0000_0300,
                    len: 0xffff_fd00,
                },
                HeapSetup::Add {
                    heap: Heap::GuestHostShared,
                    base: 0x50_0000_4000,
                    len: 0x1_ffff_c000,
                },
            ]
        );
    }
}

#[test]
fn the_io_region_starts_at_the_heap_end_of_the_map() {
    let mut m = map();
    m.HEAP_END = 0x60_0000_0000;
    let mut h = HostAllocator::New();
    let setup = h.InitSharedAllocator(CCMode::Other(1), &m, HEADER);
    assert_eq!(h.ioHeapAddr, 0x52_0000_0000);
    assert_eq!(
        setup[2],
        HeapSetup::Add { heap: Heap::IO, base: 0x60_0000_0300, len: 0xffff_fd00 }
    );
}

#[test]
fn one_heap_outside_confidential_computing() {
    let mut h = HostAllocator::New();
    assert!(h.InitSharedAllocator(CCMode::Off, &map(), HEADER).is_empty());
    assert!(h.InitPrivateAllocator(CCMode::Off, &map(), HEADER).is_empty());
    assert_eq!(h.guestPrivHeapAddr, h.sharedHeapAddr);
    assert_eq!(h.sharedHeapAddr, 0x40_0000_0000);
    assert_eq!(h.ioHeapAddr, 0);
}

#[test]
fn order_of_initialisation_is_free() {
    let mut a = HostAllocator::New();
    a.InitPrivateAllocator(CCMode::NormalEmu, &map(), HEADER);
    a.InitSharedAllocator(CCMode::NormalEmu, &map(), HEADER);
    let mut b = HostAllocator::New();
    b.InitSharedAllocator(CCMode::NormalEmu, &map(), HEADER);
    b.InitPrivateAllocator(CCMode::NormalEmu, &map(), HEADER);
    assert_eq!(a, b);
    assert_eq!(a.addr_of(Heap::GuestPrivate), 0x48_0000_0000);
    assert_eq!(a.addr_of(Heap::GuestHostShared), 0x50_0000_0000);
    assert_eq!(a.addr_of(Heap::IO), 0x52_0000_0000);
    b.InitPrivateAllocator(CCMode::NormalEmu, &map(), HEADER);
    assert_eq!(a, b);
}

#[test]
fn regions_lie_in_their_heaps() {
    let mut h = HostAllocator::New();
    let mut setup = h.InitPrivateAllocator(CCMode::NormalEmu, &map(), HEADER);
    setup.extend(h.InitSharedAllocator(CCMode::NormalEmu, &map(), HEADER));
    let mut adds = 0;
    for (i, step) in setup.iter().enumerate() {
        if let HeapSetup::Add { heap, base, len } = *step {
            adds += 1;
            assert!(setup[..i].iter().any(|p| match *p {
                HeapSetup::Place { heap: h, at, start, end } =>
                    h == heap
                        && at == start
                        && start as usize + HEADER <= base
                        && base + len == end as usize,
                _ => false,
            }));
        }
    }
    assert_eq!(adds, 3);
}

#[test]
fn maps_that_cannot_be_set_up() {
    let m = map();
    for mode in [CCMode::Off, CCMode::NormalEmu, CCMode::Other(1)] {
        assert!(m.can_init_private(mode, HEADER));
        assert!(m.can_init_shared(mode, HEADER));
    }
    let mut high = m;
    high.GUEST_PRIVATE_RUNNING_HEAP_OFFSET = u64::MAX - 5;
    assert!(!high.can_init_private(CCMode::NormalEmu, HEADER));
    assert!(high.can_init_private(CCMode::Off, HEADER));
    let mut small = m;
    small.GUEST_PRIVATE_RUNNING_HEAP_SIZE = 0x2ff;
    assert!(!small.can_init_private(CCMode::NormalEmu, HEADER));
    let mut few_pages = m;
    few_pages.GUEST_HOST_SHARED_HEAP_SIZE = 0x3fff;
    assert!(!few_pages.can_init_shared(CCMode::Other(1), HEADER));
    assert!(few_pages.can_init_shared(CCMode::Off, HEADER));
    let mut io = m;
    io.IO_HEAP_SIZE = u64::MAX;
    assert!(!io.can_init_shared(CCMode::NormalEmu, HEADER));
    let mut end = m;
    end.HEAP_END = u64::MAX;
    assert!(!end.can_init_shared(CCMode::NormalEmu, HEADER));
}

#[test]
fn bitmap_allocator_is_at_the_heap_start() {
    let mut b = BitmapAllocatorWrapper::New(&map());
    assert_eq!(b.addr, 0x40_0000_0000);
    b.addr = 7;
    b.Init(&map());
    assert_eq!(b.addr, 0x40_0000_0000);
}

#[test]
fn list_allocator_flags_and_effects() {
    let mut l = ListAllocator { heapStart: 1, heapEnd: 9, initialized: false };
    l.initialize();
    assert_eq!(l, ListAllocator { heapStart: 1, heapEnd: 9, initialized: true });
    assert_eq!(l.Check(), Effect::StackOverflowCheck);
    assert_eq!(l.handleError(64, 8), Effect::KernelOOM { size: 64, alignment: 8 });
}

#[test]
fn parameter_page_is_never_handed_out() {
    let m = map();
    let page = m.HYPERCALL_PARA_PAGE_OFFSET as usize..m.HYPERCALL_PARA_PAGE_OFFSET as usize + 0x1000;
    let mut h = HostAllocator::New();
    for step in h.InitSharedAllocator(CCMode::Other(1), &m, HEADER) {
        if let HeapSetup::Add { base, len, .. } = step {
            assert!(base + len <= page.start || page.end <= base);
        }
    }
}
