use qkernel::allocator::{
    AddrClass, Alloc, AllocStep, Dealloc, GlobalVcpuAllocator, GuestHostSharedAllocator, Layout,
    PtrStep, Target,
};
use qkernel::memory::{Heap, HostAllocator};

const L: Layout = Layout { size: 48, align: 16 };

fn class(heap: bool, io: bool, shared: bool, private: bool) -> AddrClass {
    AddrClass { heap, ioBuf: io, sharedHeap: shared, guestPrivate: private }
}

fn back(cc: bool, c: AddrClass) -> Option<Heap> {
    let h = HostAllocator::New();
    match h.dealloc(cc, c, 0x77, L) {
        Some(d) => {
            assert_eq!((d.ptr, d.layout), (0x77, L));
            Some(d.target)
        }
        None => None,
    }
}

#[test]
fn kernel_allocations_come_from_the_private_heap() {
    assert_eq!(
        HostAllocator::New().route_alloc(L, None),
        PtrStep::From(Alloc { target: Heap::GuestPrivate, layout: L })
    );
    assert_eq!(HostAllocator::New().route_alloc(L, Some(0x90)), PtrStep::Return(0x90));
    assert_eq!(HostAllocator::New().route_alloc(L, Some(0)), PtrStep::Return(0));
}

#[test]
fn kernel_memory_goes_back_by_address() {
    assert_eq!(back(false, class(true, true, true, true)), Some(Heap::IO));
    assert_eq!(back(false, class(true, false, true, true)), Some(Heap::GuestHostShared));
    assert_eq!(back(false, class(false, false, false, false)), Some(Heap::GuestHostShared));
    assert_eq!(back(true, class(true, true, true, true)), Some(Heap::GuestPrivate));
    assert_eq!(back(true, class(true, true, true, false)), Some(Heap::GuestHostShared));
    assert_eq!(back(true, class(true, true, false, false)), Some(Heap::IO));
    assert_eq!(back(true, class(true, false, false, false)), None);
}

#[test]
fn vcpu_allocator_routes() {
    for (init, cc, vcpu, target) in [
        (false, false, None, Target::Global),
        (false, true, None, Target::Global),
        (true, true, None, Target::PrivateVcpu),
        (true, false, Some(0), Target::CpuLocal(0)),
        (true, false, Some(3), Target::CpuLocal(3)),
    ] {
        let v = GlobalVcpuAllocator { init };
        assert_eq!(v.needs_vcpu(cc), vcpu.is_some());
        assert_eq!(
            v.route_alloc(cc, vcpu, L, None),
            PtrStep::From(Alloc { target, layout: L })
        );
        assert_eq!(v.route_alloc(cc, None, L, Some(0x44)), PtrStep::Return(0x44));
        assert_eq!(v.route_alloc(cc, None, L, Some(0)), PtrStep::Return(0));
        let heap = class(true, false, false, false);
        assert_eq!(v.dealloc(cc, vcpu, heap, 5, L), Dealloc { target, ptr: 5, layout: L });
        let foreign = class(false, true, true, true);
        assert_eq!(
            v.dealloc(cc, None, foreign, 5, L),
            Dealloc { target: Target::Global, ptr: 5, layout: L }
        );
    }
}

#[test]
fn shared_allocator_routes() {
    for (init, cc, vcpu, source, sink) in [
        (false, false, None, Target::GlobalShared, Target::Global),
        (false, true, None, Target::GlobalShared, Target::Global),
        (true, true, None, Target::PrivateVcpuShared, Target::PrivateVcpuShared),
        (true, false, Some(2), Target::CpuLocal(2), Target::CpuLocal(2)),
    ] {
        let s = GuestHostSharedAllocator { init };
        assert_eq!(s.needs_vcpu(cc), vcpu.is_some());
        assert_eq!(
            s.allocate(cc, vcpu, L, None),
            AllocStep::From(Alloc { target: source, layout: L })
        );
        assert_eq!(s.allocate(cc, None, L, Some(0x80)), AllocStep::Return { ptr: 0x80, len: 48 });
        let heap = class(true, false, false, false);
        assert_eq!(
            s.deallocate(cc, vcpu, heap, 6, L),
            Dealloc { target: sink, ptr: 6, layout: L }
        );
        let foreign = class(false, false, false, false);
        assert_eq!(
            s.deallocate(cc, None, foreign, 6, L),
            Dealloc { target: Target::Global, ptr: 6, layout: L }
        );
    }
}

#[test]
fn memory_freed_on_another_vcpu_goes_to_its_allocator() {
    let v = GlobalVcpuAllocator { init: true };
    let heap = class(true, false, false, false);
    assert_eq!(
        v.route_alloc(false, Some(1), L, None),
        PtrStep::From(Alloc { target: Target::CpuLocal(1), layout: L })
    );
    assert_eq!(v.dealloc(false, Some(2), heap, 5, L).target, Target::CpuLocal(2));
    assert_eq!(v.dealloc(true, Some(2), heap, 5, L).target, Target::PrivateVcpu);
}

#[test]
fn private_and_shared_memory_are_served_apart() {
    let v = GlobalVcpuAllocator { init: true };
    let s = GuestHostSharedAllocator { init: true };
    let private = |cc| match v.route_alloc(cc, Some(1), L, None) {
        PtrStep::From(a) => a.target,
        other => panic!("{:?}", other),
    };
    let shared = |cc| match s.allocate(cc, Some(1), L, None) {
        AllocStep::From(a) => a.target,
        other => panic!("{:?}", other),
    };
    assert_ne!(private(true), shared(true));
    assert_eq!(private(false), shared(false));
}
