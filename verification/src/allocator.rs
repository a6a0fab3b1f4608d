//! The kernel's allocators: which of them serves an allocation, and which takes
//! the memory back.

use crate::effect::Effect;
use crate::memory::{Heap, HostAllocator, MemoryDef};
use vstd::prelude::*;

verus! {

/// The size and alignment of an allocation.
#[derive(Debug, Clone, Copy, PartialEq, Eq)]
pub struct Layout {
    pub size: usize,
    pub align: usize,
}

/// An allocation handed to an allocator.
#[derive(Debug, Clone, Copy, PartialEq, Eq)]
pub struct Alloc<T> {
    pub target: T,
    pub layout: Layout,
}

/// The memory at `ptr` handed back to an allocator.
#[derive(Debug, Clone, Copy, PartialEq, Eq)]
pub struct Dealloc<T> {
    pub target: T,
    pub ptr: u64,
    pub layout: Layout,
}

/// What the memory map says of an address.
#[derive(Debug, Clone, Copy, PartialEq, Eq)]
pub struct AddrClass {
    /// In the heap.
    pub heap: bool,
    /// In the heap for input and output.
    pub ioBuf: bool,
    /// In the heap shared with the host.
    pub sharedHeap: bool,
    /// In the guest's private heap.
    pub guestPrivate: bool,
}

/// The allocators behind the per processor ones.
#[derive(Debug, Clone, Copy, PartialEq, Eq)]
pub enum Target {
    /// The global allocator.
    Global,
    /// The global allocator's memory that host and guest share.
    GlobalShared,
    /// The allocator for private memory under confidential computing.
    PrivateVcpu,
    /// The allocator for shared memory under confidential computing.
    PrivateVcpuShared,
    /// The allocator of the virtual processor with the number.
    CpuLocal(usize),
}

/// A step of an allocation that yields a pointer.
#[derive(Debug, Clone, Copy, PartialEq, Eq)]
pub enum PtrStep<T> {
    /// Take the memory from an allocator.
    From(Alloc<T>),
    /// The memory is at the address, or there is none if that is zero.
    Return(u64),
}

/// A step of an allocation that yields a slice of memory.
#[derive(Debug, Clone, Copy, PartialEq, Eq)]
pub enum AllocStep {
    /// Take the memory from an allocator.
    From(Alloc<Target>),
    /// The memory is the `len` bytes at `ptr`.
    Return { ptr: u64, len: usize },
}

/// The handler of allocations that cannot be served.
pub trait OOMHandler {
    fn handleError(&self, size: u64, alignment: u64) -> Effect;
}

/// An allocator over free lists.
#[derive(Debug, Clone, Copy, PartialEq, Eq)]
pub struct ListAllocator {
    pub heapStart: u64,
    pub heapEnd: u64,
    pub initialized: bool,
}

/// An allocator over a bitmap that lies in the memory it manages.
#[derive(Debug, Clone, Copy, PartialEq, Eq)]
pub struct BitmapAllocatorWrapper {
    pub addr: u64,
}

/// The allocator that serves each virtual processor from its own memory.
#[derive(Debug, Clone, Copy, PartialEq, Eq)]
pub struct GlobalVcpuAllocator {
    /// Whether the per processor allocators can be used yet.
    pub init: bool,
}

/// The allocator of memory that guest and host share.
#[derive(Debug, Clone, Copy, PartialEq, Eq)]
pub struct GuestHostSharedAllocator {
    /// Whether the per processor allocators can be used yet.
    pub init: bool,
}

impl OOMHandler for ListAllocator {
    /// Reports the allocation that failed to the host.
    fn handleError(&self, size: u64, alignment: u64) -> (r: Effect)
        ensures
            r == (Effect::KernelOOM { size, alignment }),
    {
        Effect::KernelOOM { size, alignment }
    }
}

impl ListAllocator {
    /// Marks the allocator as ready.
    pub fn initialize(&mut self)
        ensures
            *final(self) == (ListAllocator { initialized: true, ..*old(self) }),
    {
        self.initialized = true;
    }

    /// Checks the stack of the task that allocates.
    pub fn Check(&self) -> (r: Effect)
        ensures
            r == Effect::StackOverflowCheck,
    {
        Effect::StackOverflowCheck
    }
}

impl BitmapAllocatorWrapper {
    /// The allocator at the start of the heap.
    pub fn New(map: &MemoryDef) -> (r: Self)
        ensures
            r.addr == map.HEAP_OFFSET,
    {
        BitmapAllocatorWrapper { addr: map.HEAP_OFFSET }
    }

    /// Points the wrapper at the start of the heap.
    pub fn Init(&mut self, map: &MemoryDef)
        ensures
            final(self).addr == map.HEAP_OFFSET,
    {
        self.addr = map.HEAP_OFFSET;
    }
}

/// The heap that takes back memory of the class: without confidential computing
/// the heap for input and output or the shared heap; with it, the first of
/// private, shared, and input and output heap that the address is in. Memory in
/// none of them is not given back.
pub open spec fn dealloc_heap(cc_active: bool, class: AddrClass) -> Option<Heap> {
    if !cc_active {
        Some(if class.ioBuf { Heap::IO } else { Heap::GuestHostShared })
    } else if class.guestPrivate {
        Some(Heap::GuestPrivate)
    } else if class.sharedHeap {
        Some(Heap::GuestHostShared)
    } else if class.ioBuf {
        Some(Heap::IO)
    } else {
        None
    }
}

impl HostAllocator {
    /// The kernel's own allocations come from the private heap.
    ///
    /// Called without a pointer, it names the heap to take the memory from;
    /// called with the pointer that came of that, it returns it as it is.
    pub fn route_alloc(&self, layout: Layout, ptr: Option<u64>) -> (r: PtrStep<Heap>)
        ensures
            r == match ptr {
                None => PtrStep::From(Alloc { target: Heap::GuestPrivate, layout }),
                Some(ptr) => PtrStep::Return(ptr),
            },
    {
        match ptr {
            None => PtrStep::From(Alloc { target: Heap::GuestPrivate, layout }),
            Some(ptr) => PtrStep::Return(ptr),
        }
    }

    /// The heap that memory is given back to, if any.
    pub fn dealloc(&self, cc_active: bool, class: AddrClass, ptr: u64, layout: Layout) -> (r:
        Option<Dealloc<Heap>>)
        ensures
            match dealloc_heap(cc_active, class) {
                Some(target) => r == Some(Dealloc { target, ptr, layout }),
                None => r is None,
            },
    {
        if !cc_active {
            if class.ioBuf {
                Some(Dealloc { target: Heap::IO, ptr, layout })
            } else {
                Some(Dealloc { target: Heap::GuestHostShared, ptr, layout })
            }
        } else {
            if class.guestPrivate {
                Some(Dealloc { target: Heap::GuestPrivate, ptr, layout })
            } else if class.sharedHeap {
                Some(Dealloc { target: Heap::GuestHostShared, ptr, layout })
            } else if class.ioBuf {
                Some(Dealloc { target: Heap::IO, ptr, layout })
            } else {
                None
            }
        }
    }
}

impl GlobalVcpuAllocator {
    /// Whether memory comes from the allocators of the single virtual
    /// processors, so that the number of the running one is needed.
    pub open spec fn per_vcpu(self, cc_active: bool) -> bool {
        self.init && !cc_active
    }

    /// The allocator that serves the virtual processor.
    pub open spec fn source(self, cc_active: bool, vcpu: Option<usize>) -> Target {
        if !self.init {
            Target::Global
        } else if cc_active {
            Target::PrivateVcpu
        } else {
            Target::CpuLocal(vcpu->0)
        }
    }

    /// The allocator that takes memory back that the virtual processor frees.
    pub open spec fn sink(self, cc_active: bool, vcpu: Option<usize>, class: AddrClass) -> Target {
        if class.heap {
            self.source(cc_active, vcpu)
        } else {
            Target::Global
        }
    }

    /// Whether the number of the running virtual processor is needed, for
    /// allocating and for handing heap memory back.
    pub fn needs_vcpu(&self, cc_active: bool) -> (r: bool)
        ensures
            r == self.per_vcpu(cc_active),
    {
        self.init && !cc_active
    }

    /// Hands an allocation of the running virtual processor to the allocator that
    /// serves it.
    ///
    /// Called without a pointer, it names that allocator; called with the pointer
    /// that came of that, it returns it as it is.
    pub fn route_alloc(
        &self,
        cc_active: bool,
        vcpu: Option<usize>,
        layout: Layout,
        ptr: Option<u64>,
    ) -> (r: PtrStep<Target>)
        requires
            ptr is None && self.per_vcpu(cc_active) ==> vcpu is Some,
        ensures
            r == match ptr {
                None => PtrStep::From(Alloc { target: self.source(cc_active, vcpu), layout }),
                Some(ptr) => PtrStep::Return(ptr),
            },
    {
        if let Some(ptr) = ptr {
            return PtrStep::Return(ptr);
        }
        if !self.init {
            return PtrStep::From(Alloc { target: Target::Global, layout });
        }
        if cc_active {
            PtrStep::From(Alloc { target: Target::PrivateVcpu, layout })
        } else {
            PtrStep::From(Alloc { target: Target::CpuLocal(vcpu.unwrap()), layout })
        }
    }

    /// Hands memory back that the running virtual processor frees. What is not in
    /// a heap goes to the global allocator.
    pub fn dealloc(
        &self,
        cc_active: bool,
        vcpu: Option<usize>,
        class: AddrClass,
        ptr: u64,
        layout: Layout,
    ) -> (r: Dealloc<Target>)
        requires
            class.heap && self.per_vcpu(cc_active) ==> vcpu is Some,
        ensures
            r == (Dealloc { target: self.sink(cc_active, vcpu, class), ptr, layout }),
    {
        if !class.heap {
            return Dealloc { target: Target::Global, ptr, layout };
        }
        if !self.init {
            return Dealloc { target: Target::Global, ptr, layout };
        }
        if cc_active {
            Dealloc { target: Target::PrivateVcpu, ptr, layout }
        } else {
            Dealloc { target: Target::CpuLocal(vcpu.unwrap()), ptr, layout }
        }
    }
}

impl GuestHostSharedAllocator {
    /// Whether memory comes from the allocators of the single virtual
    /// processors, so that the number of the running one is needed.
    pub open spec fn per_vcpu(self, cc_active: bool) -> bool {
        self.init && !cc_active
    }

    /// The allocator that serves the virtual processor memory shared with the
    /// host.
    pub open spec fn source(self, cc_active: bool, vcpu: Option<usize>) -> Target {
        if !self.init {
            Target::GlobalShared
        } else if cc_active {
            Target::PrivateVcpuShared
        } else {
            Target::CpuLocal(vcpu->0)
        }
    }

    /// The allocator that takes shared memory back that the virtual processor
    /// frees.
    pub open spec fn sink(self, cc_active: bool, vcpu: Option<usize>, class: AddrClass) -> Target {
        if !class.heap || !self.init {
            Target::Global
        } else {
            self.source(cc_active, vcpu)
        }
    }

    /// Whether the number of the running virtual processor is needed, for
    /// allocating and for handing heap memory back.
    pub fn needs_vcpu(&self, cc_active: bool) -> (r: bool)
        ensures
            r == self.per_vcpu(cc_active),
    {
        self.init && !cc_active
    }

    /// Allocates memory shared with the host for the running virtual processor.
    ///
    /// Called without a pointer, it names the allocator to take the memory from;
    /// called with the memory's address, it returns the slice of the size asked
    /// for.
    pub fn allocate(
        &self,
        cc_active: bool,
        vcpu: Option<usize>,
        layout: Layout,
        ptr: Option<u64>,
    ) -> (r: AllocStep)
        requires
            ptr is None && self.per_vcpu(cc_active) ==> vcpu is Some,
            ptr matches Some(p) ==> p != 0,
        ensures
            r == match ptr {
                None => AllocStep::From(Alloc { target: self.source(cc_active, vcpu), layout }),
                Some(ptr) => AllocStep::Return { ptr, len: layout.size },
            },
    {
        if let Some(ptr) = ptr {
            return AllocStep::Return { ptr, len: layout.size };
        }
        if !self.init {
            return AllocStep::From(Alloc { target: Target::GlobalShared, layout });
        }
        if cc_active {
            AllocStep::From(Alloc { target: Target::PrivateVcpuShared, layout })
        } else {
            AllocStep::From(Alloc { target: Target::CpuLocal(vcpu.unwrap()), layout })
        }
    }

    /// Hands shared memory back that the running virtual processor frees. What is
    /// not in a heap goes to the global allocator.
    pub fn deallocate(
        &self,
        cc_active: bool,
        vcpu: Option<usize>,
        class: AddrClass,
        ptr: u64,
        layout: Layout,
    ) -> (r: Dealloc<Target>)
        requires
            class.heap && self.per_vcpu(cc_active) ==> vcpu is Some,
        ensures
            r == (Dealloc { target: self.sink(cc_active, vcpu, class), ptr, layout }),
    {
        if !class.heap {
            return Dealloc { target: Target::Global, ptr, layout };
        }
        if !self.init {
            return Dealloc { target: Target::Global, ptr, layout };
        }
        if cc_active {
            Dealloc { target: Target::PrivateVcpuShared, ptr, layout }
        } else {
            Dealloc { target: Target::CpuLocal(vcpu.unwrap()), ptr, layout }
        }
    }
}

/// The allocator that owns a target's memory: the global allocator's shared
/// memory is the global allocator's.
pub open spec fn owner(target: Target) -> Target {
    if target is GlobalShared {
        Target::Global
    } else {
        target
    }
}

/// Heap memory goes back to the allocator that it came from if the virtual
/// processor that frees it is the one that allocated it, as long as neither the
/// mode nor the allocator's readiness changes in between.
pub proof fn heap_memory_returns_to_its_owner(
    v: GlobalVcpuAllocator,
    s: GuestHostSharedAllocator,
    cc_active: bool,
    vcpu: Option<usize>,
    class: AddrClass,
)
    requires
        class.heap,
    ensures
        v.sink(cc_active, vcpu, class) == v.source(cc_active, vcpu),
        owner(s.sink(cc_active, vcpu, class)) == owner(s.source(cc_active, vcpu)),
{
}

/// Heap memory that another virtual processor frees goes back to the allocator
/// that it came from exactly if it does not come from the allocator of a single
/// virtual processor.
pub proof fn heap_memory_freed_elsewhere(
    v: GlobalVcpuAllocator,
    s: GuestHostSharedAllocator,
    cc_active: bool,
    allocating: usize,
    freeing: usize,
    class: AddrClass,
)
    requires
        class.heap,
        allocating != freeing,
    ensures
        v.sink(cc_active, Some(freeing), class) == v.source(cc_active, Some(allocating))
            <==> !v.per_vcpu(cc_active),
        owner(s.sink(cc_active, Some(freeing), class)) == owner(
            s.source(cc_active, Some(allocating)),
        ) <==> !s.per_vcpu(cc_active),
        v.per_vcpu(cc_active) ==> v.sink(cc_active, Some(freeing), class) == Target::CpuLocal(
            freeing,
        ),
        s.per_vcpu(cc_active) ==> s.sink(cc_active, Some(freeing), class) == Target::CpuLocal(
            freeing,
        ),
{
}

/// Once the allocators are ready, private and shared memory of a virtual processor
/// are served apart under confidential computing, and by one allocator without it.
pub proof fn private_and_shared_memory_stay_apart(
    v: GlobalVcpuAllocator,
    s: GuestHostSharedAllocator,
    vcpu: Option<usize>,
)
    requires
        v.init,
        s.init,
    ensures
        v.source(true, vcpu) != s.source(true, vcpu),
        v.source(false, vcpu) == s.source(false, vcpu),
{
}

/// The kernel's own allocations go back to the heap that they came from: without
/// confidential computing, because private and shared heap are one heap then,
/// and with it for every address in the private heap.
pub proof fn kernel_memory_returns_to_its_heap(
    h: HostAllocator,
    map: MemoryDef,
    cc_active: bool,
    class: AddrClass,
)
    requires
        !cc_active ==> !class.ioBuf && h == h.with_private(
            crate::memory::CCMode::Off,
            map,
        ).with_shared(crate::memory::CCMode::Off, map),
        cc_active ==> class.guestPrivate,
    ensures
        dealloc_heap(cc_active, class) matches Some(heap) && h.heap_addr(heap) == h.heap_addr(
            Heap::GuestPrivate,
        ),
{
}

/// Memory is given back to no heap only under confidential computing, and only if
/// it lies in none of the heaps.
pub proof fn only_foreign_memory_is_dropped(cc_active: bool, class: AddrClass)
    ensures
        dealloc_heap(cc_active, class) is None <==> cc_active && !class.guestPrivate
            && !class.sharedHeap && !class.ioBuf,
{
}

/// Under confidential computing memory in exactly one of the heaps is given back to
/// that heap.
pub proof fn memory_of_one_heap_returns_to_it(class: AddrClass)
    ensures
        class.guestPrivate && !class.sharedHeap && !class.ioBuf ==> dealloc_heap(true, class)
            == Some(Heap::GuestPrivate),
        !class.guestPrivate && class.sharedHeap && !class.ioBuf ==> dealloc_heap(true, class)
            == Some(Heap::GuestHostShared),
        !class.guestPrivate && !class.sharedHeap && class.ioBuf ==> dealloc_heap(true, class)
            == Some(Heap::IO),
{
}

/// Memory is never given to a heap that it does not lie in, under confidential
/// computing. In particular none that the host shares enters the private heap, and
/// none that is private enters a heap that the host shares.
pub proof fn memory_stays_out_of_foreign_heaps(class: AddrClass)
    ensures
        dealloc_heap(true, class) == Some(Heap::GuestPrivate) <==> class.guestPrivate,
        dealloc_heap(true, class) == Some(Heap::GuestHostShared) <==> class.sharedHeap
            && !class.guestPrivate,
        dealloc_heap(true, class) == Some(Heap::IO) <==> class.ioBuf && !class.sharedHeap
            && !class.guestPrivate,
{
}

/// Without confidential computing memory of the heap for input and output returns to
/// it and all other memory to the shared heap, whatever else is said of the address.
pub proof fn ordinary_memory_returns_by_io_class_alone(class: AddrClass, other: AddrClass)
    ensures
        dealloc_heap(false, class) == Some(Heap::IO) <==> class.ioBuf,
        dealloc_heap(false, class) == Some(Heap::GuestHostShared) <==> !class.ioBuf,
        class.ioBuf == other.ioBuf ==> dealloc_heap(false, class) == dealloc_heap(false, other),
{
}

/// Until the allocators are ready everything is the global allocator's; from then on
/// a virtual processor has the allocators for its mode, and without confidential
/// computing its own and no other's.
pub proof fn each_vcpu_is_served_by_its_own_allocator(
    v: GlobalVcpuAllocator,
    s: GuestHostSharedAllocator,
    cc_active: bool,
    vcpu: Option<usize>,
    n: usize,
)
    ensures
        v.source(cc_active, vcpu) is Global <==> !v.init,
        v.source(cc_active, vcpu) is PrivateVcpu <==> v.init && cc_active,
        v.source(cc_active, vcpu) == Target::CpuLocal(n) <==> v.init && !cc_active && n
            == vcpu->0,
        s.source(cc_active, vcpu) is GlobalShared <==> !s.init,
        s.source(cc_active, vcpu) is PrivateVcpuShared <==> s.init && cc_active,
        s.source(cc_active, vcpu) == Target::CpuLocal(n) <==> s.init && !cc_active && n
            == vcpu->0,
{
}

/// The number of the running virtual processor is needed exactly where it makes a
/// difference: where it is not, all virtual processors, and one that cannot tell its
/// number, are served alike.
pub proof fn vcpu_is_needed_where_it_matters(
    v: GlobalVcpuAllocator,
    s: GuestHostSharedAllocator,
    cc_active: bool,
    vcpu: Option<usize>,
    other: Option<usize>,
)
    ensures
        v.per_vcpu(cc_active) <==> v.init && !cc_active,
        s.per_vcpu(cc_active) <==> s.init && !cc_active,
        !(v.init && !cc_active) ==> v.source(cc_active, vcpu) == v.source(cc_active, other),
        !(s.init && !cc_active) ==> s.source(cc_active, vcpu) == s.source(cc_active, other),
{
}

/// Memory outside the heap is the global allocator's, always. Memory in the heap is
/// handed back exactly as in the two laws on heap memory: by the virtual processor's
/// own allocators once they are ready.
pub proof fn memory_outside_the_heap_is_global(
    v: GlobalVcpuAllocator,
    s: GuestHostSharedAllocator,
    cc_active: bool,
    vcpu: Option<usize>,
    class: AddrClass,
    n: usize,
)
    ensures
        v.sink(cc_active, vcpu, class) is Global <==> !class.heap || !v.init,
        v.sink(cc_active, vcpu, class) is PrivateVcpu <==> class.heap && v.init && cc_active,
        v.sink(cc_active, vcpu, class) == Target::CpuLocal(n) <==> class.heap && v.init
            && !cc_active && n == vcpu->0,
        s.sink(cc_active, vcpu, class) is Global <==> !class.heap || !s.init,
        s.sink(cc_active, vcpu, class) is PrivateVcpuShared <==> class.heap && s.init
            && cc_active,
        s.sink(cc_active, vcpu, class) == Target::CpuLocal(n) <==> class.heap && s.init
            && !cc_active && n == vcpu->0,
{
}

/// An allocation is handed on with exactly its size and alignment, and exactly the
/// pointer that comes of it is returned, none included.
pub proof fn allocations_are_handed_on_unchanged(
    h: HostAllocator,
    v: GlobalVcpuAllocator,
    cc_active: bool,
    vcpu: usize,
    layout: Layout,
    ptr: u64,
    h_from: PtrStep<Heap>,
    h_return: PtrStep<Heap>,
    v_from: PtrStep<Target>,
    v_return: PtrStep<Target>,
)
    requires
        call_ensures(HostAllocator::route_alloc, (&h, layout, None), h_from),
        call_ensures(HostAllocator::route_alloc, (&h, layout, Some(ptr)), h_return),
        call_ensures(
            GlobalVcpuAllocator::route_alloc,
            (&v, cc_active, Some(vcpu), layout, None),
            v_from,
        ),
        call_ensures(
            GlobalVcpuAllocator::route_alloc,
            (&v, cc_active, Some(vcpu), layout, Some(ptr)),
            v_return,
        ),
    ensures
        h_from matches PtrStep::From(a) && a.target is GuestPrivate && a.layout.size == layout.size
            && a.layout.align == layout.align,
        h_return matches PtrStep::Return(p) && p == ptr,
        v_from matches PtrStep::From(a) && a.layout.size == layout.size && a.layout.align
            == layout.align,
        v_return matches PtrStep::Return(p) && p == ptr,
{
}

/// Shared memory is asked for with exactly the size and alignment wanted, and the slice
/// returned is exactly that size, at exactly the address that came of it.
pub proof fn shared_slice_has_the_size_asked_for(
    s: GuestHostSharedAllocator,
    cc_active: bool,
    vcpu: usize,
    layout: Layout,
    ptr: u64,
    from: AllocStep,
    returned: AllocStep,
)
    requires
        ptr != 0,
        call_ensures(
            GuestHostSharedAllocator::allocate,
            (&s, cc_active, Some(vcpu), layout, None),
            from,
        ),
        call_ensures(
            GuestHostSharedAllocator::allocate,
            (&s, cc_active, Some(vcpu), layout, Some(ptr)),
            returned,
        ),
    ensures
        from matches AllocStep::From(a) && a.layout.size == layout.size && a.layout.align
            == layout.align,
        returned matches AllocStep::Return { ptr: p, len } && p == ptr && len == layout.size,
{
}

/// Memory is handed back at exactly its address with exactly its size and alignment.
pub proof fn freed_memory_is_handed_on_unchanged(
    h: HostAllocator,
    v: GlobalVcpuAllocator,
    s: GuestHostSharedAllocator,
    cc_active: bool,
    vcpu: usize,
    class: AddrClass,
    ptr: u64,
    layout: Layout,
    rh: Option<Dealloc<Heap>>,
    rv: Dealloc<Target>,
    rs: Dealloc<Target>,
)
    requires
        call_ensures(HostAllocator::dealloc, (&h, cc_active, class, ptr, layout), rh),
        call_ensures(
            GlobalVcpuAllocator::dealloc,
            (&v, cc_active, Some(vcpu), class, ptr, layout),
            rv,
        ),
        call_ensures(
            GuestHostSharedAllocator::deallocate,
            (&s, cc_active, Some(vcpu), class, ptr, layout),
            rs,
        ),
    ensures
        rh matches Some(d) ==> d.ptr == ptr && d.layout == layout,
        rh is None <==> cc_active && !class.guestPrivate && !class.sharedHeap && !class.ioBuf,
        rv.ptr == ptr && rv.layout == layout,
        rs.ptr == ptr && rs.layout == layout,
{
}

/// A failed allocation is reported with exactly its size and alignment, in their
/// places.
pub proof fn failed_allocation_is_reported_as_it_was(
    l: ListAllocator,
    size: u64,
    alignment: u64,
    r: Effect,
)
    requires
        call_ensures(ListAllocator::handleError, (&l, size, alignment), r),
    ensures
        r matches Effect::KernelOOM { size: s, alignment: a } && s == size && a == alignment,
{
}

/// The allocator over a bitmap is at the start of the ordinary heap.
pub proof fn bitmap_allocator_is_at_the_heap_start(map: MemoryDef, r: BitmapAllocatorWrapper)
    requires
        call_ensures(BitmapAllocatorWrapper::New, (&map,), r),
    ensures
        r.addr == map.HEAP_OFFSET,
{
}

} // verus!
