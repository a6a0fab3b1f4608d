//! The memory map and the set up of the kernel heaps.

use vstd::prelude::*;

verus! {

/// The addresses and sizes of the guest's memory map.
#[derive(Debug, Clone, Copy, PartialEq, Eq)]
pub struct MemoryDef {
    /// Start of the heap that is used outside confidential computing.
    pub HEAP_OFFSET: u64,
    /// End of the heap, where the heap for input and output is expected.
    pub HEAP_END: u64,
    /// Start of the private heap in the modes in which it is there already.
    pub GUEST_PRIVATE_HEAP_OFFSET: u64,
    /// Start of the private heap in the mode in which the guest prepares it.
    pub GUEST_PRIVATE_RUNNING_HEAP_OFFSET: u64,
    pub GUEST_PRIVATE_RUNNING_HEAP_SIZE: u64,
    /// Start of the heap shared with the host under confidential computing.
    pub GUEST_HOST_SHARED_HEAP_OFFSET: u64,
    pub GUEST_HOST_SHARED_HEAP_SIZE: u64,
    pub IO_HEAP_SIZE: u64,
    pub PAGE_SIZE: u64,
    pub PAGE_SHIFT: u64,
    pub HUGE_PAGE_SIZE: u64,
    /// First address of the window whose accesses are hypercalls.
    pub HYPERCALL_MMIO_BASE: u64,
    /// Address of the page of hypercall parameters.
    pub HYPERCALL_PARA_PAGE_OFFSET: u64,
}

/// The confidential computing mode of the machine.
#[derive(Debug, Clone, Copy, PartialEq, Eq)]
pub enum CCMode {
    /// Not in use.
    Off,
    /// Emulated by an ordinary virtual machine.
    NormalEmu,
    /// Any other mode, by its number.
    Other(u64),
}

/// The heaps a [`HostAllocator`] keeps.
#[derive(Debug, Clone, Copy, PartialEq, Eq)]
pub enum Heap {
    GuestPrivate,
    GuestHostShared,
    IO,
}

/// One step of setting up the heaps.
#[derive(Debug, Clone, Copy, PartialEq, Eq)]
pub enum HeapSetup {
    /// Guest and host no longer map the heap at the same address.
    ClearIdenticalMapping,
    /// Write a fresh list allocator for `start..end` at the address `at`.
    Place { heap: Heap, at: u64, start: u64, end: u64 },
    /// Hand `len` bytes from `base` to the heap's list allocator.
    Add { heap: Heap, base: usize, len: usize },
}

/// Where the kernel's heaps are.
#[derive(Debug, Clone, Copy, PartialEq, Eq)]
pub struct HostAllocator {
    pub ioHeapAddr: u64,
    pub guestPrivHeapAddr: u64,
    pub hostInitHeapAddr: u64,
    pub sharedHeapAddr: u64,
    pub vmLaunched: bool,
    pub initialized: bool,
}

impl MemoryDef {
    /// The end of the heap shared with the host, which is where the heap for
    /// input and output starts.
    pub open spec fn shared_heap_end(self) -> int {
        self.GUEST_HOST_SHARED_HEAP_OFFSET + self.GUEST_HOST_SHARED_HEAP_SIZE
    }

    /// The bytes at the start of the shared heap that are never handed out: four
    /// pages, for the list allocator and the hypercall parameter page.
    pub open spec fn shared_reserve(self) -> int {
        4 * self.PAGE_SIZE
    }

    /// The set up of the private heap stays within machine arithmetic, for a
    /// list allocator of `header` bytes.
    pub open spec fn private_heap_fits(self, header: usize) -> bool {
        &&& self.GUEST_PRIVATE_RUNNING_HEAP_OFFSET + self.GUEST_PRIVATE_RUNNING_HEAP_SIZE
            <= usize::MAX
        &&& header <= self.GUEST_PRIVATE_RUNNING_HEAP_SIZE
    }

    /// The set up of the two shared heaps stays within machine arithmetic, for a
    /// list allocator of `header` bytes.
    pub open spec fn shared_heaps_fit(self, header: usize) -> bool {
        &&& self.shared_heap_end() + self.IO_HEAP_SIZE <= usize::MAX
        &&& header <= self.IO_HEAP_SIZE
        &&& self.HEAP_END + header <= usize::MAX
        &&& self.shared_reserve() <= self.GUEST_HOST_SHARED_HEAP_SIZE
    }

    /// The address the private heap has in a mode.
    pub open spec fn private_heap_addr(self, mode: CCMode) -> u64 {
        match mode {
            CCMode::NormalEmu => self.GUEST_PRIVATE_RUNNING_HEAP_OFFSET,
            CCMode::Off => self.HEAP_OFFSET,
            CCMode::Other(_) => self.GUEST_PRIVATE_HEAP_OFFSET,
        }
    }

    /// The steps that set up the private heap in a mode.
    pub open spec fn private_setup(self, mode: CCMode, header: usize) -> Seq<HeapSetup> {
        match mode {
            CCMode::NormalEmu => seq![
                HeapSetup::ClearIdenticalMapping,
                HeapSetup::Place {
                    heap: Heap::GuestPrivate,
                    at: self.GUEST_PRIVATE_RUNNING_HEAP_OFFSET,
                    start: self.GUEST_PRIVATE_RUNNING_HEAP_OFFSET,
                    end: (self.GUEST_PRIVATE_RUNNING_HEAP_OFFSET
                        + self.GUEST_PRIVATE_RUNNING_HEAP_SIZE) as u64,
                },
                HeapSetup::Add {
                    heap: Heap::GuestPrivate,
                    base: (self.GUEST_PRIVATE_RUNNING_HEAP_OFFSET + header) as usize,
                    len: (self.GUEST_PRIVATE_RUNNING_HEAP_SIZE - header) as usize,
                },
            ],
            _ => seq![],
        }
    }

    /// The steps that set up the two shared heaps in a mode.
    pub open spec fn shared_setup(self, mode: CCMode, header: usize) -> Seq<HeapSetup> {
        match mode {
            CCMode::Off => seq![],
            _ => seq![
                HeapSetup::Place {
                    heap: Heap::GuestHostShared,
                    at: self.GUEST_HOST_SHARED_HEAP_OFFSET,
                    start: self.GUEST_HOST_SHARED_HEAP_OFFSET,
                    end: self.shared_heap_end() as u64,
                },
                HeapSetup::Place {
                    heap: Heap::IO,
                    at: self.shared_heap_end() as u64,
                    start: self.shared_heap_end() as u64,
                    end: (self.shared_heap_end() + self.IO_HEAP_SIZE) as u64,
                },
                HeapSetup::Add {
                    heap: Heap::IO,
                    base: (self.HEAP_END + header) as usize,
                    len: (self.IO_HEAP_SIZE - header) as usize,
                },
                HeapSetup::Add {
                    heap: Heap::GuestHostShared,
                    base: (self.GUEST_HOST_SHARED_HEAP_OFFSET + self.shared_reserve()) as usize,
                    len: (self.GUEST_HOST_SHARED_HEAP_SIZE - self.shared_reserve()) as usize,
                },
            ],
        }
    }
}

impl HostAllocator {
    /// The address of a heap.
    pub open spec fn heap_addr(self, heap: Heap) -> u64 {
        match heap {
            Heap::GuestPrivate => self.guestPrivHeapAddr,
            Heap::GuestHostShared => self.sharedHeapAddr,
            Heap::IO => self.ioHeapAddr,
        }
    }

    /// The allocator with its private heap where the mode has it.
    pub open spec fn with_private(self, mode: CCMode, map: MemoryDef) -> HostAllocator {
        HostAllocator { guestPrivHeapAddr: map.private_heap_addr(mode), ..self }
    }

    /// The allocator with its shared heaps where the mode has them.
    pub open spec fn with_shared(self, mode: CCMode, map: MemoryDef) -> HostAllocator {
        match mode {
            CCMode::Off => HostAllocator { sharedHeapAddr: map.HEAP_OFFSET, ..self },
            _ => HostAllocator {
                sharedHeapAddr: map.GUEST_HOST_SHARED_HEAP_OFFSET,
                ioHeapAddr: map.shared_heap_end() as u64,
                ..self
            },
        }
    }

    /// The address of a heap.
    pub fn addr_of(&self, heap: Heap) -> (r: u64)
        ensures
            r == self.heap_addr(heap),
    {
        match heap {
            Heap::GuestPrivate => self.guestPrivHeapAddr,
            Heap::GuestHostShared => self.sharedHeapAddr,
            Heap::IO => self.ioHeapAddr,
        }
    }

    /// An allocator that knows no heap yet, of a launched machine.
    pub fn New() -> (r: Self)
        ensures
            r == (HostAllocator {
                ioHeapAddr: 0,
                guestPrivHeapAddr: 0,
                hostInitHeapAddr: 0,
                sharedHeapAddr: 0,
                vmLaunched: true,
                initialized: true,
            }),
    {
        HostAllocator {
            ioHeapAddr: 0,
            guestPrivHeapAddr: 0,
            hostInitHeapAddr: 0,
            sharedHeapAddr: 0,
            vmLaunched: true,
            initialized: true,
        }
    }

    /// Records where the private heap is, and says how to set it up.
    ///
    /// Only an emulated machine prepares the heap itself; otherwise it is there
    /// already. `header` is the size of a list allocator, which lies at the
    /// start of the heap it manages.
    pub fn InitPrivateAllocator(&mut self, mode: CCMode, map: &MemoryDef, header: usize) -> (r: Vec<
        HeapSetup,
    >)
        requires
            mode is NormalEmu ==> map.private_heap_fits(header),
        ensures
            *final(self) == old(self).with_private(mode, *map),
            r@ == map.private_setup(mode, header),
    {
        match mode {
            CCMode::NormalEmu => {
                self.guestPrivHeapAddr = map.GUEST_PRIVATE_RUNNING_HEAP_OFFSET;
                let len: usize = map.GUEST_PRIVATE_RUNNING_HEAP_SIZE as usize - header;
                vec![
                    HeapSetup::ClearIdenticalMapping,
                    HeapSetup::Place {
                        heap: Heap::GuestPrivate,
                        at: self.guestPrivHeapAddr,
                        start: map.GUEST_PRIVATE_RUNNING_HEAP_OFFSET,
                        end: map.GUEST_PRIVATE_RUNNING_HEAP_OFFSET
                            + map.GUEST_PRIVATE_RUNNING_HEAP_SIZE,
                    },
                    HeapSetup::Add {
                        heap: Heap::GuestPrivate,
                        base: map.GUEST_PRIVATE_RUNNING_HEAP_OFFSET as usize + header,
                        len,
                    },
                ]
            },
            CCMode::Off => {
                self.guestPrivHeapAddr = map.HEAP_OFFSET;
                Vec::new()
            },
            CCMode::Other(_) => {
                self.guestPrivHeapAddr = map.GUEST_PRIVATE_HEAP_OFFSET;
                Vec::new()
            },
        }
    }

    /// Records where the heaps shared with the host are, and says how to set
    /// them up.
    ///
    /// Outside confidential computing the shared heap is the ordinary heap and
    /// is there already. `header` is the size of a list allocator.
    pub fn InitSharedAllocator(&mut self, mode: CCMode, map: &MemoryDef, header: usize) -> (r: Vec<
        HeapSetup,
    >)
        requires
            mode !is Off ==> map.shared_heaps_fit(header),
        ensures
            *final(self) == old(self).with_shared(mode, *map),
            r@ == map.shared_setup(mode, header),
    {
        match mode {
            CCMode::Off => {
                self.sharedHeapAddr = map.HEAP_OFFSET;
                Vec::new()
            },
            _ => {
                self.sharedHeapAddr = map.GUEST_HOST_SHARED_HEAP_OFFSET;
                let sharedHeapStart: u64 = self.sharedHeapAddr;
                let sharedHeapEnd: u64 = sharedHeapStart + map.GUEST_HOST_SHARED_HEAP_SIZE;
                let ioHeapEnd: u64 = sharedHeapEnd + map.IO_HEAP_SIZE;
                self.ioHeapAddr = sharedHeapEnd;
                let ioLen: usize = map.IO_HEAP_SIZE as usize - header;
                let reserve: usize = 4 * map.PAGE_SIZE as usize;
                let sharedLen: usize = map.GUEST_HOST_SHARED_HEAP_SIZE as usize - reserve;
                vec![
                    HeapSetup::Place {
                        heap: Heap::GuestHostShared,
                        at: self.sharedHeapAddr,
                        start: sharedHeapStart,
                        end: sharedHeapEnd,
                    },
                    HeapSetup::Place {
                        heap: Heap::IO,
                        at: self.ioHeapAddr,
                        start: sharedHeapEnd,
                        end: ioHeapEnd,
                    },
                    HeapSetup::Add {
                        heap: Heap::IO,
                        base: map.HEAP_END as usize + header,
                        len: ioLen,
                    },
                    HeapSetup::Add {
                        heap: Heap::GuestHostShared,
                        base: map.GUEST_HOST_SHARED_HEAP_OFFSET as usize + reserve,
                        len: sharedLen,
                    },
                ]
            },
        }
    }
}

impl MemoryDef {
    /// Whether the private heap of a mode can be set up with list allocators of
    /// `header` bytes.
    pub fn can_init_private(&self, mode: CCMode, header: usize) -> (r: bool)
        ensures
            r == (mode is NormalEmu ==> self.private_heap_fits(header)),
    {
        let size: u64 = self.GUEST_PRIVATE_RUNNING_HEAP_SIZE;
        match mode {
            CCMode::NormalEmu => match self.GUEST_PRIVATE_RUNNING_HEAP_OFFSET.checked_add(size) {
                Some(end) => end <= usize::MAX as u64 && header as u64 <= size,
                None => false,
            },
            _ => true,
        }
    }

    /// Whether the shared heaps of a mode can be set up with list allocators of
    /// `header` bytes.
    pub fn can_init_shared(&self, mode: CCMode, header: usize) -> (r: bool)
        ensures
            r == (mode !is Off ==> self.shared_heaps_fit(header)),
    {
        let off: u128 = self.GUEST_HOST_SHARED_HEAP_OFFSET as u128;
        let size: u128 = self.GUEST_HOST_SHARED_HEAP_SIZE as u128;
        let io: u128 = self.IO_HEAP_SIZE as u128;
        let limit: u128 = usize::MAX as u128;
        match mode {
            CCMode::Off => true,
            _ => off + size + io <= limit && header as u128 <= io && self.HEAP_END as u128
                + header as u128 <= limit && 4 * self.PAGE_SIZE as u128 <= size,
        }
    }
}

/// The region handed over by `add` lies in the heap placed by `place`, behind
/// the `header` bytes of the list allocator at the heap's address.
pub open spec fn region_in_heap(place: HeapSetup, add: HeapSetup, header: usize) -> bool {
    match (place, add) {
        (HeapSetup::Place { heap: h, at, start, end }, HeapSetup::Add { heap, base, len }) => {
            &&& h == heap
            &&& at == start
            &&& start + header <= base
            &&& base + len == end
        },
        _ => false,
    }
}

/// The region that the step at `i` hands over lies in a heap placed before, clear
/// of that heap's list allocator.
pub open spec fn region_placed(setup: Seq<HeapSetup>, header: usize, i: int) -> bool {
    exists|j: int| 0 <= j < i && #[trigger] region_in_heap(setup[j], setup[i], header)
}

/// Every region that a set up hands over lies in a heap placed before, clear of
/// that heap's list allocator.
pub open spec fn regions_in_heaps(setup: Seq<HeapSetup>, header: usize) -> bool {
    forall|i: int|
        0 <= i < setup.len() && setup[i] is Add ==> #[trigger] region_placed(setup, header, i)
}

/// A set up places each heap at the address that the allocator records for it.
pub open spec fn placed_where_recorded(setup: Seq<HeapSetup>, h: HostAllocator) -> bool {
    forall|i: int| #![trigger setup[i]]
        0 <= i < setup.len() && setup[i] is Place ==> setup[i]->at == h.heap_addr(
            setup[i]->Place_heap,
        )
}

/// The private heap's set up hands over only memory of that heap, and none that
/// its list allocator occupies.
pub proof fn private_setup_stays_in_heap(map: MemoryDef, mode: CCMode, header: usize)
    requires
        mode is NormalEmu ==> map.private_heap_fits(header),
    ensures
        regions_in_heaps(map.private_setup(mode, header), header),
{
    let setup = map.private_setup(mode, header);
    if mode is NormalEmu {
        assert(region_in_heap(setup[1], setup[2], header));
    }
}

/// Where the reserved pages hold a list allocator, the region handed to the shared
/// heap is memory of that heap, and none that its list allocator occupies.
pub proof fn shared_region_stays_in_heap(map: MemoryDef, mode: CCMode, header: usize)
    requires
        mode !is Off,
        map.shared_heaps_fit(header),
        header <= map.shared_reserve(),
    ensures
        region_in_heap(
            map.shared_setup(mode, header)[0],
            map.shared_setup(mode, header)[3],
            header,
        ),
{
}

/// Where the memory map has the heap for input and output follow the shared heap,
/// the region handed to the former is memory of that heap, and none that its list
/// allocator occupies.
pub proof fn io_region_stays_in_heap(map: MemoryDef, mode: CCMode, header: usize)
    requires
        mode !is Off,
        map.shared_heaps_fit(header),
        map.HEAP_END == map.shared_heap_end(),
    ensures
        region_in_heap(
            map.shared_setup(mode, header)[1],
            map.shared_setup(mode, header)[2],
            header,
        ),
{
}

/// Under both conditions the whole set up of the shared heaps hands over only
/// memory of the heap it is handed to, and none that the heap's list allocator
/// occupies. Outside confidential computing it does so without condition.
pub proof fn shared_setup_stays_in_heaps(map: MemoryDef, mode: CCMode, header: usize)
    requires
        mode !is Off ==> {
            &&& map.shared_heaps_fit(header)
            &&& map.HEAP_END == map.shared_heap_end()
            &&& header <= map.shared_reserve()
        },
    ensures
        regions_in_heaps(map.shared_setup(mode, header), header),
{
    if mode !is Off {
        shared_region_stays_in_heap(map, mode, header);
        io_region_stays_in_heap(map, mode, header);
    }
}

/// A region that is handed over does not overlap the `len` bytes from `start`.
pub open spec fn region_avoids(add: HeapSetup, start: int, len: int) -> bool {
    match add {
        HeapSetup::Add { base, len: n, .. } => base + n <= start || start + len <= base,
        _ => true,
    }
}

/// The `len` bytes of the hypercall parameter page lie in the reserved part of the
/// shared heap.
pub open spec fn para_page_reserved(map: MemoryDef, len: int) -> bool {
    &&& map.GUEST_HOST_SHARED_HEAP_OFFSET <= map.HYPERCALL_PARA_PAGE_OFFSET
    &&& map.HYPERCALL_PARA_PAGE_OFFSET + len <= map.GUEST_HOST_SHARED_HEAP_OFFSET
        + map.shared_reserve()
}

/// Where the hypercall parameter page lies in the reserved pages, the shared heap
/// hands none of it out. Neither does the heap for input and output, where that
/// starts behind the reserved pages.
pub proof fn para_page_is_never_handed_out(
    map: MemoryDef,
    mode: CCMode,
    header: usize,
    len: int,
    i: int,
)
    requires
        mode !is Off ==> map.shared_heaps_fit(header),
        para_page_reserved(map, len),
        0 <= i < map.shared_setup(mode, header).len(),
    ensures
        map.shared_setup(mode, header)[i] matches HeapSetup::Add { heap, .. } && heap
            == Heap::GuestHostShared ==> region_avoids(
            map.shared_setup(mode, header)[i],
            map.HYPERCALL_PARA_PAGE_OFFSET as int,
            len,
        ),
        map.GUEST_HOST_SHARED_HEAP_OFFSET + map.shared_reserve() <= map.HEAP_END ==> region_avoids(
            map.shared_setup(mode, header)[i],
            map.HYPERCALL_PARA_PAGE_OFFSET as int,
            len,
        ),
{
}

/// The shared heap and the heap for input and output do not overlap: the one
/// ends where the other starts.
pub proof fn shared_heaps_adjoin(map: MemoryDef, mode: CCMode, header: usize)
    requires
        mode !is Off,
        map.shared_heaps_fit(header),
    ensures
        ({
            let setup = map.shared_setup(mode, header);
            &&& setup[0] matches HeapSetup::Place { heap: Heap::GuestHostShared, end, .. }
            &&& setup[1] matches HeapSetup::Place { heap: Heap::IO, start, .. }
            &&& end == start
        }),
{
}

/// Both set ups place the heaps where the allocator looks for them.
pub proof fn heaps_are_placed_where_recorded(
    h: HostAllocator,
    map: MemoryDef,
    mode: CCMode,
    header: usize,
)
    ensures
        placed_where_recorded(map.private_setup(mode, header), h.with_private(mode, map)),
        placed_where_recorded(map.shared_setup(mode, header), h.with_shared(mode, map)),
{
}

/// It does not matter which of the two initialisations runs first, and running
/// one again changes nothing.
pub proof fn init_order_is_free(h: HostAllocator, map: MemoryDef, m: CCMode, n: CCMode)
    ensures
        h.with_private(m, map).with_shared(n, map) == h.with_shared(n, map).with_private(m, map),
        h.with_private(m, map).with_private(m, map) == h.with_private(m, map),
        h.with_shared(n, map).with_shared(n, map) == h.with_shared(n, map),
{
}

/// Outside confidential computing the private and the shared heap are the same
/// heap.
pub proof fn one_heap_without_confidential_computing(h: HostAllocator, map: MemoryDef)
    ensures
        ({
            let r = h.with_private(CCMode::Off, map).with_shared(CCMode::Off, map);
            &&& r.heap_addr(Heap::GuestPrivate) == map.HEAP_OFFSET
            &&& r.heap_addr(Heap::GuestHostShared) == map.HEAP_OFFSET
        }),
{
}

/// The private heap's address after its initialisation is told by mode and memory
/// map alone, whatever was recorded before: the heap that the guest prepares on an
/// emulated machine, the ordinary heap without confidential computing, and the one
/// that is there already in every other mode.
pub proof fn private_heap_is_where_the_mode_has_it(
    h: HostAllocator,
    g: HostAllocator,
    map: MemoryDef,
    mode: CCMode,
    other: u64,
)
    ensures
        h.with_private(mode, map).guestPrivHeapAddr == g.with_private(mode, map).guestPrivHeapAddr,
        h.with_private(CCMode::NormalEmu, map).guestPrivHeapAddr
            == map.GUEST_PRIVATE_RUNNING_HEAP_OFFSET,
        h.with_private(CCMode::Off, map).guestPrivHeapAddr == map.HEAP_OFFSET,
        h.with_private(CCMode::Other(other), map).guestPrivHeapAddr
            == map.GUEST_PRIVATE_HEAP_OFFSET,
        mode is NormalEmu || mode is Off || mode is Other,
{
}

/// The shared heap's address after its initialisation is told by mode and memory map
/// alone. Under confidential computing, in every mode, so is that of the heap for
/// input and output, which starts where the shared heap ends.
pub proof fn shared_heaps_are_where_the_mode_has_them(
    h: HostAllocator,
    g: HostAllocator,
    map: MemoryDef,
    mode: CCMode,
)
    requires
        map.GUEST_HOST_SHARED_HEAP_OFFSET + map.GUEST_HOST_SHARED_HEAP_SIZE <= u64::MAX,
    ensures
        h.with_shared(mode, map).sharedHeapAddr == g.with_shared(mode, map).sharedHeapAddr,
        mode is Off ==> {
            &&& h.with_shared(mode, map).sharedHeapAddr == map.HEAP_OFFSET
            &&& h.with_shared(mode, map).ioHeapAddr == h.ioHeapAddr
        },
        mode !is Off ==> {
            &&& h.with_shared(mode, map).sharedHeapAddr == map.GUEST_HOST_SHARED_HEAP_OFFSET
            &&& h.with_shared(mode, map).ioHeapAddr - h.with_shared(mode, map).sharedHeapAddr
                == map.GUEST_HOST_SHARED_HEAP_SIZE
        },
{
}

/// An initialisation records the heaps it is about and leaves the rest alone.
pub proof fn initialisation_keeps_the_rest(h: HostAllocator, map: MemoryDef, mode: CCMode)
    ensures
        h.with_private(mode, map).ioHeapAddr == h.ioHeapAddr,
        h.with_private(mode, map).sharedHeapAddr == h.sharedHeapAddr,
        h.with_private(mode, map).hostInitHeapAddr == h.hostInitHeapAddr,
        h.with_private(mode, map).vmLaunched == h.vmLaunched,
        h.with_private(mode, map).initialized == h.initialized,
        h.with_shared(mode, map).guestPrivHeapAddr == h.guestPrivHeapAddr,
        h.with_shared(mode, map).hostInitHeapAddr == h.hostInitHeapAddr,
        h.with_shared(mode, map).vmLaunched == h.vmLaunched,
        h.with_shared(mode, map).initialized == h.initialized,
{
}

/// Each heap is looked for at its own recorded address.
pub proof fn each_heap_has_its_own_address(h: HostAllocator)
    ensures
        h.heap_addr(Heap::GuestPrivate) == h.guestPrivHeapAddr,
        h.heap_addr(Heap::GuestHostShared) == h.sharedHeapAddr,
        h.heap_addr(Heap::IO) == h.ioHeapAddr,
{
}

/// The guest sets the private heap up itself on an emulated machine and in no other
/// mode. It gives up the identical mapping first. The heap spans the whole range
/// that the memory map has for it, and all of it but the list allocator at its start
/// is handed over.
pub proof fn private_heap_is_used_whole(map: MemoryDef, mode: CCMode, header: usize)
    requires
        mode is NormalEmu ==> map.GUEST_PRIVATE_RUNNING_HEAP_OFFSET
            + map.GUEST_PRIVATE_RUNNING_HEAP_SIZE <= usize::MAX && header
            <= map.GUEST_PRIVATE_RUNNING_HEAP_SIZE,
    ensures
        ({
            let setup = map.private_setup(mode, header);
            &&& mode !is NormalEmu ==> setup.len() == 0
            &&& mode is NormalEmu ==> {
                &&& setup.len() == 3
                &&& setup[0] is ClearIdenticalMapping
                &&& setup[1] matches HeapSetup::Place { heap, at, start, end } && {
                    &&& heap is GuestPrivate
                    &&& at == map.GUEST_PRIVATE_RUNNING_HEAP_OFFSET
                    &&& start == map.GUEST_PRIVATE_RUNNING_HEAP_OFFSET
                    &&& end - start == map.GUEST_PRIVATE_RUNNING_HEAP_SIZE
                    &&& setup[2] matches HeapSetup::Add { heap: to, base, len } && {
                        &&& to is GuestPrivate
                        &&& base - start == header
                        &&& base + len == end
                    }
                }
            }
        }),
{
}

/// The shared heaps are set up in every mode but without confidential computing. Both
/// span the whole ranges that the memory map has for them, one behind the other. Of
/// the shared heap all but the first four pages is handed over. Of the other, as many
/// bytes as it has without its list allocator are, from behind a list allocator at the
/// memory map's end of the heap. Both are placed before anything is handed over.
pub proof fn shared_heaps_are_used_whole(map: MemoryDef, mode: CCMode, header: usize)
    requires
        mode !is Off ==> {
            &&& map.GUEST_HOST_SHARED_HEAP_OFFSET + map.GUEST_HOST_SHARED_HEAP_SIZE
                + map.IO_HEAP_SIZE <= usize::MAX
            &&& header <= map.IO_HEAP_SIZE
            &&& map.HEAP_END + header <= usize::MAX
            &&& 4 * map.PAGE_SIZE <= map.GUEST_HOST_SHARED_HEAP_SIZE
        },
    ensures
        ({
            let setup = map.shared_setup(mode, header);
            &&& mode is Off ==> setup.len() == 0
            &&& mode !is Off ==> {
                &&& setup.len() == 4
                &&& setup[0] matches HeapSetup::Place { heap: h0, at: a0, start: s0, end: e0 } && {
                    &&& h0 is GuestHostShared
                    &&& a0 == map.GUEST_HOST_SHARED_HEAP_OFFSET
                    &&& s0 == map.GUEST_HOST_SHARED_HEAP_OFFSET
                    &&& e0 - s0 == map.GUEST_HOST_SHARED_HEAP_SIZE
                    &&& setup[1] matches HeapSetup::Place {
                        heap: h1,
                        at: a1,
                        start: s1,
                        end: e1,
                    } && {
                        &&& h1 is IO
                        &&& a1 == e0
                        &&& s1 == e0
                        &&& e1 - s1 == map.IO_HEAP_SIZE
                    }
                    &&& setup[3] matches HeapSetup::Add { heap: h3, base: b3, len: l3 } && {
                        &&& h3 is GuestHostShared
                        &&& b3 - s0 == 4 * map.PAGE_SIZE
                        &&& b3 + l3 == e0
                    }
                }
                &&& setup[2] matches HeapSetup::Add { heap: h2, base: b2, len: l2 } && {
                    &&& h2 is IO
                    &&& b2 - map.HEAP_END == header
                    &&& l2 + header == map.IO_HEAP_SIZE
                }
            }
        }),
{
}

/// A heap can be set up exactly if its ranges end within the address space and hold
/// what is kept at their start: a list allocator, and in the shared heap the four
/// reserved pages.
pub proof fn heaps_fit_if_their_ranges_do(map: MemoryDef, header: usize)
    ensures
        map.private_heap_fits(header) <==> map.GUEST_PRIVATE_RUNNING_HEAP_OFFSET
            + map.GUEST_PRIVATE_RUNNING_HEAP_SIZE <= usize::MAX && header
            <= map.GUEST_PRIVATE_RUNNING_HEAP_SIZE,
        map.shared_heaps_fit(header) <==> map.GUEST_HOST_SHARED_HEAP_OFFSET
            + map.GUEST_HOST_SHARED_HEAP_SIZE + map.IO_HEAP_SIZE <= usize::MAX && header
            <= map.IO_HEAP_SIZE && map.HEAP_END + header <= usize::MAX && 4 * map.PAGE_SIZE
            <= map.GUEST_HOST_SHARED_HEAP_SIZE,
{
}

/// A new allocator belongs to a launched, initialised machine and knows no heap: each
/// initialisation makes exactly its own heaps known.
pub proof fn new_allocator_knows_no_heap(r: HostAllocator, heap: Heap)
    requires
        call_ensures(HostAllocator::New, (), r),
    ensures
        r.heap_addr(heap) == 0,
        r.guestPrivHeapAddr == 0 && r.sharedHeapAddr == 0 && r.ioHeapAddr == 0,
        r.hostInitHeapAddr == 0,
        r.vmLaunched && r.initialized,
{
}

} // verus!
