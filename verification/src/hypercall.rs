//! Calls from the guest to the host.
//!
//! A hypercall is a trap with a number and four parameters. Ordinarily the
//! parameters travel in registers. Under confidential computing the host cannot
//! read the guest's registers, so they travel in a page that both share, in
//! which every virtual processor has a slot.

use crate::effect::Arch;
use crate::memory::MemoryDef;
use vstd::prelude::*;

verus! {

/// The numbers of the hypercalls that are treated specially here.
#[derive(Debug, Clone, Copy, PartialEq, Eq)]
pub struct HypercallDef {
    /// Hands a message to the host.
    pub HYPERCALL_HCALL: u16,
    /// Sets up the memory that guest and host share. It is made before a virtual
    /// processor can tell its own number.
    pub HYPERCALL_SHARESPACE_INIT: u16,
}

/// The four parameters of a hypercall.
#[derive(Debug, Clone, Copy, PartialEq, Eq)]
pub struct SharePara {
    pub para1: u64,
    pub para2: u64,
    pub para3: u64,
    pub para4: u64,
}

/// The page of parameters that guest and host share, a slot for each virtual
/// processor.
#[derive(Debug, Clone, PartialEq, Eq)]
pub struct ShareParaPage {
    /// The distance in bytes from a slot to the next.
    pub slotSize: u64,
    pub SharePara: Vec<SharePara>,
}

/// Parameters to be written to a slot at an address.
#[derive(Debug, Clone, Copy, PartialEq, Eq)]
pub struct ParaWrite {
    pub addr: u64,
    pub para: SharePara,
}

/// A hypercall, prepared: what is to be written to the shared page first, if
/// anything, and the trap that makes it.
#[derive(Debug, Clone, Copy, PartialEq, Eq)]
pub struct Hypercall {
    pub write: Option<ParaWrite>,
    pub trap: Trap,
}

/// The registers that hold the parameters of a hypercall on x86-64.
#[derive(Debug, Clone, Copy, PartialEq, Eq)]
pub struct OutRegs {
    pub rsi: u64,
    pub rcx: u64,
    pub rdi: u64,
    pub r10: u64,
}

/// The registers that hold the parameters of a hypercall on aarch64.
#[derive(Debug, Clone, Copy, PartialEq, Eq)]
pub struct StrRegs {
    pub x2: u64,
    pub x3: u64,
    pub x4: u64,
    pub x5: u64,
}

/// The instruction that traps to the host, with its operands and the other
/// registers that the host is to read, if any.
#[derive(Debug, Clone, Copy, PartialEq, Eq)]
pub enum Trap {
    /// Output of one byte, the number of the hypercall being the place it is
    /// written to.
    Out { dx: u16, al: u8, regs: Option<OutRegs> },
    /// A store to the hypercall window, at the address in `x0`. The address tells
    /// the hypercall; the data in `w1` does not matter.
    Str { x0: u64, w1: u8, regs: Option<StrRegs> },
}

/// The parameters that the host reads off the trap's registers, if they travel
/// there.
pub open spec fn trap_regs(trap: Trap) -> Option<SharePara> {
    match trap {
        Trap::Out { regs: Some(r), .. } => Some(
            SharePara { para1: r.rsi, para2: r.rcx, para3: r.rdi, para4: r.r10 },
        ),
        Trap::Str { regs: Some(r), .. } => Some(
            SharePara { para1: r.x2, para2: r.x3, para3: r.x4, para4: r.x5 },
        ),
        _ => None,
    }
}

/// The hypercall number that the host reads off a trap.
pub open spec fn trap_type(trap: Trap, map: MemoryDef) -> int {
    match trap {
        Trap::Out { dx, .. } => dx as int,
        Trap::Str { x0, .. } => x0 - map.HYPERCALL_MMIO_BASE,
    }
}

/// Whether a hypercall uses the slot of the running virtual processor, so that
/// its number is needed.
pub open spec fn needs_vcpu(def: HypercallDef, cc_active: bool, type_: u16) -> bool {
    cc_active && type_ != def.HYPERCALL_SHARESPACE_INIT
}

/// The slot of the parameter page that a hypercall uses.
pub open spec fn para_slot(def: HypercallDef, type_: u16, vcpu: Option<usize>) -> int {
    if type_ != def.HYPERCALL_SHARESPACE_INIT {
        vcpu->0 as int
    } else {
        0
    }
}

/// The address of a slot of the parameter page.
pub open spec fn slot_addr(map: MemoryDef, slot_size: u64, slot: int) -> int {
    map.HYPERCALL_PARA_PAGE_OFFSET + slot * slot_size
}

/// What a hypercall writes to the shared page.
pub open spec fn hypercall_write(
    map: MemoryDef,
    def: HypercallDef,
    cc_active: bool,
    vcpu: Option<usize>,
    slot_size: u64,
    type_: u16,
    para: SharePara,
) -> Option<ParaWrite> {
    if cc_active {
        Some(
            ParaWrite {
                addr: slot_addr(map, slot_size, para_slot(def, type_, vcpu)) as u64,
                para,
            },
        )
    } else {
        None
    }
}

/// The parameters that the host finds for a trap: those in the registers, or else
/// those in the slot of the parameter page.
pub open spec fn delivered(trap: Trap, page: Seq<SharePara>, slot: int) -> SharePara {
    match trap_regs(trap) {
        Some(regs) => regs,
        None => page[slot],
    }
}

/// The trap that makes a hypercall.
pub open spec fn hypercall_trap(
    arch: Arch,
    map: MemoryDef,
    cc_active: bool,
    type_: u16,
    para: SharePara,
) -> Trap {
    match arch {
        Arch::X86_64 => Trap::Out {
            dx: type_,
            al: 0,
            regs: if cc_active {
                None
            } else {
                Some(
                    OutRegs { rsi: para.para1, rcx: para.para2, rdi: para.para3, r10: para.para4 },
                )
            },
        },
        Arch::Aarch64 => Trap::Str {
            x0: (map.HYPERCALL_MMIO_BASE + type_) as u64,
            w1: 0,
            regs: if cc_active {
                None
            } else {
                Some(StrRegs { x2: para.para1, x3: para.para2, x4: para.para3, x5: para.para4 })
            },
        },
    }
}

/// The parameter page as a hypercall leaves it.
pub open spec fn hypercall_page(
    def: HypercallDef,
    cc_active: bool,
    vcpu: Option<usize>,
    page: Seq<SharePara>,
    type_: u16,
    para: SharePara,
) -> Seq<SharePara> {
    if cc_active {
        page.update(para_slot(def, type_, vcpu), para)
    } else {
        page
    }
}

impl ShareParaPage {
    /// The address of a slot, if there is such an address.
    pub fn slot_address(&self, map: &MemoryDef, slot: usize) -> (r: Option<u64>)
        ensures
            match r {
                Some(addr) => addr == slot_addr(*map, self.slotSize, slot as int),
                None => slot_addr(*map, self.slotSize, slot as int) > u64::MAX,
            },
    {
        match (slot as u64).checked_mul(self.slotSize) {
            Some(offset) => map.HYPERCALL_PARA_PAGE_OFFSET.checked_add(offset),
            None => None,
        }
    }
}

/// Puts the parameters into a virtual processor's slot, and says where in memory
/// they are to be written.
pub fn _hcall_prepare_shared_buff(
    map: &MemoryDef,
    page: &mut ShareParaPage,
    vcpu_id: usize,
    arg0: u64,
    arg1: u64,
    arg2: u64,
    arg3: u64,
) -> (r: ParaWrite)
    requires
        vcpu_id < old(page).SharePara@.len(),
        slot_addr(*map, old(page).slotSize, vcpu_id as int) <= u64::MAX,
    ensures
        r.addr == slot_addr(*map, old(page).slotSize, vcpu_id as int),
        r.para == (SharePara { para1: arg0, para2: arg1, para3: arg2, para4: arg3 }),
        final(page).slotSize == old(page).slotSize,
        final(page).SharePara@ == old(page).SharePara@.update(vcpu_id as int, r.para),
{
    let para: SharePara = SharePara { para1: arg0, para2: arg1, para3: arg2, para4: arg3 };
    page.SharePara.set(vcpu_id, para);
    let addr: u64 = map.HYPERCALL_PARA_PAGE_OFFSET + vcpu_id as u64 * page.slotSize;
    ParaWrite { addr, para }
}

/// Whether [`HyperCall64`] needs to be given the running virtual processor.
pub fn hypercall_needs_vcpu(def: &HypercallDef, cc_active: bool, type_: u16) -> (r: bool)
    ensures
        r == needs_vcpu(*def, cc_active, type_),
{
    cc_active && type_ != def.HYPERCALL_SHARESPACE_INIT
}

/// The slot of the parameter page that a hypercall uses.
pub fn hypercall_slot(def: &HypercallDef, type_: u16, vcpu: Option<usize>) -> (r: usize)
    requires
        type_ != def.HYPERCALL_SHARESPACE_INIT ==> vcpu is Some,
    ensures
        r == para_slot(*def, type_, vcpu),
{
    // The running virtual processor cannot be told before the share space is
    // initialised.
    if type_ != def.HYPERCALL_SHARESPACE_INIT {
        match vcpu {
            Some(id) => id,
            None => 0,
        }
    } else {
        0
    }
}

/// Prepares a hypercall.
pub fn HyperCall64(
    arch: Arch,
    map: &MemoryDef,
    def: &HypercallDef,
    cc_active: bool,
    vcpu: Option<usize>,
    page: &mut ShareParaPage,
    type_: u16,
    para1: u64,
    para2: u64,
    para3: u64,
    para4: u64,
) -> (r: Hypercall)
    requires
        needs_vcpu(*def, cc_active, type_) ==> vcpu is Some,
        cc_active ==> para_slot(*def, type_, vcpu) < old(page).SharePara@.len(),
        cc_active ==> slot_addr(*map, old(page).slotSize, para_slot(*def, type_, vcpu))
            <= u64::MAX,
        arch is Aarch64 ==> map.HYPERCALL_MMIO_BASE + type_ <= u64::MAX,
    ensures
        r.trap == hypercall_trap(
            arch,
            *map,
            cc_active,
            type_,
            SharePara { para1, para2, para3, para4 },
        ),
        r.write == hypercall_write(
            *map,
            *def,
            cc_active,
            vcpu,
            old(page).slotSize,
            type_,
            SharePara { para1, para2, para3, para4 },
        ),
        final(page).slotSize == old(page).slotSize,
        final(page).SharePara@ == hypercall_page(
            *def,
            cc_active,
            vcpu,
            old(page).SharePara@,
            type_,
            SharePara { para1, para2, para3, para4 },
        ),
{
    if !cc_active {
        let trap: Trap = match arch {
            Arch::X86_64 => Trap::Out {
                dx: type_,
                al: 0,
                regs: Some(OutRegs { rsi: para1, rcx: para2, rdi: para3, r10: para4 }),
            },
            Arch::Aarch64 => Trap::Str {
                x0: map.HYPERCALL_MMIO_BASE + type_ as u64,
                w1: 0,
                regs: Some(StrRegs { x2: para1, x3: para2, x4: para3, x5: para4 }),
            },
        };
        Hypercall { write: None, trap }
    } else {
        let vcpu_id: usize = hypercall_slot(def, type_, vcpu);
        let write: ParaWrite = _hcall_prepare_shared_buff(
            map,
            page,
            vcpu_id,
            para1,
            para2,
            para3,
            para4,
        );
        let trap: Trap = match arch {
            Arch::X86_64 => Trap::Out { dx: type_, al: 0, regs: None },
            Arch::Aarch64 => Trap::Str {
                x0: map.HYPERCALL_MMIO_BASE + type_ as u64,
                w1: 0,
                regs: None,
            },
        };
        Hypercall { write: Some(write), trap }
    }
}

/// The host gets the number and the four parameters of every hypercall, in
/// either mode and on either architecture.
pub proof fn hypercall_is_delivered(
    arch: Arch,
    map: MemoryDef,
    def: HypercallDef,
    cc_active: bool,
    vcpu: Option<usize>,
    page: Seq<SharePara>,
    type_: u16,
    para: SharePara,
)
    requires
        cc_active ==> para_slot(def, type_, vcpu) < page.len(),
        arch is Aarch64 ==> map.HYPERCALL_MMIO_BASE + type_ <= u64::MAX,
    ensures
        ({
            let trap = hypercall_trap(arch, map, cc_active, type_, para);
            let after = hypercall_page(def, cc_active, vcpu, page, type_, para);
            &&& trap_type(trap, map) == type_
            &&& delivered(trap, after, para_slot(def, type_, vcpu)) == para
        }),
{
}

/// A hypercall leaves the slots of all other virtual processors alone, and the
/// whole page outside confidential computing.
pub proof fn hypercall_keeps_other_slots(
    def: HypercallDef,
    cc_active: bool,
    vcpu: Option<usize>,
    page: Seq<SharePara>,
    type_: u16,
    para: SharePara,
    slot: int,
)
    requires
        cc_active ==> para_slot(def, type_, vcpu) < page.len(),
        0 <= slot < page.len(),
        cc_active ==> slot != para_slot(def, type_, vcpu),
    ensures
        ({
            let after = hypercall_page(def, cc_active, vcpu, page, type_, para);
            &&& after.len() == page.len()
            &&& after[slot] == page[slot]
        }),
{
}

/// Hypercalls that two virtual processors make at a time do not disturb each
/// other: whichever writes its parameters first, the host finds those of both.
pub proof fn concurrent_hypercalls_are_independent(
    def: HypercallDef,
    cc_active: bool,
    page: Seq<SharePara>,
    a: usize,
    type_a: u16,
    para_a: SharePara,
    b: usize,
    type_b: u16,
    para_b: SharePara,
)
    requires
        a != b,
        a < page.len(),
        b < page.len(),
        type_a != def.HYPERCALL_SHARESPACE_INIT,
        type_b != def.HYPERCALL_SHARESPACE_INIT,
    ensures
        ({
            let after_a = hypercall_page(def, cc_active, Some(a), page, type_a, para_a);
            let after_b = hypercall_page(def, cc_active, Some(b), page, type_b, para_b);
            let a_b = hypercall_page(def, cc_active, Some(b), after_a, type_b, para_b);
            let b_a = hypercall_page(def, cc_active, Some(a), after_b, type_a, para_a);
            &&& a_b == b_a
            &&& cc_active ==> a_b[a as int] == para_a && a_b[b as int] == para_b
        }),
{
}

/// Under confidential computing no parameter is in a register, whatever the
/// parameters are: the trap is the same for all of them.
pub proof fn confidential_trap_holds_no_parameter(
    arch: Arch,
    map: MemoryDef,
    type_: u16,
    para: SharePara,
    other: SharePara,
)
    ensures
        trap_regs(hypercall_trap(arch, map, true, type_, para)) is None,
        hypercall_trap(arch, map, true, type_, para) == hypercall_trap(
            arch,
            map,
            true,
            type_,
            other,
        ),
{
}

/// What a hypercall writes is what the page then holds in its slot, at the slot's
/// address, and it lies in the page.
pub proof fn parameters_are_written_to_their_slot(
    map: MemoryDef,
    def: HypercallDef,
    vcpu: Option<usize>,
    slot_size: u64,
    page: Seq<SharePara>,
    type_: u16,
    para: SharePara,
)
    requires
        para_slot(def, type_, vcpu) < page.len(),
        slot_addr(map, slot_size, para_slot(def, type_, vcpu)) <= u64::MAX,
    ensures
        hypercall_write(map, def, true, vcpu, slot_size, type_, para) matches Some(w) && {
            let slot = para_slot(def, type_, vcpu);
            &&& w.addr == slot_addr(map, slot_size, slot)
            &&& w.para == hypercall_page(def, true, vcpu, page, type_, para)[slot]
            &&& map.HYPERCALL_PARA_PAGE_OFFSET <= w.addr
            &&& w.addr + slot_size <= map.HYPERCALL_PARA_PAGE_OFFSET + page.len() * slot_size
        },
{
    let slot = para_slot(def, type_, vcpu);
    let n = page.len() as int;
    assert(0 <= slot * slot_size && slot * slot_size + slot_size <= n * slot_size) by (
        nonlinear_arith)
        requires
            0 <= slot < n,
            0 <= slot_size,
    ;
}

/// Outside confidential computing a hypercall writes nothing.
pub proof fn ordinary_hypercall_writes_nothing(
    map: MemoryDef,
    def: HypercallDef,
    vcpu: Option<usize>,
    slot_size: u64,
    type_: u16,
    para: SharePara,
)
    ensures
        hypercall_write(map, def, false, vcpu, slot_size, type_, para) is None,
{
}

/// The slots of two virtual processors do not overlap in memory.
pub proof fn slots_do_not_overlap(map: MemoryDef, slot_size: u64, a: int, b: int)
    requires
        a < b,
    ensures
        slot_addr(map, slot_size, a) + slot_size <= slot_addr(map, slot_size, b),
{
    assert(a * slot_size + slot_size <= b * slot_size) by (nonlinear_arith)
        requires
            a < b,
            0 <= slot_size,
    ;
}

/// Where the page lies in the reserved pages of the shared heap, what a hypercall
/// writes overlaps no memory that the shared heap hands out.
pub proof fn parameters_are_written_to_reserved_memory(
    map: MemoryDef,
    def: HypercallDef,
    vcpu: Option<usize>,
    slot_size: u64,
    page: Seq<SharePara>,
    type_: u16,
    para: SharePara,
    mode: crate::memory::CCMode,
    header: usize,
    i: int,
)
    requires
        para_slot(def, type_, vcpu) < page.len(),
        slot_addr(map, slot_size, para_slot(def, type_, vcpu)) <= u64::MAX,
        mode !is Off ==> map.shared_heaps_fit(header),
        crate::memory::para_page_reserved(map, page.len() * slot_size),
        0 <= i < map.shared_setup(mode, header).len(),
        map.shared_setup(mode, header)[i] matches crate::memory::HeapSetup::Add { heap, .. }
            && heap == crate::memory::Heap::GuestHostShared,
    ensures
        hypercall_write(map, def, true, vcpu, slot_size, type_, para) matches Some(w)
            && crate::memory::region_avoids(
            map.shared_setup(mode, header)[i],
            w.addr as int,
            slot_size as int,
        ),
{
    parameters_are_written_to_their_slot(map, def, vcpu, slot_size, page, type_, para);
    crate::memory::para_page_is_never_handed_out(map, mode, header, page.len() * slot_size, i);
}

/// Without confidential computing the trap's registers hold the four parameters, each
/// in its own; with it they hold none. The byte put out or stored is zero. The number
/// of the hypercall is the place put out to, or the distance of the store from the
/// start of the hypercall window.
pub proof fn registers_hold_the_parameters(
    arch: Arch,
    map: MemoryDef,
    cc_active: bool,
    type_: u16,
    para: SharePara,
)
    requires
        arch is Aarch64 ==> map.HYPERCALL_MMIO_BASE + type_ <= u64::MAX,
    ensures
        ({
            let trap = hypercall_trap(arch, map, cc_active, type_, para);
            &&& arch is X86_64 ==> (trap matches Trap::Out { dx, al, regs } && {
                &&& dx == type_
                &&& al == 0
                &&& cc_active ==> regs is None
                &&& !cc_active ==> (regs matches Some(r) && {
                    &&& r.rsi == para.para1
                    &&& r.rcx == para.para2
                    &&& r.rdi == para.para3
                    &&& r.r10 == para.para4
                })
            })
            &&& arch is Aarch64 ==> (trap matches Trap::Str { x0, w1, regs } && {
                &&& x0 - map.HYPERCALL_MMIO_BASE == type_
                &&& w1 == 0
                &&& cc_active ==> regs is None
                &&& !cc_active ==> (regs matches Some(r) && {
                    &&& r.x2 == para.para1
                    &&& r.x3 == para.para2
                    &&& r.x4 == para.para3
                    &&& r.x5 == para.para4
                })
            })
        }),
{
}

/// Hypercalls that differ in number or, in registers, in a parameter are different
/// traps.
pub proof fn different_hypercalls_are_different_traps(
    arch: Arch,
    map: MemoryDef,
    cc_active: bool,
    type_a: u16,
    para_a: SharePara,
    type_b: u16,
    para_b: SharePara,
)
    requires
        arch is Aarch64 ==> map.HYPERCALL_MMIO_BASE + type_a <= u64::MAX,
        arch is Aarch64 ==> map.HYPERCALL_MMIO_BASE + type_b <= u64::MAX,
    ensures
        hypercall_trap(arch, map, cc_active, type_a, para_a) == hypercall_trap(
            arch,
            map,
            cc_active,
            type_b,
            para_b,
        ) <==> type_a == type_b && (cc_active || para_a == para_b),
{
}

/// The slot is the running virtual processor's own, except that the share space is
/// initialised through the first slot, whichever processor does it. The number of the
/// processor is needed exactly where it tells the slot.
pub proof fn slot_is_the_running_vcpus(
    def: HypercallDef,
    cc_active: bool,
    type_: u16,
    vcpu: Option<usize>,
    n: usize,
)
    ensures
        type_ == def.HYPERCALL_SHARESPACE_INIT ==> para_slot(def, type_, vcpu) == 0,
        type_ != def.HYPERCALL_SHARESPACE_INIT ==> para_slot(def, type_, Some(n)) == n,
        needs_vcpu(def, cc_active, type_) <==> cc_active && type_
            != def.HYPERCALL_SHARESPACE_INIT,
{
}

/// Under confidential computing the parameters are put in one slot and written to
/// memory at that slot's address, as many slot sizes behind the page's address as its
/// number says. All other slots, and without confidential computing the whole page,
/// are left alone, and nothing is written.
pub proof fn parameters_reach_one_slot(
    map: MemoryDef,
    def: HypercallDef,
    cc_active: bool,
    vcpu: Option<usize>,
    slot_size: u64,
    page: Seq<SharePara>,
    type_: u16,
    para: SharePara,
    i: int,
)
    requires
        0 <= i < page.len(),
        type_ != def.HYPERCALL_SHARESPACE_INIT ==> vcpu is Some && vcpu->0 < page.len()
            && map.HYPERCALL_PARA_PAGE_OFFSET + vcpu->0 * slot_size <= u64::MAX,
    ensures
        ({
            let slot = if type_ == def.HYPERCALL_SHARESPACE_INIT {
                0int
            } else {
                vcpu->0 as int
            };
            let after = hypercall_page(def, cc_active, vcpu, page, type_, para);
            let write = hypercall_write(map, def, cc_active, vcpu, slot_size, type_, para);
            &&& after.len() == page.len()
            &&& cc_active && i == slot ==> after[i] == para
            &&& !cc_active || i != slot ==> after[i] == page[i]
            &&& !cc_active ==> write is None
            &&& cc_active ==> (write matches Some(w) && {
                &&& w.addr - map.HYPERCALL_PARA_PAGE_OFFSET == slot * slot_size
                &&& w.para.para1 == para.para1
                &&& w.para.para2 == para.para2
                &&& w.para.para3 == para.para3
                &&& w.para.para4 == para.para4
            })
        }),
{
    assert(0 * slot_size == 0);
    let n = vcpu->0;
    assert(0 <= n * slot_size) by (nonlinear_arith);
}

/// The first slot is at the page's address, and each further slot is one slot size
/// behind the one before.
pub proof fn slots_follow_each_other(map: MemoryDef, slot_size: u64, slot: int)
    ensures
        slot_addr(map, slot_size, 0) == map.HYPERCALL_PARA_PAGE_OFFSET,
        slot_addr(map, slot_size, slot + 1) - slot_addr(map, slot_size, slot) == slot_size,
{
    assert((slot + 1) * slot_size == slot * slot_size + slot_size) by (nonlinear_arith);
}

} // verus!
