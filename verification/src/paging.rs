//! Pages and their mappings.

use crate::effect::{Arch, Effect, Request, Step};
use crate::memory::MemoryDef;
use vstd::prelude::*;

verus! {

/// Advice on the use of memory.
pub struct MAdviseOp {}

impl MAdviseOp {
    /// The contents are not needed any more.
    pub const MADV_DONTNEED: i32 = 4;
}

/// The manager of the kernel's pages.
#[derive(Debug, Clone, Copy, PartialEq, Eq)]
pub struct PageMgr {}

/// An instruction of dropping a mapping from the processor's cache.
#[derive(Debug, Clone, Copy, PartialEq, Eq)]
pub enum TlbInsn {
    /// Drop the mapping of the address.
    Invlpg(u64),
    /// Wait until stores are seen by all processors.
    DsbIshst,
    /// Drop the mapping of the page with the number, on all processors.
    TlbiVaae1is(u64),
    /// Wait until all processors are done.
    DsbIsh,
    /// Refetch the instructions that follow.
    Isb,
}

impl PageMgr {
    /// Copies the page of kernel provided system calls, at `vsyscall_page`, to an
    /// address.
    pub fn CopyVsysCallPages(&self, addr: u64, vsyscall_page: u64) -> (r: Effect)
        ensures
            r == (Effect::CopyPage { to: addr, from: vsyscall_page }),
    {
        Effect::CopyPage { to: addr, from: vsyscall_page }
    }
}

/// The number of the page that an address is in, with pages of two to the power
/// of `shift` bytes.
pub open spec fn page_number(addr: u64, shift: u64) -> int {
    addr as int / vstd::arithmetic::power2::pow2(shift as nat) as int
}

/// The first address of the page that an address is in.
pub open spec fn page_start(addr: u64, shift: u64) -> int {
    addr - addr as int % vstd::arithmetic::power2::pow2(shift as nat) as int
}

/// The instructions that drop the cached mapping of an address, in order.
pub open spec fn tlb_flush(
    arch: Arch,
    map: MemoryDef,
    kernel_pagetable: bool,
    addr: u64,
) -> Seq<TlbInsn> {
    if kernel_pagetable {
        seq![]
    } else {
        match arch {
            Arch::X86_64 => seq![TlbInsn::Invlpg(addr)],
            Arch::Aarch64 => seq![
                TlbInsn::DsbIshst,
                TlbInsn::TlbiVaae1is(page_number(addr, map.PAGE_SHIFT) as u64),
                TlbInsn::DsbIsh,
                TlbInsn::Isb,
            ],
        }
    }
}

/// The instructions that drop the cached mapping of an address. There is nothing
/// to drop while all tasks run on the kernel's page table.
pub fn Invlpg(arch: Arch, map: &MemoryDef, kernel_pagetable: bool, addr: u64) -> (r: Vec<TlbInsn>)
    requires
        !kernel_pagetable && arch is Aarch64 ==> map.PAGE_SHIFT < 64,
    ensures
        r@ == tlb_flush(arch, *map, kernel_pagetable, addr),
{
    if !kernel_pagetable {
        match arch {
            Arch::X86_64 => vec![TlbInsn::Invlpg(addr)],
            Arch::Aarch64 => {
                proof {
                    vstd::bits::lemma_u64_shr_is_div(addr, map.PAGE_SHIFT);
                }
                vec![
                    TlbInsn::DsbIshst,
                    TlbInsn::TlbiVaae1is(addr >> map.PAGE_SHIFT),
                    TlbInsn::DsbIsh,
                    TlbInsn::Isb,
                ]
            },
        }
    } else {
        Vec::new()
    }
}

/// Gives the memory of a huge page back to the host, which must accept it.
pub fn HugepageDontNeed(map: &MemoryDef, addr: u64, reply: Option<i64>) -> (r: Step<()>)
    requires
        map.HUGE_PAGE_SIZE <= usize::MAX,
        reply matches Some(ret) ==> ret == 0,
    ensures
        r == match reply {
            None => Step::Ask(
                Request::Madvise {
                    addr,
                    len: map.HUGE_PAGE_SIZE as usize,
                    advice: MAdviseOp::MADV_DONTNEED,
                },
            ),
            Some(_) => Step::Return(()),
        },
{
    match reply {
        None => Step::Ask(
            Request::Madvise {
                addr,
                len: map.HUGE_PAGE_SIZE as usize,
                advice: MAdviseOp::MADV_DONTNEED,
            },
        ),
        Some(_) => Step::Return(()),
    }
}

/// Where mappings are dropped by page number, those of two addresses are
/// dropped by the same instructions exactly if the addresses are in one page.
pub proof fn flush_is_per_page(map: MemoryDef, addr: u64, other: u64)
    requires
        map.PAGE_SHIFT < 64,
    ensures
        tlb_flush(Arch::Aarch64, map, false, addr) == tlb_flush(Arch::Aarch64, map, false, other)
            <==> page_start(addr, map.PAGE_SHIFT) == page_start(other, map.PAGE_SHIFT),
{
    let p = vstd::arithmetic::power2::pow2(map.PAGE_SHIFT as nat) as int;
    vstd::arithmetic::power2::lemma_pow2_pos(map.PAGE_SHIFT as nat);
    vstd::arithmetic::div_mod::lemma_fundamental_div_mod(addr as int, p);
    vstd::arithmetic::div_mod::lemma_fundamental_div_mod(other as int, p);
    vstd::bits::lemma_u64_shr_is_div(addr, map.PAGE_SHIFT);
    vstd::bits::lemma_u64_shr_is_div(other, map.PAGE_SHIFT);
    let f = tlb_flush(Arch::Aarch64, map, false, addr);
    let g = tlb_flush(Arch::Aarch64, map, false, other);
    assert(f == g <==> f[1] == g[1]);
    let a = addr as int / p;
    let b = other as int / p;
    assert(p * a == p * b <==> a == b) by (nonlinear_arith)
        requires
            p > 0,
    ;
}

/// On x86-64 one instruction is given, for exactly the address asked for, so addresses
/// of different pages, whatever the size of a page, never give the same instructions.
/// Nothing is given for any address while all tasks run on the kernel's page table.
pub proof fn x86_flush_is_for_the_address(map: MemoryDef, addr: u64, other: u64)
    ensures
        ({
            let f = tlb_flush(Arch::X86_64, map, false, addr);
            &&& f.len() == 1
            &&& f[0] matches TlbInsn::Invlpg(a) && a == addr
        }),
        tlb_flush(Arch::X86_64, map, false, addr) == tlb_flush(Arch::X86_64, map, false, other)
            <==> addr == other,
        map.PAGE_SHIFT < 64 && page_start(addr, map.PAGE_SHIFT) != page_start(other, map.PAGE_SHIFT)
            ==> tlb_flush(Arch::X86_64, map, false, addr) != tlb_flush(
            Arch::X86_64,
            map,
            false,
            other,
        ),
{
    let f = tlb_flush(Arch::X86_64, map, false, addr);
    let g = tlb_flush(Arch::X86_64, map, false, other);
    assert(f == g ==> f[0] == g[0]);
}

/// On aarch64 the mapping of one page is dropped, between barriers, and the address
/// asked for is in that page: not before its first byte and not behind its last.
pub proof fn aarch64_flush_is_for_the_page_of_the_address(map: MemoryDef, addr: u64)
    requires
        map.PAGE_SHIFT < 64,
    ensures
        ({
            let f = tlb_flush(Arch::Aarch64, map, false, addr);
            let size = vstd::arithmetic::power2::pow2(map.PAGE_SHIFT as nat);
            &&& f.len() == 4
            &&& f[0] is DsbIshst
            &&& f[1] matches TlbInsn::TlbiVaae1is(page) && page * size <= addr && addr < (page + 1)
                * size
            &&& f[2] is DsbIsh
            &&& f[3] is Isb
        }),
{
    let p = vstd::arithmetic::power2::pow2(map.PAGE_SHIFT as nat) as int;
    vstd::arithmetic::power2::lemma_pow2_pos(map.PAGE_SHIFT as nat);
    vstd::arithmetic::div_mod::lemma_fundamental_div_mod(addr as int, p);
    vstd::bits::lemma_u64_shr_is_div(addr, map.PAGE_SHIFT);
    let q = addr as int / p;
    assert(p * q == q * p && (q + 1) * p == q * p + p) by (nonlinear_arith);
}

/// Something is dropped exactly if tasks run on page tables of their own.
pub proof fn flush_is_needed_for_own_page_tables(
    arch: Arch,
    map: MemoryDef,
    kernel_pagetable: bool,
    addr: u64,
)
    ensures
        tlb_flush(arch, map, kernel_pagetable, addr).len() == 0 <==> kernel_pagetable,
{
}

/// A page is copied from the page given to the address given, and not the other way
/// round.
pub proof fn vsyscall_page_is_copied_to_the_address(
    mgr: PageMgr,
    addr: u64,
    vsyscall_page: u64,
    r: Effect,
)
    requires
        call_ensures(PageMgr::CopyVsysCallPages, (&mgr, addr, vsyscall_page), r),
    ensures
        r matches Effect::CopyPage { to, from } && to == addr && from == vsyscall_page,
{
}

/// Exactly one huge page, from exactly the address given, is given back.
pub proof fn one_huge_page_is_given_back(
    map: MemoryDef,
    addr: u64,
    asked: Step<()>,
    returned: Step<()>,
)
    requires
        map.HUGE_PAGE_SIZE <= usize::MAX,
        call_ensures(HugepageDontNeed, (&map, addr, None), asked),
        call_ensures(HugepageDontNeed, (&map, addr, Some(0)), returned),
    ensures
        asked matches Step::Ask(Request::Madvise { addr: a, len, advice }) && a == addr && len
            == map.HUGE_PAGE_SIZE && advice == 4,
        returned is Return,
{
}

} // verus!
