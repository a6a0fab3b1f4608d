use qkernel::effect::Arch;
use qkernel::hypercall::{
    HyperCall64, HypercallDef, OutRegs, ParaWrite, SharePara, ShareParaPage, StrRegs, Trap,
    _hcall_prepare_shared_buff, hypercall_needs_vcpu, hypercall_slot,
};
use qkernel::memory::MemoryDef;
use qkernel::paging::{HugepageDontNeed, Invlpg, PageMgr, TlbInsn};
use qkernel::effect::{Effect, Request, Step};

const DEF: HypercallDef = HypercallDef { HYPERCALL_HCALL: 9, HYPERCALL_SHARESPACE_INIT: 4 };
const ZERO: SharePara = SharePara { para1: 0, para2: 0, para3: 0, para4: 0 };
const PARA: SharePara = SharePara { para1: 11, para2: 12, para3: 13, para4: 14 };

fn map() -> MemoryDef {
    MemoryDef {
        HEAP_OFFSET: 0,
        HEAP_END: 0,
        GUEST_PRIVATE_HEAP_OFFSET: 0,
        GUEST_PRIVATE_RUNNING_HEAP_OFFSET: 0,
        GUEST_PRIVATE_RUNNING_HEAP_SIZE: 0,
        GUEST_HOST_SHARED_HEAP_OFFSET: 0,
        GUEST_HOST_SHARED_HEAP_SIZE: 0,
        IO_HEAP_SIZE: 0,
        PAGE_SIZE: 0x1000,
        PAGE_SHIFT: 12,
        HUGE_PAGE_SIZE: 0x20_0000,
        HYPERCALL_MMIO_BASE: 0x1000_0000,
        HYPERCALL_PARA_PAGE_OFFSET: 0x7000,
    }
}

fn page() -> ShareParaPage {
    ShareParaPage { slotSize: 0x40, SharePara: vec![ZERO; 3] }
}

#[test]
fn parameters_go_to_one_slot() {
    let mut p = page();
    let w = _hcall_prepare_shared_buff(&map(), &mut p, 1, 11, 12, 13, 14);
    assert_eq!(w, ParaWrite { addr: 0x7040, para: PARA });
    assert_eq!(p, ShareParaPage { slotSize: 0x40, SharePara: vec![ZERO, PARA, ZERO] });
}

#[test]
fn parameters_travel_in_registers() {
    let mut p = page();
    let c = HyperCall64(Arch::X86_64, &map(), &DEF, false, None, &mut p, 9, 11, 12, 13, 14);
    assert_eq!(c.trap, Trap::Out {
            dx: 9,
            al: 0,
            regs: Some(OutRegs { rsi: 11, rcx: 12, rdi: 13, r10: 14 }),
        });
    let c = HyperCall64(Arch::Aarch64, &map(), &DEF, false, None, &mut p, 9, 11, 12, 13, 14);
    assert_eq!(c.trap, Trap::Str {
            x0: 0x1000_0009,
            w1: 0,
            regs: Some(StrRegs { x2: 11, x3: 12, x4: 13, x5: 14 }),
        });
    assert_eq!(c.write, None);
    assert_eq!(p, page());
}

#[test]
fn parameters_travel_in_the_page() {
    let mut p = page();
    let c = HyperCall64(Arch::X86_64, &map(), &DEF, true, Some(2), &mut p, 9, 11, 12, 13, 14);
    assert_eq!(c.trap, Trap::Out { dx: 9, al: 0, regs: None });
    assert_eq!(c.write, Some(ParaWrite { addr: 0x7080, para: PARA }));
    assert_eq!(p.SharePara, vec![ZERO, ZERO, PARA]);
    let mut p = page();
    let c = HyperCall64(Arch::Aarch64, &map(), &DEF, true, Some(1), &mut p, 9, 11, 12, 13, 14);
    assert_eq!(c.trap, Trap::Str { x0: 0x1000_0009, w1: 0, regs: None });
    assert_eq!(c.write, Some(ParaWrite { addr: 0x7040, para: PARA }));
    assert_eq!(p.SharePara, vec![ZERO, PARA, ZERO]);
}

#[test]
fn share_space_initialisation_uses_the_first_slot() {
    let mut p = page();
    let c = HyperCall64(Arch::X86_64, &map(), &DEF, true, None, &mut p, 4, 11, 12, 13, 14);
    assert_eq!(c.write, Some(ParaWrite { addr: 0x7000, para: PARA }));
    assert_eq!(p.SharePara, vec![PARA, ZERO, ZERO]);
    let mut p = page();
    HyperCall64(Arch::X86_64, &map(), &DEF, true, Some(2), &mut p, 4, 11, 12, 13, 14);
    assert_eq!(p.SharePara, vec![PARA, ZERO, ZERO]);
}

#[test]
fn vcpu_is_needed_for_its_slot_only() {
    assert!(hypercall_needs_vcpu(&DEF, true, 9));
    assert!(!hypercall_needs_vcpu(&DEF, true, 4));
    assert!(!hypercall_needs_vcpu(&DEF, false, 9));
    assert_eq!(hypercall_slot(&DEF, 9, Some(2)), 2);
    assert_eq!(hypercall_slot(&DEF, 4, Some(2)), 0);
    assert_eq!(hypercall_slot(&DEF, 4, None), 0);
}

fn tlbi(page: u64) -> Vec<TlbInsn> {
    vec![TlbInsn::DsbIshst, TlbInsn::TlbiVaae1is(page), TlbInsn::DsbIsh, TlbInsn::Isb]
}

#[test]
fn mappings_are_dropped() {
    let m = map();
    assert_eq!(Invlpg(Arch::X86_64, &m, true, 0x5123), vec![]);
    assert_eq!(Invlpg(Arch::Aarch64, &m, true, 0x5123), vec![]);
    let wide = MemoryDef { PAGE_SHIFT: 64, ..m };
    assert_eq!(Invlpg(Arch::Aarch64, &wide, true, 0x5123), vec![]);
    assert_eq!(Invlpg(Arch::X86_64, &m, false, 0x5123), vec![TlbInsn::Invlpg(0x5123)]);
    assert_eq!(Invlpg(Arch::Aarch64, &m, false, 0x5123), tlbi(5));
    assert_eq!(Invlpg(Arch::Aarch64, &m, false, 0x5fff), tlbi(5));
    assert_eq!(Invlpg(Arch::Aarch64, &m, false, 0x6000), tlbi(6));
    assert_eq!(Invlpg(Arch::Aarch64, &m, false, u64::MAX), tlbi(0xf_ffff_ffff_ffff));
}

#[test]
fn huge_page_is_given_back() {
    assert_eq!(
        HugepageDontNeed(&map(), 0x40_0000, None),
        Step::Ask(Request::Madvise { addr: 0x40_0000, len: 0x20_0000, advice: 4 })
    );
    assert_eq!(HugepageDontNeed(&map(), 0x40_0000, Some(0)), Step::Return(()));
}

#[test]
fn vsyscall_page_is_copied() {
    assert_eq!(
        PageMgr {}.CopyVsysCallPages(0x9000, 0x1000),
        Effect::CopyPage { to: 0x9000, from: 0x1000 }
    );
}

#[test]
fn two_vcpus_do_not_disturb_each_other() {
    let mut ab = page();
    HyperCall64(Arch::X86_64, &map(), &DEF, true, Some(0), &mut ab, 9, 11, 12, 13, 14);
    HyperCall64(Arch::X86_64, &map(), &DEF, true, Some(2), &mut ab, 7, 5, 6, 7, 8);
    let mut ba = page();
    HyperCall64(Arch::X86_64, &map(), &DEF, true, Some(2), &mut ba, 7, 5, 6, 7, 8);
    HyperCall64(Arch::X86_64, &map(), &DEF, true, Some(0), &mut ba, 9, 11, 12, 13, 14);
    assert_eq!(ab, ba);
    assert_eq!(ab.SharePara[0], PARA);
    assert_eq!(ab.SharePara[2], SharePara { para1: 5, para2: 6, para3: 7, para4: 8 });
}

#[test]
fn addresses_of_slots() {
    let mut p = page();
    assert_eq!(p.slot_address(&map(), 0), Some(0x7000));
    assert_eq!(p.slot_address(&map(), 2), Some(0x7080));
    p.slotSize = u64::MAX - 0x7000;
    assert_eq!(p.slot_address(&map(), 1), Some(u64::MAX));
    assert_eq!(p.slot_address(&map(), 2), None);
    p.slotSize += 1;
    assert_eq!(p.slot_address(&map(), 1), None);
}
