use qkernel::cpu::{CPULocal, CounterSet, PerfType, QMutexIntern, VcpuId};
use qkernel::effect::{Arch, Effect, Request, SchedState, Step, VcpuMode};
use qkernel::error::Error;
use qkernel::sched::{child_clone, switch, TaskId};
use qkernel::service::{
    ClockGetTime, ExecProcess, IOMgr, InitX86FPState, IsKernel, NewSocket, OpenAt, ReapSwapIn,
    StartExecProcess, StartRootContainer, StartSubContainerProcess, VcpuFreq,
};
use qkernel::uring::UringAsyncMgr;
use qkernel::user_access::{
    enable_access_user, read_user_opcode, set_access_user, OpcodeAction, OpcodeEvent, UserAccess,
};

const A: TaskId =
    TaskId { addr: 1, task: 2, context: 3, wrapper: 4, inSharedHeap: false };
const B: TaskId =
    TaskId { addr: 11, task: 12, context: 13, wrapper: 14, inSharedHeap: false };

#[test]
fn switch_with_own_page_tables() {
    assert_eq!(
        switch(A, B, false, false),
        vec![
            Effect::AccountTaskEnter(SchedState::Blocked),
            Effect::SetCurrentTask(11),
            Effect::SwitchPageTable(12),
            Effect::SetTLS(12),
            Effect::VcpuLeave(2),
            Effect::VcpuEnter(12),
            Effect::ContextSwap { from: 3, to: 13 },
            Effect::AccountTaskLeave(SchedState::Blocked),
        ]
    );
}

#[test]
fn switch_under_confidential_computing() {
    assert_eq!(
        switch(B, A, true, true),
        vec![
            Effect::AccountTaskEnter(SchedState::Blocked),
            Effect::SetCurrentTask(1),
            Effect::SetTLS(2),
            Effect::VcpuLeave(12),
            Effect::VcpuEnter(2),
            Effect::ContextSwapCC { from: 13, to: 3, fromWrapper: 14, toWrapper: 4 },
            Effect::AccountTaskLeave(SchedState::Blocked),
        ]
    );
}

#[test]
fn tasks_in_the_shared_heap_switch_without_confidential_computing() {
    let shared = TaskId { inSharedHeap: true, ..A };
    assert_eq!(switch(shared, B, true, false), switch(A, B, true, false));
}

// What a processor holds: current task, page table, thread local storage,
// context.
fn run(mut cpu: [u64; 4], effects: &[Effect]) -> [u64; 4] {
    for e in effects {
        match *e {
            Effect::SetCurrentTask(t) => cpu[0] = t,
            Effect::SwitchPageTable(t) => cpu[1] = t,
            Effect::SetTLS(t) => cpu[2] = t,
            Effect::ContextSwap { to, .. } => cpu[3] = to,
            Effect::ContextSwapCC { to, .. } => cpu[3] = to,
            _ => {}
        }
    }
    cpu
}

#[test]
fn switching_there_and_back() {
    for cc in [false, true] {
        let there = run([1, 2, 2, 3], &switch(A, B, false, cc));
        assert_eq!(there, [11, 12, 12, 13]);
        assert_eq!(run(there, &switch(B, A, false, cc)), [1, 2, 2, 3]);
        let there = run([1, 99, 2, 3], &switch(A, B, true, cc));
        assert_eq!(there, [11, 99, 12, 13]);
        assert_eq!(run(there, &switch(B, A, true, cc)), [1, 99, 2, 3]);
    }
}

#[test]
fn cloned_task_enters_its_application() {
    let mut expected = vec![
        Effect::SetUserStack(0x7000),
        Effect::SetKernelStack(0x8000),
        Effect::AccountTaskEnter(SchedState::RunningApp),
        Effect::StampEnterApp,
        Effect::SetMode(VcpuMode::User),
        Effect::HandleTlbShootdown,
        Effect::SyscallRet(0x7fc0),
    ];
    assert_eq!(child_clone(Arch::X86_64, 0x7000, 0x8000, 0x7fc0), expected);
    expected[6] = Effect::IRet(0x7fc0);
    assert_eq!(child_clone(Arch::Aarch64, 0x7000, 0x8000, 0x7fc0), expected);
}

#[test]
fn numbers_of_the_running_vcpu_and_task() {
    assert_eq!(CPULocal::CpuId(None), Step::Ask(Request::VcpuId));
    assert_eq!(CPULocal::CpuId(Some(3)), Step::Return(3));
    assert_eq!(VcpuId(None), Step::Ask(Request::VcpuId));
    assert_eq!(VcpuId(Some(4)), Step::Return(4));
    assert_eq!(CounterSet {}.GetPerfId(None), Step::Ask(Request::VcpuId));
    assert_eq!(CounterSet {}.GetPerfId(Some(5)), Step::Return(5));
    assert_eq!(QMutexIntern::<u8>::GetID(None), Step::Ask(Request::TaskAddress));
    assert_eq!(QMutexIntern::<u8>::GetID(Some(0x4000)), Step::Return(0x4000));
}

#[test]
fn performance_counters() {
    assert_eq!(CounterSet {}.PerfType(), "PerfPrint::Kernel");
    assert_eq!(CounterSet::PERM_COUNTER_SET_SIZE, 8);
    assert_eq!(PerfType::Start as usize, 0);
    assert_eq!(PerfType::Idle as usize, 8);
    assert_eq!(PerfType::End as usize, 14);
}

#[test]
fn services_are_asked_and_answered() {
    let ask = OpenAt(1, -100, 0x20, 7, None);
    let open = Request::OpenAt { task: 1, dirFd: -100, addr: 0x20, flags: 7 };
    assert_eq!(ask, Step::Ask(open));
    assert_eq!(OpenAt(1, -100, 0x20, 7, Some(Ok(9))), Step::Return(Ok(9)));
    assert_eq!(
        OpenAt(1, -100, 0x20, 7, Some(Err(Error::SysError(2)))),
        Step::Return(Err(Error::SysError(2)))
    );
    assert_eq!(ClockGetTime(6, None), Step::Ask(Request::KernelGetTime(6)));
    assert_eq!(ClockGetTime(6, Some(Ok(123))), Step::Return(123));
    assert_eq!(VcpuFreq(None), Step::Ask(Request::KernelVcpuFreq));
    assert_eq!(VcpuFreq(Some(2_000)), Step::Return(2_000));
    assert_eq!(NewSocket(4, None), Step::Ask(Request::NewSocket(4)));
    assert_eq!(NewSocket(4, Some(-9)), Step::Return(-9));
}

#[test]
fn containers_are_started() {
    assert_eq!(StartRootContainer(0x30), Effect::StartRootContainer(0x30));
    assert_eq!(StartExecProcess(3, "sh"), ExecProcess { fd: 3, process: "sh" });
    assert_eq!(
        StartSubContainerProcess(1, 2, 3),
        Effect::StartSubContainerProcess { elfEntry: 1, userStackAddr: 2, kernelStackAddr: 3 }
    );
}

#[test]
fn remaining_services() {
    assert!(IsKernel());
    assert_eq!(ReapSwapIn(), Effect::SwapIn);
    assert_eq!(
        InitX86FPState(0x50, true),
        Effect::InitX86FPState { data: 0x50, useXsave: true }
    );
    assert_eq!(
        IOMgr::Init(),
        Err(Error::Common("IOMgr can't init in kernel".to_string()))
    );
}

#[test]
fn slots_are_returned_in_order() {
    let mut u = UringAsyncMgr { freeids: [4usize, 1, 9].into_iter().collect() };
    assert_eq!(u.FreeSlot(7), Effect::FreeSlot(7));
    assert_eq!(
        u.Clear(),
        vec![Effect::FreeSlot(4), Effect::FreeSlot(1), Effect::FreeSlot(9)]
    );
    assert!(u.freeids.is_empty());
    assert!(u.Clear().is_empty());
}

#[test]
fn user_access_is_enabled_and_restored() {
    for pan in [Some(true), Some(false), None] {
        let before = UserAccess { pan };
        let mut access = before;
        let allowed = enable_access_user(&mut access);
        assert_eq!(allowed, pan != Some(true));
        assert_ne!(access.pan, Some(true));
        assert!(set_access_user(&mut access, allowed));
        assert_eq!(access, before);
    }
    let mut access = UserAccess { pan: Some(false) };
    assert!(set_access_user(&mut access, false));
    assert_eq!(access.pan, Some(true));
    assert!(!set_access_user(&mut access, true));
    assert_eq!(access.pan, Some(false));
    let mut none = UserAccess { pan: None };
    assert!(set_access_user(&mut none, false));
    assert_eq!(none.pan, None);
}

#[test]
fn opcode_is_read_with_access_enabled() {
    for pan in [Some(true), Some(false), None] {
        let before = UserAccess { pan };
        let mut access = before;
        let allowed = match read_user_opcode(&mut access, 0x4008, OpcodeEvent::Begin) {
            OpcodeAction::Load { pc, allowed } => {
                assert_eq!(pc, 0x4008);
                allowed
            }
            other => panic!("{:?}", other),
        };
        assert_ne!(access.pan, Some(true));
        let loaded = OpcodeEvent::Loaded { allowed, opcode: 0xd65f03c0 };
        assert_eq!(
            read_user_opcode(&mut access, 0x4008, loaded),
            OpcodeAction::Return(Some(0xd65f03c0))
        );
        assert_eq!(access, before);
    }
}

#[test]
fn opcode_is_not_read_at_unaligned_addresses() {
    for pc in [0x4001, 0x4002, 0x4003, u64::MAX] {
        let mut access = UserAccess { pan: Some(true) };
        assert_eq!(
            read_user_opcode(&mut access, pc, OpcodeEvent::Begin),
            OpcodeAction::Return(None)
        );
        assert_eq!(access.pan, Some(true));
    }
}
