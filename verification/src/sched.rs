//! Switching between tasks, and entering a new task's application code.

use crate::effect::{Arch, Effect, SchedState, VcpuMode};
use vstd::prelude::*;

verus! {

/// A task, by the addresses of its parts.
#[derive(Debug, Clone, Copy, PartialEq, Eq)]
pub struct TaskId {
    /// The task's identity.
    pub addr: u64,
    /// The task's data.
    pub task: u64,
    /// The saved registers.
    pub context: u64,
    /// The task's wrapper.
    pub wrapper: u64,
    /// Whether the task's data lies in the heap shared with the host.
    pub inSharedHeap: bool,
}

/// What is done to exchange the register contexts of two tasks.
pub open spec fn swap_effect(from: TaskId, to: TaskId, cc_active: bool) -> Effect {
    if cc_active {
        Effect::ContextSwapCC {
            from: from.context,
            to: to.context,
            fromWrapper: from.wrapper,
            toWrapper: to.wrapper,
        }
    } else {
        Effect::ContextSwap { from: from.context, to: to.context }
    }
}

/// What is done to switch from a task to another, in order.
pub open spec fn switch_effects(
    from: TaskId,
    to: TaskId,
    kernel_pagetable: bool,
    cc_active: bool,
) -> Seq<Effect> {
    seq![
        Effect::AccountTaskEnter(SchedState::Blocked),
        Effect::SetCurrentTask(to.addr),
    ] + (if kernel_pagetable {
        seq![]
    } else {
        seq![Effect::SwitchPageTable(to.task)]
    }) + seq![
        Effect::SetTLS(to.task),
        Effect::VcpuLeave(from.task),
        Effect::VcpuEnter(to.task),
        swap_effect(from, to, cc_active),
        Effect::AccountTaskLeave(SchedState::Blocked),
    ]
}

/// What is done to enter the application code of a cloned task, in order.
pub open spec fn child_clone_effects(arch: Arch, userSp: u64, kernelSp: u64, ptRegs: u64) -> Seq<
    Effect,
> {
    seq![
        Effect::SetUserStack(userSp),
        Effect::SetKernelStack(kernelSp),
        Effect::AccountTaskEnter(SchedState::RunningApp),
        Effect::StampEnterApp,
        Effect::SetMode(VcpuMode::User),
        Effect::HandleTlbShootdown,
        match arch {
            Arch::X86_64 => Effect::SyscallRet(ptRegs),
            Arch::Aarch64 => Effect::IRet(ptRegs),
        },
    ]
}

/// Switches from a task to another.
///
/// With `kernel_pagetable` all tasks run on the kernel's page table. Under
/// confidential computing no task's data may lie in the shared heap. The effects
/// after the register swap take place when the task that is left runs again.
pub fn switch(from: TaskId, to: TaskId, kernel_pagetable: bool, cc_active: bool) -> (r: Vec<Effect>)
    requires
        cc_active ==> !from.inSharedHeap && !to.inSharedHeap,
    ensures
        r@ == switch_effects(from, to, kernel_pagetable, cc_active),
{
    let mut r: Vec<Effect> = vec![
        Effect::AccountTaskEnter(SchedState::Blocked),
        Effect::SetCurrentTask(to.addr),
    ];
    if !kernel_pagetable {
        r.push(Effect::SwitchPageTable(to.task));
    }
    r.push(Effect::SetTLS(to.task));
    r.push(Effect::VcpuLeave(from.task));
    r.push(Effect::VcpuEnter(to.task));
    if !cc_active {
        r.push(Effect::ContextSwap { from: from.context, to: to.context });
    } else {
        r.push(
            Effect::ContextSwapCC {
                from: from.context,
                to: to.context,
                fromWrapper: from.wrapper,
                toWrapper: to.wrapper,
            },
        );
    }
    r.push(Effect::AccountTaskLeave(SchedState::Blocked));
    r
}

/// Enters the application code of the running task, just cloned, with its user
/// stack at `userSp`. The task's kernel stack is at `kernelSp` and its saved
/// registers are at `ptRegs`.
pub fn child_clone(arch: Arch, userSp: u64, kernelSp: u64, ptRegs: u64) -> (r: Vec<Effect>)
    ensures
        r@ == child_clone_effects(arch, userSp, kernelSp, ptRegs),
{
    let enter: Effect = match arch {
        Arch::X86_64 => Effect::SyscallRet(ptRegs),
        Arch::Aarch64 => Effect::IRet(ptRegs),
    };
    vec![
        Effect::SetUserStack(userSp),
        Effect::SetKernelStack(kernelSp),
        Effect::AccountTaskEnter(SchedState::RunningApp),
        Effect::StampEnterApp,
        Effect::SetMode(VcpuMode::User),
        Effect::HandleTlbShootdown,
        enter,
    ]
}

/// What a virtual processor holds of the task it runs.
pub struct Running {
    /// The identity of the current task.
    pub current: u64,
    /// The task whose page table is loaded.
    pub pageTable: u64,
    /// The task whose thread local storage register is loaded.
    pub tls: u64,
    /// The context whose registers are loaded.
    pub context: u64,
}

/// What a virtual processor holds after an effect.
pub open spec fn after(effect: Effect, before: Running) -> Running {
    match effect {
        Effect::SetCurrentTask(addr) => Running { current: addr, ..before },
        Effect::SwitchPageTable(task) => Running { pageTable: task, ..before },
        Effect::SetTLS(task) => Running { tls: task, ..before },
        Effect::ContextSwap { to, .. } => Running { context: to, ..before },
        Effect::ContextSwapCC { to, .. } => Running { context: to, ..before },
        _ => before,
    }
}

/// What a virtual processor holds after effects, in order.
pub open spec fn after_all(effects: Seq<Effect>, before: Running) -> Running
    decreases effects.len(),
{
    if effects.len() == 0 {
        before
    } else {
        after(effects.last(), after_all(effects.drop_last(), before))
    }
}

/// By how much an effect changes the number of virtual processors in an address
/// space, where `mm` tells the address space of each task.
pub open spec fn occupancy_step(effect: Effect, mm: spec_fn(u64) -> int, space: int) -> int {
    match effect {
        Effect::VcpuEnter(t) if mm(t) == space => 1,
        Effect::VcpuLeave(t) if mm(t) == space => -1,
        _ => 0,
    }
}

/// By how much effects change the number of virtual processors in an address
/// space, where `mm` tells the address space of each task.
pub open spec fn occupancy_change(effects: Seq<Effect>, mm: spec_fn(u64) -> int, space: int) -> int
    decreases effects.len(),
{
    if effects.len() == 0 {
        0
    } else {
        occupancy_change(effects.drop_last(), mm, space) + occupancy_step(
            effects.last(),
            mm,
            space,
        )
    }
}

/// The virtual processor runs the task.
pub open spec fn runs(cpu: Running, task: TaskId, kernel_pagetable: bool) -> bool {
    &&& cpu.current == task.addr
    &&& cpu.tls == task.task
    &&& cpu.context == task.context
    &&& !kernel_pagetable ==> cpu.pageTable == task.task
}

proof fn lemma_after_prefix(effects: Seq<Effect>, before: Running, i: int)
    requires
        0 < i <= effects.len(),
    ensures
        after_all(effects.take(i), before) == after(
            effects[i - 1],
            after_all(effects.take(i - 1), before),
        ),
{
    assert(effects.take(i).drop_last() =~= effects.take(i - 1));
}

proof fn lemma_occupancy_prefix(
    effects: Seq<Effect>,
    mm: spec_fn(u64) -> int,
    space: int,
    i: int,
)
    requires
        0 < i <= effects.len(),
    ensures
        occupancy_change(effects.take(i), mm, space) == occupancy_change(
            effects.take(i - 1),
            mm,
            space,
        ) + occupancy_step(effects[i - 1], mm, space),
{
    assert(effects.take(i).drop_last() =~= effects.take(i - 1));
}

/// A switch leaves the processor running the task switched to. The page table is
/// left alone if all tasks run on the kernel's.
pub proof fn switch_runs_the_other_task(
    from: TaskId,
    to: TaskId,
    kernel_pagetable: bool,
    cc_active: bool,
    before: Running,
)
    ensures
        ({
            let cpu = after_all(switch_effects(from, to, kernel_pagetable, cc_active), before);
            &&& runs(cpu, to, kernel_pagetable)
            &&& kernel_pagetable ==> cpu.pageTable == before.pageTable
        }),
{
    let e = switch_effects(from, to, kernel_pagetable, cc_active);
    let n = e.len() as int;
    assert(e.take(0) =~= seq![]);
    assert(e.take(n) =~= e);
    lemma_after_prefix(e, before, 1);
    lemma_after_prefix(e, before, 2);
    lemma_after_prefix(e, before, 3);
    lemma_after_prefix(e, before, 4);
    lemma_after_prefix(e, before, 5);
    lemma_after_prefix(e, before, 6);
    lemma_after_prefix(e, before, 7);
    if !kernel_pagetable {
        lemma_after_prefix(e, before, 8);
    }
}

/// Switching to another task and back leaves the processor as it was.
pub proof fn switch_back_restores(
    from: TaskId,
    to: TaskId,
    kernel_pagetable: bool,
    cc_active: bool,
    before: Running,
)
    requires
        runs(before, from, kernel_pagetable),
    ensures
        after_all(
            switch_effects(to, from, kernel_pagetable, cc_active),
            after_all(switch_effects(from, to, kernel_pagetable, cc_active), before),
        ) == before,
{
    let middle = after_all(switch_effects(from, to, kernel_pagetable, cc_active), before);
    switch_runs_the_other_task(from, to, kernel_pagetable, cc_active, before);
    switch_runs_the_other_task(to, from, kernel_pagetable, cc_active, middle);
}

/// A switch moves the processor from the address space of the one task to that of
/// the other: the count of the space left drops by one, that of the space entered
/// grows by one, and no other changes. Between tasks that share an address space
/// no count changes.
pub proof fn switch_moves_the_processor(
    from: TaskId,
    to: TaskId,
    kernel_pagetable: bool,
    cc_active: bool,
    mm: spec_fn(u64) -> int,
    space: int,
)
    ensures
        occupancy_change(switch_effects(from, to, kernel_pagetable, cc_active), mm, space) == (
        if space == mm(to.task) {
            1int
        } else {
            0
        }) - (if space == mm(from.task) {
            1int
        } else {
            0
        }),
        mm(from.task) == mm(to.task) ==> occupancy_change(
            switch_effects(from, to, kernel_pagetable, cc_active),
            mm,
            space,
        ) == 0,
{
    let e = switch_effects(from, to, kernel_pagetable, cc_active);
    let n = e.len() as int;
    assert(e.take(0) =~= seq![]);
    assert(e.take(n) =~= e);
    lemma_occupancy_prefix(e, mm, space, 1);
    lemma_occupancy_prefix(e, mm, space, 2);
    lemma_occupancy_prefix(e, mm, space, 3);
    lemma_occupancy_prefix(e, mm, space, 4);
    lemma_occupancy_prefix(e, mm, space, 5);
    lemma_occupancy_prefix(e, mm, space, 6);
    lemma_occupancy_prefix(e, mm, space, 7);
    if !kernel_pagetable {
        lemma_occupancy_prefix(e, mm, space, 8);
    }
}

/// A switch is accounted as blocked time as a whole: the accounting starts before
/// anything else is done and stops after everything else is.
pub proof fn switch_is_accounted_as_blocked(
    from: TaskId,
    to: TaskId,
    kernel_pagetable: bool,
    cc_active: bool,
)
    ensures
        ({
            let e = switch_effects(from, to, kernel_pagetable, cc_active);
            &&& e.first() == Effect::AccountTaskEnter(SchedState::Blocked)
            &&& e.last() == Effect::AccountTaskLeave(SchedState::Blocked)
            &&& forall|i: int|
                0 < i < e.len() - 1 ==> !(#[trigger] e[i] is AccountTaskEnter) && !(
                e[i] is AccountTaskLeave)
        }),
{
}

/// Nothing is done after the return to the application, and it happens in user
/// mode with both stacks set and pending mapping flushes carried out.
pub proof fn child_enters_application_last(arch: Arch, userSp: u64, kernelSp: u64, ptRegs: u64)
    ensures
        ({
            let e = child_clone_effects(arch, userSp, kernelSp, ptRegs);
            &&& e.last() == match arch {
                Arch::X86_64 => Effect::SyscallRet(ptRegs),
                Arch::Aarch64 => Effect::IRet(ptRegs),
            }
            &&& e.drop_last().contains(Effect::SetUserStack(userSp))
            &&& e.drop_last().contains(Effect::SetKernelStack(kernelSp))
            &&& e.drop_last().contains(Effect::SetMode(VcpuMode::User))
            &&& e.drop_last().contains(Effect::HandleTlbShootdown)
            &&& forall|i: int|
                0 <= i < e.len() - 1 ==> !(#[trigger] e[i] is SyscallRet) && !(e[i] is IRet)
        }),
{
    let e = child_clone_effects(arch, userSp, kernelSp, ptRegs).drop_last();
    assert(e[0] == Effect::SetUserStack(userSp));
    assert(e[1] == Effect::SetKernelStack(kernelSp));
    assert(e[4] == Effect::SetMode(VcpuMode::User));
    assert(e[5] == Effect::HandleTlbShootdown);
}

/// What an effect does to the registers: `live` are those of the processor, `saved`
/// those kept in each context. A swap saves the live registers in the context left
/// and loads those of the context entered; nothing else touches registers.
pub open spec fn registers_after<R>(effect: Effect, live: R, saved: Map<u64, R>) -> (
    R,
    Map<u64, R>,
) {
    match effect {
        Effect::ContextSwap { from, to } => (
            saved.insert(from, live)[to],
            saved.insert(from, live),
        ),
        Effect::ContextSwapCC { from, to, .. } => (
            saved.insert(from, live)[to],
            saved.insert(from, live),
        ),
        _ => (live, saved),
    }
}

/// What effects do to the registers, in order.
pub open spec fn registers_after_all<R>(effects: Seq<Effect>, live: R, saved: Map<u64, R>) -> (
    R,
    Map<u64, R>,
)
    decreases effects.len(),
{
    if effects.len() == 0 {
        (live, saved)
    } else {
        let (l, s) = registers_after_all(effects.drop_last(), live, saved);
        registers_after(effects.last(), l, s)
    }
}

proof fn lemma_registers_prefix<R>(effects: Seq<Effect>, live: R, saved: Map<u64, R>, i: int)
    requires
        0 < i <= effects.len(),
    ensures
        registers_after_all(effects.take(i), live, saved) == registers_after(
            effects[i - 1],
            registers_after_all(effects.take(i - 1), live, saved).0,
            registers_after_all(effects.take(i - 1), live, saved).1,
        ),
{
    assert(effects.take(i).drop_last() =~= effects.take(i - 1));
}

/// A switch saves the registers of the task left in that task's own context, loads
/// those that the task entered was last left with, and keeps every other saved
/// context, that of the task entered included.
pub proof fn switch_saves_and_loads_registers<R>(
    from: TaskId,
    to: TaskId,
    kernel_pagetable: bool,
    cc_active: bool,
    live: R,
    saved: Map<u64, R>,
)
    ensures
        ({
            let e = switch_effects(from, to, kernel_pagetable, cc_active);
            let (l, s) = registers_after_all(e, live, saved);
            &&& s.dom().contains(from.context)
            &&& s[from.context] == live
            &&& forall|c: u64|
                c != from.context ==> s.dom().contains(c) == saved.dom().contains(c) && (
                #[trigger] s[c]) == saved[c]
            &&& to.context != from.context ==> l == saved[to.context]
            &&& to.context == from.context ==> l == live
        }),
{
    let e = switch_effects(from, to, kernel_pagetable, cc_active);
    let n = e.len() as int;
    assert(e.take(0) =~= seq![]);
    assert(e.take(n) =~= e);
    lemma_registers_prefix(e, live, saved, 1);
    lemma_registers_prefix(e, live, saved, 2);
    lemma_registers_prefix(e, live, saved, 3);
    lemma_registers_prefix(e, live, saved, 4);
    lemma_registers_prefix(e, live, saved, 5);
    lemma_registers_prefix(e, live, saved, 6);
    lemma_registers_prefix(e, live, saved, 7);
    if !kernel_pagetable {
        lemma_registers_prefix(e, live, saved, 8);
    }
}

/// A task that is switched away from and back to resumes with the registers it had,
/// whatever the other task did to its own in between; and the other task's are
/// saved then.
pub proof fn switch_back_resumes_with_the_same_registers<R>(
    from: TaskId,
    to: TaskId,
    kernel_pagetable: bool,
    cc_active: bool,
    live: R,
    saved: Map<u64, R>,
    other: R,
)
    requires
        from.context != to.context,
    ensures
        ({
            let there = switch_effects(from, to, kernel_pagetable, cc_active);
            let back = switch_effects(to, from, kernel_pagetable, cc_active);
            let middle = registers_after_all(there, live, saved);
            let end = registers_after_all(back, other, middle.1);
            &&& end.0 == live
            &&& end.1[to.context] == other
        }),
{
    let middle = registers_after_all(
        switch_effects(from, to, kernel_pagetable, cc_active),
        live,
        saved,
    );
    switch_saves_and_loads_registers(from, to, kernel_pagetable, cc_active, live, saved);
    switch_saves_and_loads_registers(to, from, kernel_pagetable, cc_active, other, middle.1);
}

/// A switch makes exactly one register swap, last but for the accounting. It leaves
/// the context of the one task for that of the other. Under confidential computing,
/// and only then, it hands over the wrappers of both.
pub proof fn switch_swaps_the_two_tasks(
    from: TaskId,
    to: TaskId,
    kernel_pagetable: bool,
    cc_active: bool,
)
    ensures
        ({
            let e = switch_effects(from, to, kernel_pagetable, cc_active);
            &&& e.len() >= 2
            &&& !cc_active ==> (e[e.len() - 2] matches Effect::ContextSwap { from: f, to: t } && f
                == from.context && t == to.context)
            &&& cc_active ==> (e[e.len() - 2] matches Effect::ContextSwapCC {
                from: f,
                to: t,
                fromWrapper,
                toWrapper,
            } && f == from.context && t == to.context && fromWrapper == from.wrapper && toWrapper
                == to.wrapper)
            &&& forall|i: int|
                0 <= i < e.len() && i != e.len() - 2 ==> !(#[trigger] e[i] is ContextSwap) && !(
                e[i] is ContextSwapCC)
        }),
{
}

/// Everything that a switch sets up for the task entered, and gives up of the task
/// left, is done once and before the registers are swapped. The page table is
/// switched, before the thread local storage, unless all tasks run on the kernel's.
pub proof fn switch_prepares_before_the_swap(
    from: TaskId,
    to: TaskId,
    kernel_pagetable: bool,
    cc_active: bool,
)
    ensures
        ({
            let e = switch_effects(from, to, kernel_pagetable, cc_active);
            let n = e.len();
            &&& n == if kernel_pagetable {
                7int
            } else {
                8
            }
            &&& e[0] matches Effect::AccountTaskEnter(s) && s is Blocked
            &&& e[1] matches Effect::SetCurrentTask(a) && a == to.addr
            &&& !kernel_pagetable ==> (e[2] matches Effect::SwitchPageTable(t) && t == to.task)
            &&& e[n - 5] matches Effect::SetTLS(t) && t == to.task
            &&& e[n - 4] matches Effect::VcpuLeave(t) && t == from.task
            &&& e[n - 3] matches Effect::VcpuEnter(t) && t == to.task
            &&& e[n - 1] matches Effect::AccountTaskLeave(s) && s is Blocked
        }),
{
}

/// The swap of registers aside, a switch is the same with and without confidential
/// computing; and where all tasks run on the kernel's page table it is the same but
/// for the one step that loads the page table.
pub proof fn switch_differs_only_in_swap_and_page_table(
    from: TaskId,
    to: TaskId,
    kernel_pagetable: bool,
    cc_active: bool,
)
    ensures
        ({
            let e = switch_effects(from, to, kernel_pagetable, cc_active);
            let f = switch_effects(from, to, kernel_pagetable, !cc_active);
            &&& e.len() == f.len()
            &&& forall|i: int| 0 <= i < e.len() && i != e.len() - 2 ==> #[trigger] e[i] == f[i]
        }),
        switch_effects(from, to, true, cc_active) == switch_effects(
            from,
            to,
            false,
            cc_active,
        ).remove(2),
{
    let e = switch_effects(from, to, true, cc_active);
    let f = switch_effects(from, to, false, cc_active);
    assert(e =~= f.remove(2));
}

/// A cloned task's stacks are set to those given and its registers are taken from
/// where they are saved, on either architecture; only the way back to the
/// application differs. Its time is accounted to the application, and stamped,
/// before the processor is in user mode.
pub proof fn child_starts_with_its_stacks_and_registers(
    arch: Arch,
    userSp: u64,
    kernelSp: u64,
    ptRegs: u64,
)
    ensures
        ({
            let e = child_clone_effects(arch, userSp, kernelSp, ptRegs);
            &&& e.len() == 7
            &&& e[0] matches Effect::SetUserStack(sp) && sp == userSp
            &&& e[1] matches Effect::SetKernelStack(sp) && sp == kernelSp
            &&& e[2] matches Effect::AccountTaskEnter(s) && s is RunningApp
            &&& e[3] is StampEnterApp
            &&& e[4] matches Effect::SetMode(m) && m is User
            &&& e[5] is HandleTlbShootdown
            &&& arch is X86_64 ==> (e[6] matches Effect::SyscallRet(regs) && regs == ptRegs)
            &&& arch is Aarch64 ==> (e[6] matches Effect::IRet(regs) && regs == ptRegs)
        }),
{
}

} // verus!
