//! Virtual processors, and what is counted and identified by them.

use crate::effect::{Effect, Request, Step};
use vstd::prelude::*;

verus! {

/// What the kernel keeps for a virtual processor.
#[derive(Debug, Clone, Copy, PartialEq, Eq)]
pub struct CPULocal {
    /// The descriptor the host waits on when the processor is idle.
    pub eventfd: i32,
}

/// What the kernel's time is attributed to.
#[derive(Debug, Clone, Copy, PartialEq, Eq)]
pub enum PerfType {
    Start,
    Kernel,
    User,
    Read,
    Write,
    Open,
    KernelHandling,
    Print,
    Idle,
    PageFault,
    QCall,
    SysCall,
    Blocked,
    HostInputProcess,
    End,
}

/// The performance counters of the kernel.
#[derive(Debug, Clone, Copy, PartialEq, Eq)]
pub struct CounterSet {}

/// A lock and what it guards. The lock is held by a task, identified by
/// [`QMutexIntern::GetID`].
pub struct QMutexIntern<T: ?Sized> {
    pub lock: u64,
    pub data: T,
}

impl CPULocal {
    /// Wakes the virtual processor up.
    pub fn Wakeup(&self) -> (r: Effect)
        ensures
            r == Effect::EventfdWrite(self.eventfd),
    {
        Effect::EventfdWrite(self.eventfd)
    }

    /// The number of the running virtual processor.
    pub fn CpuId(reply: Option<usize>) -> (r: Step<usize>)
        ensures
            r == Step::ask_then_return(Request::VcpuId, reply),
    {
        match reply {
            None => Step::Ask(Request::VcpuId),
            Some(id) => Step::Return(id),
        }
    }
}

/// The number of the running virtual processor.
pub fn VcpuId(reply: Option<usize>) -> (r: Step<usize>)
    ensures
        r == Step::ask_then_return(Request::VcpuId, reply),
{
    CPULocal::CpuId(reply)
}

impl CounterSet {
    /// The number of counter sets.
    pub const PERM_COUNTER_SET_SIZE: usize = 8;

    /// The counter set of the running virtual processor.
    pub fn GetPerfId(&self, reply: Option<usize>) -> (r: Step<usize>)
        ensures
            r == Step::ask_then_return(Request::VcpuId, reply),
    {
        CPULocal::CpuId(reply)
    }

    /// The heading under which the kernel's counters are printed.
    pub fn PerfType(&self) -> (r: &'static str)
        ensures
            r@ == "PerfPrint::Kernel"@,
    {
        "PerfPrint::Kernel"
    }
}

impl<T: ?Sized> QMutexIntern<T> {
    /// What identifies the holder of a lock: the running task.
    pub fn GetID(reply: Option<u64>) -> (r: Step<u64>)
        ensures
            r == Step::ask_then_return(Request::TaskAddress, reply),
    {
        match reply {
            None => Step::Ask(Request::TaskAddress),
            Some(id) => Step::Return(id),
        }
    }
}

/// Waking a virtual processor signals exactly its own descriptor, so that of two with
/// different descriptors only the one meant is woken.
pub proof fn wakeup_is_for_the_vcpu(a: CPULocal, b: CPULocal, ra: Effect, rb: Effect)
    requires
        call_ensures(CPULocal::Wakeup, (&a,), ra),
        call_ensures(CPULocal::Wakeup, (&b,), rb),
    ensures
        ra matches Effect::EventfdWrite(fd) && fd == a.eventfd,
        ra == rb <==> a.eventfd == b.eventfd,
{
}

/// The number of the running virtual processor is exactly the one told, however it is
/// asked for.
pub proof fn vcpu_numbers_agree(
    counters: CounterSet,
    reply: Option<usize>,
    a: Step<usize>,
    b: Step<usize>,
    c: Step<usize>,
)
    requires
        call_ensures(CPULocal::CpuId, (reply,), a),
        call_ensures(VcpuId, (reply,), b),
        call_ensures(CounterSet::GetPerfId, (&counters, reply), c),
    ensures
        a == b,
        b == c,
        reply is None ==> (a matches Step::Ask(request) && request is VcpuId),
        reply matches Some(id) ==> (a matches Step::Return(n) && n == id),
{
}

/// A lock's holder is exactly the running task, so different tasks are different
/// holders, whatever the lock guards.
pub proof fn holders_are_tasks<T, U>(a: u64, b: u64, ra: Step<u64>, rb: Step<u64>, q: Step<u64>)
    requires
        call_ensures(QMutexIntern::<T>::GetID, (Some(a),), ra),
        call_ensures(QMutexIntern::<U>::GetID, (Some(b),), rb),
        call_ensures(QMutexIntern::<T>::GetID, (None,), q),
    ensures
        q matches Step::Ask(request) && request is TaskAddress,
        ra matches Step::Return(id) && id == a,
        ra == rb <==> a == b,
{
}

} // verus!
