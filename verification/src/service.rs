//! Services of the host and of the rest of the kernel.

use crate::effect::{Effect, Request, Step};
use crate::error::Error;
use vstd::prelude::*;

verus! {

/// The host's manager of descriptors; the kernel has none.
#[derive(Debug, Clone, Copy, PartialEq, Eq)]
pub struct IOMgr {}

/// A process to be started, with the descriptor of its console.
#[derive(Debug, Clone, Copy, PartialEq, Eq)]
pub struct ExecProcess<P> {
    pub fd: i32,
    pub process: P,
}

/// Opens the file whose name is at `addr`, for a task.
pub fn OpenAt(
    task: u64,
    dirFd: i32,
    addr: u64,
    flags: u32,
    reply: Option<Result<i32, Error>>,
) -> (r: Step<Result<i32, Error>>)
    ensures
        r == Step::ask_then_return(Request::OpenAt { task, dirFd, addr, flags }, reply),
{
    match reply {
        None => Step::Ask(Request::OpenAt { task, dirFd, addr, flags }),
        Some(answer) => Step::Return(answer),
    }
}

/// Starts the root container with the parameter block at the address.
pub fn StartRootContainer(para: u64) -> (r: Effect)
    ensures
        r == Effect::StartRootContainer(para),
{
    Effect::StartRootContainer(para)
}

/// Starts a process in a container that runs.
pub fn StartExecProcess<P>(fd: i32, process: P) -> (r: ExecProcess<P>)
    ensures
        r == (ExecProcess { fd, process }),
{
    ExecProcess { fd, process }
}

/// Starts the process of a further container.
pub fn StartSubContainerProcess(elfEntry: u64, userStackAddr: u64, kernelStackAddr: u64) -> (r:
    Effect)
    ensures
        r == (Effect::StartSubContainerProcess { elfEntry, userStackAddr, kernelStackAddr }),
{
    Effect::StartSubContainerProcess { elfEntry, userStackAddr, kernelStackAddr }
}

/// The host's time on a clock, which the host must be able to tell.
pub fn ClockGetTime(clockId: i32, reply: Option<Result<i64, Error>>) -> (r: Step<i64>)
    requires
        reply matches Some(answer) ==> answer is Ok,
    ensures
        r == match reply {
            Some(Ok(time)) => Step::Return(time),
            _ => Step::Ask(Request::KernelGetTime(clockId)),
        },
{
    match reply {
        Some(Ok(time)) => Step::Return(time),
        _ => Step::Ask(Request::KernelGetTime(clockId)),
    }
}

/// The frequency of the virtual processor.
pub fn VcpuFreq(reply: Option<i64>) -> (r: Step<i64>)
    ensures
        r == Step::ask_then_return(Request::KernelVcpuFreq, reply),
{
    match reply {
        None => Step::Ask(Request::KernelVcpuFreq),
        Some(freq) => Step::Return(freq),
    }
}

/// Registers a socket with the host, and returns the host's answer.
pub fn NewSocket(fd: i32, reply: Option<i64>) -> (r: Step<i64>)
    ensures
        r == Step::ask_then_return(Request::NewSocket(fd), reply),
{
    match reply {
        None => Step::Ask(Request::NewSocket(fd)),
        Some(ret) => Step::Return(ret),
    }
}

/// Initialises the floating point state at an address.
pub fn InitX86FPState(data: u64, useXsave: bool) -> (r: Effect)
    ensures
        r == (Effect::InitX86FPState { data, useXsave }),
{
    Effect::InitX86FPState { data, useXsave }
}

/// Whether this is the kernel, rather than the host.
pub fn IsKernel() -> (r: bool)
    ensures
        r,
{
    true
}

/// Brings swapped out memory back.
pub fn ReapSwapIn() -> (r: Effect)
    ensures
        r == Effect::SwapIn,
{
    Effect::SwapIn
}

impl IOMgr {
    /// Fails: there is no such manager in the kernel.
    pub fn Init() -> (r: Result<Self, Error>)
        ensures
            r matches Err(Error::Common(msg)) && msg@ == "IOMgr can't init in kernel"@,
    {
        Err(Error::Common("IOMgr can't init in kernel".to_string()))
    }
}

/// Starting a container's process hands on the entry and the two stacks as given.
pub proof fn started_process_gets_its_addresses(
    elfEntry: u64,
    userStackAddr: u64,
    kernelStackAddr: u64,
    r: Effect,
)
    requires
        call_ensures(
            StartSubContainerProcess,
            (elfEntry, userStackAddr, kernelStackAddr),
            r,
        ),
    ensures
        r matches Effect::StartSubContainerProcess {
            elfEntry: e,
            userStackAddr: u,
            kernelStackAddr: k,
        } && e == elfEntry && u == userStackAddr && k == kernelStackAddr,
{
}

/// Starting the root container hands on the address of its parameters as given, and
/// starting a process its console and the process itself.
pub proof fn started_container_gets_its_parameters<P>(
    para: u64,
    root: Effect,
    fd: i32,
    process: P,
    exec: ExecProcess<P>,
)
    requires
        call_ensures(StartRootContainer, (para,), root),
        call_ensures(StartExecProcess::<P>, (fd, process), exec),
    ensures
        root matches Effect::StartRootContainer(p) && p == para,
        exec.fd == fd,
        exec.process == process,
{
}

/// Opening a file asks for exactly the file, directory, flags and task given, and
/// returns exactly the descriptor or the error that comes back.
pub proof fn open_is_for_the_callers_file(
    task: u64,
    dirFd: i32,
    addr: u64,
    flags: u32,
    answer: Result<i32, Error>,
    asked: Step<Result<i32, Error>>,
    returned: Step<Result<i32, Error>>,
)
    requires
        call_ensures(OpenAt, (task, dirFd, addr, flags, None), asked),
        call_ensures(OpenAt, (task, dirFd, addr, flags, Some(answer)), returned),
    ensures
        asked matches Step::Ask(Request::OpenAt { task: t, dirFd: d, addr: a, flags: f }) && t
            == task && d == dirFd && a == addr && f == flags,
        returned matches Step::Return(r) && r == answer,
{
}

/// The time is asked for on exactly the clock given, and is exactly the one told.
pub proof fn time_is_of_the_callers_clock(
    clockId: i32,
    time: i64,
    asked: Step<i64>,
    returned: Step<i64>,
)
    requires
        call_ensures(ClockGetTime, (clockId, None), asked),
        call_ensures(ClockGetTime, (clockId, Some(Ok(time))), returned),
    ensures
        asked matches Step::Ask(Request::KernelGetTime(c)) && c == clockId,
        returned matches Step::Return(t) && t == time,
{
}

/// The frequency is exactly the one told, and a socket is registered for exactly the
/// descriptor given with exactly the host's answer.
pub proof fn host_answers_are_passed_on(
    freq: i64,
    freq_asked: Step<i64>,
    freq_returned: Step<i64>,
    fd: i32,
    ret: i64,
    socket_asked: Step<i64>,
    socket_returned: Step<i64>,
)
    requires
        call_ensures(VcpuFreq, (None,), freq_asked),
        call_ensures(VcpuFreq, (Some(freq),), freq_returned),
        call_ensures(NewSocket, (fd, None), socket_asked),
        call_ensures(NewSocket, (fd, Some(ret)), socket_returned),
    ensures
        freq_asked matches Step::Ask(Request::KernelVcpuFreq),
        freq_returned matches Step::Return(f) && f == freq,
        socket_asked matches Step::Ask(Request::NewSocket(d)) && d == fd,
        socket_returned matches Step::Return(r) && r == ret,
{
}

/// The floating point state is initialised at exactly the address given and in the way
/// asked for.
pub proof fn floating_point_state_is_initialised_in_place(data: u64, useXsave: bool, r: Effect)
    requires
        call_ensures(InitX86FPState, (data, useXsave), r),
    ensures
        r matches Effect::InitX86FPState { data: d, useXsave: x } && d == data && x == useXsave,
{
}

} // verus!
