//! What the kernel definitions ask of the processor, the host and the rest of
//! the kernel.
//!
//! The functions of this crate decide; they do not touch hardware. A function
//! that needs something done names it as an [`Effect`]; one that also needs the
//! answer names a [`Request`] and is called again with the reply.

use vstd::prelude::*;

verus! {

/// The processor architectures the kernel runs on.
#[derive(Debug, Clone, Copy, PartialEq, Eq)]
pub enum Arch {
    X86_64,
    Aarch64,
}

/// The states a task's time is accounted to.
#[derive(Debug, Clone, Copy, PartialEq, Eq)]
pub enum SchedState {
    RunningApp,
    Blocked,
}

/// What a virtual processor is executing.
#[derive(Debug, Clone, Copy, PartialEq, Eq)]
pub enum VcpuMode {
    Kernel,
    User,
}

/// Something to be done whose outcome no decision here depends on.
///
/// Tasks, contexts and stacks are given by their addresses.
#[derive(Debug, Clone, Copy, PartialEq, Eq)]
pub enum Effect {
    /// Signal the event descriptor.
    EventfdWrite(i32),
    /// Give the virtual processor back to the host.
    VcpuYield,
    /// Tell the host that an allocation of this size and alignment failed.
    KernelOOM { size: u64, alignment: u64 },
    /// Check the running task's stack for overflow.
    StackOverflowCheck,
    /// Bring swapped out memory back.
    SwapIn,
    /// Start accounting the current task's time to the state.
    AccountTaskEnter(SchedState),
    /// Stop accounting the current task's time to the state.
    AccountTaskLeave(SchedState),
    /// Record the task as the one this virtual processor runs.
    SetCurrentTask(u64),
    /// Load the page table of the task.
    SwitchPageTable(u64),
    /// Load the thread local storage register of the task.
    SetTLS(u64),
    /// This virtual processor leaves the task's address space.
    VcpuLeave(u64),
    /// This virtual processor enters the task's address space.
    VcpuEnter(u64),
    /// Save the registers in one context and load the other.
    ContextSwap { from: u64, to: u64 },
    /// The same under confidential computing, with the wrappers of the tasks.
    ContextSwapCC { from: u64, to: u64, fromWrapper: u64, toWrapper: u64 },
    /// Set the user stack pointer of this virtual processor.
    SetUserStack(u64),
    /// Set the kernel stack pointer of this virtual processor.
    SetKernelStack(u64),
    /// Read the time stamp counter and store it as the time the application was
    /// entered.
    StampEnterApp,
    /// Set the mode of this virtual processor.
    SetMode(VcpuMode),
    /// Carry out the address space's pending mapping flushes.
    HandleTlbShootdown,
    /// Return to the application by the system call path, registers at the
    /// address.
    SyscallRet(u64),
    /// Return to the application by the exception path, registers at the
    /// address.
    IRet(u64),
    /// Start the root container with the parameter block at the address.
    StartRootContainer(u64),
    /// Start a container's process.
    StartSubContainerProcess { elfEntry: u64, userStackAddr: u64, kernelStackAddr: u64 },
    /// Copy one page.
    CopyPage { to: u64, from: u64 },
    /// Initialise the floating point state at the address.
    InitX86FPState { data: u64, useXsave: bool },
    /// Return the slot of an asynchronous operation.
    FreeSlot(usize),
}

/// Something to be done whose answer is needed.
#[derive(Debug, Clone, Copy, PartialEq, Eq)]
pub enum Request {
    /// The address of the running task.
    TaskAddress,
    /// The number of the running virtual processor.
    VcpuId,
    /// Open the file named at `addr` relative to a directory, for a task.
    OpenAt { task: u64, dirFd: i32, addr: u64, flags: u32 },
    /// The host's time on a clock.
    KernelGetTime(i32),
    /// The frequency of the virtual processor.
    KernelVcpuFreq,
    /// Register a socket with the host.
    NewSocket(i32),
    /// Advise the host on the use of memory.
    Madvise { addr: u64, len: usize, advice: i32 },
    /// Send the message at the address.
    TsotSendMsg(u64),
    /// Receive a message into the address.
    TsotRecvMsg(u64),
}

/// How an operation proceeds: it asks for something, or it returns.
#[derive(Debug, Clone, Copy, PartialEq, Eq)]
pub enum Step<R> {
    Ask(Request),
    Return(R),
}

impl<R> Step<R> {
    /// How an operation proceeds that asks for something and returns the answer
    /// as it is.
    pub open spec fn ask_then_return(request: Request, reply: Option<R>) -> Step<R> {
        match reply {
            None => Step::Ask(request),
            Some(answer) => Step::Return(answer),
        }
    }
}

/// What is asked for is exactly the request, once no answer is there yet; every answer
/// is returned exactly as it came.
pub proof fn answers_are_returned_as_they_came<R>(request: Request, answer: R)
    ensures
        Step::<R>::ask_then_return(request, None) matches Step::Ask(r) && r == request,
        Step::ask_then_return(request, Some(answer)) matches Step::Return(a) && a == answer,
{
}

} // verus!
