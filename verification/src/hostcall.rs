//! The conversations with the host.
//!
//! Each is a function from the last event to the next action: the caller
//! performs the action and comes back with what happened. What the host is to
//! read under confidential computing is put in memory shared with it; otherwise
//! the host sees all of the guest's memory, and the stack will do.

use crate::cpu::CPULocal;
use crate::effect::Effect;
use crate::hypercall::{HypercallDef, SharePara};
use crate::qcall::{Close, HostOutputMsg, Msg, QMsg};
use vstd::prelude::*;

verus! {

/// Where a message is put.
#[derive(Debug, Clone, Copy, PartialEq, Eq)]
pub enum Placement {
    Stack,
    GuestHostShared,
}

/// The scheduler's part of the share space.
#[derive(Debug, Clone, PartialEq, Eq)]
pub struct Scheduler {
    pub VcpuArr: Vec<CPULocal>,
}

/// The memory that the kernel and the host share.
#[derive(Debug, Clone, PartialEq, Eq)]
pub struct ShareSpace {
    pub scheduler: Scheduler,
}

/// The host, as the kernel sees it.
#[derive(Debug, Clone, Copy, PartialEq, Eq)]
pub struct HostSpace {}

/// What happened last while a message is posted.
#[derive(Debug, Clone, Copy, PartialEq, Eq)]
pub enum AQEvent {
    Begin,
    /// The queue took the message, or had no room for it.
    Pushed(bool),
    /// The number of host threads that process the queue.
    HostProcessor(u64),
}

/// What to do next while a message is posted.
#[derive(Debug, Clone, Copy, PartialEq, Eq)]
pub enum AQAction<'a, M> {
    /// Push the message on the queue.
    Push(&'a M),
    /// Read how many host threads process the queue.
    ReadHostProcessor,
    /// Perform the effect; then the message is posted.
    Finish(Effect),
    /// The message is posted.
    Done,
}

/// What happened last during a call through the queue.
#[derive(Debug, Clone, Copy, PartialEq, Eq)]
pub enum CallEvent {
    /// The task wants the message at the address served.
    Begin { taskId: u64, msg: u64 },
    /// The envelope lies at the address.
    Placed(u64),
    Posted,
    /// The task runs again; the envelope holds the answer.
    Resumed(u64),
}

/// What to do next during a call through the queue.
#[derive(Debug, Clone, Copy, PartialEq, Eq)]
pub enum CallAction {
    /// Put the envelope in memory.
    Place { placement: Placement, msg: QMsg },
    /// Put the queue entry in memory and post it, as [`ShareSpace::AQCall`] says.
    Post { placement: Placement, msg: HostOutputMsg },
    /// Suspend the task until the host has served the call.
    Wait,
    Return(u64),
}

/// What happened last during a call by hypercall.
#[derive(Debug, Clone, Copy, PartialEq, Eq)]
pub enum HCallEvent {
    /// The task wants the message at the address served.
    Begin { taskId: u64, msg: u64, lock: bool },
    /// The envelope lies at the address.
    Placed(u64),
    /// The hypercall is over; the envelope holds the answer.
    Answered(u64),
}

/// What to do next during a call by hypercall.
#[derive(Debug, Clone, Copy, PartialEq, Eq)]
pub enum HCallAction {
    /// Put the envelope in memory.
    Place { placement: Placement, msg: QMsg },
    /// Make the hypercall.
    HyperCall64 { type_: u16, para: SharePara },
    Return(u64),
}

/// What happened last while a descriptor is closed.
#[derive(Debug, Clone, Copy, PartialEq, Eq)]
pub enum CloseEvent {
    Begin { fd: i32 },
    /// The message lies at the address.
    Placed(u64),
    /// What the call by hypercall returned.
    Answered(u64),
}

/// What to do next while a descriptor is closed.
#[derive(Debug, Clone, Copy, PartialEq, Eq)]
pub enum CloseAction {
    /// Put the message in memory.
    Place { placement: Placement, msg: Msg },
    /// Make the call that [`HostSpace::HCall`] describes.
    HCall { msg: u64, lock: bool },
    Return(i64),
}

/// Where what the host reads is put.
pub open spec fn placement(cc_active: bool) -> Placement {
    if cc_active {
        Placement::GuestHostShared
    } else {
        Placement::Stack
    }
}

/// The signed number with the same 64 bits.
pub open spec fn signed(n: u64) -> int {
    if n <= i64::MAX {
        n as int
    } else {
        n - 0x1_0000_0000_0000_0000
    }
}

fn place(cc_active: bool) -> (r: Placement)
    ensures
        r == placement(cc_active),
{
    if cc_active {
        Placement::GuestHostShared
    } else {
        Placement::Stack
    }
}

impl ShareSpace {
    /// The next action while `msg` is posted: push it until the queue takes it,
    /// and wake the first virtual processor if the host processes no queue.
    pub open spec fn aq_action<'a, M>(self, msg: &'a M, event: AQEvent) -> AQAction<'a, M> {
        match event {
            AQEvent::Begin => AQAction::Push(msg),
            AQEvent::Pushed(taken) => if taken {
                AQAction::ReadHostProcessor
            } else {
                AQAction::Push(msg)
            },
            AQEvent::HostProcessor(n) => if n == 0 {
                AQAction::Finish(Effect::EventfdWrite(self.scheduler.VcpuArr@[0].eventfd))
            } else {
                AQAction::Done
            },
        }
    }

    /// Posts a message to the host.
    pub fn AQCall<'a, M>(&self, msg: &'a M, event: AQEvent) -> (r: AQAction<'a, M>)
        requires
            event == AQEvent::HostProcessor(0) ==> self.scheduler.VcpuArr@.len() > 0,
        ensures
            r == self.aq_action(msg, event),
    {
        match event {
            AQEvent::Begin => AQAction::Push(msg),
            AQEvent::Pushed(taken) => {
                if taken {
                    AQAction::ReadHostProcessor
                } else {
                    AQAction::Push(msg)
                }
            },
            AQEvent::HostProcessor(n) => {
                if n == 0 {
                    AQAction::Finish(self.scheduler.VcpuArr[0].Wakeup())
                } else {
                    AQAction::Done
                }
            },
        }
    }

    /// Gives the virtual processor back to the host.
    pub fn Yield() -> (r: Effect)
        ensures
            r == Effect::VcpuYield,
    {
        Effect::VcpuYield
    }
}

/// The next action of a call through the queue.
pub open spec fn call_action(cc_active: bool, event: CallEvent) -> CallAction {
    match event {
        CallEvent::Begin { taskId, msg } => CallAction::Place {
            placement: placement(cc_active),
            msg: QMsg { taskId, globalLock: true, ret: 0, msg },
        },
        CallEvent::Placed(addr) => CallAction::Post {
            placement: placement(cc_active),
            msg: HostOutputMsg::QCall(addr),
        },
        CallEvent::Posted => CallAction::Wait,
        CallEvent::Resumed(ret) => CallAction::Return(ret),
    }
}

/// The next action of a call by hypercall.
pub open spec fn hcall_action(def: HypercallDef, cc_active: bool, event: HCallEvent) -> HCallAction {
    match event {
        HCallEvent::Begin { taskId, msg, lock } => HCallAction::Place {
            placement: placement(cc_active),
            msg: QMsg { taskId, globalLock: lock, ret: 0, msg },
        },
        HCallEvent::Placed(addr) => HCallAction::HyperCall64 {
            type_: def.HYPERCALL_HCALL,
            para: SharePara { para1: addr, para2: 0, para3: 0, para4: 0 },
        },
        HCallEvent::Answered(ret) => HCallAction::Return(ret),
    }
}

/// The next action while a descriptor is closed.
pub open spec fn close_action(cc_active: bool, event: CloseEvent) -> CloseAction {
    match event {
        CloseEvent::Begin { fd } => CloseAction::Place {
            placement: placement(cc_active),
            msg: Msg::Close(Close { fd }),
        },
        CloseEvent::Placed(addr) => CloseAction::HCall { msg: addr, lock: false },
        CloseEvent::Answered(ret) => CloseAction::Return(signed(ret) as i64),
    }
}

impl HostSpace {
    /// Closes a descriptor of the host, and returns what the host answers.
    pub fn Close(cc_active: bool, event: CloseEvent) -> (r: CloseAction)
        ensures
            r == close_action(cc_active, event),
    {
        match event {
            CloseEvent::Begin { fd } => CloseAction::Place {
                placement: place(cc_active),
                msg: Msg::Close(Close { fd }),
            },
            CloseEvent::Placed(addr) => CloseAction::HCall { msg: addr, lock: false },
            CloseEvent::Answered(ret) => {
                assert(ret as i64 == if ret <= 0x7fff_ffff_ffff_ffff {
                    ret as int
                } else {
                    ret - 0x1_0000_0000_0000_0000
                }) by (bit_vector);
                CloseAction::Return(ret as i64)
            },
        }
    }

    /// Has a message served through the host's queue while the task sleeps, and
    /// returns the host's answer. Whether the call may be served synchronously
    /// makes no difference.
    pub fn Call(cc_active: bool, event: CallEvent, _mustAsync: bool) -> (r: CallAction)
        ensures
            r == call_action(cc_active, event),
    {
        match event {
            CallEvent::Begin { taskId, msg } => CallAction::Place {
                placement: place(cc_active),
                msg: QMsg { taskId, globalLock: true, ret: 0, msg },
            },
            CallEvent::Placed(addr) => CallAction::Post {
                placement: place(cc_active),
                msg: HostOutputMsg::QCall(addr),
            },
            CallEvent::Posted => CallAction::Wait,
            CallEvent::Resumed(ret) => CallAction::Return(ret),
        }
    }

    /// Has a message served by a hypercall, and returns the host's answer.
    pub fn HCall(def: &HypercallDef, cc_active: bool, event: HCallEvent) -> (r: HCallAction)
        ensures
            r == hcall_action(*def, cc_active, event),
    {
        match event {
            HCallEvent::Begin { taskId, msg, lock } => HCallAction::Place {
                placement: place(cc_active),
                msg: QMsg { taskId, globalLock: lock, ret: 0, msg },
            },
            HCallEvent::Placed(addr) => HCallAction::HyperCall64 {
                type_: def.HYPERCALL_HCALL,
                para: SharePara { para1: addr, para2: 0, para3: 0, para4: 0 },
            },
            HCallEvent::Answered(ret) => HCallAction::Return(ret),
        }
    }
}

/// The event can come of the action.
pub open spec fn aq_follows<M>(action: AQAction<M>, event: AQEvent) -> bool {
    match action {
        AQAction::Push(_) => event is Pushed,
        AQAction::ReadHostProcessor => event is HostProcessor,
        AQAction::Finish(_) => false,
        AQAction::Done => false,
    }
}

/// The event at `i` comes of the action that the one before called for.
pub open spec fn aq_step<M>(space: ShareSpace, msg: M, events: Seq<AQEvent>, i: int) -> bool {
    aq_follows(space.aq_action(&msg, events[i - 1]), events[i])
}

/// The events of posting a message, up to some point: it begins, and then each
/// event comes of the action that the one before called for.
pub open spec fn aq_run<M>(space: ShareSpace, msg: M, events: Seq<AQEvent>) -> bool {
    &&& events.len() > 0
    &&& events[0] is Begin
    &&& forall|i: int| 0 < i < events.len() ==> #[trigger] aq_step(space, msg, events, i)
}

/// The event can come of the action.
pub open spec fn call_follows(action: CallAction, event: CallEvent) -> bool {
    match action {
        CallAction::Place { .. } => event is Placed,
        CallAction::Post { .. } => event is Posted,
        CallAction::Wait => event is Resumed,
        CallAction::Return(_) => false,
    }
}

/// The event at `i` comes of the action that the one before called for.
pub open spec fn call_step(cc_active: bool, events: Seq<CallEvent>, i: int) -> bool {
    call_follows(call_action(cc_active, events[i - 1]), events[i])
}

/// The events of a call through the queue, up to some point.
pub open spec fn call_run(cc_active: bool, events: Seq<CallEvent>) -> bool {
    &&& events.len() > 0
    &&& events[0] is Begin
    &&& forall|i: int| 0 < i < events.len() ==> #[trigger] call_step(cc_active, events, i)
}

/// The event can come of the action.
pub open spec fn hcall_follows(action: HCallAction, event: HCallEvent) -> bool {
    match action {
        HCallAction::Place { .. } => event is Placed,
        HCallAction::HyperCall64 { .. } => event is Answered,
        HCallAction::Return(_) => false,
    }
}

/// The event at `i` comes of the action that the one before called for.
pub open spec fn hcall_step(def: HypercallDef, cc_active: bool, events: Seq<HCallEvent>, i: int) -> bool {
    hcall_follows(hcall_action(def, cc_active, events[i - 1]), events[i])
}

/// The events of a call by hypercall, up to some point.
pub open spec fn hcall_run(def: HypercallDef, cc_active: bool, events: Seq<HCallEvent>) -> bool {
    &&& events.len() > 0
    &&& events[0] is Begin
    &&& forall|i: int| 0 < i < events.len() ==> #[trigger] hcall_step(def, cc_active, events, i)
}

/// The event can come of the action.
pub open spec fn close_follows(action: CloseAction, event: CloseEvent) -> bool {
    match action {
        CloseAction::Place { .. } => event is Placed,
        CloseAction::HCall { .. } => event is Answered,
        CloseAction::Return(_) => false,
    }
}

/// The event at `i` comes of the action that the one before called for.
pub open spec fn close_step(cc_active: bool, events: Seq<CloseEvent>, i: int) -> bool {
    close_follows(close_action(cc_active, events[i - 1]), events[i])
}

/// The events of closing a descriptor, up to some point.
pub open spec fn close_run(cc_active: bool, events: Seq<CloseEvent>) -> bool {
    &&& events.len() > 0
    &&& events[0] is Begin
    &&& forall|i: int| 0 < i < events.len() ==> #[trigger] close_step(cc_active, events, i)
}

/// Posting pushes the message as long as the queue has not taken it, and never
/// again after that.
pub proof fn message_is_pushed_until_taken<M>(
    space: ShareSpace,
    msg: M,
    events: Seq<AQEvent>,
    i: int,
)
    requires
        aq_run(space, msg, events),
        0 <= i < events.len(),
    ensures
        space.aq_action(&msg, events[i]) == AQAction::Push(&msg) <==> (forall|j: int|
            0 <= j <= i ==> events[j] != AQEvent::Pushed(true)),
    decreases i,
{
    if i > 0 {
        message_is_pushed_until_taken(space, msg, events, i - 1);
        assert(aq_step(space, msg, events, i));
        assert(i > 1 ==> aq_step(space, msg, events, i - 1));
    }
}

/// When posting ends, the queue has taken the message exactly once, in the push
/// before the end; every earlier push was refused. The first virtual processor is
/// woken if and only if no host thread was processing the queue after the push.
pub proof fn message_is_posted_once<M>(space: ShareSpace, msg: M, events: Seq<AQEvent>)
    requires
        aq_run(space, msg, events),
        !(space.aq_action(&msg, events.last()) is Push),
        !(space.aq_action(&msg, events.last()) is ReadHostProcessor),
    ensures
        events.len() >= 3,
        events[events.len() - 2] == AQEvent::Pushed(true),
        forall|i: int| 0 < i < events.len() - 2 ==> events[i] == AQEvent::Pushed(false),
        events.last() matches AQEvent::HostProcessor(n) && space.aq_action(&msg, events.last())
            == if n == 0 {
            AQAction::<M>::Finish(Effect::EventfdWrite(space.scheduler.VcpuArr@[0].eventfd))
        } else {
            AQAction::<M>::Done
        },
{
    let n = events.len() as int;
    assert(n > 1 ==> aq_step(space, msg, events, n - 1));
    assert(n > 2 ==> aq_step(space, msg, events, n - 2));
    assert forall|i: int| 0 < i < n - 2 implies events[i] == AQEvent::Pushed(false) by {
        assert(aq_step(space, msg, events, i));
        assert(aq_step(space, msg, events, i + 1));
        assert(aq_step(space, msg, events, i + 2));
    }
}

/// A call through the queue ends after one exchange. It posts the envelope where
/// the envelope was put, waits only once that is posted, and returns the answer
/// found in the envelope on waking.
pub proof fn queued_call_returns_the_answer(cc_active: bool, events: Seq<CallEvent>)
    requires
        call_run(cc_active, events),
    ensures
        events.len() <= 4,
        events.len() > 1 ==> (events[1] matches CallEvent::Placed(addr) && call_action(
            cc_active,
            events[1],
        ) == (CallAction::Post {
            placement: placement(cc_active),
            msg: HostOutputMsg::QCall(addr),
        })),
        forall|i: int| 0 <= i < events.len() ==> (call_action(
            cc_active,
            #[trigger] events[i],
        ) is Place <==> i == 0),
        forall|i: int| 0 <= i < events.len() ==> (call_action(
            cc_active,
            #[trigger] events[i],
        ) is Post <==> i == 1),
        forall|i: int| 0 <= i < events.len() ==> (call_action(cc_active, #[trigger] events[i])
            == CallAction::Wait <==> i == 2),
        forall|i: int| 0 <= i < events.len() ==> (call_action(
            cc_active,
            #[trigger] events[i],
        ) is Return <==> i == 3),
        events.len() == 4 ==> (events[3] matches CallEvent::Resumed(ret) && call_action(
            cc_active,
            events[3],
        ) == CallAction::Return(ret)),
{
    if events.len() > 1 {
        assert(call_step(cc_active, events, 1));
    }
    if events.len() > 2 {
        assert(call_step(cc_active, events, 2));
    }
    if events.len() > 3 {
        assert(call_step(cc_active, events, 3));
    }
    if events.len() > 4 {
        assert(call_step(cc_active, events, 4));
    }
}

/// A call by hypercall ends after one exchange: one hypercall that hands over the
/// address of the envelope, and the answer found in the envelope after it.
pub proof fn hypercall_returns_the_answer(
    def: HypercallDef,
    cc_active: bool,
    events: Seq<HCallEvent>,
)
    requires
        hcall_run(def, cc_active, events),
    ensures
        events.len() <= 3,
        events.len() > 1 ==> (events[1] matches HCallEvent::Placed(addr) && hcall_action(
            def,
            cc_active,
            events[1],
        ) == (HCallAction::HyperCall64 {
            type_: def.HYPERCALL_HCALL,
            para: SharePara { para1: addr, para2: 0, para3: 0, para4: 0 },
        })),
        forall|i: int| 0 <= i < events.len() ==> (hcall_action(
            def,
            cc_active,
            #[trigger] events[i],
        ) is Place <==> i == 0),
        forall|i: int| 0 <= i < events.len() ==> (hcall_action(
            def,
            cc_active,
            #[trigger] events[i],
        ) is HyperCall64 <==> i == 1),
        forall|i: int| 0 <= i < events.len() ==> (hcall_action(
            def,
            cc_active,
            #[trigger] events[i],
        ) is Return <==> i == 2),
        events.len() == 3 ==> (events[2] matches HCallEvent::Answered(ret) && hcall_action(
            def,
            cc_active,
            events[2],
        ) == HCallAction::Return(ret)),
{
    if events.len() > 1 {
        assert(hcall_step(def, cc_active, events, 1));
    }
    if events.len() > 2 {
        assert(hcall_step(def, cc_active, events, 2));
    }
    if events.len() > 3 {
        assert(hcall_step(def, cc_active, events, 3));
    }
}

/// Closing a descriptor makes one call, for the message at the address where it
/// was put, outside the host's global lock, and returns its answer as a signed
/// number.
pub proof fn close_returns_the_answer(cc_active: bool, events: Seq<CloseEvent>)
    requires
        close_run(cc_active, events),
    ensures
        events.len() <= 3,
        events.len() > 1 ==> (events[1] matches CloseEvent::Placed(addr) && close_action(
            cc_active,
            events[1],
        ) == (CloseAction::HCall { msg: addr, lock: false })),
        forall|i: int| 0 <= i < events.len() ==> (close_action(
            cc_active,
            #[trigger] events[i],
        ) is Place <==> i == 0),
        forall|i: int| 0 <= i < events.len() ==> (close_action(
            cc_active,
            #[trigger] events[i],
        ) is HCall <==> i == 1),
        forall|i: int| 0 <= i < events.len() ==> (close_action(
            cc_active,
            #[trigger] events[i],
        ) is Return <==> i == 2),
        events.len() == 3 ==> (events[2] matches CloseEvent::Answered(ret) && close_action(
            cc_active,
            events[2],
        ) matches CloseAction::Return(r) && r == signed(ret)),
{
    if events.len() > 1 {
        assert(close_step(cc_active, events, 1));
    }
    if events.len() > 2 {
        assert(close_step(cc_active, events, 2));
    }
    if events.len() > 3 {
        assert(close_step(cc_active, events, 3));
    }
}

/// Under confidential computing, and only then, all that the host is to read is
/// put in memory shared with it.
pub proof fn host_reads_shared_memory(
    def: HypercallDef,
    cc_active: bool,
    call: CallEvent,
    hcall: HCallEvent,
    close: CloseEvent,
)
    ensures
        call_action(cc_active, call) matches CallAction::Place { placement, .. } ==> (placement
            == Placement::GuestHostShared <==> cc_active),
        call_action(cc_active, call) matches CallAction::Post { placement, .. } ==> (placement
            == Placement::GuestHostShared <==> cc_active),
        hcall_action(def, cc_active, hcall) matches HCallAction::Place { placement, .. } ==> (
        placement == Placement::GuestHostShared <==> cc_active),
        close_action(cc_active, close) matches CloseAction::Place { placement, .. } ==> (placement
            == Placement::GuestHostShared <==> cc_active),
{
}

/// A call by hypercall reaches the host: of the trap made for it the host reads
/// the number of such calls and the address of the envelope, in either mode.
pub proof fn host_gets_the_envelope(
    arch: crate::effect::Arch,
    map: crate::memory::MemoryDef,
    def: HypercallDef,
    cc_active: bool,
    vcpu: Option<usize>,
    page: Seq<SharePara>,
    addr: u64,
)
    requires
        cc_active ==> crate::hypercall::para_slot(def, def.HYPERCALL_HCALL, vcpu) < page.len(),
        arch is Aarch64 ==> map.HYPERCALL_MMIO_BASE + def.HYPERCALL_HCALL <= u64::MAX,
    ensures
        hcall_action(def, cc_active, HCallEvent::Placed(addr)) matches HCallAction::HyperCall64 {
            type_,
            para,
        } && {
            let trap = crate::hypercall::hypercall_trap(arch, map, cc_active, type_, para);
            let after = crate::hypercall::hypercall_page(def, cc_active, vcpu, page, type_, para);
            let slot = crate::hypercall::para_slot(def, type_, vcpu);
            &&& crate::hypercall::trap_type(trap, map) == def.HYPERCALL_HCALL
            &&& crate::hypercall::delivered(trap, after, slot).para1 == addr
        },
{
}

/// The envelope of a call through the queue names exactly the calling task and the
/// message it wants served, asks for the global lock and holds no answer yet. The
/// entry posted names exactly the place of the envelope. What is returned is exactly
/// the answer.
pub proof fn queued_call_is_for_the_callers_message(
    cc_active: bool,
    taskId: u64,
    msg: u64,
    addr: u64,
    ret: u64,
)
    ensures
        call_action(cc_active, CallEvent::Begin { taskId, msg }) matches CallAction::Place {
            placement,
            msg: envelope,
        } && {
            &&& envelope.taskId == taskId
            &&& envelope.msg == msg
            &&& envelope.globalLock
            &&& envelope.ret == 0
            &&& placement is GuestHostShared <==> cc_active
        },
        call_action(cc_active, CallEvent::Placed(addr)) matches CallAction::Post {
            placement,
            msg: HostOutputMsg::QCall(posted),
        } && {
            &&& posted == addr
            &&& placement is GuestHostShared <==> cc_active
        },
        call_action(cc_active, CallEvent::Posted) is Wait,
        call_action(cc_active, CallEvent::Resumed(ret)) matches CallAction::Return(r) && r == ret,
{
}

/// The envelope of a call by hypercall names exactly the calling task and the message
/// it wants served, asks for the global lock exactly if the caller does, and holds no
/// answer yet. The hypercall is the one for messages; its first parameter is exactly
/// the place of the envelope, and the others are zero. What is returned is exactly the
/// answer.
pub proof fn hypercall_is_for_the_callers_message(
    def: HypercallDef,
    cc_active: bool,
    taskId: u64,
    msg: u64,
    lock: bool,
    addr: u64,
    ret: u64,
)
    ensures
        hcall_action(def, cc_active, HCallEvent::Begin { taskId, msg, lock }) matches HCallAction::Place {
            placement,
            msg: envelope,
        } && {
            &&& envelope.taskId == taskId
            &&& envelope.msg == msg
            &&& envelope.globalLock == lock
            &&& envelope.ret == 0
            &&& placement is GuestHostShared <==> cc_active
        },
        hcall_action(def, cc_active, HCallEvent::Placed(addr)) matches HCallAction::HyperCall64 {
            type_,
            para,
        } && {
            &&& type_ == def.HYPERCALL_HCALL
            &&& para.para1 == addr
            &&& para.para2 == 0
            &&& para.para3 == 0
            &&& para.para4 == 0
        },
        hcall_action(def, cc_active, HCallEvent::Answered(ret)) matches HCallAction::Return(r) && r
            == ret,
{
}

/// The message that closes a descriptor names exactly that descriptor. The call is for
/// exactly the place of the message, without the global lock. The number returned has
/// the same 64 bits as the answer.
pub proof fn close_is_for_the_callers_descriptor(cc_active: bool, fd: i32, addr: u64, ret: u64)
    ensures
        close_action(cc_active, CloseEvent::Begin { fd }) matches CloseAction::Place {
            placement,
            msg: Msg::Close(close),
        } && {
            &&& close.fd == fd
            &&& placement is GuestHostShared <==> cc_active
        },
        close_action(cc_active, CloseEvent::Placed(addr)) matches CloseAction::HCall { msg, lock }
            && msg == addr && !lock,
        close_action(cc_active, CloseEvent::Answered(ret)) matches CloseAction::Return(r) && (r
            == ret || r == ret - 0x1_0000_0000_0000_0000),
{
}

/// Different answers of the host to the closing of a descriptor are different results,
/// and an answer is negative exactly if its highest bit is set.
pub proof fn close_tells_answers_apart(cc_active: bool, a: u64, b: u64)
    ensures
        close_action(cc_active, CloseEvent::Answered(a)) == close_action(
            cc_active,
            CloseEvent::Answered(b),
        ) <==> a == b,
        close_action(cc_active, CloseEvent::Answered(a)) matches CloseAction::Return(r) && (r < 0
            <==> a >= 0x8000_0000_0000_0000),
{
}

/// While a message is posted, it is pushed, and no other, at the beginning and whenever
/// the queue had no room; the host's threads are counted once it was taken. With none
/// of them the first virtual processor is woken, and with any number of them nothing
/// more is done.
pub proof fn posting_reacts_to_each_event<M>(space: ShareSpace, msg: M, n: u64)
    ensures
        space.aq_action(&msg, AQEvent::Begin) matches AQAction::Push(m) && *m == msg,
        space.aq_action(&msg, AQEvent::Pushed(false)) matches AQAction::Push(m) && *m == msg,
        space.aq_action(&msg, AQEvent::Pushed(true)) is ReadHostProcessor,
        n > 0 ==> space.aq_action(&msg, AQEvent::HostProcessor(n)) is Done,
        space.aq_action(&msg, AQEvent::HostProcessor(0)) matches AQAction::Finish(
            Effect::EventfdWrite(fd),
        ) && fd == space.scheduler.VcpuArr@[0].eventfd,
{
}

} // verus!
