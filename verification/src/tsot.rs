//! The messages exchanged with the host's socket service.

use crate::effect::{Request, Step};
use crate::error::{Error, SysErr};
use crate::hostcall::Placement;
use vstd::prelude::*;

verus! {

/// The kernel's end of the socket service.
#[derive(Debug, Clone, Copy, PartialEq, Eq)]
pub struct TsotSocketMgr {}

/// What happened last while a message is received.
#[derive(Debug, PartialEq, Eq)]
pub enum RecvEvent<M> {
    /// A message is wanted; `empty` is the default one.
    Begin { empty: M },
    /// The empty message lies at the address.
    Placed(u64),
    /// The service's result, and the message as it is now.
    Received { res: i64, msg: M },
}

/// What to do next while a message is received.
#[derive(Debug, PartialEq, Eq)]
pub enum RecvAction<M> {
    /// Put the message in memory.
    Place { placement: Placement, msg: M },
    /// Receive into the message.
    Ask(Request),
    Return(Result<M, Error>),
}

/// The outcome of an exchange with the service: what it yields if the service
/// reports zero, and an invalid argument otherwise.
pub open spec fn outcome<T>(res: i64, value: T) -> Result<T, Error> {
    if res == 0 {
        Ok(value)
    } else {
        Err(Error::SysError(SysErr::EINVAL))
    }
}

/// The next action while a message is received.
pub open spec fn recv_action<M>(event: RecvEvent<M>) -> RecvAction<M> {
    match event {
        RecvEvent::Begin { empty } => RecvAction::Place {
            placement: Placement::GuestHostShared,
            msg: empty,
        },
        RecvEvent::Placed(addr) => RecvAction::Ask(Request::TsotRecvMsg(addr)),
        RecvEvent::Received { res, msg } => RecvAction::Return(outcome(res, msg)),
    }
}

/// The event can come of the action.
pub open spec fn recv_follows<M>(action: RecvAction<M>, event: RecvEvent<M>) -> bool {
    match action {
        RecvAction::Place { .. } => event is Placed,
        RecvAction::Ask(_) => event is Received,
        RecvAction::Return(_) => false,
    }
}

/// The event at `i` comes of the action that the one before called for.
pub open spec fn recv_step<M>(events: Seq<RecvEvent<M>>, i: int) -> bool {
    recv_follows(recv_action(events[i - 1]), events[i])
}

/// The events of receiving a message, up to some point.
pub open spec fn recv_run<M>(events: Seq<RecvEvent<M>>) -> bool {
    &&& events.len() > 0
    &&& events[0] is Begin
    &&& forall|i: int| 0 < i < events.len() ==> #[trigger] recv_step(events, i)
}

impl TsotSocketMgr {
    /// Sends the message at an address.
    pub fn SendMsg(m: u64, reply: Option<i64>) -> (r: Step<Result<(), Error>>)
        ensures
            r == match reply {
                None => Step::Ask(Request::TsotSendMsg(m)),
                Some(res) => Step::Return(outcome(res, ())),
            },
    {
        match reply {
            None => Step::Ask(Request::TsotSendMsg(m)),
            Some(res) => {
                if res == 0 {
                    return Step::Return(Ok(()));
                }
                Step::Return(Err(Error::SysError(SysErr::EINVAL)))
            },
        }
    }

    /// Receives a message. It is received into memory shared with the host, in
    /// every mode.
    pub fn RecvMsg<M>(event: RecvEvent<M>) -> (r: RecvAction<M>)
        ensures
            r == recv_action(event),
    {
        match event {
            RecvEvent::Begin { empty } => RecvAction::Place {
                placement: Placement::GuestHostShared,
                msg: empty,
            },
            RecvEvent::Placed(addr) => RecvAction::Ask(Request::TsotRecvMsg(addr)),
            RecvEvent::Received { res, msg } => {
                if res == 0 {
                    return RecvAction::Return(Ok(msg));
                }
                RecvAction::Return(Err(Error::SysError(SysErr::EINVAL)))
            },
        }
    }
}

/// Receiving puts the default message in shared memory, asks the service once, for
/// a message into the address where it lies, and returns what is there then if and
/// only if the service reports zero.
pub proof fn message_is_received_once<M>(events: Seq<RecvEvent<M>>)
    requires
        recv_run(events),
    ensures
        events.len() <= 3,
        events[0] matches RecvEvent::Begin { empty } && recv_action(events[0]) == (
        RecvAction::Place { placement: Placement::GuestHostShared, msg: empty }),
        events.len() > 1 ==> (events[1] matches RecvEvent::Placed(addr) && recv_action(events[1])
            == RecvAction::<M>::Ask(Request::TsotRecvMsg(addr))),
        forall|i: int| 0 <= i < events.len() ==> (recv_action(#[trigger] events[i]) is Place <==> i
            == 0),
        forall|i: int| 0 <= i < events.len() ==> (recv_action(#[trigger] events[i]) is Ask <==> i
            == 1),
        forall|i: int| 0 <= i < events.len() ==> (recv_action(#[trigger] events[i]) is Return <==> i
            == 2),
        events.len() == 3 ==> (events[2] matches RecvEvent::Received { res, msg }
            && recv_action(events[2]) matches RecvAction::Return(r) && (r == Ok::<M, Error>(msg)
            <==> res == 0) && (r == Err::<M, Error>(Error::SysError(SysErr::EINVAL)) <==> res
            != 0)),
{
    if events.len() > 1 {
        assert(recv_step(events, 1));
    }
    if events.len() > 2 {
        assert(recv_step(events, 2));
    }
    if events.len() > 3 {
        assert(recv_step(events, 3));
    }
}

/// An exchange succeeds exactly if the service reports zero, with exactly the value it
/// yields. Every other report, negative or positive, is an invalid argument.
pub proof fn exchange_succeeds_on_zero_only<T>(res: i64, value: T)
    ensures
        res == 0 ==> (outcome(res, value) matches Ok(v) && v == value),
        res != 0 ==> (outcome(res, value) matches Err(Error::SysError(no)) && no == 22),
{
}

/// The message received into is the empty one, in memory shared with the host; it is
/// received at exactly the place it lies; and what is returned is exactly the message
/// found there, if the service reports zero.
pub proof fn message_is_received_where_it_lies<M>(empty: M, addr: u64, res: i64, msg: M)
    ensures
        recv_action(RecvEvent::Begin { empty }) matches RecvAction::Place { placement, msg: m }
            && placement is GuestHostShared && m == empty,
        recv_action::<M>(RecvEvent::Placed(addr)) matches RecvAction::Ask(Request::TsotRecvMsg(at))
            && at == addr,
        res == 0 ==> (recv_action(RecvEvent::Received { res, msg }) matches RecvAction::Return(
            Ok(m),
        ) && m == msg),
        res != 0 ==> (recv_action(RecvEvent::Received { res, msg }) matches RecvAction::Return(
            Err(Error::SysError(no)),
        ) && no == 22),
{
}

/// The message sent is the one at exactly the address given, and sending succeeds
/// exactly if the service reports zero.
pub proof fn message_at_the_address_is_sent(
    m: u64,
    res: i64,
    asked: Step<Result<(), Error>>,
    returned: Step<Result<(), Error>>,
)
    requires
        call_ensures(TsotSocketMgr::SendMsg, (m, None), asked),
        call_ensures(TsotSocketMgr::SendMsg, (m, Some(res)), returned),
    ensures
        asked matches Step::Ask(Request::TsotSendMsg(at)) && at == m,
        returned matches Step::Return(r) && (r is Ok <==> res == 0) && (r matches Err(e) ==> e
            == Error::SysError(22)),
{
}

} // verus!
