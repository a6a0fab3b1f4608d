use qkernel::cpu::CPULocal;
use qkernel::effect::{Effect, Request, Step};
use qkernel::error::{Error, SysErr};
use qkernel::hostcall::{
    AQAction, AQEvent, CallAction, CallEvent, CloseAction, CloseEvent, HCallAction, HCallEvent,
    HostSpace, Placement, Scheduler, ShareSpace,
};
use qkernel::hypercall::{HypercallDef, SharePara};
use qkernel::qcall::{Close, HostOutputMsg, Msg, QMsg};
use qkernel::tsot::{RecvAction, RecvEvent, TsotSocketMgr};

const DEF: HypercallDef = HypercallDef { HYPERCALL_HCALL: 9, HYPERCALL_SHARESPACE_INIT: 4 };

fn space() -> ShareSpace {
    ShareSpace {
        scheduler: Scheduler {
            VcpuArr: vec![CPULocal { eventfd: 31 }, CPULocal { eventfd: 32 }],
        },
    }
}

// Posts a message to a queue that refuses it a number of times; gives the number
// of pushes and the effect at the end.
fn post(refusals: usize, processors: u64) -> (usize, Option<Effect>) {
    let s = space();
    let msg = HostOutputMsg::QCall(5);
    let mut pushes = 0;
    let mut event = AQEvent::Begin;
    loop {
        event = match s.AQCall(&msg, event) {
            AQAction::Push(m) => {
                assert_eq!(*m, msg);
                pushes += 1;
                AQEvent::Pushed(pushes > refusals)
            }
            AQAction::ReadHostProcessor => AQEvent::HostProcessor(processors),
            AQAction::Finish(e) => return (pushes, Some(e)),
            AQAction::Done => return (pushes, None),
        };
    }
}

#[test]
fn message_is_pushed_until_it_is_taken() {
    assert_eq!(post(0, 2), (1, None));
    assert_eq!(post(7, 2), (8, None));
}

#[test]
fn first_vcpu_is_woken_without_host_processors() {
    assert_eq!(post(0, 0), (1, Some(Effect::EventfdWrite(31))));
    assert_eq!(post(3, 0), (4, Some(Effect::EventfdWrite(31))));
}

#[test]
fn waking_and_yielding() {
    assert_eq!(CPULocal { eventfd: -3 }.Wakeup(), Effect::EventfdWrite(-3));
    assert_eq!(ShareSpace::Yield(), Effect::VcpuYield);
}

#[test]
fn call_through_the_queue() {
    for (cc, placement) in [(true, Placement::GuestHostShared), (false, Placement::Stack)] {
        for must_async in [true, false] {
            assert_eq!(
                HostSpace::Call(cc, CallEvent::Begin { taskId: 1, msg: 2 }, must_async),
                CallAction::Place {
                    placement,
                    msg: QMsg { taskId: 1, globalLock: true, ret: 0, msg: 2 }
                }
            );
            assert_eq!(
                HostSpace::Call(cc, CallEvent::Placed(0x60), must_async),
                CallAction::Post { placement, msg: HostOutputMsg::QCall(0x60) }
            );
            assert_eq!(HostSpace::Call(cc, CallEvent::Posted, must_async), CallAction::Wait);
            assert_eq!(
                HostSpace::Call(cc, CallEvent::Resumed(77), must_async),
                CallAction::Return(77)
            );
        }
    }
}

#[test]
fn call_by_hypercall() {
    for (cc, placement) in [(true, Placement::GuestHostShared), (false, Placement::Stack)] {
        for lock in [true, false] {
            assert_eq!(
                HostSpace::HCall(&DEF, cc, HCallEvent::Begin { taskId: 1, msg: 2, lock }),
                HCallAction::Place {
                    placement,
                    msg: QMsg { taskId: 1, globalLock: lock, ret: 0, msg: 2 }
                }
            );
        }
        assert_eq!(
            HostSpace::HCall(&DEF, cc, HCallEvent::Placed(0x60)),
            HCallAction::HyperCall64 {
                type_: 9,
                para: SharePara { para1: 0x60, para2: 0, para3: 0, para4: 0 }
            }
        );
        assert_eq!(
            HostSpace::HCall(&DEF, cc, HCallEvent::Answered(8)),
            HCallAction::Return(8)
        );
    }
}

#[test]
fn closing_a_descriptor() {
    for (cc, placement) in [(true, Placement::GuestHostShared), (false, Placement::Stack)] {
        assert_eq!(
            HostSpace::Close(cc, CloseEvent::Begin { fd: 12 }),
            CloseAction::Place { placement, msg: Msg::Close(Close { fd: 12 }) }
        );
        assert_eq!(
            HostSpace::Close(cc, CloseEvent::Placed(0x90)),
            CloseAction::HCall { msg: 0x90, lock: false }
        );
        for (answer, result) in [
            (0, 0),
            (5, 5),
            (i64::MAX as u64, i64::MAX),
            (1u64 << 63, i64::MIN),
            (u64::MAX, -1),
            (u64::MAX - 8, -9),
        ] {
            assert_eq!(
                HostSpace::Close(cc, CloseEvent::Answered(answer)),
                CloseAction::Return(result)
            );
        }
    }
}

#[test]
fn sending_a_message() {
    assert_eq!(TsotSocketMgr::SendMsg(0x70, None), Step::Ask(Request::TsotSendMsg(0x70)));
    assert_eq!(TsotSocketMgr::SendMsg(0x70, Some(0)), Step::Return(Ok(())));
    for res in [1, -1, 22, i64::MIN] {
        assert_eq!(
            TsotSocketMgr::SendMsg(0x70, Some(res)),
            Step::Return(Err(Error::SysError(SysErr::EINVAL)))
        );
    }
    assert_eq!(SysErr::EINVAL, 22);
}

#[test]
fn receiving_a_message() {
    assert_eq!(
        TsotSocketMgr::RecvMsg(RecvEvent::Begin { empty: 0u8 }),
        RecvAction::Place { placement: Placement::GuestHostShared, msg: 0 }
    );
    assert_eq!(
        TsotSocketMgr::RecvMsg::<u8>(RecvEvent::Placed(0x33)),
        RecvAction::Ask(Request::TsotRecvMsg(0x33))
    );
    assert_eq!(
        TsotSocketMgr::RecvMsg(RecvEvent::Received { res: 0, msg: 'm' }),
        RecvAction::Return(Ok('m'))
    );
    assert_eq!(
        TsotSocketMgr::RecvMsg(RecvEvent::Received { res: -11, msg: 'm' }),
        RecvAction::Return(Err(Error::SysError(22)))
    );
}
