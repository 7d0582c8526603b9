use printhor::channel::CommChannel;
use printhor::deferred::{DeferredCompletion, Reply};
use printhor::gcode::{GCode, Real};
use printhor::multiplexer::GCodeMultiplexedInputStream;
use printhor::outcome::{
    CodeExecutionFailure, CodeExecutionSuccess, EventStatus, HOMING, HOT_END_TEMP_OK, MOV_QUEUE_EMPTY,
};

#[test]
fn move_then_wait_for_moves() {
    let mut m = GCodeMultiplexedInputStream::new(true, false, false);
    let mut d = DeferredCompletion::new();
    m.receive_bytes(CommChannel::SerialUsb, &b"G1 X10 Y5\n".to_vec());
    let (r, c) = m.next_gcode().unwrap();
    match r {
        Ok(GCode::G1(p)) => {
            assert_eq!(p.x, Some(Real::from_lit(10, 0)));
            assert_eq!(p.y, Some(Real::from_lit(5, 0)));
            assert_eq!((p.e, p.z, p.f, p.s), (None, None, None, None));
        }
        _ => panic!("unexpected"),
    }
    assert_eq!(d.dispatch(c, m.get_line(c), Ok(CodeExecutionSuccess::QUEUED)), Reply::Ack);

    m.receive_bytes(CommChannel::SerialUsb, &b"M400\n".to_vec());
    let (r, c) = m.next_gcode().unwrap();
    assert!(matches!(r, Ok(GCode::M400)));
    let request = m.get_line(c);
    let reply = d.dispatch(c, request, Ok(CodeExecutionSuccess::DEFERRED(EventStatus::containing(MOV_QUEUE_EMPTY))));
    let id = match reply {
        Reply::Deferred(id) => id,
        other => panic!("unexpected {:?}", other),
    };
    assert!(d.is_waiting(id));
    let ns = d.raise(MOV_QUEUE_EMPTY);
    assert_eq!(ns.len(), 1);
    assert_eq!(ns[0].id, id);
    assert_eq!(ns[0].channel, CommChannel::SerialUsb);
    assert_eq!(ns[0].request, 2);
    assert!(!d.is_waiting(id));
    assert!(d.raise(MOV_QUEUE_EMPTY).is_empty());
}

#[test]
fn mask_satisfied_across_several_raises_fires_once() {
    let mut d = DeferredCompletion::new();
    let mask = HOMING | HOT_END_TEMP_OK | MOV_QUEUE_EMPTY;
    let id = d.register(CommChannel::SerialPort1, 9, EventStatus::containing(mask)).unwrap();
    assert!(d.raise(HOT_END_TEMP_OK).is_empty());
    assert!(d.raise(HOMING).is_empty());
    let ns = d.raise(MOV_QUEUE_EMPTY);
    assert_eq!(ns.len(), 1);
    assert_eq!((ns[0].id, ns[0].channel, ns[0].request), (id, CommChannel::SerialPort1, 9));
    assert_eq!(d.waiter_count(), 0);
    assert!(d.raise(mask).is_empty());
}

#[test]
fn notices_come_in_registration_order() {
    let mut d = DeferredCompletion::new();
    let a = d.register(CommChannel::SerialUsb, 1, EventStatus::containing(MOV_QUEUE_EMPTY)).unwrap();
    let b = d.register(CommChannel::SerialPort2, 2, EventStatus::containing(HOMING)).unwrap();
    let c = d.register(CommChannel::SerialPort1, 3, EventStatus::containing(MOV_QUEUE_EMPTY)).unwrap();
    let ns = d.raise(MOV_QUEUE_EMPTY);
    assert_eq!(ns.iter().map(|n| n.id).collect::<Vec<_>>(), vec![a, c]);
    assert!(d.is_waiting(b));
}

#[test]
fn clear_starts_a_new_episode() {
    let mut d = DeferredCompletion::new();
    let _ = d.raise(MOV_QUEUE_EMPTY);
    assert!(d.clear(MOV_QUEUE_EMPTY).is_empty());
    assert_eq!(d.flags(), 0);
    let id = d.register(CommChannel::SerialUsb, 1, EventStatus::containing(MOV_QUEUE_EMPTY)).unwrap();
    assert!(d.raise(HOMING).is_empty());
    assert!(d.is_waiting(id));
}

#[test]
fn wait_for_a_flag_to_drop() {
    let mut d = DeferredCompletion::new();
    let _ = d.raise(HOMING);
    let id = d.register(CommChannel::SerialUsb, 1, EventStatus::not_containing(HOMING)).unwrap();
    assert!(d.raise(0).is_empty());
    let ns = d.clear(HOMING);
    assert_eq!(ns.len(), 1);
    assert_eq!(ns[0].id, id);
    assert!(!d.is_waiting(id));
}

#[test]
fn empty_mask_is_refused() {
    let mut d = DeferredCompletion::new();
    assert_eq!(d.register(CommChannel::SerialUsb, 1, EventStatus::containing(0)), None);
    assert_eq!(
        d.dispatch(CommChannel::SerialUsb, 1, Ok(CodeExecutionSuccess::DEFERRED(EventStatus::containing(0)))),
        Reply::Ack
    );
    assert_eq!(d.waiter_count(), 0);
}

#[test]
fn abort_drops_only_that_channel() {
    let mut d = DeferredCompletion::new();
    let a = d.register(CommChannel::SerialUsb, 1, EventStatus::containing(HOMING)).unwrap();
    let b = d.register(CommChannel::SerialPort1, 2, EventStatus::containing(HOMING)).unwrap();
    d.abort_channel(CommChannel::SerialUsb);
    assert!(!d.is_waiting(a));
    assert!(d.is_waiting(b));
    assert_eq!(d.flags(), 0);
}

#[test]
fn every_outcome_gets_its_reply() {
    let mut d = DeferredCompletion::new();
    let c = CommChannel::Internal;
    assert_eq!(d.dispatch(c, 0, Ok(CodeExecutionSuccess::OK)), Reply::Ack);
    assert_eq!(d.dispatch(c, 0, Ok(CodeExecutionSuccess::CONSUMED)), Reply::Reported);
    for f in [
        CodeExecutionFailure::BUSY,
        CodeExecutionFailure::ERR,
        CodeExecutionFailure::HomingRequired,
        CodeExecutionFailure::PowerRequired,
        CodeExecutionFailure::NumericalError,
        CodeExecutionFailure::NotYetImplemented,
    ] {
        assert_eq!(d.dispatch(c, 0, Err(f)), Reply::Failed(f));
    }
    assert_eq!(d.waiter_count(), 0);
}

#[test]
fn deferred_condition_already_met_is_acknowledged_now() {
    let mut d = DeferredCompletion::new();
    let _ = d.raise(MOV_QUEUE_EMPTY);
    let reply = d.dispatch(
        CommChannel::SerialUsb,
        4,
        Ok(CodeExecutionSuccess::DEFERRED(EventStatus::containing(MOV_QUEUE_EMPTY))),
    );
    assert_eq!(reply, Reply::Ack);
    assert_eq!(d.waiter_count(), 0);
}
