use usb_host::context::check_slot;
use usb_host::controller::{
    after_status, check_running, command_outcome, next_state, poll_step, ControllerState, InitEvent, PollStep,
    ResetAction, ResetPhase, ResetSequencer, ResetStatus, POLL_LIMIT,
};
use usb_host::err::USBError;
use usb_host::event::{dequeue_pointer_at, EventRingSte, Waiters};
use usb_host::ring::next_position;
use usb_host::trb::{
    TrbData, COMPLETION_SUCCESS, COMPLETION_TRB_ERROR, TRB_TYPE_COMMAND_COMPLETION,
    TRB_TYPE_ENABLE_SLOT, TRB_TYPE_LINK, TRB_TYPE_PORT_STATUS_CHANGE,
};

fn status(halted: bool, cnr: bool, hcrst: bool) -> ResetStatus {
    ResetStatus {
        hc_halted: halted,
        controller_not_ready: cnr,
        host_controller_reset: hcrst,
    }
}

#[test]
fn trb_fields_are_extracted() {
    let t = TrbData::from_raw([0x1234_5670, 0x0000_00ab, 0x0500_0000, (3 << 24) | (33 << 10) | 1]);
    assert!(t.cycle_bit());
    assert_eq!(t.trb_type(), 33);
    assert_eq!(t.completion_code(), 5);
    assert_eq!(t.slot_id(), 3);
    assert_eq!(t.command_trb_pointer(), 0xab_1234_5670);
    assert_eq!(t.to_raw(), [0x1234_5670, 0x0000_00ab, 0x0500_0000, (3 << 24) | (33 << 10) | 1]);
}

#[test]
fn with_cycle_sets_and_clears_only_bit_zero() {
    let t = TrbData::from_raw([1, 2, 3, 0xffff_fffe]);
    let set = t.with_cycle(true);
    assert_eq!(set.to_raw(), [1, 2, 3, 0xffff_ffff]);
    let cleared = set.with_cycle(false);
    assert_eq!(cleared.to_raw(), [1, 2, 3, 0xffff_fffe]);
    assert_eq!(cleared.trb_type(), t.trb_type());
}

#[test]
fn link_trb_points_at_ring_base() {
    let l = TrbData::link(0x1_2345_6780);
    assert_eq!(l.trb_type(), TRB_TYPE_LINK);
    assert_eq!(l.command_trb_pointer(), 0x1_2345_6780);
    assert!(!l.cycle_bit());
    assert_eq!(l.to_raw()[3] & 2, 2);
    assert_eq!(l.to_raw(), [0x2345_6780, 1, 0, (6 << 10) | 2]);
}

#[test]
fn command_trb_has_type_and_no_cycle() {
    let c = TrbData::command(TRB_TYPE_ENABLE_SLOT);
    assert_eq!(c.trb_type(), 9);
    assert!(!c.cycle_bit());
    assert_eq!(c.to_raw(), [0, 0, 0, 9 << 10]);
}

#[test]
fn command_completion_round_trips_fields() {
    let e = TrbData::command_completion(0xdead_bee0, COMPLETION_SUCCESS, 3, true);
    assert_eq!(e.trb_type(), TRB_TYPE_COMMAND_COMPLETION);
    assert_eq!(e.command_trb_pointer(), 0xdead_bee0);
    assert_eq!(e.completion_code(), 1);
    assert_eq!(e.slot_id(), 3);
    assert!(e.cycle_bit());
}

#[test]
fn producer_position_follows_closed_form() {
    // capacity 16 with a link TRB: 15 usable slots
    let period = 15usize;
    let (mut i, mut c) = (3usize, true);
    for k in 1..=40usize {
        let n = next_position(period, i, c);
        i = n.0;
        c = n.1;
        let expect_i = (3 + k) % period;
        let expect_c = true ^ (((3 + k) / period) % 2 == 1);
        assert_eq!((i, c), (expect_i, expect_c));
    }
}

#[test]
fn filling_ring_then_one_more_wraps_and_toggles() {
    let period = 255usize;
    let (mut i, mut c) = (0usize, true);
    for _ in 0..period - 1 {
        let n = next_position(period, i, c);
        i = n.0;
        c = n.1;
        assert!(c);
    }
    assert_eq!(i, period - 1);
    let n = next_position(period, i, c);
    assert_eq!(n, (0, false));
}

#[test]
fn event_ring_wraps_after_257_events() {
    let (mut i, mut c) = (0usize, true);
    let mut wraps = 0;
    for _ in 0..257 {
        let n = next_position(256, i, c);
        if n.0 == 0 {
            wraps += 1;
        }
        i = n.0;
        c = n.1;
    }
    assert_eq!(i, 1);
    assert!(!c);
    assert_eq!(wraps, 1);
    let bus = 0x8000_0000u64;
    assert_eq!(dequeue_pointer_at(bus, i), 0x8000_0010);
}

#[test]
fn dequeue_pointer_clears_reserved_bits() {
    assert_eq!(dequeue_pointer_at(0x1000_0005, 2), 0x1000_0020);
    assert_eq!(dequeue_pointer_at(0x4000, 0), 0x4000);
}

#[test]
fn enable_slot_bounds() {
    let max = 32usize;
    assert_eq!(check_slot(0, max), Err(USBError::SlotLimitReached));
    assert_eq!(check_slot(max, max), Ok(()));
    assert_eq!(check_slot(1, max), Ok(()));
    assert_eq!(check_slot(max + 1, max), Err(USBError::SlotLimitReached));
}

#[test]
fn reset_happy_path_needs_few_sleeps() {
    let mut seq = ResetSequencer::new();
    let mut sleeps = 0;
    // halted right after Run/Stop is cleared
    assert_eq!(seq.observe(status(true, true, false)), ResetAction::Recheck);
    // CNR clears after one poll
    assert_eq!(seq.observe(status(true, true, false)), ResetAction::Sleep);
    sleeps += 1;
    assert_eq!(seq.observe(status(true, false, false)), ResetAction::SetReset);
    // HCRST self-clears after two polls
    assert_eq!(seq.observe(status(true, false, true)), ResetAction::Sleep);
    sleeps += 1;
    assert_eq!(seq.observe(status(true, false, true)), ResetAction::Sleep);
    sleeps += 1;
    assert_eq!(seq.observe(status(true, false, false)), ResetAction::Finished);
    assert_eq!(seq.phase, ResetPhase::Done);
    assert!(sleeps <= 4);
}

#[test]
fn reset_stuck_reports_not_ready() {
    let mut seq = ResetSequencer::new();
    assert_eq!(seq.observe(status(true, false, false)), ResetAction::Recheck);
    assert_eq!(seq.observe(status(true, false, false)), ResetAction::SetReset);
    let mut sleeps = 0u32;
    loop {
        match seq.observe(status(true, false, true)) {
            ResetAction::Sleep => sleeps += 1,
            ResetAction::Fail(e) => {
                assert_eq!(e, USBError::ControllerNotReady);
                break;
            }
            other => panic!("unexpected action {:?}", other),
        }
        assert!(sleeps <= POLL_LIMIT);
    }
    assert_eq!(sleeps, POLL_LIMIT);
    assert_eq!(seq.phase, ResetPhase::Failed);
    assert_eq!(
        seq.observe(status(true, false, false)),
        ResetAction::Fail(USBError::ControllerNotReady)
    );
}

#[test]
fn enable_slot_command_round_trip() {
    let addr = 0x2000_0040u64;
    let mut w = Waiters::new();
    w.insert(addr);
    assert!(w.contains(addr));
    assert_eq!(w.len(), 1);
    assert!(w.take(addr).is_none());
    let ev = TrbData::command_completion(addr, COMPLETION_SUCCESS, 3, true);
    assert!(w.complete(addr, ev));
    assert_eq!(w.len(), 1);
    let got = w.take(addr).expect("completion delivered").expect("not failed");
    assert_eq!(w.len(), 0);
    let done = command_outcome(got).expect("success");
    assert_eq!(done.slot_id(), 3);
}

#[test]
fn bad_completion_code_is_command_failed() {
    let ev = TrbData::command_completion(0x40, COMPLETION_TRB_ERROR, 3, true);
    assert_eq!(
        command_outcome(ev).unwrap_err(),
        USBError::CommandFailed(COMPLETION_TRB_ERROR)
    );
    assert_eq!(check_running(ControllerState::Running), Ok(()));
}

#[test]
fn foreign_event_in_command_cell_is_unknown() {
    let mut raw = TrbData::command(TRB_TYPE_PORT_STATUS_CHANGE).to_raw();
    raw[2] = 1 << 24;
    assert_eq!(
        command_outcome(TrbData::from_raw(raw)).unwrap_err(),
        USBError::Unknown
    );
}

#[test]
fn completion_without_waiter_is_dropped() {
    let mut w = Waiters::new();
    w.insert(0x100);
    let ev = TrbData::command_completion(0x200, COMPLETION_SUCCESS, 1, true);
    assert!(!w.complete(0x200, ev));
    assert_eq!(w.len(), 1);
    assert!(!w.contains(0x200));
}

#[test]
fn controller_state_machine() {
    let s = next_state(ControllerState::Uninitialized, InitEvent::Begin);
    assert_eq!(s, ControllerState::Resetting);
    let s = next_state(s, InitEvent::ResetDone);
    assert_eq!(s, ControllerState::Configuring);
    let s = next_state(s, InitEvent::Configured);
    assert_eq!(s, ControllerState::Configuring);
    let s = next_state(s, InitEvent::Started);
    assert_eq!(s, ControllerState::Running);
    assert_eq!(
        next_state(ControllerState::Configuring, InitEvent::StageFailed),
        ControllerState::Failed
    );
    assert_eq!(
        check_running(ControllerState::Uninitialized),
        Err(USBError::NotInitialized)
    );
    assert_eq!(
        check_running(ControllerState::Failed),
        Err(USBError::ControllerFailed)
    );
}

#[test]
fn poll_step_deadline() {
    assert_eq!(poll_step(true, POLL_LIMIT), PollStep::Done);
    assert_eq!(poll_step(false, 0), PollStep::Sleep);
    assert_eq!(poll_step(false, POLL_LIMIT - 1), PollStep::Sleep);
    assert_eq!(poll_step(false, POLL_LIMIT), PollStep::TimedOut);
}

#[test]
fn segment_table_entry() {
    let e = EventRingSte::new(0x9000, 256);
    assert_eq!(e.addr, 0x9000);
    assert_eq!(e.size, 256);
    assert_eq!(e.reserved, [0u8; 6]);
}

#[test]
fn fatal_status_fails_controller() {
    assert_eq!(
        after_status(ControllerState::Running, true, false),
        ControllerState::Failed
    );
    assert_eq!(
        after_status(ControllerState::Running, false, true),
        ControllerState::Failed
    );
    assert_eq!(
        after_status(ControllerState::Running, false, false),
        ControllerState::Running
    );
}

#[test]
fn failure_resolves_outstanding_waiters() {
    let mut w = Waiters::new();
    w.insert(0x40);
    w.insert(0x50);
    let ev = TrbData::command_completion(0x50, COMPLETION_SUCCESS, 2, true);
    assert!(w.complete(0x50, ev));
    w.fail_all();
    assert_eq!(w.take(0x40).unwrap().unwrap_err(), USBError::ControllerFailed);
    assert_eq!(w.take(0x50).unwrap().unwrap_err(), USBError::ControllerFailed);
    assert_eq!(w.len(), 0);
    assert!(w.take(0x60).is_none());
}
