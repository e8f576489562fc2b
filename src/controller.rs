//! Decisions of the controller driver: the reset sequence, the controller
//! state, command submission and completion, and interrupt service. The
//! register accesses and the sleeping between polls are left to the caller,
//! which performs each returned action and reports what it observed.
use vstd::prelude::*;

use crate::context::{
    after_scratchpad_setup, DeviceContextList, ScratchpadBufferArray, DCBAA_LEN, MAX_SCRATCHPADS,
};
use crate::dma::{
    is_pow2, trb_vec_align, trb_vec_direction, u64_vec_align, u64_vec_bus, Direction,
};
use crate::err::USBError;
use crate::event::{delivered, dequeue_pointer, EventRing, EVENT_RING_SIZE};
use crate::ring::{lemma_slot_addr_aligned, slot_addr, step, steps, zero_slots, Ring};
use crate::trb::{
    link_words, TrbData, COMPLETION_SUCCESS, POINTER_MASK, TRB_TYPE_COMMAND_COMPLETION,
};

verus! {

/// Sleeps of 10 ms allowed to one status poll before it gives up (500 ms).
pub const POLL_LIMIT: u32 = 50;

/// Slots of the command ring: one 4 KiB page of TRBs.
pub const COMMAND_RING_SIZE: usize = 256;

/// Life cycle of the controller.
#[derive(Clone, Copy, Debug, PartialEq, Eq, Structural)]
pub enum ControllerState {
    Uninitialized,
    Resetting,
    Configuring,
    Running,
    Failed,
}

/// What ended an initialisation stage.
#[derive(Clone, Copy, Debug, PartialEq, Eq, Structural)]
pub enum InitEvent {
    /// `init` began.
    Begin,
    /// The reset sequence finished.
    ResetDone,
    /// Data structures were allocated and programmed.
    Configured,
    /// The controller left the halted state.
    Started,
    /// A stage failed.
    StageFailed,
}

/// The controller state after `ev`: the stages follow one another in order,
/// any failure is terminal until a new `init`, and an event out of order fails.
pub open spec fn spec_next_state(s: ControllerState, ev: InitEvent) -> ControllerState {
    match (s, ev) {
        (_, InitEvent::Begin) => ControllerState::Resetting,
        (ControllerState::Resetting, InitEvent::ResetDone) => ControllerState::Configuring,
        (ControllerState::Configuring, InitEvent::Configured) => ControllerState::Configuring,
        (ControllerState::Configuring, InitEvent::Started) => ControllerState::Running,
        _ => ControllerState::Failed,
    }
}

/// Next controller state; see `spec_next_state`.
pub fn next_state(s: ControllerState, ev: InitEvent) -> (r: ControllerState)
    ensures
        r == spec_next_state(s, ev),
{
    match (s, ev) {
        (_, InitEvent::Begin) => ControllerState::Resetting,
        (ControllerState::Resetting, InitEvent::ResetDone) => ControllerState::Configuring,
        (ControllerState::Configuring, InitEvent::Configured) => ControllerState::Configuring,
        (ControllerState::Configuring, InitEvent::Started) => ControllerState::Running,
        _ => ControllerState::Failed,
    }
}

/// The state after an observation of USBSTS: a Host System Error or a Host
/// Controller Error fails the controller for good; otherwise it is unchanged.
pub fn after_status(s: ControllerState, host_system_error: bool, host_controller_error: bool) -> (r:
    ControllerState)
    ensures
        r == (if host_system_error || host_controller_error {
            ControllerState::Failed
        } else {
            s
        }),
{
    if host_system_error || host_controller_error {
        ControllerState::Failed
    } else {
        s
    }
}

/// Whether commands may be submitted in state `s`: only while running;
/// before that the controller is not initialised, after a failure it has failed.
pub fn check_running(s: ControllerState) -> (r: Result<(), USBError>)
    ensures
        r is Ok <==> s == ControllerState::Running,
        r matches Err(e) ==> (e == USBError::ControllerFailed <==> s == ControllerState::Failed),
        r matches Err(e) ==> e == USBError::ControllerFailed || e == USBError::NotInitialized,
{
    match s {
        ControllerState::Running => Ok(()),
        ControllerState::Failed => Err(USBError::ControllerFailed),
        _ => Err(USBError::NotInitialized),
    }
}

/// Outcome of one observation of a polled condition.
#[derive(Clone, Copy, Debug, PartialEq, Eq, Structural)]
pub enum PollStep {
    /// The condition holds.
    Done,
    /// Sleep 10 ms and observe again.
    Sleep,
    /// The deadline passed.
    TimedOut,
}

pub open spec fn spec_poll_step(done: bool, polls: u32) -> PollStep {
    if done {
        PollStep::Done
    } else if polls >= POLL_LIMIT {
        PollStep::TimedOut
    } else {
        PollStep::Sleep
    }
}

/// Decides one observation of a polled condition after `polls` sleeps.
pub fn poll_step(done: bool, polls: u32) -> (r: PollStep)
    ensures
        r == spec_poll_step(done, polls),
{
    if done {
        PollStep::Done
    } else if polls >= POLL_LIMIT {
        PollStep::TimedOut
    } else {
        PollStep::Sleep
    }
}

/// The status bits the reset sequence observes.
#[derive(Clone, Copy, Debug, PartialEq, Eq, Structural)]
pub struct ResetStatus {
    /// USBSTS.HCHalted.
    pub hc_halted: bool,
    /// USBSTS.CNR (Controller Not Ready).
    pub controller_not_ready: bool,
    /// USBCMD.HCRST (Host Controller Reset), still set while resetting.
    pub host_controller_reset: bool,
}

/// Stages of the reset sequence; Run/Stop has been cleared before the first.
#[derive(Clone, Copy, Debug, PartialEq, Eq, Structural)]
pub enum ResetPhase {
    /// Waiting for HCHalted.
    Halting,
    /// Waiting for CNR to clear.
    WaitingReady,
    /// HCRST written; waiting for HCRST and CNR to clear.
    Resetting,
    Done,
    Failed,
}

/// What the caller does next in the reset sequence.
#[derive(Clone, Copy, Debug, PartialEq, Eq, Structural)]
pub enum ResetAction {
    /// Observe the status again at once.
    Recheck,
    /// Sleep 10 ms, then observe again.
    Sleep,
    /// Set USBCMD.HCRST, then observe again.
    SetReset,
    /// The controller is reset and ready.
    Finished,
    /// Give up with this error.
    Fail(USBError),
}

/// The condition that ends `phase`.
pub open spec fn phase_done(phase: ResetPhase, s: ResetStatus) -> bool {
    match phase {
        ResetPhase::Halting => s.hc_halted,
        ResetPhase::WaitingReady => !s.controller_not_ready,
        ResetPhase::Resetting => !s.host_controller_reset && !s.controller_not_ready,
        _ => true,
    }
}

/// The phase that follows `phase` once its condition holds.
pub open spec fn phase_after(phase: ResetPhase) -> ResetPhase {
    match phase {
        ResetPhase::Halting => ResetPhase::WaitingReady,
        ResetPhase::WaitingReady => ResetPhase::Resetting,
        _ => ResetPhase::Done,
    }
}

/// The action on entering the phase after `phase`.
pub open spec fn action_after(phase: ResetPhase) -> ResetAction {
    match phase {
        ResetPhase::Halting => ResetAction::Recheck,
        ResetPhase::WaitingReady => ResetAction::SetReset,
        _ => ResetAction::Finished,
    }
}

/// One observation of the reset sequence: the sequence after it and the
/// action it calls for (see `ResetSequencer::observe`).
pub open spec fn spec_observe(q: ResetSequencer, s: ResetStatus) -> (ResetSequencer, ResetAction) {
    if q.phase == ResetPhase::Done {
        (q, ResetAction::Finished)
    } else if q.phase == ResetPhase::Failed {
        (q, ResetAction::Fail(USBError::ControllerNotReady))
    } else {
        match spec_poll_step(phase_done(q.phase, s), q.polls) {
            PollStep::Done => (
                ResetSequencer { phase: phase_after(q.phase), polls: 0 },
                action_after(q.phase),
            ),
            PollStep::Sleep => (
                ResetSequencer { phase: q.phase, polls: (q.polls + 1) as u32 },
                ResetAction::Sleep,
            ),
            PollStep::TimedOut => (
                ResetSequencer { phase: ResetPhase::Failed, polls: q.polls },
                ResetAction::Fail(USBError::ControllerNotReady),
            ),
        }
    }
}

/// The sequence after `n` observations of the same status `s`.
pub open spec fn observe_times(q: ResetSequencer, s: ResetStatus, n: nat) -> ResetSequencer
    decreases n,
{
    if n == 0 {
        q
    } else {
        spec_observe(observe_times(q, s, (n - 1) as nat), s).0
    }
}

/// A reset that never completes (HCRST or CNR stays set) times out: from
/// the Resetting phase after `p` sleeps, each further observation asks for
/// a sleep until `POLL_LIMIT` sleeps have passed, and the next one fails
/// with `ControllerNotReady`, leaving the sequence failed.
pub proof fn lemma_stuck_reset_times_out(p: u32, s: ResetStatus)
    requires
        p <= POLL_LIMIT,
        s.host_controller_reset || s.controller_not_ready,
    ensures
        forall|k: nat|
            k < POLL_LIMIT - p ==> #[trigger] spec_observe(
                observe_times(ResetSequencer { phase: ResetPhase::Resetting, polls: p }, s, k),
                s,
            ).1 == ResetAction::Sleep,
        spec_observe(
            observe_times(
                ResetSequencer { phase: ResetPhase::Resetting, polls: p },
                s,
                (POLL_LIMIT - p) as nat,
            ),
            s,
        ) == (
            ResetSequencer { phase: ResetPhase::Failed, polls: POLL_LIMIT },
            ResetAction::Fail(USBError::ControllerNotReady),
        ),
{
    let q0 = ResetSequencer { phase: ResetPhase::Resetting, polls: p };
    assert forall|k: nat| k <= POLL_LIMIT - p implies #[trigger] observe_times(q0, s, k) == (
    ResetSequencer { phase: ResetPhase::Resetting, polls: (p + k) as u32 }) by {
        lemma_stuck_prefix(p, s, k);
    }
    assert forall|k: nat| k < POLL_LIMIT - p implies #[trigger] spec_observe(
        observe_times(q0, s, k),
        s,
    ).1 == ResetAction::Sleep by {
        lemma_stuck_prefix(p, s, k);
    }
    lemma_stuck_prefix(p, s, (POLL_LIMIT - p) as nat);
}

proof fn lemma_stuck_prefix(p: u32, s: ResetStatus, k: nat)
    requires
        p <= POLL_LIMIT,
        s.host_controller_reset || s.controller_not_ready,
        k <= POLL_LIMIT - p,
    ensures
        observe_times(ResetSequencer { phase: ResetPhase::Resetting, polls: p }, s, k) == (
        ResetSequencer { phase: ResetPhase::Resetting, polls: (p + k) as u32 }),
    decreases k,
{
    if k > 0 {
        lemma_stuck_prefix(p, s, (k - 1) as nat);
    }
}

/// The reset sequence: halt, wait until ready, reset, wait until the reset
/// completes. Each wait gives up after `POLL_LIMIT` sleeps.
#[derive(Clone, Copy, Debug)]
pub struct ResetSequencer {
    pub phase: ResetPhase,
    /// Sleeps so far in the current phase.
    pub polls: u32,
}

impl ResetSequencer {
    pub open spec fn active(&self) -> bool {
        self.phase == ResetPhase::Halting || self.phase == ResetPhase::WaitingReady || self.phase
            == ResetPhase::Resetting
    }

    /// A sequence waiting for the halt that clearing Run/Stop brings.
    pub fn new() -> (r: ResetSequencer)
        ensures
            r.phase == ResetPhase::Halting,
            r.polls == 0,
    {
        ResetSequencer { phase: ResetPhase::Halting, polls: 0 }
    }

    /// Takes one observation of the status bits and says what to do next.
    /// A finished or failed sequence stays as it is.
    pub fn observe(&mut self, s: ResetStatus) -> (r: ResetAction)
        ensures
            (*final(self), r) == spec_observe(*old(self), s),
            !old(self).active() ==> *final(self) == *old(self) && r == (if old(self).phase
                == ResetPhase::Done {
                ResetAction::Finished
            } else {
                ResetAction::Fail(USBError::ControllerNotReady)
            }),
            old(self).active() ==> match spec_poll_step(phase_done(old(self).phase, s), old(self).polls) {
                PollStep::Done => {
                    &&& final(self).phase == phase_after(old(self).phase)
                    &&& final(self).polls == 0
                    &&& r == action_after(old(self).phase)
                },
                PollStep::Sleep => {
                    &&& final(self).phase == old(self).phase
                    &&& final(self).polls == old(self).polls + 1
                    &&& r == ResetAction::Sleep
                },
                PollStep::TimedOut => {
                    &&& final(self).phase == ResetPhase::Failed
                    &&& r == ResetAction::Fail(USBError::ControllerNotReady)
                },
            },
    {
        let done = match self.phase {
            ResetPhase::Halting => s.hc_halted,
            ResetPhase::WaitingReady => !s.controller_not_ready,
            ResetPhase::Resetting => !s.host_controller_reset && !s.controller_not_ready,
            ResetPhase::Done => {
                return ResetAction::Finished;
            },
            ResetPhase::Failed => {
                return ResetAction::Fail(USBError::ControllerNotReady);
            },
        };
        match poll_step(done, self.polls) {
            PollStep::Done => {
                let (next, action) = match self.phase {
                    ResetPhase::Halting => (ResetPhase::WaitingReady, ResetAction::Recheck),
                    ResetPhase::WaitingReady => (ResetPhase::Resetting, ResetAction::SetReset),
                    _ => (ResetPhase::Done, ResetAction::Finished),
                };
                self.phase = next;
                self.polls = 0;
                action
            },
            PollStep::Sleep => {
                self.polls = self.polls + 1;
                ResetAction::Sleep
            },
            PollStep::TimedOut => {
                self.phase = ResetPhase::Failed;
                ResetAction::Fail(USBError::ControllerNotReady)
            },
        }
    }
}

/// What a command's completion event means for its submitter: success
/// carries the event; another completion code is `CommandFailed(code)`; an
/// event of another class in a command's cell is a protocol violation.
pub open spec fn spec_command_outcome(event: TrbData) -> Result<TrbData, USBError> {
    if event.spec_trb_type() != TRB_TYPE_COMMAND_COMPLETION {
        Err(USBError::Unknown)
    } else if event.spec_completion_code() == COMPLETION_SUCCESS {
        Ok(event)
    } else {
        Err(USBError::CommandFailed(event.spec_completion_code()))
    }
}

/// Classifies the completion that resolved a command; see `spec_command_outcome`.
pub fn command_outcome(event: TrbData) -> (r: Result<TrbData, USBError>)
    ensures
        r == spec_command_outcome(event),
{
    if event.trb_type() != TRB_TYPE_COMMAND_COMPLETION {
        Err(USBError::Unknown)
    } else {
        let code = event.completion_code();
        if code == COMPLETION_SUCCESS {
            Ok(event)
        } else {
            Err(USBError::CommandFailed(code))
        }
    }
}

/// The CRCR value: the command ring's base with Ring Cycle State in bit 0.
pub open spec fn crcr_value(bus: u64, cycle: bool) -> u64 {
    if cycle {
        bus | 1
    } else {
        bus & 0xFFFF_FFFF_FFFF_FFFE
    }
}

/// What the controller owns once it is configured.
pub struct Data {
    pub dev_list: DeviceContextList,
    pub cmd: Ring,
    pub event: EventRing,
    pub scratchpad_buf_arr: Option<ScratchpadBufferArray>,
}

impl Data {
    pub open spec fn wf(&self) -> bool {
        &&& self.dev_list.wf()
        &&& self.cmd.wf()
        &&& self.cmd.link
        &&& self.event.wf()
    }

    /// Allocates the DCBAA for `max_slots` slots, the command ring (with its
    /// Link TRB, producer cycle 1) and the event ring.
    pub fn new(max_slots: usize) -> (r: Result<Data, USBError>)
        requires
            max_slots < DCBAA_LEN,
        ensures
            r matches Ok(d) ==> {
                &&& d.wf()
                &&& d.dev_list.max_slots == max_slots
                &&& forall|k: int| 0 <= k < DCBAA_LEN ==> #[trigger] d.dev_list.dcbaa_view()[k] == 0
                &&& d.cmd.capacity() == COMMAND_RING_SIZE
                &&& d.cmd.i == 0
                &&& d.cmd.cycle
                &&& d.cmd.slots() == Ring::initial_slots(
                    COMMAND_RING_SIZE as nat,
                    true,
                    d.cmd.spec_bus_addr(),
                )
                &&& d.event.ring.slots() == zero_slots(EVENT_RING_SIZE as nat)
                &&& trb_vec_align(d.cmd.trbs) == 64
                &&& trb_vec_direction(d.cmd.trbs) == Direction::Bidirectional
                &&& trb_vec_align(d.event.ring.trbs) == 64
                &&& trb_vec_direction(d.event.ring.trbs) == Direction::Bidirectional
                &&& u64_vec_align(d.event.ste) == 64
                &&& d.event.ring.capacity() == EVENT_RING_SIZE
                &&& d.event.ring.i == 0
                &&& d.event.ring.cycle
                &&& d.event.results.view().is_empty()
                &&& !d.event.results.failed
                &&& d.scratchpad_buf_arr is None
            },
            r matches Err(e) ==> e == USBError::NoMemory,
    {
        let dev_list = DeviceContextList::new(max_slots)?;
        let cmd = Ring::new(COMMAND_RING_SIZE, true, Direction::Bidirectional)?;
        let event = EventRing::new()?;
        Ok(Data { dev_list, cmd, event, scratchpad_buf_arr: None })
    }

    /// The value to write into CRCR.
    pub fn crcr(&self) -> (r: u64)
        ensures
            r == crcr_value(self.cmd.spec_bus_addr(), self.cmd.cycle),
    {
        let bus = self.cmd.bus_addr();
        if self.cmd.cycle {
            bus | 1
        } else {
            bus & 0xFFFF_FFFF_FFFF_FFFE
        }
    }

    /// Sets up the scratchpads the controller asks for (see
    /// `DeviceContextList::setup_scratchpads`) and keeps them. With no
    /// scratchpads asked for, or on failure, nothing changes.
    pub fn setup_scratchpads(&mut self, count: usize, page_size: usize) -> (r: Result<
        (),
        USBError,
    >)
        requires
            old(self).wf(),
            count <= MAX_SCRATCHPADS,
            is_pow2(page_size),
            2 * page_size <= isize::MAX,
        ensures
            final(self).wf(),
            final(self).cmd == old(self).cmd,
            final(self).event == old(self).event,
            final(self).dev_list.device_context_list == old(self).dev_list.device_context_list,
            final(self).dev_list.max_slots == old(self).dev_list.max_slots,
            count == 0 ==> r is Ok,
            count == 0 || r is Err ==> final(self).dev_list.dcbaa_view() == old(self).dev_list.dcbaa_view(),
            count == 0 || r is Err ==> final(self).scratchpad_buf_arr == old(self).scratchpad_buf_arr,
            r matches Err(e) ==> e == USBError::NoMemory,
            r is Ok && count > 0 ==> (final(self).scratchpad_buf_arr matches Some(s) && {
                &&& s.wf(page_size as nat)
                &&& s.pages.len() == count
                &&& final(self).dev_list.dcbaa_view() == after_scratchpad_setup(
                    old(self).dev_list.dcbaa_view(),
                    count as nat,
                    u64_vec_bus(s.entries),
                )
            }),
    {
        let arr = self.dev_list.setup_scratchpads(count, page_size)?;
        if arr.is_some() {
            self.scratchpad_buf_arr = arr;
        }
        Ok(())
    }

    /// Puts `trb` on the command ring and registers its waiter, keyed by the
    /// bus address of the slot written, which it returns. The caller rings
    /// doorbell 0 only after this returns.
    pub fn post_command(&mut self, trb: TrbData) -> (r: u64)
        requires
            old(self).wf(),
        ensures
            final(self).wf(),
            final(self).dev_list == old(self).dev_list,
            final(self).event.ring == old(self).event.ring,
            final(self).event.ste == old(self).event.ste,
            final(self).cmd.link,
            final(self).cmd.capacity() == old(self).cmd.capacity(),
            final(self).cmd.spec_bus_addr() == old(self).cmd.spec_bus_addr(),
            r == slot_addr(old(self).cmd.spec_bus_addr(), old(self).cmd.i as nat),
            r % 16 == 0,
            r & POINTER_MASK == r,
            final(self).cmd.slots() == (if old(self).cmd.i + 1 >= old(self).cmd.period() {
                old(self).cmd.slots().update(
                    old(self).cmd.i as int,
                    trb.spec_with_cycle(old(self).cmd.cycle).0,
                ).update(
                    old(self).cmd.capacity() - 1,
                    TrbData(link_words(old(self).cmd.spec_bus_addr())).spec_with_cycle(
                        old(self).cmd.cycle,
                    ).0,
                )
            } else {
                old(self).cmd.slots().update(
                    old(self).cmd.i as int,
                    trb.spec_with_cycle(old(self).cmd.cycle).0,
                )
            }),
            (final(self).cmd.i as nat, final(self).cmd.cycle) == step(
                old(self).cmd.period(),
                old(self).cmd.i as nat,
                old(self).cmd.cycle,
            ),
            final(self).event.results.view() == old(self).event.results.view().insert(r, None),
            final(self).event.results.failed == old(self).event.results.failed,
    {
        let addr = self.cmd.enqueue(trb);
        proof {
            lemma_slot_addr_aligned(old(self).cmd.spec_bus_addr(), old(self).cmd.i as nat);
        }
        self.event.wait_result(addr);
        addr
    }

    /// Services an interrupt: consumes and delivers every pending event, in
    /// order, and returns them, the TRB that ended the drain (see
    /// `EventRing::clean_events`) and the dequeue pointer to write back into
    /// ERDP (the caller also writes 1 to its Event Handler Busy bit, which
    /// clears it). With nothing pending the event ring and its waiters stay
    /// as they were, so the pointer is the one already programmed.
    pub fn handle_interrupt(&mut self) -> (r: (Vec<TrbData>, Option<TrbData>, u64))
        requires
            old(self).wf(),
        ensures
            final(self).wf(),
            final(self).dev_list == old(self).dev_list,
            final(self).cmd == old(self).cmd,
            final(self).event.ste == old(self).event.ste,
            final(self).event.ring.trbs == old(self).event.ring.trbs,
            r.2 == dequeue_pointer(final(self).event.ring.spec_bus_addr(), final(self).event.ring.i as nat),
            r.0@.len() <= old(self).event.ring.capacity(),
            r.0@.len() == 0 ==> final(self).event == old(self).event,
            (final(self).event.ring.i as nat, final(self).event.ring.cycle) == steps(
                old(self).event.ring.period(),
                old(self).event.ring.i as nat,
                old(self).event.ring.cycle,
                r.0@.len(),
            ),
            forall|k: int|
                0 <= k < r.0@.len() ==> #[trigger] r.0@[k].spec_cycle_bit() == steps(
                    old(self).event.ring.period(),
                    old(self).event.ring.i as nat,
                    old(self).event.ring.cycle,
                    k as nat,
                ).1,
            r.1 matches Some(t) ==> t.spec_cycle_bit() != final(self).event.ring.cycle,
            r.1 is None ==> r.0@.len() == old(self).event.ring.capacity(),
            final(self).event.results.view() == delivered(old(self).event.results.view(), r.0@),
            final(self).event.results.failed == old(self).event.results.failed,
    {
        let (events, stop) = self.event.clean_events();
        let ptr = self.event.dequeue_pointer();
        (events, stop, ptr)
    }

    /// After a fatal controller error: every outstanding command, and any
    /// submitted later, resolves to `ControllerFailed`.
    pub fn fail_waiters(&mut self)
        ensures
            final(self).dev_list == old(self).dev_list,
            final(self).cmd == old(self).cmd,
            final(self).event.ring == old(self).event.ring,
            final(self).event.ste == old(self).event.ste,
            final(self).event.results.view() == old(self).event.results.view(),
            final(self).event.results.failed,
            forall|a: u64|
                old(self).event.results.view().contains_key(a) ==> #[trigger] final(self).event.results.spec_take(a) == Some(
                    Err::<TrbData, USBError>(USBError::ControllerFailed),
                ),
    {
        self.event.results.fail_all();
    }
}

} // verus!
