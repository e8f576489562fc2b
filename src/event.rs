//! The event ring: segment table, dequeue pointer and command-completion waiters.
use dma_api::DVec;
use std::collections::BTreeMap;
use vstd::prelude::*;

use crate::dma::{
    full_fence, lemma_standard_aligns, u64_vec_align, u64_vec_bus, u64_vec_bus_addr,
    u64_vec_direction, u64_vec_len, u64_vec_length, u64_vec_set, u64_vec_view, u64_vec_zeros,
    usable_bus, Direction,
};
use crate::err::USBError;
use crate::dma::{trb_vec_align, trb_vec_direction};
use crate::ring::{slot_addr, step, steps, zero_slots, Ring};
use crate::trb::{TrbData, POINTER_MASK, TRB_TYPE_COMMAND_COMPLETION};

verus! {

broadcast use vstd::std_specs::btree::group_btree_axioms;

/// Number of TRBs in the event ring's single segment.
pub const EVENT_RING_SIZE: usize = 256;

/// Words of memory that one segment-table entry takes.
pub const STE_WORDS: usize = 2;

/// One entry of the Event Ring Segment Table. In memory it is two
/// little-endian `u64`s: the segment base, then the size in the low 16 bits
/// with the reserved bytes above it.
#[derive(Clone, Copy, Debug)]
pub struct EventRingSte {
    pub addr: u64,
    pub size: u16,
    pub reserved: [u8; 6],
}

impl EventRingSte {
    /// The entry describing one segment of `size` TRBs at bus address `addr`.
    pub fn new(addr: u64, size: u16) -> (r: EventRingSte)
        ensures
            r.addr == addr,
            r.size == size,
            r.reserved == [0u8, 0u8, 0u8, 0u8, 0u8, 0u8],
    {
        EventRingSte { addr, size, reserved: [0u8, 0u8, 0u8, 0u8, 0u8, 0u8] }
    }

    /// The entry as the two words the controller reads; reserved bytes are zero.
    pub fn to_words(&self) -> (r: [u64; 2])
        ensures
            r[0] == self.addr,
            r[1] == self.size as u64,
    {
        [self.addr, self.size as u64]
    }
}

/// The dequeue pointer of a ring at `bus` whose next slot is `i`, reserved bits cleared.
pub open spec fn dequeue_pointer(bus: u64, i: nat) -> u64 {
    slot_addr(bus, i) & POINTER_MASK
}

/// The dequeue pointer of a ring at `bus` whose next slot is `i`.
pub fn dequeue_pointer_at(bus: u64, i: usize) -> (r: u64)
    requires
        i < 0x1000_0000_0000_0000,
    ensures
        r == dequeue_pointer(bus, i as nat),
{
    bus.wrapping_add(i as u64 * 16) & POINTER_MASK
}

/// The dequeue pointer keeps the next slot's address in its high 60 bits.
pub proof fn lemma_dequeue_pointer_high_bits(bus: u64, i: nat)
    ensures
        dequeue_pointer(bus, i) >> 4u64 == slot_addr(bus, i) >> 4u64,
        dequeue_pointer(bus, i) & 0xF == 0,
{
    let a = slot_addr(bus, i);
    assert((a & 0xFFFF_FFFF_FFFF_FFF0u64) >> 4u64 == a >> 4u64) by (bit_vector);
    assert((a & 0xFFFF_FFFF_FFFF_FFF0u64) & 0xFu64 == 0) by (bit_vector);
}

/// What delivering `e` does to the waiter cells: a Command Completion fills
/// the cell keyed by the command TRB it names, if there is one; anything
/// else leaves the cells as they are.
pub open spec fn deliver_one(m: Map<u64, Option<TrbData>>, e: TrbData) -> Map<u64, Option<TrbData>> {
    if e.spec_trb_type() == TRB_TYPE_COMMAND_COMPLETION && m.contains_key(
        e.spec_command_trb_pointer(),
    ) {
        m.insert(e.spec_command_trb_pointer(), Some(e))
    } else {
        m
    }
}

/// The waiter cells after delivering `events` in order.
pub open spec fn delivered(m: Map<u64, Option<TrbData>>, events: Seq<TrbData>) -> Map<
    u64,
    Option<TrbData>,
>
    decreases events.len(),
{
    if events.len() == 0 {
        m
    } else {
        deliver_one(delivered(m, events.drop_last()), events.last())
    }
}

/// A waiter's life: registering creates exactly one cell for the address,
/// a completion fills that same cell without adding any, and taking the
/// result removes it, leaving every other cell as it was.
pub proof fn lemma_waiter_lifecycle(m: Map<u64, Option<TrbData>>, a: u64, t: TrbData)
    ensures
        m.insert(a, None).contains_key(a),
        m.insert(a, None)[a] is None,
        m.insert(a, None).dom() == m.dom().insert(a),
        m.insert(a, None).insert(a, Some(t)).dom() == m.insert(a, None).dom(),
        m.insert(a, None).insert(a, Some(t))[a] == Some(t),
        m.insert(a, None).insert(a, Some(t)).remove(a) == m.remove(a),
{
    assert(m.insert(a, None).insert(a, Some(t)).remove(a) =~= m.remove(a));
    assert(m.insert(a, None).dom() =~= m.dom().insert(a));
    assert(m.insert(a, None).insert(a, Some(t)).dom() =~= m.insert(a, None).dom());
}

/// A Command Completion naming the address a waiter is registered under
/// fills that waiter's cell with itself.
pub proof fn lemma_completion_reaches_waiter(m: Map<u64, Option<TrbData>>, a: u64, e: TrbData)
    requires
        m.contains_key(a),
        e.spec_trb_type() == TRB_TYPE_COMMAND_COMPLETION,
        e.spec_command_trb_pointer() == a,
    ensures
        deliver_one(m, e)[a] == Some(e),
        deliver_one(m, e).dom() == m.dom(),
{
    assert(deliver_one(m, e).dom() =~= m.dom());
}

/// Draining never adds or removes a waiter, and a cell changes only to hold
/// a Command Completion that names its own key.
pub proof fn lemma_delivered_cells(m: Map<u64, Option<TrbData>>, events: Seq<TrbData>)
    ensures
        delivered(m, events).dom() == m.dom(),
        forall|a: u64|
            #[trigger] delivered(m, events).contains_key(a) ==> delivered(m, events)[a] == m[a]
                || (delivered(m, events)[a] matches Some(e) && e.spec_trb_type()
                == TRB_TYPE_COMMAND_COMPLETION && e.spec_command_trb_pointer() == a),
    decreases events.len(),
{
    if events.len() > 0 {
        lemma_delivered_cells(m, events.drop_last());
        let d = delivered(m, events.drop_last());
        assert(deliver_one(d, events.last()).dom() =~= d.dom());
    }
}

/// Completion cells keyed by the bus address of the command TRB they wait
/// for. Once the controller has failed, every registered waiter resolves
/// to `ControllerFailed`.
pub struct Waiters {
    pub map: BTreeMap<u64, Option<TrbData>>,
    pub failed: bool,
}

impl Waiters {
    pub open spec fn view(&self) -> Map<u64, Option<TrbData>> {
        self.map@
    }

    /// What taking the result for `a` yields: `ControllerFailed` for a
    /// registered waiter once the controller failed, otherwise the filled
    /// cell's event, and nothing for an empty or absent cell.
    pub open spec fn spec_take(&self, a: u64) -> Option<Result<TrbData, USBError>> {
        if !self.view().contains_key(a) {
            None
        } else if self.failed {
            Some(Err(USBError::ControllerFailed))
        } else {
            match self.view()[a] {
                Some(t) => Some(Ok(t)),
                None => None,
            }
        }
    }

    /// No waiters.
    pub fn new() -> (r: Waiters)
        ensures
            r.view() == Map::<u64, Option<TrbData>>::empty(),
            !r.failed,
    {
        Waiters { map: BTreeMap::new(), failed: false }
    }

    /// Registers an empty cell for the command TRB at `trb_addr`.
    pub fn insert(&mut self, trb_addr: u64)
        ensures
            final(self).view() == old(self).view().insert(trb_addr, None),
            final(self).failed == old(self).failed,
    {
        self.map.insert(trb_addr, None);
    }

    /// Whether a cell exists for `trb_addr`.
    pub fn contains(&self, trb_addr: u64) -> (r: bool)
        ensures
            r == self.view().contains_key(trb_addr),
    {
        self.map.contains_key(&trb_addr)
    }

    /// Number of registered cells.
    pub fn len(&self) -> (r: usize)
        ensures
            r == self.view().len(),
    {
        self.map.len()
    }

    /// Fills the cell of `trb_addr` with `event`, if there is one; returns
    /// whether it did. An event that nobody waits for is dropped.
    pub fn complete(&mut self, trb_addr: u64, event: TrbData) -> (r: bool)
        ensures
            r == old(self).view().contains_key(trb_addr),
            r ==> final(self).view() == old(self).view().insert(trb_addr, Some(event)),
            !r ==> final(self).view() == old(self).view(),
            final(self).failed == old(self).failed,
    {
        if self.map.contains_key(&trb_addr) {
            self.map.insert(trb_addr, Some(event));
            true
        } else {
            false
        }
    }

    /// Resolves every outstanding waiter, now and later, with `ControllerFailed`.
    pub fn fail_all(&mut self)
        ensures
            final(self).view() == old(self).view(),
            final(self).failed,
            forall|a: u64|
                old(self).view().contains_key(a) ==> #[trigger] final(self).spec_take(a) == Some(
                    Err::<TrbData, USBError>(USBError::ControllerFailed),
                ),
    {
        self.failed = true;
    }

    /// The result for `trb_addr` once it is there (see `spec_take`), removing
    /// its cell; `None`, with nothing changed, while it is not.
    pub fn take(&mut self, trb_addr: u64) -> (r: Option<Result<TrbData, USBError>>)
        ensures
            r == old(self).spec_take(trb_addr),
            r is Some ==> final(self).view() == old(self).view().remove(trb_addr),
            r is None ==> final(self).view() == old(self).view(),
            final(self).failed == old(self).failed,
    {
        let cell: Option<Option<TrbData>> = match self.map.get(&trb_addr) {
            Some(c) => Some(*c),
            None => None,
        };
        match cell {
            None => None,
            Some(c) => {
                if self.failed {
                    self.map.remove(&trb_addr);
                    Some(Err(USBError::ControllerFailed))
                } else {
                    match c {
                        Some(ev) => {
                            self.map.remove(&trb_addr);
                            Some(Ok(ev))
                        },
                        None => None,
                    }
                }
            },
        }
    }
}

/// The consumer side of the event ring.
pub struct EventRing {
    pub ring: Ring,
    /// The segment table, `STE_WORDS` words per entry.
    pub ste: DVec<u64>,
    pub results: Waiters,
}

impl EventRing {
    pub open spec fn wf(&self) -> bool {
        &&& self.ring.wf()
        &&& !self.ring.link
        &&& u64_vec_len(self.ste) == STE_WORDS
        &&& u64_vec_view(self.ste).len() == STE_WORDS
        &&& usable_bus(u64_vec_bus(self.ste), 64)
    }

    /// Allocates the 256-TRB segment and its one-entry segment table (both
    /// 64-byte aligned, bidirectional), and points the entry at the segment.
    /// The consumer expects cycle 1 first. A table whose bus address is zero
    /// or misaligned counts as a failed allocation.
    pub fn new() -> (r: Result<EventRing, USBError>)
        ensures
            r matches Ok(ev) ==> {
                &&& ev.wf()
                &&& ev.ring.capacity() == EVENT_RING_SIZE
                &&& ev.ring.slots() == zero_slots(EVENT_RING_SIZE as nat)
                &&& ev.ring.i == 0
                &&& ev.ring.cycle
                &&& ev.results.view().is_empty()
                &&& !ev.results.failed
                &&& u64_vec_view(ev.ste)[0] == ev.ring.spec_bus_addr()
                &&& u64_vec_view(ev.ste)[1] == EVENT_RING_SIZE
                &&& trb_vec_align(ev.ring.trbs) == 64
                &&& trb_vec_direction(ev.ring.trbs) == Direction::Bidirectional
                &&& u64_vec_align(ev.ste) == 64
                &&& u64_vec_direction(ev.ste) == Direction::Bidirectional
            },
            r matches Err(e) ==> e == USBError::NoMemory,
    {
        let ring = Ring::new_consumer(EVENT_RING_SIZE, Direction::Bidirectional)?;
        proof {
            lemma_standard_aligns();
        }
        let mut ste = match u64_vec_zeros(STE_WORDS, 64, Direction::Bidirectional) {
            Some(v) => v,
            None => {
                return Err(USBError::NoMemory);
            },
        };
        let ste_bus = u64_vec_bus_addr(&ste);
        if ste_bus == 0 || ste_bus % 64 != 0 {
            return Err(USBError::NoMemory);
        }
        let entry = EventRingSte::new(ring.bus_addr(), ring.len() as u16);
        let words = entry.to_words();
        u64_vec_set(&mut ste, 0, words[0]);
        u64_vec_set(&mut ste, 1, words[1]);
        Ok(EventRing { ring, ste, results: Waiters::new() })
    }

    /// Registers a waiter for the command TRB at `trb_addr`; must come before
    /// the doorbell that submits it.
    pub fn wait_result(&mut self, trb_addr: u64)
        ensures
            final(self).ring == old(self).ring,
            final(self).ste == old(self).ste,
            final(self).results.view() == old(self).results.view().insert(trb_addr, None),
            final(self).results.failed == old(self).results.failed,
    {
        self.results.insert(trb_addr);
    }

    /// One poll of a waiter: its result if it is there (see `Waiters::take`).
    pub fn poll_result(&mut self, trb_addr: u64) -> (r: Option<Result<TrbData, USBError>>)
        ensures
            final(self).ring == old(self).ring,
            final(self).ste == old(self).ste,
            r == old(self).results.spec_take(trb_addr),
            r is Some ==> final(self).results.view() == old(self).results.view().remove(
                trb_addr,
            ),
            r is None ==> final(self).results.view() == old(self).results.view(),
            final(self).results.failed == old(self).results.failed,
    {
        self.results.take(trb_addr)
    }

    /// Consumes `trb`, read from the dequeue slot, if its cycle bit is the one
    /// the consumer expects: advances the dequeue index and returns the TRB and
    /// whether the index wrapped. Otherwise the TRB is not yet valid and
    /// nothing changes.
    pub fn accept(&mut self, trb: TrbData) -> (r: Option<(TrbData, bool)>)
        requires
            old(self).wf(),
        ensures
            final(self).wf(),
            final(self).ste == old(self).ste,
            final(self).results == old(self).results,
            final(self).ring.trbs == old(self).ring.trbs,
            final(self).ring.link == old(self).ring.link,
            r is Some <==> trb.spec_cycle_bit() == old(self).ring.cycle,
            r matches Some(p) ==> {
                &&& p.0 == trb
                &&& (final(self).ring.i as nat, final(self).ring.cycle) == step(
                    old(self).ring.period(),
                    old(self).ring.i as nat,
                    old(self).ring.cycle,
                )
                &&& p.1 == (final(self).ring.i == 0)
            },
            r is None ==> final(self).ring == old(self).ring,
    {
        if trb.cycle_bit() != self.ring.cycle {
            return None;
        }
        full_fence();
        let wrapped = self.ring.inc_deque();
        Some((trb, wrapped))
    }

    /// Reads the slot at the dequeue index and consumes it if it is valid
    /// (see `accept`).
    pub fn next(&mut self) -> (r: Option<(TrbData, bool)>)
        requires
            old(self).wf(),
        ensures
            final(self).wf(),
            final(self).ste == old(self).ste,
            final(self).results == old(self).results,
            final(self).ring.trbs == old(self).ring.trbs,
            final(self).ring.link == old(self).ring.link,
            r matches Some(p) ==> {
                &&& p.0.spec_cycle_bit() == old(self).ring.cycle
                &&& (final(self).ring.i as nat, final(self).ring.cycle) == step(
                    old(self).ring.period(),
                    old(self).ring.i as nat,
                    old(self).ring.cycle,
                )
                &&& p.1 == (final(self).ring.i == 0)
            },
            r is None ==> final(self).ring == old(self).ring,
    {
        let (trb, _expected) = self.ring.current_data();
        self.accept(trb)
    }

    /// Hands one consumed event to its consumer (see `deliver_one`). Returns
    /// whether a waiter was filled.
    pub fn deliver(&mut self, event: TrbData) -> (r: bool)
        ensures
            final(self).ring == old(self).ring,
            final(self).ste == old(self).ste,
            r == (event.spec_trb_type() == TRB_TYPE_COMMAND_COMPLETION
                && old(self).results.view().contains_key(event.spec_command_trb_pointer())),
            final(self).results.view() == deliver_one(old(self).results.view(), event),
            final(self).results.failed == old(self).results.failed,
    {
        if event.trb_type() == TRB_TYPE_COMMAND_COMPLETION {
            let addr = event.command_trb_pointer();
            self.results.complete(addr, event)
        } else {
            false
        }
    }

    /// Consumes every valid event, at most one pass of the ring, delivering
    /// each in order. Returns the events consumed, the `k`-th of which carried
    /// the cycle bit expected at that position, and the TRB that ended the
    /// drain: read at the new dequeue index with a stale cycle bit. It is
    /// `None` only after a full pass. With none pending, nothing changes.
    pub fn clean_events(&mut self) -> (r: (Vec<TrbData>, Option<TrbData>))
        requires
            old(self).wf(),
        ensures
            final(self).wf(),
            final(self).ste == old(self).ste,
            final(self).ring.trbs == old(self).ring.trbs,
            final(self).ring.link == old(self).ring.link,
            r.0@.len() <= old(self).ring.capacity(),
            (final(self).ring.i as nat, final(self).ring.cycle) == steps(
                old(self).ring.period(),
                old(self).ring.i as nat,
                old(self).ring.cycle,
                r.0@.len(),
            ),
            forall|k: int|
                0 <= k < r.0@.len() ==> #[trigger] r.0@[k].spec_cycle_bit() == steps(
                    old(self).ring.period(),
                    old(self).ring.i as nat,
                    old(self).ring.cycle,
                    k as nat,
                ).1,
            r.1 matches Some(t) ==> t.spec_cycle_bit() != final(self).ring.cycle,
            r.1 is None ==> r.0@.len() == old(self).ring.capacity(),
            final(self).results.view() == delivered(old(self).results.view(), r.0@),
            final(self).results.failed == old(self).results.failed,
            r.0@.len() == 0 ==> final(self).ring == old(self).ring && final(self).results
                == old(self).results,
    {
        let cap = self.ring.len();
        let mut events: Vec<TrbData> = Vec::new();
        let mut n: usize = 0;
        while n < cap
            invariant
                self.wf(),
                self.ste == old(self).ste,
                self.ring.trbs == old(self).ring.trbs,
                self.ring.link == old(self).ring.link,
                cap == self.ring.capacity(),
                n <= cap,
                events@.len() == n,
                (self.ring.i as nat, self.ring.cycle) == steps(
                    old(self).ring.period(),
                    old(self).ring.i as nat,
                    old(self).ring.cycle,
                    n as nat,
                ),
                forall|k: int|
                    0 <= k < n ==> #[trigger] events@[k].spec_cycle_bit() == steps(
                        old(self).ring.period(),
                        old(self).ring.i as nat,
                        old(self).ring.cycle,
                        k as nat,
                    ).1,
                self.results.view() == delivered(old(self).results.view(), events@),
                self.results.failed == old(self).results.failed,
                n == 0 ==> self.ring == old(self).ring && self.results == old(self).results,
            decreases cap - n,
        {
            let (read, _expected) = self.ring.current_data();
            match self.accept(read) {
                Some((event, _wrapped)) => {
                    self.deliver(event);
                    let ghost before = events@;
                    events.push(event);
                    proof {
                        assert(events@.drop_last() =~= before);
                    }
                    n = n + 1;
                },
                None => {
                    return (events, Some(read));
                },
            }
        }
        (events, None)
    }

    /// The value ERDP is first programmed with: the ring's bus address,
    /// reserved low bits cleared.
    pub fn erdp(&self) -> (r: u64)
        ensures
            r == self.ring.spec_bus_addr() & POINTER_MASK,
    {
        self.ring.bus_addr() & POINTER_MASK
    }

    /// The dequeue pointer to write back after a drain: the bus address of
    /// the next slot to consume, reserved low bits cleared.
    pub fn dequeue_pointer(&self) -> (r: u64)
        requires
            self.wf(),
        ensures
            r == dequeue_pointer(self.ring.spec_bus_addr(), self.ring.i as nat),
    {
        dequeue_pointer_at(self.ring.bus_addr(), self.ring.i)
    }

    /// Bus address of the segment table.
    pub fn erstba(&self) -> (r: u64)
        ensures
            r == u64_vec_bus(self.ste),
    {
        u64_vec_bus_addr(&self.ste)
    }

    /// Number of segment-table entries.
    pub fn len(&self) -> (r: usize)
        requires
            self.wf(),
        ensures
            r == 1,
    {
        u64_vec_length(&self.ste) / STE_WORDS
    }
}

} // verus!
