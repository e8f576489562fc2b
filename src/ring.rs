//! Fixed-capacity TRB rings with cycle-bit and link-TRB discipline.
use dma_api::DVec;
use vstd::arithmetic::div_mod::{
    lemma_fundamental_div_mod, lemma_fundamental_div_mod_converse, lemma_mod_mod,
    lemma_mod_multiples_vanish,
};
use vstd::prelude::*;

use crate::dma::{
    lemma_standard_aligns, trb_vec_align, trb_vec_direction, usable_bus,     full_fence, trb_vec_bus, trb_vec_bus_addr, trb_vec_get, trb_vec_len, trb_vec_length,
    trb_vec_set, trb_vec_view, trb_vec_zeros, Direction,
};
use crate::err::USBError;
use crate::trb::{
    link_words, pointer_of, type_of, with_cycle_word, TrbData, POINTER_MASK, TRB_TYPE_LINK,
};

verus! {

/// A ring capacity: a power of two from 16 to 4096.
pub open spec fn valid_capacity(n: int) -> bool {
    n == 16 || n == 32 || n == 64 || n == 128 || n == 256 || n == 512 || n == 1024 || n == 2048
        || n == 4096
}

/// Number of slots a producer or consumer cycles through: the last slot is
/// reserved for the Link TRB when there is one.
pub open spec fn period(cap: nat, link: bool) -> nat {
    if link {
        (cap - 1) as nat
    } else {
        cap
    }
}

/// Position and cycle state after one produced or consumed TRB.
pub open spec fn step(p: nat, i: nat, c: bool) -> (nat, bool) {
    if i + 1 >= p {
        (0, !c)
    } else {
        (i + 1, c)
    }
}

/// Position and cycle state after `k` produced or consumed TRBs.
pub open spec fn steps(p: nat, i: nat, c: bool, k: nat) -> (nat, bool)
    decreases k,
{
    if k == 0 {
        (i, c)
    } else {
        let s = steps(p, i, c, (k - 1) as nat);
        step(p, s.0, s.1)
    }
}

/// Bus address of slot `i` of a ring based at `bus`, modulo 2^64.
pub open spec fn slot_addr(bus: u64, i: nat) -> u64 {
    ((bus + 16 * i) % 0x1_0000_0000_0000_0000) as u64
}

/// Slot addresses of a 64-byte-aligned ring are 16-byte aligned, so they
/// survive the clearing of a TRB pointer's reserved low bits.
pub proof fn lemma_slot_addr_aligned(bus: u64, i: nat)
    requires
        bus % 64 == 0,
    ensures
        slot_addr(bus, i) % 16 == 0,
        slot_addr(bus, i) & POINTER_MASK == slot_addr(bus, i),
{
    let x = bus + 16 * i;
    let q = bus / 64;
    lemma_fundamental_div_mod(bus as int, 64);
    assert(x == 16 * (4 * q + i) + 0) by (nonlinear_arith)
        requires
            bus == 64 * q + 0,
            x == bus + 16 * i,
    ;
    lemma_mod_multiples_vanish(4 * q + i, 0, 16);
    lemma_mod_mod(x, 16, 0x1000_0000_0000_0000);
    let a = slot_addr(bus, i);
    assert(a % 16 == 0 ==> a & 0xFFFF_FFFF_FFFF_FFF0u64 == a) by (bit_vector);
}

/// `n` all-zero slots.
pub open spec fn zero_slots(n: nat) -> Seq<[u32; 4]> {
    Seq::new(n, |j: int| [0u32, 0u32, 0u32, 0u32])
}

/// `l` is a Link TRB to `bus` (Toggle Cycle set), with either cycle bit.
pub open spec fn is_link_to(l: [u32; 4], bus: u64) -> bool {
    let w = link_words(bus);
    &&& l[0] == w[0]
    &&& l[1] == w[1]
    &&& l[2] == w[2]
    &&& with_cycle_word(l[3], false) == w[3]
}

/// The Link TRB to `bus`, as built or handed over with cycle bit `c`, is a
/// Link TRB to `bus`.
pub proof fn lemma_link_with_cycle(bus: u64, c: bool)
    ensures
        is_link_to(link_words(bus), bus),
        is_link_to(TrbData(link_words(bus)).spec_with_cycle(c).0, bus),
{
    let w3 = link_words(bus)[3];
    assert(w3 == (6u32 << 10u32) | 2);
    assert((((6u32 << 10u32) | 2) | 1) & 0xFFFF_FFFE == (6u32 << 10u32) | 2) by (bit_vector);
    assert((((6u32 << 10u32) | 2) & 0xFFFF_FFFE) & 0xFFFF_FFFE == (6u32 << 10u32) | 2)
        by (bit_vector);
    assert(((6u32 << 10u32) | 2) & 0xFFFF_FFFE == (6u32 << 10u32) | 2) by (bit_vector);
}

/// The next position and cycle state of a ring of `period` slots.
pub fn next_position(period: usize, i: usize, cycle: bool) -> (r: (usize, bool))
    requires
        i < period,
    ensures
        (r.0 as nat, r.1) == step(period as nat, i as nat, cycle),
        r.0 < period,
{
    if i + 1 >= period {
        (0, !cycle)
    } else {
        (i + 1, cycle)
    }
}

/// Closed form of the ring position: after `k` TRBs from slot `i` with cycle
/// `c`, the position is `(i + k) mod p` and the cycle is `c` flipped once for
/// every completed pass, that is `c XOR ((i + k) / p) mod 2`.
pub proof fn lemma_steps_closed_form(p: nat, i: nat, c: bool, k: nat)
    requires
        p > 0,
        i < p,
    ensures
        steps(p, i, c, k) == ((((i + k) as int % (p as int)) as nat), c != (((i + k) as int / (p as int)) % 2
            == 1)),
    decreases k,
{
    if k == 0 {
        lemma_fundamental_div_mod_converse(i as int, p as int, 0, i as int);
    } else {
        let k1 = (k - 1) as nat;
        lemma_steps_closed_form(p, i, c, k1);
        let x = (i + k1) as int;
        let q = x / (p as int);
        let r = x % (p as int);
        lemma_fundamental_div_mod(x, p as int);
        assert(x == q * p + r) by (nonlinear_arith)
            requires
                x == p * q + r,
        ;
        assert(0 <= r < p);
        if r + 1 >= p {
            assert(x + 1 == (q + 1) * p + 0) by (nonlinear_arith)
                requires
                    x == q * p + r,
                    r + 1 == p,
            ;
            lemma_fundamental_div_mod_converse(x + 1, p as int, q + 1, 0);
            assert((q + 1) % 2 == 1 <==> !(q % 2 == 1));
        } else {
            assert(x + 1 == q * p + (r + 1));
            lemma_fundamental_div_mod_converse(x + 1, p as int, q, r + 1);
        }
    }
}

/// After filling every usable slot of a ring from slot 0, the producer has
/// passed through the wrap exactly once: every earlier TRB went out with the
/// initial cycle, and the next one goes to slot 0 with the cycle toggled.
pub proof fn lemma_fill_then_wrap(p: nat, c: bool)
    requires
        p > 0,
    ensures
        forall|k: nat| k < p ==> #[trigger] steps(p, 0, c, k) == (k, c),
        steps(p, 0, c, p) == (0nat, !c),
{
    assert forall|k: nat| k < p implies #[trigger] steps(p, 0, c, k) == (k, c) by {
        lemma_steps_closed_form(p, 0, c, k);
        lemma_fundamental_div_mod_converse(k as int, p as int, 0, k as int);
    }
    lemma_steps_closed_form(p, 0, c, p);
    lemma_fundamental_div_mod_converse(p as int, p as int, 1, 0);
}

/// In a well-formed ring with a Link TRB, the last slot holds that Link TRB,
/// with Toggle Cycle set, and its segment pointer is the ring's bus address.
pub proof fn lemma_link_slot(r: Ring)
    requires
        r.wf(),
        r.link,
    ensures
        type_of(r.slots()[r.capacity() - 1][3]) == TRB_TYPE_LINK,
        r.slots()[r.capacity() - 1][3] & 2 == 2,
        pointer_of(r.slots()[r.capacity() - 1]) == r.spec_bus_addr(),
        r.slots().len() == r.capacity(),
{
    let l = r.slots()[r.capacity() - 1];
    let bus = r.spec_bus_addr();
    let l3 = l[3];
    assert((l3 & 0xFFFF_FFFE) == (6u32 << 10u32) | 2 ==> ((l3 >> 10u32) & 0x3f) == 6u32 && l3 & 2
        == 2) by (bit_vector);
    let lo = l[0];
    let hi = l[1];
    assert(lo == (bus & 0xFFFF_FFF0) as u32 && hi == (bus >> 32u64) as u32 ==> ((((hi as u64)
        << 32u64) | (lo as u64)) & 0xFFFF_FFFF_FFFF_FFF0) == bus & 0xFFFF_FFFF_FFFF_FFF0)
        by (bit_vector);
    lemma_slot_addr_aligned(bus, 0);
}

/// A TRB ring in DMA memory.
pub struct Ring {
    /// Whether the last slot holds a Link TRB back to slot 0.
    pub link: bool,
    pub trbs: DVec<[u32; 4]>,
    /// Enqueue (producer) or dequeue (consumer) index.
    pub i: usize,
    /// Producer cycle state, or the cycle the consumer expects.
    pub cycle: bool,
}

impl Ring {
    pub open spec fn capacity(&self) -> nat {
        trb_vec_len(self.trbs)
    }

    pub open spec fn spec_bus_addr(&self) -> u64 {
        trb_vec_bus(self.trbs)
    }

    pub open spec fn slots(&self) -> Seq<[u32; 4]> {
        trb_vec_view(self.trbs)
    }

    pub open spec fn period(&self) -> nat {
        period(self.capacity(), self.link)
    }

    /// The Link TRB, when present, sits in the last slot and points at the ring base.
    pub open spec fn link_slot_ok(&self) -> bool {
        self.link ==> is_link_to(self.slots()[self.capacity() - 1], self.spec_bus_addr())
    }

    /// The slots of a freshly allocated ring: zero, but for the Link TRB.
    pub open spec fn initial_slots(len: nat, link: bool, bus: u64) -> Seq<[u32; 4]> {
        if link {
            zero_slots(len).update(len - 1, link_words(bus))
        } else {
            zero_slots(len)
        }
    }

    pub open spec fn wf(&self) -> bool {
        &&& valid_capacity(self.capacity() as int)
        &&& usable_bus(self.spec_bus_addr(), 64)
        &&& self.slots().len() == self.capacity()
        &&& self.i < self.period()
        &&& self.link_slot_ok()
    }

    /// Allocates a zeroed ring of `len` slots; with `link`, writes a Link TRB
    /// to the ring base into the last slot. The initial cycle state is `link`.
    /// A buffer whose bus address is not 64-byte aligned counts as a failed
    /// allocation.
    pub fn new(len: usize, link: bool, direction: Direction) -> (r: Result<Ring, USBError>)
        requires
            valid_capacity(len as int),
        ensures
            r matches Ok(ring) ==> {
                &&& ring.wf()
                &&& ring.capacity() == len
                &&& ring.link == link
                &&& ring.i == 0
                &&& ring.cycle == link
                &&& ring.slots() == Ring::initial_slots(len as nat, ring.link, ring.spec_bus_addr())
                &&& trb_vec_align(ring.trbs) == 64
                &&& trb_vec_direction(ring.trbs) == direction
            },
            r matches Err(e) ==> e == USBError::NoMemory,
    {
        Self::with_cycle(len, link, link, direction)
    }

    /// Allocates a zeroed consumer ring (no Link TRB) whose consumer expects cycle 1 first.
    pub fn new_consumer(len: usize, direction: Direction) -> (r: Result<Ring, USBError>)
        requires
            valid_capacity(len as int),
        ensures
            r matches Ok(ring) ==> {
                &&& ring.wf()
                &&& ring.capacity() == len
                &&& !ring.link
                &&& ring.i == 0
                &&& ring.cycle
                &&& ring.slots() == Ring::initial_slots(len as nat, ring.link, ring.spec_bus_addr())
                &&& trb_vec_align(ring.trbs) == 64
                &&& trb_vec_direction(ring.trbs) == direction
            },
            r matches Err(e) ==> e == USBError::NoMemory,
    {
        Self::with_cycle(len, false, true, direction)
    }

    fn with_cycle(len: usize, link: bool, cycle: bool, direction: Direction) -> (r: Result<
        Ring,
        USBError,
    >)
        requires
            valid_capacity(len as int),
        ensures
            r matches Ok(ring) ==> {
                &&& ring.wf()
                &&& ring.capacity() == len
                &&& ring.link == link
                &&& ring.i == 0
                &&& ring.cycle == cycle
                &&& ring.slots() == Ring::initial_slots(len as nat, ring.link, ring.spec_bus_addr())
                &&& trb_vec_align(ring.trbs) == 64
                &&& trb_vec_direction(ring.trbs) == direction
            },
            r matches Err(e) ==> e == USBError::NoMemory,
    {
        proof {
            lemma_standard_aligns();
        }
        let alloc = trb_vec_zeros(len, 64, direction);
        Self::from_allocation(alloc, len, link, cycle)
    }

    /// Builds a ring on a freshly allocated, zeroed buffer of `len` slots.
    /// A failed allocation, or one whose bus address is zero or not 64-byte
    /// aligned, is `NoMemory`.
    pub fn from_allocation(alloc: Option<DVec<[u32; 4]>>, len: usize, link: bool, cycle: bool) -> (r:
        Result<Ring, USBError>)
        requires
            valid_capacity(len as int),
            alloc matches Some(v) ==> trb_vec_len(v) == len && trb_vec_view(v) == zero_slots(
                len as nat,
            ),
        ensures
            r is Err <==> (alloc is None || !usable_bus(trb_vec_bus(alloc->Some_0), 64)),
            r matches Err(e) ==> e == USBError::NoMemory,
            r matches Ok(ring) ==> {
                &&& ring.wf()
                &&& ring.capacity() == len
                &&& ring.link == link
                &&& ring.i == 0
                &&& ring.cycle == cycle
                &&& ring.slots() == Ring::initial_slots(len as nat, ring.link, ring.spec_bus_addr())
                &&& ring.spec_bus_addr() == trb_vec_bus(alloc->Some_0)
                &&& trb_vec_align(ring.trbs) == trb_vec_align(alloc->Some_0)
                &&& trb_vec_direction(ring.trbs) == trb_vec_direction(alloc->Some_0)
            },
    {
        let mut trbs = match alloc {
            Some(v) => v,
            None => {
                return Err(USBError::NoMemory);
            },
        };
        let bus = trb_vec_bus_addr(&trbs);
        if bus == 0 || bus % 64 != 0 {
            return Err(USBError::NoMemory);
        }
        if link {
            let l = TrbData::link(bus);
            trb_vec_set(&mut trbs, len - 1, l.0);
            proof {
                lemma_link_with_cycle(bus, false);
            }
        }
        Ok(Ring { link, trbs, i: 0, cycle })
    }

    /// Number of slots, the Link TRB's slot included.
    pub fn len(&self) -> (r: usize)
        ensures
            r == self.capacity(),
    {
        trb_vec_length(&self.trbs)
    }

    /// Bus address of slot 0.
    pub fn bus_addr(&self) -> (r: u64)
        ensures
            r == self.spec_bus_addr(),
    {
        trb_vec_bus_addr(&self.trbs)
    }

    /// Writes `trb` to the enqueue slot with the producer's cycle bit, advances,
    /// and returns the bus address of the slot written. On reaching the Link
    /// TRB, hands it over with the current cycle, then toggles the cycle and
    /// goes back to slot 0.
    pub fn enqueue(&mut self, trb: TrbData) -> (r: u64)
        requires
            old(self).wf(),
            old(self).link,
        ensures
            final(self).wf(),
            final(self).link,
            final(self).capacity() == old(self).capacity(),
            final(self).spec_bus_addr() == old(self).spec_bus_addr(),
            r == slot_addr(old(self).spec_bus_addr(), old(self).i as nat),
            (final(self).i as nat, final(self).cycle) == step(
                old(self).period(),
                old(self).i as nat,
                old(self).cycle,
            ),
            r % 16 == 0,
            final(self).slots() == (if old(self).i + 1 >= old(self).period() {
                old(self).slots().update(old(self).i as int, trb.spec_with_cycle(old(self).cycle).0).update(
                    old(self).capacity() - 1,
                    TrbData(link_words(old(self).spec_bus_addr())).spec_with_cycle(old(self).cycle).0,
                )
            } else {
                old(self).slots().update(old(self).i as int, trb.spec_with_cycle(old(self).cycle).0)
            }),
    {
        let idx = self.i;
        let cap = trb_vec_length(&self.trbs);
        let bus = trb_vec_bus_addr(&self.trbs);
        let written = trb.with_cycle(self.cycle);
        trb_vec_set(&mut self.trbs, idx, written.0);
        if idx + 1 >= cap - 1 {
            let l = TrbData::link(bus).with_cycle(self.cycle);
            trb_vec_set(&mut self.trbs, cap - 1, l.0);
            proof {
                lemma_link_with_cycle(bus, old(self).cycle);
            }
            self.i = 0;
            self.cycle = !self.cycle;
        } else {
            self.i = idx + 1;
        }
        full_fence();
        proof {
            lemma_slot_addr_aligned(bus, idx as nat);
        }
        bus.wrapping_add(idx as u64 * 16)
    }

    /// The TRB at the current index and the cycle state of the ring.
    pub fn current_data(&self) -> (r: (TrbData, bool))
        requires
            self.wf(),
        ensures
            r.1 == self.cycle,
    {
        let w = trb_vec_get(&self.trbs, self.i);
        let words = match w {
            Some(x) => x,
            None => [0u32, 0u32, 0u32, 0u32],
        };
        (TrbData(words), self.cycle)
    }

    /// Advances the dequeue index, wrapping with a cycle toggle; returns
    /// whether it wrapped.
    pub fn inc_deque(&mut self) -> (r: bool)
        requires
            old(self).wf(),
        ensures
            final(self).wf(),
            final(self).link == old(self).link,
            final(self).trbs == old(self).trbs,
            (final(self).i as nat, final(self).cycle) == step(
                old(self).period(),
                old(self).i as nat,
                old(self).cycle,
            ),
            r == (final(self).i == 0),
    {
        let cap = trb_vec_length(&self.trbs);
        let p = if self.link {
            cap - 1
        } else {
            cap
        };
        let (ni, nc) = next_position(p, self.i, self.cycle);
        self.i = ni;
        self.cycle = nc;
        ni == 0
    }
}

} // verus!
