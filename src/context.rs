//! The Device Context Base Address Array, per-slot device contexts and scratchpads.
use dma_api::{DBox, DVec};
use vstd::prelude::*;
use xhci::context::{Device64Byte, Input64Byte};

use crate::dma::{
    input_context_align, input_context_direction, input_context_zero, input_context_zero_filled,
    output_context_align, output_context_bus, output_context_bus_addr, output_context_direction,
    output_context_zero, output_context_zero_filled,
    byte_vec_align, byte_vec_bus, byte_vec_bus_addr, byte_vec_direction, byte_vec_len,
    byte_vec_zero_filled, byte_vec_zeros, is_pow2, lemma_standard_aligns, u64_vec_align,
    u64_vec_bus, u64_vec_bus_addr, u64_vec_direction, u64_vec_len, u64_vec_set, u64_vec_view,
    u64_vec_zeros, usable_bus, Direction,
};
use crate::err::USBError;
use crate::ring::Ring;

verus! {

/// Entries of the DCBAA: slot 0 for scratchpads, then one per device slot.
pub const DCBAA_LEN: usize = 256;

/// Largest scratchpad count the controller can advertise (a 10-bit field).
pub const MAX_SCRATCHPADS: usize = 1023;

/// A slot id the controller accepts: `1..=max_slots`.
pub open spec fn slot_in_range(slot: int, max_slots: int) -> bool {
    1 <= slot <= max_slots
}

/// Checks a slot id against the advertised slot count.
pub fn check_slot(slot: usize, max_slots: usize) -> (r: Result<(), USBError>)
    ensures
        r is Ok <==> slot_in_range(slot as int, max_slots as int),
        r matches Err(e) ==> e == USBError::SlotLimitReached,
{
    if slot == 0 || slot > max_slots {
        Err(USBError::SlotLimitReached)
    } else {
        Ok(())
    }
}

/// The DCBAA after scratchpad setup with `count` buffers whose pointer array
/// is at `array_bus`: entry 0 holds that address when there are any.
pub open spec fn after_scratchpad_setup(dcbaa: Seq<u64>, count: nat, array_bus: u64) -> Seq<u64> {
    if count > 0 {
        dcbaa.update(0, array_bus)
    } else {
        dcbaa
    }
}

/// Starting from a DCBAA whose entry 0 is zero, entry 0 is non-zero after
/// scratchpad setup exactly when the controller asked for scratchpads. The
/// pointer array is at a non-zero bus address whenever there is one, as
/// `ScratchpadBufferArray::wf` states.
pub proof fn lemma_scratchpad_entry_iff_required(dcbaa: Seq<u64>, count: nat, array_bus: u64)
    requires
        dcbaa.len() == DCBAA_LEN,
        dcbaa[0] == 0,
        count > 0 ==> array_bus != 0,
    ensures
        (after_scratchpad_setup(dcbaa, count, array_bus)[0] != 0) <==> count > 0,
{
}

/// A scratchpad page as handed to the controller: zero-filled, `page_size`
/// bytes, allocated page-aligned at a non-zero, page-aligned bus address.
pub open spec fn page_ok(p: DVec<u8>, page_size: nat) -> bool {
    &&& byte_vec_len(p) == page_size
    &&& byte_vec_zero_filled(p)
    &&& byte_vec_align(p) == page_size
    &&& byte_vec_direction(p) == Direction::Bidirectional
    &&& usable_bus(byte_vec_bus(p), page_size as int)
}

/// Memory loaned to the controller: an array of page pointers and the pages.
pub struct ScratchpadBufferArray {
    pub entries: DVec<u64>,
    pub pages: Vec<DVec<u8>>,
}

impl ScratchpadBufferArray {
    pub open spec fn wf(&self, page_size: nat) -> bool {
        &&& u64_vec_len(self.entries) == self.pages.len()
        &&& u64_vec_view(self.entries).len() == self.pages.len()
        &&& u64_vec_align(self.entries) == 4096
        &&& u64_vec_direction(self.entries) == Direction::Bidirectional
        &&& usable_bus(u64_vec_bus(self.entries), 4096)
        &&& forall|k: int|
            0 <= k < self.pages.len() ==> {
                &&& #[trigger] u64_vec_view(self.entries)[k] == byte_vec_bus(self.pages[k])
                &&& page_ok(self.pages[k], page_size)
            }
    }

    /// Allocates a 4 KiB-aligned array of `count` pointers and `count` zeroed,
    /// page-aligned pages of `page_size` bytes, and fills the array with the
    /// pages' bus addresses. A buffer whose bus address is zero or misaligned
    /// counts as a failed allocation.
    pub fn new(count: usize, page_size: usize) -> (r: Result<ScratchpadBufferArray, USBError>)
        requires
            0 < count <= MAX_SCRATCHPADS,
            is_pow2(page_size),
            2 * page_size <= isize::MAX,
        ensures
            r matches Ok(s) ==> s.wf(page_size as nat) && s.pages.len() == count,
            r matches Err(e) ==> e == USBError::NoMemory,
    {
        proof {
            lemma_standard_aligns();
        }
        let mut entries = match u64_vec_zeros(count, 4096, Direction::Bidirectional) {
            Some(v) => v,
            None => {
                return Err(USBError::NoMemory);
            },
        };
        let array_bus = u64_vec_bus_addr(&entries);
        if array_bus == 0 || array_bus % 4096 != 0 {
            return Err(USBError::NoMemory);
        }
        let mut pages: Vec<DVec<u8>> = Vec::new();
        let mut j: usize = 0;
        while j < count
            invariant
                j <= count,
                is_pow2(page_size),
                2 * page_size <= isize::MAX,
                pages.len() == j,
                u64_vec_len(entries) == count,
                u64_vec_view(entries).len() == count,
                u64_vec_align(entries) == 4096,
                u64_vec_direction(entries) == Direction::Bidirectional,
                usable_bus(u64_vec_bus(entries), 4096),
                forall|k: int|
                    0 <= k < j ==> {
                        &&& #[trigger] u64_vec_view(entries)[k] == byte_vec_bus(pages[k])
                        &&& page_ok(pages[k], page_size as nat)
                    },
            decreases count - j,
        {
            let page = match byte_vec_zeros(page_size, page_size, Direction::Bidirectional) {
                Some(p) => p,
                None => {
                    return Err(USBError::NoMemory);
                },
            };
            let bus = byte_vec_bus_addr(&page);
            if bus == 0 || bus % (page_size as u64) != 0 {
                return Err(USBError::NoMemory);
            }
            u64_vec_set(&mut entries, j, bus);
            pages.push(page);
            j = j + 1;
        }
        Ok(ScratchpadBufferArray { entries, pages })
    }

    /// Bus address of the pointer array.
    pub fn bus_addr(&self) -> (r: u64)
        ensures
            r == u64_vec_bus(self.entries),
    {
        u64_vec_bus_addr(&self.entries)
    }
}

/// The memory of one enabled device slot.
pub struct DeviceContext {
    pub slot: usize,
    /// Output Device Context (to-device, written back by the controller).
    pub out: DBox<Device64Byte>,
    /// Input Context (from-device).
    pub input: DBox<Input64Byte>,
    pub transfer_rings: Vec<Ring>,
}

impl DeviceContext {
    /// Allocates the zero-filled, 64-byte-aligned contexts of `slot`: the
    /// Output Device Context to-device, the Input Context from-device.
    fn new(slot: usize) -> (r: Result<DeviceContext, USBError>)
        ensures
            r matches Ok(c) ==> {
                &&& c.slot == slot
                &&& c.transfer_rings.len() == 0
                &&& output_context_zero_filled(c.out)
                &&& output_context_direction(c.out) == Direction::ToDevice
                &&& output_context_align(c.out) == 64
                &&& input_context_zero_filled(c.input)
                &&& input_context_direction(c.input) == Direction::FromDevice
                &&& input_context_align(c.input) == 64
            },
            r matches Err(e) ==> e == USBError::NoMemory,
    {
        let out = match output_context_zero(Direction::ToDevice, 64) {
            Some(v) => v,
            None => {
                return Err(USBError::NoMemory);
            },
        };
        let input = match input_context_zero(Direction::FromDevice, 64) {
            Some(v) => v,
            None => {
                return Err(USBError::NoMemory);
            },
        };
        Ok(DeviceContext { slot, out, input, transfer_rings: Vec::new() })
    }
}

/// The DCBAA and the contexts of the enabled slots.
pub struct DeviceContextList {
    pub dcbaa: DVec<u64>,
    pub device_context_list: Vec<DeviceContext>,
    pub max_slots: usize,
}

impl DeviceContextList {
    pub open spec fn dcbaa_view(&self) -> Seq<u64> {
        u64_vec_view(self.dcbaa)
    }

    pub open spec fn wf(&self) -> bool {
        &&& u64_vec_len(self.dcbaa) == DCBAA_LEN
        &&& self.dcbaa_view().len() == DCBAA_LEN
        &&& self.max_slots < DCBAA_LEN
        &&& u64_vec_align(self.dcbaa) == 4096
        &&& u64_vec_direction(self.dcbaa) == Direction::Bidirectional
        &&& usable_bus(u64_vec_bus(self.dcbaa), 4096)
    }

    /// Allocates a zeroed, 4 KiB-aligned, bidirectional DCBAA of 256 entries.
    /// A table whose bus address is zero or misaligned counts as a failed
    /// allocation.
    pub fn new(max_slots: usize) -> (r: Result<DeviceContextList, USBError>)
        requires
            max_slots < DCBAA_LEN,
        ensures
            r matches Ok(l) ==> {
                &&& l.wf()
                &&& l.max_slots == max_slots
                &&& l.device_context_list.len() == 0
                &&& forall|k: int| 0 <= k < DCBAA_LEN ==> #[trigger] l.dcbaa_view()[k] == 0
            },
            r matches Err(e) ==> e == USBError::NoMemory,
    {
        proof {
            lemma_standard_aligns();
        }
        let dcbaa = match u64_vec_zeros(DCBAA_LEN, 4096, Direction::Bidirectional) {
            Some(v) => v,
            None => {
                return Err(USBError::NoMemory);
            },
        };
        let bus = u64_vec_bus_addr(&dcbaa);
        if bus == 0 || bus % 4096 != 0 {
            return Err(USBError::NoMemory);
        }
        Ok(DeviceContextList { dcbaa, device_context_list: Vec::new(), max_slots })
    }

    /// Enables `slot`: allocates its contexts and writes the Output Device
    /// Context's bus address into `DCBAA[slot]`. A slot outside
    /// `1..=max_slots` is refused with `SlotLimitReached`; an Output Device
    /// Context at a zero or misaligned bus address counts as a failed allocation.
    pub fn new_slot(&mut self, slot: usize, hub: usize, port: usize, num_ep: usize) -> (r: Result<
        (),
        USBError,
    >)
        requires
            old(self).wf(),
        ensures
            final(self).wf(),
            final(self).max_slots == old(self).max_slots,
            r matches Err(e) ==> (e == USBError::SlotLimitReached <==> !slot_in_range(
                slot as int,
                old(self).max_slots as int,
            )),
            r matches Err(e) ==> e == USBError::SlotLimitReached || e == USBError::NoMemory,
            r is Err ==> final(self).dcbaa_view() == old(self).dcbaa_view(),
            r is Err ==> final(self).device_context_list == old(self).device_context_list,
            r is Ok ==> {
                let n = old(self).device_context_list.len();
                let c = final(self).device_context_list[n as int];
                &&& slot_in_range(slot as int, old(self).max_slots as int)
                &&& usable_bus(output_context_bus(c.out), 64)
                &&& final(self).device_context_list.len() == n + 1
                &&& c.slot == slot
                &&& output_context_zero_filled(c.out)
                &&& output_context_direction(c.out) == Direction::ToDevice
                &&& output_context_align(c.out) == 64
                &&& input_context_zero_filled(c.input)
                &&& input_context_direction(c.input) == Direction::FromDevice
                &&& input_context_align(c.input) == 64
                &&& final(self).dcbaa_view() == old(self).dcbaa_view().update(
                    slot as int,
                    output_context_bus(c.out),
                )
            },
    {
        check_slot(slot, self.max_slots)?;
        let ctx = DeviceContext::new(slot)?;
        let bus = output_context_bus_addr(&ctx.out);
        if bus == 0 || bus % 64 != 0 {
            return Err(USBError::NoMemory);
        }
        u64_vec_set(&mut self.dcbaa, slot, bus);
        self.device_context_list.push(ctx);
        Ok(())
    }

    /// Disables `slot`: zeroes `DCBAA[slot]` and releases its contexts.
    pub fn disable_slot(&mut self, slot: usize) -> (r: Result<(), USBError>)
        requires
            old(self).wf(),
        ensures
            final(self).wf(),
            final(self).max_slots == old(self).max_slots,
            r is Ok <==> slot_in_range(slot as int, old(self).max_slots as int),
            r matches Err(e) ==> e == USBError::SlotLimitReached,
            r is Err ==> final(self).dcbaa_view() == old(self).dcbaa_view(),
            r is Ok ==> final(self).dcbaa_view() == old(self).dcbaa_view().update(slot as int, 0),
            r is Ok ==> forall|k: int|
                0 <= k < final(self).device_context_list.len()
                    ==> #[trigger] final(self).device_context_list[k].slot != slot,
    {
        check_slot(slot, self.max_slots)?;
        u64_vec_set(&mut self.dcbaa, slot, 0);
        let mut j: usize = 0;
        while j < self.device_context_list.len()
            invariant
                self.wf(),
                self.max_slots == old(self).max_slots,
                self.dcbaa_view() == old(self).dcbaa_view().update(slot as int, 0),
                j <= self.device_context_list.len(),
                forall|k: int| 0 <= k < j ==> #[trigger] self.device_context_list[k].slot != slot,
            decreases self.device_context_list.len() - j,
        {
            if self.device_context_list[j].slot == slot {
                let _released = self.device_context_list.remove(j);
            } else {
                j = j + 1;
            }
        }
        Ok(())
    }

    /// Sets up `count` scratchpad buffers of `page_size` bytes when the
    /// controller asks for any, and stores the pointer array's bus address
    /// into `DCBAA[0]`. With `count == 0` nothing is allocated or written.
    pub fn setup_scratchpads(&mut self, count: usize, page_size: usize) -> (r: Result<
        Option<ScratchpadBufferArray>,
        USBError,
    >)
        requires
            old(self).wf(),
            count <= MAX_SCRATCHPADS,
            is_pow2(page_size),
            2 * page_size <= isize::MAX,
        ensures
            final(self).wf(),
            final(self).max_slots == old(self).max_slots,
            final(self).device_context_list == old(self).device_context_list,
            count == 0 ==> (r matches Ok(None)),
            count == 0 ==> final(self).dcbaa_view() == old(self).dcbaa_view(),
            r is Err ==> final(self).dcbaa_view() == old(self).dcbaa_view(),
            r matches Err(e) ==> e == USBError::NoMemory,
            r matches Ok(Some(s)) ==> {
                &&& count > 0
                &&& s.wf(page_size as nat)
                &&& s.pages.len() == count
                &&& final(self).dcbaa_view() == after_scratchpad_setup(
                    old(self).dcbaa_view(),
                    count as nat,
                    u64_vec_bus(s.entries),
                )
            },
            count > 0 && r is Ok ==> (r matches Ok(Some(_))),
    {
        if count == 0 {
            return Ok(None);
        }
        let arr = ScratchpadBufferArray::new(count, page_size)?;
        let bus = arr.bus_addr();
        u64_vec_set(&mut self.dcbaa, 0, bus);
        Ok(Some(arr))
    }

    /// Bus address of the DCBAA.
    pub fn bus_addr(&self) -> (r: u64)
        ensures
            r == u64_vec_bus(self.dcbaa),
    {
        u64_vec_bus_addr(&self.dcbaa)
    }
}

} // verus!
