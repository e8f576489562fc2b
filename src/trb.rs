//! Transfer Request Blocks: 16-byte records of four little-endian words.
use vstd::prelude::*;

verus! {

/// TRB type of a Link TRB.
pub const TRB_TYPE_LINK: u8 = 6;

/// TRB type of an Enable Slot command.
pub const TRB_TYPE_ENABLE_SLOT: u8 = 9;

/// TRB type of a Command Completion event.
pub const TRB_TYPE_COMMAND_COMPLETION: u8 = 33;

/// TRB type of a Port Status Change event.
pub const TRB_TYPE_PORT_STATUS_CHANGE: u8 = 34;

/// Completion code reported for a command that succeeded.
pub const COMPLETION_SUCCESS: u8 = 1;

/// Completion code reported for a malformed TRB.
pub const COMPLETION_TRB_ERROR: u8 = 5;

/// Mask that clears the four reserved low bits of a TRB pointer.
pub const POINTER_MASK: u64 = 0xFFFF_FFFF_FFFF_FFF0;

/// The cycle bit: bit 0 of word 3.
pub open spec fn cycle_of(w3: u32) -> bool {
    w3 & 1 == 1
}

/// The TRB type: bits 10..=15 of word 3.
pub open spec fn type_of(w3: u32) -> u8 {
    ((w3 >> 10u32) & 0x3f) as u8
}

/// Word 3 with its cycle bit replaced by `c` and every other bit kept.
pub open spec fn with_cycle_word(w3: u32, c: bool) -> u32 {
    if c {
        w3 | 1
    } else {
        w3 & 0xFFFF_FFFE
    }
}

/// The 64-bit pointer held in words 0 and 1, reserved low bits cleared.
pub open spec fn pointer_of(w: [u32; 4]) -> u64 {
    (((w[1] as u64) << 32u64) | (w[0] as u64)) & POINTER_MASK
}

/// The words of a Link TRB pointing at `target`, with Toggle Cycle set and cycle bit 0.
pub open spec fn link_words(target: u64) -> [u32; 4] {
    [
        (target & 0xFFFF_FFF0) as u32,
        (target >> 32u64) as u32,
        0,
        ((TRB_TYPE_LINK as u32) << 10u32) | 2,
    ]
}

/// A TRB, kept as its four raw words.
#[derive(Clone, Copy, Debug)]
pub struct TrbData(pub [u32; 4]);

impl TrbData {
    /// A TRB holding the given words.
    pub fn from_raw(words: [u32; 4]) -> (r: TrbData)
        ensures
            r.0 == words,
    {
        TrbData(words)
    }

    /// The four raw words.
    pub fn to_raw(&self) -> (r: [u32; 4])
        ensures
            r == self.0,
    {
        self.0
    }

    pub open spec fn spec_cycle_bit(&self) -> bool {
        cycle_of(self.0[3])
    }

    pub open spec fn spec_trb_type(&self) -> u8 {
        type_of(self.0[3])
    }

    /// The cycle bit.
    pub fn cycle_bit(&self) -> (r: bool)
        ensures
            r == self.spec_cycle_bit(),
    {
        self.0[3] & 1 == 1
    }

    /// The TRB type field.
    pub fn trb_type(&self) -> (r: u8)
        ensures
            r == self.spec_trb_type(),
    {
        ((self.0[3] >> 10u32) & 0x3f) as u8
    }

    pub open spec fn spec_with_cycle(&self, c: bool) -> TrbData {
        TrbData([self.0[0], self.0[1], self.0[2], with_cycle_word(self.0[3], c)])
    }

    /// The same TRB with its cycle bit set to `c`.
    pub fn with_cycle(&self, c: bool) -> (r: TrbData)
        ensures
            r == self.spec_with_cycle(c),
            r.spec_cycle_bit() == c,
            r.spec_trb_type() == self.spec_trb_type(),
    {
        let w3 = self.0[3];
        let n3 = if c {
            w3 | 1
        } else {
            w3 & 0xFFFF_FFFE
        };
        assert(c ==> (w3 | 1) & 1 == 1) by (bit_vector);
        assert(!c ==> (w3 & 0xFFFF_FFFE) & 1 == 0) by (bit_vector);
        assert(((w3 | 1) >> 10u32) & 0x3f == (w3 >> 10u32) & 0x3f) by (bit_vector);
        assert(((w3 & 0xFFFF_FFFE) >> 10u32) & 0x3f == (w3 >> 10u32) & 0x3f) by (bit_vector);
        TrbData([self.0[0], self.0[1], self.0[2], n3])
    }

    /// A Link TRB whose segment pointer is `target` (low four bits cleared),
    /// with Toggle Cycle set and cycle bit 0.
    pub fn link(target: u64) -> (r: TrbData)
        ensures
            r.0 == link_words(target),
            r.spec_trb_type() == TRB_TYPE_LINK,
            pointer_of(r.0) == target & POINTER_MASK,
            !r.spec_cycle_bit(),
    {
        let w3: u32 = ((TRB_TYPE_LINK as u32) << 10u32) | 2;
        assert(((((6u32 << 10u32) | 2) >> 10u32) & 0x3f) == 6u32) by (bit_vector);
        assert(((6u32 << 10u32) | 2) & 1 == 0) by (bit_vector);
        let r = TrbData([(target & 0xFFFF_FFF0) as u32, (target >> 32u64) as u32, 0, w3]);
        assert(((((target >> 32u64) as u32 as u64) << 32u64) | ((target & 0xFFFF_FFF0) as u32
            as u64)) & 0xFFFF_FFFF_FFFF_FFF0 == target & 0xFFFF_FFFF_FFFF_FFF0) by (bit_vector);
        r
    }

    pub open spec fn spec_command_trb_pointer(&self) -> u64 {
        pointer_of(self.0)
    }

    /// The pointer in words 0 and 1: the command TRB address of a Command
    /// Completion event, or the segment pointer of a Link TRB.
    pub fn command_trb_pointer(&self) -> (r: u64)
        ensures
            r == self.spec_command_trb_pointer(),
    {
        (((self.0[1] as u64) << 32u64) | (self.0[0] as u64)) & POINTER_MASK
    }

    pub open spec fn spec_completion_code(&self) -> u8 {
        (self.0[2] >> 24u32) as u8
    }

    /// The completion code of an event: bits 24..=31 of word 2.
    pub fn completion_code(&self) -> (r: u8)
        ensures
            r == self.spec_completion_code(),
    {
        (self.0[2] >> 24u32) as u8
    }

    pub open spec fn spec_slot_id(&self) -> u8 {
        (self.0[3] >> 24u32) as u8
    }

    /// The slot id of a Command Completion event: bits 24..=31 of word 3.
    pub fn slot_id(&self) -> (r: u8)
        ensures
            r == self.spec_slot_id(),
    {
        (self.0[3] >> 24u32) as u8
    }

    /// A command TRB of the given type with an empty payload and cycle bit 0.
    pub fn command(trb_type: u8) -> (r: TrbData)
        requires
            trb_type < 64,
        ensures
            r.spec_trb_type() == trb_type,
            !r.spec_cycle_bit(),
            r.0[0] == 0 && r.0[1] == 0 && r.0[2] == 0,
    {
        let t = trb_type as u32;
        assert(t < 64 ==> ((t << 10u32) >> 10u32) & 0x3f == t) by (bit_vector);
        assert((t << 10u32) & 1 == 0) by (bit_vector);
        TrbData([0, 0, 0, t << 10u32])
    }

    /// A Command Completion event as the controller writes it.
    pub fn command_completion(command_trb: u64, code: u8, slot_id: u8, cycle: bool) -> (r:
        TrbData)
        ensures
            r.spec_trb_type() == TRB_TYPE_COMMAND_COMPLETION,
            r.spec_cycle_bit() == cycle,
            r.spec_command_trb_pointer() == command_trb & POINTER_MASK,
            r.spec_completion_code() == code,
            r.spec_slot_id() == slot_id,
    {
        let c: u32 = if cycle {
            1
        } else {
            0
        };
        let s = slot_id as u32;
        let k = code as u32;
        let w3: u32 = (s << 24u32) | (33u32 << 10u32) | c;
        let w2: u32 = k << 24u32;
        assert(s < 256 && c < 2 ==> ((((s << 24u32) | (33u32 << 10u32) | c) >> 10u32) & 0x3f)
            == 33) by (bit_vector);
        assert(c < 2 ==> (((s << 24u32) | (33u32 << 10u32) | c) & 1 == 1 <==> c == 1))
            by (bit_vector);
        assert(s < 256 && c < 2 ==> (((s << 24u32) | (33u32 << 10u32) | c) >> 24u32) == s)
            by (bit_vector);
        assert(k < 256 ==> ((k << 24u32) >> 24u32) == k) by (bit_vector);
        let lo = (command_trb & 0xFFFF_FFF0) as u32;
        let hi = (command_trb >> 32u64) as u32;
        assert((((hi as u64) << 32u64) | (lo as u64)) & 0xFFFF_FFFF_FFFF_FFF0
            == command_trb & 0xFFFF_FFFF_FFFF_FFF0) by (bit_vector)
            requires
                lo == (command_trb & 0xFFFF_FFF0) as u32,
                hi == (command_trb >> 32u64) as u32,
        ;
        TrbData([lo, hi, w2, w3])
    }
}

} // verus!
