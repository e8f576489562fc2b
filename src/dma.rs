//! DMA vectors and boxes of `dma_api` (the device contexts being `xhci`'s
//! context types), seen through the names and wrappers below.
//!
//! A buffer's length and bus address are fixed when it is allocated. Its
//! contents, as named here, are the values this driver last stored through
//! the handle: the controller may write the memory too, so nothing read back
//! from a buffer is assumed to equal them.
use dma_api::{DBox, DVec};
use vstd::prelude::*;
use xhci::context::{Device, Device64Byte, Input, Input64Byte};

verus! {

#[verifier::external_type_specification]
#[verifier::external_body]
#[verifier::reject_recursive_types(T)]
pub struct ExDVec<T>(DVec<T>);

#[verifier::external_type_specification]
#[verifier::external_body]
#[verifier::reject_recursive_types(T)]
pub struct ExDBox<T>(DBox<T>);

#[verifier::external_type_specification]
#[verifier::external_body]
pub struct ExDevice<const N: usize>(Device<N>);

#[verifier::external_type_specification]
#[verifier::external_body]
pub struct ExInput<const N: usize>(Input<N>);

/// How the controller uses a buffer; selects cache maintenance.
#[derive(Clone, Copy, Debug, PartialEq, Eq, Structural)]
pub enum Direction {
    ToDevice,
    FromDevice,
    Bidirectional,
}

/// An alignment that an allocation layout accepts: a power of two.
pub open spec fn is_pow2(n: usize) -> bool {
    n > 0 && n & ((n - 1) as usize) == 0
}

/// A bus address the controller can be handed: non-zero and aligned to `align`.
pub open spec fn usable_bus(bus: u64, align: int) -> bool {
    bus != 0 && (bus as int) % align == 0
}

/// `len` elements of `elem` bytes at alignment `align` form a valid layout.
pub open spec fn fits_layout(len: usize, elem: int, align: usize) -> bool {
    &&& len > 0
    &&& is_pow2(align)
    &&& len * elem + align <= isize::MAX
}

/// The two alignments the rings and tables use are powers of two.
pub proof fn lemma_standard_aligns()
    ensures
        is_pow2(64),
        is_pow2(4096),
{
    assert(64usize & 63usize == 0) by (bit_vector);
    assert(4096usize & 4095usize == 0) by (bit_vector);
}

/// Number of TRB slots of a TRB buffer.
pub uninterp spec fn trb_vec_len(v: DVec<[u32; 4]>) -> nat;

/// Bus address of a TRB buffer.
pub uninterp spec fn trb_vec_bus(v: DVec<[u32; 4]>) -> u64;

/// The TRB words last stored in each slot of a TRB buffer.
pub uninterp spec fn trb_vec_view(v: DVec<[u32; 4]>) -> Seq<[u32; 4]>;

/// Alignment a TRB buffer was allocated with.
pub uninterp spec fn trb_vec_align(v: DVec<[u32; 4]>) -> usize;

/// Direction a TRB buffer was allocated with.
pub uninterp spec fn trb_vec_direction(v: DVec<[u32; 4]>) -> Direction;

/// Number of entries of a `u64` buffer.
pub uninterp spec fn u64_vec_len(v: DVec<u64>) -> nat;

/// Bus address of a `u64` buffer.
pub uninterp spec fn u64_vec_bus(v: DVec<u64>) -> u64;

/// The values last stored in each entry of a `u64` buffer.
pub uninterp spec fn u64_vec_view(v: DVec<u64>) -> Seq<u64>;

/// Alignment a `u64` buffer was allocated with.
pub uninterp spec fn u64_vec_align(v: DVec<u64>) -> usize;

/// Direction a `u64` buffer was allocated with.
pub uninterp spec fn u64_vec_direction(v: DVec<u64>) -> Direction;

/// Size in bytes of a byte buffer.
pub uninterp spec fn byte_vec_len(v: DVec<u8>) -> nat;

/// Bus address of a byte buffer.
pub uninterp spec fn byte_vec_bus(v: DVec<u8>) -> u64;

/// Alignment a byte buffer was allocated with.
pub uninterp spec fn byte_vec_align(v: DVec<u8>) -> usize;

/// Direction a byte buffer was allocated with.
pub uninterp spec fn byte_vec_direction(v: DVec<u8>) -> Direction;

/// Whether a byte buffer's memory was zero-filled at allocation.
pub uninterp spec fn byte_vec_zero_filled(v: DVec<u8>) -> bool;

/// Relies on dma_api::DVec::zeros: a zeroed buffer of `len` TRBs with the
/// given alignment and direction, or `None`
/// when memory is short; it panics on an invalid layout, which `requires` rules out.
#[verifier::external_body]
pub(crate) fn trb_vec_zeros(len: usize, align: usize, dir: Direction) -> (r: Option<
    DVec<[u32; 4]>,
>)
    requires
        fits_layout(len, 16, align),
    ensures
        r matches Some(v) ==> trb_vec_len(v) == len && trb_vec_view(v) =~= Seq::new(
            len as nat,
            |j: int| [0u32, 0u32, 0u32, 0u32],
        ) && trb_vec_align(v) == align && trb_vec_direction(v) == dir,
{
    let d = match dir {
        Direction::ToDevice => dma_api::Direction::ToDevice,
        Direction::FromDevice => dma_api::Direction::FromDevice,
        Direction::Bidirectional => dma_api::Direction::Bidirectional,
    };
    DVec::zeros(len, align, d)
}

/// Relies on dma_api::DVec::len: the element count given at allocation.
#[verifier::external_body]
pub(crate) fn trb_vec_length(v: &DVec<[u32; 4]>) -> (r: usize)
    ensures
        r == trb_vec_len(*v),
{
    v.len()
}

/// Relies on dma_api::DVec::bus_addr: the bus address recorded at allocation.
#[verifier::external_body]
pub(crate) fn trb_vec_bus_addr(v: &DVec<[u32; 4]>) -> (r: u64)
    ensures
        r == trb_vec_bus(*v),
{
    v.bus_addr()
}

/// Relies on dma_api::DVec::set: stores `value` at `index`; it panics out of range.
#[verifier::external_body]
pub(crate) fn trb_vec_set(v: &mut DVec<[u32; 4]>, index: usize, value: [u32; 4])
    requires
        index < trb_vec_len(*old(v)),
    ensures
        trb_vec_len(*final(v)) == trb_vec_len(*old(v)),
        trb_vec_bus(*final(v)) == trb_vec_bus(*old(v)),
        trb_vec_align(*final(v)) == trb_vec_align(*old(v)),
        trb_vec_direction(*final(v)) == trb_vec_direction(*old(v)),
        trb_vec_view(*final(v)) == trb_vec_view(*old(v)).update(index as int, value),
{
    v.set(index, value)
}

/// Relies on dma_api::DVec::get: `Some` of a volatile read of the slot when
/// `index` is in range. What it reads may have been written by the controller.
#[verifier::external_body]
pub(crate) fn trb_vec_get(v: &DVec<[u32; 4]>, index: usize) -> (r: Option<[u32; 4]>)
    ensures
        r is Some <==> index < trb_vec_len(*v),
{
    v.get(index)
}

/// Relies on dma_api::DVec::zeros: a zeroed buffer of `len` `u64`s with the
/// given alignment and direction, or `None`
/// when memory is short; it panics on an invalid layout, which `requires` rules out.
#[verifier::external_body]
pub(crate) fn u64_vec_zeros(len: usize, align: usize, dir: Direction) -> (r: Option<DVec<u64>>)
    requires
        fits_layout(len, 8, align),
    ensures
        r matches Some(v) ==> u64_vec_len(v) == len && u64_vec_view(v) =~= Seq::new(
            len as nat,
            |j: int| 0u64,
        ) && u64_vec_align(v) == align && u64_vec_direction(v) == dir,
{
    let d = match dir {
        Direction::ToDevice => dma_api::Direction::ToDevice,
        Direction::FromDevice => dma_api::Direction::FromDevice,
        Direction::Bidirectional => dma_api::Direction::Bidirectional,
    };
    DVec::zeros(len, align, d)
}

/// Relies on dma_api::DVec::len: the element count given at allocation.
#[verifier::external_body]
pub(crate) fn u64_vec_length(v: &DVec<u64>) -> (r: usize)
    ensures
        r == u64_vec_len(*v),
{
    v.len()
}

/// Relies on dma_api::DVec::bus_addr: the bus address recorded at allocation.
#[verifier::external_body]
pub(crate) fn u64_vec_bus_addr(v: &DVec<u64>) -> (r: u64)
    ensures
        r == u64_vec_bus(*v),
{
    v.bus_addr()
}

/// Relies on dma_api::DVec::set: stores `value` at `index`; it panics out of range.
#[verifier::external_body]
pub(crate) fn u64_vec_set(v: &mut DVec<u64>, index: usize, value: u64)
    requires
        index < u64_vec_len(*old(v)),
    ensures
        u64_vec_len(*final(v)) == u64_vec_len(*old(v)),
        u64_vec_bus(*final(v)) == u64_vec_bus(*old(v)),
        u64_vec_align(*final(v)) == u64_vec_align(*old(v)),
        u64_vec_direction(*final(v)) == u64_vec_direction(*old(v)),
        u64_vec_view(*final(v)) == u64_vec_view(*old(v)).update(index as int, value),
{
    v.set(index, value)
}

/// Relies on dma_api::DVec::zeros: a zero-filled buffer of `len` bytes with
/// the given alignment and direction, or `None`
/// when memory is short; it panics on an invalid layout, which `requires` rules out.
#[verifier::external_body]
pub(crate) fn byte_vec_zeros(len: usize, align: usize, dir: Direction) -> (r: Option<DVec<u8>>)
    requires
        fits_layout(len, 1, align),
    ensures
        r matches Some(v) ==> byte_vec_len(v) == len && byte_vec_align(v) == align
            && byte_vec_direction(v) == dir && byte_vec_zero_filled(v),
{
    let d = match dir {
        Direction::ToDevice => dma_api::Direction::ToDevice,
        Direction::FromDevice => dma_api::Direction::FromDevice,
        Direction::Bidirectional => dma_api::Direction::Bidirectional,
    };
    DVec::zeros(len, align, d)
}

/// Relies on dma_api::DVec::bus_addr: the bus address recorded at allocation.
#[verifier::external_body]
pub(crate) fn byte_vec_bus_addr(v: &DVec<u8>) -> (r: u64)
    ensures
        r == byte_vec_bus(*v),
{
    v.bus_addr()
}

/// Bus address of an Output Device Context.
pub uninterp spec fn output_context_bus(b: DBox<Device64Byte>) -> u64;

/// Direction an Output Device Context was allocated with.
pub uninterp spec fn output_context_direction(b: DBox<Device64Byte>) -> Direction;

/// Alignment an Output Device Context was allocated with.
pub uninterp spec fn output_context_align(b: DBox<Device64Byte>) -> usize;

/// Whether an Output Device Context's memory was zero-filled at allocation.
pub uninterp spec fn output_context_zero_filled(b: DBox<Device64Byte>) -> bool;

/// Direction an Input Context was allocated with.
pub uninterp spec fn input_context_direction(b: DBox<Input64Byte>) -> Direction;

/// Alignment an Input Context was allocated with.
pub uninterp spec fn input_context_align(b: DBox<Input64Byte>) -> usize;

/// Whether an Input Context's memory was zero-filled at allocation.
pub uninterp spec fn input_context_zero_filled(b: DBox<Input64Byte>) -> bool;

/// Relies on dma_api::DBox::zero_with_align: a zero-filled Output Device
/// Context with the given direction and alignment, or `None` when memory is
/// short or the alignment makes no valid layout.
#[verifier::external_body]
pub(crate) fn output_context_zero(dir: Direction, align: usize) -> (r: Option<
    DBox<Device64Byte>,
>)
    ensures
        r matches Some(b) ==> output_context_direction(b) == dir && output_context_align(b)
            == align && output_context_zero_filled(b),
{
    let d = match dir {
        Direction::ToDevice => dma_api::Direction::ToDevice,
        Direction::FromDevice => dma_api::Direction::FromDevice,
        Direction::Bidirectional => dma_api::Direction::Bidirectional,
    };
    DBox::zero_with_align(d, align)
}

/// Relies on dma_api::DBox::bus_addr: the bus address recorded at allocation.
#[verifier::external_body]
pub(crate) fn output_context_bus_addr(b: &DBox<Device64Byte>) -> (r: u64)
    ensures
        r == output_context_bus(*b),
{
    b.bus_addr()
}

/// Relies on dma_api::DBox::zero_with_align: a zero-filled Input Context
/// with the given direction and alignment, or `None` when memory is short or
/// the alignment makes no valid layout.
#[verifier::external_body]
pub(crate) fn input_context_zero(dir: Direction, align: usize) -> (r: Option<DBox<Input64Byte>>)
    ensures
        r matches Some(b) ==> input_context_direction(b) == dir && input_context_align(b) == align
            && input_context_zero_filled(b),
{
    let d = match dir {
        Direction::ToDevice => dma_api::Direction::ToDevice,
        Direction::FromDevice => dma_api::Direction::FromDevice,
        Direction::Bidirectional => dma_api::Direction::Bidirectional,
    };
    DBox::zero_with_align(d, align)
}

/// Relies on core::sync::atomic::fence: a sequentially consistent fence that
/// orders TRB payload accesses against the cycle-bit decision.
#[verifier::external_body]
pub(crate) fn full_fence() {
    core::sync::atomic::fence(core::sync::atomic::Ordering::SeqCst)
}

} // verus!
