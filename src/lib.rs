//! Core of an xHCI host-controller driver: TRB rings with cycle-bit and
//! link-TRB discipline, the event ring and its command-completion waiters,
//! the device context table with scratchpads, and the decisions of the
//! controller's reset, command and interrupt paths. Register access and
//! waiting are done by the embedder with the values these functions return.
pub mod context;
pub mod controller;
pub mod dma;
pub mod err;
pub mod event;
pub mod ring;
pub mod trb;
