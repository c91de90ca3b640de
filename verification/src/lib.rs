//! Driver core for a full-speed USB device controller peripheral.
//!
//! The crate models the three hardware-facing pieces of the driver and the
//! dispatcher that ties them together:
//!
//! - [`descriptor`]: the USB device descriptor records and the BCD version
//!   field, together with their exact wire layout;
//! - [`pma`]: the packet memory area shared with the peripheral, its buffer
//!   descriptor table, the receive-size encoding and the downward bump
//!   allocator for transfer buffers;
//! - [`device`]: the endpoint register file, the interrupt status register
//!   and the priority-ordered dispatch of one interrupt activation.
//!
//! Register blocks are held as plain values handed to the core at
//! construction time; the surrounding firmware performs the volatile
//! accesses and the diagnostic traps that the dispatch outcome calls for.

pub mod descriptor;
pub mod device;
pub mod pma;
