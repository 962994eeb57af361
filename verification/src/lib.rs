//! Discovery and bring-up of virtio devices behind a PCI-style bus.
//!
//! The crate walks a device's PCI capability list, validates the virtio
//! structure locations it finds, assembles a transport handle, and drives the
//! virtio register protocol (status state machine, feature negotiation, queue
//! configuration, notification, interrupt acknowledgement) over a register
//! model.  A page-granular ownership layer accounts for DMA memory, and a
//! dispatcher classifies discovered functions and hands a validated transport
//! to the matching device-class driver.

pub mod cap;
pub mod dispatch;
pub mod dma;
pub mod http;
pub mod icr;
pub mod net;
pub mod protocol;
pub mod transport;
