//! Device-model driver for a Cadence GEM-class Ethernet MAC.
//!
//! The crate bridges a guest-facing virtio network device contract onto the
//! register programming and DMA descriptor-ring layout that the physical MAC
//! requires: configuration-space access, doorbell notifications, interrupt
//! status, and reset, including 64-bit DMA addressing and descriptor
//! ownership/wrap semantics.

pub mod driver;
pub mod regs;
pub mod ring;

pub use driver::DmaLayout;
pub use driver::DriverError;
pub use driver::MacbDriver;
