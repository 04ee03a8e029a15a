//! Verified building blocks for the BCM2837 (Raspberry Pi 3) DMA engine and
//! a double-buffered display that presents frames through it.
//!
//! The register interface itself is not touched here: the library decides
//! what to write and how to read what the hardware reports, and the caller
//! performs the memory-mapped accesses.

pub mod bus;
pub mod pmem;
pub mod dma;
pub mod channel;
pub mod display;
pub mod mailbox_msg;
pub mod mailbox;
pub mod clocks;
