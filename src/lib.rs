//! Zero-copy screen capture over a Wayland compositor: output discovery,
//! dma-buf negotiation and the per-frame capture state machine, with the
//! decisions kept free of I/O so that each one carries a checked contract.

pub mod capture;
pub mod config;
pub mod dmabuf;
pub mod fourcc;
pub mod pose;
pub mod protocol;
pub mod registry;
