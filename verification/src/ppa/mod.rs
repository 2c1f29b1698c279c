//! Plans for the PPA driver: client registration, cache-line aligned buffers,
//! cache synchronisation, fills, scaled blits, and the drawing surface that
//! decides between the accelerator and software.

pub mod cache;
pub mod client;
pub mod coherence;
pub mod device;
pub mod draw;
pub mod driver;
pub mod fill;
pub mod psram;
pub mod srm;
