//! Transaction planning for the ESP32-P4 Pixel Processing Accelerator (PPA)
//! and layer planning for Buoyant render targets that composite through it.
//!
//! Every operation is planned here and carried out by the caller: the library
//! says which driver calls to make, in which order and with which arguments,
//! and what the statuses that come back amount to. Addresses and driver
//! handles are plain integers.

pub mod geometry;
pub mod layer;
pub mod ppa;
