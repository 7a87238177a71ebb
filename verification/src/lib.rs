//! Slider controllers over USB and serial: decoding their input reports,
//! packing their LED packets, and deciding what a connection does next.

pub mod buffer;
pub mod config;
pub mod connect;
pub mod framing;
pub mod hid;
pub mod layouts;
pub mod leds;
pub mod models;
pub mod reports;
pub mod serial;
pub mod state;
pub mod ticks;
