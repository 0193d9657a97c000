//! Time driver and interrupt-controller logic of the embassy async runtime
//! on the ESP32-C3.

pub mod interrupt;
pub mod driver;
pub mod systimer;
pub mod mutex;
pub mod config;
