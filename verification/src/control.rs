//! Abstractions over the control interface of a graphics device.

pub mod dumbbuffer;
