//! Command/response link between a host and a PWM/GPIO microcontroller:
//! the line protocol both ends speak, the device's interrupt-driven core
//! with its frame-buffer pool and PWM frequency synthesizer, and the
//! host driver's line decoder.

pub mod decimal;
pub mod protocol;
pub mod command;
pub mod codec;
pub mod pool;
pub mod pwm;
pub mod app;
pub mod message;
pub mod controller;
pub mod device;
