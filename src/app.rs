//! The device's application state.
use vstd::prelude::*;

verus! {

/// What the device's main loop keeps about its outputs.
#[derive(Debug, Clone, Copy, PartialEq, Eq, Structural)]
pub struct AppState {
    /// Auto-reload value of the PWM timer after the last frequency change.
    pub pwm_period: u32,
    /// Duty cycle in percent, 0 to 100.
    pub pwm_duty_cycle: u16,
    /// The PWM output is on.
    pub pwm_state: bool,
    /// The GPIO pin is driven high.
    pub led_state: bool,
}

impl AppState {
    pub fn new() -> (r: Self)
        ensures
            r == (AppState { pwm_period: 0, pwm_duty_cycle: 0, pwm_state: false, led_state: false }),
    {
        AppState { pwm_period: 0, pwm_duty_cycle: 0, pwm_state: false, led_state: false }
    }
}

} // verus!
