//! PWM frequency synthesis: the prescaler and auto-reload values that
//! divide the timer's input clock down to a target frequency, and the
//! live reprogramming of a timer with them.
use vstd::prelude::*;

verus! {

/// The prescaler divides by `prescaler + 1` and the counter wraps after
/// `auto_reload + 1` ticks, so the output runs at
/// `clock / ((prescaler + 1) * (auto_reload + 1))`.
#[derive(Debug, Clone, Copy, PartialEq, Eq, Structural)]
pub struct TimerConfig {
    pub prescaler: u16,
    pub auto_reload: u32,
}

/// The configuration for `hz` on a timer clocked at `clock`: none for a
/// frequency of zero or above the clock.
///
/// The auto-reload register has 32 bits, so it can count a whole period
/// of `clock / hz` ticks (at most `clock`, itself a 32-bit value) without
/// the prescaler. Prescaler 0 is thus the least prescaler that fits, and
/// it gives the largest auto-reload: the finest duty resolution.
pub open spec fn synthesis(clock: u32, hz: u32) -> Option<TimerConfig> {
    if hz == 0 || hz > clock {
        None
    } else {
        Some(TimerConfig { prescaler: 0, auto_reload: (clock as int / hz as int - 1) as u32 })
    }
}

/// Clock ticks in one output period.
pub open spec fn period_ticks(c: TimerConfig) -> nat {
    ((c.prescaler + 1) * (c.auto_reload + 1)) as nat
}

/// Computes the register values for `target_hz` from the timer's input
/// clock.
pub fn synthesize(clock_hz: u32, target_hz: u32) -> (r: Option<TimerConfig>)
    ensures
        r == synthesis(clock_hz, target_hz),
{
    if target_hz == 0 || target_hz > clock_hz {
        return None;
    }
    let ticks = clock_hz / target_hz;
    assert(ticks >= 1) by (nonlinear_arith)
        requires ticks == clock_hz / target_hz, 0 < target_hz <= clock_hz;
    Some(TimerConfig { prescaler: 0, auto_reload: ticks - 1 })
}

/// For any target at most a `k`-th of the clock, the synthesized period
/// is never shorter than the target period, and the output frequency
/// exceeds the target by less than one `k`-th of the target:
/// `hz * p <= clock < hz * p * (k + 1) / k` for a period of `p` clock
/// ticks.
pub proof fn lemma_synthesis_tolerance(clock: u32, hz: u32, k: nat)
    requires
        1 <= k,
        1 <= hz,
        k * hz <= clock,
    ensures
        synthesis(clock, hz) matches Some(c) && {
            &&& hz * period_ticks(c) <= clock
            &&& k * (clock - hz * period_ticks(c)) < hz * period_ticks(c)
        },
{
    let ticks = (clock / hz) as nat;
    assert(hz * ticks <= clock < hz * (ticks + 1)) by (nonlinear_arith)
        requires ticks == clock / hz, hz >= 1;
    assert(ticks >= k) by (nonlinear_arith)
        requires ticks == clock / hz, hz >= 1, k * hz <= clock;
    assert(hz <= clock) by (nonlinear_arith)
        requires k * hz <= clock, k >= 1;
    assert(k * (clock - hz * ticks) < hz * ticks) by (nonlinear_arith)
        requires clock < hz * (ticks + 1), hz * ticks <= clock, ticks >= k, k >= 1, hz >= 1;
    assert(ticks <= clock) by (nonlinear_arith)
        requires ticks == clock / hz, hz >= 1;
    let c = synthesis(clock, hz).unwrap();
    assert(c.auto_reload == ticks - 1 && c.prescaler == 0);
    assert((c.prescaler + 1) * (c.auto_reload + 1) == ticks) by (nonlinear_arith)
        requires c.auto_reload == ticks - 1, c.prescaler == 0;
}

/// The compare value for `percent` of a period of `max_duty`.
pub open spec fn duty_compare(max_duty: u32, percent: u16) -> u32 {
    (max_duty * percent / 100) as u32
}

/// A timer channel in PWM mode, as its registers hold it.
#[derive(Debug, Clone, Copy, PartialEq, Eq, Structural)]
pub struct TimerRegisters {
    pub prescaler: u16,
    pub auto_reload: u32,
    pub compare: u32,
    pub counter: u32,
    /// The counter runs.
    pub counting: bool,
    /// Auto-reload writes take effect at the next update event.
    pub auto_reload_preload: bool,
    /// Compare writes take effect at the next update event.
    pub compare_preload: bool,
    /// The channel compares in PWM mode 1.
    pub pwm_mode: bool,
    /// The channel drives its pin.
    pub output_enabled: bool,
}

/// The registers right after the peripheral's reset line is released.
pub open spec fn reset_registers() -> TimerRegisters {
    TimerRegisters {
        prescaler: 0,
        auto_reload: u32::MAX,
        compare: 0,
        counter: 0,
        counting: false,
        auto_reload_preload: false,
        compare_preload: false,
        pwm_mode: false,
        output_enabled: false,
    }
}

/// The registers after a reprogramming to `c` that keeps `percent` duty
/// and leaves the output `enabled` or not.
pub open spec fn reprogrammed(c: TimerConfig, percent: u16, enabled: bool) -> TimerRegisters {
    TimerRegisters {
        prescaler: c.prescaler,
        auto_reload: c.auto_reload,
        compare: duty_compare(c.auto_reload, percent),
        counter: 0,
        counting: true,
        auto_reload_preload: true,
        compare_preload: true,
        pwm_mode: true,
        output_enabled: enabled,
    }
}

impl TimerRegisters {
    /// Asserts and releases the reset line.
    pub fn reset() -> (r: Self)
        ensures
            r == reset_registers(),
    {
        TimerRegisters {
            prescaler: 0,
            auto_reload: u32::MAX,
            compare: 0,
            counter: 0,
            counting: false,
            auto_reload_preload: false,
            compare_preload: false,
            pwm_mode: false,
            output_enabled: false,
        }
    }

    /// The compare value of a full period.
    pub fn max_duty(&self) -> (r: u32)
        ensures
            r == self.auto_reload,
    {
        self.auto_reload
    }

    /// Sets the channel to `percent` of the period.
    pub fn set_duty_percent(&mut self, percent: u16)
        requires
            percent <= 100,
        ensures
            *final(self) == (TimerRegisters { compare: duty_compare(old(self).auto_reload, percent), ..*old(self) }),
    {
        let max = self.max_duty() as u64;
        assert(max * percent <= u32::MAX * 100) by (nonlinear_arith)
            requires max <= u32::MAX, percent <= 100;
        let scaled = max * percent as u64;
        assert(scaled / 100 <= self.auto_reload) by (nonlinear_arith)
            requires scaled == self.auto_reload * percent, percent <= 100;
        self.compare = (scaled / 100) as u32;
    }

    pub fn enable(&mut self)
        ensures
            *final(self) == (TimerRegisters { output_enabled: true, ..*old(self) }),
    {
        self.output_enabled = true;
    }

    pub fn disable(&mut self)
        ensures
            *final(self) == (TimerRegisters { output_enabled: false, ..*old(self) }),
    {
        self.output_enabled = false;
    }

    /// Reprograms the timer to `c` while it runs: the channel is switched
    /// off, the peripheral reset, PWM mode set up again, prescaler and
    /// auto-reload written, the counter cleared and restarted, the duty
    /// restored as the same share of the new period, and the channel
    /// switched back on only if it was on before.
    pub fn reprogram(&mut self, c: TimerConfig, percent: u16)
        requires
            percent <= 100,
        ensures
            *final(self) == reprogrammed(c, percent, old(self).output_enabled),
    {
        let was_enabled = self.output_enabled;
        self.disable();
        *self = TimerRegisters::reset();
        self.pwm_mode = true;
        self.compare_preload = true;
        self.prescaler = c.prescaler;
        self.auto_reload = c.auto_reload;
        self.counter = 0;
        self.counting = true;
        self.auto_reload_preload = true;
        self.set_duty_percent(percent);
        if was_enabled {
            self.enable();
        }
    }
}

} // verus!
