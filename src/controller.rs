//! The device's command dispatcher: a parsed command applied to the
//! application state and the hardware it drives (GPIO pin, PWM timer),
//! with the reply line it earns.
use crate::app::AppState;
use crate::decimal::{all_digits, decimal, digits_value, is_digit, lemma_decimal_len, pow10, push_decimal};
use crate::protocol::{
    command_of, AppCommand, DELIMITER, MINUS, PLUS, TAG_CLEAR_GPIO, TAG_DUTY, TAG_ERROR,
    TAG_FREQUENCY, TAG_PWM_OFF, TAG_PWM_ON, TAG_SET_GPIO, TAG_STATUS, TAG_TIME,
};
use crate::pwm::{
    duty_compare, reprogrammed, reset_registers, synthesis, synthesize, TimerRegisters,
};
use vstd::prelude::*;

verus! {

/// Frequency the PWM output starts at.
pub const INITIAL_PWM_HZ: u32 = 1000;

/// Duty cycle, in percent, the PWM output starts at.
pub const INITIAL_DUTY_PERCENT: u16 = 25;

/// The main loop's view of the device: its application state and the
/// peripherals it drives.
#[derive(Debug, Clone, Copy, PartialEq, Eq, Structural)]
pub struct Controller {
    pub app: AppState,
    pub timer: TimerRegisters,
    /// Level of the GPIO pin.
    pub led: bool,
    /// Input clock of the PWM timer.
    pub clock_hz: u32,
}

/// The reply to a command that was carried out.
pub open spec fn success_reply() -> Seq<u8> {
    seq![TAG_STATUS, DELIMITER]
}

/// The reply to a line that names no command, or cannot be carried out.
pub open spec fn error_reply() -> Seq<u8> {
    seq![TAG_ERROR, DELIMITER]
}

/// The reply that reports the millisecond clock.
pub open spec fn time_reply(now: u32) -> Seq<u8> {
    seq![TAG_TIME] + decimal(now as nat) + seq![DELIMITER]
}

/// The controller at start-up: PWM on at its initial frequency and duty
/// when the clock can make that frequency, everything off otherwise.
pub open spec fn started(clock: u32) -> Controller {
    match synthesis(clock, INITIAL_PWM_HZ) {
        Some(t) => Controller {
            app: AppState {
                pwm_period: t.auto_reload,
                pwm_duty_cycle: INITIAL_DUTY_PERCENT,
                pwm_state: true,
                led_state: false,
            },
            timer: reprogrammed(t, INITIAL_DUTY_PERCENT, true),
            led: false,
            clock_hz: clock,
        },
        None => Controller {
            app: AppState { pwm_period: 0, pwm_duty_cycle: 0, pwm_state: false, led_state: false },
            timer: reset_registers(),
            led: false,
            clock_hz: clock,
        },
    }
}

/// The controller after `cmd`, with the reply line, at millisecond `now`.
///
/// A duty above 100 % changes nothing and is still acknowledged as a
/// success. A frequency of zero or above the timer clock changes nothing
/// and is answered with an error. A status request is acknowledged with a
/// plain success.
pub open spec fn executed(c: Controller, cmd: Option<AppCommand>, now: u32) -> (Controller, Seq<u8>) {
    match cmd {
        None => (c, error_reply()),
        Some(AppCommand::SetGpioPin) => (
            Controller { app: AppState { led_state: true, ..c.app }, led: true, ..c },
            success_reply(),
        ),
        Some(AppCommand::ClearGpioPin) => (
            Controller { app: AppState { led_state: false, ..c.app }, led: false, ..c },
            success_reply(),
        ),
        Some(AppCommand::PwmOn) => (
            Controller {
                app: AppState { pwm_state: true, ..c.app },
                timer: TimerRegisters { output_enabled: true, ..c.timer },
                ..c
            },
            success_reply(),
        ),
        Some(AppCommand::PwmOff) => (
            Controller {
                app: AppState { pwm_state: false, ..c.app },
                timer: TimerRegisters { output_enabled: false, ..c.timer },
                ..c
            },
            success_reply(),
        ),
        Some(AppCommand::PwmDuty(d)) => if d > 100 {
            (c, success_reply())
        } else {
            (
                Controller {
                    app: AppState { pwm_duty_cycle: d, ..c.app },
                    timer: TimerRegisters { compare: duty_compare(c.timer.auto_reload, d), ..c.timer },
                    ..c
                },
                success_reply(),
            )
        },
        Some(AppCommand::PwmSetFreq(hz)) => match synthesis(c.clock_hz, hz) {
            None => (c, error_reply()),
            Some(t) => (
                Controller {
                    app: AppState { pwm_period: t.auto_reload, ..c.app },
                    timer: reprogrammed(t, c.app.pwm_duty_cycle, c.timer.output_enabled),
                    ..c
                },
                success_reply(),
            ),
        },
        Some(AppCommand::GetTime) => (c, time_reply(now)),
        Some(AppCommand::GetStatus) => (c, success_reply()),
    }
}

impl Controller {
    /// The state that the hardware and the application state agree on.
    pub open spec fn wf(&self) -> bool {
        &&& self.app.pwm_state == self.timer.output_enabled
        &&& self.app.pwm_duty_cycle <= 100
        &&& self.led == self.app.led_state
    }

    /// Starts the controller with the PWM timer clocked at `clock_hz`.
    pub fn new(clock_hz: u32) -> (r: Self)
        ensures
            r.wf(),
            r == started(clock_hz),
    {
        let mut app = AppState::new();
        let mut timer = TimerRegisters::reset();
        match synthesize(clock_hz, INITIAL_PWM_HZ) {
            Some(t) => {
                timer.reprogram(t, INITIAL_DUTY_PERCENT);
                timer.enable();
                app.pwm_period = t.auto_reload;
                app.pwm_duty_cycle = INITIAL_DUTY_PERCENT;
                app.pwm_state = true;
            },
            None => {},
        }
        Controller { app, timer, led: false, clock_hz }
    }

    /// Carries out `cmd` (`None` for a line that named no command) at
    /// millisecond `now`, and returns the reply line.
    pub fn execute(&mut self, cmd: Option<AppCommand>, now: u32) -> (r: Vec<u8>)
        requires
            old(self).wf(),
        ensures
            final(self).wf(),
            (*final(self), r@) == executed(*old(self), cmd, now),
    {
        let mut reply: Vec<u8> = Vec::new();
        match cmd {
            None => {
                reply.push(TAG_ERROR);
            },
            Some(AppCommand::SetGpioPin) => {
                self.app.led_state = true;
                self.led = true;
                reply.push(TAG_STATUS);
            },
            Some(AppCommand::ClearGpioPin) => {
                self.app.led_state = false;
                self.led = false;
                reply.push(TAG_STATUS);
            },
            Some(AppCommand::PwmOn) => {
                self.app.pwm_state = true;
                self.timer.enable();
                reply.push(TAG_STATUS);
            },
            Some(AppCommand::PwmOff) => {
                self.app.pwm_state = false;
                self.timer.disable();
                reply.push(TAG_STATUS);
            },
            Some(AppCommand::PwmDuty(duty)) => {
                if duty <= 100 {
                    self.app.pwm_duty_cycle = duty;
                    self.timer.set_duty_percent(duty);
                }
                reply.push(TAG_STATUS);
            },
            Some(AppCommand::PwmSetFreq(hz)) => {
                match synthesize(self.clock_hz, hz) {
                    None => {
                        reply.push(TAG_ERROR);
                    },
                    Some(t) => {
                        self.timer.reprogram(t, self.app.pwm_duty_cycle);
                        self.app.pwm_period = t.auto_reload;
                        reply.push(TAG_STATUS);
                    },
                }
            },
            Some(AppCommand::GetTime) => {
                reply.push(TAG_TIME);
                push_decimal(&mut reply, now);
            },
            Some(AppCommand::GetStatus) => {
                reply.push(TAG_STATUS);
            },
        }
        reply.push(DELIMITER);
        proof {
            assert(reply@ =~= executed(*old(self), cmd, now).1);
        }
        reply
    }
}

/// Every reply fits in one frame buffer.
pub proof fn lemma_reply_fits(c: Controller, cmd: Option<AppCommand>, now: u32)
    ensures
        executed(c, cmd, now).1.len() <= 12,
{
    reveal_with_fuel(pow10, 11);
    lemma_decimal_len(now as nat, pow10(10), 10);
}

/// A line that names no command (empty, with an unknown tag, or with a
/// numeric argument that is missing, is no number, or is a number beyond
/// its field) changes nothing and is answered with an error.
pub proof fn lemma_malformed_line(c: Controller, line: Seq<u8>, now: u32)
    requires
        line.len() == 0
            || (line[0] != TAG_PWM_ON && line[0] != TAG_PWM_OFF && line[0] != TAG_DUTY
                && line[0] != TAG_FREQUENCY && line[0] != TAG_SET_GPIO && line[0] != TAG_CLEAR_GPIO
                && line[0] != TAG_TIME && line[0] != TAG_STATUS)
            || ((line[0] == TAG_DUTY || line[0] == TAG_FREQUENCY) && (line.len() <= 2 || exists|i: int|
                1 <= i < line.len() - 1 && !is_digit(#[trigger] line[i]) && line[i] != PLUS && line[i] != MINUS))
            || (line.len() > 2 && all_digits(line.subrange(1, line.len() - 1)) && (
                (line[0] == TAG_DUTY && digits_value(line.subrange(1, line.len() - 1)) > u16::MAX)
                || (line[0] == TAG_FREQUENCY && digits_value(line.subrange(1, line.len() - 1)) > u32::MAX))),
    ensures
        command_of(line) is None,
        executed(c, command_of(line), now) == (c, error_reply()),
{
    if line.len() > 2 && all_digits(line.subrange(1, line.len() - 1)) && (line[0] == TAG_DUTY || line[0] == TAG_FREQUENCY) {
        let arg = line.subrange(1, line.len() - 1);
        assert(is_digit(arg[0]));
        assert(arg[0] != PLUS && arg[0] != MINUS);
        if exists|i: int| 1 <= i < line.len() - 1 && !is_digit(#[trigger] line[i]) && line[i] != PLUS && line[i] != MINUS {
            let i = choose|i: int| 1 <= i < line.len() - 1 && !is_digit(#[trigger] line[i]) && line[i] != PLUS && line[i] != MINUS;
            assert(arg[i - 1] == line[i]);
        }
        assert(crate::protocol::argument_of(line, u16::MAX as nat) == crate::protocol::unsigned_value(arg, u16::MAX as nat));
        assert(crate::protocol::argument_of(line, u32::MAX as nat) == crate::protocol::unsigned_value(arg, u32::MAX as nat));
    } else if line.len() > 2 && (line[0] == TAG_DUTY || line[0] == TAG_FREQUENCY) {
        let i = choose|i: int| 1 <= i < line.len() - 1 && !is_digit(#[trigger] line[i]) && line[i] != PLUS && line[i] != MINUS;
        let arg = line.subrange(1, line.len() - 1);
        assert(arg[i - 1] == line[i]);
        assert(!is_digit(arg[i - 1]));
        if arg[0] == PLUS || arg[0] == MINUS {
            assert(i != 1);
            assert(arg.drop_first()[i - 2] == line[i]);
        }
    }
}

/// A frequency change keeps the output on when it was on and off when it
/// was off, and keeps the duty cycle in percent.
pub proof fn lemma_frequency_change_keeps_output(c: Controller, hz: u32, now: u32)
    requires
        c.wf(),
    ensures
        ({
            let (d, _) = executed(c, Some(AppCommand::PwmSetFreq(hz)), now);
            &&& d.wf()
            &&& d.app.pwm_state == c.app.pwm_state
            &&& d.timer.output_enabled == c.timer.output_enabled
            &&& d.app.pwm_duty_cycle == c.app.pwm_duty_cycle
            &&& synthesis(c.clock_hz, hz) matches Some(t) ==> d.timer.compare == duty_compare(t.auto_reload, c.app.pwm_duty_cycle)
        }),
{
}

} // verus!
