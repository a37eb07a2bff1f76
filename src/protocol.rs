//! The device's side of the wire protocol: one received line, tag byte
//! first, to the command it names.
use crate::decimal::{all_digits, digits_value};
use vstd::prelude::*;

verus! {

/// Tag of [`AppCommand::PwmOn`].
pub const TAG_PWM_ON: u8 = 69; // 'E'
/// Tag of [`AppCommand::PwmOff`].
pub const TAG_PWM_OFF: u8 = 79; // 'O'
/// Tag of [`AppCommand::PwmDuty`].
pub const TAG_DUTY: u8 = 68; // 'D'
/// Tag of [`AppCommand::PwmSetFreq`].
pub const TAG_FREQUENCY: u8 = 70; // 'F'
/// Tag of [`AppCommand::SetGpioPin`].
pub const TAG_SET_GPIO: u8 = 80; // 'P'
/// Tag of [`AppCommand::ClearGpioPin`].
pub const TAG_CLEAR_GPIO: u8 = 67; // 'C'
/// Tag of [`AppCommand::GetTime`], and of a time reply.
pub const TAG_TIME: u8 = 84; // 'T'
/// Tag of [`AppCommand::GetStatus`], and of a success reply.
pub const TAG_STATUS: u8 = 83; // 'S'
/// Tag of an error reply.
pub const TAG_ERROR: u8 = 88; // 'X'
/// The frame delimiter, `\n`.
pub const DELIMITER: u8 = 10;
/// ASCII `+`.
pub const PLUS: u8 = 43;
/// ASCII `-`.
pub const MINUS: u8 = 45;

/// A command as the device understands it.
#[derive(Debug, Clone, Copy, PartialEq, Eq, Structural)]
pub enum AppCommand {
    PwmOn,
    PwmOff,
    PwmDuty(u16),
    PwmSetFreq(u32),
    SetGpioPin,
    ClearGpioPin,
    GetTime,
    GetStatus,
}

/// What a run of digits is worth, when it is one and fits under `max`.
pub open spec fn unsigned_value(s: Seq<u8>, max: nat) -> Option<nat> {
    if s.len() > 0 && all_digits(s) && digits_value(s) <= max {
        Some(digits_value(s))
    } else {
        None
    }
}

/// What `btoi` reads into an unsigned integer type whose largest value is
/// `max`: digits with an optional `+`; a `-` goes through only before
/// zeros, since any other negative value underflows.
pub open spec fn btoi_unsigned(s: Seq<u8>, max: nat) -> Option<nat> {
    if s.len() == 0 {
        None
    } else if s[0] == PLUS {
        unsigned_value(s.drop_first(), max)
    } else if s[0] == MINUS {
        if s.len() > 1 && all_digits(s.drop_first()) && digits_value(s.drop_first()) == 0 {
            Some(0)
        } else {
            None
        }
    } else {
        unsigned_value(s, max)
    }
}

/// The numeric argument of a `D` or `F` line: the bytes between the tag
/// and the last byte, which is taken for the delimiter.
pub open spec fn argument_of(s: Seq<u8>, max: nat) -> Option<nat> {
    if s.len() <= 2 {
        None
    } else {
        btoi_unsigned(s.subrange(1, s.len() - 1), max)
    }
}

pub open spec fn duty_command_of(s: Seq<u8>) -> Option<AppCommand> {
    match argument_of(s, u16::MAX as nat) {
        Some(v) => Some(AppCommand::PwmDuty(v as u16)),
        None => None,
    }
}

pub open spec fn frequency_command_of(s: Seq<u8>) -> Option<AppCommand> {
    match argument_of(s, u32::MAX as nat) {
        Some(v) => Some(AppCommand::PwmSetFreq(v as u32)),
        None => None,
    }
}

/// The command that a received line names, if any.
pub open spec fn command_of(s: Seq<u8>) -> Option<AppCommand> {
    if s.len() == 0 {
        None
    } else if s[0] == TAG_PWM_ON {
        Some(AppCommand::PwmOn)
    } else if s[0] == TAG_PWM_OFF {
        Some(AppCommand::PwmOff)
    } else if s[0] == TAG_DUTY {
        duty_command_of(s)
    } else if s[0] == TAG_FREQUENCY {
        frequency_command_of(s)
    } else if s[0] == TAG_SET_GPIO {
        Some(AppCommand::SetGpioPin)
    } else if s[0] == TAG_CLEAR_GPIO {
        Some(AppCommand::ClearGpioPin)
    } else if s[0] == TAG_TIME {
        Some(AppCommand::GetTime)
    } else if s[0] == TAG_STATUS {
        Some(AppCommand::GetStatus)
    } else {
        None
    }
}

/// Relies on `btoi::btoi::<u32>`: ASCII decimal with an optional sign,
/// refused when empty, on a byte that is no digit, or on overflow and
/// underflow of `u32`.
#[verifier::external_body]
fn btoi_u32(bytes: &[u8]) -> (r: Option<u32>)
    ensures
        match btoi_unsigned(bytes@, u32::MAX as nat) {
            Some(v) => r == Some(v as u32),
            None => r is None,
        },
{
    btoi::btoi::<u32>(bytes).ok()
}

/// Reads `D<duty>` with the duty between the tag and the delimiter.
pub fn parse_pwm_duty(input: &[u8]) -> (r: Option<AppCommand>)
    ensures
        r == duty_command_of(input@),
{
    if input.len() <= 2 {
        return None;
    }
    let arg = slice_range(input, 1, input.len() - 1);
    proof {
        lemma_btoi_narrower(arg@, u16::MAX as nat, u32::MAX as nat);
    }
    match btoi_u32(arg) {
        Some(v) => {
            if v <= u16::MAX as u32 {
                Some(AppCommand::PwmDuty(v as u16))
            } else {
                None
            }
        },
        None => None,
    }
}

/// Reads `F<hertz>` with the frequency between the tag and the delimiter.
pub fn parse_pwm_frequency(input: &[u8]) -> (r: Option<AppCommand>)
    ensures
        r == frequency_command_of(input@),
{
    if input.len() <= 2 {
        return None;
    }
    let arg = slice_range(input, 1, input.len() - 1);
    match btoi_u32(arg) {
        Some(v) => Some(AppCommand::PwmSetFreq(v)),
        None => None,
    }
}

/// Decodes one received line. Total: an empty line, an unknown tag or a
/// bad argument is `None`, and nothing panics.
pub fn parse_command(buffer: &[u8]) -> (r: Option<AppCommand>)
    ensures
        r == command_of(buffer@),
{
    if buffer.len() == 0 {
        return None;
    }
    let tag = buffer[0];
    if tag == TAG_PWM_ON {
        Some(AppCommand::PwmOn)
    } else if tag == TAG_PWM_OFF {
        Some(AppCommand::PwmOff)
    } else if tag == TAG_DUTY {
        parse_pwm_duty(buffer)
    } else if tag == TAG_FREQUENCY {
        parse_pwm_frequency(buffer)
    } else if tag == TAG_SET_GPIO {
        Some(AppCommand::SetGpioPin)
    } else if tag == TAG_CLEAR_GPIO {
        Some(AppCommand::ClearGpioPin)
    } else if tag == TAG_TIME {
        Some(AppCommand::GetTime)
    } else if tag == TAG_STATUS {
        Some(AppCommand::GetStatus)
    } else {
        None
    }
}

/// Reading into a narrower type gives the same value when it fits there.
proof fn lemma_btoi_narrower(s: Seq<u8>, small: nat, large: nat)
    requires
        small <= large,
    ensures
        btoi_unsigned(s, small) == (match btoi_unsigned(s, large) {
            Some(v) => if v <= small { Some(v) } else { None },
            None => None,
        }),
{
}

fn slice_range(s: &[u8], from: usize, to: usize) -> (r: &[u8])
    requires
        from <= to <= s@.len(),
    ensures
        r@ == s@.subrange(from as int, to as int),
{
    &s[from..to]
}

} // verus!
