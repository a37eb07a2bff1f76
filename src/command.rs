//! The host's side of the wire protocol: a command to the line it is sent
//! as, and a reply line to the response it stands for.
use crate::decimal::{
    all_digit_chars, char_digits_value, decimal, lemma_decimal, push_decimal,
};
use crate::protocol::{
    command_of, AppCommand, DELIMITER, TAG_CLEAR_GPIO, TAG_DUTY, TAG_FREQUENCY, TAG_PWM_OFF,
    TAG_PWM_ON, TAG_SET_GPIO, TAG_STATUS, TAG_TIME,
};
use vstd::prelude::*;
use vstd::string::StrSliceExecFns;

verus! {

/// A command as the host issues it.
#[derive(Debug, Clone, Copy, PartialEq, Eq, Structural)]
pub enum DeviceCommands {
    PwmOn,
    PwmOff,
    PwmDuty(u8),
    PwmSetFreq(u32),
    SetGpioPin,
    ClearGpioPin,
    GetTime,
    GetState,
}

/// A reply as the host reads it.
#[derive(Debug, Clone, Copy, PartialEq, Eq, Structural)]
pub enum DeviceResponses {
    Success,
    Error,
    Time(u32),
}

pub open spec fn tagged(tag: u8) -> Seq<u8> {
    seq![tag, DELIMITER]
}

pub open spec fn tagged_number(tag: u8, n: nat) -> Seq<u8> {
    seq![tag] + decimal(n) + seq![DELIMITER]
}

/// The line that carries a command.
pub open spec fn encoding(c: DeviceCommands) -> Seq<u8> {
    match c {
        DeviceCommands::SetGpioPin => tagged(TAG_SET_GPIO),
        DeviceCommands::ClearGpioPin => tagged(TAG_CLEAR_GPIO),
        DeviceCommands::PwmOn => tagged(TAG_PWM_ON),
        DeviceCommands::PwmOff => tagged(TAG_PWM_OFF),
        DeviceCommands::PwmDuty(d) => tagged_number(TAG_DUTY, d as nat),
        DeviceCommands::PwmSetFreq(hz) => tagged_number(TAG_FREQUENCY, hz as nat),
        DeviceCommands::GetTime => tagged(TAG_TIME),
        DeviceCommands::GetState => tagged(TAG_STATUS),
    }
}

/// The device command that a host command stands for.
pub open spec fn app_command_of(c: DeviceCommands) -> AppCommand {
    match c {
        DeviceCommands::SetGpioPin => AppCommand::SetGpioPin,
        DeviceCommands::ClearGpioPin => AppCommand::ClearGpioPin,
        DeviceCommands::PwmOn => AppCommand::PwmOn,
        DeviceCommands::PwmOff => AppCommand::PwmOff,
        DeviceCommands::PwmDuty(d) => AppCommand::PwmDuty(d as u16),
        DeviceCommands::PwmSetFreq(hz) => AppCommand::PwmSetFreq(hz),
        DeviceCommands::GetTime => AppCommand::GetTime,
        DeviceCommands::GetState => AppCommand::GetStatus,
    }
}

/// Builds the line that carries `command`.
pub fn encode_command(command: DeviceCommands) -> (r: Vec<u8>)
    ensures
        r@ == encoding(command),
{
    let mut out: Vec<u8> = Vec::new();
    match command {
        DeviceCommands::SetGpioPin => out.push(TAG_SET_GPIO),
        DeviceCommands::ClearGpioPin => out.push(TAG_CLEAR_GPIO),
        DeviceCommands::PwmOn => out.push(TAG_PWM_ON),
        DeviceCommands::PwmOff => out.push(TAG_PWM_OFF),
        DeviceCommands::PwmDuty(duty) => {
            out.push(TAG_DUTY);
            push_decimal(&mut out, duty as u32);
        },
        DeviceCommands::PwmSetFreq(hz) => {
            out.push(TAG_FREQUENCY);
            push_decimal(&mut out, hz);
        },
        DeviceCommands::GetTime => out.push(TAG_TIME),
        DeviceCommands::GetState => out.push(TAG_STATUS),
    }
    out.push(DELIMITER);
    proof {
        assert(out@ =~= encoding(command));
    }
    out
}

/// Every command survives the trip through its line and the device's
/// parser: decoding the encoding of a command gives that command back.
pub proof fn lemma_decode_encode(c: DeviceCommands)
    ensures
        command_of(encoding(c)) == Some(app_command_of(c)),
{
    match c {
        DeviceCommands::PwmDuty(d) => lemma_number_line(TAG_DUTY, d as nat, u16::MAX as nat),
        DeviceCommands::PwmSetFreq(hz) => lemma_number_line(TAG_FREQUENCY, hz as nat, u32::MAX as nat),
        _ => {},
    }
}

proof fn lemma_number_line(tag: u8, n: nat, max: nat)
    requires
        n <= max,
    ensures
        tagged_number(tag, n).len() > 2,
        tagged_number(tag, n)[0] == tag,
        crate::protocol::argument_of(tagged_number(tag, n), max) == Some(n),
{
    lemma_decimal(n);
    let s = tagged_number(tag, n);
    assert(s.subrange(1, s.len() - 1) =~= decimal(n));
    assert(decimal(n)[0] != crate::protocol::PLUS && decimal(n)[0] != crate::protocol::MINUS);
}

/// A reply line without its trailing delimiter, when it has one.
pub open spec fn payload_of(line: Seq<char>) -> Seq<char> {
    if line.len() > 0 && line.last() == '\n' {
        line.drop_last()
    } else {
        line
    }
}

/// What `str::parse::<u32>` reads: digits with an optional `+`, no more
/// than `u32::MAX`.
pub open spec fn parse_u32_of(s: Seq<char>) -> Option<u32> {
    let digits = if s.len() > 0 && s[0] == '+' { s.drop_first() } else { s };
    if digits.len() > 0 && all_digit_chars(digits) && char_digits_value(digits) <= u32::MAX {
        Some(char_digits_value(digits) as u32)
    } else {
        None
    }
}

/// The response that a reply line stands for: `X` is an error, `T` with
/// a number is a time, any other tag is a success, and an empty line or a
/// `T` without a number is an error.
pub open spec fn response_of(line: Seq<char>) -> DeviceResponses {
    let p = payload_of(line);
    if p.len() == 0 {
        DeviceResponses::Error
    } else if p[0] == 'X' {
        DeviceResponses::Error
    } else if p[0] == 'T' {
        match parse_u32_of(p.drop_first()) {
            Some(t) => DeviceResponses::Time(t),
            None => DeviceResponses::Error,
        }
    } else {
        DeviceResponses::Success
    }
}

/// Relies on `str::parse::<u32>`: an optional `+` and decimal digits, with
/// an error on anything else and on overflow.
#[verifier::external_body]
fn parse_u32(s: &str) -> (r: Option<u32>)
    ensures
        r == parse_u32_of(s@),
{
    s.parse::<u32>().ok()
}

/// Reads one reply line, delimiter included or not.
pub fn parse_response(buffer: &str) -> (r: DeviceResponses)
    ensures
        r == response_of(buffer@),
{
    let len = buffer.unicode_len();
    let end = if len > 0 && buffer.get_char(len - 1) == '\n' {
        len - 1
    } else {
        len
    };
    let payload = buffer.substring_char(0, end);
    assert(payload@ == payload_of(buffer@));
    if end == 0 {
        return DeviceResponses::Error;
    }
    let c = payload.get_char(0);
    if c == 'X' {
        DeviceResponses::Error
    } else if c == 'T' {
        let digits = payload.substring_char(1, end);
        assert(digits@ == payload@.drop_first());
        match parse_u32(digits) {
            Some(t) => DeviceResponses::Time(t),
            None => DeviceResponses::Error,
        }
    } else {
        DeviceResponses::Success
    }
}

} // verus!
