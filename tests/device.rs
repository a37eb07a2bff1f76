use bytes::BytesMut;
use mcu_link::app::AppState;
use mcu_link::codec::LineCodec;
use mcu_link::command::{encode_command, parse_response, DeviceCommands, DeviceResponses};
use mcu_link::controller::Controller;
use mcu_link::device::{Device, POOL_BUFFERS};
use mcu_link::protocol::AppCommand;

const CLOCK: u32 = 80_000_000;

fn send(device: &mut Device, line: &[u8]) {
    for &b in line {
        device.on_byte(b);
    }
}

/// Runs the main loop once, lets the transmitter finish, and reads the
/// reply as the host would.
fn exchange(device: &mut Device, line: &[u8]) -> (Vec<u8>, DeviceResponses) {
    send(device, line);
    device.poll();
    let reply = device.pending_reply().expect("one reply per command");
    device.on_transmit_complete();
    let mut src = BytesMut::from(&reply[..]);
    let text = LineCodec.decode(&mut src).unwrap().unwrap();
    assert!(src.is_empty());
    (reply, parse_response(&text))
}

#[test]
fn app_state_starts_off() {
    let s = AppState::new();
    assert_eq!(s, AppState { pwm_period: 0, pwm_duty_cycle: 0, pwm_state: false, led_state: false });
}

#[test]
fn controller_starts_with_pwm_at_quarter_duty() {
    let c = Controller::new(CLOCK);
    assert!(c.app.pwm_state && c.timer.output_enabled);
    assert_eq!(c.app.pwm_duty_cycle, 25);
    assert_eq!(c.app.pwm_period, 79_999);
    assert_eq!(c.timer.prescaler, 0);
    assert_eq!(c.timer.auto_reload, 79_999);
    assert_eq!(c.timer.compare, 19_999);
    assert!(!c.led && !c.app.led_state);
}

#[test]
fn controller_with_slow_clock_starts_off() {
    let c = Controller::new(999);
    assert!(!c.app.pwm_state && !c.timer.output_enabled);
    assert_eq!(c.timer.auto_reload, u32::MAX);
}

#[test]
fn controller_gpio_and_pwm_switches() {
    let mut c = Controller::new(CLOCK);
    assert_eq!(c.execute(Some(AppCommand::SetGpioPin), 0), b"S\n".to_vec());
    assert!(c.led && c.app.led_state);
    assert_eq!(c.execute(Some(AppCommand::ClearGpioPin), 0), b"S\n".to_vec());
    assert!(!c.led && !c.app.led_state);
    assert_eq!(c.execute(Some(AppCommand::PwmOff), 0), b"S\n".to_vec());
    assert!(!c.app.pwm_state && !c.timer.output_enabled);
    assert_eq!(c.execute(Some(AppCommand::PwmOn), 0), b"S\n".to_vec());
    assert!(c.app.pwm_state && c.timer.output_enabled);
}

#[test]
fn controller_duty() {
    let mut c = Controller::new(CLOCK);
    assert_eq!(c.execute(Some(AppCommand::PwmDuty(50)), 0), b"S\n".to_vec());
    assert_eq!(c.app.pwm_duty_cycle, 50);
    assert_eq!(c.timer.compare, 39_999);
    let before = c;
    assert_eq!(c.execute(Some(AppCommand::PwmDuty(150)), 0), b"S\n".to_vec());
    assert_eq!(c, before);
}

#[test]
fn controller_frequency_change_while_enabled() {
    let mut c = Controller::new(CLOCK);
    c.execute(Some(AppCommand::PwmDuty(40)), 0);
    assert_eq!(c.execute(Some(AppCommand::PwmSetFreq(10_000)), 0), b"S\n".to_vec());
    assert!(c.app.pwm_state && c.timer.output_enabled);
    assert_eq!(c.app.pwm_duty_cycle, 40);
    assert_eq!(c.timer.prescaler, 0);
    assert_eq!(c.timer.auto_reload, 7_999);
    assert_eq!(c.app.pwm_period, 7_999);
    assert_eq!(c.timer.compare, 3_199);
    assert_eq!(c.timer.counter, 0);
}

#[test]
fn controller_frequency_change_while_disabled() {
    let mut c = Controller::new(CLOCK);
    c.execute(Some(AppCommand::PwmOff), 0);
    assert_eq!(c.execute(Some(AppCommand::PwmSetFreq(2_000)), 0), b"S\n".to_vec());
    assert!(!c.app.pwm_state && !c.timer.output_enabled);
    assert_eq!(c.app.pwm_duty_cycle, 25);
    assert_eq!(c.timer.auto_reload, 39_999);
    assert_eq!(c.timer.compare, 9_999);
}

#[test]
fn controller_unreachable_frequency_is_error() {
    let mut c = Controller::new(CLOCK);
    let before = c;
    assert_eq!(c.execute(Some(AppCommand::PwmSetFreq(0)), 0), b"X\n".to_vec());
    assert_eq!(c.execute(Some(AppCommand::PwmSetFreq(CLOCK + 1)), 0), b"X\n".to_vec());
    assert_eq!(c, before);
}

#[test]
fn controller_time_status_and_unknown() {
    let mut c = Controller::new(CLOCK);
    let before = c;
    assert_eq!(c.execute(Some(AppCommand::GetTime), 1234), b"T1234\n".to_vec());
    assert_eq!(c.execute(Some(AppCommand::GetTime), u32::MAX), b"T4294967295\n".to_vec());
    assert_eq!(c.execute(Some(AppCommand::GetStatus), 0), b"S\n".to_vec());
    assert_eq!(c.execute(None, 0), b"X\n".to_vec());
    assert_eq!(c, before);
}

#[test]
fn end_to_end_duty() {
    let mut d = Device::new(CLOCK);
    let (reply, response) = exchange(&mut d, b"D50\n");
    assert_eq!(reply, b"S\n".to_vec());
    assert!(matches!(response, DeviceResponses::Success));
    assert_eq!(d.controller().app.pwm_duty_cycle, 50);
}

#[test]
fn end_to_end_time() {
    let mut d = Device::new(CLOCK);
    for _ in 0..1234 {
        d.tick();
    }
    assert_eq!(d.millis(), 1234);
    let (reply, response) = exchange(&mut d, &encode_command(DeviceCommands::GetTime));
    assert_eq!(reply, b"T1234\n".to_vec());
    assert!(matches!(response, DeviceResponses::Time(1234)));
    assert!(matches!(parse_response("T\n"), DeviceResponses::Error));
}

#[test]
fn end_to_end_unrecognized() {
    let mut d = Device::new(CLOCK);
    let before = d.controller();
    let (reply, response) = exchange(&mut d, b"Z\n");
    assert_eq!(reply, b"X\n".to_vec());
    assert!(matches!(response, DeviceResponses::Error));
    assert_eq!(d.controller(), before);
}

#[test]
fn end_to_end_malformed_lines_get_errors() {
    let mut d = Device::new(CLOCK);
    for line in [&b"\n"[..], b"Dx\n", b"F\n", b"Q12\n", b"D12a\n"] {
        let (reply, response) = exchange(&mut d, line);
        assert_eq!(reply, b"X\n".to_vec());
        assert!(matches!(response, DeviceResponses::Error));
    }
}

#[test]
fn end_to_end_frequency_keeps_output() {
    let mut d = Device::new(CLOCK);
    let (_, response) = exchange(&mut d, &encode_command(DeviceCommands::PwmSetFreq(5_000)));
    assert!(matches!(response, DeviceResponses::Success));
    let c = d.controller();
    assert!(c.app.pwm_state && c.timer.output_enabled);
    assert_eq!(c.app.pwm_duty_cycle, 25);
    exchange(&mut d, b"O\n");
    exchange(&mut d, b"F3000\n");
    let c = d.controller();
    assert!(!c.app.pwm_state && !c.timer.output_enabled);
    assert_eq!(c.app.pwm_duty_cycle, 25);
}

#[test]
fn nothing_happens_without_a_delimiter() {
    let mut d = Device::new(CLOCK);
    send(&mut d, b"P");
    d.poll();
    assert!(d.pending_reply().is_none());
    send(&mut d, b"\n");
    d.poll();
    assert_eq!(d.pending_reply(), Some(b"S\n".to_vec()));
    assert!(d.controller().led);
}

#[test]
fn reply_waits_for_transmitter() {
    let mut d = Device::new(CLOCK);
    send(&mut d, b"P\n");
    d.poll();
    assert_eq!(d.pending_reply(), Some(b"S\n".to_vec()));
    send(&mut d, b"T\n");
    d.poll();
    assert_eq!(d.pending_reply(), Some(b"S\n".to_vec()));
    d.on_transmit_complete();
    assert!(d.pending_reply().is_none());
    d.poll();
    assert_eq!(d.pending_reply(), Some(b"T0\n".to_vec()));
}

#[test]
fn transmit_complete_without_transfer_is_harmless() {
    let mut d = Device::new(CLOCK);
    d.on_transmit_complete();
    d.on_transmit_complete();
    let (reply, _) = exchange(&mut d, b"S\n");
    assert_eq!(reply, b"S\n".to_vec());
}

#[test]
fn full_receive_buffer_makes_message_ready() {
    let mut d = Device::new(CLOCK);
    let mut line = vec![b'P'];
    line.extend(std::iter::repeat(b'x').take(99));
    send(&mut d, &line);
    d.poll();
    assert_eq!(d.pending_reply(), Some(b"S\n".to_vec()));
    assert!(d.controller().led);
    d.on_transmit_complete();
    send(&mut d, b"\n");
    d.poll();
    assert_eq!(d.pending_reply(), Some(b"X\n".to_vec()));
}

#[test]
fn long_line_overflowing_message_is_answered() {
    let mut d = Device::new(CLOCK);
    let mut line = vec![b'D'];
    line.extend(std::iter::repeat(b'1').take(150));
    line.push(b'\n');
    send(&mut d, &line[..100]);
    d.poll();
    assert_eq!(d.pending_reply(), Some(b"X\n".to_vec()));
    d.on_transmit_complete();
    send(&mut d, &line[100..]);
    d.poll();
    assert_eq!(d.pending_reply(), Some(b"X\n".to_vec()));
}

#[test]
fn buffers_are_idle_or_held() {
    let mut d = Device::new(CLOCK);
    assert_eq!(d.idle_buffers() + 1, POOL_BUFFERS);
    send(&mut d, b"P\n");
    assert_eq!(d.idle_buffers() + 1, POOL_BUFFERS);
    d.poll();
    assert!(d.pending_reply().is_some());
    assert_eq!(d.idle_buffers() + 2, POOL_BUFFERS);
    send(&mut d, b"C\n");
    d.poll();
    assert_eq!(d.idle_buffers() + 2, POOL_BUFFERS);
    d.on_transmit_complete();
    assert_eq!(d.idle_buffers() + 1, POOL_BUFFERS);
    d.poll();
    assert_eq!(d.idle_buffers() + 2, POOL_BUFFERS);
    d.on_transmit_complete();
    assert_eq!(d.idle_buffers() + 1, POOL_BUFFERS);
}
