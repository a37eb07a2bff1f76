use mcu_link::pwm::{synthesize, TimerConfig, TimerRegisters};

#[test]
fn synthesize_one_kilohertz_from_eighty_megahertz() {
    assert_eq!(
        synthesize(80_000_000, 1000),
        Some(TimerConfig { prescaler: 0, auto_reload: 79_999 })
    );
}

#[test]
fn synthesize_lowest_frequency() {
    assert_eq!(
        synthesize(80_000_000, 1),
        Some(TimerConfig { prescaler: 0, auto_reload: 79_999_999 })
    );
    assert_eq!(
        synthesize(u32::MAX, 1),
        Some(TimerConfig { prescaler: 0, auto_reload: u32::MAX - 1 })
    );
}

#[test]
fn synthesize_clock_frequency() {
    assert_eq!(
        synthesize(80_000_000, 80_000_000),
        Some(TimerConfig { prescaler: 0, auto_reload: 0 })
    );
}

#[test]
fn synthesize_out_of_range() {
    assert_eq!(synthesize(80_000_000, 0), None);
    assert_eq!(synthesize(80_000_000, 80_000_001), None);
}

fn period(c: TimerConfig) -> u64 {
    (c.prescaler as u64 + 1) * (c.auto_reload as u64 + 1)
}

#[test]
fn synthesize_within_tolerance() {
    let clock: u32 = 80_000_000;
    for hz in [1u32, 3, 7, 50, 999, 1000, 2_441, 12_345, 40_000, 79_999, 80_000] {
        let k: u64 = clock as u64 / hz as u64;
        let c = synthesize(clock, hz).unwrap();
        let p = period(c);
        let hz = hz as u64;
        let clock = clock as u64;
        assert!(hz * p <= clock);
        assert!(k * (clock - hz * p) < hz * p);
    }
    let c = synthesize(80_000_000, 3).unwrap();
    assert_eq!(c, TimerConfig { prescaler: 0, auto_reload: 26_666_665 });
    assert_eq!(period(c), 26_666_666);
}

fn running(enabled: bool) -> TimerRegisters {
    let mut t = TimerRegisters::reset();
    t.reprogram(TimerConfig { prescaler: 0, auto_reload: 79_999 }, 25);
    if enabled {
        t.enable();
    }
    t
}

#[test]
fn reprogram_keeps_enabled_output_and_duty_share() {
    let mut t = running(true);
    t.counter = 1234;
    t.reprogram(TimerConfig { prescaler: 0, auto_reload: 7_999 }, 25);
    assert_eq!(t.prescaler, 0);
    assert_eq!(t.auto_reload, 7_999);
    assert_eq!(t.compare, 1_999);
    assert_eq!(t.counter, 0);
    assert!(t.counting && t.auto_reload_preload && t.compare_preload && t.pwm_mode);
    assert!(t.output_enabled);
}

#[test]
fn reprogram_keeps_disabled_output() {
    let mut t = running(false);
    t.reprogram(TimerConfig { prescaler: 0, auto_reload: 7_999 }, 50);
    assert!(!t.output_enabled);
    assert_eq!(t.compare, 3_999);
}

#[test]
fn reset_and_duty() {
    let mut t = TimerRegisters::reset();
    assert_eq!(t.auto_reload, u32::MAX);
    assert_eq!(t.max_duty(), u32::MAX);
    assert!(!t.output_enabled && !t.counting);
    t.auto_reload = 39_999;
    t.set_duty_percent(100);
    assert_eq!(t.compare, 39_999);
    t.set_duty_percent(50);
    assert_eq!(t.compare, 19_999);
    t.set_duty_percent(0);
    assert_eq!(t.compare, 0);
}
