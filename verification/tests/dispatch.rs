use pin_console::command::Command;
use pin_console::device::{Device, Env};
use pin_console::pin::AnyPin;

const HELP: &str =
    "commands: help, led on|off, get <pin>, set <pin> high|low, pwm <0-255>, adc <0-5>, temp";

fn quiet_env() -> Env {
    Env {
        sensed: vec![false; 10],
        adc_values: vec![0; 6],
        temp: 0,
    }
}

#[test]
fn set_then_get_round_trips_for_every_supported_pin() {
    for pin in [2u8, 3, 4, 6, 7, 8, 9, 10, 11, 12] {
        for level in [true, false] {
            let mut dev = Device::new();
            let env = quiet_env();
            let out = dev.execute(Command::SetPin { pin, value: level }, &env);
            assert!(out.is_empty());
            let out = dev.execute(Command::GetPin { pin }, &env);
            assert_eq!(out, vec![format!("d{}: {}", pin, level)]);
        }
    }
}

#[test]
fn set_then_get_round_trips_out_of_the_output_role_too() {
    let mut dev = Device::new();
    let env = quiet_env();
    dev.execute(Command::SetPin { pin: 9, value: true }, &env);
    dev.execute(Command::SetPin { pin: 9, value: false }, &env);
    let out = dev.execute(Command::GetPin { pin: 9 }, &env);
    assert_eq!(out, vec!["d9: false".to_string()]);
}

#[test]
fn get_reads_the_sensed_level_of_an_input_pin() {
    let mut dev = Device::new();
    let mut env = quiet_env();
    env.sensed[4] = true; // slot 4 is pin 7
    let out = dev.execute(Command::GetPin { pin: 7 }, &env);
    assert_eq!(out, vec!["d7: true".to_string()]);
    let out = dev.execute(Command::GetPin { pin: 8 }, &env);
    assert_eq!(out, vec!["d8: false".to_string()]);
}

#[test]
fn unknown_pins_are_rejected_without_side_effects() {
    for pin in [0u8, 1, 5, 13, 14, 99, 255] {
        let mut dev = Device::new();
        let env = quiet_env();
        let pins_before = dev.pins.clone();
        let msg = format!("unknown pin: {}, valid pins are 2-4, 6-12", pin);
        let out = dev.execute(Command::GetPin { pin }, &env);
        assert_eq!(out, vec![msg.clone()]);
        let out = dev.execute(Command::SetPin { pin, value: true }, &env);
        assert_eq!(out, vec![msg]);
        assert_eq!(dev.pins, pins_before);
        assert!(!dev.led_on);
        assert!(!dev.pwm_enabled);
    }
}

#[test]
fn unknown_channels_are_rejected() {
    for ch in [6u8, 7, 10, 200] {
        let mut dev = Device::new();
        let env = quiet_env();
        let out = dev.execute(Command::Adc { pin: ch }, &env);
        assert_eq!(out, vec![format!("unknown pin: {}, valid pins are 0-5", ch)]);
    }
}

#[test]
fn adc_reports_the_sampled_value() {
    let mut dev = Device::new();
    let mut env = quiet_env();
    env.adc_values[3] = 1023;
    let out = dev.execute(Command::Adc { pin: 3 }, &env);
    assert_eq!(out, vec!["a3: 1023".to_string()]);
    let out = dev.execute(Command::Adc { pin: 0 }, &env);
    assert_eq!(out, vec!["a0: 0".to_string()]);
}

#[test]
fn led_commands_switch_the_led_silently() {
    let mut dev = Device::new();
    let env = quiet_env();
    let out = dev.execute(Command::Led(true), &env);
    assert!(out.is_empty());
    assert!(dev.led_on);
    let out = dev.execute(Command::Led(false), &env);
    assert!(out.is_empty());
    assert!(!dev.led_on);
}

#[test]
fn pwm_255_sets_the_duty_cycle_with_no_output() {
    let mut dev = Device::new();
    let env = quiet_env();
    let out = dev.handle_line("pwm 255", &env);
    assert!(out.is_empty());
    assert_eq!(dev.pwm_duty, 255);
    assert!(dev.pwm_enabled);
}

#[test]
fn pwm_256_is_reported_as_an_invalid_command() {
    let mut dev = Device::new();
    let env = quiet_env();
    let out = dev.handle_line("pwm 256", &env);
    assert_eq!(
        out,
        vec!["invalid command: pwm 256".to_string(), HELP.to_string()]
    );
    assert_eq!(dev.pwm_duty, 0);
    assert!(!dev.pwm_enabled);
}

#[test]
fn help_is_the_same_fixed_text_whatever_came_before() {
    let mut dev = Device::new();
    let env = quiet_env();
    let first = dev.execute(Command::Help, &env);
    dev.execute(Command::Led(true), &env);
    dev.execute(Command::SetPin { pin: 12, value: true }, &env);
    dev.execute(Command::Pwm { duty_cycle: 77 }, &env);
    let second = dev.execute(Command::Help, &env);
    assert_eq!(first, vec![HELP.to_string()]);
    assert_eq!(first, second);
}

#[test]
fn temp_renders_four_uppercase_hex_digits() {
    let mut dev = Device::new();
    let mut env = quiet_env();
    env.temp = 0x0130;
    let out = dev.execute(Command::Temp, &env);
    assert_eq!(out, vec!["temp: 0x0130".to_string()]);
    env.temp = 0xBEEF;
    let out = dev.execute(Command::Temp, &env);
    assert_eq!(out, vec!["temp: 0xBEEF".to_string()]);
    env.temp = 0;
    let out = dev.execute(Command::Temp, &env);
    assert_eq!(out, vec!["temp: 0x0000".to_string()]);
}

#[test]
fn invalid_lines_echo_back_with_the_help_text() {
    let mut dev = Device::new();
    let env = quiet_env();
    for line in ["led sideways", "sett 2 high", "", "get zero"] {
        let before = dev.pins.clone();
        let out = dev.handle_line(line, &env);
        assert_eq!(
            out,
            vec![format!("invalid command: {}", line), HELP.to_string()]
        );
        assert_eq!(dev.pins, before);
    }
}

#[test]
fn a_fresh_device_has_every_pin_in_input_role() {
    let dev = Device::new();
    assert_eq!(dev.pins, vec![AnyPin::DigitalIn; 10]);
    assert!(!dev.led_on);
    assert_eq!(dev.pwm_duty, 0);
    assert!(!dev.pwm_enabled);
}
