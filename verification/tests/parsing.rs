use pin_console::command::Command;
use pin_console::parser::parse_command;

#[test]
fn parses_help() {
    assert_eq!(parse_command("help"), Ok(Command::Help));
}

#[test]
fn parses_temp() {
    assert_eq!(parse_command("temp"), Ok(Command::Temp));
}

#[test]
fn parses_led_on_and_off() {
    assert_eq!(parse_command("led on"), Ok(Command::Led(true)));
    assert_eq!(parse_command("led off"), Ok(Command::Led(false)));
}

#[test]
fn parses_get_pin() {
    assert_eq!(parse_command("get 7"), Ok(Command::GetPin { pin: 7 }));
    assert_eq!(parse_command("get 12"), Ok(Command::GetPin { pin: 12 }));
    assert_eq!(parse_command("get 0"), Ok(Command::GetPin { pin: 0 }));
}

#[test]
fn parses_set_pin() {
    assert_eq!(
        parse_command("set 12 high"),
        Ok(Command::SetPin { pin: 12, value: true })
    );
    assert_eq!(
        parse_command("set 2 low"),
        Ok(Command::SetPin { pin: 2, value: false })
    );
}

#[test]
fn parses_pwm_and_adc() {
    assert_eq!(parse_command("pwm 0"), Ok(Command::Pwm { duty_cycle: 0 }));
    assert_eq!(parse_command("pwm 255"), Ok(Command::Pwm { duty_cycle: 255 }));
    assert_eq!(parse_command("adc 3"), Ok(Command::Adc { pin: 3 }));
}

#[test]
fn accepts_leading_zeros_up_to_the_field_width() {
    assert_eq!(parse_command("get 007"), Ok(Command::GetPin { pin: 7 }));
    assert_eq!(parse_command("pwm 0255"), Ok(Command::Pwm { duty_cycle: 255 }));
}

#[test]
fn pwm_256_overflows_the_field_and_fails_to_parse() {
    assert!(parse_command("pwm 256").is_err());
    assert!(parse_command("pwm 99999999999999999999").is_err());
}

#[test]
fn rejects_text_outside_the_grammar() {
    assert!(parse_command("").is_err());
    assert!(parse_command("led sideways").is_err());
    assert!(parse_command("sett 2 high").is_err());
    assert!(parse_command("led").is_err());
    assert!(parse_command("led  on").is_err());
    assert!(parse_command("get").is_err());
    assert!(parse_command("get ").is_err());
    assert!(parse_command("get 7 ").is_err());
    assert!(parse_command("get x").is_err());
    assert!(parse_command("set 5high").is_err());
    assert!(parse_command("set 5 sideways").is_err());
    assert!(parse_command("set 5").is_err());
    assert!(parse_command("help me").is_err());
    assert!(parse_command("helpme").is_err());
    assert!(parse_command("HELP").is_err());
    assert!(parse_command("temp now").is_err());
    assert!(parse_command(" help").is_err());
}

#[test]
fn keyword_prefixes_alone_are_not_commands() {
    assert!(parse_command("led ").is_err());
    assert!(parse_command("set ").is_err());
    assert!(parse_command("adc ").is_err());
}

#[test]
fn the_parser_does_no_range_checking() {
    assert_eq!(parse_command("get 99"), Ok(Command::GetPin { pin: 99 }));
    assert_eq!(parse_command("adc 200"), Ok(Command::Adc { pin: 200 }));
}
