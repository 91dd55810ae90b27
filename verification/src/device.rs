use vstd::prelude::*;
use vstd::pervasive::VecAdditionalExecFns;
use vstd::string::StringExecFns;

use crate::command::Command;
use crate::parser::{parse_command, spec_parse};
use crate::pin::AnyPin;
use crate::render::{dec_digits, hex4, push_dec_u16, push_hex4_u16, push_str_chars};

verus! {

/// The pin numbers a `get` or `set` command may name.
pub open spec fn valid_pin(pin: u8) -> bool {
    pin == 2 || pin == 3 || pin == 4 || (6 <= pin && pin <= 12)
}

/// The analog channel numbers an `adc` command may name.
pub open spec fn valid_channel(ch: u8) -> bool {
    ch <= 5
}

/// The slot of a supported pin in the registry: the ten supported pin
/// numbers, in increasing order, take slots zero through nine.
pub open spec fn pin_index(pin: u8) -> int {
    if pin <= 4 {
        pin - 2
    } else {
        pin - 3
    }
}

/// What the board around the controller currently reports: the level the
/// outside world applies to each registry slot, the sample each analog
/// channel would give, and the raw temperature-sensor reading.
pub struct Env {
    pub sensed: Vec<bool>,
    pub adc_values: Vec<u16>,
    pub temp: u16,
}

/// The mathematical counterpart of [`Env`].
pub struct EnvModel {
    pub sensed: Seq<bool>,
    pub adc_values: Seq<u16>,
    pub temp: u16,
}

impl EnvModel {
    /// One reading per registry slot, one per analog channel.
    pub open spec fn wf(self) -> bool {
        self.sensed.len() == 10 && self.adc_values.len() == 6
    }
}

impl View for Env {
    type V = EnvModel;

    open spec fn view(&self) -> EnvModel {
        EnvModel { sensed: self.sensed@, adc_values: self.adc_values@, temp: self.temp }
    }
}

impl Env {
    /// One reading per registry slot, one per analog channel.
    pub open spec fn wf(self) -> bool {
        self@.wf()
    }
}

/// The whole controllable state of the board: the onboard LED, the
/// registry of ten dynamic-role pins, and the PWM output.
pub struct Device {
    pub led_on: bool,
    pub pins: Vec<AnyPin>,
    pub pwm_duty: u8,
    pub pwm_enabled: bool,
}

/// The mathematical counterpart of [`Device`].
pub struct DeviceModel {
    pub led_on: bool,
    pub pins: Seq<AnyPin>,
    pub pwm_duty: u8,
    pub pwm_enabled: bool,
}

impl DeviceModel {
    /// The registry holds one pin per supported pin number.
    pub open spec fn wf(self) -> bool {
        self.pins.len() == 10
    }
}

impl View for Device {
    type V = DeviceModel;

    open spec fn view(&self) -> DeviceModel {
        DeviceModel {
            led_on: self.led_on,
            pins: self.pins@,
            pwm_duty: self.pwm_duty,
            pwm_enabled: self.pwm_enabled,
        }
    }
}

impl Device {
    /// The registry holds one pin per supported pin number.
    pub open spec fn wf(self) -> bool {
        self@.wf()
    }
}

/// The state of the board right after startup: LED off, every pin an
/// input, PWM at duty zero and disabled.
pub open spec fn initial_device() -> DeviceModel {
    DeviceModel {
        led_on: false,
        pins: Seq::new(10, |i: int| AnyPin::DigitalIn),
        pwm_duty: 0,
        pwm_enabled: false,
    }
}

/// The fixed help text.
pub open spec fn help_line() -> Seq<char> {
    "commands: help, led on|off, get <pin>, set <pin> high|low, pwm <0-255>, adc <0-5>, temp"@
}

/// The answer to `get`: the pin number and the level read from it.
pub open spec fn get_line(pin: u8, level: bool) -> Seq<char> {
    "d"@ + dec_digits(pin as nat) + ": "@ + (if level {
        "true"@
    } else {
        "false"@
    })
}

/// The complaint about a pin number outside the supported set.
pub open spec fn unknown_pin_line(pin: u8) -> Seq<char> {
    "unknown pin: "@ + dec_digits(pin as nat) + ", valid pins are 2-4, 6-12"@
}

/// The complaint about an analog channel outside the supported set.
pub open spec fn unknown_channel_line(ch: u8) -> Seq<char> {
    "unknown pin: "@ + dec_digits(ch as nat) + ", valid pins are 0-5"@
}

/// The answer to `adc`: the channel number and its sample.
pub open spec fn adc_line(ch: u8, value: u16) -> Seq<char> {
    "a"@ + dec_digits(ch as nat) + ": "@ + dec_digits(value as nat)
}

/// The answer to `temp`: the raw sensor reading as four uppercase
/// hexadecimal digits.
pub open spec fn temp_line(value: u16) -> Seq<char> {
    "temp: 0x"@ + hex4(value)
}

/// The complaint about a line that matches no command, echoing it back.
pub open spec fn invalid_line(l: Seq<char>) -> Seq<char> {
    "invalid command: "@ + l
}

/// The characters of each response line, in order.
pub open spec fn line_views(out: Seq<String>) -> Seq<Seq<char>> {
    out.map_values(|s: String| s@)
}

/// What dispatching one command does: the device state afterwards and
/// the response lines written back, given the board readings `e`.
pub open spec fn spec_step(d: DeviceModel, cmd: Command, e: EnvModel) -> (DeviceModel, Seq<
    Seq<char>,
>) {
    match cmd {
        Command::Help => (d, seq![help_line()]),
        Command::Led(on) => (DeviceModel { led_on: on, ..d }, seq![]),
        Command::GetPin { pin } => if valid_pin(pin) {
            let level = d.pins[pin_index(pin)].spec_level(e.sensed[pin_index(pin)]);
            (d, seq![get_line(pin, level)])
        } else {
            (d, seq![unknown_pin_line(pin)])
        },
        Command::SetPin { pin, value } => if valid_pin(pin) {
            (
                DeviceModel {
                    pins: d.pins.update(pin_index(pin), AnyPin::DigitalOut { level: value }),
                    ..d
                },
                seq![],
            )
        } else {
            (d, seq![unknown_pin_line(pin)])
        },
        Command::Pwm { duty_cycle } => (
            DeviceModel { pwm_duty: duty_cycle, pwm_enabled: true, ..d },
            seq![],
        ),
        Command::Adc { pin } => if valid_channel(pin) {
            (d, seq![adc_line(pin, e.adc_values[pin as int])])
        } else {
            (d, seq![unknown_channel_line(pin)])
        },
        Command::Temp => (d, seq![temp_line(e.temp)]),
    }
}

/// What one whole console iteration does with an already-read line: a
/// line matching the grammar is dispatched; any other line changes
/// nothing and is answered with the echo and the help text.
pub open spec fn spec_handle_line(d: DeviceModel, l: Seq<char>, e: EnvModel) -> (DeviceModel, Seq<
    Seq<char>,
>) {
    match spec_parse(l) {
        Some(cmd) => spec_step(d, cmd, e),
        None => (d, seq![invalid_line(l), help_line()]),
    }
}

/// Relies on String's FromIterator<char> impl: collecting characters
/// yields a string of exactly those characters, in order.
#[verifier::external_body]
fn chars_to_string(v: &Vec<char>) -> (r: String)
    ensures
        r@ == v@,
{
    v.iter().collect()
}

/// Whether `pin` is one of the ten supported digital pin numbers.
pub fn pin_supported(pin: u8) -> (r: bool)
    ensures
        r == valid_pin(pin),
{
    pin == 2 || pin == 3 || pin == 4 || (6 <= pin && pin <= 12)
}

/// The registry slot of a supported pin.
fn pin_slot(pin: u8) -> (i: usize)
    requires
        valid_pin(pin),
    ensures
        i == pin_index(pin) && i < 10,
{
    if pin <= 4 {
        (pin - 2) as usize
    } else {
        (pin - 3) as usize
    }
}

impl Device {
    /// A freshly booted board.
    pub fn new() -> (r: Device)
        ensures
            r@ == initial_device(),
            r.wf(),
    {
        let mut pins: Vec<AnyPin> = Vec::new();
        let mut i: usize = 0;
        while i < 10
            invariant
                i <= 10,
                pins@.len() == i,
                forall|j: int| 0 <= j < i ==> pins@[j] == AnyPin::DigitalIn,
            decreases 10 - i,
        {
            pins.push(AnyPin::DigitalIn);
            i = i + 1;
        }
        proof {
            assert(pins@ =~= initial_device().pins);
        }
        Device { led_on: false, pins, pwm_duty: 0, pwm_enabled: false }
    }

    /// Dispatch one parsed command against the board readings `env`:
    /// validate pin and channel numbers, apply the hardware effect to
    /// the model, and produce the response lines to write back.
    pub fn execute(&mut self, cmd: Command, env: &Env) -> (out: Vec<String>)
        requires
            old(self).wf(),
            env.wf(),
        ensures
            final(self).wf(),
            final(self)@ == spec_step(old(self)@, cmd, env@).0,
            line_views(out@) == spec_step(old(self)@, cmd, env@).1,
    {
        let mut out: Vec<String> = Vec::new();
        match cmd {
            Command::Help => {
                out.push(String::from_str(
                    "commands: help, led on|off, get <pin>, set <pin> high|low, pwm <0-255>, adc <0-5>, temp",
                ));
                proof {
                    assert(line_views(out@) =~= spec_step(old(self)@, cmd, env@).1);
                }
            }
            Command::Led(on) => {
                self.led_on = on;
                proof {
                    assert(line_views(out@) =~= spec_step(old(self)@, cmd, env@).1);
                }
            }
            Command::GetPin { pin } => {
                let mut l: Vec<char> = Vec::new();
                if pin_supported(pin) {
                    let idx = pin_slot(pin);
                    let p = self.pins[idx];
                    let level = p.is_high(env.sensed[idx]);
                    push_str_chars(&mut l, "d");
                    push_dec_u16(&mut l, pin as u16);
                    push_str_chars(&mut l, ": ");
                    if level {
                        push_str_chars(&mut l, "true");
                    } else {
                        push_str_chars(&mut l, "false");
                    }
                    proof {
                        assert(l@ =~= get_line(pin, p.spec_level(env@.sensed[pin_index(pin)])));
                    }
                } else {
                    push_str_chars(&mut l, "unknown pin: ");
                    push_dec_u16(&mut l, pin as u16);
                    push_str_chars(&mut l, ", valid pins are 2-4, 6-12");
                    proof {
                        assert(l@ =~= unknown_pin_line(pin));
                    }
                }
                out.push(chars_to_string(&l));
                proof {
                    assert(line_views(out@) =~= spec_step(old(self)@, cmd, env@).1);
                }
            }
            Command::SetPin { pin, value } => {
                if pin_supported(pin) {
                    let idx = pin_slot(pin);
                    let mut p = self.pins[idx];
                    if value {
                        p.set_high();
                    } else {
                        p.set_low();
                    }
                    self.pins.set(idx, p);
                    proof {
                        assert(line_views(out@) =~= spec_step(old(self)@, cmd, env@).1);
                    }
                } else {
                    let mut l: Vec<char> = Vec::new();
                    push_str_chars(&mut l, "unknown pin: ");
                    push_dec_u16(&mut l, pin as u16);
                    push_str_chars(&mut l, ", valid pins are 2-4, 6-12");
                    proof {
                        assert(l@ =~= unknown_pin_line(pin));
                    }
                    out.push(chars_to_string(&l));
                    proof {
                        assert(line_views(out@) =~= spec_step(old(self)@, cmd, env@).1);
                    }
                }
            }
            Command::Pwm { duty_cycle } => {
                self.pwm_duty = duty_cycle;
                self.pwm_enabled = true;
                proof {
                    assert(line_views(out@) =~= spec_step(old(self)@, cmd, env@).1);
                }
            }
            Command::Adc { pin } => {
                let mut l: Vec<char> = Vec::new();
                if pin <= 5 {
                    let value = env.adc_values[pin as usize];
                    push_str_chars(&mut l, "a");
                    push_dec_u16(&mut l, pin as u16);
                    push_str_chars(&mut l, ": ");
                    push_dec_u16(&mut l, value);
                    proof {
                        assert(l@ =~= adc_line(pin, env@.adc_values[pin as int]));
                    }
                } else {
                    push_str_chars(&mut l, "unknown pin: ");
                    push_dec_u16(&mut l, pin as u16);
                    push_str_chars(&mut l, ", valid pins are 0-5");
                    proof {
                        assert(l@ =~= unknown_channel_line(pin));
                    }
                }
                out.push(chars_to_string(&l));
                proof {
                    assert(line_views(out@) =~= spec_step(old(self)@, cmd, env@).1);
                }
            }
            Command::Temp => {
                let mut l: Vec<char> = Vec::new();
                push_str_chars(&mut l, "temp: 0x");
                push_hex4_u16(&mut l, env.temp);
                proof {
                    assert(l@ =~= temp_line(env@.temp));
                }
                out.push(chars_to_string(&l));
                proof {
                    assert(line_views(out@) =~= spec_step(old(self)@, cmd, env@).1);
                }
            }
        }
        out
    }

    /// Handle one whole line as typed by the operator: parse it, then
    /// dispatch it; a line that matches no command leaves the board
    /// untouched and is answered with the echo and the help text.
    pub fn handle_line(&mut self, line: &str, env: &Env) -> (out: Vec<String>)
        requires
            old(self).wf(),
            env.wf(),
        ensures
            final(self).wf(),
            final(self)@ == spec_handle_line(old(self)@, line@, env@).0,
            line_views(out@) == spec_handle_line(old(self)@, line@, env@).1,
    {
        match parse_command(line) {
            Ok(cmd) => self.execute(cmd, env),
            Err(_) => {
                let mut out: Vec<String> = Vec::new();
                let mut l: Vec<char> = Vec::new();
                push_str_chars(&mut l, "invalid command: ");
                push_str_chars(&mut l, line);
                proof {
                    assert(l@ =~= invalid_line(line@));
                }
                out.push(chars_to_string(&l));
                out.push(String::from_str(
                    "commands: help, led on|off, get <pin>, set <pin> high|low, pwm <0-255>, adc <0-5>, temp",
                ));
                proof {
                    assert(line_views(out@) =~= spec_handle_line(old(self)@, line@, env@).1);
                }
                out
            }
        }
    }
}

} // verus!
