use vstd::prelude::*;

use crate::command::Command;
use crate::device::{
    get_line, help_line, invalid_line, spec_handle_line, spec_step, temp_line,
    unknown_channel_line, unknown_pin_line, valid_channel, valid_pin, DeviceModel, EnvModel,
};
use crate::parser::spec_parse;
use crate::render::{hex4, is_upper_hex_digit};

verus! {

/// Driving a supported pin and then reading it gives back exactly the
/// level just driven, whatever role the pin was in before and whatever
/// the outside world applies to it afterwards.
pub proof fn lemma_set_then_get(
    d: DeviceModel,
    e1: EnvModel,
    e2: EnvModel,
    pin: u8,
    level: bool,
)
    requires
        d.wf(),
        e1.wf(),
        e2.wf(),
        valid_pin(pin),
    ensures
        ({
            let (d1, out1) = spec_step(d, Command::SetPin { pin, value: level }, e1);
            let (d2, out2) = spec_step(d1, Command::GetPin { pin }, e2);
            &&& out1 == Seq::<Seq<char>>::empty()
            &&& d2 == d1
            &&& out2 == seq![get_line(pin, level)]
        }),
{
    let (d1, out1) = spec_step(d, Command::SetPin { pin, value: level }, e1);
    assert(out1 =~= Seq::<Seq<char>>::empty());
}

/// A line that matches no command leaves the board untouched and is
/// answered with exactly the echoed line followed by the help text.
pub proof fn lemma_invalid_command(d: DeviceModel, l: Seq<char>, e: EnvModel)
    requires
        d.wf(),
        e.wf(),
        spec_parse(l) is None,
    ensures
        spec_handle_line(d, l, e) == (d, seq![invalid_line(l), help_line()]),
{
}

/// A pin number outside the supported set is rejected by `get` and by
/// `set` alike, with the unknown-pin message and no effect on any pin,
/// the LED or the PWM output.
pub proof fn lemma_unknown_pin(d: DeviceModel, e: EnvModel, pin: u8, level: bool)
    requires
        d.wf(),
        e.wf(),
        !valid_pin(pin),
    ensures
        spec_step(d, Command::GetPin { pin }, e) == (d, seq![unknown_pin_line(pin)]),
        spec_step(d, Command::SetPin { pin, value: level }, e) == (
            d,
            seq![unknown_pin_line(pin)],
        ),
{
}

/// A channel number outside the supported set is rejected by `adc` with
/// the unknown-channel message and no effect on the board.
pub proof fn lemma_unknown_channel(d: DeviceModel, e: EnvModel, ch: u8)
    requires
        d.wf(),
        e.wf(),
        !valid_channel(ch),
    ensures
        spec_step(d, Command::Adc { pin: ch }, e) == (d, seq![unknown_channel_line(ch)]),
{
}

/// `help` answers with the one fixed help line and changes nothing,
/// whatever state the board is in.
pub proof fn lemma_help_is_fixed(d: DeviceModel, e: EnvModel)
    requires
        d.wf(),
        e.wf(),
    ensures
        spec_step(d, Command::Help, e) == (d, seq![help_line()]),
{
}

/// The answer to `temp` is, for every 16-bit reading, exactly `temp: 0x`
/// followed by four uppercase hexadecimal digits.
pub proof fn lemma_temp_format(value: u16)
    ensures
        temp_line(value) == "temp: 0x"@ + hex4(value),
        temp_line(value).len() == 12,
        forall|i: int| 8 <= i < 12 ==> is_upper_hex_digit(#[trigger] temp_line(value)[i]),
{
    reveal_strlit("temp: 0x");
    assert forall|i: int| 8 <= i < 12 implies is_upper_hex_digit(#[trigger] temp_line(value)[i]) by {
        assert(temp_line(value)[i] == hex4(value)[i - 8]);
    }
}

} // verus!
