use vstd::prelude::*;

verus! {

/// One fully parsed console command.
///
/// A value of this type is syntactically complete: the keyword and field
/// count matched the grammar and every numeric field fit in eight bits.
/// Whether a pin or channel number is actually wired up is checked later,
/// at dispatch time.
#[derive(Clone, Copy, Debug, PartialEq, Eq, Structural)]
pub enum Command {
    Help,
    Led(bool),
    GetPin { pin: u8 },
    SetPin { pin: u8, value: bool },
    Pwm { duty_cycle: u8 },
    Adc { pin: u8 },
    Temp,
}

/// A line of input did not match the command grammar. The error carries
/// nothing: the caller reports the offending line back verbatim.
#[derive(Clone, Copy, Debug, PartialEq, Eq, Structural)]
pub struct ParseError;

} // verus!
