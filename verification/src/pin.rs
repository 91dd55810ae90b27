use vstd::prelude::*;

verus! {

/// A digital pin that can change its electrical role at runtime.
///
/// The pin is in exactly one of two roles at any instant: `DigitalIn`,
/// where the level is whatever the outside world drives onto the pin,
/// or `DigitalOut`, where the pin itself drives `level`. A role
/// transition replaces the whole value, so there is never a moment in
/// which the pin holds both roles or neither.
#[derive(Clone, Copy, Debug, PartialEq, Eq, Structural)]
pub enum AnyPin {
    DigitalIn,
    DigitalOut { level: bool },
}

impl AnyPin {
    /// The logic level an observer reads from this pin: the driven
    /// level in output role, the externally sensed level in input role.
    pub open spec fn spec_level(self, sensed: bool) -> bool {
        match self {
            AnyPin::DigitalIn => sensed,
            AnyPin::DigitalOut { level } => level,
        }
    }

    /// Put the pin into input role; a pin already in input role is left alone.
    pub fn as_input(&mut self)
        ensures
            *final(self) == AnyPin::DigitalIn,
    {
        match *self {
            AnyPin::DigitalIn => {}
            AnyPin::DigitalOut { level: _ } => {
                *self = AnyPin::DigitalIn;
            }
        }
    }

    /// Put the pin into output role. A pin entering the role from input
    /// starts out driving low; a pin already in output role keeps its level.
    pub fn as_output(&mut self)
        ensures
            *final(self) == (match *old(self) {
                AnyPin::DigitalIn => AnyPin::DigitalOut { level: false },
                AnyPin::DigitalOut { level } => AnyPin::DigitalOut { level },
            }),
    {
        match *self {
            AnyPin::DigitalIn => {
                *self = AnyPin::DigitalOut { level: false };
            }
            AnyPin::DigitalOut { level: _ } => {}
        }
    }

    /// Read the current logic level without changing the role.
    /// `sensed` is the level the outside world currently applies to the
    /// pin; it is consulted only when the pin is in input role.
    pub fn is_high(&self, sensed: bool) -> (r: bool)
        ensures
            r == self.spec_level(sensed),
    {
        match *self {
            AnyPin::DigitalIn => sensed,
            AnyPin::DigitalOut { level } => level,
        }
    }

    /// Drive the pin high, forcing it into output role first if needed.
    pub fn set_high(&mut self)
        ensures
            *final(self) == (AnyPin::DigitalOut { level: true }),
    {
        self.as_output();
        *self = AnyPin::DigitalOut { level: true };
    }

    /// Drive the pin low, forcing it into output role first if needed.
    pub fn set_low(&mut self)
        ensures
            *final(self) == (AnyPin::DigitalOut { level: false }),
    {
        self.as_output();
        *self = AnyPin::DigitalOut { level: false };
    }
}

} // verus!
