//! A command console for a small microcontroller board.
//!
//! An operator types ASCII commands, one per line, and the controller
//! answers with human-readable status lines:
//!
//! | Command          | Effect                                   |
//! | ---------------- | ---------------------------------------- |
//! | `help`           | print the list of commands               |
//! | `led on` / `off` | switch the onboard LED                   |
//! | `get <pin>`      | read a digital pin                       |
//! | `set <pin> high` / `low` | drive a digital pin              |
//! | `pwm <0-255>`    | set the PWM duty cycle and enable PWM    |
//! | `adc <0-5>`      | sample an analog channel                 |
//! | `temp`           | sample the temperature sensor            |
//!
//! This crate holds the verified core: the bounded line reader, the
//! command grammar, the dynamic-role pin model and the dispatcher that
//! binds them together. Reading bytes from the wire, writing text back
//! and touching the actual hardware registers are left to the embedding
//! program, which hands plain values in and out.

pub mod command;
pub mod device;
pub mod laws;
pub mod line;
pub mod parser;
pub mod pin;
pub mod render;
