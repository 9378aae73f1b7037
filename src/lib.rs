//! Bindings to the Particle HAL, with the logic that sits between application
//! code and the firmware's entry points stated and proved.
//!
//! The firmware itself is reached through capabilities (`cloud::CloudRuntime`)
//! or through the plain values that this crate computes for each entry point.
#![allow(non_camel_case_types)]

pub mod cloud;
pub mod ctypes;
pub mod ll;
pub mod socket;

use vstd::prelude::*;

use crate::ll::pin_t;

verus! {

/// How a pin is configured: as an input, with or without a pull resistor, or
/// as an output.
#[derive(Clone, Copy, Debug, PartialEq, Eq, Structural)]
pub enum PinMode {
    Input,
    InputPulldown,
    InputPullup,
    Output,
}

/// The HAL's mode for each of the modes offered here.
pub open spec fn hal_mode(mode: PinMode) -> ll::PinMode {
    match mode {
        PinMode::Input => ll::PinMode::INPUT,
        PinMode::InputPulldown => ll::PinMode::INPUT_PULLDOWN,
        PinMode::InputPullup => ll::PinMode::INPUT_PULLUP,
        PinMode::Output => ll::PinMode::OUTPUT,
    }
}

impl PinMode {
    /// The mode that `HAL_Pin_Mode` takes for this one.
    pub fn to_hal(self) -> (r: ll::PinMode)
        ensures
            r == hal_mode(self),
    {
        match self {
            PinMode::Input => ll::PinMode::INPUT,
            PinMode::InputPulldown => ll::PinMode::INPUT_PULLDOWN,
            PinMode::InputPullup => ll::PinMode::INPUT_PULLUP,
            PinMode::Output => ll::PinMode::OUTPUT,
        }
    }
}

/// The board's user LED, on pin D7.
pub const LED: D7 = D7;

/// Digital pin D0.
pub struct D0;

impl D0 {
    /// The HAL's number for this pin.
    pub fn pin(&self) -> (r: pin_t)
        ensures
            r == 0,
    {
        0
    }
}

/// Digital pin D1.
pub struct D1;

impl D1 {
    /// The HAL's number for this pin.
    pub fn pin(&self) -> (r: pin_t)
        ensures
            r == 1,
    {
        1
    }
}

/// Digital pin D2.
pub struct D2;

impl D2 {
    /// The HAL's number for this pin.
    pub fn pin(&self) -> (r: pin_t)
        ensures
            r == 2,
    {
        2
    }
}

/// Digital pin D3.
pub struct D3;

impl D3 {
    /// The HAL's number for this pin.
    pub fn pin(&self) -> (r: pin_t)
        ensures
            r == 3,
    {
        3
    }
}

/// Digital pin D4.
pub struct D4;

impl D4 {
    /// The HAL's number for this pin.
    pub fn pin(&self) -> (r: pin_t)
        ensures
            r == 4,
    {
        4
    }
}

/// Digital pin D5.
pub struct D5;

impl D5 {
    /// The HAL's number for this pin.
    pub fn pin(&self) -> (r: pin_t)
        ensures
            r == 5,
    {
        5
    }
}

/// Digital pin D6.
pub struct D6;

impl D6 {
    /// The HAL's number for this pin.
    pub fn pin(&self) -> (r: pin_t)
        ensures
            r == 6,
    {
        6
    }
}

/// Digital pin D7.
pub struct D7;

impl D7 {
    /// The HAL's number for this pin.
    pub fn pin(&self) -> (r: pin_t)
        ensures
            r == 7,
    {
        7
    }
}

/// Analog pin A0.
pub struct A0;

/// Analog pin A1.
pub struct A1;

/// Analog pin A2.
pub struct A2;

/// Analog pin A3.
pub struct A3;

/// Analog pin A4.
pub struct A4;

/// Analog pin A5.
pub struct A5;

} // verus!
