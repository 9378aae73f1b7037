//! The values that the HAL's entry points take and give, as plain data.
//!
//! The entry points themselves are foreign functions; callers hand them the
//! codes and structures built here.
use vstd::prelude::*;

pub use cty::{c_char, c_int, c_uint, c_ulong, int32_t, uint16_t, uint32_t, uint8_t};

verus! {

pub type pin_t = u16;

pub type system_tick_t = u32;

pub type sock_handle_t = uint32_t;

pub type sock_result_t = int32_t;

pub type socklen_t = usize;

pub type network_interface_t = uint32_t;

/// The IPv4 address family.
pub const AF_INET: uint8_t = 2;

/// The IPv6 address family.
pub const AF_INET6: uint8_t = 23;

/// A socket address as the socket layer reads it: a family and fourteen bytes
/// of family-specific data.
pub struct sockaddr_t {
    pub sa_family: uint16_t,
    pub sa_data: [uint8_t; 14],
}

/// The C `void`, for pointers whose target type the HAL leaves open.
pub enum c_void {
    __variant1,
    __variant2,
}

/// The modes a pin can be configured in.
#[derive(Clone, Copy, Debug, PartialEq, Eq, Structural)]
pub enum PinMode {
    INPUT,
    OUTPUT,
    INPUT_PULLUP,
    INPUT_PULLDOWN,
    AF_OUTPUT_PUSHPULL,
    AF_OUTPUT_DRAIN,
    AN_INPUT,
    AN_OUTPUT,
    PIN_MODE_NONE,
}

/// The number the HAL uses for each pin mode.
pub open spec fn pin_mode_code(mode: PinMode) -> u32 {
    match mode {
        PinMode::INPUT => 0,
        PinMode::OUTPUT => 1,
        PinMode::INPUT_PULLUP => 2,
        PinMode::INPUT_PULLDOWN => 3,
        PinMode::AF_OUTPUT_PUSHPULL => 4,
        PinMode::AF_OUTPUT_DRAIN => 5,
        PinMode::AN_INPUT => 6,
        PinMode::AN_OUTPUT => 7,
        PinMode::PIN_MODE_NONE => 255,
    }
}

impl PinMode {
    /// The number that `HAL_Pin_Mode` takes for this mode.
    pub fn code(self) -> (r: u32)
        ensures
            r == pin_mode_code(self),
    {
        match self {
            PinMode::INPUT => 0,
            PinMode::OUTPUT => 1,
            PinMode::INPUT_PULLUP => 2,
            PinMode::INPUT_PULLDOWN => 3,
            PinMode::AF_OUTPUT_PUSHPULL => 4,
            PinMode::AF_OUTPUT_DRAIN => 5,
            PinMode::AN_INPUT => 6,
            PinMode::AN_OUTPUT => 7,
            PinMode::PIN_MODE_NONE => 255,
        }
    }
}

/// The type of a cloud variable.
#[derive(Clone, Copy, Debug, PartialEq, Eq, Structural)]
pub enum Spark_Data_TypeDef {
    CLOUD_VAR_BOOLEAN,
    CLOUD_VAR_INT,
    CLOUD_VAR_STRING,
    CLOUD_VAR_DOUBLE,
}

/// The number the firmware uses for each cloud variable type.
pub open spec fn data_type_code(ty: Spark_Data_TypeDef) -> u8 {
    match ty {
        Spark_Data_TypeDef::CLOUD_VAR_BOOLEAN => 1,
        Spark_Data_TypeDef::CLOUD_VAR_INT => 2,
        Spark_Data_TypeDef::CLOUD_VAR_STRING => 4,
        Spark_Data_TypeDef::CLOUD_VAR_DOUBLE => 9,
    }
}

impl Spark_Data_TypeDef {
    /// The number that `spark_variable` takes for this type.
    pub fn code(self) -> (r: u8)
        ensures
            r == data_type_code(self),
    {
        match self {
            Spark_Data_TypeDef::CLOUD_VAR_BOOLEAN => 1,
            Spark_Data_TypeDef::CLOUD_VAR_INT => 2,
            Spark_Data_TypeDef::CLOUD_VAR_STRING => 4,
            Spark_Data_TypeDef::CLOUD_VAR_DOUBLE => 9,
        }
    }
}

} // verus!
