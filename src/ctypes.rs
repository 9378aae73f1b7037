//! The C types of the target, an ARM Cortex-M with 32-bit `int` and `long`.
use vstd::prelude::*;

verus! {

pub type c_char = c_schar;

pub type c_int = i32;

pub type c_long = i32;

pub type c_longlong = i64;

pub type c_schar = i8;

pub type c_short = i16;

pub type c_uchar = u8;

pub type c_uint = u32;

pub type c_ulong = u32;

pub type c_ulonglong = u64;

pub type c_ushort = u16;

/// The C `void`, for pointers whose target type is left open.
pub enum c_void {
    __variant1,
    __variant2,
}

} // verus!
