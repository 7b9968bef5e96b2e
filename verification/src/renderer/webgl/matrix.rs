//! Conversions of values to the integer types WebGL takes.
use vstd::prelude::*;

verus! {

/// A value that converts to an array of `N` signed integers.
pub trait GlI32<const N: usize> {
    fn to_i32_array(&self) -> [i32; N];
}

/// A value that converts to an array of `N` unsigned integers.
pub trait GlU32<const N: usize> {
    fn to_u32_array(&self) -> [u32; N];
}

/// A value that converts to a signed 32-bit integer.
pub trait ToI32 {
    fn to_i32(self) -> i32;
}

/// A value that converts to an unsigned 32-bit integer.
pub trait ToU32 {
    fn to_u32(self) -> u32;
}

impl ToU32 for u8 {
    /// Converts as `as` does: keeps the low 32 bits.
    fn to_u32(self) -> (r: u32)
        ensures
            r == self as u32,
    {
        self as u32
    }
}

impl ToI32 for u8 {
    /// Converts as `as` does: keeps the low 32 bits, as two's complement.
    fn to_i32(self) -> (r: i32)
        ensures
            r == self as i32,
    {
        self as i32
    }
}

impl ToU32 for u16 {
    /// Converts as `as` does: keeps the low 32 bits.
    fn to_u32(self) -> (r: u32)
        ensures
            r == self as u32,
    {
        self as u32
    }
}

impl ToI32 for u16 {
    /// Converts as `as` does: keeps the low 32 bits, as two's complement.
    fn to_i32(self) -> (r: i32)
        ensures
            r == self as i32,
    {
        self as i32
    }
}

impl ToU32 for u32 {
    /// Converts as `as` does: keeps the low 32 bits.
    fn to_u32(self) -> (r: u32)
        ensures
            r == self as u32,
    {
        self as u32
    }
}

impl ToI32 for u32 {
    /// Converts as `as` does: keeps the low 32 bits, as two's complement.
    fn to_i32(self) -> (r: i32)
        ensures
            r == self as i32,
    {
        self as i32
    }
}

impl ToU32 for u64 {
    /// Converts as `as` does: keeps the low 32 bits.
    fn to_u32(self) -> (r: u32)
        ensures
            r == self as u32,
    {
        self as u32
    }
}

impl ToI32 for u64 {
    /// Converts as `as` does: keeps the low 32 bits, as two's complement.
    fn to_i32(self) -> (r: i32)
        ensures
            r == self as i32,
    {
        self as i32
    }
}

impl ToU32 for u128 {
    /// Converts as `as` does: keeps the low 32 bits.
    fn to_u32(self) -> (r: u32)
        ensures
            r == self as u32,
    {
        self as u32
    }
}

impl ToI32 for u128 {
    /// Converts as `as` does: keeps the low 32 bits, as two's complement.
    fn to_i32(self) -> (r: i32)
        ensures
            r == self as i32,
    {
        self as i32
    }
}

impl ToU32 for usize {
    /// Converts as `as` does: keeps the low 32 bits.
    fn to_u32(self) -> (r: u32)
        ensures
            r == self as u32,
    {
        self as u32
    }
}

impl ToI32 for usize {
    /// Converts as `as` does: keeps the low 32 bits, as two's complement.
    fn to_i32(self) -> (r: i32)
        ensures
            r == self as i32,
    {
        self as i32
    }
}

impl ToU32 for i8 {
    /// Converts as `as` does: keeps the low 32 bits.
    fn to_u32(self) -> (r: u32)
        ensures
            r == self as u32,
    {
        self as u32
    }
}

impl ToI32 for i8 {
    /// Converts as `as` does: keeps the low 32 bits, as two's complement.
    fn to_i32(self) -> (r: i32)
        ensures
            r == self as i32,
    {
        self as i32
    }
}

impl ToU32 for i16 {
    /// Converts as `as` does: keeps the low 32 bits.
    fn to_u32(self) -> (r: u32)
        ensures
            r == self as u32,
    {
        self as u32
    }
}

impl ToI32 for i16 {
    /// Converts as `as` does: keeps the low 32 bits, as two's complement.
    fn to_i32(self) -> (r: i32)
        ensures
            r == self as i32,
    {
        self as i32
    }
}

impl ToU32 for i32 {
    /// Converts as `as` does: keeps the low 32 bits.
    fn to_u32(self) -> (r: u32)
        ensures
            r == self as u32,
    {
        self as u32
    }
}

impl ToI32 for i32 {
    /// Converts as `as` does: keeps the low 32 bits, as two's complement.
    fn to_i32(self) -> (r: i32)
        ensures
            r == self as i32,
    {
        self as i32
    }
}

impl ToU32 for i64 {
    /// Converts as `as` does: keeps the low 32 bits.
    fn to_u32(self) -> (r: u32)
        ensures
            r == self as u32,
    {
        self as u32
    }
}

impl ToI32 for i64 {
    /// Converts as `as` does: keeps the low 32 bits, as two's complement.
    fn to_i32(self) -> (r: i32)
        ensures
            r == self as i32,
    {
        self as i32
    }
}

impl ToU32 for i128 {
    /// Converts as `as` does: keeps the low 32 bits.
    fn to_u32(self) -> (r: u32)
        ensures
            r == self as u32,
    {
        self as u32
    }
}

impl ToI32 for i128 {
    /// Converts as `as` does: keeps the low 32 bits, as two's complement.
    fn to_i32(self) -> (r: i32)
        ensures
            r == self as i32,
    {
        self as i32
    }
}

impl ToU32 for isize {
    /// Converts as `as` does: keeps the low 32 bits.
    fn to_u32(self) -> (r: u32)
        ensures
            r == self as u32,
    {
        self as u32
    }
}

impl ToI32 for isize {
    /// Converts as `as` does: keeps the low 32 bits, as two's complement.
    fn to_i32(self) -> (r: i32)
        ensures
            r == self as i32,
    {
        self as i32
    }
}

} // verus!
