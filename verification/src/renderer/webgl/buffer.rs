use vstd::prelude::*;

use super::binding::BindingKey;

verus! {

/// Available buffer targets mapped from [`WebGl2RenderingContext`].
#[allow(non_camel_case_types)]
#[derive(Debug, Clone, Copy, PartialEq, Eq, Hash, Structural)]
pub enum BufferTarget {
    ARRAY_BUFFER,
    ELEMENT_ARRAY_BUFFER,
    COPY_READ_BUFFER,
    COPY_WRITE_BUFFER,
    TRANSFORM_FEEDBACK_BUFFER,
    UNIFORM_BUFFER,
    PIXEL_PACK_BUFFER,
    PIXEL_UNPACK_BUFFER,
}

impl BindingKey for BufferTarget {
    fn same(&self, other: &Self) -> (r: bool) {
        *self == *other
    }
}

/// Available component size of a value get from buffer.
/// According to WebGL definition, it should only be `1`, `2`, `3` or `4`.
#[derive(Debug, Clone, Copy, PartialEq, Eq, Hash, Structural)]
pub enum BufferComponentSize {
    One,
    Two,
    Three,
    Four,
}

impl BufferComponentSize {
    /// Number of components: `1`, `2`, `3` or `4`.
    pub open spec fn spec_count(self) -> nat {
        match self {
            BufferComponentSize::One => 1,
            BufferComponentSize::Two => 2,
            BufferComponentSize::Three => 3,
            BufferComponentSize::Four => 4,
        }
    }

    /// Returns the number of components: `1`, `2`, `3` or `4`.
    pub fn count(&self) -> (r: usize)
        ensures
            r == self.spec_count(),
    {
        match self {
            BufferComponentSize::One => 1,
            BufferComponentSize::Two => 2,
            BufferComponentSize::Three => 3,
            BufferComponentSize::Four => 4,
        }
    }
}

/// Available buffer data types mapped from [`WebGl2RenderingContext`].
#[allow(non_camel_case_types)]
#[derive(Debug, Clone, Copy, PartialEq, Eq, Hash, Structural)]
pub enum BufferDataType {
    FLOAT,
    BYTE,
    SHORT,
    INT,
    UNSIGNED_BYTE,
    UNSIGNED_SHORT,
    UNSIGNED_INT,
    HALF_FLOAT,
    INT_2_10_10_10_REV,
    UNSIGNED_INT_2_10_10_10_REV,
}

impl BufferDataType {
    /// Size in bytes of one value of this data type.
    pub open spec fn spec_byte_length(self) -> nat {
        match self {
            BufferDataType::BYTE | BufferDataType::UNSIGNED_BYTE => 1,
            BufferDataType::SHORT | BufferDataType::UNSIGNED_SHORT | BufferDataType::HALF_FLOAT => 2,
            _ => 4,
        }
    }

    /// Gets bytes length of a data type.
    pub fn byte_length(&self) -> (r: usize)
        ensures
            r == self.spec_byte_length(),
    {
        match self {
            BufferDataType::FLOAT => 4,
            BufferDataType::BYTE => 1,
            BufferDataType::SHORT => 2,
            BufferDataType::INT => 4,
            BufferDataType::UNSIGNED_BYTE => 1,
            BufferDataType::UNSIGNED_SHORT => 2,
            BufferDataType::UNSIGNED_INT => 4,
            BufferDataType::HALF_FLOAT => 2,
            BufferDataType::INT_2_10_10_10_REV => 4,
            BufferDataType::UNSIGNED_INT_2_10_10_10_REV => 4,
        }
    }
}

/// Available buffer usages mapped from [`WebGl2RenderingContext`].
#[allow(non_camel_case_types)]
#[derive(Debug, Clone, Copy, PartialEq, Eq, Hash, Structural)]
pub enum BufferUsage {
    STATIC_DRAW,
    DYNAMIC_DRAW,
    STREAM_DRAW,
    STATIC_READ,
    DYNAMIC_READ,
    STREAM_READ,
    STATIC_COPY,
    DYNAMIC_COPY,
    STREAM_COPY,
}

/// Memory policies kind.
#[allow(non_camel_case_types)]
#[derive(Debug, Clone, Copy, PartialEq, Eq, Hash, Structural)]
pub enum MemoryPolicyKind {
    Unfree,
    ReadBack,
    Restorable,
}

/// Each component size counts the components its name says, and each data
/// type takes the bytes its bit width holds: 8 bit `BYTE`s, 16 bit `SHORT`s
/// and `HALF_FLOAT`s, 32 bit `INT`s, `FLOAT`s and packed 2-10-10-10 values.
pub proof fn lemma_buffer_value_sizes()
    ensures
        BufferComponentSize::One.spec_count() == 1,
        BufferComponentSize::Two.spec_count() == 2,
        BufferComponentSize::Three.spec_count() == 3,
        BufferComponentSize::Four.spec_count() == 4,
        BufferDataType::BYTE.spec_byte_length() * 8 == 8,
        BufferDataType::UNSIGNED_BYTE.spec_byte_length() * 8 == 8,
        BufferDataType::SHORT.spec_byte_length() * 8 == 16,
        BufferDataType::UNSIGNED_SHORT.spec_byte_length() * 8 == 16,
        BufferDataType::HALF_FLOAT.spec_byte_length() * 8 == 16,
        BufferDataType::INT.spec_byte_length() * 8 == 32,
        BufferDataType::UNSIGNED_INT.spec_byte_length() * 8 == 32,
        BufferDataType::FLOAT.spec_byte_length() * 8 == 32,
        BufferDataType::INT_2_10_10_10_REV.spec_byte_length() * 8 == 2 + 10 + 10 + 10,
        BufferDataType::UNSIGNED_INT_2_10_10_10_REV.spec_byte_length() * 8 == 2 + 10 + 10 + 10,
{
}

} // verus!
