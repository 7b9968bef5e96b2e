use vstd::prelude::*;

use super::blit::{BlitFlilter, BlitMask};
use super::buffer::{BufferDataType, BufferTarget, BufferUsage};
use super::client_wait::ClientWaitFlags;
use super::constants;
use super::draw::{CullFace, DrawMode, ElementIndicesDataType};
use super::texture::{
    SamplerParameterKind, TextureCompareFunction, TextureCompareMode, TextureCompressedFormat,
    TextureInternalFormat, TextureMagnificationFilter, TextureMinificationFilter, TextureParameterKind,
    TexturePixelStorage, TextureTarget, TextureUncompressedInternalFormat,
    TextureUncompressedPixelDataType, TextureUncompressedPixelFormat, TextureUnit,
    TextureUnpackColorSpaceConversion, TextureWrapMethod,
};

verus! {

/// A trait converts Rust data type to WebGL u32.
pub trait ToGlEnum {
    fn gl_enum(&self) -> u32;
}

impl BufferTarget {
    /// The WebGL enumeration value this variant maps to.
    pub open spec fn gl_value(self) -> u32 {
        match self {
            BufferTarget::ARRAY_BUFFER => constants::ARRAY_BUFFER,
            BufferTarget::ELEMENT_ARRAY_BUFFER => constants::ELEMENT_ARRAY_BUFFER,
            BufferTarget::COPY_READ_BUFFER => constants::COPY_READ_BUFFER,
            BufferTarget::COPY_WRITE_BUFFER => constants::COPY_WRITE_BUFFER,
            BufferTarget::TRANSFORM_FEEDBACK_BUFFER => constants::TRANSFORM_FEEDBACK_BUFFER,
            BufferTarget::UNIFORM_BUFFER => constants::UNIFORM_BUFFER,
            BufferTarget::PIXEL_PACK_BUFFER => constants::PIXEL_PACK_BUFFER,
            BufferTarget::PIXEL_UNPACK_BUFFER => constants::PIXEL_UNPACK_BUFFER,
        }
    }
}

impl ToGlEnum for BufferTarget {
    fn gl_enum(&self) -> (r: u32)
        ensures
            r == self.gl_value(),
    {
        match self {
            BufferTarget::ARRAY_BUFFER => constants::ARRAY_BUFFER,
            BufferTarget::ELEMENT_ARRAY_BUFFER => constants::ELEMENT_ARRAY_BUFFER,
            BufferTarget::COPY_READ_BUFFER => constants::COPY_READ_BUFFER,
            BufferTarget::COPY_WRITE_BUFFER => constants::COPY_WRITE_BUFFER,
            BufferTarget::TRANSFORM_FEEDBACK_BUFFER => constants::TRANSFORM_FEEDBACK_BUFFER,
            BufferTarget::UNIFORM_BUFFER => constants::UNIFORM_BUFFER,
            BufferTarget::PIXEL_PACK_BUFFER => constants::PIXEL_PACK_BUFFER,
            BufferTarget::PIXEL_UNPACK_BUFFER => constants::PIXEL_UNPACK_BUFFER,
        }
    }
}

impl BufferDataType {
    /// The WebGL enumeration value this variant maps to.
    pub open spec fn gl_value(self) -> u32 {
        match self {
            BufferDataType::FLOAT => constants::FLOAT,
            BufferDataType::BYTE => constants::BYTE,
            BufferDataType::SHORT => constants::SHORT,
            BufferDataType::INT => constants::INT,
            BufferDataType::UNSIGNED_BYTE => constants::UNSIGNED_BYTE,
            BufferDataType::UNSIGNED_SHORT => constants::UNSIGNED_SHORT,
            BufferDataType::UNSIGNED_INT => constants::UNSIGNED_INT,
            BufferDataType::HALF_FLOAT => constants::HALF_FLOAT,
            BufferDataType::INT_2_10_10_10_REV => constants::INT_2_10_10_10_REV,
            BufferDataType::UNSIGNED_INT_2_10_10_10_REV => constants::UNSIGNED_INT_2_10_10_10_REV,
        }
    }
}

impl ToGlEnum for BufferDataType {
    fn gl_enum(&self) -> (r: u32)
        ensures
            r == self.gl_value(),
    {
        match self {
            BufferDataType::FLOAT => constants::FLOAT,
            BufferDataType::BYTE => constants::BYTE,
            BufferDataType::SHORT => constants::SHORT,
            BufferDataType::INT => constants::INT,
            BufferDataType::UNSIGNED_BYTE => constants::UNSIGNED_BYTE,
            BufferDataType::UNSIGNED_SHORT => constants::UNSIGNED_SHORT,
            BufferDataType::UNSIGNED_INT => constants::UNSIGNED_INT,
            BufferDataType::HALF_FLOAT => constants::HALF_FLOAT,
            BufferDataType::INT_2_10_10_10_REV => constants::INT_2_10_10_10_REV,
            BufferDataType::UNSIGNED_INT_2_10_10_10_REV => constants::UNSIGNED_INT_2_10_10_10_REV,
        }
    }
}

impl BufferUsage {
    /// The WebGL enumeration value this variant maps to.
    pub open spec fn gl_value(self) -> u32 {
        match self {
            BufferUsage::STATIC_DRAW => constants::STATIC_DRAW,
            BufferUsage::DYNAMIC_DRAW => constants::DYNAMIC_DRAW,
            BufferUsage::STREAM_DRAW => constants::STREAM_DRAW,
            BufferUsage::STATIC_READ => constants::STATIC_READ,
            BufferUsage::DYNAMIC_READ => constants::DYNAMIC_READ,
            BufferUsage::STREAM_READ => constants::STREAM_READ,
            BufferUsage::STATIC_COPY => constants::STATIC_COPY,
            BufferUsage::DYNAMIC_COPY => constants::DYNAMIC_COPY,
            BufferUsage::STREAM_COPY => constants::STREAM_COPY,
        }
    }
}

impl ToGlEnum for BufferUsage {
    fn gl_enum(&self) -> (r: u32)
        ensures
            r == self.gl_value(),
    {
        match self {
            BufferUsage::STATIC_DRAW => constants::STATIC_DRAW,
            BufferUsage::DYNAMIC_DRAW => constants::DYNAMIC_DRAW,
            BufferUsage::STREAM_DRAW => constants::STREAM_DRAW,
            BufferUsage::STATIC_READ => constants::STATIC_READ,
            BufferUsage::DYNAMIC_READ => constants::DYNAMIC_READ,
            BufferUsage::STREAM_READ => constants::STREAM_READ,
            BufferUsage::STATIC_COPY => constants::STATIC_COPY,
            BufferUsage::DYNAMIC_COPY => constants::DYNAMIC_COPY,
            BufferUsage::STREAM_COPY => constants::STREAM_COPY,
        }
    }
}

impl ElementIndicesDataType {
    /// The WebGL enumeration value this variant maps to.
    pub open spec fn gl_value(self) -> u32 {
        match self {
            ElementIndicesDataType::UNSIGNED_BYTE => constants::UNSIGNED_BYTE,
            ElementIndicesDataType::UNSIGNED_SHORT => constants::UNSIGNED_SHORT,
            ElementIndicesDataType::UNSIGNED_INT => constants::UNSIGNED_INT,
        }
    }
}

impl ToGlEnum for ElementIndicesDataType {
    fn gl_enum(&self) -> (r: u32)
        ensures
            r == self.gl_value(),
    {
        match self {
            ElementIndicesDataType::UNSIGNED_BYTE => constants::UNSIGNED_BYTE,
            ElementIndicesDataType::UNSIGNED_SHORT => constants::UNSIGNED_SHORT,
            ElementIndicesDataType::UNSIGNED_INT => constants::UNSIGNED_INT,
        }
    }
}

impl DrawMode {
    /// The WebGL enumeration value this variant maps to.
    pub open spec fn gl_value(self) -> u32 {
        match self {
            DrawMode::POINTS => constants::POINTS,
            DrawMode::LINES => constants::LINES,
            DrawMode::LINE_LOOP => constants::LINE_LOOP,
            DrawMode::LINE_STRIP => constants::LINE_STRIP,
            DrawMode::TRIANGLES => constants::TRIANGLES,
            DrawMode::TRIANGLE_STRIP => constants::TRIANGLE_STRIP,
            DrawMode::TRIANGLE_FAN => constants::TRIANGLE_FAN,
        }
    }
}

impl ToGlEnum for DrawMode {
    fn gl_enum(&self) -> (r: u32)
        ensures
            r == self.gl_value(),
    {
        match self {
            DrawMode::POINTS => constants::POINTS,
            DrawMode::LINES => constants::LINES,
            DrawMode::LINE_LOOP => constants::LINE_LOOP,
            DrawMode::LINE_STRIP => constants::LINE_STRIP,
            DrawMode::TRIANGLES => constants::TRIANGLES,
            DrawMode::TRIANGLE_STRIP => constants::TRIANGLE_STRIP,
            DrawMode::TRIANGLE_FAN => constants::TRIANGLE_FAN,
        }
    }
}

impl CullFace {
    /// The WebGL enumeration value this variant maps to.
    pub open spec fn gl_value(self) -> u32 {
        match self {
            CullFace::FRONT => constants::FRONT,
            CullFace::BACK => constants::BACK,
            CullFace::FRONT_AND_BACK => constants::FRONT_AND_BACK,
        }
    }
}

impl ToGlEnum for CullFace {
    fn gl_enum(&self) -> (r: u32)
        ensures
            r == self.gl_value(),
    {
        match self {
            CullFace::FRONT => constants::FRONT,
            CullFace::BACK => constants::BACK,
            CullFace::FRONT_AND_BACK => constants::FRONT_AND_BACK,
        }
    }
}

impl TextureTarget {
    /// The WebGL enumeration value this variant maps to.
    pub open spec fn gl_value(self) -> u32 {
        match self {
            TextureTarget::TEXTURE_2D => constants::TEXTURE_2D,
            TextureTarget::TEXTURE_CUBE_MAP => constants::TEXTURE_CUBE_MAP,
            TextureTarget::TEXTURE_2D_ARRAY => constants::TEXTURE_2D_ARRAY,
            TextureTarget::TEXTURE_3D => constants::TEXTURE_3D,
        }
    }
}

impl ToGlEnum for TextureTarget {
    fn gl_enum(&self) -> (r: u32)
        ensures
            r == self.gl_value(),
    {
        match self {
            TextureTarget::TEXTURE_2D => constants::TEXTURE_2D,
            TextureTarget::TEXTURE_CUBE_MAP => constants::TEXTURE_CUBE_MAP,
            TextureTarget::TEXTURE_2D_ARRAY => constants::TEXTURE_2D_ARRAY,
            TextureTarget::TEXTURE_3D => constants::TEXTURE_3D,
        }
    }
}

impl TextureUncompressedInternalFormat {
    /// The WebGL enumeration value this variant maps to.
    pub open spec fn gl_value(self) -> u32 {
        match self {
            TextureUncompressedInternalFormat::RGBA32I => constants::RGBA32I,
            TextureUncompressedInternalFormat::RGBA32UI => constants::RGBA32UI,
            TextureUncompressedInternalFormat::RGBA16I => constants::RGBA16I,
            TextureUncompressedInternalFormat::RGBA16UI => constants::RGBA16UI,
            TextureUncompressedInternalFormat::RGBA8 => constants::RGBA8,
            TextureUncompressedInternalFormat::RGBA8I => constants::RGBA8I,
            TextureUncompressedInternalFormat::RGBA8UI => constants::RGBA8UI,
            TextureUncompressedInternalFormat::SRGB8_ALPHA8 => constants::SRGB8_ALPHA8,
            TextureUncompressedInternalFormat::RGB10_A2 => constants::RGB10_A2,
            TextureUncompressedInternalFormat::RGB10_A2UI => constants::RGB10_A2UI,
            TextureUncompressedInternalFormat::RGBA4 => constants::RGBA4,
            TextureUncompressedInternalFormat::RGB5_A1 => constants::RGB5_A1,
            TextureUncompressedInternalFormat::RGB8 => constants::RGB8,
            TextureUncompressedInternalFormat::RGB565 => constants::RGB565,
            TextureUncompressedInternalFormat::RG32I => constants::RG32I,
            TextureUncompressedInternalFormat::RG32UI => constants::RG32UI,
            TextureUncompressedInternalFormat::RG16I => constants::RG16I,
            TextureUncompressedInternalFormat::RG16UI => constants::RG16UI,
            TextureUncompressedInternalFormat::RG8 => constants::RG8,
            TextureUncompressedInternalFormat::RG8I => constants::RG8I,
            TextureUncompressedInternalFormat::RG8UI => constants::RG8UI,
            TextureUncompressedInternalFormat::R32I => constants::R32I,
            TextureUncompressedInternalFormat::R32UI => constants::R32UI,
            TextureUncompressedInternalFormat::R16I => constants::R16I,
            TextureUncompressedInternalFormat::R16UI => constants::R16UI,
            TextureUncompressedInternalFormat::R8 => constants::R8,
            TextureUncompressedInternalFormat::R8I => constants::R8I,
            TextureUncompressedInternalFormat::R8UI => constants::R8UI,
            TextureUncompressedInternalFormat::RGBA32F => constants::RGBA32F,
            TextureUncompressedInternalFormat::RGBA16F => constants::RGBA16F,
            TextureUncompressedInternalFormat::RGBA8_SNORM => constants::RGBA8_SNORM,
            TextureUncompressedInternalFormat::RGB32F => constants::RGB32F,
            TextureUncompressedInternalFormat::RGB32I => constants::RGB32I,
            TextureUncompressedInternalFormat::RGB32UI => constants::RGB32UI,
            TextureUncompressedInternalFormat::RGB16F => constants::RGB16F,
            TextureUncompressedInternalFormat::RGB16I => constants::RGB16I,
            TextureUncompressedInternalFormat::RGB16UI => constants::RGB16UI,
            TextureUncompressedInternalFormat::RGB8_SNORM => constants::RGB8_SNORM,
            TextureUncompressedInternalFormat::RGB8I => constants::RGB8I,
            TextureUncompressedInternalFormat::RGB8UI => constants::RGB8UI,
            TextureUncompressedInternalFormat::SRGB8 => constants::SRGB8,
            TextureUncompressedInternalFormat::R11F_G11F_B10F => constants::R11F_G11F_B10F,
            TextureUncompressedInternalFormat::RGB9_E5 => constants::RGB9_E5,
            TextureUncompressedInternalFormat::RG32F => constants::RG32F,
            TextureUncompressedInternalFormat::RG16F => constants::RG16F,
            TextureUncompressedInternalFormat::RG8_SNORM => constants::RG8_SNORM,
            TextureUncompressedInternalFormat::R32F => constants::R32F,
            TextureUncompressedInternalFormat::R16F => constants::R16F,
            TextureUncompressedInternalFormat::R8_SNORM => constants::R8_SNORM,
            TextureUncompressedInternalFormat::DEPTH_COMPONENT32F => constants::DEPTH_COMPONENT32F,
            TextureUncompressedInternalFormat::DEPTH_COMPONENT24 => constants::DEPTH_COMPONENT24,
            TextureUncompressedInternalFormat::DEPTH_COMPONENT16 => constants::DEPTH_COMPONENT16,
            TextureUncompressedInternalFormat::DEPTH32F_STENCIL8 => constants::DEPTH32F_STENCIL8,
            TextureUncompressedInternalFormat::DEPTH24_STENCIL8 => constants::DEPTH24_STENCIL8,
        }
    }
}

impl ToGlEnum for TextureUncompressedInternalFormat {
    fn gl_enum(&self) -> (r: u32)
        ensures
            r == self.gl_value(),
    {
        match self {
            TextureUncompressedInternalFormat::RGBA32I => constants::RGBA32I,
            TextureUncompressedInternalFormat::RGBA32UI => constants::RGBA32UI,
            TextureUncompressedInternalFormat::RGBA16I => constants::RGBA16I,
            TextureUncompressedInternalFormat::RGBA16UI => constants::RGBA16UI,
            TextureUncompressedInternalFormat::RGBA8 => constants::RGBA8,
            TextureUncompressedInternalFormat::RGBA8I => constants::RGBA8I,
            TextureUncompressedInternalFormat::RGBA8UI => constants::RGBA8UI,
            TextureUncompressedInternalFormat::SRGB8_ALPHA8 => constants::SRGB8_ALPHA8,
            TextureUncompressedInternalFormat::RGB10_A2 => constants::RGB10_A2,
            TextureUncompressedInternalFormat::RGB10_A2UI => constants::RGB10_A2UI,
            TextureUncompressedInternalFormat::RGBA4 => constants::RGBA4,
            TextureUncompressedInternalFormat::RGB5_A1 => constants::RGB5_A1,
            TextureUncompressedInternalFormat::RGB8 => constants::RGB8,
            TextureUncompressedInternalFormat::RGB565 => constants::RGB565,
            TextureUncompressedInternalFormat::RG32I => constants::RG32I,
            TextureUncompressedInternalFormat::RG32UI => constants::RG32UI,
            TextureUncompressedInternalFormat::RG16I => constants::RG16I,
            TextureUncompressedInternalFormat::RG16UI => constants::RG16UI,
            TextureUncompressedInternalFormat::RG8 => constants::RG8,
            TextureUncompressedInternalFormat::RG8I => constants::RG8I,
            TextureUncompressedInternalFormat::RG8UI => constants::RG8UI,
            TextureUncompressedInternalFormat::R32I => constants::R32I,
            TextureUncompressedInternalFormat::R32UI => constants::R32UI,
            TextureUncompressedInternalFormat::R16I => constants::R16I,
            TextureUncompressedInternalFormat::R16UI => constants::R16UI,
            TextureUncompressedInternalFormat::R8 => constants::R8,
            TextureUncompressedInternalFormat::R8I => constants::R8I,
            TextureUncompressedInternalFormat::R8UI => constants::R8UI,
            TextureUncompressedInternalFormat::RGBA32F => constants::RGBA32F,
            TextureUncompressedInternalFormat::RGBA16F => constants::RGBA16F,
            TextureUncompressedInternalFormat::RGBA8_SNORM => constants::RGBA8_SNORM,
            TextureUncompressedInternalFormat::RGB32F => constants::RGB32F,
            TextureUncompressedInternalFormat::RGB32I => constants::RGB32I,
            TextureUncompressedInternalFormat::RGB32UI => constants::RGB32UI,
            TextureUncompressedInternalFormat::RGB16F => constants::RGB16F,
            TextureUncompressedInternalFormat::RGB16I => constants::RGB16I,
            TextureUncompressedInternalFormat::RGB16UI => constants::RGB16UI,
            TextureUncompressedInternalFormat::RGB8_SNORM => constants::RGB8_SNORM,
            TextureUncompressedInternalFormat::RGB8I => constants::RGB8I,
            TextureUncompressedInternalFormat::RGB8UI => constants::RGB8UI,
            TextureUncompressedInternalFormat::SRGB8 => constants::SRGB8,
            TextureUncompressedInternalFormat::R11F_G11F_B10F => constants::R11F_G11F_B10F,
            TextureUncompressedInternalFormat::RGB9_E5 => constants::RGB9_E5,
            TextureUncompressedInternalFormat::RG32F => constants::RG32F,
            TextureUncompressedInternalFormat::RG16F => constants::RG16F,
            TextureUncompressedInternalFormat::RG8_SNORM => constants::RG8_SNORM,
            TextureUncompressedInternalFormat::R32F => constants::R32F,
            TextureUncompressedInternalFormat::R16F => constants::R16F,
            TextureUncompressedInternalFormat::R8_SNORM => constants::R8_SNORM,
            TextureUncompressedInternalFormat::DEPTH_COMPONENT32F => constants::DEPTH_COMPONENT32F,
            TextureUncompressedInternalFormat::DEPTH_COMPONENT24 => constants::DEPTH_COMPONENT24,
            TextureUncompressedInternalFormat::DEPTH_COMPONENT16 => constants::DEPTH_COMPONENT16,
            TextureUncompressedInternalFormat::DEPTH32F_STENCIL8 => constants::DEPTH32F_STENCIL8,
            TextureUncompressedInternalFormat::DEPTH24_STENCIL8 => constants::DEPTH24_STENCIL8,
        }
    }
}

impl TextureCompressedFormat {
    /// The WebGL enumeration value this variant maps to.
    pub open spec fn gl_value(self) -> u32 {
        match self {
            TextureCompressedFormat::RGB_S3TC_DXT1 => constants::COMPRESSED_RGB_S3TC_DXT1_EXT,
            TextureCompressedFormat::RGBA_S3TC_DXT1 => constants::COMPRESSED_RGBA_S3TC_DXT1_EXT,
            TextureCompressedFormat::RGBA_S3TC_DXT3 => constants::COMPRESSED_RGBA_S3TC_DXT3_EXT,
            TextureCompressedFormat::RGBA_S3TC_DXT5 => constants::COMPRESSED_RGBA_S3TC_DXT5_EXT,
            TextureCompressedFormat::SRGB_S3TC_DXT1 => constants::COMPRESSED_SRGB_S3TC_DXT1_EXT,
            TextureCompressedFormat::SRGB_ALPHA_S3TC_DXT1 => constants::COMPRESSED_SRGB_ALPHA_S3TC_DXT1_EXT,
            TextureCompressedFormat::SRGB_ALPHA_S3TC_DXT3 => constants::COMPRESSED_SRGB_ALPHA_S3TC_DXT3_EXT,
            TextureCompressedFormat::SRGB_ALPHA_S3TC_DXT5 => constants::COMPRESSED_SRGB_ALPHA_S3TC_DXT5_EXT,
            TextureCompressedFormat::R11_EAC => constants::COMPRESSED_R11_EAC,
            TextureCompressedFormat::SIGNED_R11_EAC => constants::COMPRESSED_SIGNED_R11_EAC,
            TextureCompressedFormat::RG11_EAC => constants::COMPRESSED_RG11_EAC,
            TextureCompressedFormat::SIGNED_RG11_EAC => constants::COMPRESSED_SIGNED_RG11_EAC,
            TextureCompressedFormat::RGB8_ETC2 => constants::COMPRESSED_RGB8_ETC2,
            TextureCompressedFormat::RGBA8_ETC2_EAC => constants::COMPRESSED_RGBA8_ETC2_EAC,
            TextureCompressedFormat::SRGB8_ETC2 => constants::COMPRESSED_SRGB8_ETC2,
            TextureCompressedFormat::SRGB8_ALPHA8_ETC2_EAC => constants::COMPRESSED_SRGB8_ALPHA8_ETC2_EAC,
            TextureCompressedFormat::RGB8_PUNCHTHROUGH_ALPHA1_ETC2 => constants::COMPRESSED_RGB8_PUNCHTHROUGH_ALPHA1_ETC2,
            TextureCompressedFormat::SRGB8_PUNCHTHROUGH_ALPHA1_ETC2 => constants::COMPRESSED_SRGB8_PUNCHTHROUGH_ALPHA1_ETC2,
            TextureCompressedFormat::RGB_PVRTC_2BPPV1_IMG => constants::COMPRESSED_RGB_PVRTC_2BPPV1_IMG,
            TextureCompressedFormat::RGBA_PVRTC_2BPPV1_IMG => constants::COMPRESSED_RGBA_PVRTC_2BPPV1_IMG,
            TextureCompressedFormat::RGB_PVRTC_4BPPV1_IMG => constants::COMPRESSED_RGB_PVRTC_4BPPV1_IMG,
            TextureCompressedFormat::RGBA_PVRTC_4BPPV1_IMG => constants::COMPRESSED_RGBA_PVRTC_4BPPV1_IMG,
            TextureCompressedFormat::RGB_ETC1_WEBGL => constants::COMPRESSED_RGB_ETC1_WEBGL,
            TextureCompressedFormat::RGBA_ASTC_4x4 => constants::COMPRESSED_RGBA_ASTC_4X4_KHR,
            TextureCompressedFormat::SRGB8_ALPHA8_ASTC_4x4 => constants::COMPRESSED_SRGB8_ALPHA8_ASTC_4X4_KHR,
            TextureCompressedFormat::RGBA_ASTC_5x4 => constants::COMPRESSED_RGBA_ASTC_5X4_KHR,
            TextureCompressedFormat::SRGB8_ALPHA8_ASTC_5x4 => constants::COMPRESSED_SRGB8_ALPHA8_ASTC_5X4_KHR,
            TextureCompressedFormat::RGBA_ASTC_5x5 => constants::COMPRESSED_RGBA_ASTC_5X5_KHR,
            TextureCompressedFormat::SRGB8_ALPHA8_ASTC_5x5 => constants::COMPRESSED_SRGB8_ALPHA8_ASTC_5X5_KHR,
            TextureCompressedFormat::RGBA_ASTC_6x5 => constants::COMPRESSED_RGBA_ASTC_6X5_KHR,
            TextureCompressedFormat::SRGB8_ALPHA8_ASTC_6x5 => constants::COMPRESSED_SRGB8_ALPHA8_ASTC_6X5_KHR,
            TextureCompressedFormat::RGBA_ASTC_6x6 => constants::COMPRESSED_RGBA_ASTC_6X6_KHR,
            TextureCompressedFormat::SRGB8_ALPHA8_ASTC_6x6 => constants::COMPRESSED_SRGB8_ALPHA8_ASTC_6X6_KHR,
            TextureCompressedFormat::RGBA_ASTC_8x5 => constants::COMPRESSED_RGBA_ASTC_8X5_KHR,
            TextureCompressedFormat::SRGB8_ALPHA8_ASTC_8x5 => constants::COMPRESSED_SRGB8_ALPHA8_ASTC_8X5_KHR,
            TextureCompressedFormat::RGBA_ASTC_8x6 => constants::COMPRESSED_RGBA_ASTC_8X6_KHR,
            TextureCompressedFormat::SRGB8_ALPHA8_ASTC_8x6 => constants::COMPRESSED_SRGB8_ALPHA8_ASTC_8X6_KHR,
            TextureCompressedFormat::RGBA_ASTC_8x8 => constants::COMPRESSED_RGBA_ASTC_8X8_KHR,
            TextureCompressedFormat::SRGB8_ALPHA8_ASTC_8x8 => constants::COMPRESSED_SRGB8_ALPHA8_ASTC_8X8_KHR,
            TextureCompressedFormat::RGBA_ASTC_10x5 => constants::COMPRESSED_RGBA_ASTC_10X5_KHR,
            TextureCompressedFormat::SRGB8_ALPHA8_ASTC_10x5 => constants::COMPRESSED_SRGB8_ALPHA8_ASTC_10X5_KHR,
            TextureCompressedFormat::RGBA_ASTC_10x6 => constants::COMPRESSED_RGBA_ASTC_10X6_KHR,
            TextureCompressedFormat::SRGB8_ALPHA8_ASTC_10x6 => constants::COMPRESSED_SRGB8_ALPHA8_ASTC_10X6_KHR,
            TextureCompressedFormat::RGBA_ASTC_10x10 => constants::COMPRESSED_RGBA_ASTC_10X10_KHR,
            TextureCompressedFormat::SRGB8_ALPHA8_ASTC_10x10 => constants::COMPRESSED_SRGB8_ALPHA8_ASTC_10X10_KHR,
            TextureCompressedFormat::RGBA_ASTC_12x10 => constants::COMPRESSED_RGBA_ASTC_12X10_KHR,
            TextureCompressedFormat::SRGB8_ALPHA8_ASTC_12x10 => constants::COMPRESSED_SRGB8_ALPHA8_ASTC_12X10_KHR,
            TextureCompressedFormat::RGBA_ASTC_12x12 => constants::COMPRESSED_RGBA_ASTC_12X12_KHR,
            TextureCompressedFormat::SRGB8_ALPHA8_ASTC_12x12 => constants::COMPRESSED_SRGB8_ALPHA8_ASTC_12X12_KHR,
            TextureCompressedFormat::RGBA_BPTC_UNORM => 36492,
            TextureCompressedFormat::SRGB_ALPHA_BPTC_UNORM => 36493,
            TextureCompressedFormat::RGB_BPTC_SIGNED_FLOAT => 36494,
            TextureCompressedFormat::RGB_BPTC_UNSIGNED_FLOAT => 36495,
            TextureCompressedFormat::RED_RGTC1 => 36283,
            TextureCompressedFormat::SIGNED_RED_RGTC1 => 36284,
            TextureCompressedFormat::RED_GREEN_RGTC2 => 36285,
            TextureCompressedFormat::SIGNED_RED_GREEN_RGTC2 => 36286,
        }
    }
}

impl ToGlEnum for TextureCompressedFormat {
    fn gl_enum(&self) -> (r: u32)
        ensures
            r == self.gl_value(),
    {
        match self {
            TextureCompressedFormat::RGB_S3TC_DXT1 => constants::COMPRESSED_RGB_S3TC_DXT1_EXT,
            TextureCompressedFormat::RGBA_S3TC_DXT1 => constants::COMPRESSED_RGBA_S3TC_DXT1_EXT,
            TextureCompressedFormat::RGBA_S3TC_DXT3 => constants::COMPRESSED_RGBA_S3TC_DXT3_EXT,
            TextureCompressedFormat::RGBA_S3TC_DXT5 => constants::COMPRESSED_RGBA_S3TC_DXT5_EXT,
            TextureCompressedFormat::SRGB_S3TC_DXT1 => constants::COMPRESSED_SRGB_S3TC_DXT1_EXT,
            TextureCompressedFormat::SRGB_ALPHA_S3TC_DXT1 => constants::COMPRESSED_SRGB_ALPHA_S3TC_DXT1_EXT,
            TextureCompressedFormat::SRGB_ALPHA_S3TC_DXT3 => constants::COMPRESSED_SRGB_ALPHA_S3TC_DXT3_EXT,
            TextureCompressedFormat::SRGB_ALPHA_S3TC_DXT5 => constants::COMPRESSED_SRGB_ALPHA_S3TC_DXT5_EXT,
            TextureCompressedFormat::R11_EAC => constants::COMPRESSED_R11_EAC,
            TextureCompressedFormat::SIGNED_R11_EAC => constants::COMPRESSED_SIGNED_R11_EAC,
            TextureCompressedFormat::RG11_EAC => constants::COMPRESSED_RG11_EAC,
            TextureCompressedFormat::SIGNED_RG11_EAC => constants::COMPRESSED_SIGNED_RG11_EAC,
            TextureCompressedFormat::RGB8_ETC2 => constants::COMPRESSED_RGB8_ETC2,
            TextureCompressedFormat::RGBA8_ETC2_EAC => constants::COMPRESSED_RGBA8_ETC2_EAC,
            TextureCompressedFormat::SRGB8_ETC2 => constants::COMPRESSED_SRGB8_ETC2,
            TextureCompressedFormat::SRGB8_ALPHA8_ETC2_EAC => constants::COMPRESSED_SRGB8_ALPHA8_ETC2_EAC,
            TextureCompressedFormat::RGB8_PUNCHTHROUGH_ALPHA1_ETC2 => constants::COMPRESSED_RGB8_PUNCHTHROUGH_ALPHA1_ETC2,
            TextureCompressedFormat::SRGB8_PUNCHTHROUGH_ALPHA1_ETC2 => constants::COMPRESSED_SRGB8_PUNCHTHROUGH_ALPHA1_ETC2,
            TextureCompressedFormat::RGB_PVRTC_2BPPV1_IMG => constants::COMPRESSED_RGB_PVRTC_2BPPV1_IMG,
            TextureCompressedFormat::RGBA_PVRTC_2BPPV1_IMG => constants::COMPRESSED_RGBA_PVRTC_2BPPV1_IMG,
            TextureCompressedFormat::RGB_PVRTC_4BPPV1_IMG => constants::COMPRESSED_RGB_PVRTC_4BPPV1_IMG,
            TextureCompressedFormat::RGBA_PVRTC_4BPPV1_IMG => constants::COMPRESSED_RGBA_PVRTC_4BPPV1_IMG,
            TextureCompressedFormat::RGB_ETC1_WEBGL => constants::COMPRESSED_RGB_ETC1_WEBGL,
            TextureCompressedFormat::RGBA_ASTC_4x4 => constants::COMPRESSED_RGBA_ASTC_4X4_KHR,
            TextureCompressedFormat::SRGB8_ALPHA8_ASTC_4x4 => constants::COMPRESSED_SRGB8_ALPHA8_ASTC_4X4_KHR,
            TextureCompressedFormat::RGBA_ASTC_5x4 => constants::COMPRESSED_RGBA_ASTC_5X4_KHR,
            TextureCompressedFormat::SRGB8_ALPHA8_ASTC_5x4 => constants::COMPRESSED_SRGB8_ALPHA8_ASTC_5X4_KHR,
            TextureCompressedFormat::RGBA_ASTC_5x5 => constants::COMPRESSED_RGBA_ASTC_5X5_KHR,
            TextureCompressedFormat::SRGB8_ALPHA8_ASTC_5x5 => constants::COMPRESSED_SRGB8_ALPHA8_ASTC_5X5_KHR,
            TextureCompressedFormat::RGBA_ASTC_6x5 => constants::COMPRESSED_RGBA_ASTC_6X5_KHR,
            TextureCompressedFormat::SRGB8_ALPHA8_ASTC_6x5 => constants::COMPRESSED_SRGB8_ALPHA8_ASTC_6X5_KHR,
            TextureCompressedFormat::RGBA_ASTC_6x6 => constants::COMPRESSED_RGBA_ASTC_6X6_KHR,
            TextureCompressedFormat::SRGB8_ALPHA8_ASTC_6x6 => constants::COMPRESSED_SRGB8_ALPHA8_ASTC_6X6_KHR,
            TextureCompressedFormat::RGBA_ASTC_8x5 => constants::COMPRESSED_RGBA_ASTC_8X5_KHR,
            TextureCompressedFormat::SRGB8_ALPHA8_ASTC_8x5 => constants::COMPRESSED_SRGB8_ALPHA8_ASTC_8X5_KHR,
            TextureCompressedFormat::RGBA_ASTC_8x6 => constants::COMPRESSED_RGBA_ASTC_8X6_KHR,
            TextureCompressedFormat::SRGB8_ALPHA8_ASTC_8x6 => constants::COMPRESSED_SRGB8_ALPHA8_ASTC_8X6_KHR,
            TextureCompressedFormat::RGBA_ASTC_8x8 => constants::COMPRESSED_RGBA_ASTC_8X8_KHR,
            TextureCompressedFormat::SRGB8_ALPHA8_ASTC_8x8 => constants::COMPRESSED_SRGB8_ALPHA8_ASTC_8X8_KHR,
            TextureCompressedFormat::RGBA_ASTC_10x5 => constants::COMPRESSED_RGBA_ASTC_10X5_KHR,
            TextureCompressedFormat::SRGB8_ALPHA8_ASTC_10x5 => constants::COMPRESSED_SRGB8_ALPHA8_ASTC_10X5_KHR,
            TextureCompressedFormat::RGBA_ASTC_10x6 => constants::COMPRESSED_RGBA_ASTC_10X6_KHR,
            TextureCompressedFormat::SRGB8_ALPHA8_ASTC_10x6 => constants::COMPRESSED_SRGB8_ALPHA8_ASTC_10X6_KHR,
            TextureCompressedFormat::RGBA_ASTC_10x10 => constants::COMPRESSED_RGBA_ASTC_10X10_KHR,
            TextureCompressedFormat::SRGB8_ALPHA8_ASTC_10x10 => constants::COMPRESSED_SRGB8_ALPHA8_ASTC_10X10_KHR,
            TextureCompressedFormat::RGBA_ASTC_12x10 => constants::COMPRESSED_RGBA_ASTC_12X10_KHR,
            TextureCompressedFormat::SRGB8_ALPHA8_ASTC_12x10 => constants::COMPRESSED_SRGB8_ALPHA8_ASTC_12X10_KHR,
            TextureCompressedFormat::RGBA_ASTC_12x12 => constants::COMPRESSED_RGBA_ASTC_12X12_KHR,
            TextureCompressedFormat::SRGB8_ALPHA8_ASTC_12x12 => constants::COMPRESSED_SRGB8_ALPHA8_ASTC_12X12_KHR,
            TextureCompressedFormat::RGBA_BPTC_UNORM => 36492,
            TextureCompressedFormat::SRGB_ALPHA_BPTC_UNORM => 36493,
            TextureCompressedFormat::RGB_BPTC_SIGNED_FLOAT => 36494,
            TextureCompressedFormat::RGB_BPTC_UNSIGNED_FLOAT => 36495,
            TextureCompressedFormat::RED_RGTC1 => 36283,
            TextureCompressedFormat::SIGNED_RED_RGTC1 => 36284,
            TextureCompressedFormat::RED_GREEN_RGTC2 => 36285,
            TextureCompressedFormat::SIGNED_RED_GREEN_RGTC2 => 36286,
        }
    }
}

impl TextureUncompressedPixelFormat {
    /// The WebGL enumeration value this variant maps to.
    pub open spec fn gl_value(self) -> u32 {
        match self {
            TextureUncompressedPixelFormat::RED => constants::RED,
            TextureUncompressedPixelFormat::RED_INTEGER => constants::RED_INTEGER,
            TextureUncompressedPixelFormat::RG => constants::RG,
            TextureUncompressedPixelFormat::RG_INTEGER => constants::RG_INTEGER,
            TextureUncompressedPixelFormat::RGB => constants::RGB,
            TextureUncompressedPixelFormat::RGB_INTEGER => constants::RGB_INTEGER,
            TextureUncompressedPixelFormat::RGBA => constants::RGBA,
            TextureUncompressedPixelFormat::RGBA_INTEGER => constants::RGBA_INTEGER,
            TextureUncompressedPixelFormat::LUMINANCE => constants::LUMINANCE,
            TextureUncompressedPixelFormat::LUMINANCE_ALPHA => constants::LUMINANCE_ALPHA,
            TextureUncompressedPixelFormat::ALPHA => constants::ALPHA,
            TextureUncompressedPixelFormat::DEPTH_COMPONENT => constants::DEPTH_COMPONENT,
            TextureUncompressedPixelFormat::DEPTH_STENCIL => constants::DEPTH_STENCIL,
        }
    }
}

impl ToGlEnum for TextureUncompressedPixelFormat {
    fn gl_enum(&self) -> (r: u32)
        ensures
            r == self.gl_value(),
    {
        match self {
            TextureUncompressedPixelFormat::RED => constants::RED,
            TextureUncompressedPixelFormat::RED_INTEGER => constants::RED_INTEGER,
            TextureUncompressedPixelFormat::RG => constants::RG,
            TextureUncompressedPixelFormat::RG_INTEGER => constants::RG_INTEGER,
            TextureUncompressedPixelFormat::RGB => constants::RGB,
            TextureUncompressedPixelFormat::RGB_INTEGER => constants::RGB_INTEGER,
            TextureUncompressedPixelFormat::RGBA => constants::RGBA,
            TextureUncompressedPixelFormat::RGBA_INTEGER => constants::RGBA_INTEGER,
            TextureUncompressedPixelFormat::LUMINANCE => constants::LUMINANCE,
            TextureUncompressedPixelFormat::LUMINANCE_ALPHA => constants::LUMINANCE_ALPHA,
            TextureUncompressedPixelFormat::ALPHA => constants::ALPHA,
            TextureUncompressedPixelFormat::DEPTH_COMPONENT => constants::DEPTH_COMPONENT,
            TextureUncompressedPixelFormat::DEPTH_STENCIL => constants::DEPTH_STENCIL,
        }
    }
}

impl TextureUncompressedPixelDataType {
    /// The WebGL enumeration value this variant maps to.
    pub open spec fn gl_value(self) -> u32 {
        match self {
            TextureUncompressedPixelDataType::FLOAT => constants::FLOAT,
            TextureUncompressedPixelDataType::HALF_FLOAT => constants::HALF_FLOAT,
            TextureUncompressedPixelDataType::BYTE => constants::BYTE,
            TextureUncompressedPixelDataType::SHORT => constants::SHORT,
            TextureUncompressedPixelDataType::INT => constants::INT,
            TextureUncompressedPixelDataType::UNSIGNED_BYTE => constants::UNSIGNED_BYTE,
            TextureUncompressedPixelDataType::UNSIGNED_SHORT => constants::UNSIGNED_SHORT,
            TextureUncompressedPixelDataType::UNSIGNED_INT => constants::UNSIGNED_INT,
            TextureUncompressedPixelDataType::UNSIGNED_SHORT_5_6_5 => constants::UNSIGNED_SHORT_5_6_5,
            TextureUncompressedPixelDataType::UNSIGNED_SHORT_4_4_4_4 => constants::UNSIGNED_SHORT_4_4_4_4,
            TextureUncompressedPixelDataType::UNSIGNED_SHORT_5_5_5_1 => constants::UNSIGNED_SHORT_5_5_5_1,
            TextureUncompressedPixelDataType::UNSIGNED_INT_2_10_10_10_REV => constants::UNSIGNED_INT_2_10_10_10_REV,
            TextureUncompressedPixelDataType::UNSIGNED_INT_10F_11F_11F_REV => constants::UNSIGNED_INT_10F_11F_11F_REV,
            TextureUncompressedPixelDataType::UNSIGNED_INT_5_9_9_9_REV => constants::UNSIGNED_INT_5_9_9_9_REV,
            TextureUncompressedPixelDataType::UNSIGNED_INT_24_8 => constants::UNSIGNED_INT_24_8,
            TextureUncompressedPixelDataType::FLOAT_32_UNSIGNED_INT_24_8_REV => constants::FLOAT_32_UNSIGNED_INT_24_8_REV,
        }
    }
}

impl ToGlEnum for TextureUncompressedPixelDataType {
    fn gl_enum(&self) -> (r: u32)
        ensures
            r == self.gl_value(),
    {
        match self {
            TextureUncompressedPixelDataType::FLOAT => constants::FLOAT,
            TextureUncompressedPixelDataType::HALF_FLOAT => constants::HALF_FLOAT,
            TextureUncompressedPixelDataType::BYTE => constants::BYTE,
            TextureUncompressedPixelDataType::SHORT => constants::SHORT,
            TextureUncompressedPixelDataType::INT => constants::INT,
            TextureUncompressedPixelDataType::UNSIGNED_BYTE => constants::UNSIGNED_BYTE,
            TextureUncompressedPixelDataType::UNSIGNED_SHORT => constants::UNSIGNED_SHORT,
            TextureUncompressedPixelDataType::UNSIGNED_INT => constants::UNSIGNED_INT,
            TextureUncompressedPixelDataType::UNSIGNED_SHORT_5_6_5 => constants::UNSIGNED_SHORT_5_6_5,
            TextureUncompressedPixelDataType::UNSIGNED_SHORT_4_4_4_4 => constants::UNSIGNED_SHORT_4_4_4_4,
            TextureUncompressedPixelDataType::UNSIGNED_SHORT_5_5_5_1 => constants::UNSIGNED_SHORT_5_5_5_1,
            TextureUncompressedPixelDataType::UNSIGNED_INT_2_10_10_10_REV => constants::UNSIGNED_INT_2_10_10_10_REV,
            TextureUncompressedPixelDataType::UNSIGNED_INT_10F_11F_11F_REV => constants::UNSIGNED_INT_10F_11F_11F_REV,
            TextureUncompressedPixelDataType::UNSIGNED_INT_5_9_9_9_REV => constants::UNSIGNED_INT_5_9_9_9_REV,
            TextureUncompressedPixelDataType::UNSIGNED_INT_24_8 => constants::UNSIGNED_INT_24_8,
            TextureUncompressedPixelDataType::FLOAT_32_UNSIGNED_INT_24_8_REV => constants::FLOAT_32_UNSIGNED_INT_24_8_REV,
        }
    }
}

impl TextureUnit {
    /// The WebGL enumeration value this variant maps to.
    pub open spec fn gl_value(self) -> u32 {
        match self {
            TextureUnit::TEXTURE0 => constants::TEXTURE0,
            TextureUnit::TEXTURE1 => constants::TEXTURE1,
            TextureUnit::TEXTURE2 => constants::TEXTURE2,
            TextureUnit::TEXTURE3 => constants::TEXTURE3,
            TextureUnit::TEXTURE4 => constants::TEXTURE4,
            TextureUnit::TEXTURE5 => constants::TEXTURE5,
            TextureUnit::TEXTURE6 => constants::TEXTURE6,
            TextureUnit::TEXTURE7 => constants::TEXTURE7,
            TextureUnit::TEXTURE8 => constants::TEXTURE8,
            TextureUnit::TEXTURE9 => constants::TEXTURE9,
            TextureUnit::TEXTURE10 => constants::TEXTURE10,
            TextureUnit::TEXTURE11 => constants::TEXTURE11,
            TextureUnit::TEXTURE12 => constants::TEXTURE12,
            TextureUnit::TEXTURE13 => constants::TEXTURE13,
            TextureUnit::TEXTURE14 => constants::TEXTURE14,
            TextureUnit::TEXTURE15 => constants::TEXTURE15,
            TextureUnit::TEXTURE16 => constants::TEXTURE16,
            TextureUnit::TEXTURE17 => constants::TEXTURE17,
            TextureUnit::TEXTURE18 => constants::TEXTURE18,
            TextureUnit::TEXTURE19 => constants::TEXTURE19,
            TextureUnit::TEXTURE20 => constants::TEXTURE20,
            TextureUnit::TEXTURE21 => constants::TEXTURE21,
            TextureUnit::TEXTURE22 => constants::TEXTURE22,
            TextureUnit::TEXTURE23 => constants::TEXTURE23,
            TextureUnit::TEXTURE24 => constants::TEXTURE24,
            TextureUnit::TEXTURE25 => constants::TEXTURE25,
            TextureUnit::TEXTURE26 => constants::TEXTURE26,
            TextureUnit::TEXTURE27 => constants::TEXTURE27,
            TextureUnit::TEXTURE28 => constants::TEXTURE28,
            TextureUnit::TEXTURE29 => constants::TEXTURE29,
            TextureUnit::TEXTURE30 => constants::TEXTURE30,
            TextureUnit::TEXTURE31 => constants::TEXTURE31,
        }
    }
}

impl ToGlEnum for TextureUnit {
    fn gl_enum(&self) -> (r: u32)
        ensures
            r == self.gl_value(),
    {
        match self {
            TextureUnit::TEXTURE0 => constants::TEXTURE0,
            TextureUnit::TEXTURE1 => constants::TEXTURE1,
            TextureUnit::TEXTURE2 => constants::TEXTURE2,
            TextureUnit::TEXTURE3 => constants::TEXTURE3,
            TextureUnit::TEXTURE4 => constants::TEXTURE4,
            TextureUnit::TEXTURE5 => constants::TEXTURE5,
            TextureUnit::TEXTURE6 => constants::TEXTURE6,
            TextureUnit::TEXTURE7 => constants::TEXTURE7,
            TextureUnit::TEXTURE8 => constants::TEXTURE8,
            TextureUnit::TEXTURE9 => constants::TEXTURE9,
            TextureUnit::TEXTURE10 => constants::TEXTURE10,
            TextureUnit::TEXTURE11 => constants::TEXTURE11,
            TextureUnit::TEXTURE12 => constants::TEXTURE12,
            TextureUnit::TEXTURE13 => constants::TEXTURE13,
            TextureUnit::TEXTURE14 => constants::TEXTURE14,
            TextureUnit::TEXTURE15 => constants::TEXTURE15,
            TextureUnit::TEXTURE16 => constants::TEXTURE16,
            TextureUnit::TEXTURE17 => constants::TEXTURE17,
            TextureUnit::TEXTURE18 => constants::TEXTURE18,
            TextureUnit::TEXTURE19 => constants::TEXTURE19,
            TextureUnit::TEXTURE20 => constants::TEXTURE20,
            TextureUnit::TEXTURE21 => constants::TEXTURE21,
            TextureUnit::TEXTURE22 => constants::TEXTURE22,
            TextureUnit::TEXTURE23 => constants::TEXTURE23,
            TextureUnit::TEXTURE24 => constants::TEXTURE24,
            TextureUnit::TEXTURE25 => constants::TEXTURE25,
            TextureUnit::TEXTURE26 => constants::TEXTURE26,
            TextureUnit::TEXTURE27 => constants::TEXTURE27,
            TextureUnit::TEXTURE28 => constants::TEXTURE28,
            TextureUnit::TEXTURE29 => constants::TEXTURE29,
            TextureUnit::TEXTURE30 => constants::TEXTURE30,
            TextureUnit::TEXTURE31 => constants::TEXTURE31,
        }
    }
}

impl TextureUnpackColorSpaceConversion {
    /// The WebGL enumeration value this variant maps to.
    pub open spec fn gl_value(self) -> u32 {
        match self {
            TextureUnpackColorSpaceConversion::NONE => constants::NONE,
            TextureUnpackColorSpaceConversion::BROWSER_DEFAULT_WEBGL => constants::BROWSER_DEFAULT_WEBGL,
        }
    }
}

impl ToGlEnum for TextureUnpackColorSpaceConversion {
    fn gl_enum(&self) -> (r: u32)
        ensures
            r == self.gl_value(),
    {
        match self {
            TextureUnpackColorSpaceConversion::NONE => constants::NONE,
            TextureUnpackColorSpaceConversion::BROWSER_DEFAULT_WEBGL => constants::BROWSER_DEFAULT_WEBGL,
        }
    }
}

impl TexturePixelStorage {
    /// The WebGL enumeration value this variant maps to.
    pub open spec fn gl_value(self) -> u32 {
        match self {
            TexturePixelStorage::PACK_ALIGNMENT(_) => constants::PACK_ALIGNMENT,
            TexturePixelStorage::UNPACK_ALIGNMENT(_) => constants::UNPACK_ALIGNMENT,
            TexturePixelStorage::UNPACK_FLIP_Y_WEBGL(_) => constants::UNPACK_FLIP_Y_WEBGL,
            TexturePixelStorage::UNPACK_PREMULTIPLY_ALPHA_WEBGL(_) => constants::UNPACK_PREMULTIPLY_ALPHA_WEBGL,
            TexturePixelStorage::UNPACK_COLORSPACE_CONVERSION_WEBGL(_) => constants::UNPACK_COLORSPACE_CONVERSION_WEBGL,
            TexturePixelStorage::PACK_ROW_LENGTH(_) => constants::PACK_ROW_LENGTH,
            TexturePixelStorage::PACK_SKIP_PIXELS(_) => constants::PACK_SKIP_PIXELS,
            TexturePixelStorage::PACK_SKIP_ROWS(_) => constants::PACK_SKIP_ROWS,
            TexturePixelStorage::UNPACK_ROW_LENGTH(_) => constants::UNPACK_ROW_LENGTH,
            TexturePixelStorage::UNPACK_IMAGE_HEIGHT(_) => constants::UNPACK_IMAGE_HEIGHT,
            TexturePixelStorage::UNPACK_SKIP_PIXELS(_) => constants::UNPACK_SKIP_PIXELS,
            TexturePixelStorage::UNPACK_SKIP_ROWS(_) => constants::UNPACK_SKIP_ROWS,
            TexturePixelStorage::UNPACK_SKIP_IMAGES(_) => constants::UNPACK_SKIP_IMAGES,
        }
    }
}

impl ToGlEnum for TexturePixelStorage {
    fn gl_enum(&self) -> (r: u32)
        ensures
            r == self.gl_value(),
    {
        match self {
            TexturePixelStorage::PACK_ALIGNMENT(_) => constants::PACK_ALIGNMENT,
            TexturePixelStorage::UNPACK_ALIGNMENT(_) => constants::UNPACK_ALIGNMENT,
            TexturePixelStorage::UNPACK_FLIP_Y_WEBGL(_) => constants::UNPACK_FLIP_Y_WEBGL,
            TexturePixelStorage::UNPACK_PREMULTIPLY_ALPHA_WEBGL(_) => constants::UNPACK_PREMULTIPLY_ALPHA_WEBGL,
            TexturePixelStorage::UNPACK_COLORSPACE_CONVERSION_WEBGL(_) => constants::UNPACK_COLORSPACE_CONVERSION_WEBGL,
            TexturePixelStorage::PACK_ROW_LENGTH(_) => constants::PACK_ROW_LENGTH,
            TexturePixelStorage::PACK_SKIP_PIXELS(_) => constants::PACK_SKIP_PIXELS,
            TexturePixelStorage::PACK_SKIP_ROWS(_) => constants::PACK_SKIP_ROWS,
            TexturePixelStorage::UNPACK_ROW_LENGTH(_) => constants::UNPACK_ROW_LENGTH,
            TexturePixelStorage::UNPACK_IMAGE_HEIGHT(_) => constants::UNPACK_IMAGE_HEIGHT,
            TexturePixelStorage::UNPACK_SKIP_PIXELS(_) => constants::UNPACK_SKIP_PIXELS,
            TexturePixelStorage::UNPACK_SKIP_ROWS(_) => constants::UNPACK_SKIP_ROWS,
            TexturePixelStorage::UNPACK_SKIP_IMAGES(_) => constants::UNPACK_SKIP_IMAGES,
        }
    }
}

impl TextureMagnificationFilter {
    /// The WebGL enumeration value this variant maps to.
    pub open spec fn gl_value(self) -> u32 {
        match self {
            TextureMagnificationFilter::LINEAR => constants::LINEAR,
            TextureMagnificationFilter::NEAREST => constants::NEAREST,
        }
    }
}

impl ToGlEnum for TextureMagnificationFilter {
    fn gl_enum(&self) -> (r: u32)
        ensures
            r == self.gl_value(),
    {
        match self {
            TextureMagnificationFilter::LINEAR => constants::LINEAR,
            TextureMagnificationFilter::NEAREST => constants::NEAREST,
        }
    }
}

impl TextureMinificationFilter {
    /// The WebGL enumeration value this variant maps to.
    pub open spec fn gl_value(self) -> u32 {
        match self {
            TextureMinificationFilter::LINEAR => constants::LINEAR,
            TextureMinificationFilter::NEAREST => constants::NEAREST,
            TextureMinificationFilter::NEAREST_MIPMAP_NEAREST => constants::NEAREST_MIPMAP_NEAREST,
            TextureMinificationFilter::LINEAR_MIPMAP_NEAREST => constants::LINEAR_MIPMAP_NEAREST,
            TextureMinificationFilter::NEAREST_MIPMAP_LINEAR => constants::NEAREST_MIPMAP_LINEAR,
            TextureMinificationFilter::LINEAR_MIPMAP_LINEAR => constants::LINEAR_MIPMAP_LINEAR,
        }
    }
}

impl ToGlEnum for TextureMinificationFilter {
    fn gl_enum(&self) -> (r: u32)
        ensures
            r == self.gl_value(),
    {
        match self {
            TextureMinificationFilter::LINEAR => constants::LINEAR,
            TextureMinificationFilter::NEAREST => constants::NEAREST,
            TextureMinificationFilter::NEAREST_MIPMAP_NEAREST => constants::NEAREST_MIPMAP_NEAREST,
            TextureMinificationFilter::LINEAR_MIPMAP_NEAREST => constants::LINEAR_MIPMAP_NEAREST,
            TextureMinificationFilter::NEAREST_MIPMAP_LINEAR => constants::NEAREST_MIPMAP_LINEAR,
            TextureMinificationFilter::LINEAR_MIPMAP_LINEAR => constants::LINEAR_MIPMAP_LINEAR,
        }
    }
}

impl TextureWrapMethod {
    /// The WebGL enumeration value this variant maps to.
    pub open spec fn gl_value(self) -> u32 {
        match self {
            TextureWrapMethod::REPEAT => constants::REPEAT,
            TextureWrapMethod::CLAMP_TO_EDGE => constants::CLAMP_TO_EDGE,
            TextureWrapMethod::MIRRORED_REPEAT => constants::MIRRORED_REPEAT,
        }
    }
}

impl ToGlEnum for TextureWrapMethod {
    fn gl_enum(&self) -> (r: u32)
        ensures
            r == self.gl_value(),
    {
        match self {
            TextureWrapMethod::REPEAT => constants::REPEAT,
            TextureWrapMethod::CLAMP_TO_EDGE => constants::CLAMP_TO_EDGE,
            TextureWrapMethod::MIRRORED_REPEAT => constants::MIRRORED_REPEAT,
        }
    }
}

impl TextureCompareFunction {
    /// The WebGL enumeration value this variant maps to.
    pub open spec fn gl_value(self) -> u32 {
        match self {
            TextureCompareFunction::LEQUAL => constants::LEQUAL,
            TextureCompareFunction::GEQUAL => constants::GEQUAL,
            TextureCompareFunction::LESS => constants::LESS,
            TextureCompareFunction::GREATER => constants::GREATER,
            TextureCompareFunction::EQUAL => constants::EQUAL,
            TextureCompareFunction::NOTEQUAL => constants::NOTEQUAL,
            TextureCompareFunction::ALWAYS => constants::ALWAYS,
            TextureCompareFunction::NEVER => constants::NEVER,
        }
    }
}

impl ToGlEnum for TextureCompareFunction {
    fn gl_enum(&self) -> (r: u32)
        ensures
            r == self.gl_value(),
    {
        match self {
            TextureCompareFunction::LEQUAL => constants::LEQUAL,
            TextureCompareFunction::GEQUAL => constants::GEQUAL,
            TextureCompareFunction::LESS => constants::LESS,
            TextureCompareFunction::GREATER => constants::GREATER,
            TextureCompareFunction::EQUAL => constants::EQUAL,
            TextureCompareFunction::NOTEQUAL => constants::NOTEQUAL,
            TextureCompareFunction::ALWAYS => constants::ALWAYS,
            TextureCompareFunction::NEVER => constants::NEVER,
        }
    }
}

impl TextureCompareMode {
    /// The WebGL enumeration value this variant maps to.
    pub open spec fn gl_value(self) -> u32 {
        match self {
            TextureCompareMode::NONE => constants::NONE,
            TextureCompareMode::COMPARE_REF_TO_TEXTURE => constants::COMPARE_REF_TO_TEXTURE,
        }
    }
}

impl ToGlEnum for TextureCompareMode {
    fn gl_enum(&self) -> (r: u32)
        ensures
            r == self.gl_value(),
    {
        match self {
            TextureCompareMode::NONE => constants::NONE,
            TextureCompareMode::COMPARE_REF_TO_TEXTURE => constants::COMPARE_REF_TO_TEXTURE,
        }
    }
}

impl BlitMask {
    /// The WebGL enumeration value this variant maps to.
    pub open spec fn gl_value(self) -> u32 {
        match self {
            BlitMask::COLOR_BUFFER_BIT => constants::COLOR_BUFFER_BIT,
            BlitMask::DEPTH_BUFFER_BIT => constants::DEPTH_BUFFER_BIT,
            BlitMask::STENCIL_BUFFER_BIT => constants::STENCIL_BUFFER_BIT,
        }
    }
}

impl ToGlEnum for BlitMask {
    fn gl_enum(&self) -> (r: u32)
        ensures
            r == self.gl_value(),
    {
        match self {
            BlitMask::COLOR_BUFFER_BIT => constants::COLOR_BUFFER_BIT,
            BlitMask::DEPTH_BUFFER_BIT => constants::DEPTH_BUFFER_BIT,
            BlitMask::STENCIL_BUFFER_BIT => constants::STENCIL_BUFFER_BIT,
        }
    }
}

impl BlitFlilter {
    /// The WebGL enumeration value this variant maps to.
    pub open spec fn gl_value(self) -> u32 {
        match self {
            BlitFlilter::NEAREST => constants::NEAREST,
            BlitFlilter::LINEAR => constants::LINEAR,
        }
    }
}

impl ToGlEnum for BlitFlilter {
    fn gl_enum(&self) -> (r: u32)
        ensures
            r == self.gl_value(),
    {
        match self {
            BlitFlilter::NEAREST => constants::NEAREST,
            BlitFlilter::LINEAR => constants::LINEAR,
        }
    }
}

impl ClientWaitFlags {
    /// The WebGL enumeration value this variant maps to.
    pub open spec fn gl_value(self) -> u32 {
        match self {
            ClientWaitFlags::SYNC_FLUSH_COMMANDS_BIT => constants::SYNC_FLUSH_COMMANDS_BIT,
        }
    }
}

impl ToGlEnum for ClientWaitFlags {
    fn gl_enum(&self) -> (r: u32)
        ensures
            r == self.gl_value(),
    {
        match self {
            ClientWaitFlags::SYNC_FLUSH_COMMANDS_BIT => constants::SYNC_FLUSH_COMMANDS_BIT,
        }
    }
}

impl TextureParameterKind {
    /// The WebGL parameter name this parameter kind is set through.
    pub open spec fn gl_value(self) -> u32 {
        match self {
            TextureParameterKind::BASE_LEVEL => constants::TEXTURE_BASE_LEVEL,
            TextureParameterKind::MAX_LEVEL => constants::TEXTURE_MAX_LEVEL,
            TextureParameterKind::MAX_ANISOTROPY => constants::TEXTURE_MAX_ANISOTROPY_EXT,
        }
    }
}

impl ToGlEnum for TextureParameterKind {
    fn gl_enum(&self) -> (r: u32)
        ensures
            r == self.gl_value(),
    {
        match self {
            TextureParameterKind::BASE_LEVEL => constants::TEXTURE_BASE_LEVEL,
            TextureParameterKind::MAX_LEVEL => constants::TEXTURE_MAX_LEVEL,
            TextureParameterKind::MAX_ANISOTROPY => constants::TEXTURE_MAX_ANISOTROPY_EXT,
        }
    }
}

impl SamplerParameterKind {
    /// The WebGL parameter name this parameter kind is set through.
    pub open spec fn gl_value(self) -> u32 {
        match self {
            SamplerParameterKind::MAG_FILTER => constants::TEXTURE_MAG_FILTER,
            SamplerParameterKind::MIN_FILTER => constants::TEXTURE_MIN_FILTER,
            SamplerParameterKind::WRAP_S => constants::TEXTURE_WRAP_S,
            SamplerParameterKind::WRAP_T => constants::TEXTURE_WRAP_T,
            SamplerParameterKind::WRAP_R => constants::TEXTURE_WRAP_R,
            SamplerParameterKind::COMPARE_FUNC => constants::TEXTURE_COMPARE_FUNC,
            SamplerParameterKind::COMPARE_MODE => constants::TEXTURE_COMPARE_MODE,
            SamplerParameterKind::MAX_LOD => constants::TEXTURE_MAX_LOD,
            SamplerParameterKind::MIN_LOD => constants::TEXTURE_MIN_LOD,
        }
    }
}

impl ToGlEnum for SamplerParameterKind {
    fn gl_enum(&self) -> (r: u32)
        ensures
            r == self.gl_value(),
    {
        match self {
            SamplerParameterKind::MAG_FILTER => constants::TEXTURE_MAG_FILTER,
            SamplerParameterKind::MIN_FILTER => constants::TEXTURE_MIN_FILTER,
            SamplerParameterKind::WRAP_S => constants::TEXTURE_WRAP_S,
            SamplerParameterKind::WRAP_T => constants::TEXTURE_WRAP_T,
            SamplerParameterKind::WRAP_R => constants::TEXTURE_WRAP_R,
            SamplerParameterKind::COMPARE_FUNC => constants::TEXTURE_COMPARE_FUNC,
            SamplerParameterKind::COMPARE_MODE => constants::TEXTURE_COMPARE_MODE,
            SamplerParameterKind::MAX_LOD => constants::TEXTURE_MAX_LOD,
            SamplerParameterKind::MIN_LOD => constants::TEXTURE_MIN_LOD,
        }
    }
}

impl TextureInternalFormat {
    /// The WebGL enumeration value of the wrapped format.
    pub open spec fn gl_value(self) -> u32 {
        match self {
            TextureInternalFormat::Uncompressed(f) => f.gl_value(),
            TextureInternalFormat::Compressed(f) => f.gl_value(),
        }
    }
}

impl ToGlEnum for TextureInternalFormat {
    fn gl_enum(&self) -> (r: u32)
        ensures
            r == self.gl_value(),
    {
        match self {
            TextureInternalFormat::Uncompressed(f) => f.gl_enum(),
            TextureInternalFormat::Compressed(f) => f.gl_enum(),
        }
    }
}

/// The WebGL enumeration of a texture unit is `TEXTURE0` plus the unit's index.
pub proof fn lemma_texture_unit_enum(unit: TextureUnit)
    ensures
        unit.gl_value() == constants::TEXTURE0 + unit.spec_unit_index(),
{
}

/// Each [`BufferTarget`] maps to the WebGL enumeration value of its own name.
pub proof fn lemma_buffer_target_gl_values()
    ensures
        BufferTarget::ARRAY_BUFFER.gl_value() == 34962,
        BufferTarget::ELEMENT_ARRAY_BUFFER.gl_value() == 34963,
        BufferTarget::COPY_READ_BUFFER.gl_value() == 36662,
        BufferTarget::COPY_WRITE_BUFFER.gl_value() == 36663,
        BufferTarget::TRANSFORM_FEEDBACK_BUFFER.gl_value() == 35982,
        BufferTarget::UNIFORM_BUFFER.gl_value() == 35345,
        BufferTarget::PIXEL_PACK_BUFFER.gl_value() == 35051,
        BufferTarget::PIXEL_UNPACK_BUFFER.gl_value() == 35052,
{
}

/// Each [`BufferDataType`] maps to the WebGL enumeration value of its own name.
pub proof fn lemma_buffer_data_type_gl_values()
    ensures
        BufferDataType::FLOAT.gl_value() == 5126,
        BufferDataType::BYTE.gl_value() == 5120,
        BufferDataType::SHORT.gl_value() == 5122,
        BufferDataType::INT.gl_value() == 5124,
        BufferDataType::UNSIGNED_BYTE.gl_value() == 5121,
        BufferDataType::UNSIGNED_SHORT.gl_value() == 5123,
        BufferDataType::UNSIGNED_INT.gl_value() == 5125,
        BufferDataType::HALF_FLOAT.gl_value() == 5131,
        BufferDataType::INT_2_10_10_10_REV.gl_value() == 36255,
        BufferDataType::UNSIGNED_INT_2_10_10_10_REV.gl_value() == 33640,
{
}

/// Each [`BufferUsage`] maps to the WebGL enumeration value of its own name.
pub proof fn lemma_buffer_usage_gl_values()
    ensures
        BufferUsage::STATIC_DRAW.gl_value() == 35044,
        BufferUsage::DYNAMIC_DRAW.gl_value() == 35048,
        BufferUsage::STREAM_DRAW.gl_value() == 35040,
        BufferUsage::STATIC_READ.gl_value() == 35045,
        BufferUsage::DYNAMIC_READ.gl_value() == 35049,
        BufferUsage::STREAM_READ.gl_value() == 35041,
        BufferUsage::STATIC_COPY.gl_value() == 35046,
        BufferUsage::DYNAMIC_COPY.gl_value() == 35050,
        BufferUsage::STREAM_COPY.gl_value() == 35042,
{
}

/// Each [`ElementIndicesDataType`] maps to the WebGL enumeration value of its own name.
pub proof fn lemma_element_indices_data_type_gl_values()
    ensures
        ElementIndicesDataType::UNSIGNED_BYTE.gl_value() == 5121,
        ElementIndicesDataType::UNSIGNED_SHORT.gl_value() == 5123,
        ElementIndicesDataType::UNSIGNED_INT.gl_value() == 5125,
{
}

/// Each [`DrawMode`] maps to the WebGL enumeration value of its own name.
pub proof fn lemma_draw_mode_gl_values()
    ensures
        DrawMode::POINTS.gl_value() == 0,
        DrawMode::LINES.gl_value() == 1,
        DrawMode::LINE_LOOP.gl_value() == 2,
        DrawMode::LINE_STRIP.gl_value() == 3,
        DrawMode::TRIANGLES.gl_value() == 4,
        DrawMode::TRIANGLE_STRIP.gl_value() == 5,
        DrawMode::TRIANGLE_FAN.gl_value() == 6,
{
}

/// Each [`CullFace`] maps to the WebGL enumeration value of its own name.
pub proof fn lemma_cull_face_gl_values()
    ensures
        CullFace::FRONT.gl_value() == 1028,
        CullFace::BACK.gl_value() == 1029,
        CullFace::FRONT_AND_BACK.gl_value() == 1032,
{
}

/// Each [`TextureTarget`] maps to the WebGL enumeration value of its own name.
pub proof fn lemma_texture_target_gl_values()
    ensures
        TextureTarget::TEXTURE_2D.gl_value() == 3553,
        TextureTarget::TEXTURE_CUBE_MAP.gl_value() == 34067,
        TextureTarget::TEXTURE_2D_ARRAY.gl_value() == 35866,
        TextureTarget::TEXTURE_3D.gl_value() == 32879,
{
}

/// Each [`TextureUncompressedInternalFormat`] maps to the WebGL enumeration value of its own name.
pub proof fn lemma_texture_uncompressed_internal_format_gl_values()
    ensures
        TextureUncompressedInternalFormat::RGBA32I.gl_value() == 36226,
        TextureUncompressedInternalFormat::RGBA32UI.gl_value() == 36208,
        TextureUncompressedInternalFormat::RGBA16I.gl_value() == 36232,
        TextureUncompressedInternalFormat::RGBA16UI.gl_value() == 36214,
        TextureUncompressedInternalFormat::RGBA8.gl_value() == 32856,
        TextureUncompressedInternalFormat::RGBA8I.gl_value() == 36238,
        TextureUncompressedInternalFormat::RGBA8UI.gl_value() == 36220,
        TextureUncompressedInternalFormat::SRGB8_ALPHA8.gl_value() == 35907,
        TextureUncompressedInternalFormat::RGB10_A2.gl_value() == 32857,
        TextureUncompressedInternalFormat::RGB10_A2UI.gl_value() == 36975,
        TextureUncompressedInternalFormat::RGBA4.gl_value() == 32854,
        TextureUncompressedInternalFormat::RGB5_A1.gl_value() == 32855,
        TextureUncompressedInternalFormat::RGB8.gl_value() == 32849,
        TextureUncompressedInternalFormat::RGB565.gl_value() == 36194,
        TextureUncompressedInternalFormat::RG32I.gl_value() == 33339,
        TextureUncompressedInternalFormat::RG32UI.gl_value() == 33340,
        TextureUncompressedInternalFormat::RG16I.gl_value() == 33337,
        TextureUncompressedInternalFormat::RG16UI.gl_value() == 33338,
        TextureUncompressedInternalFormat::RG8.gl_value() == 33323,
        TextureUncompressedInternalFormat::RG8I.gl_value() == 33335,
        TextureUncompressedInternalFormat::RG8UI.gl_value() == 33336,
        TextureUncompressedInternalFormat::R32I.gl_value() == 33333,
        TextureUncompressedInternalFormat::R32UI.gl_value() == 33334,
        TextureUncompressedInternalFormat::R16I.gl_value() == 33331,
        TextureUncompressedInternalFormat::R16UI.gl_value() == 33332,
        TextureUncompressedInternalFormat::R8.gl_value() == 33321,
        TextureUncompressedInternalFormat::R8I.gl_value() == 33329,
        TextureUncompressedInternalFormat::R8UI.gl_value() == 33330,
        TextureUncompressedInternalFormat::RGBA32F.gl_value() == 34836,
        TextureUncompressedInternalFormat::RGBA16F.gl_value() == 34842,
        TextureUncompressedInternalFormat::RGBA8_SNORM.gl_value() == 36759,
        TextureUncompressedInternalFormat::RGB32F.gl_value() == 34837,
        TextureUncompressedInternalFormat::RGB32I.gl_value() == 36227,
        TextureUncompressedInternalFormat::RGB32UI.gl_value() == 36209,
        TextureUncompressedInternalFormat::RGB16F.gl_value() == 34843,
        TextureUncompressedInternalFormat::RGB16I.gl_value() == 36233,
        TextureUncompressedInternalFormat::RGB16UI.gl_value() == 36215,
        TextureUncompressedInternalFormat::RGB8_SNORM.gl_value() == 36758,
        TextureUncompressedInternalFormat::RGB8I.gl_value() == 36239,
        TextureUncompressedInternalFormat::RGB8UI.gl_value() == 36221,
        TextureUncompressedInternalFormat::SRGB8.gl_value() == 35905,
        TextureUncompressedInternalFormat::R11F_G11F_B10F.gl_value() == 35898,
        TextureUncompressedInternalFormat::RGB9_E5.gl_value() == 35901,
        TextureUncompressedInternalFormat::RG32F.gl_value() == 33328,
        TextureUncompressedInternalFormat::RG16F.gl_value() == 33327,
        TextureUncompressedInternalFormat::RG8_SNORM.gl_value() == 36757,
        TextureUncompressedInternalFormat::R32F.gl_value() == 33326,
        TextureUncompressedInternalFormat::R16F.gl_value() == 33325,
        TextureUncompressedInternalFormat::R8_SNORM.gl_value() == 36756,
        TextureUncompressedInternalFormat::DEPTH_COMPONENT32F.gl_value() == 36012,
        TextureUncompressedInternalFormat::DEPTH_COMPONENT24.gl_value() == 33190,
        TextureUncompressedInternalFormat::DEPTH_COMPONENT16.gl_value() == 33189,
        TextureUncompressedInternalFormat::DEPTH32F_STENCIL8.gl_value() == 36013,
        TextureUncompressedInternalFormat::DEPTH24_STENCIL8.gl_value() == 35056,
{
}

/// Each [`TextureUncompressedPixelFormat`] maps to the WebGL enumeration value of its own name.
pub proof fn lemma_texture_uncompressed_pixel_format_gl_values()
    ensures
        TextureUncompressedPixelFormat::RED.gl_value() == 6403,
        TextureUncompressedPixelFormat::RED_INTEGER.gl_value() == 36244,
        TextureUncompressedPixelFormat::RG.gl_value() == 33319,
        TextureUncompressedPixelFormat::RG_INTEGER.gl_value() == 33320,
        TextureUncompressedPixelFormat::RGB.gl_value() == 6407,
        TextureUncompressedPixelFormat::RGB_INTEGER.gl_value() == 36248,
        TextureUncompressedPixelFormat::RGBA.gl_value() == 6408,
        TextureUncompressedPixelFormat::RGBA_INTEGER.gl_value() == 36249,
        TextureUncompressedPixelFormat::LUMINANCE.gl_value() == 6409,
        TextureUncompressedPixelFormat::LUMINANCE_ALPHA.gl_value() == 6410,
        TextureUncompressedPixelFormat::ALPHA.gl_value() == 6406,
        TextureUncompressedPixelFormat::DEPTH_COMPONENT.gl_value() == 6402,
        TextureUncompressedPixelFormat::DEPTH_STENCIL.gl_value() == 34041,
{
}

/// Each [`TextureUncompressedPixelDataType`] maps to the WebGL enumeration value of its own name.
pub proof fn lemma_texture_uncompressed_pixel_data_type_gl_values()
    ensures
        TextureUncompressedPixelDataType::FLOAT.gl_value() == 5126,
        TextureUncompressedPixelDataType::HALF_FLOAT.gl_value() == 5131,
        TextureUncompressedPixelDataType::BYTE.gl_value() == 5120,
        TextureUncompressedPixelDataType::SHORT.gl_value() == 5122,
        TextureUncompressedPixelDataType::INT.gl_value() == 5124,
        TextureUncompressedPixelDataType::UNSIGNED_BYTE.gl_value() == 5121,
        TextureUncompressedPixelDataType::UNSIGNED_SHORT.gl_value() == 5123,
        TextureUncompressedPixelDataType::UNSIGNED_INT.gl_value() == 5125,
        TextureUncompressedPixelDataType::UNSIGNED_SHORT_5_6_5.gl_value() == 33635,
        TextureUncompressedPixelDataType::UNSIGNED_SHORT_4_4_4_4.gl_value() == 32819,
        TextureUncompressedPixelDataType::UNSIGNED_SHORT_5_5_5_1.gl_value() == 32820,
        TextureUncompressedPixelDataType::UNSIGNED_INT_2_10_10_10_REV.gl_value() == 33640,
        TextureUncompressedPixelDataType::UNSIGNED_INT_10F_11F_11F_REV.gl_value() == 35899,
        TextureUncompressedPixelDataType::UNSIGNED_INT_5_9_9_9_REV.gl_value() == 35902,
        TextureUncompressedPixelDataType::UNSIGNED_INT_24_8.gl_value() == 34042,
        TextureUncompressedPixelDataType::FLOAT_32_UNSIGNED_INT_24_8_REV.gl_value() == 36269,
{
}

/// Each [`TextureUnit`] maps to the WebGL enumeration value of its own name.
pub proof fn lemma_texture_unit_gl_values()
    ensures
        TextureUnit::TEXTURE0.gl_value() == 33984,
        TextureUnit::TEXTURE1.gl_value() == 33985,
        TextureUnit::TEXTURE2.gl_value() == 33986,
        TextureUnit::TEXTURE3.gl_value() == 33987,
        TextureUnit::TEXTURE4.gl_value() == 33988,
        TextureUnit::TEXTURE5.gl_value() == 33989,
        TextureUnit::TEXTURE6.gl_value() == 33990,
        TextureUnit::TEXTURE7.gl_value() == 33991,
        TextureUnit::TEXTURE8.gl_value() == 33992,
        TextureUnit::TEXTURE9.gl_value() == 33993,
        TextureUnit::TEXTURE10.gl_value() == 33994,
        TextureUnit::TEXTURE11.gl_value() == 33995,
        TextureUnit::TEXTURE12.gl_value() == 33996,
        TextureUnit::TEXTURE13.gl_value() == 33997,
        TextureUnit::TEXTURE14.gl_value() == 33998,
        TextureUnit::TEXTURE15.gl_value() == 33999,
        TextureUnit::TEXTURE16.gl_value() == 34000,
        TextureUnit::TEXTURE17.gl_value() == 34001,
        TextureUnit::TEXTURE18.gl_value() == 34002,
        TextureUnit::TEXTURE19.gl_value() == 34003,
        TextureUnit::TEXTURE20.gl_value() == 34004,
        TextureUnit::TEXTURE21.gl_value() == 34005,
        TextureUnit::TEXTURE22.gl_value() == 34006,
        TextureUnit::TEXTURE23.gl_value() == 34007,
        TextureUnit::TEXTURE24.gl_value() == 34008,
        TextureUnit::TEXTURE25.gl_value() == 34009,
        TextureUnit::TEXTURE26.gl_value() == 34010,
        TextureUnit::TEXTURE27.gl_value() == 34011,
        TextureUnit::TEXTURE28.gl_value() == 34012,
        TextureUnit::TEXTURE29.gl_value() == 34013,
        TextureUnit::TEXTURE30.gl_value() == 34014,
        TextureUnit::TEXTURE31.gl_value() == 34015,
{
}

/// Each [`TextureUnpackColorSpaceConversion`] maps to the WebGL enumeration value of its own name.
pub proof fn lemma_texture_unpack_color_space_conversion_gl_values()
    ensures
        TextureUnpackColorSpaceConversion::NONE.gl_value() == 0,
        TextureUnpackColorSpaceConversion::BROWSER_DEFAULT_WEBGL.gl_value() == 37444,
{
}

/// Each [`TextureMagnificationFilter`] maps to the WebGL enumeration value of its own name.
pub proof fn lemma_texture_magnification_filter_gl_values()
    ensures
        TextureMagnificationFilter::LINEAR.gl_value() == 9729,
        TextureMagnificationFilter::NEAREST.gl_value() == 9728,
{
}

/// Each [`TextureMinificationFilter`] maps to the WebGL enumeration value of its own name.
pub proof fn lemma_texture_minification_filter_gl_values()
    ensures
        TextureMinificationFilter::LINEAR.gl_value() == 9729,
        TextureMinificationFilter::NEAREST.gl_value() == 9728,
        TextureMinificationFilter::NEAREST_MIPMAP_NEAREST.gl_value() == 9984,
        TextureMinificationFilter::LINEAR_MIPMAP_NEAREST.gl_value() == 9985,
        TextureMinificationFilter::NEAREST_MIPMAP_LINEAR.gl_value() == 9986,
        TextureMinificationFilter::LINEAR_MIPMAP_LINEAR.gl_value() == 9987,
{
}

/// Each [`TextureWrapMethod`] maps to the WebGL enumeration value of its own name.
pub proof fn lemma_texture_wrap_method_gl_values()
    ensures
        TextureWrapMethod::REPEAT.gl_value() == 10497,
        TextureWrapMethod::CLAMP_TO_EDGE.gl_value() == 33071,
        TextureWrapMethod::MIRRORED_REPEAT.gl_value() == 33648,
{
}

/// Each [`TextureCompareFunction`] maps to the WebGL enumeration value of its own name.
pub proof fn lemma_texture_compare_function_gl_values()
    ensures
        TextureCompareFunction::LEQUAL.gl_value() == 515,
        TextureCompareFunction::GEQUAL.gl_value() == 518,
        TextureCompareFunction::LESS.gl_value() == 513,
        TextureCompareFunction::GREATER.gl_value() == 516,
        TextureCompareFunction::EQUAL.gl_value() == 514,
        TextureCompareFunction::NOTEQUAL.gl_value() == 517,
        TextureCompareFunction::ALWAYS.gl_value() == 519,
        TextureCompareFunction::NEVER.gl_value() == 512,
{
}

/// Each [`TextureCompareMode`] maps to the WebGL enumeration value of its own name.
pub proof fn lemma_texture_compare_mode_gl_values()
    ensures
        TextureCompareMode::NONE.gl_value() == 0,
        TextureCompareMode::COMPARE_REF_TO_TEXTURE.gl_value() == 34894,
{
}

/// Each [`BlitMask`] maps to the WebGL enumeration value of its own name.
pub proof fn lemma_blit_mask_gl_values()
    ensures
        BlitMask::COLOR_BUFFER_BIT.gl_value() == 16384,
        BlitMask::DEPTH_BUFFER_BIT.gl_value() == 256,
        BlitMask::STENCIL_BUFFER_BIT.gl_value() == 1024,
{
}

/// Each [`BlitFlilter`] maps to the WebGL enumeration value of its own name.
pub proof fn lemma_blit_flilter_gl_values()
    ensures
        BlitFlilter::NEAREST.gl_value() == 9728,
        BlitFlilter::LINEAR.gl_value() == 9729,
{
}

/// Each [`ClientWaitFlags`] maps to the WebGL enumeration value of its own name.
pub proof fn lemma_client_wait_flags_gl_values()
    ensures
        ClientWaitFlags::SYNC_FLUSH_COMMANDS_BIT.gl_value() == 1,
{
}

/// Each [`TextureParameterKind`] maps to the WebGL enumeration value of its own name.
pub proof fn lemma_texture_parameter_kind_gl_values()
    ensures
        TextureParameterKind::BASE_LEVEL.gl_value() == 33084,
        TextureParameterKind::MAX_LEVEL.gl_value() == 33085,
        TextureParameterKind::MAX_ANISOTROPY.gl_value() == 34046,
{
}

/// Each [`SamplerParameterKind`] maps to the WebGL enumeration value of its own name.
pub proof fn lemma_sampler_parameter_kind_gl_values()
    ensures
        SamplerParameterKind::MAG_FILTER.gl_value() == 10240,
        SamplerParameterKind::MIN_FILTER.gl_value() == 10241,
        SamplerParameterKind::WRAP_S.gl_value() == 10242,
        SamplerParameterKind::WRAP_T.gl_value() == 10243,
        SamplerParameterKind::WRAP_R.gl_value() == 32882,
        SamplerParameterKind::COMPARE_FUNC.gl_value() == 34893,
        SamplerParameterKind::COMPARE_MODE.gl_value() == 34892,
        SamplerParameterKind::MAX_LOD.gl_value() == 33083,
        SamplerParameterKind::MIN_LOD.gl_value() == 33082,
{
}

/// Each [`TextureCompressedFormat`] maps to the WebGL enumeration value of its own name.
pub proof fn lemma_texture_compressed_format_gl_values()
    ensures
        TextureCompressedFormat::RGB_S3TC_DXT1.gl_value() == 33776,
        TextureCompressedFormat::RGBA_S3TC_DXT1.gl_value() == 33777,
        TextureCompressedFormat::RGBA_S3TC_DXT3.gl_value() == 33778,
        TextureCompressedFormat::RGBA_S3TC_DXT5.gl_value() == 33779,
        TextureCompressedFormat::SRGB_S3TC_DXT1.gl_value() == 35916,
        TextureCompressedFormat::SRGB_ALPHA_S3TC_DXT1.gl_value() == 35917,
        TextureCompressedFormat::SRGB_ALPHA_S3TC_DXT3.gl_value() == 35918,
        TextureCompressedFormat::SRGB_ALPHA_S3TC_DXT5.gl_value() == 35919,
        TextureCompressedFormat::R11_EAC.gl_value() == 37488,
        TextureCompressedFormat::SIGNED_R11_EAC.gl_value() == 37489,
        TextureCompressedFormat::RG11_EAC.gl_value() == 37490,
        TextureCompressedFormat::SIGNED_RG11_EAC.gl_value() == 37491,
        TextureCompressedFormat::RGB8_ETC2.gl_value() == 37492,
        TextureCompressedFormat::RGBA8_ETC2_EAC.gl_value() == 37496,
        TextureCompressedFormat::SRGB8_ETC2.gl_value() == 37493,
        TextureCompressedFormat::SRGB8_ALPHA8_ETC2_EAC.gl_value() == 37497,
        TextureCompressedFormat::RGB8_PUNCHTHROUGH_ALPHA1_ETC2.gl_value() == 37494,
        TextureCompressedFormat::SRGB8_PUNCHTHROUGH_ALPHA1_ETC2.gl_value() == 37495,
        TextureCompressedFormat::RGB_PVRTC_2BPPV1_IMG.gl_value() == 35841,
        TextureCompressedFormat::RGBA_PVRTC_2BPPV1_IMG.gl_value() == 35843,
        TextureCompressedFormat::RGB_PVRTC_4BPPV1_IMG.gl_value() == 35840,
        TextureCompressedFormat::RGBA_PVRTC_4BPPV1_IMG.gl_value() == 35842,
        TextureCompressedFormat::RGB_ETC1_WEBGL.gl_value() == 36196,
        TextureCompressedFormat::RGBA_ASTC_4x4.gl_value() == 37808,
        TextureCompressedFormat::SRGB8_ALPHA8_ASTC_4x4.gl_value() == 37840,
        TextureCompressedFormat::RGBA_ASTC_5x4.gl_value() == 37809,
        TextureCompressedFormat::SRGB8_ALPHA8_ASTC_5x4.gl_value() == 37841,
        TextureCompressedFormat::RGBA_ASTC_5x5.gl_value() == 37810,
        TextureCompressedFormat::SRGB8_ALPHA8_ASTC_5x5.gl_value() == 37842,
        TextureCompressedFormat::RGBA_ASTC_6x5.gl_value() == 37811,
        TextureCompressedFormat::SRGB8_ALPHA8_ASTC_6x5.gl_value() == 37843,
        TextureCompressedFormat::RGBA_ASTC_6x6.gl_value() == 37812,
        TextureCompressedFormat::SRGB8_ALPHA8_ASTC_6x6.gl_value() == 37844,
        TextureCompressedFormat::RGBA_ASTC_8x5.gl_value() == 37813,
        TextureCompressedFormat::SRGB8_ALPHA8_ASTC_8x5.gl_value() == 37845,
        TextureCompressedFormat::RGBA_ASTC_8x6.gl_value() == 37814,
        TextureCompressedFormat::SRGB8_ALPHA8_ASTC_8x6.gl_value() == 37846,
        TextureCompressedFormat::RGBA_ASTC_8x8.gl_value() == 37815,
        TextureCompressedFormat::SRGB8_ALPHA8_ASTC_8x8.gl_value() == 37847,
        TextureCompressedFormat::RGBA_ASTC_10x5.gl_value() == 37816,
        TextureCompressedFormat::SRGB8_ALPHA8_ASTC_10x5.gl_value() == 37848,
        TextureCompressedFormat::RGBA_ASTC_10x6.gl_value() == 37817,
        TextureCompressedFormat::SRGB8_ALPHA8_ASTC_10x6.gl_value() == 37849,
        TextureCompressedFormat::RGBA_ASTC_10x10.gl_value() == 37819,
        TextureCompressedFormat::SRGB8_ALPHA8_ASTC_10x10.gl_value() == 37851,
        TextureCompressedFormat::RGBA_ASTC_12x10.gl_value() == 37820,
        TextureCompressedFormat::SRGB8_ALPHA8_ASTC_12x10.gl_value() == 37852,
        TextureCompressedFormat::RGBA_ASTC_12x12.gl_value() == 37821,
        TextureCompressedFormat::SRGB8_ALPHA8_ASTC_12x12.gl_value() == 37853,
        TextureCompressedFormat::RGBA_BPTC_UNORM.gl_value() == 36492,
        TextureCompressedFormat::SRGB_ALPHA_BPTC_UNORM.gl_value() == 36493,
        TextureCompressedFormat::RGB_BPTC_SIGNED_FLOAT.gl_value() == 36494,
        TextureCompressedFormat::RGB_BPTC_UNSIGNED_FLOAT.gl_value() == 36495,
        TextureCompressedFormat::RED_RGTC1.gl_value() == 36283,
        TextureCompressedFormat::SIGNED_RED_RGTC1.gl_value() == 36284,
        TextureCompressedFormat::RED_GREEN_RGTC2.gl_value() == 36285,
        TextureCompressedFormat::SIGNED_RED_GREEN_RGTC2.gl_value() == 36286,
{
}

/// Each [`TexturePixelStorage`] maps to the WebGL enumeration value of its own name.
pub proof fn lemma_texture_pixel_storage_gl_values()
    ensures
        forall|value: i32| #[trigger] TexturePixelStorage::PACK_ALIGNMENT(value).gl_value() == 3333,
        forall|value: i32| #[trigger] TexturePixelStorage::UNPACK_ALIGNMENT(value).gl_value() == 3317,
        forall|value: bool| #[trigger] TexturePixelStorage::UNPACK_FLIP_Y_WEBGL(value).gl_value() == 37440,
        forall|value: bool| #[trigger] TexturePixelStorage::UNPACK_PREMULTIPLY_ALPHA_WEBGL(value).gl_value() == 37441,
        forall|value: TextureUnpackColorSpaceConversion| #[trigger] TexturePixelStorage::UNPACK_COLORSPACE_CONVERSION_WEBGL(value).gl_value() == 37443,
        forall|value: i32| #[trigger] TexturePixelStorage::PACK_ROW_LENGTH(value).gl_value() == 3330,
        forall|value: i32| #[trigger] TexturePixelStorage::PACK_SKIP_PIXELS(value).gl_value() == 3332,
        forall|value: i32| #[trigger] TexturePixelStorage::PACK_SKIP_ROWS(value).gl_value() == 3331,
        forall|value: i32| #[trigger] TexturePixelStorage::UNPACK_ROW_LENGTH(value).gl_value() == 3314,
        forall|value: i32| #[trigger] TexturePixelStorage::UNPACK_IMAGE_HEIGHT(value).gl_value() == 32878,
        forall|value: i32| #[trigger] TexturePixelStorage::UNPACK_SKIP_PIXELS(value).gl_value() == 3316,
        forall|value: i32| #[trigger] TexturePixelStorage::UNPACK_SKIP_ROWS(value).gl_value() == 3315,
        forall|value: i32| #[trigger] TexturePixelStorage::UNPACK_SKIP_IMAGES(value).gl_value() == 32877,
{
}

} // verus!
