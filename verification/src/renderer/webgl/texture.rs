pub mod immutable;

use vstd::prelude::*;

use vstd::arithmetic::div_mod::lemma_div_denominator;
use vstd::arithmetic::power2::{lemma_pow2_pos, lemma_pow2_unfold, pow2};
use vstd::bits::lemma_usize_shr_is_div;

use super::sizing::{
    block_byte_length, checked_block_byte_length, checked_texels_byte_length, max_nat, texel_byte_length,
    texels_byte_length, BlockLayout, CompressedFootprint,
};

verus! {

/// Available texture targets mapped from [`WebGl2RenderingContext`].
#[allow(non_camel_case_types)]
#[derive(Debug, Clone, Copy, PartialEq, Eq, Hash, Structural)]
pub enum TextureTarget {
    TEXTURE_2D,
    TEXTURE_CUBE_MAP,
    TEXTURE_2D_ARRAY,
    TEXTURE_3D,
}

/// Available texture units mapped from [`WebGl2RenderingContext`].
#[allow(non_camel_case_types)]
#[derive(Debug, Clone, Copy, PartialEq, Eq, Hash, Structural)]
pub enum TextureUnit {
    TEXTURE0,
    TEXTURE1,
    TEXTURE2,
    TEXTURE3,
    TEXTURE4,
    TEXTURE5,
    TEXTURE6,
    TEXTURE7,
    TEXTURE8,
    TEXTURE9,
    TEXTURE10,
    TEXTURE11,
    TEXTURE12,
    TEXTURE13,
    TEXTURE14,
    TEXTURE15,
    TEXTURE16,
    TEXTURE17,
    TEXTURE18,
    TEXTURE19,
    TEXTURE20,
    TEXTURE21,
    TEXTURE22,
    TEXTURE23,
    TEXTURE24,
    TEXTURE25,
    TEXTURE26,
    TEXTURE27,
    TEXTURE28,
    TEXTURE29,
    TEXTURE30,
    TEXTURE31,
}

impl TextureUnit {
    /// Index of this texture unit: `n` for `TEXTUREn`.
    pub open spec fn spec_unit_index(self) -> nat {
        match self {
            TextureUnit::TEXTURE0 => 0,
            TextureUnit::TEXTURE1 => 1,
            TextureUnit::TEXTURE2 => 2,
            TextureUnit::TEXTURE3 => 3,
            TextureUnit::TEXTURE4 => 4,
            TextureUnit::TEXTURE5 => 5,
            TextureUnit::TEXTURE6 => 6,
            TextureUnit::TEXTURE7 => 7,
            TextureUnit::TEXTURE8 => 8,
            TextureUnit::TEXTURE9 => 9,
            TextureUnit::TEXTURE10 => 10,
            TextureUnit::TEXTURE11 => 11,
            TextureUnit::TEXTURE12 => 12,
            TextureUnit::TEXTURE13 => 13,
            TextureUnit::TEXTURE14 => 14,
            TextureUnit::TEXTURE15 => 15,
            TextureUnit::TEXTURE16 => 16,
            TextureUnit::TEXTURE17 => 17,
            TextureUnit::TEXTURE18 => 18,
            TextureUnit::TEXTURE19 => 19,
            TextureUnit::TEXTURE20 => 20,
            TextureUnit::TEXTURE21 => 21,
            TextureUnit::TEXTURE22 => 22,
            TextureUnit::TEXTURE23 => 23,
            TextureUnit::TEXTURE24 => 24,
            TextureUnit::TEXTURE25 => 25,
            TextureUnit::TEXTURE26 => 26,
            TextureUnit::TEXTURE27 => 27,
            TextureUnit::TEXTURE28 => 28,
            TextureUnit::TEXTURE29 => 29,
            TextureUnit::TEXTURE30 => 30,
            TextureUnit::TEXTURE31 => 31,
        }
    }

    /// Returns the index of this texture unit: `n` for `TEXTUREn`.
    pub fn unit_index(&self) -> (r: u32)
        ensures
            r == self.spec_unit_index(),
    {
        match self {
            TextureUnit::TEXTURE0 => 0,
            TextureUnit::TEXTURE1 => 1,
            TextureUnit::TEXTURE2 => 2,
            TextureUnit::TEXTURE3 => 3,
            TextureUnit::TEXTURE4 => 4,
            TextureUnit::TEXTURE5 => 5,
            TextureUnit::TEXTURE6 => 6,
            TextureUnit::TEXTURE7 => 7,
            TextureUnit::TEXTURE8 => 8,
            TextureUnit::TEXTURE9 => 9,
            TextureUnit::TEXTURE10 => 10,
            TextureUnit::TEXTURE11 => 11,
            TextureUnit::TEXTURE12 => 12,
            TextureUnit::TEXTURE13 => 13,
            TextureUnit::TEXTURE14 => 14,
            TextureUnit::TEXTURE15 => 15,
            TextureUnit::TEXTURE16 => 16,
            TextureUnit::TEXTURE17 => 17,
            TextureUnit::TEXTURE18 => 18,
            TextureUnit::TEXTURE19 => 19,
            TextureUnit::TEXTURE20 => 20,
            TextureUnit::TEXTURE21 => 21,
            TextureUnit::TEXTURE22 => 22,
            TextureUnit::TEXTURE23 => 23,
            TextureUnit::TEXTURE24 => 24,
            TextureUnit::TEXTURE25 => 25,
            TextureUnit::TEXTURE26 => 26,
            TextureUnit::TEXTURE27 => 27,
            TextureUnit::TEXTURE28 => 28,
            TextureUnit::TEXTURE29 => 29,
            TextureUnit::TEXTURE30 => 30,
            TextureUnit::TEXTURE31 => 31,
        }
    }
}

/// Available texture pixel data types mapped from [`WebGl2RenderingContext`].
#[allow(non_camel_case_types)]
#[derive(Debug, Clone, Copy, PartialEq, Eq, Hash, Structural)]
pub enum TextureUncompressedPixelDataType {
    FLOAT,
    HALF_FLOAT,
    BYTE,
    SHORT,
    INT,
    UNSIGNED_BYTE,
    UNSIGNED_SHORT,
    UNSIGNED_INT,
    UNSIGNED_SHORT_5_6_5,
    UNSIGNED_SHORT_4_4_4_4,
    UNSIGNED_SHORT_5_5_5_1,
    UNSIGNED_INT_2_10_10_10_REV,
    UNSIGNED_INT_10F_11F_11F_REV,
    UNSIGNED_INT_5_9_9_9_REV,
    UNSIGNED_INT_24_8,
    FLOAT_32_UNSIGNED_INT_24_8_REV,
}

/// Available texture unpack color space conversions for [`WebGl2RenderingContext`].
#[allow(non_camel_case_types)]
#[derive(Debug, Clone, Copy, PartialEq, Eq, Hash, Structural)]
pub enum TextureUnpackColorSpaceConversion {
    NONE,
    BROWSER_DEFAULT_WEBGL,
}

/// Available texture pixel storages for [`WebGl2RenderingContext`].
#[allow(non_camel_case_types)]
#[derive(Debug, Clone, Copy, PartialEq, Eq, Hash, Structural)]
pub enum TexturePixelStorage {
    PACK_ALIGNMENT(i32),
    PACK_ROW_LENGTH(i32),
    PACK_SKIP_PIXELS(i32),
    PACK_SKIP_ROWS(i32),
    UNPACK_ALIGNMENT(i32),
    UNPACK_FLIP_Y_WEBGL(bool),
    UNPACK_PREMULTIPLY_ALPHA_WEBGL(bool),
    UNPACK_COLORSPACE_CONVERSION_WEBGL(TextureUnpackColorSpaceConversion),
    UNPACK_ROW_LENGTH(i32),
    UNPACK_IMAGE_HEIGHT(i32),
    UNPACK_SKIP_PIXELS(i32),
    UNPACK_SKIP_ROWS(i32),
    UNPACK_SKIP_IMAGES(i32),
}

/// Available texture magnification filters for [`WebGl2RenderingContext`].
#[allow(non_camel_case_types)]
#[derive(Debug, Clone, Copy, PartialEq, Eq, Hash, Structural)]
pub enum TextureMagnificationFilter {
    LINEAR,
    NEAREST,
}

/// Available texture minification filters for [`WebGl2RenderingContext`].
#[allow(non_camel_case_types)]
#[derive(Debug, Clone, Copy, PartialEq, Eq, Hash, Structural)]
pub enum TextureMinificationFilter {
    LINEAR,
    NEAREST,
    NEAREST_MIPMAP_NEAREST,
    LINEAR_MIPMAP_NEAREST,
    NEAREST_MIPMAP_LINEAR,
    LINEAR_MIPMAP_LINEAR,
}

/// Available texture wrap methods for [`WebGl2RenderingContext`].
#[allow(non_camel_case_types)]
#[derive(Debug, Clone, Copy, PartialEq, Eq, Hash, Structural)]
pub enum TextureWrapMethod {
    REPEAT,
    CLAMP_TO_EDGE,
    MIRRORED_REPEAT,
}

/// Available texture compare function for [`WebGl2RenderingContext`].
#[allow(non_camel_case_types)]
#[derive(Debug, Clone, Copy, PartialEq, Eq, Hash, Structural)]
pub enum TextureCompareFunction {
    LEQUAL,
    GEQUAL,
    LESS,
    GREATER,
    EQUAL,
    NOTEQUAL,
    ALWAYS,
    NEVER,
}

/// Available texture compare modes for [`WebGl2RenderingContext`].
#[allow(non_camel_case_types)]
#[derive(Debug, Clone, Copy, PartialEq, Eq, Hash, Structural)]
pub enum TextureCompareMode {
    NONE,
    COMPARE_REF_TO_TEXTURE,
}

/// Available texture parameter kinds mapped from [`WebGl2RenderingContext`].
#[allow(non_camel_case_types)]
#[derive(Debug, Clone, Copy, PartialEq, Eq, Hash, Structural)]
pub enum TextureParameterKind {
    BASE_LEVEL,
    MAX_LEVEL,
    MAX_ANISOTROPY,
}

/// Available sampling kinds for [`WebGlSampler`] mapped from [`WebGl2RenderingContext`].
#[allow(non_camel_case_types)]
#[derive(Debug, Clone, Copy, PartialEq, Eq, Hash, Structural)]
pub enum SamplerParameterKind {
    MAG_FILTER,
    MIN_FILTER,
    WRAP_S,
    WRAP_T,
    WRAP_R,
    COMPARE_FUNC,
    COMPARE_MODE,
    MAX_LOD,
    MIN_LOD,
}

/// Available texture formats mapped from [`WebGl2RenderingContext`].
#[allow(non_camel_case_types)]
#[derive(Debug, Clone, Copy, PartialEq, Eq, Hash, Structural)]
pub enum TextureUncompressedPixelFormat {
    RED,
    RED_INTEGER,
    RG,
    RG_INTEGER,
    RGB,
    RGB_INTEGER,
    RGBA,
    RGBA_INTEGER,
    LUMINANCE,
    LUMINANCE_ALPHA,
    ALPHA,
    DEPTH_COMPONENT,
    DEPTH_STENCIL,
}

/// Available texture color internal formats mapped from [`WebGl2RenderingContext`].
#[allow(non_camel_case_types)]
#[derive(Debug, Clone, Copy, PartialEq, Eq, Hash, Structural)]
pub enum TextureUncompressedInternalFormat {
    RGBA32I,
    RGBA32UI,
    RGBA16I,
    RGBA16UI,
    RGBA8,
    RGBA8I,
    RGBA8UI,
    SRGB8_ALPHA8,
    RGB10_A2,
    RGB10_A2UI,
    RGBA4,
    RGB5_A1,
    RGB8,
    RGB565,
    RG32I,
    RG32UI,
    RG16I,
    RG16UI,
    RG8,
    RG8I,
    RG8UI,
    R32I,
    R32UI,
    R16I,
    R16UI,
    R8,
    R8I,
    R8UI,
    RGBA32F,
    RGBA16F,
    RGBA8_SNORM,
    RGB32F,
    RGB32I,
    RGB32UI,
    RGB16F,
    RGB16I,
    RGB16UI,
    RGB8_SNORM,
    RGB8I,
    RGB8UI,
    SRGB8,
    R11F_G11F_B10F,
    RGB9_E5,
    RG32F,
    RG16F,
    RG8_SNORM,
    R32F,
    R16F,
    R8_SNORM,
    DEPTH_COMPONENT32F,
    DEPTH_COMPONENT24,
    DEPTH_COMPONENT16,
    DEPTH32F_STENCIL8,
    DEPTH24_STENCIL8,
}

impl TextureUncompressedInternalFormat {
    /// Number of bytes one texel of this format takes.
    pub open spec fn texel_bytes(self) -> nat {
        match self {
            TextureUncompressedInternalFormat::RGBA32I => 16,
            TextureUncompressedInternalFormat::RGBA32UI => 16,
            TextureUncompressedInternalFormat::RGBA16I => 8,
            TextureUncompressedInternalFormat::RGBA16UI => 8,
            TextureUncompressedInternalFormat::RGBA8 => 4,
            TextureUncompressedInternalFormat::RGBA8I => 4,
            TextureUncompressedInternalFormat::RGBA8UI => 4,
            TextureUncompressedInternalFormat::SRGB8_ALPHA8 => 4,
            TextureUncompressedInternalFormat::RGB10_A2 => 4,
            TextureUncompressedInternalFormat::RGB10_A2UI => 4,
            TextureUncompressedInternalFormat::RGBA4 => 2,
            TextureUncompressedInternalFormat::RGB5_A1 => 2,
            TextureUncompressedInternalFormat::RGB8 => 3,
            TextureUncompressedInternalFormat::RGB565 => 2,
            TextureUncompressedInternalFormat::RG32I => 8,
            TextureUncompressedInternalFormat::RG32UI => 8,
            TextureUncompressedInternalFormat::RG16I => 4,
            TextureUncompressedInternalFormat::RG16UI => 4,
            TextureUncompressedInternalFormat::RG8 => 2,
            TextureUncompressedInternalFormat::RG8I => 2,
            TextureUncompressedInternalFormat::RG8UI => 2,
            TextureUncompressedInternalFormat::R32I => 4,
            TextureUncompressedInternalFormat::R32UI => 4,
            TextureUncompressedInternalFormat::R16I => 2,
            TextureUncompressedInternalFormat::R16UI => 2,
            TextureUncompressedInternalFormat::R8 => 1,
            TextureUncompressedInternalFormat::R8I => 1,
            TextureUncompressedInternalFormat::R8UI => 1,
            TextureUncompressedInternalFormat::RGBA32F => 16,
            TextureUncompressedInternalFormat::RGBA16F => 8,
            TextureUncompressedInternalFormat::RGBA8_SNORM => 4,
            TextureUncompressedInternalFormat::RGB32F => 12,
            TextureUncompressedInternalFormat::RGB32I => 12,
            TextureUncompressedInternalFormat::RGB32UI => 12,
            TextureUncompressedInternalFormat::RGB16F => 6,
            TextureUncompressedInternalFormat::RGB16I => 6,
            TextureUncompressedInternalFormat::RGB16UI => 6,
            TextureUncompressedInternalFormat::RGB8_SNORM => 3,
            TextureUncompressedInternalFormat::RGB8I => 3,
            TextureUncompressedInternalFormat::RGB8UI => 3,
            TextureUncompressedInternalFormat::SRGB8 => 3,
            TextureUncompressedInternalFormat::R11F_G11F_B10F => 4,
            TextureUncompressedInternalFormat::RGB9_E5 => 4,
            TextureUncompressedInternalFormat::RG32F => 8,
            TextureUncompressedInternalFormat::RG16F => 4,
            TextureUncompressedInternalFormat::RG8_SNORM => 2,
            TextureUncompressedInternalFormat::R32F => 4,
            TextureUncompressedInternalFormat::R16F => 2,
            TextureUncompressedInternalFormat::R8_SNORM => 1,
            TextureUncompressedInternalFormat::DEPTH_COMPONENT32F => 4,
            TextureUncompressedInternalFormat::DEPTH_COMPONENT24 => 3,
            TextureUncompressedInternalFormat::DEPTH_COMPONENT16 => 2,
            TextureUncompressedInternalFormat::DEPTH32F_STENCIL8 => 5,
            TextureUncompressedInternalFormat::DEPTH24_STENCIL8 => 4,
        }
    }

    fn texel_bytes_exec(&self) -> (r: usize)
        ensures
            r == self.texel_bytes(),
    {
        match self {
            TextureUncompressedInternalFormat::RGBA32I => 16,
            TextureUncompressedInternalFormat::RGBA32UI => 16,
            TextureUncompressedInternalFormat::RGBA16I => 8,
            TextureUncompressedInternalFormat::RGBA16UI => 8,
            TextureUncompressedInternalFormat::RGBA8 => 4,
            TextureUncompressedInternalFormat::RGBA8I => 4,
            TextureUncompressedInternalFormat::RGBA8UI => 4,
            TextureUncompressedInternalFormat::SRGB8_ALPHA8 => 4,
            TextureUncompressedInternalFormat::RGB10_A2 => 4,
            TextureUncompressedInternalFormat::RGB10_A2UI => 4,
            TextureUncompressedInternalFormat::RGBA4 => 2,
            TextureUncompressedInternalFormat::RGB5_A1 => 2,
            TextureUncompressedInternalFormat::RGB8 => 3,
            TextureUncompressedInternalFormat::RGB565 => 2,
            TextureUncompressedInternalFormat::RG32I => 8,
            TextureUncompressedInternalFormat::RG32UI => 8,
            TextureUncompressedInternalFormat::RG16I => 4,
            TextureUncompressedInternalFormat::RG16UI => 4,
            TextureUncompressedInternalFormat::RG8 => 2,
            TextureUncompressedInternalFormat::RG8I => 2,
            TextureUncompressedInternalFormat::RG8UI => 2,
            TextureUncompressedInternalFormat::R32I => 4,
            TextureUncompressedInternalFormat::R32UI => 4,
            TextureUncompressedInternalFormat::R16I => 2,
            TextureUncompressedInternalFormat::R16UI => 2,
            TextureUncompressedInternalFormat::R8 => 1,
            TextureUncompressedInternalFormat::R8I => 1,
            TextureUncompressedInternalFormat::R8UI => 1,
            TextureUncompressedInternalFormat::RGBA32F => 16,
            TextureUncompressedInternalFormat::RGBA16F => 8,
            TextureUncompressedInternalFormat::RGBA8_SNORM => 4,
            TextureUncompressedInternalFormat::RGB32F => 12,
            TextureUncompressedInternalFormat::RGB32I => 12,
            TextureUncompressedInternalFormat::RGB32UI => 12,
            TextureUncompressedInternalFormat::RGB16F => 6,
            TextureUncompressedInternalFormat::RGB16I => 6,
            TextureUncompressedInternalFormat::RGB16UI => 6,
            TextureUncompressedInternalFormat::RGB8_SNORM => 3,
            TextureUncompressedInternalFormat::RGB8I => 3,
            TextureUncompressedInternalFormat::RGB8UI => 3,
            TextureUncompressedInternalFormat::SRGB8 => 3,
            TextureUncompressedInternalFormat::R11F_G11F_B10F => 4,
            TextureUncompressedInternalFormat::RGB9_E5 => 4,
            TextureUncompressedInternalFormat::RG32F => 8,
            TextureUncompressedInternalFormat::RG16F => 4,
            TextureUncompressedInternalFormat::RG8_SNORM => 2,
            TextureUncompressedInternalFormat::R32F => 4,
            TextureUncompressedInternalFormat::R16F => 2,
            TextureUncompressedInternalFormat::R8_SNORM => 1,
            TextureUncompressedInternalFormat::DEPTH_COMPONENT32F => 4,
            TextureUncompressedInternalFormat::DEPTH_COMPONENT24 => 3,
            TextureUncompressedInternalFormat::DEPTH_COMPONENT16 => 2,
            TextureUncompressedInternalFormat::DEPTH32F_STENCIL8 => 5,
            TextureUncompressedInternalFormat::DEPTH24_STENCIL8 => 4,
        }
    }

    /// Bytes taken by an image of `width` x `height` texels in this format.
    pub open spec fn spec_byte_length(self, width: nat, height: nat) -> nat {
        texel_byte_length(width, height, self.texel_bytes())
    }

    /// Computing the byte length of a `width` x `height` image does not overflow `usize`.
    pub open spec fn byte_length_fits(self, width: nat, height: nat) -> bool {
        self.spec_byte_length(width, height) <= usize::MAX
    }

    /// Calculates the bytes length of a specified internal format with specified size.
    pub fn byte_length(&self, width: usize, height: usize) -> (r: usize)
        requires
            self.byte_length_fits(width as nat, height as nat),
        ensures
            r == self.spec_byte_length(width as nat, height as nat),
    {
        texels_byte_length(width, height, self.texel_bytes_exec())
    }
}

/// Available texture compressed internal and upload formats mapped from [`WebGl2RenderingContext`].
#[allow(non_camel_case_types)]
#[derive(Debug, Clone, Copy, PartialEq, Eq, Hash, Structural)]
pub enum TextureCompressedFormat {
    RGB_S3TC_DXT1,
    RGBA_S3TC_DXT1,
    RGBA_S3TC_DXT3,
    RGBA_S3TC_DXT5,
    SRGB_S3TC_DXT1,
    SRGB_ALPHA_S3TC_DXT1,
    SRGB_ALPHA_S3TC_DXT3,
    SRGB_ALPHA_S3TC_DXT5,
    R11_EAC,
    SIGNED_R11_EAC,
    RG11_EAC,
    SIGNED_RG11_EAC,
    RGB8_ETC2,
    RGBA8_ETC2_EAC,
    SRGB8_ETC2,
    SRGB8_ALPHA8_ETC2_EAC,
    RGB8_PUNCHTHROUGH_ALPHA1_ETC2,
    SRGB8_PUNCHTHROUGH_ALPHA1_ETC2,
    RGB_PVRTC_2BPPV1_IMG,
    RGBA_PVRTC_2BPPV1_IMG,
    RGB_PVRTC_4BPPV1_IMG,
    RGBA_PVRTC_4BPPV1_IMG,
    RGB_ETC1_WEBGL,
    RGBA_ASTC_4x4,
    SRGB8_ALPHA8_ASTC_4x4,
    RGBA_ASTC_5x4,
    SRGB8_ALPHA8_ASTC_5x4,
    RGBA_ASTC_5x5,
    SRGB8_ALPHA8_ASTC_5x5,
    RGBA_ASTC_6x5,
    SRGB8_ALPHA8_ASTC_6x5,
    RGBA_ASTC_6x6,
    SRGB8_ALPHA8_ASTC_6x6,
    RGBA_ASTC_8x5,
    SRGB8_ALPHA8_ASTC_8x5,
    RGBA_ASTC_8x6,
    SRGB8_ALPHA8_ASTC_8x6,
    RGBA_ASTC_8x8,
    SRGB8_ALPHA8_ASTC_8x8,
    RGBA_ASTC_10x5,
    SRGB8_ALPHA8_ASTC_10x5,
    RGBA_ASTC_10x6,
    SRGB8_ALPHA8_ASTC_10x6,
    RGBA_ASTC_10x10,
    SRGB8_ALPHA8_ASTC_10x10,
    RGBA_ASTC_12x10,
    SRGB8_ALPHA8_ASTC_12x10,
    RGBA_ASTC_12x12,
    SRGB8_ALPHA8_ASTC_12x12,
    RGBA_BPTC_UNORM,
    SRGB_ALPHA_BPTC_UNORM,
    RGB_BPTC_SIGNED_FLOAT,
    RGB_BPTC_UNSIGNED_FLOAT,
    RED_RGTC1,
    SIGNED_RED_RGTC1,
    RED_GREEN_RGTC2,
    SIGNED_RED_GREEN_RGTC2,
}

impl TextureCompressedFormat {
    /// Memory layout of this compressed format: its block footprint and block size,
    /// following the Khronos WebGL extension registry entry of each format.
    pub open spec fn block_layout(self) -> BlockLayout {
        match self {
            TextureCompressedFormat::RGB_S3TC_DXT1 => BlockLayout::Blocks { block_width: 4, block_height: 4, block_bytes: 8 },
            TextureCompressedFormat::RGBA_S3TC_DXT1 => BlockLayout::Blocks { block_width: 4, block_height: 4, block_bytes: 8 },
            TextureCompressedFormat::RGBA_S3TC_DXT3 => BlockLayout::Blocks { block_width: 4, block_height: 4, block_bytes: 16 },
            TextureCompressedFormat::RGBA_S3TC_DXT5 => BlockLayout::Blocks { block_width: 4, block_height: 4, block_bytes: 16 },
            TextureCompressedFormat::SRGB_S3TC_DXT1 => BlockLayout::Blocks { block_width: 4, block_height: 4, block_bytes: 8 },
            TextureCompressedFormat::SRGB_ALPHA_S3TC_DXT1 => BlockLayout::Blocks { block_width: 4, block_height: 4, block_bytes: 8 },
            TextureCompressedFormat::SRGB_ALPHA_S3TC_DXT3 => BlockLayout::Blocks { block_width: 4, block_height: 4, block_bytes: 16 },
            TextureCompressedFormat::SRGB_ALPHA_S3TC_DXT5 => BlockLayout::Blocks { block_width: 4, block_height: 4, block_bytes: 16 },
            TextureCompressedFormat::R11_EAC => BlockLayout::Blocks { block_width: 4, block_height: 4, block_bytes: 8 },
            TextureCompressedFormat::SIGNED_R11_EAC => BlockLayout::Blocks { block_width: 4, block_height: 4, block_bytes: 8 },
            TextureCompressedFormat::RG11_EAC => BlockLayout::Blocks { block_width: 4, block_height: 4, block_bytes: 16 },
            TextureCompressedFormat::SIGNED_RG11_EAC => BlockLayout::Blocks { block_width: 4, block_height: 4, block_bytes: 16 },
            TextureCompressedFormat::RGB8_ETC2 => BlockLayout::Blocks { block_width: 4, block_height: 4, block_bytes: 8 },
            TextureCompressedFormat::SRGB8_ETC2 => BlockLayout::Blocks { block_width: 4, block_height: 4, block_bytes: 8 },
            TextureCompressedFormat::RGBA8_ETC2_EAC => BlockLayout::Blocks { block_width: 4, block_height: 4, block_bytes: 16 },
            TextureCompressedFormat::SRGB8_ALPHA8_ETC2_EAC => BlockLayout::Blocks { block_width: 4, block_height: 4, block_bytes: 16 },
            TextureCompressedFormat::RGB8_PUNCHTHROUGH_ALPHA1_ETC2 => BlockLayout::Blocks { block_width: 4, block_height: 4, block_bytes: 8 },
            TextureCompressedFormat::SRGB8_PUNCHTHROUGH_ALPHA1_ETC2 => BlockLayout::Blocks { block_width: 4, block_height: 4, block_bytes: 8 },
            TextureCompressedFormat::RGB_PVRTC_2BPPV1_IMG => BlockLayout::Pvrtc { min_width: 16, min_height: 8, texels_per_byte: 4 },
            TextureCompressedFormat::RGBA_PVRTC_2BPPV1_IMG => BlockLayout::Pvrtc { min_width: 16, min_height: 8, texels_per_byte: 4 },
            TextureCompressedFormat::RGB_PVRTC_4BPPV1_IMG => BlockLayout::Pvrtc { min_width: 8, min_height: 8, texels_per_byte: 2 },
            TextureCompressedFormat::RGBA_PVRTC_4BPPV1_IMG => BlockLayout::Pvrtc { min_width: 8, min_height: 8, texels_per_byte: 2 },
            TextureCompressedFormat::RGB_ETC1_WEBGL => BlockLayout::Blocks { block_width: 4, block_height: 4, block_bytes: 8 },
            TextureCompressedFormat::RGBA_ASTC_4x4 => BlockLayout::Blocks { block_width: 4, block_height: 4, block_bytes: 16 },
            TextureCompressedFormat::SRGB8_ALPHA8_ASTC_4x4 => BlockLayout::Blocks { block_width: 4, block_height: 4, block_bytes: 16 },
            TextureCompressedFormat::RGBA_ASTC_5x4 => BlockLayout::Blocks { block_width: 5, block_height: 4, block_bytes: 16 },
            TextureCompressedFormat::SRGB8_ALPHA8_ASTC_5x4 => BlockLayout::Blocks { block_width: 5, block_height: 4, block_bytes: 16 },
            TextureCompressedFormat::RGBA_ASTC_5x5 => BlockLayout::Blocks { block_width: 5, block_height: 5, block_bytes: 16 },
            TextureCompressedFormat::SRGB8_ALPHA8_ASTC_5x5 => BlockLayout::Blocks { block_width: 5, block_height: 5, block_bytes: 16 },
            TextureCompressedFormat::RGBA_ASTC_6x5 => BlockLayout::Blocks { block_width: 6, block_height: 5, block_bytes: 16 },
            TextureCompressedFormat::SRGB8_ALPHA8_ASTC_6x5 => BlockLayout::Blocks { block_width: 6, block_height: 5, block_bytes: 16 },
            TextureCompressedFormat::RGBA_ASTC_6x6 => BlockLayout::Blocks { block_width: 6, block_height: 6, block_bytes: 16 },
            TextureCompressedFormat::SRGB8_ALPHA8_ASTC_6x6 => BlockLayout::Blocks { block_width: 6, block_height: 6, block_bytes: 16 },
            TextureCompressedFormat::RGBA_ASTC_8x5 => BlockLayout::Blocks { block_width: 8, block_height: 5, block_bytes: 16 },
            TextureCompressedFormat::SRGB8_ALPHA8_ASTC_8x5 => BlockLayout::Blocks { block_width: 8, block_height: 5, block_bytes: 16 },
            TextureCompressedFormat::RGBA_ASTC_8x6 => BlockLayout::Blocks { block_width: 8, block_height: 6, block_bytes: 16 },
            TextureCompressedFormat::SRGB8_ALPHA8_ASTC_8x6 => BlockLayout::Blocks { block_width: 8, block_height: 6, block_bytes: 16 },
            TextureCompressedFormat::RGBA_ASTC_8x8 => BlockLayout::Blocks { block_width: 8, block_height: 8, block_bytes: 16 },
            TextureCompressedFormat::SRGB8_ALPHA8_ASTC_8x8 => BlockLayout::Blocks { block_width: 8, block_height: 8, block_bytes: 16 },
            TextureCompressedFormat::RGBA_ASTC_10x5 => BlockLayout::Blocks { block_width: 10, block_height: 5, block_bytes: 16 },
            TextureCompressedFormat::SRGB8_ALPHA8_ASTC_10x5 => BlockLayout::Blocks { block_width: 10, block_height: 5, block_bytes: 16 },
            TextureCompressedFormat::RGBA_ASTC_10x6 => BlockLayout::Blocks { block_width: 10, block_height: 6, block_bytes: 16 },
            TextureCompressedFormat::SRGB8_ALPHA8_ASTC_10x6 => BlockLayout::Blocks { block_width: 10, block_height: 6, block_bytes: 16 },
            TextureCompressedFormat::RGBA_ASTC_10x10 => BlockLayout::Blocks { block_width: 10, block_height: 10, block_bytes: 16 },
            TextureCompressedFormat::SRGB8_ALPHA8_ASTC_10x10 => BlockLayout::Blocks { block_width: 10, block_height: 10, block_bytes: 16 },
            TextureCompressedFormat::RGBA_ASTC_12x10 => BlockLayout::Blocks { block_width: 12, block_height: 10, block_bytes: 16 },
            TextureCompressedFormat::SRGB8_ALPHA8_ASTC_12x10 => BlockLayout::Blocks { block_width: 12, block_height: 10, block_bytes: 16 },
            TextureCompressedFormat::RGBA_ASTC_12x12 => BlockLayout::Blocks { block_width: 12, block_height: 12, block_bytes: 16 },
            TextureCompressedFormat::SRGB8_ALPHA8_ASTC_12x12 => BlockLayout::Blocks { block_width: 12, block_height: 12, block_bytes: 16 },
            TextureCompressedFormat::RGBA_BPTC_UNORM => BlockLayout::Blocks { block_width: 4, block_height: 4, block_bytes: 16 },
            TextureCompressedFormat::SRGB_ALPHA_BPTC_UNORM => BlockLayout::Blocks { block_width: 4, block_height: 4, block_bytes: 16 },
            TextureCompressedFormat::RGB_BPTC_SIGNED_FLOAT => BlockLayout::Blocks { block_width: 4, block_height: 4, block_bytes: 16 },
            TextureCompressedFormat::RGB_BPTC_UNSIGNED_FLOAT => BlockLayout::Blocks { block_width: 4, block_height: 4, block_bytes: 16 },
            TextureCompressedFormat::RED_RGTC1 => BlockLayout::Blocks { block_width: 4, block_height: 4, block_bytes: 8 },
            TextureCompressedFormat::SIGNED_RED_RGTC1 => BlockLayout::Blocks { block_width: 4, block_height: 4, block_bytes: 8 },
            TextureCompressedFormat::RED_GREEN_RGTC2 => BlockLayout::Blocks { block_width: 4, block_height: 4, block_bytes: 16 },
            TextureCompressedFormat::SIGNED_RED_GREEN_RGTC2 => BlockLayout::Blocks { block_width: 4, block_height: 4, block_bytes: 16 },
        }
    }

    fn block_layout_exec(&self) -> (r: BlockLayout)
        ensures
            r == self.block_layout(),
    {
        match self {
            TextureCompressedFormat::RGB_S3TC_DXT1 => BlockLayout::Blocks { block_width: 4, block_height: 4, block_bytes: 8 },
            TextureCompressedFormat::RGBA_S3TC_DXT1 => BlockLayout::Blocks { block_width: 4, block_height: 4, block_bytes: 8 },
            TextureCompressedFormat::RGBA_S3TC_DXT3 => BlockLayout::Blocks { block_width: 4, block_height: 4, block_bytes: 16 },
            TextureCompressedFormat::RGBA_S3TC_DXT5 => BlockLayout::Blocks { block_width: 4, block_height: 4, block_bytes: 16 },
            TextureCompressedFormat::SRGB_S3TC_DXT1 => BlockLayout::Blocks { block_width: 4, block_height: 4, block_bytes: 8 },
            TextureCompressedFormat::SRGB_ALPHA_S3TC_DXT1 => BlockLayout::Blocks { block_width: 4, block_height: 4, block_bytes: 8 },
            TextureCompressedFormat::SRGB_ALPHA_S3TC_DXT3 => BlockLayout::Blocks { block_width: 4, block_height: 4, block_bytes: 16 },
            TextureCompressedFormat::SRGB_ALPHA_S3TC_DXT5 => BlockLayout::Blocks { block_width: 4, block_height: 4, block_bytes: 16 },
            TextureCompressedFormat::R11_EAC => BlockLayout::Blocks { block_width: 4, block_height: 4, block_bytes: 8 },
            TextureCompressedFormat::SIGNED_R11_EAC => BlockLayout::Blocks { block_width: 4, block_height: 4, block_bytes: 8 },
            TextureCompressedFormat::RG11_EAC => BlockLayout::Blocks { block_width: 4, block_height: 4, block_bytes: 16 },
            TextureCompressedFormat::SIGNED_RG11_EAC => BlockLayout::Blocks { block_width: 4, block_height: 4, block_bytes: 16 },
            TextureCompressedFormat::RGB8_ETC2 => BlockLayout::Blocks { block_width: 4, block_height: 4, block_bytes: 8 },
            TextureCompressedFormat::SRGB8_ETC2 => BlockLayout::Blocks { block_width: 4, block_height: 4, block_bytes: 8 },
            TextureCompressedFormat::RGBA8_ETC2_EAC => BlockLayout::Blocks { block_width: 4, block_height: 4, block_bytes: 16 },
            TextureCompressedFormat::SRGB8_ALPHA8_ETC2_EAC => BlockLayout::Blocks { block_width: 4, block_height: 4, block_bytes: 16 },
            TextureCompressedFormat::RGB8_PUNCHTHROUGH_ALPHA1_ETC2 => BlockLayout::Blocks { block_width: 4, block_height: 4, block_bytes: 8 },
            TextureCompressedFormat::SRGB8_PUNCHTHROUGH_ALPHA1_ETC2 => BlockLayout::Blocks { block_width: 4, block_height: 4, block_bytes: 8 },
            TextureCompressedFormat::RGB_PVRTC_2BPPV1_IMG => BlockLayout::Pvrtc { min_width: 16, min_height: 8, texels_per_byte: 4 },
            TextureCompressedFormat::RGBA_PVRTC_2BPPV1_IMG => BlockLayout::Pvrtc { min_width: 16, min_height: 8, texels_per_byte: 4 },
            TextureCompressedFormat::RGB_PVRTC_4BPPV1_IMG => BlockLayout::Pvrtc { min_width: 8, min_height: 8, texels_per_byte: 2 },
            TextureCompressedFormat::RGBA_PVRTC_4BPPV1_IMG => BlockLayout::Pvrtc { min_width: 8, min_height: 8, texels_per_byte: 2 },
            TextureCompressedFormat::RGB_ETC1_WEBGL => BlockLayout::Blocks { block_width: 4, block_height: 4, block_bytes: 8 },
            TextureCompressedFormat::RGBA_ASTC_4x4 => BlockLayout::Blocks { block_width: 4, block_height: 4, block_bytes: 16 },
            TextureCompressedFormat::SRGB8_ALPHA8_ASTC_4x4 => BlockLayout::Blocks { block_width: 4, block_height: 4, block_bytes: 16 },
            TextureCompressedFormat::RGBA_ASTC_5x4 => BlockLayout::Blocks { block_width: 5, block_height: 4, block_bytes: 16 },
            TextureCompressedFormat::SRGB8_ALPHA8_ASTC_5x4 => BlockLayout::Blocks { block_width: 5, block_height: 4, block_bytes: 16 },
            TextureCompressedFormat::RGBA_ASTC_5x5 => BlockLayout::Blocks { block_width: 5, block_height: 5, block_bytes: 16 },
            TextureCompressedFormat::SRGB8_ALPHA8_ASTC_5x5 => BlockLayout::Blocks { block_width: 5, block_height: 5, block_bytes: 16 },
            TextureCompressedFormat::RGBA_ASTC_6x5 => BlockLayout::Blocks { block_width: 6, block_height: 5, block_bytes: 16 },
            TextureCompressedFormat::SRGB8_ALPHA8_ASTC_6x5 => BlockLayout::Blocks { block_width: 6, block_height: 5, block_bytes: 16 },
            TextureCompressedFormat::RGBA_ASTC_6x6 => BlockLayout::Blocks { block_width: 6, block_height: 6, block_bytes: 16 },
            TextureCompressedFormat::SRGB8_ALPHA8_ASTC_6x6 => BlockLayout::Blocks { block_width: 6, block_height: 6, block_bytes: 16 },
            TextureCompressedFormat::RGBA_ASTC_8x5 => BlockLayout::Blocks { block_width: 8, block_height: 5, block_bytes: 16 },
            TextureCompressedFormat::SRGB8_ALPHA8_ASTC_8x5 => BlockLayout::Blocks { block_width: 8, block_height: 5, block_bytes: 16 },
            TextureCompressedFormat::RGBA_ASTC_8x6 => BlockLayout::Blocks { block_width: 8, block_height: 6, block_bytes: 16 },
            TextureCompressedFormat::SRGB8_ALPHA8_ASTC_8x6 => BlockLayout::Blocks { block_width: 8, block_height: 6, block_bytes: 16 },
            TextureCompressedFormat::RGBA_ASTC_8x8 => BlockLayout::Blocks { block_width: 8, block_height: 8, block_bytes: 16 },
            TextureCompressedFormat::SRGB8_ALPHA8_ASTC_8x8 => BlockLayout::Blocks { block_width: 8, block_height: 8, block_bytes: 16 },
            TextureCompressedFormat::RGBA_ASTC_10x5 => BlockLayout::Blocks { block_width: 10, block_height: 5, block_bytes: 16 },
            TextureCompressedFormat::SRGB8_ALPHA8_ASTC_10x5 => BlockLayout::Blocks { block_width: 10, block_height: 5, block_bytes: 16 },
            TextureCompressedFormat::RGBA_ASTC_10x6 => BlockLayout::Blocks { block_width: 10, block_height: 6, block_bytes: 16 },
            TextureCompressedFormat::SRGB8_ALPHA8_ASTC_10x6 => BlockLayout::Blocks { block_width: 10, block_height: 6, block_bytes: 16 },
            TextureCompressedFormat::RGBA_ASTC_10x10 => BlockLayout::Blocks { block_width: 10, block_height: 10, block_bytes: 16 },
            TextureCompressedFormat::SRGB8_ALPHA8_ASTC_10x10 => BlockLayout::Blocks { block_width: 10, block_height: 10, block_bytes: 16 },
            TextureCompressedFormat::RGBA_ASTC_12x10 => BlockLayout::Blocks { block_width: 12, block_height: 10, block_bytes: 16 },
            TextureCompressedFormat::SRGB8_ALPHA8_ASTC_12x10 => BlockLayout::Blocks { block_width: 12, block_height: 10, block_bytes: 16 },
            TextureCompressedFormat::RGBA_ASTC_12x12 => BlockLayout::Blocks { block_width: 12, block_height: 12, block_bytes: 16 },
            TextureCompressedFormat::SRGB8_ALPHA8_ASTC_12x12 => BlockLayout::Blocks { block_width: 12, block_height: 12, block_bytes: 16 },
            TextureCompressedFormat::RGBA_BPTC_UNORM => BlockLayout::Blocks { block_width: 4, block_height: 4, block_bytes: 16 },
            TextureCompressedFormat::SRGB_ALPHA_BPTC_UNORM => BlockLayout::Blocks { block_width: 4, block_height: 4, block_bytes: 16 },
            TextureCompressedFormat::RGB_BPTC_SIGNED_FLOAT => BlockLayout::Blocks { block_width: 4, block_height: 4, block_bytes: 16 },
            TextureCompressedFormat::RGB_BPTC_UNSIGNED_FLOAT => BlockLayout::Blocks { block_width: 4, block_height: 4, block_bytes: 16 },
            TextureCompressedFormat::RED_RGTC1 => BlockLayout::Blocks { block_width: 4, block_height: 4, block_bytes: 8 },
            TextureCompressedFormat::SIGNED_RED_RGTC1 => BlockLayout::Blocks { block_width: 4, block_height: 4, block_bytes: 8 },
            TextureCompressedFormat::RED_GREEN_RGTC2 => BlockLayout::Blocks { block_width: 4, block_height: 4, block_bytes: 16 },
            TextureCompressedFormat::SIGNED_RED_GREEN_RGTC2 => BlockLayout::Blocks { block_width: 4, block_height: 4, block_bytes: 16 },
        }
    }

    /// Bytes taken by an image of `width` x `height` texels in this format.
    pub open spec fn spec_byte_length(self, width: nat, height: nat) -> nat {
        self.block_layout().byte_length(width, height)
    }

    /// Computing the byte length of a `width` x `height` image does not overflow `usize`.
    pub open spec fn byte_length_fits(self, width: nat, height: nat) -> bool {
        self.block_layout().byte_length_fits(width, height)
    }

    /// Calculates the bytes length of a specified internal format with specified size.
    pub fn byte_length(&self, width: usize, height: usize) -> (r: usize)
        requires
            self.byte_length_fits(width as nat, height as nat),
        ensures
            r == self.spec_byte_length(width as nat, height as nat),
    {
        block_byte_length(self.block_layout_exec(), width, height)
    }
}

/// Texture internal formats containing both uncompressed and compressed formats.
#[allow(non_camel_case_types)]
#[derive(Debug, Clone, Copy, PartialEq, Eq, Hash, Structural)]
pub enum TextureInternalFormat {
    Uncompressed(TextureUncompressedInternalFormat),
    Compressed(TextureCompressedFormat),
}

#[allow(non_camel_case_types)]
#[derive(Debug, Clone, Copy, PartialEq, Eq, Hash, Structural)]
pub enum TextureCubeMapFace {
    PositiveX,
    NegativeX,
    PositiveY,
    NegativeY,
    PositiveZ,
    NegativeZ,
}

/// Memory policies kind.
#[allow(non_camel_case_types)]
#[derive(Debug, Clone, Copy, PartialEq, Eq, Hash, Structural)]
pub enum MemoryPolicyKind {
    Unfree,
    Restorable,
}

#[derive(Debug, Clone, Copy, PartialEq, Eq, Hash, Structural)]
pub struct Texture2D;

#[derive(Debug, Clone, Copy, PartialEq, Eq, Hash, Structural)]
pub struct Texture2DArray;

#[derive(Debug, Clone, Copy, PartialEq, Eq, Hash, Structural)]
pub struct Texture3D;

#[derive(Debug, Clone, Copy, PartialEq, Eq, Hash, Structural)]
pub struct TextureCubeMap;

impl TextureInternalFormat {
    /// Bytes taken by an image of `width` x `height` texels in this format.
    pub open spec fn spec_byte_length(self, width: nat, height: nat) -> nat {
        match self {
            TextureInternalFormat::Uncompressed(format) => format.spec_byte_length(width, height),
            TextureInternalFormat::Compressed(format) => format.spec_byte_length(width, height),
        }
    }

    /// Computing the byte length of a `width` x `height` image does not overflow `usize`.
    pub open spec fn byte_length_fits(self, width: nat, height: nat) -> bool {
        match self {
            TextureInternalFormat::Uncompressed(format) => format.byte_length_fits(width, height),
            TextureInternalFormat::Compressed(format) => format.byte_length_fits(width, height),
        }
    }

    /// Calculates the bytes length of a specified internal format with specified size.
    pub fn byte_length(&self, width: usize, height: usize) -> (r: usize)
        requires
            self.byte_length_fits(width as nat, height as nat),
        ensures
            r == self.spec_byte_length(width as nat, height as nat),
    {
        match self {
            TextureInternalFormat::Uncompressed(format) => format.byte_length(width, height),
            TextureInternalFormat::Compressed(format) => format.byte_length(width, height),
        }
    }
}

/// An internal format takes as many bytes as the uncompressed or compressed
/// format it holds, and fits in a `usize` exactly when that format does.
pub proof fn lemma_internal_format_byte_length(format: TextureInternalFormat, width: nat, height: nat)
    ensures
        format matches TextureInternalFormat::Uncompressed(f) ==> format.spec_byte_length(width, height)
            == f.spec_byte_length(width, height) && format.byte_length_fits(width, height) == f.byte_length_fits(
            width,
            height,
        ),
        format matches TextureInternalFormat::Compressed(f) ==> format.spec_byte_length(width, height)
            == f.spec_byte_length(width, height) && format.byte_length_fits(width, height) == f.byte_length_fits(
            width,
            height,
        ),
{
}

/// Extent of mipmap level `level` of a texture whose base extent is `base`:
/// the base extent halved `level` times (rounded down), and at least one texel.
pub open spec fn mip_extent(base: nat, level: nat) -> nat {
    max_nat(base / pow2(level), 1)
}

/// The mipmap chain halves: level 0 has the base extent (at least one texel),
/// and each next level has half the extent of the level before, rounded
/// down, but never less than one texel.
pub proof fn lemma_mip_extent_halves(base: nat, level: nat)
    ensures
        mip_extent(base, 0) == max_nat(base, 1),
        mip_extent(base, level + 1) == max_nat(mip_extent(base, level) / 2, 1),
        mip_extent(base, level) >= 1,
        mip_extent(base, level) <= max_nat(base, 1),
{
    lemma_pow2_pos(level);
    lemma_pow2_pos(level + 1);
    lemma_pow2_unfold(level + 1);
    assert(pow2(0) == 1) by {
        vstd::arithmetic::power2::lemma2_to64();
    }
    let q = base / pow2(level);
    lemma_div_denominator(base as int, pow2(level) as int, 2);
    assert(pow2(level) * 2 == pow2(level + 1));
    assert(q / 2 == base / pow2(level + 1));
    assert(q <= base) by {
        vstd::arithmetic::div_mod::lemma_div_is_ordered_by_denominator(base as int, 1, pow2(level) as int);
    }
}

/// Storage layout of a texture: its target, internal format, number of mipmap
/// levels and base extents.
#[derive(Debug, Clone, Copy, PartialEq, Eq, Hash, Structural)]
pub struct TextureLayout {
    pub target: TextureTarget,
    pub internal_format: TextureInternalFormat,
    pub levels: usize,
    pub width: usize,
    pub height: usize,
    pub depth: usize,
}

impl TextureLayout {
    /// Bytes taken by mipmap level `level` of this layout (all faces, layers or slices).
    pub open spec fn level_byte_length(self, level: nat) -> nat {
        let image = self.internal_format.spec_byte_length(
            mip_extent(self.width as nat, level),
            mip_extent(self.height as nat, level),
        );
        match self.target {
            TextureTarget::TEXTURE_2D => image,
            TextureTarget::TEXTURE_2D_ARRAY => image * (self.depth as nat),
            TextureTarget::TEXTURE_3D => image * mip_extent(self.depth as nat, level),
            TextureTarget::TEXTURE_CUBE_MAP => image * 6,
        }
    }

    /// Bytes taken by the first `count` mipmap levels of this layout.
    pub open spec fn levels_byte_length(self, count: nat) -> nat
        decreases count,
    {
        if count == 0 {
            0
        } else {
            self.levels_byte_length((count - 1) as nat) + self.level_byte_length((count - 1) as nat)
        }
    }

    /// Bytes taken by all mipmap levels of this layout.
    pub open spec fn spec_byte_length(self) -> nat {
        self.levels_byte_length(self.levels as nat)
    }

    /// Computing [`TextureLayout::byte_length`] does not overflow: levels can be
    /// shifted out of a `usize`, every level's image size fits, and so does the total.
    pub open spec fn byte_length_fits(self) -> bool {
        &&& self.levels <= usize::BITS
        &&& forall|level: nat|
            level < self.levels ==> #[trigger] self.internal_format.byte_length_fits(
                mip_extent(self.width as nat, level),
                mip_extent(self.height as nat, level),
            )
        &&& self.spec_byte_length() <= usize::MAX
    }

    /// Returns the target of this layout.
    pub fn target(&self) -> (r: TextureTarget)
        ensures
            r == self.target,
    {
        self.target
    }

    /// Returns the internal format of this layout.
    pub fn internal_format(&self) -> (r: TextureInternalFormat)
        ensures
            r == self.internal_format,
    {
        self.internal_format
    }

    proof fn lemma_levels_monotone(self, i: nat, j: nat)
        requires
            i <= j,
        ensures
            self.levels_byte_length(i) <= self.levels_byte_length(j),
        decreases j - i,
    {
        if i < j {
            self.lemma_levels_monotone(i, (j - 1) as nat);
        }
    }

    /// Returns the bytes length of the whole texture in all levels.
    pub fn byte_length(&self) -> (r: usize)
        requires
            self.byte_length_fits(),
        ensures
            r == self.spec_byte_length(),
    {
        let mut sum: usize = 0;
        let mut level: usize = 0;
        while level < self.levels
            invariant
                level <= self.levels,
                self.byte_length_fits(),
                sum == self.levels_byte_length(level as nat),
            decreases self.levels - level,
        {
            proof {
                self.lemma_levels_monotone((level + 1) as nat, self.levels as nat);
                lemma_usize_shr_is_div(self.width, level);
                lemma_usize_shr_is_div(self.height, level);
                lemma_usize_shr_is_div(self.depth, level);
                lemma_pow2_pos(level as nat);
                assert(self.internal_format.byte_length_fits(
                    mip_extent(self.width as nat, level as nat),
                    mip_extent(self.height as nat, level as nat),
                ));
            }
            let shifted_width = self.width >> level;
            let shifted_height = self.height >> level;
            let width = if shifted_width > 1 { shifted_width } else { 1 };
            let height = if shifted_height > 1 { shifted_height } else { 1 };
            let image = self.internal_format.byte_length(width, height);
            let term = match self.target {
                TextureTarget::TEXTURE_2D => image,
                TextureTarget::TEXTURE_2D_ARRAY => image * self.depth,
                TextureTarget::TEXTURE_3D => {
                    let shifted_depth = self.depth >> level;
                    let depth = if shifted_depth > 1 { shifted_depth } else { 1 };
                    image * depth
                },
                TextureTarget::TEXTURE_CUBE_MAP => image * 6,
            };
            sum = sum + term;
            level = level + 1;
        }
        sum
    }
}

/// Returns the extent of mipmap level `level` of a texture whose base extent is `base`.
pub fn level_extent(base: usize, level: usize) -> (r: usize)
    requires
        level < usize::BITS,
    ensures
        r == mip_extent(base as nat, level as nat),
{
    proof {
        lemma_usize_shr_is_div(base, level);
        lemma_pow2_pos(level as nat);
    }
    let shifted = base >> level;
    if shifted > 1 {
        shifted
    } else {
        1
    }
}

/// The extent of mipmap level `level` along a side of base extent `base`,
/// for a texture of `levels` levels (levels `0` to `levels - 1`): none at
/// or past the level count.
pub open spec fn extent_of_level(base: usize, levels: usize, level: usize) -> Option<usize> {
    if level >= levels {
        None
    } else {
        Some(mip_extent(base as nat, level as nat) as usize)
    }
}

impl TextureLayout {
    /// Returns texture width at specified level.
    pub fn width_of_level(&self, level: usize) -> (r: Option<usize>)
        requires
            level >= self.levels || level < usize::BITS,
        ensures
            r == extent_of_level(self.width, self.levels, level),
    {
        if level >= self.levels {
            return None;
        }
        Some(level_extent(self.width, level))
    }

    /// Returns texture height at specified level.
    pub fn height_of_level(&self, level: usize) -> (r: Option<usize>)
        requires
            level >= self.levels || level < usize::BITS,
        ensures
            r == extent_of_level(self.height, self.levels, level),
    {
        if level >= self.levels {
            return None;
        }
        Some(level_extent(self.height, level))
    }

    /// Returns texture depth at specified level.
    pub fn depth_of_level(&self, level: usize) -> (r: Option<usize>)
        requires
            level >= self.levels || level < usize::BITS,
        ensures
            r == extent_of_level(self.depth, self.levels, level),
    {
        if level >= self.levels {
            return None;
        }
        Some(level_extent(self.depth, level))
    }
}

impl TextureUncompressedInternalFormat {
    /// The bytes length of a `width` x `height` image in this format, or
    /// `None` when it exceeds `usize`.
    pub fn checked_byte_length(&self, width: usize, height: usize) -> (r: Option<usize>)
        ensures
            r is Some <==> self.byte_length_fits(width as nat, height as nat),
            r matches Some(v) ==> v == self.spec_byte_length(width as nat, height as nat),
    {
        checked_texels_byte_length(width, height, self.texel_bytes_exec())
    }
}

impl TextureCompressedFormat {
    /// The bytes length of a `width` x `height` image in this format, or
    /// `None` when computing it would overflow `usize`.
    pub fn checked_byte_length(&self, width: usize, height: usize) -> (r: Option<usize>)
        ensures
            r is Some <==> self.byte_length_fits(width as nat, height as nat),
            r matches Some(v) ==> v == self.spec_byte_length(width as nat, height as nat),
    {
        checked_block_byte_length(self.block_layout_exec(), width, height)
    }
}

impl TextureInternalFormat {
    /// The bytes length of a `width` x `height` image in this format, or
    /// `None` when computing it would overflow `usize`.
    pub fn checked_byte_length(&self, width: usize, height: usize) -> (r: Option<usize>)
        ensures
            r is Some <==> self.byte_length_fits(width as nat, height as nat),
            r matches Some(v) ==> v == self.spec_byte_length(width as nat, height as nat),
    {
        match self {
            TextureInternalFormat::Uncompressed(format) => format.checked_byte_length(width, height),
            TextureInternalFormat::Compressed(format) => format.checked_byte_length(width, height),
        }
    }
}

impl TextureLayout {
    proof fn lemma_level_within_total(self, level: nat, count: nat)
        requires
            level < count,
        ensures
            self.level_byte_length(level) <= self.levels_byte_length(count),
        decreases count,
    {
        if level < count - 1 {
            self.lemma_level_within_total(level, (count - 1) as nat);
        }
    }

    /// The bytes length of the whole texture in all levels, or `None` when
    /// computing it would overflow `usize` (the layout is then too large to
    /// be created).
    pub fn checked_byte_length(&self) -> (r: Option<usize>)
        ensures
            r is Some <==> self.byte_length_fits(),
            r matches Some(v) ==> v == self.spec_byte_length(),
    {
        if self.levels > usize::BITS as usize {
            return None;
        }
        let mut sum: usize = 0;
        let mut level: usize = 0;
        while level < self.levels
            invariant
                level <= self.levels,
                self.levels <= usize::BITS,
                sum == self.levels_byte_length(level as nat),
                forall|l: nat| l < level ==> #[trigger] self.internal_format.byte_length_fits(
                    mip_extent(self.width as nat, l),
                    mip_extent(self.height as nat, l),
                ),
            decreases self.levels - level,
        {
            proof {
                self.lemma_levels_monotone((level + 1) as nat, self.levels as nat);
                self.lemma_level_within_total(level as nat, self.levels as nat);
                lemma_pow2_pos(level as nat);
            }
            let width = level_extent(self.width, level);
            let height = level_extent(self.height, level);
            let image = match self.internal_format.checked_byte_length(width, height) {
                Some(v) => v,
                None => {
                    return None;
                },
            };
            let factor = match self.target {
                TextureTarget::TEXTURE_2D => 1,
                TextureTarget::TEXTURE_2D_ARRAY => self.depth,
                TextureTarget::TEXTURE_3D => level_extent(self.depth, level),
                TextureTarget::TEXTURE_CUBE_MAP => 6,
            };
            let term = match image.checked_mul(factor) {
                Some(v) => v,
                None => {
                    return None;
                },
            };
            assert(term == self.level_byte_length(level as nat));
            sum = match sum.checked_add(term) {
                Some(v) => v,
                None => {
                    return None;
                },
            };
            level = level + 1;
        }
        Some(sum)
    }
}

impl TextureUncompressedInternalFormat {
    /// Bits one texel of this format holds: the sum of the sizes of the
    /// channels its name spells (`RGBA32F`: four 32 bit channels;
    /// `RGB10_A2`: three 10 bit channels and a 2 bit one; `DEPTH24_STENCIL8`:
    /// 24 depth bits and 8 stencil bits).
    pub open spec fn channel_bits(self) -> nat {
        match self {
            TextureUncompressedInternalFormat::RGBA32I => 4 * 32,
            TextureUncompressedInternalFormat::RGBA32UI => 4 * 32,
            TextureUncompressedInternalFormat::RGBA16I => 4 * 16,
            TextureUncompressedInternalFormat::RGBA16UI => 4 * 16,
            TextureUncompressedInternalFormat::RGBA8 => 4 * 8,
            TextureUncompressedInternalFormat::RGBA8I => 4 * 8,
            TextureUncompressedInternalFormat::RGBA8UI => 4 * 8,
            TextureUncompressedInternalFormat::SRGB8_ALPHA8 => 4 * 8,
            TextureUncompressedInternalFormat::RGB10_A2 => 3 * 10 + 2,
            TextureUncompressedInternalFormat::RGB10_A2UI => 3 * 10 + 2,
            TextureUncompressedInternalFormat::RGBA4 => 4 * 4,
            TextureUncompressedInternalFormat::RGB5_A1 => 3 * 5 + 1,
            TextureUncompressedInternalFormat::RGB8 => 3 * 8,
            TextureUncompressedInternalFormat::RGB565 => 5 + 6 + 5,
            TextureUncompressedInternalFormat::RG32I => 2 * 32,
            TextureUncompressedInternalFormat::RG32UI => 2 * 32,
            TextureUncompressedInternalFormat::RG16I => 2 * 16,
            TextureUncompressedInternalFormat::RG16UI => 2 * 16,
            TextureUncompressedInternalFormat::RG8 => 2 * 8,
            TextureUncompressedInternalFormat::RG8I => 2 * 8,
            TextureUncompressedInternalFormat::RG8UI => 2 * 8,
            TextureUncompressedInternalFormat::R32I => 32,
            TextureUncompressedInternalFormat::R32UI => 32,
            TextureUncompressedInternalFormat::R16I => 16,
            TextureUncompressedInternalFormat::R16UI => 16,
            TextureUncompressedInternalFormat::R8 => 8,
            TextureUncompressedInternalFormat::R8I => 8,
            TextureUncompressedInternalFormat::R8UI => 8,
            TextureUncompressedInternalFormat::RGBA32F => 4 * 32,
            TextureUncompressedInternalFormat::RGBA16F => 4 * 16,
            TextureUncompressedInternalFormat::RGBA8_SNORM => 4 * 8,
            TextureUncompressedInternalFormat::RGB32F => 3 * 32,
            TextureUncompressedInternalFormat::RGB32I => 3 * 32,
            TextureUncompressedInternalFormat::RGB32UI => 3 * 32,
            TextureUncompressedInternalFormat::RGB16F => 3 * 16,
            TextureUncompressedInternalFormat::RGB16I => 3 * 16,
            TextureUncompressedInternalFormat::RGB16UI => 3 * 16,
            TextureUncompressedInternalFormat::RGB8_SNORM => 3 * 8,
            TextureUncompressedInternalFormat::RGB8I => 3 * 8,
            TextureUncompressedInternalFormat::RGB8UI => 3 * 8,
            TextureUncompressedInternalFormat::SRGB8 => 3 * 8,
            TextureUncompressedInternalFormat::R11F_G11F_B10F => 11 + 11 + 10,
            TextureUncompressedInternalFormat::RGB9_E5 => 3 * 9 + 5,
            TextureUncompressedInternalFormat::RG32F => 2 * 32,
            TextureUncompressedInternalFormat::RG16F => 2 * 16,
            TextureUncompressedInternalFormat::RG8_SNORM => 2 * 8,
            TextureUncompressedInternalFormat::R32F => 32,
            TextureUncompressedInternalFormat::R16F => 16,
            TextureUncompressedInternalFormat::R8_SNORM => 8,
            TextureUncompressedInternalFormat::DEPTH_COMPONENT32F => 32,
            TextureUncompressedInternalFormat::DEPTH_COMPONENT24 => 24,
            TextureUncompressedInternalFormat::DEPTH_COMPONENT16 => 16,
            TextureUncompressedInternalFormat::DEPTH32F_STENCIL8 => 32 + 8,
            TextureUncompressedInternalFormat::DEPTH24_STENCIL8 => 24 + 8,
        }
    }
}

/// An uncompressed internal format takes, per texel, the bytes its channels hold: a `width` x
/// `height` image takes `width * height` times its channel bits over eight.
pub proof fn lemma_texel_bytes_from_channels(format: TextureUncompressedInternalFormat, width: nat, height: nat)
    ensures
        format.channel_bits() % 8 == 0,
        format.texel_bytes() == format.channel_bits() / 8,
        format.spec_byte_length(width, height) == width * height * (format.channel_bits() / 8),
{
}

impl TextureCompressedFormat {
    /// What the format's family and name promise of its storage: S3TC, RGTC,
    /// ETC and EAC store 4 x 4 texel blocks of 64 bits (one channel, or RGB
    /// with at most one alpha bit) or 128 bits (two channels, or RGBA with
    /// full alpha); BPTC stores 4 x 4 blocks of 128 bits; ASTC `WxH` stores
    /// `W` x `H` blocks of 128 bits; PVRTC stores 2 or 4 bits per texel over
    /// an image of at least 16 x 8 or 8 x 8 texels.
    pub open spec fn footprint(self) -> CompressedFootprint {
        match self {
            TextureCompressedFormat::RGB_S3TC_DXT1 | TextureCompressedFormat::RGBA_S3TC_DXT1 | TextureCompressedFormat::SRGB_S3TC_DXT1 | TextureCompressedFormat::SRGB_ALPHA_S3TC_DXT1 | TextureCompressedFormat::R11_EAC | TextureCompressedFormat::SIGNED_R11_EAC | TextureCompressedFormat::RGB8_ETC2 | TextureCompressedFormat::SRGB8_ETC2 | TextureCompressedFormat::RGB8_PUNCHTHROUGH_ALPHA1_ETC2 | TextureCompressedFormat::SRGB8_PUNCHTHROUGH_ALPHA1_ETC2 | TextureCompressedFormat::RGB_ETC1_WEBGL | TextureCompressedFormat::RED_RGTC1 | TextureCompressedFormat::SIGNED_RED_RGTC1 => CompressedFootprint::Blocks { width: 4, height: 4, bits: 64 },
            TextureCompressedFormat::RGBA_S3TC_DXT3 | TextureCompressedFormat::RGBA_S3TC_DXT5 | TextureCompressedFormat::SRGB_ALPHA_S3TC_DXT3 | TextureCompressedFormat::SRGB_ALPHA_S3TC_DXT5 | TextureCompressedFormat::RG11_EAC | TextureCompressedFormat::SIGNED_RG11_EAC | TextureCompressedFormat::RGBA8_ETC2_EAC | TextureCompressedFormat::SRGB8_ALPHA8_ETC2_EAC | TextureCompressedFormat::RGBA_ASTC_4x4 | TextureCompressedFormat::SRGB8_ALPHA8_ASTC_4x4 | TextureCompressedFormat::RGBA_BPTC_UNORM | TextureCompressedFormat::SRGB_ALPHA_BPTC_UNORM | TextureCompressedFormat::RGB_BPTC_SIGNED_FLOAT | TextureCompressedFormat::RGB_BPTC_UNSIGNED_FLOAT | TextureCompressedFormat::RED_GREEN_RGTC2 | TextureCompressedFormat::SIGNED_RED_GREEN_RGTC2 => CompressedFootprint::Blocks { width: 4, height: 4, bits: 128 },
            TextureCompressedFormat::RGB_PVRTC_2BPPV1_IMG | TextureCompressedFormat::RGBA_PVRTC_2BPPV1_IMG => CompressedFootprint::Pvrtc { min_width: 16, min_height: 8, bits_per_texel: 2 },
            TextureCompressedFormat::RGB_PVRTC_4BPPV1_IMG | TextureCompressedFormat::RGBA_PVRTC_4BPPV1_IMG => CompressedFootprint::Pvrtc { min_width: 8, min_height: 8, bits_per_texel: 4 },
            TextureCompressedFormat::RGBA_ASTC_5x4 | TextureCompressedFormat::SRGB8_ALPHA8_ASTC_5x4 => CompressedFootprint::Blocks { width: 5, height: 4, bits: 128 },
            TextureCompressedFormat::RGBA_ASTC_5x5 | TextureCompressedFormat::SRGB8_ALPHA8_ASTC_5x5 => CompressedFootprint::Blocks { width: 5, height: 5, bits: 128 },
            TextureCompressedFormat::RGBA_ASTC_6x5 | TextureCompressedFormat::SRGB8_ALPHA8_ASTC_6x5 => CompressedFootprint::Blocks { width: 6, height: 5, bits: 128 },
            TextureCompressedFormat::RGBA_ASTC_6x6 | TextureCompressedFormat::SRGB8_ALPHA8_ASTC_6x6 => CompressedFootprint::Blocks { width: 6, height: 6, bits: 128 },
            TextureCompressedFormat::RGBA_ASTC_8x5 | TextureCompressedFormat::SRGB8_ALPHA8_ASTC_8x5 => CompressedFootprint::Blocks { width: 8, height: 5, bits: 128 },
            TextureCompressedFormat::RGBA_ASTC_8x6 | TextureCompressedFormat::SRGB8_ALPHA8_ASTC_8x6 => CompressedFootprint::Blocks { width: 8, height: 6, bits: 128 },
            TextureCompressedFormat::RGBA_ASTC_8x8 | TextureCompressedFormat::SRGB8_ALPHA8_ASTC_8x8 => CompressedFootprint::Blocks { width: 8, height: 8, bits: 128 },
            TextureCompressedFormat::RGBA_ASTC_10x5 | TextureCompressedFormat::SRGB8_ALPHA8_ASTC_10x5 => CompressedFootprint::Blocks { width: 10, height: 5, bits: 128 },
            TextureCompressedFormat::RGBA_ASTC_10x6 | TextureCompressedFormat::SRGB8_ALPHA8_ASTC_10x6 => CompressedFootprint::Blocks { width: 10, height: 6, bits: 128 },
            TextureCompressedFormat::RGBA_ASTC_10x10 | TextureCompressedFormat::SRGB8_ALPHA8_ASTC_10x10 => CompressedFootprint::Blocks { width: 10, height: 10, bits: 128 },
            TextureCompressedFormat::RGBA_ASTC_12x10 | TextureCompressedFormat::SRGB8_ALPHA8_ASTC_12x10 => CompressedFootprint::Blocks { width: 12, height: 10, bits: 128 },
            TextureCompressedFormat::RGBA_ASTC_12x12 | TextureCompressedFormat::SRGB8_ALPHA8_ASTC_12x12 => CompressedFootprint::Blocks { width: 12, height: 12, bits: 128 },
        }
    }
}

/// A compressed format lays out its texels as its family and name promise:
/// blocks of the named extent and bit size, or PVRTC's bits per texel over
/// its minimum extent.
pub proof fn lemma_compressed_layout_from_footprint(format: TextureCompressedFormat)
    ensures
        match format.footprint() {
            CompressedFootprint::Blocks { width, height, bits } => (format.block_layout() matches BlockLayout::Blocks {
                block_width,
                block_height,
                block_bytes,
            } && block_width == width && block_height == height && 8 * block_bytes == bits),
            CompressedFootprint::Pvrtc { min_width, min_height, bits_per_texel } => (format.block_layout() matches BlockLayout::Pvrtc {
                min_width: w,
                min_height: h,
                texels_per_byte,
            } && w == min_width && h == min_height && texels_per_byte * bits_per_texel == 8),
        },
{
    match format {
        TextureCompressedFormat::RGB_S3TC_DXT1 => {},
        TextureCompressedFormat::RGBA_S3TC_DXT1 => {},
        TextureCompressedFormat::RGBA_S3TC_DXT3 => {},
        TextureCompressedFormat::RGBA_S3TC_DXT5 => {},
        TextureCompressedFormat::SRGB_S3TC_DXT1 => {},
        TextureCompressedFormat::SRGB_ALPHA_S3TC_DXT1 => {},
        TextureCompressedFormat::SRGB_ALPHA_S3TC_DXT3 => {},
        TextureCompressedFormat::SRGB_ALPHA_S3TC_DXT5 => {},
        TextureCompressedFormat::R11_EAC => {},
        TextureCompressedFormat::SIGNED_R11_EAC => {},
        TextureCompressedFormat::RG11_EAC => {},
        TextureCompressedFormat::SIGNED_RG11_EAC => {},
        TextureCompressedFormat::RGB8_ETC2 => {},
        TextureCompressedFormat::RGBA8_ETC2_EAC => {},
        TextureCompressedFormat::SRGB8_ETC2 => {},
        TextureCompressedFormat::SRGB8_ALPHA8_ETC2_EAC => {},
        TextureCompressedFormat::RGB8_PUNCHTHROUGH_ALPHA1_ETC2 => {},
        TextureCompressedFormat::SRGB8_PUNCHTHROUGH_ALPHA1_ETC2 => {},
        TextureCompressedFormat::RGB_PVRTC_2BPPV1_IMG => {},
        TextureCompressedFormat::RGBA_PVRTC_2BPPV1_IMG => {},
        TextureCompressedFormat::RGB_PVRTC_4BPPV1_IMG => {},
        TextureCompressedFormat::RGBA_PVRTC_4BPPV1_IMG => {},
        TextureCompressedFormat::RGB_ETC1_WEBGL => {},
        TextureCompressedFormat::RGBA_ASTC_4x4 => {},
        TextureCompressedFormat::SRGB8_ALPHA8_ASTC_4x4 => {},
        TextureCompressedFormat::RGBA_ASTC_5x4 => {},
        TextureCompressedFormat::SRGB8_ALPHA8_ASTC_5x4 => {},
        TextureCompressedFormat::RGBA_ASTC_5x5 => {},
        TextureCompressedFormat::SRGB8_ALPHA8_ASTC_5x5 => {},
        TextureCompressedFormat::RGBA_ASTC_6x5 => {},
        TextureCompressedFormat::SRGB8_ALPHA8_ASTC_6x5 => {},
        TextureCompressedFormat::RGBA_ASTC_6x6 => {},
        TextureCompressedFormat::SRGB8_ALPHA8_ASTC_6x6 => {},
        TextureCompressedFormat::RGBA_ASTC_8x5 => {},
        TextureCompressedFormat::SRGB8_ALPHA8_ASTC_8x5 => {},
        TextureCompressedFormat::RGBA_ASTC_8x6 => {},
        TextureCompressedFormat::SRGB8_ALPHA8_ASTC_8x6 => {},
        TextureCompressedFormat::RGBA_ASTC_8x8 => {},
        TextureCompressedFormat::SRGB8_ALPHA8_ASTC_8x8 => {},
        TextureCompressedFormat::RGBA_ASTC_10x5 => {},
        TextureCompressedFormat::SRGB8_ALPHA8_ASTC_10x5 => {},
        TextureCompressedFormat::RGBA_ASTC_10x6 => {},
        TextureCompressedFormat::SRGB8_ALPHA8_ASTC_10x6 => {},
        TextureCompressedFormat::RGBA_ASTC_10x10 => {},
        TextureCompressedFormat::SRGB8_ALPHA8_ASTC_10x10 => {},
        TextureCompressedFormat::RGBA_ASTC_12x10 => {},
        TextureCompressedFormat::SRGB8_ALPHA8_ASTC_12x10 => {},
        TextureCompressedFormat::RGBA_ASTC_12x12 => {},
        TextureCompressedFormat::SRGB8_ALPHA8_ASTC_12x12 => {},
        TextureCompressedFormat::RGBA_BPTC_UNORM => {},
        TextureCompressedFormat::SRGB_ALPHA_BPTC_UNORM => {},
        TextureCompressedFormat::RGB_BPTC_SIGNED_FLOAT => {},
        TextureCompressedFormat::RGB_BPTC_UNSIGNED_FLOAT => {},
        TextureCompressedFormat::RED_RGTC1 => {},
        TextureCompressedFormat::SIGNED_RED_RGTC1 => {},
        TextureCompressedFormat::RED_GREEN_RGTC2 => {},
        TextureCompressedFormat::SIGNED_RED_GREEN_RGTC2 => {},
    }
}

/// Each texture unit `TEXTUREn` has index `n`, so that no two units share
/// an index and every index is below 32.
pub proof fn lemma_texture_unit_indices(unit: TextureUnit, other: TextureUnit)
    ensures
        TextureUnit::TEXTURE0.spec_unit_index() == 0,
        TextureUnit::TEXTURE1.spec_unit_index() == 1,
        TextureUnit::TEXTURE2.spec_unit_index() == 2,
        TextureUnit::TEXTURE3.spec_unit_index() == 3,
        TextureUnit::TEXTURE4.spec_unit_index() == 4,
        TextureUnit::TEXTURE5.spec_unit_index() == 5,
        TextureUnit::TEXTURE6.spec_unit_index() == 6,
        TextureUnit::TEXTURE7.spec_unit_index() == 7,
        TextureUnit::TEXTURE8.spec_unit_index() == 8,
        TextureUnit::TEXTURE9.spec_unit_index() == 9,
        TextureUnit::TEXTURE10.spec_unit_index() == 10,
        TextureUnit::TEXTURE11.spec_unit_index() == 11,
        TextureUnit::TEXTURE12.spec_unit_index() == 12,
        TextureUnit::TEXTURE13.spec_unit_index() == 13,
        TextureUnit::TEXTURE14.spec_unit_index() == 14,
        TextureUnit::TEXTURE15.spec_unit_index() == 15,
        TextureUnit::TEXTURE16.spec_unit_index() == 16,
        TextureUnit::TEXTURE17.spec_unit_index() == 17,
        TextureUnit::TEXTURE18.spec_unit_index() == 18,
        TextureUnit::TEXTURE19.spec_unit_index() == 19,
        TextureUnit::TEXTURE20.spec_unit_index() == 20,
        TextureUnit::TEXTURE21.spec_unit_index() == 21,
        TextureUnit::TEXTURE22.spec_unit_index() == 22,
        TextureUnit::TEXTURE23.spec_unit_index() == 23,
        TextureUnit::TEXTURE24.spec_unit_index() == 24,
        TextureUnit::TEXTURE25.spec_unit_index() == 25,
        TextureUnit::TEXTURE26.spec_unit_index() == 26,
        TextureUnit::TEXTURE27.spec_unit_index() == 27,
        TextureUnit::TEXTURE28.spec_unit_index() == 28,
        TextureUnit::TEXTURE29.spec_unit_index() == 29,
        TextureUnit::TEXTURE30.spec_unit_index() == 30,
        TextureUnit::TEXTURE31.spec_unit_index() == 31,
        unit.spec_unit_index() < 32,
        unit != other ==> unit.spec_unit_index() != other.spec_unit_index(),
{
}

} // verus!
