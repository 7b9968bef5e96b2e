//! Texture is created in Immutable Storage using `texStorage2D`
//! and then image data are uploaded by `texSubImage2D`.
//! Once the texture is created, the memory layout is no more alterable,
//! meaning that `texImage2D` and `texStorage2D` are no longer work.
//! But developer could still modify image data using `texSubImage2D`.
//! You have to create a new texture if you want to allocate a new texture with different layout.
use std::cell::{Ref, RefCell, RefMut};
use std::rc::Rc;
use vstd::prelude::*;

use crate::renderer::webgl::sizing::{block_byte_length, texel_byte_length, texels_byte_length, BlockLayout, CompressedFootprint};
use crate::renderer::webgl::constants;
use crate::value::{cell_new, cell_try_borrow, cell_try_borrow_mut};

verus! {

/// Available texture targets mapped from [`WebGl2RenderingContext`].
#[allow(non_camel_case_types)]
#[derive(Debug, Clone, Copy, PartialEq, Eq, Hash, Structural)]
pub enum TextureTarget {
    TEXTURE_2D,
    TEXTURE_CUBE_MAP,
    TEXTURE_2D_ARRAY,
    TEXTURE_3D,
}

/// Available texture upload targets for `texImage2d`, `texImage3d`, `texSubImage2d` and ``texSubImage3d`` mapped from [`WebGl2RenderingContext`].
#[allow(non_camel_case_types)]
#[derive(Debug, Clone, Copy, PartialEq, Eq, Hash, Structural)]
pub enum TextureUploadTarget {
    TEXTURE_2D,
    TEXTURE_CUBE_MAP_POSITIVE_X,
    TEXTURE_CUBE_MAP_NEGATIVE_X,
    TEXTURE_CUBE_MAP_POSITIVE_Y,
    TEXTURE_CUBE_MAP_NEGATIVE_Y,
    TEXTURE_CUBE_MAP_POSITIVE_Z,
    TEXTURE_CUBE_MAP_NEGATIVE_Z,
    TEXTURE_2D_ARRAY,
    TEXTURE_3D,
}

/// Available texture units mapped from [`WebGl2RenderingContext`].
#[allow(non_camel_case_types)]
#[derive(Debug, Clone, Copy, PartialEq, Eq, Hash, Structural)]
pub enum TextureUnit {
    TEXTURE0,
    TEXTURE1,
    TEXTURE2,
    TEXTURE3,
    TEXTURE4,
    TEXTURE5,
    TEXTURE6,
    TEXTURE7,
    TEXTURE8,
    TEXTURE9,
    TEXTURE10,
    TEXTURE11,
    TEXTURE12,
    TEXTURE13,
    TEXTURE14,
    TEXTURE15,
    TEXTURE16,
    TEXTURE17,
    TEXTURE18,
    TEXTURE19,
    TEXTURE20,
    TEXTURE21,
    TEXTURE22,
    TEXTURE23,
    TEXTURE24,
    TEXTURE25,
    TEXTURE26,
    TEXTURE27,
    TEXTURE28,
    TEXTURE29,
    TEXTURE30,
    TEXTURE31,
}

impl TextureUnit {
    /// Index of this texture unit: `n` for `TEXTUREn`.
    pub open spec fn spec_unit_index(self) -> nat {
        match self {
            TextureUnit::TEXTURE0 => 0,
            TextureUnit::TEXTURE1 => 1,
            TextureUnit::TEXTURE2 => 2,
            TextureUnit::TEXTURE3 => 3,
            TextureUnit::TEXTURE4 => 4,
            TextureUnit::TEXTURE5 => 5,
            TextureUnit::TEXTURE6 => 6,
            TextureUnit::TEXTURE7 => 7,
            TextureUnit::TEXTURE8 => 8,
            TextureUnit::TEXTURE9 => 9,
            TextureUnit::TEXTURE10 => 10,
            TextureUnit::TEXTURE11 => 11,
            TextureUnit::TEXTURE12 => 12,
            TextureUnit::TEXTURE13 => 13,
            TextureUnit::TEXTURE14 => 14,
            TextureUnit::TEXTURE15 => 15,
            TextureUnit::TEXTURE16 => 16,
            TextureUnit::TEXTURE17 => 17,
            TextureUnit::TEXTURE18 => 18,
            TextureUnit::TEXTURE19 => 19,
            TextureUnit::TEXTURE20 => 20,
            TextureUnit::TEXTURE21 => 21,
            TextureUnit::TEXTURE22 => 22,
            TextureUnit::TEXTURE23 => 23,
            TextureUnit::TEXTURE24 => 24,
            TextureUnit::TEXTURE25 => 25,
            TextureUnit::TEXTURE26 => 26,
            TextureUnit::TEXTURE27 => 27,
            TextureUnit::TEXTURE28 => 28,
            TextureUnit::TEXTURE29 => 29,
            TextureUnit::TEXTURE30 => 30,
            TextureUnit::TEXTURE31 => 31,
        }
    }

    /// Returns the index of this texture unit: `n` for `TEXTUREn`.
    pub fn unit_index(&self) -> (r: usize)
        ensures
            r == self.spec_unit_index(),
    {
        match self {
            TextureUnit::TEXTURE0 => 0,
            TextureUnit::TEXTURE1 => 1,
            TextureUnit::TEXTURE2 => 2,
            TextureUnit::TEXTURE3 => 3,
            TextureUnit::TEXTURE4 => 4,
            TextureUnit::TEXTURE5 => 5,
            TextureUnit::TEXTURE6 => 6,
            TextureUnit::TEXTURE7 => 7,
            TextureUnit::TEXTURE8 => 8,
            TextureUnit::TEXTURE9 => 9,
            TextureUnit::TEXTURE10 => 10,
            TextureUnit::TEXTURE11 => 11,
            TextureUnit::TEXTURE12 => 12,
            TextureUnit::TEXTURE13 => 13,
            TextureUnit::TEXTURE14 => 14,
            TextureUnit::TEXTURE15 => 15,
            TextureUnit::TEXTURE16 => 16,
            TextureUnit::TEXTURE17 => 17,
            TextureUnit::TEXTURE18 => 18,
            TextureUnit::TEXTURE19 => 19,
            TextureUnit::TEXTURE20 => 20,
            TextureUnit::TEXTURE21 => 21,
            TextureUnit::TEXTURE22 => 22,
            TextureUnit::TEXTURE23 => 23,
            TextureUnit::TEXTURE24 => 24,
            TextureUnit::TEXTURE25 => 25,
            TextureUnit::TEXTURE26 => 26,
            TextureUnit::TEXTURE27 => 27,
            TextureUnit::TEXTURE28 => 28,
            TextureUnit::TEXTURE29 => 29,
            TextureUnit::TEXTURE30 => 30,
            TextureUnit::TEXTURE31 => 31,
        }
    }
}

/// Available texture data types mapped from [`WebGl2RenderingContext`].
#[allow(non_camel_case_types)]
#[derive(Debug, Clone, Copy, PartialEq, Eq, Hash, Structural)]
pub enum TextureDataType {
    FLOAT,
    HALF_FLOAT,
    BYTE,
    SHORT,
    INT,
    UNSIGNED_BYTE,
    UNSIGNED_SHORT,
    UNSIGNED_INT,
    UNSIGNED_SHORT_5_6_5,
    UNSIGNED_SHORT_4_4_4_4,
    UNSIGNED_SHORT_5_5_5_1,
    UNSIGNED_INT_2_10_10_10_REV,
    UNSIGNED_INT_10F_11F_11F_REV,
    UNSIGNED_INT_5_9_9_9_REV,
    UNSIGNED_INT_24_8,
    FLOAT_32_UNSIGNED_INT_24_8_REV,
}

/// Available texture formats mapped from [`WebGl2RenderingContext`].
#[allow(non_camel_case_types)]
#[derive(Debug, Clone, Copy, PartialEq, Eq, Hash, Structural)]
pub enum TextureFormat {
    RED,
    RED_INTEGER,
    RG,
    RG_INTEGER,
    RGB,
    RGB_INTEGER,
    RGBA,
    RGBA_INTEGER,
    LUMINANCE,
    LUMINANCE_ALPHA,
    ALPHA,
    DEPTH_COMPONENT,
    DEPTH_STENCIL,
}

/// Available texture color internal formats mapped from [`WebGl2RenderingContext`].
#[allow(non_camel_case_types)]
#[derive(Debug, Clone, Copy, PartialEq, Eq, Hash, Structural)]
pub enum TextureColorFormat {
    RGBA32I,
    RGBA32UI,
    RGBA16I,
    RGBA16UI,
    RGBA8,
    RGBA8I,
    RGBA8UI,
    SRGB8_ALPHA8,
    RGB10_A2,
    RGB10_A2UI,
    RGBA4,
    RGB5_A1,
    RGB8,
    RGB565,
    RG32I,
    RG32UI,
    RG16I,
    RG16UI,
    RG8,
    RG8I,
    RG8UI,
    R32I,
    R32UI,
    R16I,
    R16UI,
    R8,
    R8I,
    R8UI,
    RGBA32F,
    RGBA16F,
    RGBA8_SNORM,
    RGB32F,
    RGB32I,
    RGB32UI,
    RGB16F,
    RGB16I,
    RGB16UI,
    RGB8_SNORM,
    RGB8I,
    RGB8UI,
    SRGB8,
    R11F_G11F_B10F,
    RGB9_E5,
    RG32F,
    RG16F,
    RG8_SNORM,
    R32F,
    R16F,
    R8_SNORM,
}

impl TextureColorFormat {
    /// Number of bytes one texel of this format takes.
    pub open spec fn texel_bytes(self) -> nat {
        match self {
            TextureColorFormat::RGBA32I => 16,
            TextureColorFormat::RGBA32UI => 16,
            TextureColorFormat::RGBA16I => 8,
            TextureColorFormat::RGBA16UI => 8,
            TextureColorFormat::RGBA8 => 4,
            TextureColorFormat::RGBA8I => 4,
            TextureColorFormat::RGBA8UI => 4,
            TextureColorFormat::SRGB8_ALPHA8 => 4,
            TextureColorFormat::RGB10_A2 => 4,
            TextureColorFormat::RGB10_A2UI => 4,
            TextureColorFormat::RGBA4 => 2,
            TextureColorFormat::RGB5_A1 => 2,
            TextureColorFormat::RGB8 => 3,
            TextureColorFormat::RGB565 => 2,
            TextureColorFormat::RG32I => 8,
            TextureColorFormat::RG32UI => 8,
            TextureColorFormat::RG16I => 4,
            TextureColorFormat::RG16UI => 4,
            TextureColorFormat::RG8 => 2,
            TextureColorFormat::RG8I => 2,
            TextureColorFormat::RG8UI => 2,
            TextureColorFormat::R32I => 4,
            TextureColorFormat::R32UI => 4,
            TextureColorFormat::R16I => 2,
            TextureColorFormat::R16UI => 2,
            TextureColorFormat::R8 => 1,
            TextureColorFormat::R8I => 1,
            TextureColorFormat::R8UI => 1,
            TextureColorFormat::RGBA32F => 16,
            TextureColorFormat::RGBA16F => 8,
            TextureColorFormat::RGBA8_SNORM => 4,
            TextureColorFormat::RGB32F => 12,
            TextureColorFormat::RGB32I => 12,
            TextureColorFormat::RGB32UI => 12,
            TextureColorFormat::RGB16F => 6,
            TextureColorFormat::RGB16I => 6,
            TextureColorFormat::RGB16UI => 6,
            TextureColorFormat::RGB8_SNORM => 3,
            TextureColorFormat::RGB8I => 3,
            TextureColorFormat::RGB8UI => 3,
            TextureColorFormat::SRGB8 => 3,
            TextureColorFormat::R11F_G11F_B10F => 4,
            TextureColorFormat::RGB9_E5 => 4,
            TextureColorFormat::RG32F => 8,
            TextureColorFormat::RG16F => 4,
            TextureColorFormat::RG8_SNORM => 2,
            TextureColorFormat::R32F => 4,
            TextureColorFormat::R16F => 2,
            TextureColorFormat::R8_SNORM => 1,
        }
    }

    fn texel_bytes_exec(&self) -> (r: usize)
        ensures
            r == self.texel_bytes(),
    {
        match self {
            TextureColorFormat::RGBA32I => 16,
            TextureColorFormat::RGBA32UI => 16,
            TextureColorFormat::RGBA16I => 8,
            TextureColorFormat::RGBA16UI => 8,
            TextureColorFormat::RGBA8 => 4,
            TextureColorFormat::RGBA8I => 4,
            TextureColorFormat::RGBA8UI => 4,
            TextureColorFormat::SRGB8_ALPHA8 => 4,
            TextureColorFormat::RGB10_A2 => 4,
            TextureColorFormat::RGB10_A2UI => 4,
            TextureColorFormat::RGBA4 => 2,
            TextureColorFormat::RGB5_A1 => 2,
            TextureColorFormat::RGB8 => 3,
            TextureColorFormat::RGB565 => 2,
            TextureColorFormat::RG32I => 8,
            TextureColorFormat::RG32UI => 8,
            TextureColorFormat::RG16I => 4,
            TextureColorFormat::RG16UI => 4,
            TextureColorFormat::RG8 => 2,
            TextureColorFormat::RG8I => 2,
            TextureColorFormat::RG8UI => 2,
            TextureColorFormat::R32I => 4,
            TextureColorFormat::R32UI => 4,
            TextureColorFormat::R16I => 2,
            TextureColorFormat::R16UI => 2,
            TextureColorFormat::R8 => 1,
            TextureColorFormat::R8I => 1,
            TextureColorFormat::R8UI => 1,
            TextureColorFormat::RGBA32F => 16,
            TextureColorFormat::RGBA16F => 8,
            TextureColorFormat::RGBA8_SNORM => 4,
            TextureColorFormat::RGB32F => 12,
            TextureColorFormat::RGB32I => 12,
            TextureColorFormat::RGB32UI => 12,
            TextureColorFormat::RGB16F => 6,
            TextureColorFormat::RGB16I => 6,
            TextureColorFormat::RGB16UI => 6,
            TextureColorFormat::RGB8_SNORM => 3,
            TextureColorFormat::RGB8I => 3,
            TextureColorFormat::RGB8UI => 3,
            TextureColorFormat::SRGB8 => 3,
            TextureColorFormat::R11F_G11F_B10F => 4,
            TextureColorFormat::RGB9_E5 => 4,
            TextureColorFormat::RG32F => 8,
            TextureColorFormat::RG16F => 4,
            TextureColorFormat::RG8_SNORM => 2,
            TextureColorFormat::R32F => 4,
            TextureColorFormat::R16F => 2,
            TextureColorFormat::R8_SNORM => 1,
        }
    }

    /// Bytes taken by an image of `width` x `height` texels in this format.
    pub open spec fn spec_byte_length(self, width: nat, height: nat) -> nat {
        texel_byte_length(width, height, self.texel_bytes())
    }

    /// Computing the byte length of a `width` x `height` image does not overflow `usize`.
    pub open spec fn byte_length_fits(self, width: nat, height: nat) -> bool {
        self.spec_byte_length(width, height) <= usize::MAX
    }

    /// Calculates the bytes length of of a specified internal format in specified size.
    pub fn byte_length(&self, width: usize, height: usize) -> (r: usize)
        requires
            self.byte_length_fits(width as nat, height as nat),
        ensures
            r == self.spec_byte_length(width as nat, height as nat),
    {
        texels_byte_length(width, height, self.texel_bytes_exec())
    }
}

/// Available texture depth internal formats mapped from [`WebGl2RenderingContext`].
#[allow(non_camel_case_types)]
#[derive(Debug, Clone, Copy, PartialEq, Eq, Hash, Structural)]
pub enum TextureDepthFormat {
    DEPTH_COMPONENT32F,
    DEPTH_COMPONENT24,
    DEPTH_COMPONENT16,
    DEPTH32F_STENCIL8,
    DEPTH24_STENCIL8,
}

impl TextureDepthFormat {
    /// Number of bytes one texel of this format takes.
    pub open spec fn texel_bytes(self) -> nat {
        match self {
            TextureDepthFormat::DEPTH_COMPONENT32F => 4,
            TextureDepthFormat::DEPTH_COMPONENT24 => 3,
            TextureDepthFormat::DEPTH_COMPONENT16 => 2,
            TextureDepthFormat::DEPTH32F_STENCIL8 => 5,
            TextureDepthFormat::DEPTH24_STENCIL8 => 4,
        }
    }

    fn texel_bytes_exec(&self) -> (r: usize)
        ensures
            r == self.texel_bytes(),
    {
        match self {
            TextureDepthFormat::DEPTH_COMPONENT32F => 4,
            TextureDepthFormat::DEPTH_COMPONENT24 => 3,
            TextureDepthFormat::DEPTH_COMPONENT16 => 2,
            TextureDepthFormat::DEPTH32F_STENCIL8 => 5,
            TextureDepthFormat::DEPTH24_STENCIL8 => 4,
        }
    }

    /// Bytes taken by an image of `width` x `height` texels in this format.
    pub open spec fn spec_byte_length(self, width: nat, height: nat) -> nat {
        texel_byte_length(width, height, self.texel_bytes())
    }

    /// Computing the byte length of a `width` x `height` image does not overflow `usize`.
    pub open spec fn byte_length_fits(self, width: nat, height: nat) -> bool {
        self.spec_byte_length(width, height) <= usize::MAX
    }

    /// Calculates the bytes length of of a specified internal format in specified size.
    pub fn byte_length(&self, width: usize, height: usize) -> (r: usize)
        requires
            self.byte_length_fits(width as nat, height as nat),
        ensures
            r == self.spec_byte_length(width as nat, height as nat),
    {
        texels_byte_length(width, height, self.texel_bytes_exec())
    }
}

/// Available texture compressed internal and upload formats mapped from [`WebGl2RenderingContext`].
#[allow(non_camel_case_types)]
#[derive(Debug, Clone, Copy, PartialEq, Eq, Hash, Structural)]
pub enum TextureCompressedFormat {
    RGB_S3TC_DXT1,
    RGBA_S3TC_DXT1,
    RGBA_S3TC_DXT3,
    RGBA_S3TC_DXT5,
    SRGB_S3TC_DXT1,
    SRGB_ALPHA_S3TC_DXT1,
    SRGB_ALPHA_S3TC_DXT3,
    SRGB_ALPHA_S3TC_DXT5,
    R11_EAC,
    SIGNED_R11_EAC,
    RG11_EAC,
    SIGNED_RG11_EAC,
    RGB8_ETC2,
    RGBA8_ETC2_EAC,
    SRGB8_ETC2,
    SRGB8_ALPHA8_ETC2_EAC,
    RGB8_PUNCHTHROUGH_ALPHA1_ETC2,
    SRGB8_PUNCHTHROUGH_ALPHA1_ETC2,
    RGB_PVRTC_2BPPV1_IMG,
    RGBA_PVRTC_2BPPV1_IMG,
    RGB_PVRTC_4BPPV1_IMG,
    RGBA_PVRTC_4BPPV1_IMG,
    RGB_ETC1_WEBGL,
    RGBA_ASTC_4x4,
    SRGB8_ALPHA8_ASTC_4x4,
    RGBA_ASTC_5x4,
    SRGB8_ALPHA8_ASTC_5x4,
    RGBA_ASTC_5x5,
    SRGB8_ALPHA8_ASTC_5x5,
    RGBA_ASTC_6x5,
    SRGB8_ALPHA8_ASTC_6x5,
    RGBA_ASTC_6x6,
    SRGB8_ALPHA8_ASTC_6x6,
    RGBA_ASTC_8x5,
    SRGB8_ALPHA8_ASTC_8x5,
    RGBA_ASTC_8x6,
    SRGB8_ALPHA8_ASTC_8x6,
    RGBA_ASTC_8x8,
    SRGB8_ALPHA8_ASTC_8x8,
    RGBA_ASTC_10x5,
    SRGB8_ALPHA8_ASTC_10x5,
    RGBA_ASTC_10x6,
    SRGB8_ALPHA8_ASTC_10x6,
    RGBA_ASTC_10x10,
    SRGB8_ALPHA8_ASTC_10x10,
    RGBA_ASTC_12x10,
    SRGB8_ALPHA8_ASTC_12x10,
    RGBA_ASTC_12x12,
    SRGB8_ALPHA8_ASTC_12x12,
    RGBA_BPTC_UNORM,
    SRGB_ALPHA_BPTC_UNORM,
    RGB_BPTC_SIGNED_FLOAT,
    RGB_BPTC_UNSIGNED_FLOAT,
    RED_RGTC1,
    SIGNED_RED_RGTC1,
    RED_GREEN_RGTC2,
    SIGNED_RED_GREEN_RGTC2,
}

impl TextureCompressedFormat {
    /// Memory layout of this compressed format: its block footprint and block size,
    /// following the Khronos WebGL extension registry entry of each format.
    pub open spec fn block_layout(self) -> BlockLayout {
        match self {
            TextureCompressedFormat::RGB_S3TC_DXT1 => BlockLayout::Blocks { block_width: 4, block_height: 4, block_bytes: 8 },
            TextureCompressedFormat::RGBA_S3TC_DXT1 => BlockLayout::Blocks { block_width: 4, block_height: 4, block_bytes: 8 },
            TextureCompressedFormat::RGBA_S3TC_DXT3 => BlockLayout::Blocks { block_width: 4, block_height: 4, block_bytes: 16 },
            TextureCompressedFormat::RGBA_S3TC_DXT5 => BlockLayout::Blocks { block_width: 4, block_height: 4, block_bytes: 16 },
            TextureCompressedFormat::SRGB_S3TC_DXT1 => BlockLayout::Blocks { block_width: 4, block_height: 4, block_bytes: 8 },
            TextureCompressedFormat::SRGB_ALPHA_S3TC_DXT1 => BlockLayout::Blocks { block_width: 4, block_height: 4, block_bytes: 8 },
            TextureCompressedFormat::SRGB_ALPHA_S3TC_DXT3 => BlockLayout::Blocks { block_width: 4, block_height: 4, block_bytes: 16 },
            TextureCompressedFormat::SRGB_ALPHA_S3TC_DXT5 => BlockLayout::Blocks { block_width: 4, block_height: 4, block_bytes: 16 },
            TextureCompressedFormat::R11_EAC => BlockLayout::Blocks { block_width: 4, block_height: 4, block_bytes: 8 },
            TextureCompressedFormat::SIGNED_R11_EAC => BlockLayout::Blocks { block_width: 4, block_height: 4, block_bytes: 8 },
            TextureCompressedFormat::RG11_EAC => BlockLayout::Blocks { block_width: 4, block_height: 4, block_bytes: 16 },
            TextureCompressedFormat::SIGNED_RG11_EAC => BlockLayout::Blocks { block_width: 4, block_height: 4, block_bytes: 16 },
            TextureCompressedFormat::RGB8_ETC2 => BlockLayout::Blocks { block_width: 4, block_height: 4, block_bytes: 8 },
            TextureCompressedFormat::SRGB8_ETC2 => BlockLayout::Blocks { block_width: 4, block_height: 4, block_bytes: 8 },
            TextureCompressedFormat::RGBA8_ETC2_EAC => BlockLayout::Blocks { block_width: 4, block_height: 4, block_bytes: 16 },
            TextureCompressedFormat::SRGB8_ALPHA8_ETC2_EAC => BlockLayout::Blocks { block_width: 4, block_height: 4, block_bytes: 16 },
            TextureCompressedFormat::RGB8_PUNCHTHROUGH_ALPHA1_ETC2 => BlockLayout::Blocks { block_width: 4, block_height: 4, block_bytes: 8 },
            TextureCompressedFormat::SRGB8_PUNCHTHROUGH_ALPHA1_ETC2 => BlockLayout::Blocks { block_width: 4, block_height: 4, block_bytes: 8 },
            TextureCompressedFormat::RGB_PVRTC_2BPPV1_IMG => BlockLayout::Pvrtc { min_width: 16, min_height: 8, texels_per_byte: 4 },
            TextureCompressedFormat::RGBA_PVRTC_2BPPV1_IMG => BlockLayout::Pvrtc { min_width: 16, min_height: 8, texels_per_byte: 4 },
            TextureCompressedFormat::RGB_PVRTC_4BPPV1_IMG => BlockLayout::Pvrtc { min_width: 8, min_height: 8, texels_per_byte: 2 },
            TextureCompressedFormat::RGBA_PVRTC_4BPPV1_IMG => BlockLayout::Pvrtc { min_width: 8, min_height: 8, texels_per_byte: 2 },
            TextureCompressedFormat::RGB_ETC1_WEBGL => BlockLayout::Blocks { block_width: 4, block_height: 4, block_bytes: 8 },
            TextureCompressedFormat::RGBA_ASTC_4x4 => BlockLayout::Blocks { block_width: 4, block_height: 4, block_bytes: 16 },
            TextureCompressedFormat::SRGB8_ALPHA8_ASTC_4x4 => BlockLayout::Blocks { block_width: 4, block_height: 4, block_bytes: 16 },
            TextureCompressedFormat::RGBA_ASTC_5x4 => BlockLayout::Blocks { block_width: 5, block_height: 4, block_bytes: 16 },
            TextureCompressedFormat::SRGB8_ALPHA8_ASTC_5x4 => BlockLayout::Blocks { block_width: 5, block_height: 4, block_bytes: 16 },
            TextureCompressedFormat::RGBA_ASTC_5x5 => BlockLayout::Blocks { block_width: 5, block_height: 5, block_bytes: 16 },
            TextureCompressedFormat::SRGB8_ALPHA8_ASTC_5x5 => BlockLayout::Blocks { block_width: 5, block_height: 5, block_bytes: 16 },
            TextureCompressedFormat::RGBA_ASTC_6x5 => BlockLayout::Blocks { block_width: 6, block_height: 5, block_bytes: 16 },
            TextureCompressedFormat::SRGB8_ALPHA8_ASTC_6x5 => BlockLayout::Blocks { block_width: 6, block_height: 5, block_bytes: 16 },
            TextureCompressedFormat::RGBA_ASTC_6x6 => BlockLayout::Blocks { block_width: 6, block_height: 6, block_bytes: 16 },
            TextureCompressedFormat::SRGB8_ALPHA8_ASTC_6x6 => BlockLayout::Blocks { block_width: 6, block_height: 6, block_bytes: 16 },
            TextureCompressedFormat::RGBA_ASTC_8x5 => BlockLayout::Blocks { block_width: 8, block_height: 5, block_bytes: 16 },
            TextureCompressedFormat::SRGB8_ALPHA8_ASTC_8x5 => BlockLayout::Blocks { block_width: 8, block_height: 5, block_bytes: 16 },
            TextureCompressedFormat::RGBA_ASTC_8x6 => BlockLayout::Blocks { block_width: 8, block_height: 6, block_bytes: 16 },
            TextureCompressedFormat::SRGB8_ALPHA8_ASTC_8x6 => BlockLayout::Blocks { block_width: 8, block_height: 6, block_bytes: 16 },
            TextureCompressedFormat::RGBA_ASTC_8x8 => BlockLayout::Blocks { block_width: 8, block_height: 8, block_bytes: 16 },
            TextureCompressedFormat::SRGB8_ALPHA8_ASTC_8x8 => BlockLayout::Blocks { block_width: 8, block_height: 8, block_bytes: 16 },
            TextureCompressedFormat::RGBA_ASTC_10x5 => BlockLayout::Blocks { block_width: 10, block_height: 5, block_bytes: 16 },
            TextureCompressedFormat::SRGB8_ALPHA8_ASTC_10x5 => BlockLayout::Blocks { block_width: 10, block_height: 5, block_bytes: 16 },
            TextureCompressedFormat::RGBA_ASTC_10x6 => BlockLayout::Blocks { block_width: 10, block_height: 6, block_bytes: 16 },
            TextureCompressedFormat::SRGB8_ALPHA8_ASTC_10x6 => BlockLayout::Blocks { block_width: 10, block_height: 6, block_bytes: 16 },
            TextureCompressedFormat::RGBA_ASTC_10x10 => BlockLayout::Blocks { block_width: 10, block_height: 10, block_bytes: 16 },
            TextureCompressedFormat::SRGB8_ALPHA8_ASTC_10x10 => BlockLayout::Blocks { block_width: 10, block_height: 10, block_bytes: 16 },
            TextureCompressedFormat::RGBA_ASTC_12x10 => BlockLayout::Blocks { block_width: 12, block_height: 10, block_bytes: 16 },
            TextureCompressedFormat::SRGB8_ALPHA8_ASTC_12x10 => BlockLayout::Blocks { block_width: 12, block_height: 10, block_bytes: 16 },
            TextureCompressedFormat::RGBA_ASTC_12x12 => BlockLayout::Blocks { block_width: 12, block_height: 12, block_bytes: 16 },
            TextureCompressedFormat::SRGB8_ALPHA8_ASTC_12x12 => BlockLayout::Blocks { block_width: 12, block_height: 12, block_bytes: 16 },
            TextureCompressedFormat::RGBA_BPTC_UNORM => BlockLayout::Blocks { block_width: 4, block_height: 4, block_bytes: 16 },
            TextureCompressedFormat::SRGB_ALPHA_BPTC_UNORM => BlockLayout::Blocks { block_width: 4, block_height: 4, block_bytes: 16 },
            TextureCompressedFormat::RGB_BPTC_SIGNED_FLOAT => BlockLayout::Blocks { block_width: 4, block_height: 4, block_bytes: 16 },
            TextureCompressedFormat::RGB_BPTC_UNSIGNED_FLOAT => BlockLayout::Blocks { block_width: 4, block_height: 4, block_bytes: 16 },
            TextureCompressedFormat::RED_RGTC1 => BlockLayout::Blocks { block_width: 4, block_height: 4, block_bytes: 8 },
            TextureCompressedFormat::SIGNED_RED_RGTC1 => BlockLayout::Blocks { block_width: 4, block_height: 4, block_bytes: 8 },
            TextureCompressedFormat::RED_GREEN_RGTC2 => BlockLayout::Blocks { block_width: 4, block_height: 4, block_bytes: 16 },
            TextureCompressedFormat::SIGNED_RED_GREEN_RGTC2 => BlockLayout::Blocks { block_width: 4, block_height: 4, block_bytes: 16 },
        }
    }

    fn block_layout_exec(&self) -> (r: BlockLayout)
        ensures
            r == self.block_layout(),
    {
        match self {
            TextureCompressedFormat::RGB_S3TC_DXT1 => BlockLayout::Blocks { block_width: 4, block_height: 4, block_bytes: 8 },
            TextureCompressedFormat::RGBA_S3TC_DXT1 => BlockLayout::Blocks { block_width: 4, block_height: 4, block_bytes: 8 },
            TextureCompressedFormat::RGBA_S3TC_DXT3 => BlockLayout::Blocks { block_width: 4, block_height: 4, block_bytes: 16 },
            TextureCompressedFormat::RGBA_S3TC_DXT5 => BlockLayout::Blocks { block_width: 4, block_height: 4, block_bytes: 16 },
            TextureCompressedFormat::SRGB_S3TC_DXT1 => BlockLayout::Blocks { block_width: 4, block_height: 4, block_bytes: 8 },
            TextureCompressedFormat::SRGB_ALPHA_S3TC_DXT1 => BlockLayout::Blocks { block_width: 4, block_height: 4, block_bytes: 8 },
            TextureCompressedFormat::SRGB_ALPHA_S3TC_DXT3 => BlockLayout::Blocks { block_width: 4, block_height: 4, block_bytes: 16 },
            TextureCompressedFormat::SRGB_ALPHA_S3TC_DXT5 => BlockLayout::Blocks { block_width: 4, block_height: 4, block_bytes: 16 },
            TextureCompressedFormat::R11_EAC => BlockLayout::Blocks { block_width: 4, block_height: 4, block_bytes: 8 },
            TextureCompressedFormat::SIGNED_R11_EAC => BlockLayout::Blocks { block_width: 4, block_height: 4, block_bytes: 8 },
            TextureCompressedFormat::RG11_EAC => BlockLayout::Blocks { block_width: 4, block_height: 4, block_bytes: 16 },
            TextureCompressedFormat::SIGNED_RG11_EAC => BlockLayout::Blocks { block_width: 4, block_height: 4, block_bytes: 16 },
            TextureCompressedFormat::RGB8_ETC2 => BlockLayout::Blocks { block_width: 4, block_height: 4, block_bytes: 8 },
            TextureCompressedFormat::SRGB8_ETC2 => BlockLayout::Blocks { block_width: 4, block_height: 4, block_bytes: 8 },
            TextureCompressedFormat::RGBA8_ETC2_EAC => BlockLayout::Blocks { block_width: 4, block_height: 4, block_bytes: 16 },
            TextureCompressedFormat::SRGB8_ALPHA8_ETC2_EAC => BlockLayout::Blocks { block_width: 4, block_height: 4, block_bytes: 16 },
            TextureCompressedFormat::RGB8_PUNCHTHROUGH_ALPHA1_ETC2 => BlockLayout::Blocks { block_width: 4, block_height: 4, block_bytes: 8 },
            TextureCompressedFormat::SRGB8_PUNCHTHROUGH_ALPHA1_ETC2 => BlockLayout::Blocks { block_width: 4, block_height: 4, block_bytes: 8 },
            TextureCompressedFormat::RGB_PVRTC_2BPPV1_IMG => BlockLayout::Pvrtc { min_width: 16, min_height: 8, texels_per_byte: 4 },
            TextureCompressedFormat::RGBA_PVRTC_2BPPV1_IMG => BlockLayout::Pvrtc { min_width: 16, min_height: 8, texels_per_byte: 4 },
            TextureCompressedFormat::RGB_PVRTC_4BPPV1_IMG => BlockLayout::Pvrtc { min_width: 8, min_height: 8, texels_per_byte: 2 },
            TextureCompressedFormat::RGBA_PVRTC_4BPPV1_IMG => BlockLayout::Pvrtc { min_width: 8, min_height: 8, texels_per_byte: 2 },
            TextureCompressedFormat::RGB_ETC1_WEBGL => BlockLayout::Blocks { block_width: 4, block_height: 4, block_bytes: 8 },
            TextureCompressedFormat::RGBA_ASTC_4x4 => BlockLayout::Blocks { block_width: 4, block_height: 4, block_bytes: 16 },
            TextureCompressedFormat::SRGB8_ALPHA8_ASTC_4x4 => BlockLayout::Blocks { block_width: 4, block_height: 4, block_bytes: 16 },
            TextureCompressedFormat::RGBA_ASTC_5x4 => BlockLayout::Blocks { block_width: 5, block_height: 4, block_bytes: 16 },
            TextureCompressedFormat::SRGB8_ALPHA8_ASTC_5x4 => BlockLayout::Blocks { block_width: 5, block_height: 4, block_bytes: 16 },
            TextureCompressedFormat::RGBA_ASTC_5x5 => BlockLayout::Blocks { block_width: 5, block_height: 5, block_bytes: 16 },
            TextureCompressedFormat::SRGB8_ALPHA8_ASTC_5x5 => BlockLayout::Blocks { block_width: 5, block_height: 5, block_bytes: 16 },
            TextureCompressedFormat::RGBA_ASTC_6x5 => BlockLayout::Blocks { block_width: 6, block_height: 5, block_bytes: 16 },
            TextureCompressedFormat::SRGB8_ALPHA8_ASTC_6x5 => BlockLayout::Blocks { block_width: 6, block_height: 5, block_bytes: 16 },
            TextureCompressedFormat::RGBA_ASTC_6x6 => BlockLayout::Blocks { block_width: 6, block_height: 6, block_bytes: 16 },
            TextureCompressedFormat::SRGB8_ALPHA8_ASTC_6x6 => BlockLayout::Blocks { block_width: 6, block_height: 6, block_bytes: 16 },
            TextureCompressedFormat::RGBA_ASTC_8x5 => BlockLayout::Blocks { block_width: 8, block_height: 5, block_bytes: 16 },
            TextureCompressedFormat::SRGB8_ALPHA8_ASTC_8x5 => BlockLayout::Blocks { block_width: 8, block_height: 5, block_bytes: 16 },
            TextureCompressedFormat::RGBA_ASTC_8x6 => BlockLayout::Blocks { block_width: 8, block_height: 6, block_bytes: 16 },
            TextureCompressedFormat::SRGB8_ALPHA8_ASTC_8x6 => BlockLayout::Blocks { block_width: 8, block_height: 6, block_bytes: 16 },
            TextureCompressedFormat::RGBA_ASTC_8x8 => BlockLayout::Blocks { block_width: 8, block_height: 8, block_bytes: 16 },
            TextureCompressedFormat::SRGB8_ALPHA8_ASTC_8x8 => BlockLayout::Blocks { block_width: 8, block_height: 8, block_bytes: 16 },
            TextureCompressedFormat::RGBA_ASTC_10x5 => BlockLayout::Blocks { block_width: 10, block_height: 5, block_bytes: 16 },
            TextureCompressedFormat::SRGB8_ALPHA8_ASTC_10x5 => BlockLayout::Blocks { block_width: 10, block_height: 5, block_bytes: 16 },
            TextureCompressedFormat::RGBA_ASTC_10x6 => BlockLayout::Blocks { block_width: 10, block_height: 6, block_bytes: 16 },
            TextureCompressedFormat::SRGB8_ALPHA8_ASTC_10x6 => BlockLayout::Blocks { block_width: 10, block_height: 6, block_bytes: 16 },
            TextureCompressedFormat::RGBA_ASTC_10x10 => BlockLayout::Blocks { block_width: 10, block_height: 10, block_bytes: 16 },
            TextureCompressedFormat::SRGB8_ALPHA8_ASTC_10x10 => BlockLayout::Blocks { block_width: 10, block_height: 10, block_bytes: 16 },
            TextureCompressedFormat::RGBA_ASTC_12x10 => BlockLayout::Blocks { block_width: 12, block_height: 10, block_bytes: 16 },
            TextureCompressedFormat::SRGB8_ALPHA8_ASTC_12x10 => BlockLayout::Blocks { block_width: 12, block_height: 10, block_bytes: 16 },
            TextureCompressedFormat::RGBA_ASTC_12x12 => BlockLayout::Blocks { block_width: 12, block_height: 12, block_bytes: 16 },
            TextureCompressedFormat::SRGB8_ALPHA8_ASTC_12x12 => BlockLayout::Blocks { block_width: 12, block_height: 12, block_bytes: 16 },
            TextureCompressedFormat::RGBA_BPTC_UNORM => BlockLayout::Blocks { block_width: 4, block_height: 4, block_bytes: 16 },
            TextureCompressedFormat::SRGB_ALPHA_BPTC_UNORM => BlockLayout::Blocks { block_width: 4, block_height: 4, block_bytes: 16 },
            TextureCompressedFormat::RGB_BPTC_SIGNED_FLOAT => BlockLayout::Blocks { block_width: 4, block_height: 4, block_bytes: 16 },
            TextureCompressedFormat::RGB_BPTC_UNSIGNED_FLOAT => BlockLayout::Blocks { block_width: 4, block_height: 4, block_bytes: 16 },
            TextureCompressedFormat::RED_RGTC1 => BlockLayout::Blocks { block_width: 4, block_height: 4, block_bytes: 8 },
            TextureCompressedFormat::SIGNED_RED_RGTC1 => BlockLayout::Blocks { block_width: 4, block_height: 4, block_bytes: 8 },
            TextureCompressedFormat::RED_GREEN_RGTC2 => BlockLayout::Blocks { block_width: 4, block_height: 4, block_bytes: 16 },
            TextureCompressedFormat::SIGNED_RED_GREEN_RGTC2 => BlockLayout::Blocks { block_width: 4, block_height: 4, block_bytes: 16 },
        }
    }

    /// Bytes taken by an image of `width` x `height` texels in this format.
    pub open spec fn spec_byte_length(self, width: nat, height: nat) -> nat {
        self.block_layout().byte_length(width, height)
    }

    /// Computing the byte length of a `width` x `height` image does not overflow `usize`.
    pub open spec fn byte_length_fits(self, width: nat, height: nat) -> bool {
        self.block_layout().byte_length_fits(width, height)
    }

    /// Calculates the bytes length of of a specified internal format in specified size.
    pub fn byte_length(&self, width: usize, height: usize) -> (r: usize)
        requires
            self.byte_length_fits(width as nat, height as nat),
        ensures
            r == self.spec_byte_length(width as nat, height as nat),
    {
        block_byte_length(self.block_layout_exec(), width, height)
    }
}

/// Available texture unpack color space conversions for [`WebGl2RenderingContext`].
#[allow(non_camel_case_types)]
#[derive(Debug, Clone, Copy, PartialEq, Eq, Hash, Structural)]
pub enum TextureUnpackColorSpaceConversion {
    NONE,
    BROWSER_DEFAULT_WEBGL,
}

/// Available texture pixel storages for [`WebGl2RenderingContext`].
#[allow(non_camel_case_types)]
#[derive(Debug, Clone, Copy, PartialEq, Eq, Hash, Structural)]
pub enum TexturePixelStorage {
    PACK_ALIGNMENT(i32),
    PACK_ROW_LENGTH(i32),
    PACK_SKIP_PIXELS(i32),
    PACK_SKIP_ROWS(i32),
    UNPACK_ALIGNMENT(i32),
    UNPACK_FLIP_Y_WEBGL(bool),
    UNPACK_PREMULTIPLY_ALPHA_WEBGL(bool),
    UNPACK_COLORSPACE_CONVERSION_WEBGL(TextureUnpackColorSpaceConversion),
    UNPACK_ROW_LENGTH(i32),
    UNPACK_IMAGE_HEIGHT(i32),
    UNPACK_SKIP_PIXELS(i32),
    UNPACK_SKIP_ROWS(i32),
    UNPACK_SKIP_IMAGES(i32),
}

/// Available texture magnification filters for [`WebGl2RenderingContext`].
#[allow(non_camel_case_types)]
#[derive(Debug, Clone, Copy, PartialEq, Eq, Hash, Structural)]
pub enum TextureMagnificationFilter {
    LINEAR,
    NEAREST,
}

/// Available texture minification filters for [`WebGl2RenderingContext`].
#[allow(non_camel_case_types)]
#[derive(Debug, Clone, Copy, PartialEq, Eq, Hash, Structural)]
pub enum TextureMinificationFilter {
    LINEAR,
    NEAREST,
    NEAREST_MIPMAP_NEAREST,
    LINEAR_MIPMAP_NEAREST,
    NEAREST_MIPMAP_LINEAR,
    LINEAR_MIPMAP_LINEAR,
}

/// Available texture wrap methods for [`WebGl2RenderingContext`].
#[allow(non_camel_case_types)]
#[derive(Debug, Clone, Copy, PartialEq, Eq, Hash, Structural)]
pub enum TextureWrapMethod {
    REPEAT,
    CLAMP_TO_EDGE,
    MIRRORED_REPEAT,
}

/// Available texture compare function for [`WebGl2RenderingContext`].
#[allow(non_camel_case_types)]
#[derive(Debug, Clone, Copy, PartialEq, Eq, Hash, Structural)]
pub enum TextureCompareFunction {
    LEQUAL,
    GEQUAL,
    LESS,
    GREATER,
    EQUAL,
    NOTEQUAL,
    ALWAYS,
    NEVER,
}

/// Available texture compare modes for [`WebGl2RenderingContext`].
#[allow(non_camel_case_types)]
#[derive(Debug, Clone, Copy, PartialEq, Eq, Hash, Structural)]
pub enum TextureCompareMode {
    NONE,
    COMPARE_REF_TO_TEXTURE,
}


impl TexturePixelStorage {
    /// The parameter name and value `pixelStorei` is called with to apply
    /// this storage: booleans as `1` or `0`, color space conversions as their
    /// WebGL constant.
    pub open spec fn spec_pixel_store(self) -> (u32, i32) {
        match self {
            TexturePixelStorage::PACK_ALIGNMENT(v) => (constants::PACK_ALIGNMENT, v),
            TexturePixelStorage::PACK_ROW_LENGTH(v) => (constants::PACK_ROW_LENGTH, v),
            TexturePixelStorage::PACK_SKIP_PIXELS(v) => (constants::PACK_SKIP_PIXELS, v),
            TexturePixelStorage::PACK_SKIP_ROWS(v) => (constants::PACK_SKIP_ROWS, v),
            TexturePixelStorage::UNPACK_ALIGNMENT(v) => (constants::UNPACK_ALIGNMENT, v),
            TexturePixelStorage::UNPACK_FLIP_Y_WEBGL(v) => (constants::UNPACK_FLIP_Y_WEBGL, if v { 1 } else { 0 }),
            TexturePixelStorage::UNPACK_PREMULTIPLY_ALPHA_WEBGL(v) => (constants::UNPACK_PREMULTIPLY_ALPHA_WEBGL, if v { 1 } else { 0 }),
            TexturePixelStorage::UNPACK_COLORSPACE_CONVERSION_WEBGL(v) => (constants::UNPACK_COLORSPACE_CONVERSION_WEBGL, match v {
                TextureUnpackColorSpaceConversion::NONE => constants::NONE as i32,
                TextureUnpackColorSpaceConversion::BROWSER_DEFAULT_WEBGL => constants::BROWSER_DEFAULT_WEBGL as i32,
            }),
            TexturePixelStorage::UNPACK_ROW_LENGTH(v) => (constants::UNPACK_ROW_LENGTH, v),
            TexturePixelStorage::UNPACK_IMAGE_HEIGHT(v) => (constants::UNPACK_IMAGE_HEIGHT, v),
            TexturePixelStorage::UNPACK_SKIP_PIXELS(v) => (constants::UNPACK_SKIP_PIXELS, v),
            TexturePixelStorage::UNPACK_SKIP_ROWS(v) => (constants::UNPACK_SKIP_ROWS, v),
            TexturePixelStorage::UNPACK_SKIP_IMAGES(v) => (constants::UNPACK_SKIP_IMAGES, v),
        }
    }

    /// Returns the parameter name and value that apply this storage.
    pub fn pixel_store_parameter(&self) -> (r: (u32, i32))
        ensures
            r == self.spec_pixel_store(),
    {
        match self {
            TexturePixelStorage::PACK_ALIGNMENT(v) => (constants::PACK_ALIGNMENT, *v),
            TexturePixelStorage::PACK_ROW_LENGTH(v) => (constants::PACK_ROW_LENGTH, *v),
            TexturePixelStorage::PACK_SKIP_PIXELS(v) => (constants::PACK_SKIP_PIXELS, *v),
            TexturePixelStorage::PACK_SKIP_ROWS(v) => (constants::PACK_SKIP_ROWS, *v),
            TexturePixelStorage::UNPACK_ALIGNMENT(v) => (constants::UNPACK_ALIGNMENT, *v),
            TexturePixelStorage::UNPACK_FLIP_Y_WEBGL(v) => (constants::UNPACK_FLIP_Y_WEBGL, if *v { 1 } else { 0 }),
            TexturePixelStorage::UNPACK_PREMULTIPLY_ALPHA_WEBGL(v) => (constants::UNPACK_PREMULTIPLY_ALPHA_WEBGL, if *v { 1 } else { 0 }),
            TexturePixelStorage::UNPACK_COLORSPACE_CONVERSION_WEBGL(v) => (constants::UNPACK_COLORSPACE_CONVERSION_WEBGL, match v {
                TextureUnpackColorSpaceConversion::NONE => constants::NONE as i32,
                TextureUnpackColorSpaceConversion::BROWSER_DEFAULT_WEBGL => constants::BROWSER_DEFAULT_WEBGL as i32,
            }),
            TexturePixelStorage::UNPACK_ROW_LENGTH(v) => (constants::UNPACK_ROW_LENGTH, *v),
            TexturePixelStorage::UNPACK_IMAGE_HEIGHT(v) => (constants::UNPACK_IMAGE_HEIGHT, *v),
            TexturePixelStorage::UNPACK_SKIP_PIXELS(v) => (constants::UNPACK_SKIP_PIXELS, *v),
            TexturePixelStorage::UNPACK_SKIP_ROWS(v) => (constants::UNPACK_SKIP_ROWS, *v),
            TexturePixelStorage::UNPACK_SKIP_IMAGES(v) => (constants::UNPACK_SKIP_IMAGES, *v),
        }
    }
}


/// WebGL internal formats of a texture, including [`TextureColorFormat`], [`TextureDepthFormat`] and [`TextureCompressedFormat`].
/// Different internal formats have different memory layout in GPU.
pub trait TextureInternalFormat: Copy {
    /// Bytes taken by an image of `width` x `height` texels in this format.
    spec fn format_byte_length(&self, width: nat, height: nat) -> nat;

    /// Computing the byte length of a `width` x `height` image does not overflow `usize`.
    spec fn format_byte_length_fits(&self, width: nat, height: nat) -> bool;

    /// Calculates the bytes length of of a specified internal format in specified size.
    fn byte_length(&self, width: usize, height: usize) -> (r: usize)
        requires
            self.format_byte_length_fits(width as nat, height as nat),
        ensures
            r == self.format_byte_length(width as nat, height as nat),
    ;
}

impl TextureInternalFormat for TextureColorFormat {
    open spec fn format_byte_length(&self, width: nat, height: nat) -> nat {
        self.spec_byte_length(width, height)
    }

    open spec fn format_byte_length_fits(&self, width: nat, height: nat) -> bool {
        self.byte_length_fits(width, height)
    }

    fn byte_length(&self, width: usize, height: usize) -> (r: usize) {
        TextureColorFormat::byte_length(self, width, height)
    }
}

impl TextureInternalFormat for TextureDepthFormat {
    open spec fn format_byte_length(&self, width: nat, height: nat) -> nat {
        self.spec_byte_length(width, height)
    }

    open spec fn format_byte_length_fits(&self, width: nat, height: nat) -> bool {
        self.byte_length_fits(width, height)
    }

    fn byte_length(&self, width: usize, height: usize) -> (r: usize) {
        TextureDepthFormat::byte_length(self, width, height)
    }
}

impl TextureInternalFormat for TextureCompressedFormat {
    open spec fn format_byte_length(&self, width: nat, height: nat) -> nat {
        self.spec_byte_length(width, height)
    }

    open spec fn format_byte_length_fits(&self, width: nat, height: nat) -> bool {
        self.byte_length_fits(width, height)
    }

    fn byte_length(&self, width: usize, height: usize) -> (r: usize) {
        TextureCompressedFormat::byte_length(self, width, height)
    }
}

/// Abstract texture trait indicates that this texture has a list containing multiple textures.
pub trait TextureArray {
    /// Returns the number of array of this texture.
    fn array_length(&self) -> usize;
}

/// A shared handle to a texture.
#[verifier::reject_recursive_types(T)]
pub struct TextureDescriptor<T>(Rc<RefCell<T>>);

impl<T> TextureDescriptor<T> {
    /// Constructs a new texture descriptor.
    pub fn new(texture: T) -> Self {
        TextureDescriptor(Rc::new(cell_new(texture)))
    }

    /// Returns [`Texture`] associated with this descriptor, or `None` where
    /// it is mutably borrowed at the time of the call.
    pub fn texture(&self) -> Option<Ref<'_, T>> {
        cell_try_borrow(&*self.0)
    }

    /// Returns mutable [`Texture`] associated with this descriptor, or `None`
    /// where it is borrowed at the time of the call.
    pub fn texture_mut(&self) -> Option<RefMut<'_, T>> {
        cell_try_borrow_mut(&*self.0)
    }
}

impl<T> Clone for TextureDescriptor<T> {
    fn clone(&self) -> Self {
        TextureDescriptor(Rc::clone(&self.0))
    }
}

impl TextureColorFormat {
    /// Bits one texel of this format holds: the sum of the sizes of the
    /// channels its name spells (`RGBA32F`: four 32 bit channels;
    /// `RGB10_A2`: three 10 bit channels and a 2 bit one; `DEPTH24_STENCIL8`:
    /// 24 depth bits and 8 stencil bits).
    pub open spec fn channel_bits(self) -> nat {
        match self {
            TextureColorFormat::RGBA32I => 4 * 32,
            TextureColorFormat::RGBA32UI => 4 * 32,
            TextureColorFormat::RGBA16I => 4 * 16,
            TextureColorFormat::RGBA16UI => 4 * 16,
            TextureColorFormat::RGBA8 => 4 * 8,
            TextureColorFormat::RGBA8I => 4 * 8,
            TextureColorFormat::RGBA8UI => 4 * 8,
            TextureColorFormat::SRGB8_ALPHA8 => 4 * 8,
            TextureColorFormat::RGB10_A2 => 3 * 10 + 2,
            TextureColorFormat::RGB10_A2UI => 3 * 10 + 2,
            TextureColorFormat::RGBA4 => 4 * 4,
            TextureColorFormat::RGB5_A1 => 3 * 5 + 1,
            TextureColorFormat::RGB8 => 3 * 8,
            TextureColorFormat::RGB565 => 5 + 6 + 5,
            TextureColorFormat::RG32I => 2 * 32,
            TextureColorFormat::RG32UI => 2 * 32,
            TextureColorFormat::RG16I => 2 * 16,
            TextureColorFormat::RG16UI => 2 * 16,
            TextureColorFormat::RG8 => 2 * 8,
            TextureColorFormat::RG8I => 2 * 8,
            TextureColorFormat::RG8UI => 2 * 8,
            TextureColorFormat::R32I => 32,
            TextureColorFormat::R32UI => 32,
            TextureColorFormat::R16I => 16,
            TextureColorFormat::R16UI => 16,
            TextureColorFormat::R8 => 8,
            TextureColorFormat::R8I => 8,
            TextureColorFormat::R8UI => 8,
            TextureColorFormat::RGBA32F => 4 * 32,
            TextureColorFormat::RGBA16F => 4 * 16,
            TextureColorFormat::RGBA8_SNORM => 4 * 8,
            TextureColorFormat::RGB32F => 3 * 32,
            TextureColorFormat::RGB32I => 3 * 32,
            TextureColorFormat::RGB32UI => 3 * 32,
            TextureColorFormat::RGB16F => 3 * 16,
            TextureColorFormat::RGB16I => 3 * 16,
            TextureColorFormat::RGB16UI => 3 * 16,
            TextureColorFormat::RGB8_SNORM => 3 * 8,
            TextureColorFormat::RGB8I => 3 * 8,
            TextureColorFormat::RGB8UI => 3 * 8,
            TextureColorFormat::SRGB8 => 3 * 8,
            TextureColorFormat::R11F_G11F_B10F => 11 + 11 + 10,
            TextureColorFormat::RGB9_E5 => 3 * 9 + 5,
            TextureColorFormat::RG32F => 2 * 32,
            TextureColorFormat::RG16F => 2 * 16,
            TextureColorFormat::RG8_SNORM => 2 * 8,
            TextureColorFormat::R32F => 32,
            TextureColorFormat::R16F => 16,
            TextureColorFormat::R8_SNORM => 8,
        }
    }
}

/// A color format takes, per texel, the bytes its channels hold: a `width` x
/// `height` image takes `width * height` times its channel bits over eight.
pub proof fn lemma_color_texel_bytes_from_channels(format: TextureColorFormat, width: nat, height: nat)
    ensures
        format.channel_bits() % 8 == 0,
        format.texel_bytes() == format.channel_bits() / 8,
        format.spec_byte_length(width, height) == width * height * (format.channel_bits() / 8),
{
}

impl TextureDepthFormat {
    /// Bits one texel of this format holds: the sum of the sizes of the
    /// channels its name spells (`RGBA32F`: four 32 bit channels;
    /// `RGB10_A2`: three 10 bit channels and a 2 bit one; `DEPTH24_STENCIL8`:
    /// 24 depth bits and 8 stencil bits).
    pub open spec fn channel_bits(self) -> nat {
        match self {
            TextureDepthFormat::DEPTH_COMPONENT32F => 32,
            TextureDepthFormat::DEPTH_COMPONENT24 => 24,
            TextureDepthFormat::DEPTH_COMPONENT16 => 16,
            TextureDepthFormat::DEPTH32F_STENCIL8 => 32 + 8,
            TextureDepthFormat::DEPTH24_STENCIL8 => 24 + 8,
        }
    }
}

/// A depth format takes, per texel, the bytes its channels hold: a `width` x
/// `height` image takes `width * height` times its channel bits over eight.
pub proof fn lemma_depth_texel_bytes_from_channels(format: TextureDepthFormat, width: nat, height: nat)
    ensures
        format.channel_bits() % 8 == 0,
        format.texel_bytes() == format.channel_bits() / 8,
        format.spec_byte_length(width, height) == width * height * (format.channel_bits() / 8),
{
}

impl TextureCompressedFormat {
    /// What the format's family and name promise of its storage: S3TC, RGTC,
    /// ETC and EAC store 4 x 4 texel blocks of 64 bits (one channel, or RGB
    /// with at most one alpha bit) or 128 bits (two channels, or RGBA with
    /// full alpha); BPTC stores 4 x 4 blocks of 128 bits; ASTC `WxH` stores
    /// `W` x `H` blocks of 128 bits; PVRTC stores 2 or 4 bits per texel over
    /// an image of at least 16 x 8 or 8 x 8 texels.
    pub open spec fn footprint(self) -> CompressedFootprint {
        match self {
            TextureCompressedFormat::RGB_S3TC_DXT1 | TextureCompressedFormat::RGBA_S3TC_DXT1 | TextureCompressedFormat::SRGB_S3TC_DXT1 | TextureCompressedFormat::SRGB_ALPHA_S3TC_DXT1 | TextureCompressedFormat::R11_EAC | TextureCompressedFormat::SIGNED_R11_EAC | TextureCompressedFormat::RGB8_ETC2 | TextureCompressedFormat::SRGB8_ETC2 | TextureCompressedFormat::RGB8_PUNCHTHROUGH_ALPHA1_ETC2 | TextureCompressedFormat::SRGB8_PUNCHTHROUGH_ALPHA1_ETC2 | TextureCompressedFormat::RGB_ETC1_WEBGL | TextureCompressedFormat::RED_RGTC1 | TextureCompressedFormat::SIGNED_RED_RGTC1 => CompressedFootprint::Blocks { width: 4, height: 4, bits: 64 },
            TextureCompressedFormat::RGBA_S3TC_DXT3 | TextureCompressedFormat::RGBA_S3TC_DXT5 | TextureCompressedFormat::SRGB_ALPHA_S3TC_DXT3 | TextureCompressedFormat::SRGB_ALPHA_S3TC_DXT5 | TextureCompressedFormat::RG11_EAC | TextureCompressedFormat::SIGNED_RG11_EAC | TextureCompressedFormat::RGBA8_ETC2_EAC | TextureCompressedFormat::SRGB8_ALPHA8_ETC2_EAC | TextureCompressedFormat::RGBA_ASTC_4x4 | TextureCompressedFormat::SRGB8_ALPHA8_ASTC_4x4 | TextureCompressedFormat::RGBA_BPTC_UNORM | TextureCompressedFormat::SRGB_ALPHA_BPTC_UNORM | TextureCompressedFormat::RGB_BPTC_SIGNED_FLOAT | TextureCompressedFormat::RGB_BPTC_UNSIGNED_FLOAT | TextureCompressedFormat::RED_GREEN_RGTC2 | TextureCompressedFormat::SIGNED_RED_GREEN_RGTC2 => CompressedFootprint::Blocks { width: 4, height: 4, bits: 128 },
            TextureCompressedFormat::RGB_PVRTC_2BPPV1_IMG | TextureCompressedFormat::RGBA_PVRTC_2BPPV1_IMG => CompressedFootprint::Pvrtc { min_width: 16, min_height: 8, bits_per_texel: 2 },
            TextureCompressedFormat::RGB_PVRTC_4BPPV1_IMG | TextureCompressedFormat::RGBA_PVRTC_4BPPV1_IMG => CompressedFootprint::Pvrtc { min_width: 8, min_height: 8, bits_per_texel: 4 },
            TextureCompressedFormat::RGBA_ASTC_5x4 | TextureCompressedFormat::SRGB8_ALPHA8_ASTC_5x4 => CompressedFootprint::Blocks { width: 5, height: 4, bits: 128 },
            TextureCompressedFormat::RGBA_ASTC_5x5 | TextureCompressedFormat::SRGB8_ALPHA8_ASTC_5x5 => CompressedFootprint::Blocks { width: 5, height: 5, bits: 128 },
            TextureCompressedFormat::RGBA_ASTC_6x5 | TextureCompressedFormat::SRGB8_ALPHA8_ASTC_6x5 => CompressedFootprint::Blocks { width: 6, height: 5, bits: 128 },
            TextureCompressedFormat::RGBA_ASTC_6x6 | TextureCompressedFormat::SRGB8_ALPHA8_ASTC_6x6 => CompressedFootprint::Blocks { width: 6, height: 6, bits: 128 },
            TextureCompressedFormat::RGBA_ASTC_8x5 | TextureCompressedFormat::SRGB8_ALPHA8_ASTC_8x5 => CompressedFootprint::Blocks { width: 8, height: 5, bits: 128 },
            TextureCompressedFormat::RGBA_ASTC_8x6 | TextureCompressedFormat::SRGB8_ALPHA8_ASTC_8x6 => CompressedFootprint::Blocks { width: 8, height: 6, bits: 128 },
            TextureCompressedFormat::RGBA_ASTC_8x8 | TextureCompressedFormat::SRGB8_ALPHA8_ASTC_8x8 => CompressedFootprint::Blocks { width: 8, height: 8, bits: 128 },
            TextureCompressedFormat::RGBA_ASTC_10x5 | TextureCompressedFormat::SRGB8_ALPHA8_ASTC_10x5 => CompressedFootprint::Blocks { width: 10, height: 5, bits: 128 },
            TextureCompressedFormat::RGBA_ASTC_10x6 | TextureCompressedFormat::SRGB8_ALPHA8_ASTC_10x6 => CompressedFootprint::Blocks { width: 10, height: 6, bits: 128 },
            TextureCompressedFormat::RGBA_ASTC_10x10 | TextureCompressedFormat::SRGB8_ALPHA8_ASTC_10x10 => CompressedFootprint::Blocks { width: 10, height: 10, bits: 128 },
            TextureCompressedFormat::RGBA_ASTC_12x10 | TextureCompressedFormat::SRGB8_ALPHA8_ASTC_12x10 => CompressedFootprint::Blocks { width: 12, height: 10, bits: 128 },
            TextureCompressedFormat::RGBA_ASTC_12x12 | TextureCompressedFormat::SRGB8_ALPHA8_ASTC_12x12 => CompressedFootprint::Blocks { width: 12, height: 12, bits: 128 },
        }
    }
}

/// A compressed format lays out its texels as its family and name promise:
/// blocks of the named extent and bit size, or PVRTC's bits per texel over
/// its minimum extent.
pub proof fn lemma_compressed_layout_from_footprint(format: TextureCompressedFormat)
    ensures
        match format.footprint() {
            CompressedFootprint::Blocks { width, height, bits } => (format.block_layout() matches BlockLayout::Blocks {
                block_width,
                block_height,
                block_bytes,
            } && block_width == width && block_height == height && 8 * block_bytes == bits),
            CompressedFootprint::Pvrtc { min_width, min_height, bits_per_texel } => (format.block_layout() matches BlockLayout::Pvrtc {
                min_width: w,
                min_height: h,
                texels_per_byte,
            } && w == min_width && h == min_height && texels_per_byte * bits_per_texel == 8),
        },
{
}

/// Each texture unit `TEXTUREn` has index `n`, so that no two units share
/// an index and every index is below 32.
pub proof fn lemma_texture_unit_indices(unit: TextureUnit, other: TextureUnit)
    ensures
        TextureUnit::TEXTURE0.spec_unit_index() == 0,
        TextureUnit::TEXTURE1.spec_unit_index() == 1,
        TextureUnit::TEXTURE2.spec_unit_index() == 2,
        TextureUnit::TEXTURE3.spec_unit_index() == 3,
        TextureUnit::TEXTURE4.spec_unit_index() == 4,
        TextureUnit::TEXTURE5.spec_unit_index() == 5,
        TextureUnit::TEXTURE6.spec_unit_index() == 6,
        TextureUnit::TEXTURE7.spec_unit_index() == 7,
        TextureUnit::TEXTURE8.spec_unit_index() == 8,
        TextureUnit::TEXTURE9.spec_unit_index() == 9,
        TextureUnit::TEXTURE10.spec_unit_index() == 10,
        TextureUnit::TEXTURE11.spec_unit_index() == 11,
        TextureUnit::TEXTURE12.spec_unit_index() == 12,
        TextureUnit::TEXTURE13.spec_unit_index() == 13,
        TextureUnit::TEXTURE14.spec_unit_index() == 14,
        TextureUnit::TEXTURE15.spec_unit_index() == 15,
        TextureUnit::TEXTURE16.spec_unit_index() == 16,
        TextureUnit::TEXTURE17.spec_unit_index() == 17,
        TextureUnit::TEXTURE18.spec_unit_index() == 18,
        TextureUnit::TEXTURE19.spec_unit_index() == 19,
        TextureUnit::TEXTURE20.spec_unit_index() == 20,
        TextureUnit::TEXTURE21.spec_unit_index() == 21,
        TextureUnit::TEXTURE22.spec_unit_index() == 22,
        TextureUnit::TEXTURE23.spec_unit_index() == 23,
        TextureUnit::TEXTURE24.spec_unit_index() == 24,
        TextureUnit::TEXTURE25.spec_unit_index() == 25,
        TextureUnit::TEXTURE26.spec_unit_index() == 26,
        TextureUnit::TEXTURE27.spec_unit_index() == 27,
        TextureUnit::TEXTURE28.spec_unit_index() == 28,
        TextureUnit::TEXTURE29.spec_unit_index() == 29,
        TextureUnit::TEXTURE30.spec_unit_index() == 30,
        TextureUnit::TEXTURE31.spec_unit_index() == 31,
        unit.spec_unit_index() < 32,
        unit != other ==> unit.spec_unit_index() != other.spec_unit_index(),
{
}

} // verus!
