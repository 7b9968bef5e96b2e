//! Turning a queued texture upload into the parameters of one WebGL
//! `texSubImage` / `compressedTexSubImage` call, and the pixel storage
//! settings around it.
use vstd::prelude::*;

use super::constants;
use super::conversion::ToGlEnum;
use super::error::Error;
use super::texture::{
    TextureCompressedFormat, TextureCubeMapFace, TextureInternalFormat, TexturePixelStorage,
    TextureTarget, TextureUncompressedPixelDataType, TextureUncompressedPixelFormat,
    TextureUnpackColorSpaceConversion,
};

verus! {

impl TexturePixelStorage {
    /// The value this storage sets with `pixelStorei`: booleans as `1` or
    /// `0`, color space conversions as their WebGL constant.
    pub open spec fn spec_value(self) -> i32 {
        match self {
            TexturePixelStorage::PACK_ALIGNMENT(v) => v,
            TexturePixelStorage::PACK_ROW_LENGTH(v) => v,
            TexturePixelStorage::PACK_SKIP_PIXELS(v) => v,
            TexturePixelStorage::PACK_SKIP_ROWS(v) => v,
            TexturePixelStorage::UNPACK_ALIGNMENT(v) => v,
            TexturePixelStorage::UNPACK_FLIP_Y_WEBGL(v) => if v { 1 } else { 0 },
            TexturePixelStorage::UNPACK_PREMULTIPLY_ALPHA_WEBGL(v) => if v { 1 } else { 0 },
            TexturePixelStorage::UNPACK_COLORSPACE_CONVERSION_WEBGL(v) => match v {
                TextureUnpackColorSpaceConversion::NONE => constants::NONE as i32,
                TextureUnpackColorSpaceConversion::BROWSER_DEFAULT_WEBGL => constants::BROWSER_DEFAULT_WEBGL as i32,
            },
            TexturePixelStorage::UNPACK_ROW_LENGTH(v) => v,
            TexturePixelStorage::UNPACK_IMAGE_HEIGHT(v) => v,
            TexturePixelStorage::UNPACK_SKIP_PIXELS(v) => v,
            TexturePixelStorage::UNPACK_SKIP_ROWS(v) => v,
            TexturePixelStorage::UNPACK_SKIP_IMAGES(v) => v,
        }
    }

    /// Returns the value this storage sets with `pixelStorei`.
    pub fn value(&self) -> (r: i32)
        ensures
            r == self.spec_value(),
    {
        match self {
            TexturePixelStorage::PACK_ALIGNMENT(v) => *v,
            TexturePixelStorage::PACK_ROW_LENGTH(v) => *v,
            TexturePixelStorage::PACK_SKIP_PIXELS(v) => *v,
            TexturePixelStorage::PACK_SKIP_ROWS(v) => *v,
            TexturePixelStorage::UNPACK_ALIGNMENT(v) => *v,
            TexturePixelStorage::UNPACK_FLIP_Y_WEBGL(v) => if *v { 1 } else { 0 },
            TexturePixelStorage::UNPACK_PREMULTIPLY_ALPHA_WEBGL(v) => if *v { 1 } else { 0 },
            TexturePixelStorage::UNPACK_COLORSPACE_CONVERSION_WEBGL(v) => match v {
                TextureUnpackColorSpaceConversion::NONE => constants::NONE as i32,
                TextureUnpackColorSpaceConversion::BROWSER_DEFAULT_WEBGL => constants::BROWSER_DEFAULT_WEBGL as i32,
            },
            TexturePixelStorage::UNPACK_ROW_LENGTH(v) => *v,
            TexturePixelStorage::UNPACK_IMAGE_HEIGHT(v) => *v,
            TexturePixelStorage::UNPACK_SKIP_PIXELS(v) => *v,
            TexturePixelStorage::UNPACK_SKIP_ROWS(v) => *v,
            TexturePixelStorage::UNPACK_SKIP_IMAGES(v) => *v,
        }
    }

    /// The WebGL default of this storage, which resetting it restores: `4`
    /// for the alignments, the browser's default color space conversion,
    /// and `0` (off) for every other storage.
    pub open spec fn spec_default_value(self) -> i32 {
        match self {
            TexturePixelStorage::PACK_ALIGNMENT(_) => 4,
            TexturePixelStorage::UNPACK_ALIGNMENT(_) => 4,
            TexturePixelStorage::UNPACK_COLORSPACE_CONVERSION_WEBGL(_) => constants::BROWSER_DEFAULT_WEBGL as i32,
            _ => 0,
        }
    }

    /// Returns the WebGL default of this storage.
    pub fn default_value(&self) -> (r: i32)
        ensures
            r == self.spec_default_value(),
    {
        match self {
            TexturePixelStorage::PACK_ALIGNMENT(_) => 4,
            TexturePixelStorage::UNPACK_ALIGNMENT(_) => 4,
            TexturePixelStorage::UNPACK_COLORSPACE_CONVERSION_WEBGL(_) => constants::BROWSER_DEFAULT_WEBGL as i32,
            _ => 0,
        }
    }

    /// The same storage, holding the value `value` read back from a context:
    /// non-zero reads as `true`, and a color space conversion reads as
    /// `NONE` when `value` is `NONE` and as the browser default otherwise.
    pub open spec fn spec_with_value(self, value: i32) -> TexturePixelStorage {
        match self {
            TexturePixelStorage::PACK_ALIGNMENT(_) => TexturePixelStorage::PACK_ALIGNMENT(value),
            TexturePixelStorage::PACK_ROW_LENGTH(_) => TexturePixelStorage::PACK_ROW_LENGTH(value),
            TexturePixelStorage::PACK_SKIP_PIXELS(_) => TexturePixelStorage::PACK_SKIP_PIXELS(value),
            TexturePixelStorage::PACK_SKIP_ROWS(_) => TexturePixelStorage::PACK_SKIP_ROWS(value),
            TexturePixelStorage::UNPACK_ALIGNMENT(_) => TexturePixelStorage::UNPACK_ALIGNMENT(value),
            TexturePixelStorage::UNPACK_FLIP_Y_WEBGL(_) => TexturePixelStorage::UNPACK_FLIP_Y_WEBGL(value != 0),
            TexturePixelStorage::UNPACK_PREMULTIPLY_ALPHA_WEBGL(_) => TexturePixelStorage::UNPACK_PREMULTIPLY_ALPHA_WEBGL(value != 0),
            TexturePixelStorage::UNPACK_COLORSPACE_CONVERSION_WEBGL(_) => TexturePixelStorage::UNPACK_COLORSPACE_CONVERSION_WEBGL(
                if value == constants::NONE as i32 {
                    TextureUnpackColorSpaceConversion::NONE
                } else {
                    TextureUnpackColorSpaceConversion::BROWSER_DEFAULT_WEBGL
                },
            ),
            TexturePixelStorage::UNPACK_ROW_LENGTH(_) => TexturePixelStorage::UNPACK_ROW_LENGTH(value),
            TexturePixelStorage::UNPACK_IMAGE_HEIGHT(_) => TexturePixelStorage::UNPACK_IMAGE_HEIGHT(value),
            TexturePixelStorage::UNPACK_SKIP_PIXELS(_) => TexturePixelStorage::UNPACK_SKIP_PIXELS(value),
            TexturePixelStorage::UNPACK_SKIP_ROWS(_) => TexturePixelStorage::UNPACK_SKIP_ROWS(value),
            TexturePixelStorage::UNPACK_SKIP_IMAGES(_) => TexturePixelStorage::UNPACK_SKIP_IMAGES(value),
        }
    }

    /// Returns the same storage holding `value`, as read back from a context
    /// to save the current setting.
    pub fn with_value(&self, value: i32) -> (r: TexturePixelStorage)
        ensures
            r == self.spec_with_value(value),
    {
        match self {
            TexturePixelStorage::PACK_ALIGNMENT(_) => TexturePixelStorage::PACK_ALIGNMENT(value),
            TexturePixelStorage::PACK_ROW_LENGTH(_) => TexturePixelStorage::PACK_ROW_LENGTH(value),
            TexturePixelStorage::PACK_SKIP_PIXELS(_) => TexturePixelStorage::PACK_SKIP_PIXELS(value),
            TexturePixelStorage::PACK_SKIP_ROWS(_) => TexturePixelStorage::PACK_SKIP_ROWS(value),
            TexturePixelStorage::UNPACK_ALIGNMENT(_) => TexturePixelStorage::UNPACK_ALIGNMENT(value),
            TexturePixelStorage::UNPACK_FLIP_Y_WEBGL(_) => TexturePixelStorage::UNPACK_FLIP_Y_WEBGL(value != 0),
            TexturePixelStorage::UNPACK_PREMULTIPLY_ALPHA_WEBGL(_) => TexturePixelStorage::UNPACK_PREMULTIPLY_ALPHA_WEBGL(value != 0),
            TexturePixelStorage::UNPACK_COLORSPACE_CONVERSION_WEBGL(_) => TexturePixelStorage::UNPACK_COLORSPACE_CONVERSION_WEBGL(
                if value == constants::NONE as i32 {
                    TextureUnpackColorSpaceConversion::NONE
                } else {
                    TextureUnpackColorSpaceConversion::BROWSER_DEFAULT_WEBGL
                },
            ),
            TexturePixelStorage::UNPACK_ROW_LENGTH(_) => TexturePixelStorage::UNPACK_ROW_LENGTH(value),
            TexturePixelStorage::UNPACK_IMAGE_HEIGHT(_) => TexturePixelStorage::UNPACK_IMAGE_HEIGHT(value),
            TexturePixelStorage::UNPACK_SKIP_PIXELS(_) => TexturePixelStorage::UNPACK_SKIP_PIXELS(value),
            TexturePixelStorage::UNPACK_SKIP_ROWS(_) => TexturePixelStorage::UNPACK_SKIP_ROWS(value),
            TexturePixelStorage::UNPACK_SKIP_IMAGES(_) => TexturePixelStorage::UNPACK_SKIP_IMAGES(value),
        }
    }
}

/// Setting a storage and reading it back gives the same storage.
pub proof fn lemma_pixel_storage_round_trip(storage: TexturePixelStorage)
    ensures
        storage.spec_with_value(storage.spec_value()) == storage,
        storage.spec_with_value(storage.spec_value()).gl_value() == storage.gl_value(),
{
}

/// The WebGL target of a cube map face.
pub open spec fn face_target(face: TextureCubeMapFace) -> u32 {
    match face {
        TextureCubeMapFace::PositiveX => constants::TEXTURE_CUBE_MAP_POSITIVE_X,
        TextureCubeMapFace::NegativeX => constants::TEXTURE_CUBE_MAP_NEGATIVE_X,
        TextureCubeMapFace::PositiveY => constants::TEXTURE_CUBE_MAP_POSITIVE_Y,
        TextureCubeMapFace::NegativeY => constants::TEXTURE_CUBE_MAP_NEGATIVE_Y,
        TextureCubeMapFace::PositiveZ => constants::TEXTURE_CUBE_MAP_POSITIVE_Z,
        TextureCubeMapFace::NegativeZ => constants::TEXTURE_CUBE_MAP_NEGATIVE_Z,
    }
}

/// Returns the WebGL target of a cube map face.
pub fn cube_map_face_target(face: TextureCubeMapFace) -> (r: u32)
    ensures
        r == face_target(face),
{
    match face {
        TextureCubeMapFace::PositiveX => constants::TEXTURE_CUBE_MAP_POSITIVE_X,
        TextureCubeMapFace::NegativeX => constants::TEXTURE_CUBE_MAP_NEGATIVE_X,
        TextureCubeMapFace::PositiveY => constants::TEXTURE_CUBE_MAP_POSITIVE_Y,
        TextureCubeMapFace::NegativeY => constants::TEXTURE_CUBE_MAP_NEGATIVE_Y,
        TextureCubeMapFace::PositiveZ => constants::TEXTURE_CUBE_MAP_POSITIVE_Z,
        TextureCubeMapFace::NegativeZ => constants::TEXTURE_CUBE_MAP_NEGATIVE_Z,
    }
}

/// Each cube map face is uploaded onto the WebGL face target of its own name,
/// `TEXTURE_CUBE_MAP_POSITIVE_X` (34069) to `TEXTURE_CUBE_MAP_NEGATIVE_Z`
/// (34074) in the order +X, -X, +Y, -Y, +Z, -Z, and no two faces share a
/// target.
pub proof fn lemma_face_targets(face: TextureCubeMapFace, other: TextureCubeMapFace)
    ensures
        face_target(TextureCubeMapFace::PositiveX) == 34069,
        face_target(TextureCubeMapFace::NegativeX) == 34070,
        face_target(TextureCubeMapFace::PositiveY) == 34071,
        face_target(TextureCubeMapFace::NegativeY) == 34072,
        face_target(TextureCubeMapFace::PositiveZ) == 34073,
        face_target(TextureCubeMapFace::NegativeZ) == 34074,
        34069 <= face_target(face) <= 34074,
        face != other ==> face_target(face) != face_target(other),
{
}

/// The WebGL target an upload writes to: the face of a cube map (the
/// positive X face when none is given), or the texture's own target.
pub open spec fn upload_target(target: TextureTarget, face: Option<TextureCubeMapFace>) -> u32 {
    if target == TextureTarget::TEXTURE_CUBE_MAP {
        match face {
            Some(f) => face_target(f),
            None => face_target(TextureCubeMapFace::PositiveX),
        }
    } else {
        target.gl_value()
    }
}

/// Whether a target takes three-dimensional uploads.
pub open spec fn is_3d_target(target: TextureTarget) -> bool {
    target == TextureTarget::TEXTURE_2D_ARRAY || target == TextureTarget::TEXTURE_3D
}

/// One upload queued for a texture: where it writes (a level, a cube map
/// face, offsets) and how much (a size, defaulting to the data's).
#[derive(Debug, Clone, Copy, PartialEq, Eq, Structural)]
pub struct TextureUploadRequest {
    pub target: TextureTarget,
    pub cube_map_face: Option<TextureCubeMapFace>,
    pub generate_mipmaps: bool,
    pub level: usize,
    pub x_offset: Option<usize>,
    pub y_offset: Option<usize>,
    pub z_offset: Option<usize>,
    pub width: Option<usize>,
    pub height: Option<usize>,
    pub depth: Option<usize>,
}

impl TextureUploadRequest {
    /// A whole image of mipmap level `level` of a texture of `target` (for
    /// a cube map, of its `face`).
    pub open spec fn spec_image(
        target: TextureTarget,
        face: Option<TextureCubeMapFace>,
        level: usize,
        generate_mipmaps: bool,
    ) -> TextureUploadRequest {
        TextureUploadRequest {
            target,
            cube_map_face: face,
            generate_mipmaps,
            level,
            x_offset: None,
            y_offset: None,
            z_offset: None,
            width: None,
            height: None,
            depth: None,
        }
    }

    /// Uploads a whole image into mipmap level `level` of a 2D texture.
    pub fn tex_image_2d(level: usize, generate_mipmaps: bool) -> (r: Self)
        ensures
            r == Self::spec_image(TextureTarget::TEXTURE_2D, None, level, generate_mipmaps),
    {
        TextureUploadRequest {
            target: TextureTarget::TEXTURE_2D,
            cube_map_face: None,
            generate_mipmaps,
            level,
            x_offset: None,
            y_offset: None,
            z_offset: None,
            width: None,
            height: None,
            depth: None,
        }
    }

    /// Uploads a `width` x `height` sub image at (`x_offset`, `y_offset`)
    /// into mipmap level `level` of a 2D texture.
    pub fn tex_sub_image_2d(
        level: usize,
        x_offset: usize,
        y_offset: usize,
        width: usize,
        height: usize,
        generate_mipmaps: bool,
    ) -> (r: Self)
        ensures
            r == (TextureUploadRequest {
                target: TextureTarget::TEXTURE_2D,
                cube_map_face: None,
                generate_mipmaps,
                level,
                x_offset: Some(x_offset),
                y_offset: Some(y_offset),
                z_offset: None,
                width: Some(width),
                height: Some(height),
                depth: None,
            }),
    {
        TextureUploadRequest {
            target: TextureTarget::TEXTURE_2D,
            cube_map_face: None,
            generate_mipmaps,
            level,
            x_offset: Some(x_offset),
            y_offset: Some(y_offset),
            z_offset: None,
            width: Some(width),
            height: Some(height),
            depth: None,
        }
    }

    /// Uploads whole images into mipmap level `level` of a 2D array texture.
    pub fn tex_image_2d_array(level: usize, generate_mipmaps: bool) -> (r: Self)
        ensures
            r == Self::spec_image(TextureTarget::TEXTURE_2D_ARRAY, None, level, generate_mipmaps),
    {
        TextureUploadRequest {
            target: TextureTarget::TEXTURE_2D_ARRAY,
            cube_map_face: None,
            generate_mipmaps,
            level,
            x_offset: None,
            y_offset: None,
            z_offset: None,
            width: None,
            height: None,
            depth: None,
        }
    }

    /// Uploads `width` x `height` sub images at (`x_offset`, `y_offset`)
    /// into layers `array_index_offset` on (`array_index` of them) of mipmap
    /// level `level` of a 2D array texture.
    pub fn tex_sub_image_2d_array(
        level: usize,
        x_offset: usize,
        y_offset: usize,
        array_index_offset: usize,
        width: usize,
        height: usize,
        array_index: usize,
        generate_mipmaps: bool,
    ) -> (r: Self)
        ensures
            r == (TextureUploadRequest {
                target: TextureTarget::TEXTURE_2D_ARRAY,
                cube_map_face: None,
                generate_mipmaps,
                level,
                x_offset: Some(x_offset),
                y_offset: Some(y_offset),
                z_offset: Some(array_index_offset),
                width: Some(width),
                height: Some(height),
                depth: Some(array_index),
            }),
    {
        TextureUploadRequest {
            target: TextureTarget::TEXTURE_2D_ARRAY,
            cube_map_face: None,
            generate_mipmaps,
            level,
            x_offset: Some(x_offset),
            y_offset: Some(y_offset),
            z_offset: Some(array_index_offset),
            width: Some(width),
            height: Some(height),
            depth: Some(array_index),
        }
    }

    /// Uploads a whole volume into mipmap level `level` of a 3D texture.
    pub fn tex_image_3d(level: usize, generate_mipmaps: bool) -> (r: Self)
        ensures
            r == Self::spec_image(TextureTarget::TEXTURE_3D, None, level, generate_mipmaps),
    {
        TextureUploadRequest {
            target: TextureTarget::TEXTURE_3D,
            cube_map_face: None,
            generate_mipmaps,
            level,
            x_offset: None,
            y_offset: None,
            z_offset: None,
            width: None,
            height: None,
            depth: None,
        }
    }

    /// Uploads a `width` x `height` x `depth` sub volume at (`x_offset`,
    /// `y_offset`, `z_offset`) into mipmap level `level` of a 3D texture.
    pub fn tex_sub_image_3d(
        level: usize,
        x_offset: usize,
        y_offset: usize,
        z_offset: usize,
        width: usize,
        height: usize,
        depth: usize,
        generate_mipmaps: bool,
    ) -> (r: Self)
        ensures
            r == (TextureUploadRequest {
                target: TextureTarget::TEXTURE_3D,
                cube_map_face: None,
                generate_mipmaps,
                level,
                x_offset: Some(x_offset),
                y_offset: Some(y_offset),
                z_offset: Some(z_offset),
                width: Some(width),
                height: Some(height),
                depth: Some(depth),
            }),
    {
        TextureUploadRequest {
            target: TextureTarget::TEXTURE_3D,
            cube_map_face: None,
            generate_mipmaps,
            level,
            x_offset: Some(x_offset),
            y_offset: Some(y_offset),
            z_offset: Some(z_offset),
            width: Some(width),
            height: Some(height),
            depth: Some(depth),
        }
    }

    /// Uploads a whole image into mipmap level `level` of face `face` of a cube map.
    pub fn tex_image_cube_map(face: TextureCubeMapFace, level: usize, generate_mipmaps: bool) -> (r: Self)
        ensures
            r == Self::spec_image(TextureTarget::TEXTURE_CUBE_MAP, Some(face), level, generate_mipmaps),
    {
        TextureUploadRequest {
            target: TextureTarget::TEXTURE_CUBE_MAP,
            cube_map_face: Some(face),
            generate_mipmaps,
            level,
            x_offset: None,
            y_offset: None,
            z_offset: None,
            width: None,
            height: None,
            depth: None,
        }
    }

    /// Uploads a `width` x `height` sub image at (`x_offset`, `y_offset`)
    /// into mipmap level `level` of face `face` of a cube map.
    pub fn tex_sub_image_cube_map(
        face: TextureCubeMapFace,
        level: usize,
        x_offset: usize,
        y_offset: usize,
        width: usize,
        height: usize,
        generate_mipmaps: bool,
    ) -> (r: Self)
        ensures
            r == (TextureUploadRequest {
                target: TextureTarget::TEXTURE_CUBE_MAP,
                cube_map_face: Some(face),
                generate_mipmaps,
                level,
                x_offset: Some(x_offset),
                y_offset: Some(y_offset),
                z_offset: None,
                width: Some(width),
                height: Some(height),
                depth: None,
            }),
    {
        TextureUploadRequest {
            target: TextureTarget::TEXTURE_CUBE_MAP,
            cube_map_face: Some(face),
            generate_mipmaps,
            level,
            x_offset: Some(x_offset),
            y_offset: Some(y_offset),
            z_offset: None,
            width: Some(width),
            height: Some(height),
            depth: None,
        }
    }
}

/// What an upload reads of its data: its pixel format, its size, and the
/// offset (and, for compressed data, the length) of the part to upload.
pub enum TextureDataInfo {
    Uncompressed {
        pixel_format: TextureUncompressedPixelFormat,
        pixel_data_type: TextureUncompressedPixelDataType,
        pixel_storages: Vec<TexturePixelStorage>,
        width: usize,
        height: usize,
        offset: Option<usize>,
    },
    Compressed {
        pixel_format: TextureCompressedFormat,
        width: usize,
        height: usize,
        offset: Option<usize>,
        length_override: Option<usize>,
    },
}

/// The parameters of one WebGL sub image upload. `data_type` is given for
/// uncompressed data only; `offset` is the source offset (`offset_i32` the
/// same as a signed pixel buffer offset); `length_override` counts for
/// compressed data only. The pixel storages are set before the upload and
/// reset to their defaults after it; mipmaps are generated after it when
/// `generate_mipmaps`.
pub struct TextureUploadCommand {
    pub target: u32,
    pub is_3d: bool,
    pub level: i32,
    pub x_offset: i32,
    pub y_offset: i32,
    pub z_offset: i32,
    pub width: i32,
    pub height: i32,
    pub depth: i32,
    pub format: u32,
    pub data_type: Option<u32>,
    pub offset: u32,
    pub offset_i32: i32,
    pub length_override: u32,
    pub generate_mipmaps: bool,
    pub pixel_storages: Vec<TexturePixelStorage>,
}

/// Whether data of this kind can be uploaded into a texture of `internal_format`.
pub open spec fn format_matches(internal_format: TextureInternalFormat, data: TextureDataInfo) -> bool {
    match (data, internal_format) {
        (TextureDataInfo::Uncompressed { .. }, TextureInternalFormat::Uncompressed(_)) => true,
        (TextureDataInfo::Compressed { pixel_format, .. }, TextureInternalFormat::Compressed(f)) => pixel_format == f,
        _ => false,
    }
}

/// `c` is the upload of `data` that `request` asks for.
pub open spec fn upload_command(request: TextureUploadRequest, data: TextureDataInfo, c: TextureUploadCommand) -> bool {
    let (data_width, data_height) = match data {
        TextureDataInfo::Uncompressed { width, height, .. } => (width, height),
        TextureDataInfo::Compressed { width, height, .. } => (width, height),
    };
    let offset = match data {
        TextureDataInfo::Uncompressed { offset, .. } => offset,
        TextureDataInfo::Compressed { offset, .. } => offset,
    };
    let unwrap = |o: Option<usize>, d: usize| match o {
        Some(v) => v,
        None => d,
    };
    &&& c.target == upload_target(request.target, request.cube_map_face)
    &&& c.is_3d == is_3d_target(request.target)
    &&& c.level == request.level as i32
    &&& c.x_offset == unwrap(request.x_offset, 0) as i32
    &&& c.y_offset == unwrap(request.y_offset, 0) as i32
    &&& c.z_offset == unwrap(request.z_offset, 0) as i32
    &&& c.width == unwrap(request.width, data_width) as i32
    &&& c.height == unwrap(request.height, data_height) as i32
    &&& c.depth == unwrap(request.depth, 0) as i32
    &&& c.offset == unwrap(offset, 0) as u32
    &&& c.offset_i32 == unwrap(offset, 0) as i32
    &&& match data {
        TextureDataInfo::Uncompressed { pixel_format, pixel_data_type, pixel_storages, .. } => {
            &&& c.format == pixel_format.gl_value()
            &&& c.data_type == Some(pixel_data_type.gl_value())
            &&& c.length_override == 0
            &&& c.generate_mipmaps == request.generate_mipmaps
            &&& c.pixel_storages@ == pixel_storages@
        },
        TextureDataInfo::Compressed { pixel_format, length_override, .. } => {
            &&& c.format == pixel_format.gl_value()
            &&& c.data_type is None
            &&& c.length_override == unwrap(length_override, 0) as u32
            &&& !c.generate_mipmaps
            &&& c.pixel_storages@.len() == 0
        },
    }
}

/// Plans the upload of `data` into a texture of `internal_format` as
/// `request` asks. Uncompressed data goes into an uncompressed texture;
/// compressed data goes into a texture of the very same compressed format;
/// anything else fails with [`Error::TextureInternalFormatMismatched`].
pub fn plan_texture_upload(
    internal_format: TextureInternalFormat,
    request: TextureUploadRequest,
    data: TextureDataInfo,
) -> (r: Result<TextureUploadCommand, Error>)
    ensures
        !format_matches(internal_format, data) ==> r == Err::<TextureUploadCommand, Error>(
            Error::TextureInternalFormatMismatched,
        ),
        format_matches(internal_format, data) ==> (r matches Ok(c) && upload_command(request, data, c)),
{
    let target = if request.target == TextureTarget::TEXTURE_CUBE_MAP {
        match request.cube_map_face {
            Some(face) => cube_map_face_target(face),
            None => cube_map_face_target(TextureCubeMapFace::PositiveX),
        }
    } else {
        request.target.gl_enum()
    };
    let is_3d = match request.target {
        TextureTarget::TEXTURE_2D | TextureTarget::TEXTURE_CUBE_MAP => false,
        TextureTarget::TEXTURE_2D_ARRAY | TextureTarget::TEXTURE_3D => true,
    };
    let level = request.level as i32;
    let x_offset = match request.x_offset {
        Some(v) => v,
        None => 0,
    } as i32;
    let y_offset = match request.y_offset {
        Some(v) => v,
        None => 0,
    } as i32;
    let z_offset = match request.z_offset {
        Some(v) => v,
        None => 0,
    } as i32;
    let depth = match request.depth {
        Some(v) => v,
        None => 0,
    } as i32;
    match data {
        TextureDataInfo::Uncompressed { pixel_format, pixel_data_type, pixel_storages, width: data_width, height: data_height, offset } => {
            match internal_format {
                TextureInternalFormat::Uncompressed(_) => {},
                TextureInternalFormat::Compressed(_) => {
                    return Err(Error::TextureInternalFormatMismatched);
                },
            }
            let width = match request.width {
                Some(v) => v,
                None => data_width,
            } as i32;
            let height = match request.height {
                Some(v) => v,
                None => data_height,
            } as i32;
            let offset = match offset {
                Some(v) => v,
                None => 0,
            };
            Ok(TextureUploadCommand {
                target,
                is_3d,
                level,
                x_offset,
                y_offset,
                z_offset,
                width,
                height,
                depth,
                format: pixel_format.gl_enum(),
                data_type: Some(pixel_data_type.gl_enum()),
                offset: offset as u32,
                offset_i32: offset as i32,
                length_override: 0,
                generate_mipmaps: request.generate_mipmaps,
                pixel_storages,
            })
        },
        TextureDataInfo::Compressed { pixel_format, width: data_width, height: data_height, offset, length_override } => {
            match internal_format {
                TextureInternalFormat::Uncompressed(_) => {
                    return Err(Error::TextureInternalFormatMismatched);
                },
                TextureInternalFormat::Compressed(f) => {
                    if pixel_format != f {
                        return Err(Error::TextureInternalFormatMismatched);
                    }
                },
            }
            let width = match request.width {
                Some(v) => v,
                None => data_width,
            } as i32;
            let height = match request.height {
                Some(v) => v,
                None => data_height,
            } as i32;
            let offset = match offset {
                Some(v) => v,
                None => 0,
            };
            let length_override = match length_override {
                Some(v) => v,
                None => 0,
            };
            Ok(TextureUploadCommand {
                target,
                is_3d,
                level,
                x_offset,
                y_offset,
                z_offset,
                width,
                height,
                depth,
                format: pixel_format.gl_enum(),
                data_type: None,
                offset: offset as u32,
                offset_i32: offset as i32,
                length_override: length_override as u32,
                generate_mipmaps: false,
                pixel_storages: Vec::new(),
            })
        },
    }
}

/// One upload queued for a texture: what it asks for, what it reads of its
/// data, and the data itself (`B`, which the WebGL side reads).
#[verifier::reject_recursive_types(B)]
pub struct TextureUpload<B> {
    pub request: TextureUploadRequest,
    pub data: TextureDataInfo,
    pub bytes: B,
}

/// The uploads a queue gets: `commands[i]` uploads `queue[i]` (with its
/// data), for the longest run of uploads from the front whose data matches
/// `internal_format`; `error` is [`Error::TextureInternalFormatMismatched`]
/// when the run stops at an upload that does not match, which is then
/// uploaded no more than those after it.
pub open spec fn uploads_planned<B>(
    internal_format: TextureInternalFormat,
    queue: Seq<TextureUpload<B>>,
    commands: Seq<(TextureUploadCommand, B)>,
    error: Option<Error>,
) -> bool {
    &&& commands.len() <= queue.len()
    &&& forall|i: int|
        0 <= i < commands.len() ==> {
            &&& format_matches(internal_format, #[trigger] queue[i].data)
            &&& upload_command(queue[i].request, queue[i].data, commands[i].0)
            &&& commands[i].1 == queue[i].bytes
        }
    &&& (error is None <==> commands.len() == queue.len())
    &&& (error is Some ==> error == Some(Error::TextureInternalFormatMismatched)
        && !format_matches(internal_format, queue[commands.len() as int].data))
}

/// Plans the queued uploads into a texture of `internal_format`, in order,
/// stopping at the first upload whose data does not match the format: the
/// uploads before it are planned, it and those after it are dropped, and the
/// mismatch is returned as the error.
pub fn plan_texture_uploads<B>(
    internal_format: TextureInternalFormat,
    queue: Vec<TextureUpload<B>>,
) -> (r: (Vec<(TextureUploadCommand, B)>, Option<Error>))
    ensures
        uploads_planned(internal_format, queue@, r.0@, r.1),
{
    let ghost all = queue@;
    let mut rest = queue;
    let mut commands: Vec<(TextureUploadCommand, B)> = Vec::new();
    while rest.len() > 0
        invariant
            all == queue@,
            rest@ == all.subrange(commands@.len() as int, all.len() as int),
            commands@.len() <= all.len(),
            forall|i: int|
                0 <= i < commands@.len() ==> {
                    &&& format_matches(internal_format, #[trigger] all[i].data)
                    &&& upload_command(all[i].request, all[i].data, commands@[i].0)
                    &&& commands@[i].1 == all[i].bytes
                },
        decreases rest@.len(),
    {
        let ghost k = commands@.len() as int;
        let item = rest.remove(0);
        assert(item == all[k]);
        let TextureUpload { request, data, bytes } = item;
        match plan_texture_upload(internal_format, request, data) {
            Ok(c) => {
                commands.push((c, bytes));
                assert(rest@ =~= all.subrange(commands@.len() as int, all.len() as int));
            },
            Err(e) => {
                assert(!format_matches(internal_format, all[k].data));
                assert(e == Error::TextureInternalFormatMismatched);
                return (commands, Some(e));
            },
        }
    }
    assert(rest@.len() == all.len() - commands@.len());
    (commands, None)
}

} // verus!
