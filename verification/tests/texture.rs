use webgl_core::renderer::webgl::a;
use webgl_core::renderer::webgl::conversion::ToGlEnum;
use webgl_core::renderer::webgl::error::Error;
use webgl_core::renderer::webgl::texture::immutable;
use webgl_core::renderer::webgl::texture::{
    SamplerParameterKind, TextureCompressedFormat, TextureCubeMapFace, TextureInternalFormat, TextureLayout,
    TextureParameterKind, TexturePixelStorage, TextureTarget, TextureUncompressedInternalFormat,
    TextureUncompressedPixelDataType, TextureUncompressedPixelFormat, TextureUnit,
    TextureUnpackColorSpaceConversion,
};
use webgl_core::renderer::webgl::texture_state::{texture_storage, TextureState, TextureStoreState};
use webgl_core::renderer::webgl::texture_upload::{
    cube_map_face_target, plan_texture_upload, plan_texture_uploads, TextureDataInfo, TextureUpload,
    TextureUploadRequest,
};

fn rgba8() -> TextureInternalFormat {
    TextureInternalFormat::Uncompressed(TextureUncompressedInternalFormat::RGBA8)
}

fn layout(target: TextureTarget, levels: usize, width: usize, height: usize, depth: usize) -> TextureLayout {
    TextureLayout { target, internal_format: rgba8(), levels, width, height, depth }
}

#[test]
fn test_texture_unit_index_and_enum() {
    assert_eq!(TextureUnit::TEXTURE0.unit_index(), 0);
    assert_eq!(TextureUnit::TEXTURE5.unit_index(), 5);
    assert_eq!(TextureUnit::TEXTURE31.unit_index(), 31);
    assert_eq!(TextureUnit::TEXTURE0.gl_enum(), 33984);
    assert_eq!(TextureUnit::TEXTURE5.gl_enum(), 33984 + 5);
    assert_eq!(immutable::TextureUnit::TEXTURE7.unit_index(), 7);
    assert_eq!(a::TextureUnit::TEXTURE2.unit_index(), 2);
}

#[test]
fn test_uncompressed_byte_length() {
    assert_eq!(TextureUncompressedInternalFormat::RGBA8.byte_length(4, 4), 64);
    assert_eq!(TextureUncompressedInternalFormat::RGBA32I.byte_length(2, 3), 96);
    assert_eq!(rgba8().byte_length(10, 1), 40);
    assert_eq!(immutable::TextureColorFormat::RGBA8.byte_length(4, 4), 64);
    assert_eq!(a::TextureUncompressedInternalFormat::RGBA8.byte_length(4, 4), 64);
    assert_eq!(TextureUncompressedInternalFormat::RGBA16F.byte_length(2, 2), 32);
    assert_eq!(TextureUncompressedInternalFormat::RG32UI.byte_length(2, 2), 32);
    assert_eq!(a::TextureUncompressedInternalFormat::RGBA16I.byte_length(2, 2), 32);
    assert_eq!(immutable::TextureColorFormat::RG32F.byte_length(2, 2), 32);
}

#[test]
fn test_compressed_byte_length() {
    assert_eq!(TextureCompressedFormat::RGB_S3TC_DXT1.byte_length(5, 5), 32);
    assert_eq!(TextureCompressedFormat::RGBA_S3TC_DXT5.byte_length(4, 4), 16);
    assert_eq!(TextureCompressedFormat::RGB_PVRTC_4BPPV1_IMG.byte_length(4, 4), 32);
    assert_eq!(TextureCompressedFormat::RGB_PVRTC_2BPPV1_IMG.byte_length(4, 4), 32);
    assert_eq!(TextureCompressedFormat::RGBA_ASTC_12x12.byte_length(13, 12), 32);
    assert_eq!(immutable::TextureCompressedFormat::RGB_S3TC_DXT1.byte_length(5, 5), 32);
}

#[test]
fn test_texture_layout_byte_length() {
    assert_eq!(layout(TextureTarget::TEXTURE_2D, 3, 4, 4, 0).byte_length(), 84);
    assert_eq!(layout(TextureTarget::TEXTURE_CUBE_MAP, 3, 4, 4, 0).byte_length(), 504);
    assert_eq!(layout(TextureTarget::TEXTURE_2D_ARRAY, 3, 4, 4, 4).byte_length(), 336);
    assert_eq!(layout(TextureTarget::TEXTURE_3D, 3, 4, 4, 4).byte_length(), 292);
    assert_eq!(layout(TextureTarget::TEXTURE_2D, 0, 4, 4, 0).byte_length(), 0);
    let l = a::TextureLayout::Texture2D {
        width: 8,
        height: 8,
        levels: 2,
        format: a::TextureInternalFormat::Uncompressed(a::TextureUncompressedInternalFormat::RGBA8),
    };
    assert_eq!(l.byte_length(), 320);
    let l = a::TextureLayout::Texture2D {
        width: 16,
        height: 16,
        levels: 3,
        format: a::TextureInternalFormat::Uncompressed(a::TextureUncompressedInternalFormat::RGBA8),
    };
    assert_eq!(l.byte_length(), 1344);
    let l = a::TextureLayout::Texture3D {
        width: 4,
        height: 4,
        depth: 2,
        levels: 4,
        format: a::TextureInternalFormat::Uncompressed(a::TextureUncompressedInternalFormat::RGBA8),
    };
    assert_eq!(l.byte_length(), 64 * 2 + 16 + 4 + 4);
}

#[test]
fn test_texture_layout_levels() {
    let l = layout(TextureTarget::TEXTURE_3D, 3, 8, 5, 2);
    assert_eq!(l.width_of_level(0), Some(8));
    assert_eq!(l.width_of_level(1), Some(4));
    assert_eq!(l.width_of_level(2), Some(2));
    assert_eq!(l.width_of_level(3), None);
    assert_eq!(l.width_of_level(4), None);
    assert_eq!(l.width_of_level(l.levels), None);
    assert_eq!(l.height_of_level(2), Some(1));
    assert_eq!(l.depth_of_level(1), Some(1));
    assert_eq!(l.target(), TextureTarget::TEXTURE_3D);
    assert_eq!(l.internal_format(), rgba8());
}

#[test]
fn test_texture_storage_arguments() {
    let s = texture_storage(&layout(TextureTarget::TEXTURE_2D, 3, 4, 4, 9));
    assert_eq!(s.target, 3553);
    assert_eq!(s.levels, 3);
    assert_eq!(s.internal_format, 32856);
    assert_eq!((s.width, s.height, s.depth), (4, 4, None));
    assert_eq!(s.byte_length, 84);
    let s = texture_storage(&layout(TextureTarget::TEXTURE_3D, 1, 2, 2, 3));
    assert_eq!(s.depth, Some(3));
}

#[test]
fn test_pixel_storage_values() {
    assert_eq!(TexturePixelStorage::UNPACK_FLIP_Y_WEBGL(true).value(), 1);
    assert_eq!(TexturePixelStorage::UNPACK_FLIP_Y_WEBGL(false).value(), 0);
    assert_eq!(TexturePixelStorage::PACK_ROW_LENGTH(12).value(), 12);
    assert_eq!(
        TexturePixelStorage::UNPACK_COLORSPACE_CONVERSION_WEBGL(TextureUnpackColorSpaceConversion::NONE).value(),
        0
    );
    assert_eq!(TexturePixelStorage::UNPACK_ALIGNMENT(1).default_value(), 4);
    assert_eq!(TexturePixelStorage::PACK_ALIGNMENT(8).default_value(), 4);
    assert_eq!(
        TexturePixelStorage::UNPACK_COLORSPACE_CONVERSION_WEBGL(TextureUnpackColorSpaceConversion::NONE)
            .default_value(),
        37444
    );
    assert_eq!(TexturePixelStorage::UNPACK_SKIP_ROWS(3).default_value(), 0);
    assert_eq!(TexturePixelStorage::UNPACK_FLIP_Y_WEBGL(true).gl_enum(), 37440);
    assert_eq!(
        TexturePixelStorage::UNPACK_FLIP_Y_WEBGL(false).with_value(1),
        TexturePixelStorage::UNPACK_FLIP_Y_WEBGL(true)
    );
    let storage = TexturePixelStorage::UNPACK_ROW_LENGTH(17);
    assert_eq!(storage.with_value(storage.value()), storage);
    assert_eq!(immutable::TexturePixelStorage::UNPACK_ALIGNMENT(2).pixel_store_parameter(), (3317, 2));
}

#[test]
fn test_cube_map_faces() {
    assert_eq!(cube_map_face_target(TextureCubeMapFace::PositiveX), 34069);
    assert_eq!(cube_map_face_target(TextureCubeMapFace::NegativeZ), 34074);
}

fn request(target: TextureTarget) -> TextureUploadRequest {
    TextureUploadRequest {
        target,
        cube_map_face: None,
        generate_mipmaps: true,
        level: 2,
        x_offset: None,
        y_offset: Some(3),
        z_offset: None,
        width: None,
        height: Some(7),
        depth: None,
    }
}

fn uncompressed_data() -> TextureDataInfo {
    TextureDataInfo::Uncompressed {
        pixel_format: TextureUncompressedPixelFormat::RGBA,
        pixel_data_type: TextureUncompressedPixelDataType::UNSIGNED_BYTE,
        pixel_storages: vec![TexturePixelStorage::UNPACK_FLIP_Y_WEBGL(true)],
        width: 16,
        height: 9,
        offset: Some(5),
    }
}

#[test]
fn test_plan_uncompressed_upload() {
    let c = plan_texture_upload(rgba8(), request(TextureTarget::TEXTURE_2D), uncompressed_data()).unwrap();
    assert_eq!(c.target, 3553);
    assert!(!c.is_3d);
    assert_eq!(c.level, 2);
    assert_eq!((c.x_offset, c.y_offset, c.z_offset), (0, 3, 0));
    assert_eq!((c.width, c.height, c.depth), (16, 7, 0));
    assert_eq!(c.format, 6408);
    assert_eq!(c.data_type, Some(5121));
    assert_eq!(c.offset, 5);
    assert_eq!(c.offset_i32, 5);
    assert!(c.generate_mipmaps);
    assert_eq!(c.pixel_storages, vec![TexturePixelStorage::UNPACK_FLIP_Y_WEBGL(true)]);
}

#[test]
fn test_plan_upload_cube_face_and_3d() {
    let mut r = request(TextureTarget::TEXTURE_CUBE_MAP);
    let c = plan_texture_upload(rgba8(), r, uncompressed_data()).unwrap();
    assert_eq!(c.target, 34069);
    r.cube_map_face = Some(TextureCubeMapFace::NegativeY);
    let c = plan_texture_upload(rgba8(), r, uncompressed_data()).unwrap();
    assert_eq!(c.target, 34072);
    let mut r = request(TextureTarget::TEXTURE_2D_ARRAY);
    r.depth = Some(2);
    let c = plan_texture_upload(rgba8(), r, uncompressed_data()).unwrap();
    assert!(c.is_3d);
    assert_eq!(c.depth, 2);
}

#[test]
fn test_plan_compressed_upload() {
    let format = TextureInternalFormat::Compressed(TextureCompressedFormat::RGBA_S3TC_DXT5);
    let data = TextureDataInfo::Compressed {
        pixel_format: TextureCompressedFormat::RGBA_S3TC_DXT5,
        width: 8,
        height: 8,
        offset: None,
        length_override: Some(64),
    };
    let c = plan_texture_upload(format, request(TextureTarget::TEXTURE_2D), data).unwrap();
    assert_eq!(c.data_type, None);
    assert_eq!(c.format, TextureCompressedFormat::RGBA_S3TC_DXT5.gl_enum());
    assert_eq!(c.length_override, 64);
    assert_eq!((c.width, c.height), (8, 7));
    assert!(!c.generate_mipmaps);
    assert!(c.pixel_storages.is_empty());
}

#[test]
fn test_plan_upload_format_mismatch() {
    let compressed = TextureInternalFormat::Compressed(TextureCompressedFormat::RGBA_S3TC_DXT5);
    let r = plan_texture_upload(compressed, request(TextureTarget::TEXTURE_2D), uncompressed_data());
    assert!(matches!(r, Err(Error::TextureInternalFormatMismatched)));
    let other = TextureDataInfo::Compressed {
        pixel_format: TextureCompressedFormat::RGB_S3TC_DXT1,
        width: 8,
        height: 8,
        offset: None,
        length_override: None,
    };
    let r = plan_texture_upload(compressed, request(TextureTarget::TEXTURE_2D), other);
    assert!(matches!(r, Err(Error::TextureInternalFormatMismatched)));
    let data = TextureDataInfo::Compressed {
        pixel_format: TextureCompressedFormat::RGB_S3TC_DXT1,
        width: 8,
        height: 8,
        offset: None,
        length_override: None,
    };
    let r = plan_texture_upload(rgba8(), request(TextureTarget::TEXTURE_2D), data);
    assert!(matches!(r, Err(Error::TextureInternalFormatMismatched)));
}

type Tex = TextureState<u32, u32, u32>;

fn texture(restorable: bool) -> Tex {
    TextureState::new(layout(TextureTarget::TEXTURE_2D, 1, 4, 4, 0), vec![], vec![], restorable, vec![1, 2])
}

#[test]
fn test_texture_state_bind() {
    let mut t = texture(true);
    assert!(matches!(t.bind(TextureUnit::TEXTURE0, false, true), Err(Error::TextureUninitialized)));
    t.init(true).unwrap();
    assert!(matches!(t.init(false), Err(Error::TextureAlreadyInitialized)));
    assert!(matches!(
        t.bind(TextureUnit::TEXTURE1, true, true),
        Err(Error::TextureTargetOccupied(TextureUnit::TEXTURE1, TextureTarget::TEXTURE_2D))
    ));
    assert!(matches!(
        t.bind(TextureUnit::TEXTURE1, false, false),
        Err(Error::TextureInternalFormatUnsupported(_))
    ));
    let plan = t.bind(TextureUnit::TEXTURE1, false, true).unwrap();
    assert!(plan.newly_bound);
    assert_eq!(plan.create.unwrap().byte_length, 64);
    assert_eq!(plan.uploads, vec![1, 2]);
    assert_eq!(t.runtime.byte_length, 64);
    let plan = t.bind(TextureUnit::TEXTURE1, false, true).unwrap();
    assert!(!plan.newly_bound && plan.create.is_none() && plan.uploads.is_empty());
    assert_eq!(t.unbind(TextureUnit::TEXTURE1).unwrap(), true);
    assert_eq!(t.unbind_all().unwrap(), vec![]);
    t.bind(TextureUnit::TEXTURE3, false, true).unwrap();
    t.bind(TextureUnit::TEXTURE0, false, true).unwrap();
    let unbindings = t.unbind_all().unwrap();
    assert_eq!(unbindings.len(), 2);
    assert_eq!(unbindings[0].unit, TextureUnit::TEXTURE3);
    assert_eq!(unbindings[0].active_texture, 33987);
    assert_eq!(unbindings[0].target, 3553);
    assert_eq!(unbindings[1].active_texture, 33984);
    assert!(t.unbind_all().unwrap().is_empty());
}

fn upload(request: TextureUploadRequest, data: TextureDataInfo, bytes: u8) -> TextureUpload<u8> {
    TextureUpload { request, data, bytes }
}

fn compressed_data() -> TextureDataInfo {
    TextureDataInfo::Compressed {
        pixel_format: TextureCompressedFormat::RGBA_S3TC_DXT5,
        width: 8,
        height: 8,
        offset: None,
        length_override: None,
    }
}

#[test]
fn test_plan_texture_uploads_stops_at_mismatch() {
    let queue = vec![
        upload(request(TextureTarget::TEXTURE_2D), uncompressed_data(), 1),
        upload(TextureUploadRequest::tex_image_2d(0, false), uncompressed_data(), 2),
        upload(request(TextureTarget::TEXTURE_2D), compressed_data(), 3),
        upload(request(TextureTarget::TEXTURE_2D), uncompressed_data(), 4),
    ];
    let (commands, error) = plan_texture_uploads(rgba8(), queue);
    assert_eq!(commands.len(), 2);
    assert_eq!(commands[0].1, 1);
    assert_eq!(commands[1].1, 2);
    assert_eq!(commands[1].0.level, 0);
    assert_eq!(commands[0].0.level, 2);
    assert!(matches!(error, Some(Error::TextureInternalFormatMismatched)));

    let queue = vec![upload(request(TextureTarget::TEXTURE_2D), uncompressed_data(), 5)];
    let (commands, error) = plan_texture_uploads(rgba8(), queue);
    assert_eq!(commands.len(), 1);
    assert!(error.is_none());
}

#[test]
fn test_texture_state_upload_queue() {
    let mut t: TextureState<TextureUpload<u8>, u32, u32> = TextureState::new(
        layout(TextureTarget::TEXTURE_2D, 1, 4, 4, 0),
        vec![],
        vec![],
        false,
        vec![
            upload(request(TextureTarget::TEXTURE_2D), uncompressed_data(), 1),
            upload(request(TextureTarget::TEXTURE_2D), compressed_data(), 2),
            upload(request(TextureTarget::TEXTURE_2D), uncompressed_data(), 3),
        ],
    );
    assert!(matches!(t.upload_queue(true), Err(Error::TextureUninitialized)));
    t.init(true).unwrap();
    let plan = t.upload_queue(true).unwrap();
    assert!(plan.create.is_some());
    assert_eq!(plan.commands.len(), 1);
    assert_eq!(plan.commands[0].1, 1);
    assert!(matches!(plan.error, Some(Error::TextureInternalFormatMismatched)));
    assert!(t.queue.is_empty());
    t.queue.push(upload(request(TextureTarget::TEXTURE_2D), uncompressed_data(), 6));
    let plan = t.bind_queue(TextureUnit::TEXTURE2, false, true).unwrap();
    assert!(plan.newly_bound && plan.create.is_none());
    assert_eq!(plan.commands.len(), 1);
    assert!(plan.error.is_none());
    assert!(t.queue.is_empty());
}

#[test]
fn test_texture_state_free() {
    let mut t = texture(false);
    t.init(true).unwrap();
    t.upload(true).unwrap();
    assert!(!t.freeable());
    assert!(!t.free(vec![9]).released);

    let mut t = texture(true);
    t.init(true).unwrap();
    t.bind(TextureUnit::TEXTURE0, false, true).unwrap();
    assert!(!t.freeable());
    t.unbind(TextureUnit::TEXTURE0).unwrap();
    t.queue.push(3);
    let out = t.free(vec![7, 8]);
    assert!(out.released && out.delete_texture);
    assert_eq!(out.byte_length, 64);
    assert_eq!(t.queue, vec![7, 8, 3]);
    assert!(!t.runtime.has_texture);
    assert_eq!(t.runtime.byte_length, 0);
}

#[test]
fn test_texture_parameters_replace_same_kind() {
    let mut t = texture(true);
    assert!(!t.set_texture_parameter(TextureParameterKind::MAX_LEVEL, 3));
    t.set_texture_parameter(TextureParameterKind::BASE_LEVEL, 1);
    t.set_texture_parameter(TextureParameterKind::MAX_LEVEL, 5);
    assert_eq!(
        t.texture_params,
        vec![(TextureParameterKind::MAX_LEVEL, 5), (TextureParameterKind::BASE_LEVEL, 1)]
    );
    t.init(true).unwrap();
    t.upload(true).unwrap();
    assert!(t.set_sampler_parameter(SamplerParameterKind::WRAP_S, 2));
    assert_eq!(t.sampler_params, vec![(SamplerParameterKind::WRAP_S, 2)]);
}

#[test]
fn test_texture_store_bindings() {
    let mut s = TextureStoreState::with_available_memory(3, 1 << 40);
    assert_eq!(s.available_memory(), i32::MAX as usize);
    assert!(s.register(1, None, 64, true, TextureTarget::TEXTURE_2D, &vec![TextureUnit::TEXTURE0]).is_ok());
    assert!(s.is_occupied(TextureUnit::TEXTURE0, TextureTarget::TEXTURE_2D, 2));
    assert!(!s.is_occupied(TextureUnit::TEXTURE0, TextureTarget::TEXTURE_3D, 2));
    assert!(matches!(
        s.register(2, None, 64, true, TextureTarget::TEXTURE_2D, &vec![TextureUnit::TEXTURE0]),
        Err(Error::TextureTargetOccupied(TextureUnit::TEXTURE0, TextureTarget::TEXTURE_2D))
    ));
    assert!(s.register(2, None, 32, true, TextureTarget::TEXTURE_3D, &vec![TextureUnit::TEXTURE0]).is_ok());
    assert_eq!(s.used_memory(), 96);
    s.add_binding(TextureUnit::TEXTURE4, TextureTarget::TEXTURE_2D, 1);
    s.remove_binding(TextureUnit::TEXTURE4, TextureTarget::TEXTURE_2D);
    assert!(!s.is_occupied(TextureUnit::TEXTURE4, TextureTarget::TEXTURE_2D, 3));
    assert!(s.unregister(1, TextureTarget::TEXTURE_2D, &vec![TextureUnit::TEXTURE0]));
    assert!(!s.is_occupied(TextureUnit::TEXTURE0, TextureTarget::TEXTURE_2D, 2));
    assert!(s.is_occupied(TextureUnit::TEXTURE0, TextureTarget::TEXTURE_3D, 1));
    assert_eq!(s.used_memory(), 32);
    assert!(matches!(
        s.register(5, Some(4), 8, true, TextureTarget::TEXTURE_2D, &vec![]),
        Err(Error::RegisterTextureToMultipleStore)
    ));
    assert!(s.register(5, Some(3), 8, true, TextureTarget::TEXTURE_2D, &vec![]).is_ok());
    assert_eq!(s.used_memory(), 32);
    assert_eq!(s.id(), 3);
}

#[test]
fn test_checked_byte_length() {
    assert_eq!(layout(TextureTarget::TEXTURE_2D, 3, 4, 4, 0).checked_byte_length(), Some(84));
    assert_eq!(layout(TextureTarget::TEXTURE_2D, 1, usize::MAX, 2, 0).checked_byte_length(), None);
    assert_eq!(layout(TextureTarget::TEXTURE_2D, 65, 4, 4, 0).checked_byte_length(), None);
    assert_eq!(layout(TextureTarget::TEXTURE_3D, 1, 1 << 20, 1 << 20, 1 << 30).checked_byte_length(), None);
    assert_eq!(TextureCompressedFormat::RGB_S3TC_DXT1.checked_byte_length(usize::MAX, 4), None);
    assert_eq!(TextureCompressedFormat::RGB_S3TC_DXT1.checked_byte_length(5, 5), Some(32));
    assert_eq!(rgba8().checked_byte_length(usize::MAX / 2, 1), None);
}

#[test]
fn test_upload_request_constructors() {
    let r = TextureUploadRequest::tex_image_2d(1, true);
    assert_eq!(r.target, TextureTarget::TEXTURE_2D);
    assert_eq!((r.level, r.generate_mipmaps), (1, true));
    assert_eq!((r.x_offset, r.width, r.cube_map_face), (None, None, None));

    let r = TextureUploadRequest::tex_sub_image_2d(0, 4, 5, 6, 7, false);
    assert_eq!((r.x_offset, r.y_offset, r.z_offset), (Some(4), Some(5), None));
    assert_eq!((r.width, r.height, r.depth), (Some(6), Some(7), None));

    let r = TextureUploadRequest::tex_sub_image_2d_array(2, 1, 2, 3, 4, 5, 6, false);
    assert_eq!(r.target, TextureTarget::TEXTURE_2D_ARRAY);
    assert_eq!((r.x_offset, r.y_offset, r.z_offset), (Some(1), Some(2), Some(3)));
    assert_eq!((r.width, r.height, r.depth), (Some(4), Some(5), Some(6)));

    let r = TextureUploadRequest::tex_sub_image_3d(0, 1, 2, 3, 4, 5, 6, true);
    assert_eq!(r.target, TextureTarget::TEXTURE_3D);
    assert_eq!((r.z_offset, r.depth), (Some(3), Some(6)));
    assert_eq!(TextureUploadRequest::tex_image_3d(0, false).depth, None);
    assert_eq!(TextureUploadRequest::tex_image_2d_array(3, false).level, 3);

    let r = TextureUploadRequest::tex_image_cube_map(TextureCubeMapFace::NegativeX, 0, false);
    assert_eq!(r.cube_map_face, Some(TextureCubeMapFace::NegativeX));
    let c = plan_texture_upload(rgba8(), r, uncompressed_data()).unwrap();
    assert_eq!(c.target, 34070);
    assert_eq!((c.width, c.height), (16, 9));

    let r = TextureUploadRequest::tex_sub_image_cube_map(TextureCubeMapFace::PositiveZ, 1, 2, 3, 4, 5, true);
    let c = plan_texture_upload(rgba8(), r, uncompressed_data()).unwrap();
    assert_eq!(c.target, 34073);
    assert_eq!((c.x_offset, c.y_offset, c.width, c.height), (2, 3, 4, 5));
}

#[test]
fn test_texture_store_record_unbind_all() {
    let mut s = TextureStoreState::new(2);
    let units = vec![TextureUnit::TEXTURE0, TextureUnit::TEXTURE1];
    assert!(s.register(1, None, 64, true, TextureTarget::TEXTURE_2D, &units).is_ok());
    s.add_binding(TextureUnit::TEXTURE2, TextureTarget::TEXTURE_2D, 3);
    s.record_unbind_all(1, TextureTarget::TEXTURE_2D, &vec![TextureUnit::TEXTURE0, TextureUnit::TEXTURE1, TextureUnit::TEXTURE2]);
    assert!(!s.is_occupied(TextureUnit::TEXTURE0, TextureTarget::TEXTURE_2D, 9));
    assert!(!s.is_occupied(TextureUnit::TEXTURE1, TextureTarget::TEXTURE_2D, 9));
    assert!(s.is_occupied(TextureUnit::TEXTURE2, TextureTarget::TEXTURE_2D, 9));
    assert_eq!(s.used_memory(), 64);
}
