//! WebGL 2 enumeration values, as fixed by the WebGL 2 specification and the
//! WebGL extension registry.
use vstd::prelude::*;

verus! {

pub const ALPHA: u32 = 6406;
pub const ALREADY_SIGNALED: u32 = 37146;
pub const ALWAYS: u32 = 519;
pub const ARRAY_BUFFER: u32 = 34962;
pub const BACK: u32 = 1029;
pub const BROWSER_DEFAULT_WEBGL: u32 = 37444;
pub const BYTE: u32 = 5120;
pub const CLAMP_TO_EDGE: u32 = 33071;
pub const COLOR_BUFFER_BIT: u32 = 16384;
pub const COMPARE_REF_TO_TEXTURE: u32 = 34894;
pub const COMPRESSED_R11_EAC: u32 = 37488;
pub const COMPRESSED_RG11_EAC: u32 = 37490;
pub const COMPRESSED_RGB8_ETC2: u32 = 37492;
pub const COMPRESSED_RGB8_PUNCHTHROUGH_ALPHA1_ETC2: u32 = 37494;
pub const COMPRESSED_RGBA8_ETC2_EAC: u32 = 37496;
pub const COMPRESSED_RGBA_ASTC_10X10_KHR: u32 = 37819;
pub const COMPRESSED_RGBA_ASTC_10X5_KHR: u32 = 37816;
pub const COMPRESSED_RGBA_ASTC_10X6_KHR: u32 = 37817;
pub const COMPRESSED_RGBA_ASTC_12X10_KHR: u32 = 37820;
pub const COMPRESSED_RGBA_ASTC_12X12_KHR: u32 = 37821;
pub const COMPRESSED_RGBA_ASTC_4X4_KHR: u32 = 37808;
pub const COMPRESSED_RGBA_ASTC_5X4_KHR: u32 = 37809;
pub const COMPRESSED_RGBA_ASTC_5X5_KHR: u32 = 37810;
pub const COMPRESSED_RGBA_ASTC_6X5_KHR: u32 = 37811;
pub const COMPRESSED_RGBA_ASTC_6X6_KHR: u32 = 37812;
pub const COMPRESSED_RGBA_ASTC_8X5_KHR: u32 = 37813;
pub const COMPRESSED_RGBA_ASTC_8X6_KHR: u32 = 37814;
pub const COMPRESSED_RGBA_ASTC_8X8_KHR: u32 = 37815;
pub const COMPRESSED_RGBA_PVRTC_2BPPV1_IMG: u32 = 35843;
pub const COMPRESSED_RGBA_PVRTC_4BPPV1_IMG: u32 = 35842;
pub const COMPRESSED_RGBA_S3TC_DXT1_EXT: u32 = 33777;
pub const COMPRESSED_RGBA_S3TC_DXT3_EXT: u32 = 33778;
pub const COMPRESSED_RGBA_S3TC_DXT5_EXT: u32 = 33779;
pub const COMPRESSED_RGB_ETC1_WEBGL: u32 = 36196;
pub const COMPRESSED_RGB_PVRTC_2BPPV1_IMG: u32 = 35841;
pub const COMPRESSED_RGB_PVRTC_4BPPV1_IMG: u32 = 35840;
pub const COMPRESSED_RGB_S3TC_DXT1_EXT: u32 = 33776;
pub const COMPRESSED_SIGNED_R11_EAC: u32 = 37489;
pub const COMPRESSED_SIGNED_RG11_EAC: u32 = 37491;
pub const COMPRESSED_SRGB8_ALPHA8_ASTC_10X10_KHR: u32 = 37851;
pub const COMPRESSED_SRGB8_ALPHA8_ASTC_10X5_KHR: u32 = 37848;
pub const COMPRESSED_SRGB8_ALPHA8_ASTC_10X6_KHR: u32 = 37849;
pub const COMPRESSED_SRGB8_ALPHA8_ASTC_12X10_KHR: u32 = 37852;
pub const COMPRESSED_SRGB8_ALPHA8_ASTC_12X12_KHR: u32 = 37853;
pub const COMPRESSED_SRGB8_ALPHA8_ASTC_4X4_KHR: u32 = 37840;
pub const COMPRESSED_SRGB8_ALPHA8_ASTC_5X4_KHR: u32 = 37841;
pub const COMPRESSED_SRGB8_ALPHA8_ASTC_5X5_KHR: u32 = 37842;
pub const COMPRESSED_SRGB8_ALPHA8_ASTC_6X5_KHR: u32 = 37843;
pub const COMPRESSED_SRGB8_ALPHA8_ASTC_6X6_KHR: u32 = 37844;
pub const COMPRESSED_SRGB8_ALPHA8_ASTC_8X5_KHR: u32 = 37845;
pub const COMPRESSED_SRGB8_ALPHA8_ASTC_8X6_KHR: u32 = 37846;
pub const COMPRESSED_SRGB8_ALPHA8_ASTC_8X8_KHR: u32 = 37847;
pub const COMPRESSED_SRGB8_ALPHA8_ETC2_EAC: u32 = 37497;
pub const COMPRESSED_SRGB8_ETC2: u32 = 37493;
pub const COMPRESSED_SRGB8_PUNCHTHROUGH_ALPHA1_ETC2: u32 = 37495;
pub const COMPRESSED_SRGB_ALPHA_S3TC_DXT1_EXT: u32 = 35917;
pub const COMPRESSED_SRGB_ALPHA_S3TC_DXT3_EXT: u32 = 35918;
pub const COMPRESSED_SRGB_ALPHA_S3TC_DXT5_EXT: u32 = 35919;
pub const COMPRESSED_SRGB_S3TC_DXT1_EXT: u32 = 35916;
pub const CONDITION_SATISFIED: u32 = 37148;
pub const COPY_READ_BUFFER: u32 = 36662;
pub const COPY_WRITE_BUFFER: u32 = 36663;
pub const DEPTH24_STENCIL8: u32 = 35056;
pub const DEPTH32F_STENCIL8: u32 = 36013;
pub const DEPTH_BUFFER_BIT: u32 = 256;
pub const DEPTH_COMPONENT: u32 = 6402;
pub const DEPTH_COMPONENT16: u32 = 33189;
pub const DEPTH_COMPONENT24: u32 = 33190;
pub const DEPTH_COMPONENT32F: u32 = 36012;
pub const DEPTH_STENCIL: u32 = 34041;
pub const DYNAMIC_COPY: u32 = 35050;
pub const DYNAMIC_DRAW: u32 = 35048;
pub const DYNAMIC_READ: u32 = 35049;
pub const ELEMENT_ARRAY_BUFFER: u32 = 34963;
pub const EQUAL: u32 = 514;
pub const FLOAT: u32 = 5126;
pub const FLOAT_32_UNSIGNED_INT_24_8_REV: u32 = 36269;
pub const FRONT: u32 = 1028;
pub const FRONT_AND_BACK: u32 = 1032;
pub const GEQUAL: u32 = 518;
pub const GREATER: u32 = 516;
pub const HALF_FLOAT: u32 = 5131;
pub const INT: u32 = 5124;
pub const INT_2_10_10_10_REV: u32 = 36255;
pub const LEQUAL: u32 = 515;
pub const LESS: u32 = 513;
pub const LINEAR: u32 = 9729;
pub const LINEAR_MIPMAP_LINEAR: u32 = 9987;
pub const LINEAR_MIPMAP_NEAREST: u32 = 9985;
pub const LINES: u32 = 1;
pub const LINE_LOOP: u32 = 2;
pub const LINE_STRIP: u32 = 3;
pub const LUMINANCE: u32 = 6409;
pub const LUMINANCE_ALPHA: u32 = 6410;
pub const MAX_CLIENT_WAIT_TIMEOUT_WEBGL: u32 = 37447;
pub const MIRRORED_REPEAT: u32 = 33648;
pub const NEAREST: u32 = 9728;
pub const NEAREST_MIPMAP_LINEAR: u32 = 9986;
pub const NEAREST_MIPMAP_NEAREST: u32 = 9984;
pub const NEVER: u32 = 512;
pub const NONE: u32 = 0;
pub const NOTEQUAL: u32 = 517;
pub const PACK_ALIGNMENT: u32 = 3333;
pub const PACK_ROW_LENGTH: u32 = 3330;
pub const PACK_SKIP_PIXELS: u32 = 3332;
pub const PACK_SKIP_ROWS: u32 = 3331;
pub const PIXEL_PACK_BUFFER: u32 = 35051;
pub const PIXEL_UNPACK_BUFFER: u32 = 35052;
pub const POINTS: u32 = 0;
pub const R11F_G11F_B10F: u32 = 35898;
pub const R16F: u32 = 33325;
pub const R16I: u32 = 33331;
pub const R16UI: u32 = 33332;
pub const R32F: u32 = 33326;
pub const R32I: u32 = 33333;
pub const R32UI: u32 = 33334;
pub const R8: u32 = 33321;
pub const R8I: u32 = 33329;
pub const R8UI: u32 = 33330;
pub const R8_SNORM: u32 = 36756;
pub const RED: u32 = 6403;
pub const RED_INTEGER: u32 = 36244;
pub const REPEAT: u32 = 10497;
pub const RG: u32 = 33319;
pub const RG16F: u32 = 33327;
pub const RG16I: u32 = 33337;
pub const RG16UI: u32 = 33338;
pub const RG32F: u32 = 33328;
pub const RG32I: u32 = 33339;
pub const RG32UI: u32 = 33340;
pub const RG8: u32 = 33323;
pub const RG8I: u32 = 33335;
pub const RG8UI: u32 = 33336;
pub const RG8_SNORM: u32 = 36757;
pub const RGB: u32 = 6407;
pub const RGB10_A2: u32 = 32857;
pub const RGB10_A2UI: u32 = 36975;
pub const RGB16F: u32 = 34843;
pub const RGB16I: u32 = 36233;
pub const RGB16UI: u32 = 36215;
pub const RGB32F: u32 = 34837;
pub const RGB32I: u32 = 36227;
pub const RGB32UI: u32 = 36209;
pub const RGB565: u32 = 36194;
pub const RGB5_A1: u32 = 32855;
pub const RGB8: u32 = 32849;
pub const RGB8I: u32 = 36239;
pub const RGB8UI: u32 = 36221;
pub const RGB8_SNORM: u32 = 36758;
pub const RGB9_E5: u32 = 35901;
pub const RGBA: u32 = 6408;
pub const RGBA16F: u32 = 34842;
pub const RGBA16I: u32 = 36232;
pub const RGBA16UI: u32 = 36214;
pub const RGBA32F: u32 = 34836;
pub const RGBA32I: u32 = 36226;
pub const RGBA32UI: u32 = 36208;
pub const RGBA4: u32 = 32854;
pub const RGBA8: u32 = 32856;
pub const RGBA8I: u32 = 36238;
pub const RGBA8UI: u32 = 36220;
pub const RGBA8_SNORM: u32 = 36759;
pub const RGBA_INTEGER: u32 = 36249;
pub const RGB_INTEGER: u32 = 36248;
pub const RG_INTEGER: u32 = 33320;
pub const SHORT: u32 = 5122;
pub const SRGB8: u32 = 35905;
pub const SRGB8_ALPHA8: u32 = 35907;
pub const STATIC_COPY: u32 = 35046;
pub const STATIC_DRAW: u32 = 35044;
pub const STATIC_READ: u32 = 35045;
pub const STENCIL_BUFFER_BIT: u32 = 1024;
pub const STREAM_COPY: u32 = 35042;
pub const STREAM_DRAW: u32 = 35040;
pub const STREAM_READ: u32 = 35041;
pub const SYNC_FLUSH_COMMANDS_BIT: u32 = 1;
pub const SYNC_GPU_COMMANDS_COMPLETE: u32 = 37143;
pub const TEXTURE0: u32 = 33984;
pub const TEXTURE1: u32 = 33985;
pub const TEXTURE10: u32 = 33994;
pub const TEXTURE11: u32 = 33995;
pub const TEXTURE12: u32 = 33996;
pub const TEXTURE13: u32 = 33997;
pub const TEXTURE14: u32 = 33998;
pub const TEXTURE15: u32 = 33999;
pub const TEXTURE16: u32 = 34000;
pub const TEXTURE17: u32 = 34001;
pub const TEXTURE18: u32 = 34002;
pub const TEXTURE19: u32 = 34003;
pub const TEXTURE2: u32 = 33986;
pub const TEXTURE20: u32 = 34004;
pub const TEXTURE21: u32 = 34005;
pub const TEXTURE22: u32 = 34006;
pub const TEXTURE23: u32 = 34007;
pub const TEXTURE24: u32 = 34008;
pub const TEXTURE25: u32 = 34009;
pub const TEXTURE26: u32 = 34010;
pub const TEXTURE27: u32 = 34011;
pub const TEXTURE28: u32 = 34012;
pub const TEXTURE29: u32 = 34013;
pub const TEXTURE3: u32 = 33987;
pub const TEXTURE30: u32 = 34014;
pub const TEXTURE31: u32 = 34015;
pub const TEXTURE4: u32 = 33988;
pub const TEXTURE5: u32 = 33989;
pub const TEXTURE6: u32 = 33990;
pub const TEXTURE7: u32 = 33991;
pub const TEXTURE8: u32 = 33992;
pub const TEXTURE9: u32 = 33993;
pub const TEXTURE_2D: u32 = 3553;
pub const TEXTURE_2D_ARRAY: u32 = 35866;
pub const TEXTURE_3D: u32 = 32879;
pub const TEXTURE_BASE_LEVEL: u32 = 33084;
pub const TEXTURE_COMPARE_FUNC: u32 = 34893;
pub const TEXTURE_COMPARE_MODE: u32 = 34892;
pub const TEXTURE_CUBE_MAP: u32 = 34067;
pub const TEXTURE_CUBE_MAP_NEGATIVE_X: u32 = 34070;
pub const TEXTURE_CUBE_MAP_NEGATIVE_Y: u32 = 34072;
pub const TEXTURE_CUBE_MAP_NEGATIVE_Z: u32 = 34074;
pub const TEXTURE_CUBE_MAP_POSITIVE_X: u32 = 34069;
pub const TEXTURE_CUBE_MAP_POSITIVE_Y: u32 = 34071;
pub const TEXTURE_CUBE_MAP_POSITIVE_Z: u32 = 34073;
pub const TEXTURE_MAG_FILTER: u32 = 10240;
pub const TEXTURE_MAX_ANISOTROPY_EXT: u32 = 34046;
pub const TEXTURE_MAX_LEVEL: u32 = 33085;
pub const TEXTURE_MAX_LOD: u32 = 33083;
pub const TEXTURE_MIN_FILTER: u32 = 10241;
pub const TEXTURE_MIN_LOD: u32 = 33082;
pub const TEXTURE_WRAP_R: u32 = 32882;
pub const TEXTURE_WRAP_S: u32 = 10242;
pub const TEXTURE_WRAP_T: u32 = 10243;
pub const TIMEOUT_EXPIRED: u32 = 37147;
pub const TRANSFORM_FEEDBACK_BUFFER: u32 = 35982;
pub const TRIANGLES: u32 = 4;
pub const TRIANGLE_FAN: u32 = 6;
pub const TRIANGLE_STRIP: u32 = 5;
pub const UNIFORM_BUFFER: u32 = 35345;
pub const UNPACK_ALIGNMENT: u32 = 3317;
pub const UNPACK_COLORSPACE_CONVERSION_WEBGL: u32 = 37443;
pub const UNPACK_FLIP_Y_WEBGL: u32 = 37440;
pub const UNPACK_IMAGE_HEIGHT: u32 = 32878;
pub const UNPACK_PREMULTIPLY_ALPHA_WEBGL: u32 = 37441;
pub const UNPACK_ROW_LENGTH: u32 = 3314;
pub const UNPACK_SKIP_IMAGES: u32 = 32877;
pub const UNPACK_SKIP_PIXELS: u32 = 3316;
pub const UNPACK_SKIP_ROWS: u32 = 3315;
pub const UNSIGNED_BYTE: u32 = 5121;
pub const UNSIGNED_INT: u32 = 5125;
pub const UNSIGNED_INT_10F_11F_11F_REV: u32 = 35899;
pub const UNSIGNED_INT_24_8: u32 = 34042;
pub const UNSIGNED_INT_2_10_10_10_REV: u32 = 33640;
pub const UNSIGNED_INT_5_9_9_9_REV: u32 = 35902;
pub const UNSIGNED_SHORT: u32 = 5123;
pub const UNSIGNED_SHORT_4_4_4_4: u32 = 32819;
pub const UNSIGNED_SHORT_5_5_5_1: u32 = 32820;
pub const UNSIGNED_SHORT_5_6_5: u32 = 33635;
pub const WAIT_FAILED: u32 = 37149;

} // verus!
