use vstd::prelude::*;

use super::attribute::AttributeBinding;
use super::buffer::BufferTarget;
use super::texture::{TextureInternalFormat, TextureTarget, TextureUnit};

verus! {

/// A width and a height, in texels.
#[derive(Debug, Clone, Copy, PartialEq, Eq, Structural)]
pub struct TextureExtent {
    pub width: usize,
    pub height: usize,
}

/// Errors raised by the WebGL resources of this library.
#[derive(Debug, Clone)]
pub enum Error {
    WebGL2Unsupported,
    CreateProgramFailure,
    CreateBufferFailure,
    CreateFramebufferFailure,
    CreateRenderbufferFailure,
    CreateTextureFailure,
    CreateSamplerFailure,
    CreateVertexShaderFailure,
    CreateFragmentShaderFailure,
    CreateFenceSyncFailure,
    CreateVertexArrayObjectFailure,
    ExtensionUnsupported(&'static str),
    ReadPixelsFailure(Option<String>),
    ClientWaitFailure(Option<String>),
    CompileShaderFailure(Option<String>),
    CompileProgramFailure(Option<String>),
    ProgramOccupied,
    ProgramUnused,
    VertexArrayObjectOccupied,
    NoSuchAttribute(AttributeBinding),
    BufferUninitialized,
    BufferAlreadyInitialized,
    BufferTargetOccupied(BufferTarget),
    UniformBufferObjectMountPointOccupied(u32),
    RegisterBufferToMultipleStore,
    TextureUninitialized,
    TextureAlreadyInitialized,
    TextureTargetOccupied(TextureUnit, TextureTarget),
    TextureInternalFormatMismatched,
    TextureInternalFormatUnsupported(TextureInternalFormat),
    TextureUploadImageFailure(Option<String>),
    RegisterTextureToMultipleStore,
    TextureSizeOverflowed { max: TextureExtent, value: TextureExtent },
    TextureUnitOverflowed { max: usize, value: usize },
    FramebufferUninitialized,
    FramebufferUnbound,
    CommonWebGLError(Option<String>),
}

} // verus!
