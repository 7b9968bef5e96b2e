//! Verified core of a WebGL 2 rendering library: GPU enumerations and their
//! WebGL constants, memory-size arithmetic for buffers and textures, queue and
//! memory-budget bookkeeping for GPU resources, and small shader-source helpers.
pub mod renderer;
pub mod scene;
pub mod value;
pub mod utils;
