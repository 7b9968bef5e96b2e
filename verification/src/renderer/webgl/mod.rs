pub mod a;
pub mod attribute;
pub mod binding;
pub mod blit;
pub mod buffer;
pub mod buffer_queue;
pub mod buffer_state;
pub mod capture;
pub mod client_wait;
pub mod constants;
pub mod conversion;
pub mod draw;
pub mod error;
pub mod matrix;
pub mod program;
pub mod program_cache;
pub mod sizing;
pub mod store;
pub mod texture;
pub mod texture_state;
pub mod texture_upload;
pub mod uniform;
