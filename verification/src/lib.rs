pub mod math;
pub mod mod_inverse;
pub mod linear_log_binning;
pub mod cstr;
pub mod bitflags;
pub mod vulkan;
pub mod vulkan_external;
pub mod blake3_platform;
pub mod manual_arc;
pub mod slice;
pub mod svg;
pub mod raw_vec;
pub mod font;
pub mod sdl2;
pub mod sqlite;
pub mod upcast;
