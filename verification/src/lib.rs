//! Resource-binding layer of a real-time 3D renderer.
//!
//! The crate owns every handle allocated by the graphics driver (data
//! buffers, vertex arrays, shader programs, textures, framebuffers) and
//! tracks how those handles are bound and released.  The driver itself is
//! modelled by an explicit [`driver::Driver`] capability object that every
//! wrapper method takes by reference, so the bind/use/unbind discipline is
//! visible at each call site and checkable without a windowing system.
pub mod buffer;
pub mod data;
pub mod debug;
pub mod driver;
pub mod frame_buffer;
pub mod input;
pub mod layout;
pub mod resources;
pub mod shader;
pub mod texture;
pub mod time;
pub mod viewport;
