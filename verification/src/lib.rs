//! Resource lifecycle and frame synchronisation for a small real-time scene
//! viewer: capability negotiation, memory bookkeeping, command recording
//! order and the steady-state frame protocol, all stated over plain values
//! so that the code driving the graphics device only has to carry out the
//! actions decided here.

pub mod allocator;
pub mod buffer;
pub mod command_pool;
pub mod debug_messenger;
pub mod device;
pub mod error;
pub mod fence;
pub mod format;
pub mod frame;
pub mod frame_buffer;
pub mod graphics_pipeline;
pub mod image;
pub mod image_view;
pub mod instance;
pub mod mesh;
pub mod node;
pub mod pipeline;
pub mod primitive;
pub mod queue;
pub mod registry;
pub mod release;
pub mod scene;
pub mod semaphore;
pub mod shader_module;
pub mod surface;
pub mod swapchain;
pub mod timeline_semaphore;
pub mod upload;
pub mod version;
pub mod viewer;
