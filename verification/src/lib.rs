//! A minimal GPU compute-dispatch engine: a handle-based table of live
//! buffers and kernels, a staging protocol that relays bytes between the
//! host and the device, kernel bytecode validation, and grid-dispatch
//! argument checking.

pub mod engine;
pub mod spirv;
pub mod table;

pub use engine::BoundKernel;
pub use engine::Buffer;
pub use engine::Engine;
pub use engine::EngineError;
pub use engine::Shader;
pub use engine::padded_push_constants;
pub use engine::StorageBuffer;
pub use engine::MAX_PUSH_CONSTANT_BYTES;
pub use table::Handle;
pub use table::ResourceTable;
pub use table::Slot;
