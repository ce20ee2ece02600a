pub mod buffer;
pub mod descriptor;
pub mod error;
pub mod framework;
pub mod kernel;
pub mod program;
pub mod shader;
pub mod usage;

pub use buffer::{BufferDescriptor, BufferUsages, GpuBuffer, MapMode, MapRequest};
pub use descriptor::{BindGroupEntry, BindGroupLayoutEntry, BindingSlot, DescriptorSet, ShaderStage};
pub use error::{BufferError, BufferResult};
pub use framework::{
    AdapterSearch, Backends, DeviceRequest, DeviceSetup, Framework, Poller, PollerAction,
    PowerPreference, StartupError, POLL_INTERVAL_MILLIS,
};
pub use kernel::{BuildStep, Command, Kernel};
pub use program::Program;
pub use shader::Shader;
pub use usage::GpuBufferUsage;
