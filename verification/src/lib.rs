//! Placement of a model's layers across an accelerator and the host.
//!
//! A [`DeviceMapMetadata`] says how many layers the accelerator takes and how
//! many stay on the host. Resolved against the model's layer count it yields a
//! [`DeviceMapper`], which every per-layer step asks where its tensors and
//! weights belong.

pub mod context;
pub mod device;
pub mod error;
pub mod laws;
pub mod mapper;
pub mod metadata;
pub mod placement;
pub mod tensor;

pub use context::WeightContext;
pub use error::DeviceMapError;
pub use mapper::{DeviceMapper, DummyDeviceMapper, LayerDeviceMapper};
pub use metadata::DeviceMapMetadata;
