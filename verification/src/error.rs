//! What can go wrong when a placement is resolved or applied.

use vstd::prelude::*;

verus! {

/// The failures of placing layers and of moving tensors to their layer's device.
#[derive(Debug)]
pub enum DeviceMapError {
    /// The accelerator and host layer counts do not add up to the model's
    /// layer count. All three numbers are kept for the report.
    Configuration { device_layers: usize, host_layers: usize, model_layers: usize },
    /// A tensor could not be moved to the device of its layer; the backend's
    /// own error says why.
    DeviceTransfer(candle_core::Error),
}

} // verus!
