//! Tensors and their transfer between devices, as `candle_core` performs it.

use crate::device::same_device;
use candle_core::{Device, Tensor};
use vstd::prelude::*;

verus! {

/// `candle_core::Tensor`, opaque to the verifier.
#[verifier::external_type_specification]
#[verifier::external_body]
pub struct ExTensor(candle_core::Tensor);

/// `candle_core::Error`, opaque to the verifier.
#[verifier::external_type_specification]
#[verifier::external_body]
pub struct ExTransferError(candle_core::Error);

/// What `candle_core::Tensor::device` returns for `tensor`: the device that
/// holds its storage.
pub uninterp spec fn tensor_device(tensor: Tensor) -> Device;

/// Whether `tensor` already lives on the device that `device` names.
pub open spec fn resides_on(tensor: Tensor, device: Device) -> bool {
    same_device(tensor_device(tensor), device)
}

/// Moves `tensor` to `device` with `candle_core::Tensor::to_device`.
///
/// Trusted, of every outcome: a tensor that is already on `device` comes back
/// as it is (a shallow copy of the same handle), and a tensor that comes back
/// at all is on `device`. Whether a real transfer succeeds is up to the
/// backend, so nothing is said of when the call fails.
#[verifier::external_body]
pub(crate) fn to_device(tensor: Tensor, device: &Device) -> (outcome: Result<Tensor, candle_core::Error>)
    ensures
        same_device(tensor_device(tensor), *device) ==> outcome is Ok && outcome->Ok_0 == tensor,
        outcome matches Ok(moved) ==> same_device(tensor_device(moved), *device),
{
    tensor.to_device(device)
}

} // verus!
