//! Compute devices, as `candle_core` hands them out.
//!
//! A device is carried through as an opaque value: it is cloned, stored and
//! handed back, and never looked into.

use candle_core::Device;
use vstd::prelude::*;

verus! {

/// `candle_core::Device`, opaque to the verifier.
#[verifier::external_type_specification]
#[verifier::external_body]
pub struct ExDevice(candle_core::Device);

/// What `candle_core::Device::is_cpu` returns for `device`: whether it is the
/// host variant, `Device::Cpu`.
pub uninterp spec fn device_is_cpu(device: Device) -> bool;

/// What `candle_core::Device::same_device` returns for the two handles: whether
/// they name one device (both the host, or one accelerator instance).
pub uninterp spec fn same_device(left: Device, right: Device) -> bool;

/// The host device, `candle_core::Device::Cpu`.
///
/// Trusted: the value built here is the `Cpu` variant, which is the one that
/// `Device::is_cpu` answers `true` for.
#[verifier::external_body]
pub(crate) fn host_device() -> (host: Device)
    ensures
        device_is_cpu(host),
{
    Device::Cpu
}

/// A second handle to `device`, by `candle_core::Device`'s `Clone`.
///
/// Trusted: the clone is the same variant with the same backend handle, so it
/// equals the value it was made from.
#[verifier::external_body]
pub(crate) fn clone_device(device: &Device) -> (copy: Device)
    ensures
        copy == *device,
{
    device.clone()
}

} // verus!
