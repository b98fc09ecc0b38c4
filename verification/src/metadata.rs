//! The requested split of a model's layers between accelerator and host.

use crate::error::DeviceMapError;
use crate::mapper::{DeviceMapper, DummyDeviceMapper, LayerDeviceMapper};
use crate::placement::{resolves, split_table, splits, PlacementRequest};
use candle_core::Device;
use vstd::prelude::*;

verus! {

/// A request for how many layers live on the accelerator and how many on the host.
///
/// No accelerator count means that no mapping was asked for. A missing host
/// count stands for "whatever the accelerator does not take".
#[derive(Debug)]
pub struct DeviceMapMetadata {
    device_layers: Option<usize>,
    host_layers: Option<usize>,
}

/// A layer count of the request as a plain number.
pub open spec fn layer_count(layers: Option<usize>) -> Option<nat> {
    match layers {
        Some(count) => Some(count as nat),
        None => None,
    }
}

impl View for DeviceMapMetadata {
    type V = PlacementRequest;

    closed spec fn view(&self) -> PlacementRequest {
        PlacementRequest {
            accelerator_layers: layer_count(self.device_layers),
            host_layers: layer_count(self.host_layers),
        }
    }
}

impl Default for DeviceMapMetadata {
    /// The request for no mapping.
    fn default() -> (metadata: Self)
        ensures
            metadata@ == (PlacementRequest { accelerator_layers: None, host_layers: None }),
    {
        Self::dummy()
    }
}

/// What a resolved request amounts to: the mapper's placement, or the error.
pub open spec fn placement_of(result: Result<Box<dyn DeviceMapper>, DeviceMapError>) -> Result<
    Option<Seq<Device>>,
    DeviceMapError,
> {
    match result {
        Ok(mapper) => Ok(mapper.placement()),
        Err(error) => Err(error),
    }
}

impl DeviceMapMetadata {
    /// A request with both counts as given; either may be left out.
    pub fn new(device_layers: Option<usize>, host_layers: Option<usize>) -> (metadata: Self)
        ensures
            metadata@ == (PlacementRequest {
                accelerator_layers: layer_count(device_layers),
                host_layers: layer_count(host_layers),
            }),
    {
        Self { device_layers, host_layers }
    }

    /// The number of layers asked for on the accelerator, if a mapping is wanted.
    pub fn device_layers(&self) -> (layers: Option<usize>)
        ensures
            layer_count(layers) == self@.accelerator_layers,
    {
        self.device_layers
    }

    /// The number of layers asked for on the host, if it was given.
    pub fn host_layers(&self) -> (layers: Option<usize>)
        ensures
            layer_count(layers) == self@.host_layers,
    {
        self.host_layers
    }

    /// Asks for `device_layers` layers on the accelerator and the rest on the host.
    pub fn from_num_device_layers(device_layers: usize) -> (metadata: Self)
        ensures
            metadata@ == (PlacementRequest {
                accelerator_layers: Some(device_layers as nat),
                host_layers: None,
            }),
    {
        Self { device_layers: Some(device_layers), host_layers: None }
    }

    /// Asks for no mapping at all.
    pub fn dummy() -> (metadata: Self)
        ensures
            metadata@ == (PlacementRequest { accelerator_layers: None, host_layers: None }),
    {
        Self { device_layers: None, host_layers: None }
    }

    /// Whether this request asks for no mapping.
    pub fn is_dummy(&self) -> (dummy: bool)
        ensures
            dummy == (self@.accelerator_layers is None),
    {
        self.device_layers.is_none()
    }

    /// Validates the request against a model of `model_layers` layers.
    ///
    /// Without an accelerator count there is nothing to split. Otherwise the
    /// result is the pair of the accelerator's and the host's share, where a
    /// missing host count stands for what the accelerator leaves over, and the
    /// two must add up to `model_layers`.
    pub fn layer_split(&self, model_layers: usize) -> (outcome: Result<Option<(usize, usize)>, DeviceMapError>)
        ensures
            splits(self@, model_layers as nat, outcome),
    {
        let n_device_layers = match self.device_layers {
            Some(layers) => layers,
            None => {
                return Ok(None);
            },
        };
        let n_host_layers = self.host_layers.unwrap_or(model_layers.saturating_sub(n_device_layers));
        if n_device_layers.checked_add(n_host_layers) != Some(model_layers) {
            return Err(
                DeviceMapError::Configuration {
                    device_layers: n_device_layers,
                    host_layers: n_host_layers,
                    model_layers,
                },
            );
        }
        Ok(Some((n_device_layers, n_host_layers)))
    }

    /// Resolves the request against a model of `model_layers` layers, with
    /// `device` as the accelerator.
    ///
    /// Without an accelerator count the mapper is the one that leaves
    /// everything in place. Otherwise the accelerator's and the host's layers
    /// must add up to `model_layers`; the mapper then places the accelerator's
    /// layers first and the host's layers after them.
    pub fn into_mapper(&self, model_layers: usize, device: &Device) -> (result: Result<Box<dyn DeviceMapper>, DeviceMapError>)
        ensures
            resolves(self@, model_layers as nat, *device, placement_of(result)),
    {
        let (n_device_layers, n_host_layers) = match self.layer_split(model_layers) {
            Ok(Some(shares)) => shares,
            Ok(None) => {
                let mapper: Box<dyn DeviceMapper> = Box::new(DummyDeviceMapper);
                let result = Result::<_, DeviceMapError>::Ok(mapper);
                return result;
            },
            Err(error) => {
                return Err(error);
            },
        };
        let table = split_table(device, n_device_layers, n_host_layers);
        let mapper: Box<dyn DeviceMapper> = Box::new(LayerDeviceMapper::from_table(table));
        let result = Result::<_, DeviceMapError>::Ok(mapper);
        result
    }
}

} // verus!
