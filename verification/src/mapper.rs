//! The mapper that every per-layer step consults.
//!
//! A mapper answers three questions about a layer: where a tensor has to go
//! before the layer runs, where the layer's weights are to be materialized,
//! and which device owns the layer at all. [`LayerDeviceMapper`] answers from a
//! table with one device per layer; [`DummyDeviceMapper`] stands in when no
//! placement was asked for and leaves everything where it is.

use crate::context::{bind_device, with_device, WeightContext};
use crate::device::clone_device;
use crate::error::DeviceMapError;
use crate::placement::is_placement_table;
use crate::tensor::{resides_on, to_device};
use candle_core::{Device, Tensor};
use vstd::prelude::*;

verus! {

/// Whether a mapper with this placement may be asked to move data for `layer`:
/// with a table the layer must be one of its rows, without one every index is fine.
pub open spec fn serves(placement: Option<Seq<Device>>, layer: int) -> bool {
    placement matches Some(table) ==> 0 <= layer < table.len()
}

/// The device that owns `layer`: the layer's row where there is a table and
/// the layer is in it, and none otherwise.
pub open spec fn owner(placement: Option<Seq<Device>>, layer: int) -> Option<Device> {
    match placement {
        Some(table) => if 0 <= layer < table.len() {
            Some(table[layer])
        } else {
            None
        },
        None => None,
    }
}

/// What a transfer attempt hands back to the mapper's caller: the moved tensor,
/// or the backend's error as a [`DeviceMapError::DeviceTransfer`].
pub open spec fn transfer_result(outcome: Result<Tensor, candle_core::Error>) -> Result<
    Tensor,
    DeviceMapError,
> {
    match outcome {
        Ok(moved) => Ok(moved),
        Err(cause) => Err(DeviceMapError::DeviceTransfer(cause)),
    }
}

/// What holds of moving `input` to `target`, however the backend fares: a
/// tensor that is already there is returned as it is, a returned tensor is on
/// `target`, and the only failure is a transfer error.
pub open spec fn is_migration(input: Tensor, target: Device, result: Result<Tensor, DeviceMapError>) -> bool {
    &&& resides_on(input, target) ==> result == Ok::<Tensor, DeviceMapError>(input)
    &&& result matches Ok(moved) ==> resides_on(moved, target)
    &&& result matches Err(error) ==> error is DeviceTransfer
}

/// What a mapper with this placement returns when asked to move `input` for
/// `layer`: without a table the tensor itself, with one a migration to the
/// layer's row.
pub open spec fn migrates(
    placement: Option<Seq<Device>>,
    layer: int,
    input: Tensor,
    result: Result<Tensor, DeviceMapError>,
) -> bool {
    match placement {
        Some(table) => is_migration(input, table[layer], result),
        None => result == Ok::<Tensor, DeviceMapError>(input),
    }
}

/// The context that a mapper with this placement hands back for `layer`:
/// without a table the context itself, with one the context pointed at the
/// layer's row.
pub open spec fn binds<'a>(placement: Option<Seq<Device>>, layer: int, context: WeightContext<'a>) -> WeightContext<'a> {
    match placement {
        Some(table) => with_device(context, table[layer]),
        None => context,
    }
}

/// Turns the outcome of a transfer attempt into the mapper's own result.
pub fn settle_transfer(outcome: Result<Tensor, candle_core::Error>) -> (result: Result<Tensor, DeviceMapError>)
    ensures
        result == transfer_result(outcome),
{
    match outcome {
        Ok(moved) => Ok(moved),
        Err(cause) => Err(DeviceMapError::DeviceTransfer(cause)),
    }
}

/// The questions a per-layer step may ask, whichever mapper answers them.
pub trait DeviceMapper: Send + Sync {
    /// The device of each layer, in layer order; nothing where no placement
    /// was asked for.
    spec fn placement(&self) -> Option<Seq<Device>>;

    /// Hands back `input` on the device that owns `layer`.
    ///
    /// The input's storage is left alone; a tensor that had to move comes back
    /// under a new handle. A failed transfer is reported once and not retried.
    fn map(&self, input: Tensor, layer: usize) -> (result: Result<Tensor, DeviceMapError>)
        requires
            serves(self.placement(), layer as int),
        ensures
            migrates(self.placement(), layer as int, input, result),
    ;

    /// Hands back `varbuilder` set to materialize weights on the device that
    /// owns `layer`. Nothing is loaded or moved by this.
    fn set_device<'a>(&self, layer: usize, varbuilder: WeightContext<'a>) -> (bound: WeightContext<'a>)
        requires
            serves(self.placement(), layer as int),
        ensures
            bound == binds(self.placement(), layer as int, varbuilder),
    ;

    /// The device that owns `layer`, or nothing where the layer has no row:
    /// the caller then stays on its default device.
    fn device_for(&self, layer: usize) -> (device: Option<&Device>)
        ensures
            owner(self.placement(), layer as int) == match device {
                Some(found) => Some(*found),
                None => None,
            },
    ;
}

/// A mapper backed by a table with one device per layer.
#[derive(Debug)]
pub struct LayerDeviceMapper {
    mappings: Vec<Device>,
}

impl View for LayerDeviceMapper {
    type V = Seq<Device>;

    closed spec fn view(&self) -> Seq<Device> {
        self.mappings@
    }
}

impl LayerDeviceMapper {
    /// Every table starts with the accelerator's layers, all on one device,
    /// and ends with the host's layers.
    #[verifier::type_invariant]
    spec fn accelerator_comes_first(self) -> bool {
        is_placement_table(self.mappings@)
    }

    /// Wraps a finished table.
    pub(crate) fn from_table(mappings: Vec<Device>) -> (mapper: Self)
        requires
            is_placement_table(mappings@),
        ensures
            mapper@ == mappings@,
    {
        LayerDeviceMapper { mappings }
    }
}

impl DeviceMapper for LayerDeviceMapper {
    open spec fn placement(&self) -> Option<Seq<Device>> {
        Some(self@)
    }

    fn map(&self, input: Tensor, layer: usize) -> (result: Result<Tensor, DeviceMapError>) {
        settle_transfer(to_device(input, &self.mappings[layer]))
    }

    fn set_device<'a>(&self, layer: usize, varbuilder: WeightContext<'a>) -> (bound: WeightContext<'a>) {
        bind_device(varbuilder, clone_device(&self.mappings[layer]))
    }

    fn device_for(&self, layer: usize) -> (device: Option<&Device>) {
        if layer < self.mappings.len() {
            Some(&self.mappings[layer])
        } else {
            None
        }
    }
}

/// The mapper for a model that runs on one device: it moves nothing, binds
/// nothing and owns no layer.
#[derive(Debug)]
pub struct DummyDeviceMapper;

impl DeviceMapper for DummyDeviceMapper {
    open spec fn placement(&self) -> Option<Seq<Device>> {
        None
    }

    fn map(&self, input: Tensor, layer: usize) -> (result: Result<Tensor, DeviceMapError>) {
        Ok(input)
    }

    fn set_device<'a>(&self, layer: usize, varbuilder: WeightContext<'a>) -> (bound: WeightContext<'a>) {
        varbuilder
    }

    fn device_for(&self, layer: usize) -> (device: Option<&Device>) {
        None
    }
}

} // verus!
