//! What holds of every placement and of every mapper built from one.
//!
//! Each statement here is proved from the contracts of the functions it
//! speaks of, over the same models that those contracts use.

use crate::context::WeightContext;
use crate::device::device_is_cpu;
use crate::error::DeviceMapError;
use crate::mapper::{binds, migrates, owner, serves};
use crate::placement::{resolves, PlacementRequest};
use crate::tensor::resides_on;
use candle_core::{Device, Tensor};
use vstd::prelude::*;

verus! {

/// A request that names only the accelerator's share, no larger than the
/// model, always resolves: the table has one row per layer, the first
/// `accelerator_layers` rows are the accelerator and all rows after them are
/// the host.
pub proof fn lemma_default_split_covers_model(
    total: nat,
    accelerator_layers: nat,
    accelerator: Device,
    outcome: Result<Option<Seq<Device>>, DeviceMapError>,
)
    requires
        accelerator_layers <= total,
        resolves(
            PlacementRequest { accelerator_layers: Some(accelerator_layers), host_layers: None },
            total,
            accelerator,
            outcome,
        ),
    ensures
        outcome matches Ok(Some(table)) && {
            &&& table.len() == total
            &&& forall|layer: int|
                0 <= layer < accelerator_layers ==> #[trigger] table[layer] == accelerator
            &&& forall|layer: int|
                accelerator_layers <= layer < total ==> device_is_cpu(#[trigger] table[layer])
        },
{
}

/// A request whose two shares do not add up to the model's layers never
/// resolves: the outcome is a configuration error that names the two shares
/// and the model's layer count, and there is no table.
pub proof fn lemma_mismatch_is_rejected(
    total: nat,
    accelerator_layers: nat,
    host_layers: nat,
    accelerator: Device,
    outcome: Result<Option<Seq<Device>>, DeviceMapError>,
)
    requires
        accelerator_layers + host_layers != total,
        resolves(
            PlacementRequest {
                accelerator_layers: Some(accelerator_layers),
                host_layers: Some(host_layers),
            },
            total,
            accelerator,
            outcome,
        ),
    ensures
        outcome matches Err(DeviceMapError::Configuration { device_layers, host_layers: hosted, model_layers })
            && device_layers == accelerator_layers && hosted == host_layers && model_layers == total,
{
}

/// A request that names only the accelerator's share, larger than the model,
/// never resolves either: nothing is left for the host, and the accelerator's
/// share alone is already too much.
pub proof fn lemma_oversized_share_is_rejected(
    total: nat,
    accelerator_layers: nat,
    accelerator: Device,
    outcome: Result<Option<Seq<Device>>, DeviceMapError>,
)
    requires
        accelerator_layers > total,
        resolves(
            PlacementRequest { accelerator_layers: Some(accelerator_layers), host_layers: None },
            total,
            accelerator,
            outcome,
        ),
    ensures
        outcome matches Err(DeviceMapError::Configuration { device_layers, host_layers, model_layers })
            && device_layers == accelerator_layers && host_layers == 0 && model_layers == total,
{
}

/// Without a request for a mapping, the mapper changes nothing: every layer
/// index is served, no layer has an owner, a tensor comes back as it went in,
/// and so does a weight context.
pub proof fn lemma_no_request_changes_nothing(
    request: PlacementRequest,
    total: nat,
    accelerator: Device,
    outcome: Result<Option<Seq<Device>>, DeviceMapError>,
    layer: int,
    input: Tensor,
    result: Result<Tensor, DeviceMapError>,
    context: WeightContext<'_>,
)
    requires
        request.accelerator_layers is None,
        resolves(request, total, accelerator, outcome),
        outcome matches Ok(placement) ==> migrates(placement, layer, input, result),
    ensures
        outcome matches Ok(placement) && {
            &&& serves(placement, layer)
            &&& owner(placement, layer) is None
            &&& result == Ok::<Tensor, DeviceMapError>(input)
            &&& binds(placement, layer, context) == context
        },
{
}

/// A resolved table owns exactly the model's layers: a layer below the
/// accelerator's share belongs to the accelerator, a layer from there up to the
/// model's layer count belongs to the host, and an index outside the model has
/// no owner.
pub proof fn lemma_owner_of_each_layer(
    request: PlacementRequest,
    total: nat,
    accelerator: Device,
    outcome: Result<Option<Seq<Device>>, DeviceMapError>,
    layer: int,
)
    requires
        request.accelerator_layers is Some,
        request.adds_up(total),
        resolves(request, total, accelerator, outcome),
    ensures
        outcome matches Ok(placement) && {
            &&& serves(placement, layer) <==> 0 <= layer < total
            &&& 0 <= layer < request.accelerator_share() ==> owner(placement, layer) == Some(
                accelerator,
            )
            &&& request.accelerator_share() <= layer < total ==> (owner(placement, layer) matches Some(
                device,
            ) && device_is_cpu(device))
            &&& layer < 0 || layer >= total ==> owner(placement, layer) is None
        },
{
}

/// Moving a tensor for a layer a second time changes nothing: once a move has
/// succeeded, moving its result for the same layer returns that result. A
/// tensor that is already on the layer's device comes back as it is the first
/// time round.
pub proof fn lemma_second_move_changes_nothing(
    placement: Option<Seq<Device>>,
    layer: int,
    input: Tensor,
    first: Result<Tensor, DeviceMapError>,
    second: Result<Tensor, DeviceMapError>,
)
    requires
        serves(placement, layer),
        migrates(placement, layer, input, first),
        first matches Ok(moved) && migrates(placement, layer, moved, second),
    ensures
        second == first,
        owner(placement, layer) matches Some(target) && resides_on(input, target) ==> first == Ok::<
            Tensor,
            DeviceMapError,
        >(input),
{
}

} // verus!
