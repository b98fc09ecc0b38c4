//! The placement policy: which layers go to the accelerator and which to the host.
//!
//! The accelerator's layers always come first and the host's layers last, so
//! that a pass over the layers in order crosses from one device to the other
//! at most once.

use crate::device::{clone_device, device_is_cpu, host_device};
use crate::error::DeviceMapError;
use candle_core::Device;
use vstd::prelude::*;

verus! {

/// A placement request as plain numbers.
pub struct PlacementRequest {
    /// Layers asked for on the accelerator; none means that no mapping is wanted.
    pub accelerator_layers: Option<nat>,
    /// Layers asked for on the host; none means the rest.
    pub host_layers: Option<nat>,
}

impl PlacementRequest {
    /// The number of layers that the accelerator is to take.
    pub open spec fn accelerator_share(self) -> nat {
        match self.accelerator_layers {
            Some(layers) => layers,
            None => 0,
        }
    }

    /// The number of layers left to the host in a model of `total` layers:
    /// the number asked for, or else what the accelerator leaves over.
    pub open spec fn host_share(self, total: nat) -> nat {
        match self.host_layers {
            Some(layers) => layers,
            None => if self.accelerator_share() <= total {
                (total - self.accelerator_share()) as nat
            } else {
                0
            },
        }
    }

    /// Whether the two shares make up exactly the model's `total` layers.
    pub open spec fn adds_up(self, total: nat) -> bool {
        self.accelerator_share() + self.host_share(total) == total
    }
}

/// What validating `request` against a model of `total` layers comes to.
///
/// Without an accelerator count there is nothing to split. With one, the
/// shares have to add up to `total`: then they are the outcome, accelerator
/// first; otherwise the outcome is a configuration error that carries the two
/// shares and `total`.
pub open spec fn splits(
    request: PlacementRequest,
    total: nat,
    outcome: Result<Option<(usize, usize)>, DeviceMapError>,
) -> bool {
    match request.accelerator_layers {
        None => outcome == Ok::<Option<(usize, usize)>, DeviceMapError>(None),
        Some(accelerator_layers) => if request.adds_up(total) {
            &&& outcome matches Ok(Some((on_accelerator, on_host)))
            &&& on_accelerator == accelerator_layers
            &&& on_host == request.host_share(total)
        } else {
            &&& outcome matches Err(
                DeviceMapError::Configuration { device_layers, host_layers, model_layers },
            )
            &&& device_layers == accelerator_layers
            &&& host_layers == request.host_share(total)
            &&& model_layers == total
        },
    }
}

/// Whether `table` is the placement of `accelerator_layers` layers on
/// `accelerator` followed by `host_layers` layers on the host.
pub open spec fn is_split_table(
    table: Seq<Device>,
    accelerator: Device,
    accelerator_layers: nat,
    host_layers: nat,
) -> bool {
    &&& table.len() == accelerator_layers + host_layers
    &&& forall|layer: int| 0 <= layer < accelerator_layers ==> #[trigger] table[layer] == accelerator
    &&& forall|layer: int|
        accelerator_layers <= layer < table.len() ==> device_is_cpu(#[trigger] table[layer])
}

/// Whether `table` is such a split for some accelerator and some pair of shares.
pub open spec fn is_placement_table(table: Seq<Device>) -> bool {
    exists|accelerator: Device, accelerator_layers: nat, host_layers: nat|
        is_split_table(table, accelerator, accelerator_layers, host_layers)
}

/// What resolving `request` against a model of `total` layers comes to, with
/// `accelerator` as the device for the accelerator's layers.
///
/// Without an accelerator count there is no table. With one, the shares have
/// to add up to `total`: then the table is the split, accelerator first;
/// otherwise the outcome is a configuration error that carries the two shares
/// and `total`.
pub open spec fn resolves(
    request: PlacementRequest,
    total: nat,
    accelerator: Device,
    outcome: Result<Option<Seq<Device>>, DeviceMapError>,
) -> bool {
    match request.accelerator_layers {
        None => outcome == Ok::<Option<Seq<Device>>, DeviceMapError>(None),
        Some(accelerator_layers) => if request.adds_up(total) {
            &&& outcome matches Ok(Some(table))
            &&& is_split_table(table, accelerator, accelerator_layers, request.host_share(total))
        } else {
            &&& outcome matches Err(
                DeviceMapError::Configuration { device_layers, host_layers, model_layers },
            )
            &&& device_layers == accelerator_layers
            &&& host_layers == request.host_share(total)
            &&& model_layers == total
        },
    }
}

/// Builds the table of `device_layers` layers on `device` followed by
/// `host_layers` layers on the host.
pub(crate) fn split_table(device: &Device, device_layers: usize, host_layers: usize) -> (table: Vec<Device>)
    ensures
        is_split_table(table@, *device, device_layers as nat, host_layers as nat),
{
    let mut table: Vec<Device> = Vec::new();
    let mut placed: usize = 0;
    while placed < device_layers
        invariant
            placed <= device_layers,
            table@.len() == placed,
            forall|layer: int| 0 <= layer < placed ==> #[trigger] table@[layer] == *device,
        decreases device_layers - placed,
    {
        table.push(clone_device(device));
        placed = placed + 1;
    }
    let mut hosted: usize = 0;
    while hosted < host_layers
        invariant
            hosted <= host_layers,
            table@.len() == device_layers + hosted,
            forall|layer: int| 0 <= layer < device_layers ==> #[trigger] table@[layer] == *device,
            forall|layer: int|
                device_layers <= layer < table@.len() ==> device_is_cpu(#[trigger] table@[layer]),
        decreases host_layers - hosted,
    {
        table.push(host_device());
        hosted = hosted + 1;
    }
    table
}

} // verus!
