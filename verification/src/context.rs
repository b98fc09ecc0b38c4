//! The weight-loading context that a layer's weights are materialized through.

use candle_core::Device;
use vstd::prelude::*;

verus! {

/// A `candle_nn::VarBuilder`, held as an opaque value.
///
/// The builder's backend is a trait object of `candle_nn`, which the verifier
/// cannot be told about, so the builder is kept behind this holder. Callers
/// wrap a builder with `WeightContext(builder)` and take it out again with `.0`.
#[verifier::external_body]
pub struct WeightContext<'a>(pub candle_nn::VarBuilder<'a>);

/// What `candle_nn::VarBuilder::set_device` returns for `context` and
/// `device`: the same builder (backend, dtype and path), with `device` as the
/// place where it materializes the weights it is asked for from then on.
pub uninterp spec fn with_device(context: WeightContext<'_>, device: Device) -> WeightContext<'_>;

/// Points `context` at `device` with `candle_nn::VarBuilder::set_device`.
///
/// Trusted: the result is what that call returns. Nothing is transferred or
/// loaded by it.
#[verifier::external_body]
pub(crate) fn bind_device<'a>(context: WeightContext<'a>, device: Device) -> (bound: WeightContext<'a>)
    ensures
        bound == with_device(context, device),
{
    WeightContext(context.0.set_device(device))
}

} // verus!
