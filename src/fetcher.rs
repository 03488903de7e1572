//! The capability of resolving a model identifier to device information.

use vstd::prelude::*;

use crate::device::{DeviceInfo, DeviceInfoView, ModelId};

verus! {

#[verifier::external_type_specification]
#[verifier::external_body]
pub struct ExError(anyhow::Error);

/// A source of device information: a network service, a bundled dataset, a
/// cache, or a stand-in for tests.
///
/// A lookup either resolves the identifier or fails with an error that says
/// only that it could not be resolved.
pub trait FpFetcher {
    fn get_device_info_from_model_id(&self, model_id: &ModelId) -> Result<
        DeviceInfo,
        anyhow::Error,
    >;
}

/// The outcome of a lookup: the information found, or `None` for a failure.
pub open spec fn outcome_of(r: Result<DeviceInfo, anyhow::Error>) -> Option<DeviceInfoView> {
    match r {
        Ok(d) => Some(d@),
        Err(_) => None,
    }
}

} // verus!
