//! A fetcher whose every lookup has one outcome, fixed when it is built.

use vstd::prelude::*;

use crate::device::{DeviceInfo, DeviceInfoView, ModelId};
use crate::fetcher::{outcome_of, FpFetcher};

verus! {

/// The message of every error that a failing [`FpFetcherMock`] returns.
pub const INDUCED_FAILURE_MESSAGE: &'static str = "intentional mock error";

/// Relies on anyhow::Error::msg: builds a fresh error that carries `message`.
#[verifier::external_body]
fn error_with_message(message: &'static str) -> anyhow::Error {
    anyhow::Error::msg(message)
}

/// A fetcher for tests: it answers every lookup with the outcome it was built
/// with, whatever the identifier.
pub struct FpFetcherMock {
    get_device_info_from_model_id: Result<DeviceInfo, anyhow::Error>,
}

impl FpFetcherMock {
    /// The outcome that this fetcher was built with: the information it hands
    /// out, or `None` where it fails.
    pub closed spec fn configured(&self) -> Option<DeviceInfoView> {
        outcome_of(self.get_device_info_from_model_id)
    }

    /// The outcome of a lookup of `model_id`: the identifier is not consulted.
    pub open spec fn resolution(&self, model_id: ModelId) -> Option<DeviceInfoView> {
        self.configured()
    }

    /// A fetcher that answers every lookup with `get_device_info_from_model_id`.
    /// Any outcome is accepted.
    pub fn new(get_device_info_from_model_id: Result<DeviceInfo, anyhow::Error>) -> (r: Self)
        ensures
            r.configured() == outcome_of(get_device_info_from_model_id),
    {
        FpFetcherMock { get_device_info_from_model_id }
    }
}

impl FpFetcher for FpFetcherMock {
    /// Hands out a copy of the configured information, or, where this fetcher
    /// was built to fail, a new error whose message is
    /// [`INDUCED_FAILURE_MESSAGE`] in place of the configured one.
    fn get_device_info_from_model_id(&self, model_id: &ModelId) -> (r: Result<
        DeviceInfo,
        anyhow::Error,
    >)
        ensures
            outcome_of(r) == self.resolution(*model_id),
    {
        match &self.get_device_info_from_model_id {
            Ok(result) => Ok(result.clone()),
            Err(_) => Err(error_with_message(INDUCED_FAILURE_MESSAGE)),
        }
    }
}

/// A fetcher built with the information `d` resolves any two identifiers to
/// that same information.
pub proof fn lemma_success_for_every_identifier(
    f: FpFetcherMock,
    d: DeviceInfo,
    m1: ModelId,
    m2: ModelId,
)
    requires
        f.configured() == Some(d@),
    ensures
        f.resolution(m1) == Some(d@),
        f.resolution(m2) == Some(d@),
{
}

/// Repeated lookups on a fetcher built with the information `d`, of any
/// identifiers (the same one or not), all resolve to `d`.
pub proof fn lemma_repeated_lookups(f: FpFetcherMock, d: DeviceInfo, lookups: Seq<ModelId>)
    requires
        f.configured() == Some(d@),
    ensures
        forall|i: int| 0 <= i < lookups.len() ==> f.resolution(#[trigger] lookups[i]) == Some(d@),
{
}

/// A fetcher built with a failure fails on every identifier.
pub proof fn lemma_failure_for_every_identifier(f: FpFetcherMock, m: ModelId)
    requires
        f.configured() is None,
    ensures
        f.resolution(m) is None,
{
}

/// The outcome of a lookup does not depend on the identifier looked up.
pub proof fn lemma_identifier_independence(f: FpFetcherMock, m1: ModelId, m2: ModelId)
    ensures
        f.resolution(m1) == f.resolution(m2),
{
}

} // verus!
