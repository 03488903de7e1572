//! The values that a fetcher takes and hands back.

use vstd::prelude::*;

verus! {

/// A device model identifier, as carried in a pairing advertisement.
///
/// It is a lookup key only: nothing here interprets its value.
#[derive(Clone, Copy, Debug, PartialEq, Eq, Structural)]
pub struct ModelId(pub u32);

/// What a fetcher knows about a device model, in mathematical form.
pub ghost struct DeviceInfoView {
    pub name: Seq<char>,
}

/// Descriptive information about a device model.
#[derive(Debug)]
pub struct DeviceInfo {
    /// The name shown to the user.
    pub name: String,
}

impl View for DeviceInfo {
    type V = DeviceInfoView;

    open spec fn view(&self) -> DeviceInfoView {
        DeviceInfoView { name: self.name@ }
    }
}

impl DeviceInfo {
    /// Information about a device model that goes by `name`.
    pub fn new(name: String) -> (r: DeviceInfo)
        ensures
            r.name == name,
    {
        DeviceInfo { name }
    }
}

impl PartialEq for DeviceInfo {
    fn eq(&self, other: &DeviceInfo) -> (r: bool)
        ensures
            r == (self@ == other@),
    {
        self.name == other.name
    }
}

impl vstd::std_specs::cmp::PartialEqSpecImpl for DeviceInfo {
    open spec fn obeys_eq_spec() -> bool {
        true
    }

    open spec fn eq_spec(&self, other: &DeviceInfo) -> bool {
        self@ == other@
    }
}

impl Eq for DeviceInfo {
}

impl Clone for DeviceInfo {
    /// A copy that shares nothing with `self`.
    fn clone(&self) -> (r: DeviceInfo)
        ensures
            r == *self,
    {
        DeviceInfo { name: self.name.clone() }
    }
}

} // verus!
