//! The identity a device presents to its peers.
use vstd::prelude::*;

verus! {

/// A device's identity: its id, its name, and its public key once it has one.
#[derive(Clone, Debug)]
pub struct Identity {
    pub device_id: String,
    pub device_name: String,
    pub public_key: Option<String>,
}

impl Identity {
    /// The identity of a device that has no key yet.
    pub fn new(device_id: String, device_name: String) -> (i: Self)
        ensures
            i.device_id == device_id,
            i.device_name == device_name,
            i.public_key is None,
    {
        Identity { device_id, device_name, public_key: None }
    }
}

} // verus!
