//! Devices that forward messages into an account.

use vstd::prelude::*;

verus! {

/// Body of a request that registers a device.
#[derive(Debug)]
pub struct RegisterPayload {
    pub device_name: String,
}

} // verus!
