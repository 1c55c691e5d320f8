use vstd::prelude::*;

verus! {

/// The device identifier a client sends with each request.
#[derive(Debug)]
pub struct DeviceId(pub String);

/// The client's IP address, as text.
#[derive(Debug)]
pub struct IpAddress(pub String);

} // verus!
