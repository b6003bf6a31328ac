//! Helper mutations that manage host routes to VM subnets.
//!
//! Route management goes through the PF_ROUTE routing socket, which only
//! macOS has; on this platform every mutation fails with a clear error.

use vstd::prelude::*;

verus! {

/// An IPv4 subnet: network address and prefix length.
#[derive(Debug, Clone, Copy, PartialEq, Eq, Structural)]
pub struct Subnet {
    /// Network address, most significant octet first.
    pub network: u32,
    /// Prefix length.
    pub prefix: u8,
}

/// A bridge interface name.
#[derive(Debug, Clone)]
pub struct BridgeIface {
    /// Interface name.
    pub name: String,
}

/// Errors of the helper's mutations.
#[derive(Debug, Clone)]
pub enum HelperError {
    /// Any other failure, with its message.
    Other(String),
}

/// The refusal of route management on this platform.
pub open spec fn route_unsupported(r: Result<(), HelperError>) -> bool {
    r matches Err(HelperError::Other(m)) && m@ == "route management requires macOS"@
}

/// Adds a route for `subnet` via `iface`.
pub fn add(subnet: &Subnet, iface: &BridgeIface) -> (r: Result<(), HelperError>)
    ensures
        route_unsupported(r),
{
    Err(HelperError::Other("route management requires macOS".to_owned()))
}

/// Removes the route for `subnet`.
pub fn remove(subnet: &Subnet) -> (r: Result<(), HelperError>)
    ensures
        route_unsupported(r),
{
    Err(HelperError::Other("route management requires macOS".to_owned()))
}

} // verus!
