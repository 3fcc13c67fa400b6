//! Settings of a single proxy.
use vstd::prelude::*;

verus! {

/// Which IP versions a proxy connects over.
#[derive(Clone, Copy, Debug, PartialEq, Eq, Structural)]
pub enum IpVersion {
    Dual,
    Ipv4,
    Ipv6,
    Ipv4Prefer,
    Ipv6Prefer,
}

impl Default for IpVersion {
    /// Both versions.
    fn default() -> (r: IpVersion)
        ensures
            r == IpVersion::Dual,
    {
        IpVersion::Dual
    }
}

/// The settings shared by every kind of proxy.
#[derive(Clone, Debug)]
pub struct ProxyCommon {
    pub name: String,
    pub server: Option<String>,
    pub port: Option<u16>,
    pub ip_version: Option<IpVersion>,
    pub udp: Option<bool>,
    pub interface_name: Option<String>,
    pub routing_mark: Option<u32>,
}

} // verus!
