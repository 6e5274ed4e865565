//! Kernel parameters that the plugin sets, as requests to write one value.

use vstd::prelude::*;
use crate::addr::Family;
use crate::error::{Error, ErrorKind};

verus! {

/// A request to set one kernel parameter: its key, written with slashes, and
/// the value to write.
#[derive(Clone, Debug)]
pub struct SysctlWrite {
    pub key: String,
    pub value: String,
}

impl View for SysctlWrite {
    type V = (Seq<char>, Seq<char>);

    open spec fn view(&self) -> (Seq<char>, Seq<char>) {
        (self.key@, self.value@)
    }
}

/// The request that turns on forwarding of IPv4 packets.
pub fn enable_ipv4_forward() -> (w: SysctlWrite)
    ensures
        w@ == ("net/ipv4/ip_forward"@, "1"@),
{
    SysctlWrite { key: String::from_str("net/ipv4/ip_forward"), value: String::from_str("1") }
}

/// The request that turns on forwarding of IPv6 packets.
pub fn enable_ipv6_forward() -> (w: SysctlWrite)
    ensures
        w@ == ("net/ipv6/conf/all/forwarding"@, "1"@),
{
    SysctlWrite {
        key: String::from_str("net/ipv6/conf/all/forwarding"),
        value: String::from_str("1"),
    }
}

/// The request that turns on forwarding for a family, or a `Config` error
/// for a family that has none.
pub fn enable_ip_forward(family: Family) -> (r: Result<SysctlWrite, Error>)
    ensures
        match family {
            Family::V4 => r is Ok && r->Ok_0@ == ("net/ipv4/ip_forward"@, "1"@),
            Family::V6 => r is Ok && r->Ok_0@ == ("net/ipv6/conf/all/forwarding"@, "1"@),
            Family::Unspec => r is Err && r->Err_0.kind == ErrorKind::Config,
        },
{
    match family {
        Family::V4 => Ok(enable_ipv4_forward()),
        Family::V6 => Ok(enable_ipv6_forward()),
        Family::Unspec => Err(Error::new(ErrorKind::Config, "not support family: 0")),
    }
}

/// The request that lets the device `name` accept router advertisements, so
/// that the routes learnt from them belong to the device.
pub fn accept_ra(name: &str) -> (w: SysctlWrite)
    ensures
        w@ == ("net/ipv6/conf/"@ + name@ + "/accept_ra"@, "1"@),
{
    let mut key = String::from_str("net/ipv6/conf/");
    key.append(name);
    key.append("/accept_ra");
    SysctlWrite { key, value: String::from_str("1") }
}

} // verus!
