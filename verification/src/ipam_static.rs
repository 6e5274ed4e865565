//! The static address plugin: it hands back the addresses, routes and name
//! resolution settings that its configuration lists.

use vstd::prelude::*;
use crate::error::{Error, ErrorKind};
use crate::text::str_eq;
use crate::types::{items, Dns, IPAMArgs, IPAMConfig, Ip, Route, SuccessReply};

verus! {

/// What the runtime asks for beyond the configuration.
#[derive(Clone, Debug)]
pub struct RuntimeConfig {
    pub ips: Option<Vec<String>>,
}

/// The configuration of the static address plugin.
#[derive(Clone, Debug)]
pub struct NetConf {
    pub cni_version: String,
    pub name: String,
    pub ipam: Option<IPAMConfig>,
    pub runtime: Option<RuntimeConfig>,
    pub args: Option<IPAMArgs>,
}

/// The address-management section of a configuration, or a `Config` error
/// where it is missing.
pub fn load_ipam_conf(net_config: NetConf) -> (r: Result<IPAMConfig, Error>)
    ensures
        match net_config.ipam {
            Some(ipam) => r == Ok::<IPAMConfig, Error>(ipam),
            None => r is Err && r->Err_0.kind == ErrorKind::Config,
        },
{
    match net_config.ipam {
        Some(ipam) => Ok(ipam),
        None => Err(Error::new(ErrorKind::Config, "IPAM config missing 'ipam' key")),
    }
}

/// Whether `reply` is what the static plugin answers to `ipam`.
pub open spec fn static_reply(ipam: IPAMConfig, reply: SuccessReply) -> bool {
    &&& reply.cni_version@ == "1.0.0"@
    &&& reply.interfaces@.len() == 0
    &&& reply.ips@ == items(ipam.addresses)
    &&& reply.routes@ == items(ipam.routes)
    &&& match ipam.dns {
        Some(dns) => reply.dns == dns,
        None => reply.dns.is_empty(),
    }
}

/// Answers an ADD: the configured addresses, routes and name resolution
/// settings, without any interface. A configuration without an
/// address-management section, or with one for another plugin than `static`,
/// gives a `Config` error.
pub fn cmd_add(net_config: NetConf) -> (r: Result<SuccessReply, Error>)
    ensures
        match net_config.ipam {
            Some(ipam) if ipam.plugin@ == "static"@ => r is Ok && static_reply(ipam, r->Ok_0),
            _ => r is Err && r->Err_0.kind == ErrorKind::Config,
        },
{
    let ipam = match load_ipam_conf(net_config) {
        Ok(ipam) => ipam,
        Err(e) => {
            return Err(e);
        },
    };
    if !str_eq(ipam.plugin.as_str(), "static") {
        return Err(Error::new(ErrorKind::Config, "only support static ipam"));
    }
    let ips: Vec<Ip> = match ipam.addresses {
        Some(v) => v,
        None => Vec::new(),
    };
    let routes: Vec<Route> = match ipam.routes {
        Some(v) => v,
        None => Vec::new(),
    };
    let dns: Dns = match ipam.dns {
        Some(d) => d,
        None => Dns::default(),
    };
    Ok(
        SuccessReply {
            cni_version: String::from_str("1.0.0"),
            interfaces: Vec::new(),
            ips,
            routes,
            dns,
        },
    )
}

} // verus!
