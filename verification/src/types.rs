//! The values exchanged with the container runtime and with delegated
//! plugins: interfaces, address assignments, routes and the result that
//! gathers them.

use vstd::prelude::*;
use crate::addr::{IpAddr, IpNetwork};
use crate::mac::MacAddr;

verus! {

/// The characters of an optional string.
pub open spec fn opt_text(s: Option<String>) -> Option<Seq<char>> {
    match s {
        Some(s) => Some(s@),
        None => None,
    }
}

/// The items of an optional list, none where the list is absent.
pub open spec fn items<T>(v: Option<Vec<T>>) -> Seq<T> {
    match v {
        Some(v) => v@,
        None => Seq::<T>::empty(),
    }
}

/// The characters of each string of a sequence.
pub open spec fn texts(s: Seq<String>) -> Seq<Seq<char>> {
    s.map_values(|x: String| x@)
}

/// A reported interface.
#[derive(Clone, Debug)]
pub struct Interface {
    /// The name of the interface.
    pub name: String,
    /// Its hardware address, if it has one.
    pub mac: Option<MacAddr>,
    /// The path of the namespace it lives in; empty or absent on the host.
    pub sandbox: Option<String>,
}

/// What an `Interface` holds, as mathematical values.
pub struct InterfaceView {
    pub name: Seq<char>,
    /// The six bytes of the hardware address.
    pub mac: Option<Seq<u8>>,
    pub sandbox: Option<Seq<char>>,
}

impl View for Interface {
    type V = InterfaceView;

    open spec fn view(&self) -> InterfaceView {
        InterfaceView {
            name: self.name@,
            mac: match self.mac {
                Some(m) => Some(m.bytes@),
                None => None,
            },
            sandbox: opt_text(self.sandbox),
        }
    }
}

impl Default for Interface {
    /// The interface without name, address or namespace.
    fn default() -> (i: Interface)
        ensures
            i@ == (InterfaceView { name: Seq::<char>::empty(), mac: None, sandbox: None }),
    {
        Interface { name: String::new(), mac: None, sandbox: None }
    }
}

/// One assigned address.
#[derive(Clone, Copy, Debug, PartialEq, Eq, Structural)]
pub struct Ip {
    /// The address with the prefix length of its network.
    pub address: IpNetwork,
    /// The gateway of that network, if one is known.
    pub gateway: Option<IpAddr>,
    /// The index of the owning interface in the result's interface list;
    /// absent in what an address-management plugin returns.
    pub interface: Option<usize>,
}

/// One route.
#[derive(Clone, Copy, Debug, PartialEq, Eq, Structural)]
pub struct Route {
    /// The destination network.
    pub dst: IpNetwork,
    /// The next hop, if one is given.
    pub gw: Option<IpAddr>,
}

/// Name resolution settings, handed through as they come.
#[derive(Clone, Debug)]
pub struct Dns {
    pub nameservers: Vec<IpAddr>,
    pub domain: Option<String>,
    pub search: Vec<String>,
    pub options: Vec<String>,
}

impl Dns {
    /// Whether nothing is set.
    pub open spec fn is_empty(&self) -> bool {
        &&& self.nameservers@.len() == 0
        &&& self.domain.is_none()
        &&& self.search@.len() == 0
        &&& self.options@.len() == 0
    }
}

impl Default for Dns {
    /// Settings with nothing set.
    fn default() -> (d: Dns)
        ensures
            d.is_empty(),
    {
        Dns { nameservers: Vec::new(), domain: None, search: Vec::new(), options: Vec::new() }
    }
}

/// Addresses requested through the runtime's arguments.
#[derive(Clone, Debug)]
pub struct IPAMArgs {
    pub ips: Vec<String>,
}

/// The address-management section of a network configuration.
#[derive(Clone, Debug, Default)]
pub struct IPAMConfig {
    /// The name of the plugin that manages addresses.
    pub plugin: String,
    pub routes: Option<Vec<Route>>,
    pub addresses: Option<Vec<Ip>>,
    pub dns: Option<Dns>,
}

/// What a plugin invocation reports: created interfaces, assigned addresses,
/// routes and name resolution settings.
#[derive(Debug, Default)]
pub struct ExecResult {
    pub cni_version: Option<String>,
    pub interfaces: Option<Vec<Interface>>,
    pub ips: Option<Vec<Ip>>,
    pub routes: Option<Vec<Route>>,
    pub dns: Option<Dns>,
}

/// What an `ExecResult` holds, as mathematical values.
pub struct ExecResultView {
    pub cni_version: Option<Seq<char>>,
    pub interfaces: Option<Seq<InterfaceView>>,
    pub ips: Option<Seq<Ip>>,
    pub routes: Option<Seq<Route>>,
    pub dns: Option<Dns>,
}

/// What each interface of a list holds.
pub open spec fn interfaces_view(v: Seq<Interface>) -> Seq<InterfaceView> {
    v.map_values(|i: Interface| i@)
}

impl View for ExecResult {
    type V = ExecResultView;

    open spec fn view(&self) -> ExecResultView {
        ExecResultView {
            cni_version: opt_text(self.cni_version),
            interfaces: match self.interfaces {
                Some(v) => Some(interfaces_view(v@)),
                None => None,
            },
            ips: match self.ips {
                Some(v) => Some(v@),
                None => None,
            },
            routes: match self.routes {
                Some(v) => Some(v@),
                None => None,
            },
            dns: self.dns,
        }
    }
}

/// The reply of the static address plugin: like `ExecResult`, with every list
/// present.
#[derive(Clone, Debug)]
pub struct SuccessReply {
    pub cni_version: String,
    pub interfaces: Vec<Interface>,
    pub ips: Vec<Ip>,
    pub routes: Vec<Route>,
    pub dns: Dns,
}

} // verus!
