//! Network configurations as the plugins read them.

use vstd::prelude::*;
use crate::types::IPAMConfig;

verus! {

/// A range of VLAN identifiers, or a single one, carried on a trunk.
#[derive(Clone, Copy, Debug, PartialEq, Eq, Structural)]
pub struct VlanTrunk {
    pub min_id: Option<i32>,
    pub max_id: Option<i32>,
    pub id: Option<i32>,
}

/// The configuration of the bridge plugin.
#[derive(Clone, Debug)]
pub struct NetConf {
    pub cni_version: String,
    pub name: String,
    pub plugin: String,
    pub br_name: Option<String>,
    pub is_gw: Option<bool>,
    pub is_default_gw: Option<bool>,
    pub force_address: Option<bool>,
    pub ip_masq: Option<bool>,
    pub mtu: Option<u32>,
    pub hairpin_mode: Option<bool>,
    pub ipam: IPAMConfig,
    pub promisc_mode: Option<bool>,
    pub vlan: Option<i32>,
    pub vlan_trunk: Option<Vec<VlanTrunk>>,
    pub preserve_default_vlan: Option<bool>,
    pub mac_spoof_chk: Option<bool>,
    pub enable_dad: Option<bool>,
    pub macspoofchk: Option<bool>,
}

/// A flag that counts as off where it is not given.
pub open spec fn flag(f: Option<bool>) -> bool {
    f == Some(true)
}

impl NetConf {
    /// The name of the bridge: `cni0` where none is configured.
    pub open spec fn bridge_name(&self) -> Seq<char> {
        match self.br_name {
            Some(n) => n@,
            None => "cni0"@,
        }
    }

    /// Whether the bridge filters by VLAN: it does where a VLAN or a trunk
    /// is configured.
    pub open spec fn vlan_filtering(&self) -> bool {
        self.vlan.is_some() || self.vlan_trunk.is_some()
    }

    /// Whether the bridge acts as gateway: where that is asked for, and
    /// wherever it is to be the default gateway.
    pub open spec fn acts_as_gateway(&self) -> bool {
        flag(self.is_gw) || flag(self.is_default_gw)
    }

    /// Makes a bridge that is to be the default gateway a gateway.
    pub fn normalize(&mut self)
        ensures
            flag(final(self).is_gw) == old(self).acts_as_gateway(),
            flag(old(self).is_default_gw) ==> final(self).is_gw == Some(true),
            !flag(old(self).is_default_gw) ==> final(self).is_gw == old(self).is_gw,
            *final(self) == (NetConf { is_gw: final(self).is_gw, ..*old(self) }),
    {
        if self.is_default_gw == Some(true) {
            self.is_gw = Some(true);
        }
    }
}

} // verus!
