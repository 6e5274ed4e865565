//! A range of addresses inside a subnet, out of which addresses are given.

use vstd::prelude::*;
use crate::addr::{
    ip_before, ip_lt, last_ip, next_ip, spec_last_ip, spec_next_ip, IpAddr, IpNetwork, Ipv4Addr,
};
use crate::error::{Error, ErrorKind};
use crate::text::{decimal_text, u32_to_string};

verus! {

/// A range of addresses inside a subnet.
#[derive(Clone, Copy, Debug, PartialEq, Eq, Structural)]
pub struct Range {
    /// The first address to give out; the one after the subnet's own where
    /// none is set.
    pub range_start: Option<IpAddr>,
    /// The last address to give out; the last of the subnet where none is set.
    pub range_end: Option<IpAddr>,
    /// The subnet to give addresses out of.
    pub subnet: IpNetwork,
    /// The gateway of the subnet; the address after the subnet's own where
    /// none is set.
    pub gateway: Option<IpAddr>,
}

/// Why a range cannot be used.
#[derive(Clone, Copy, Debug, PartialEq, Eq, Structural)]
pub enum RangeFault {
    /// The subnet has a prefix of 31 bits or more.
    TooSmall,
    /// The address of the subnet is not the lowest address of the subnet.
    HostBits,
    /// The first address lies outside the range.
    StartOutside,
    /// The last address lies outside the range.
    EndOutside,
}

/// An address as text, `<nil>` where there is none.
pub open spec fn opt_ip_text(ip: Option<IpAddr>) -> Seq<char> {
    match ip {
        Some(ip) => ip.text(),
        None => "<nil>"@,
    }
}

/// The message that reports a fault of a range.
pub open spec fn fault_text(r: Range, fault: RangeFault) -> Seq<char> {
    match fault {
        RangeFault::TooSmall => "Network "@ + r.subnet.text() + " too small to allocate from"@,
        RangeFault::HostBits => "Network has host bits set. For a subnet mask of length "@
            + decimal_text(r.subnet.spec_prefix() as nat) + " the network address is "@
            + r.subnet.spec_network().text(),
        RangeFault::StartOutside => "RangeStart "@ + opt_ip_text(r.range_start) + " not in network "@
            + r.subnet.text(),
        RangeFault::EndOutside => "RangeEnd "@ + opt_ip_text(r.range_end) + " not in network "@
            + r.subnet.text(),
    }
}

/// The value that is set, or else the other one.
pub open spec fn or_else(set: Option<IpAddr>, other: Option<IpAddr>) -> Option<IpAddr> {
    if set.is_some() {
        set
    } else {
        other
    }
}

impl Default for Range {
    /// The range over all IPv4 addresses with nothing set.
    fn default() -> (r: Range)
        ensures
            r.range_start.is_none(),
            r.range_end.is_none(),
            r.gateway.is_none(),
            r.subnet == IpNetwork::spec_new(IpAddr::V4(Ipv4Addr { bits: 0 }), 0),
    {
        Range {
            range_start: None,
            range_end: None,
            subnet: IpNetwork::new(IpAddr::V4(Ipv4Addr { bits: 0 }), 0).unwrap(),
            gateway: None,
        }
    }
}

impl Range {
    /// Whether `addr` lies in the subnet, not before the first address and
    /// not after the last one, as far as they are set.
    pub open spec fn spec_contains(&self, addr: IpAddr) -> bool {
        &&& self.subnet.spec_contains(addr)
        &&& match self.range_start {
            Some(start) => !ip_before(addr, start),
            None => true,
        }
        &&& match self.range_end {
            Some(end) => !ip_before(end, addr),
            None => true,
        }
    }

    /// Whether two ranges of one family share an address at their edges: one
    /// contains the first or the last address of the other. Ranges whose
    /// first or last address is not set never overlap.
    pub open spec fn spec_overlap(&self, other: &Range) -> bool {
        match (self.range_start, self.range_end, other.range_start, other.range_end) {
            (Some(s1), Some(e1), Some(s2), Some(e2)) => self.subnet.family() == other.subnet.family()
                && (self.spec_contains(s2) || self.spec_contains(e2) || other.spec_contains(s1)
                || other.spec_contains(e1)),
            _ => false,
        }
    }

    /// The range made consistent, and the fault that stopped it if there is
    /// one. The subnet must have a prefix of less than 31 bits and be given by
    /// its lowest address. The gateway and the first address default to the
    /// address after the subnet's own, the last address to the last of the
    /// subnet; a first or last address that is set must lie in the range.
    /// What was filled in before a fault was found stays filled in.
    pub open spec fn canonical(r: Range) -> (Range, Option<RangeFault>) {
        let first = spec_next_ip(r.subnet.spec_ip());
        if r.subnet.spec_prefix() >= 31 {
            (r, Some(RangeFault::TooSmall))
        } else if r.subnet.spec_ip() != r.subnet.spec_network() {
            (r, Some(RangeFault::HostBits))
        } else {
            let g = Range { gateway: or_else(r.gateway, first), ..r };
            if g.range_start.is_some() && !g.spec_contains(g.range_start.unwrap()) {
                (g, Some(RangeFault::StartOutside))
            } else {
                let s = Range { range_start: or_else(g.range_start, first), ..g };
                if s.range_end.is_some() && !s.spec_contains(s.range_end.unwrap()) {
                    (s, Some(RangeFault::EndOutside))
                } else {
                    (
                        Range {
                            range_end: or_else(s.range_end, Some(spec_last_ip(s.subnet))),
                            ..s
                        },
                        None,
                    )
                }
            }
        }
    }

    /// The range as text: first address, hyphen, last address.
    pub open spec fn text(&self) -> Seq<char> {
        opt_ip_text(self.range_start) + seq!['-'] + opt_ip_text(self.range_end)
    }

    /// Makes the range consistent, filling in what is not set. A range that
    /// cannot be made consistent gives a `Config` error that says why.
    pub fn canonicalize(&mut self) -> (r: Result<(), Error>)
        ensures
            *final(self) == Self::canonical(*old(self)).0,
            match Self::canonical(*old(self)).1 {
                None => r is Ok,
                Some(fault) => r is Err && r->Err_0.kind == ErrorKind::Config && r->Err_0.message@
                    == fault_text(*final(self), fault),
            },
    {
        let prefix = self.subnet.prefix();
        if prefix >= 31 {
            let mut message = String::from_str("Network ");
            message.append(self.subnet.to_string().as_str());
            message.append(" too small to allocate from");
            return Err(Error::new(ErrorKind::Config, message.as_str()));
        }
        if self.subnet.ip() != self.subnet.network() {
            let mut message = String::from_str(
                "Network has host bits set. For a subnet mask of length ",
            );
            message.append(u32_to_string(prefix as u32).as_str());
            message.append(" the network address is ");
            message.append(self.subnet.network().to_string().as_str());
            return Err(Error::new(ErrorKind::Config, message.as_str()));
        }
        if self.gateway.is_none() {
            self.gateway = next_ip(&self.subnet.ip());
        }
        match self.range_start {
            Some(range_start) => {
                if !self.contains(range_start) {
                    let mut message = String::from_str("RangeStart ");
                    message.append(range_start.to_string().as_str());
                    message.append(" not in network ");
                    message.append(self.subnet.to_string().as_str());
                    return Err(Error::new(ErrorKind::Config, message.as_str()));
                }
            },
            None => {
                self.range_start = next_ip(&self.subnet.ip());
            },
        }
        match self.range_end {
            Some(range_end) => {
                if !self.contains(range_end) {
                    let mut message = String::from_str("RangeEnd ");
                    message.append(range_end.to_string().as_str());
                    message.append(" not in network ");
                    message.append(self.subnet.to_string().as_str());
                    return Err(Error::new(ErrorKind::Config, message.as_str()));
                }
            },
            None => {
                self.range_end = Some(last_ip(&self.subnet));
            },
        }
        Ok(())
    }

    /// Whether `addr` lies in the range.
    #[verifier::when_used_as_spec(spec_contains)]
    pub fn contains(&self, addr: IpAddr) -> (b: bool)
        ensures
            b == self.spec_contains(addr),
    {
        if !self.subnet.contains(addr) {
            return false;
        }
        match &self.range_start {
            Some(range_start) => {
                if ip_lt(&addr, range_start) {
                    return false;
                }
            },
            None => {},
        }
        match &self.range_end {
            Some(range_end) => {
                if ip_lt(range_end, &addr) {
                    return false;
                }
            },
            None => {},
        }
        true
    }

    /// Whether the two ranges overlap.
    #[verifier::when_used_as_spec(spec_overlap)]
    pub fn overlap(&self, other: &Range) -> (b: bool)
        ensures
            b == self.spec_overlap(other),
    {
        match (self.range_start, self.range_end, other.range_start, other.range_end) {
            (Some(s1), Some(e1), Some(s2), Some(e2)) => {
                if self.subnet.family() != other.subnet.family() {
                    return false;
                }
                self.contains(s2) || self.contains(e2) || other.contains(s1) || other.contains(e1)
            },
            _ => false,
        }
    }

    /// The range as text: first address, hyphen, last address.
    pub fn to_string(&self) -> (s: String)
        ensures
            s@ == self.text(),
    {
        proof {
            reveal_strlit("-");
        }
        let mut s = match &self.range_start {
            Some(ip) => ip.to_string(),
            None => String::from_str("<nil>"),
        };
        s.append("-");
        match &self.range_end {
            Some(ip) => s.append(ip.to_string().as_str()),
            None => s.append("<nil>"),
        }
        s
    }
}

} // verus!
