//! IP addresses and networks as plain integers, with the arithmetic that the
//! provisioning logic needs: containment, masks, and the neighbouring address.

use vstd::prelude::*;
use crate::error::{Error, ErrorKind};
use crate::text::decimal_text;

verus! {

/// An address family.
#[derive(Clone, Copy, Debug, PartialEq, Eq, Structural)]
pub enum Family {
    /// No particular family.
    Unspec,
    V4,
    V6,
}

/// An IPv4 address; `bits` holds its four octets, the first one highest.
#[derive(Clone, Copy, Debug, PartialEq, Eq, Structural, Hash)]
pub struct Ipv4Addr {
    pub bits: u32,
}

/// An IPv6 address; `bits` holds its sixteen octets, the first one highest.
#[derive(Clone, Copy, Debug, PartialEq, Eq, Structural, Hash)]
pub struct Ipv6Addr {
    pub bits: u128,
}

/// An IP address of either family.
#[derive(Clone, Copy, Debug, PartialEq, Eq, Structural, Hash)]
pub enum IpAddr {
    V4(Ipv4Addr),
    V6(Ipv6Addr),
}

/// The integer whose octets, highest first, are `a`, `b`, `c`, `d`.
pub open spec fn v4_bits(a: u8, b: u8, c: u8, d: u8) -> int {
    a as int * 0x100_0000 + b as int * 0x1_0000 + c as int * 0x100 + d as int
}

impl Ipv4Addr {
    /// The address `a.b.c.d`.
    pub fn new(a: u8, b: u8, c: u8, d: u8) -> (ip: Ipv4Addr)
        ensures
            ip.bits == v4_bits(a, b, c, d),
    {
        let hi: u32 = a as u32 * 0x1_0000 + b as u32 * 0x100 + c as u32;
        Ipv4Addr { bits: hi * 0x100 + d as u32 }
    }

    /// The four octets, the first one highest.
    pub fn octets(&self) -> (o: [u8; 4])
        ensures
            self.bits == v4_bits(o[0], o[1], o[2], o[3]),
    {
        let b = self.bits;
        [
            (b / 0x100_0000) as u8,
            (b / 0x1_0000 % 0x100) as u8,
            (b / 0x100 % 0x100) as u8,
            (b % 0x100) as u8,
        ]
    }

    /// Whether this is `0.0.0.0`.
    pub fn is_unspecified(&self) -> (b: bool)
        ensures
            b <==> self.bits == 0,
    {
        self.bits == 0
    }
}

impl Ipv6Addr {
    /// The address with the given sixteen octets as one integer.
    pub fn from_bits(bits: u128) -> (ip: Ipv6Addr)
        ensures
            ip.bits == bits,
    {
        Ipv6Addr { bits }
    }

    /// Whether this is `::`.
    pub fn is_unspecified(&self) -> (b: bool)
        ensures
            b <==> self.bits == 0,
    {
        self.bits == 0
    }
}

impl IpAddr {
    pub open spec fn spec_family(&self) -> Family {
        match self {
            IpAddr::V4(_) => Family::V4,
            IpAddr::V6(_) => Family::V6,
        }
    }

    /// The family of the address.
    #[verifier::when_used_as_spec(spec_family)]
    pub fn family(&self) -> (f: Family)
        ensures
            f == self.spec_family(),
    {
        match self {
            IpAddr::V4(_) => Family::V4,
            IpAddr::V6(_) => Family::V6,
        }
    }

    /// The address as a number, whatever its family.
    pub open spec fn number(self) -> int {
        match self {
            IpAddr::V4(a) => a.bits as int,
            IpAddr::V6(a) => a.bits as int,
        }
    }

    pub fn is_ipv4(&self) -> (b: bool)
        ensures
            b <==> self.family() == Family::V4,
    {
        match self {
            IpAddr::V4(_) => true,
            IpAddr::V6(_) => false,
        }
    }

    pub fn is_ipv6(&self) -> (b: bool)
        ensures
            b <==> self.family() == Family::V6,
    {
        match self {
            IpAddr::V4(_) => false,
            IpAddr::V6(_) => true,
        }
    }

    /// Whether this is the all-zero address of its family.
    pub fn is_unspecified(&self) -> (b: bool)
        ensures
            b <==> self.number() == 0,
    {
        match self {
            IpAddr::V4(a) => a.is_unspecified(),
            IpAddr::V6(a) => a.is_unspecified(),
        }
    }
}

/// Whether `a` comes before `b`: every IPv4 address comes before every IPv6
/// address, and within a family the smaller number comes first.
pub open spec fn ip_before(a: IpAddr, b: IpAddr) -> bool {
    match (a, b) {
        (IpAddr::V4(x), IpAddr::V4(y)) => x.bits < y.bits,
        (IpAddr::V6(x), IpAddr::V6(y)) => x.bits < y.bits,
        (IpAddr::V4(_), IpAddr::V6(_)) => true,
        (IpAddr::V6(_), IpAddr::V4(_)) => false,
    }
}

/// Whether `a` comes before `b`.
pub fn ip_lt(a: &IpAddr, b: &IpAddr) -> (r: bool)
    ensures
        r == ip_before(*a, *b),
{
    match (a, b) {
        (IpAddr::V4(x), IpAddr::V4(y)) => x.bits < y.bits,
        (IpAddr::V6(x), IpAddr::V6(y)) => x.bits < y.bits,
        (IpAddr::V4(_), IpAddr::V6(_)) => true,
        (IpAddr::V6(_), IpAddr::V4(_)) => false,
    }
}

/// The last address of a network that can be given out: for IPv4 the one
/// before the highest, which is kept for broadcasts; for IPv6 the highest.
pub open spec fn spec_last_ip(subnet: IpNetwork) -> IpAddr {
    match subnet.spec_broadcast() {
        IpAddr::V4(a) => IpAddr::V4(Ipv4Addr { bits: if a.bits > 0 {
            (a.bits - 1) as u32
        } else {
            0
        } }),
        IpAddr::V6(a) => IpAddr::V6(a),
    }
}

/// The last address of a network that can be given out.
pub fn last_ip(subnet: &IpNetwork) -> (ip: IpAddr)
    ensures
        ip == spec_last_ip(*subnet),
{
    match subnet.broadcast() {
        IpAddr::V4(a) => IpAddr::V4(Ipv4Addr { bits: if a.bits > 0 {
            a.bits - 1
        } else {
            0
        } }),
        IpAddr::V6(a) => IpAddr::V6(a),
    }
}

/// The address that follows `ip`: for IPv4 the numeric successor, absent at
/// `255.255.255.255`. IPv6 addresses have no successor here.
pub open spec fn spec_next_ip(ip: IpAddr) -> Option<IpAddr> {
    match ip {
        IpAddr::V4(a) => if a.bits < u32::MAX {
            Some(IpAddr::V4(Ipv4Addr { bits: (a.bits + 1) as u32 }))
        } else {
            None
        },
        IpAddr::V6(_) => None,
    }
}

/// The address that follows `ip`, if it has one.
pub fn next_ip(ip: &IpAddr) -> (next: Option<IpAddr>)
    ensures
        next == spec_next_ip(*ip),
{
    match ip {
        IpAddr::V4(a) => match a.bits.checked_add(1) {
            Some(bits) => Some(IpAddr::V4(Ipv4Addr { bits })),
            None => None,
        },
        IpAddr::V6(_) => None,
    }
}

/// The IPv4 mask of a prefix length: its `prefix` highest bits are set.
pub open spec fn v4_mask(prefix: u8) -> u32 {
    if prefix >= 32 {
        0xffff_ffffu32
    } else {
        !(0xffff_ffffu32 >> prefix)
    }
}

/// The IPv6 mask of a prefix length: its `prefix` highest bits are set.
pub open spec fn v6_mask(prefix: u8) -> u128 {
    if prefix >= 128 {
        0xffff_ffff_ffff_ffff_ffff_ffff_ffff_ffffu128
    } else {
        !(0xffff_ffff_ffff_ffff_ffff_ffff_ffff_ffffu128 >> prefix)
    }
}

/// An IPv4 address together with a prefix length of at most 32.
#[derive(Clone, Copy, Debug, PartialEq, Eq, Structural, Hash)]
pub struct Ipv4Network {
    addr: Ipv4Addr,
    prefix: u8,
}

/// An IPv6 address together with a prefix length of at most 128.
#[derive(Clone, Copy, Debug, PartialEq, Eq, Structural, Hash)]
pub struct Ipv6Network {
    addr: Ipv6Addr,
    prefix: u8,
}

/// An IP network of either family: an address and a prefix length.
#[derive(Clone, Copy, Debug, PartialEq, Eq, Structural, Hash)]
pub enum IpNetwork {
    V4(Ipv4Network),
    V6(Ipv6Network),
}

/// `ipnetwork::Ipv4Network::contains`: whether `ip` and the network's address
/// agree on the bits that the network's mask selects.
#[verifier::external_body]
fn v4_contains(addr: u32, prefix: u8, ip: u32) -> (r: bool)
    requires
        prefix <= 32,
    ensures
        r == ((ip & v4_mask(prefix)) == (addr & v4_mask(prefix))),
{
    ipnetwork::Ipv4Network::new(addr.into(), prefix).unwrap().contains(ip.into())
}

/// `ipnetwork::Ipv6Network::contains`: whether `ip` and the network's address
/// agree on the bits that the network's mask selects.
#[verifier::external_body]
fn v6_contains(addr: u128, prefix: u8, ip: u128) -> (r: bool)
    requires
        prefix <= 128,
    ensures
        r == ((ip & v6_mask(prefix)) == (addr & v6_mask(prefix))),
{
    ipnetwork::Ipv6Network::new(addr.into(), prefix).unwrap().contains(ip.into())
}

/// `ipnetwork::Ipv4Network::network`: the address with every bit outside
/// the mask cleared.
#[verifier::external_body]
fn v4_network(addr: u32, prefix: u8) -> (r: u32)
    requires
        prefix <= 32,
    ensures
        r == addr & v4_mask(prefix),
{
    ipnetwork::Ipv4Network::new(addr.into(), prefix).unwrap().network().into()
}

/// `ipnetwork::Ipv6Network::network`: the address with every bit outside
/// the mask cleared.
#[verifier::external_body]
fn v6_network(addr: u128, prefix: u8) -> (r: u128)
    requires
        prefix <= 128,
    ensures
        r == addr & v6_mask(prefix),
{
    ipnetwork::Ipv6Network::new(addr.into(), prefix).unwrap().network().into()
}

/// `ipnetwork::Ipv4Network::broadcast`: the address with every bit outside
/// the mask set.
#[verifier::external_body]
fn v4_broadcast(addr: u32, prefix: u8) -> (r: u32)
    requires
        prefix <= 32,
    ensures
        r == addr | !v4_mask(prefix),
{
    ipnetwork::Ipv4Network::new(addr.into(), prefix).unwrap().broadcast().into()
}

/// `ipnetwork::Ipv6Network::broadcast`: the address with every bit outside
/// the mask set.
#[verifier::external_body]
fn v6_broadcast(addr: u128, prefix: u8) -> (r: u128)
    requires
        prefix <= 128,
    ensures
        r == addr | !v6_mask(prefix),
{
    ipnetwork::Ipv6Network::new(addr.into(), prefix).unwrap().broadcast().into()
}

impl Ipv4Network {
    /// A prefix length fits the family.
    #[verifier::type_invariant]
    pub closed spec fn wf(self) -> bool {
        self.prefix <= 32
    }

    pub closed spec fn spec_ip(&self) -> Ipv4Addr {
        self.addr
    }

    pub closed spec fn spec_prefix(&self) -> u8 {
        self.prefix
    }

    /// The network value with the given address and prefix length.
    pub closed spec fn spec_new(addr: Ipv4Addr, prefix: u8) -> Ipv4Network {
        Ipv4Network { addr, prefix }
    }

    /// A network is its address and its prefix length, and nothing else.
    pub proof fn lemma_parts(self)
        ensures
            self == Self::spec_new(self.spec_ip(), self.spec_prefix()),
            self.wf() <==> self.spec_prefix() <= 32,
    {
    }

    /// `spec_new` keeps what it is given.
    pub proof fn lemma_new(addr: Ipv4Addr, prefix: u8)
        ensures
            Self::spec_new(addr, prefix).spec_ip() == addr,
            Self::spec_new(addr, prefix).spec_prefix() == prefix,
    {
    }

    /// The network `addr/prefix`, or a `Config` error if `prefix` exceeds 32.
    pub fn new(addr: Ipv4Addr, prefix: u8) -> (r: Result<Ipv4Network, Error>)
        ensures
            prefix <= 32 ==> r == Ok::<Ipv4Network, Error>(Self::spec_new(addr, prefix)),
            prefix > 32 ==> r is Err && r->Err_0.kind == ErrorKind::Config,
    {
        if prefix > 32 {
            Err(Error::new(ErrorKind::Config, "invalid prefix"))
        } else {
            Ok(Ipv4Network { addr, prefix })
        }
    }

    /// The network that a text denotes, if it denotes one.
    pub open spec fn of_text(s: Seq<char>) -> Option<Ipv4Network> {
        match ipv4_network_parse(s) {
            Some((bits, prefix)) => Some(Self::spec_new(Ipv4Addr { bits }, prefix)),
            None => None,
        }
    }

    /// The network that a text denotes in the notation `a.b.c.d/prefix`, or
    /// a `Config` error where it denotes none.
    pub fn from_str(s: &str) -> (r: Result<Ipv4Network, Error>)
        ensures
            match r {
                Ok(n) => Self::of_text(s@) == Some(n),
                Err(e) => Self::of_text(s@).is_none() && e.kind == ErrorKind::Config,
            },
    {
        match parse_v4_network(s) {
            Some((bits, prefix)) => Ok(Ipv4Network { addr: Ipv4Addr { bits }, prefix }),
            None => {
                let mut message = String::from_str("invalid address: ");
                message.append(s);
                Err(Error::new(ErrorKind::Config, message.as_str()))
            },
        }
    }

    #[verifier::when_used_as_spec(spec_ip)]
    pub fn ip(&self) -> (ip: Ipv4Addr)
        ensures
            ip == self.spec_ip(),
    {
        self.addr
    }

    #[verifier::when_used_as_spec(spec_prefix)]
    pub fn prefix(&self) -> (p: u8)
        ensures
            p == self.spec_prefix(),
            p <= 32,
    {
        proof {
            use_type_invariant(self);
        }
        self.prefix
    }

    /// Whether `ip` lies in this network.
    pub open spec fn spec_contains(&self, ip: Ipv4Addr) -> bool {
        (ip.bits & v4_mask(self.spec_prefix())) == (self.spec_ip().bits & v4_mask(
            self.spec_prefix(),
        ))
    }

    /// Whether `ip` lies in this network.
    #[verifier::when_used_as_spec(spec_contains)]
    pub fn contains(&self, ip: Ipv4Addr) -> (b: bool)
        ensures
            b == self.spec_contains(ip),
    {
        proof {
            use_type_invariant(self);
        }
        v4_contains(self.addr.bits, self.prefix, ip.bits)
    }

    /// The network as text: address, slash, prefix length.
    pub open spec fn text(self) -> Seq<char> {
        ipv4_text(self.spec_ip().bits) + seq!['/'] + decimal_text(self.spec_prefix() as nat)
    }

    /// The network as text: address, slash, prefix length.
    pub fn to_string(&self) -> (s: String)
        ensures
            s@ == self.text(),
    {
        proof {
            use_type_invariant(self);
        }
        ipv4_network_to_string(self.addr.bits, self.prefix)
    }

    /// The lowest address of the network.
    pub open spec fn spec_network(&self) -> Ipv4Addr {
        Ipv4Addr { bits: self.spec_ip().bits & v4_mask(self.spec_prefix()) }
    }

    /// The highest address of the network.
    pub open spec fn spec_broadcast(&self) -> Ipv4Addr {
        Ipv4Addr { bits: self.spec_ip().bits | !v4_mask(self.spec_prefix()) }
    }

    /// The lowest address of the network.
    #[verifier::when_used_as_spec(spec_network)]
    pub fn network(&self) -> (ip: Ipv4Addr)
        ensures
            ip == self.spec_network(),
    {
        proof {
            use_type_invariant(self);
        }
        Ipv4Addr { bits: v4_network(self.addr.bits, self.prefix) }
    }

    /// The highest address of the network.
    #[verifier::when_used_as_spec(spec_broadcast)]
    pub fn broadcast(&self) -> (ip: Ipv4Addr)
        ensures
            ip == self.spec_broadcast(),
    {
        proof {
            use_type_invariant(self);
        }
        Ipv4Addr { bits: v4_broadcast(self.addr.bits, self.prefix) }
    }
}

impl Ipv6Network {
    /// A prefix length fits the family.
    #[verifier::type_invariant]
    pub closed spec fn wf(self) -> bool {
        self.prefix <= 128
    }

    pub closed spec fn spec_ip(&self) -> Ipv6Addr {
        self.addr
    }

    pub closed spec fn spec_prefix(&self) -> u8 {
        self.prefix
    }

    /// The network value with the given address and prefix length.
    pub closed spec fn spec_new(addr: Ipv6Addr, prefix: u8) -> Ipv6Network {
        Ipv6Network { addr, prefix }
    }

    /// A network is its address and its prefix length, and nothing else.
    pub proof fn lemma_parts(self)
        ensures
            self == Self::spec_new(self.spec_ip(), self.spec_prefix()),
            self.wf() <==> self.spec_prefix() <= 128,
    {
    }

    /// `spec_new` keeps what it is given.
    pub proof fn lemma_new(addr: Ipv6Addr, prefix: u8)
        ensures
            Self::spec_new(addr, prefix).spec_ip() == addr,
            Self::spec_new(addr, prefix).spec_prefix() == prefix,
    {
    }

    /// The network `addr/prefix`, or a `Config` error if `prefix` exceeds 128.
    pub fn new(addr: Ipv6Addr, prefix: u8) -> (r: Result<Ipv6Network, Error>)
        ensures
            prefix <= 128 ==> r == Ok::<Ipv6Network, Error>(Self::spec_new(addr, prefix)),
            prefix > 128 ==> r is Err && r->Err_0.kind == ErrorKind::Config,
    {
        if prefix > 128 {
            Err(Error::new(ErrorKind::Config, "invalid prefix"))
        } else {
            Ok(Ipv6Network { addr, prefix })
        }
    }

    /// The network that a text denotes, if it denotes one.
    pub open spec fn of_text(s: Seq<char>) -> Option<Ipv6Network> {
        match ipv6_network_parse(s) {
            Some((bits, prefix)) => Some(Self::spec_new(Ipv6Addr { bits }, prefix)),
            None => None,
        }
    }

    /// The network that a text denotes in the notation `address/prefix`, or
    /// a `Config` error where it denotes none.
    pub fn from_str(s: &str) -> (r: Result<Ipv6Network, Error>)
        ensures
            match r {
                Ok(n) => Self::of_text(s@) == Some(n),
                Err(e) => Self::of_text(s@).is_none() && e.kind == ErrorKind::Config,
            },
    {
        match parse_v6_network(s) {
            Some((bits, prefix)) => Ok(Ipv6Network { addr: Ipv6Addr { bits }, prefix }),
            None => {
                let mut message = String::from_str("invalid address: ");
                message.append(s);
                Err(Error::new(ErrorKind::Config, message.as_str()))
            },
        }
    }

    #[verifier::when_used_as_spec(spec_ip)]
    pub fn ip(&self) -> (ip: Ipv6Addr)
        ensures
            ip == self.spec_ip(),
    {
        self.addr
    }

    #[verifier::when_used_as_spec(spec_prefix)]
    pub fn prefix(&self) -> (p: u8)
        ensures
            p == self.spec_prefix(),
            p <= 128,
    {
        proof {
            use_type_invariant(self);
        }
        self.prefix
    }

    /// Whether `ip` lies in this network.
    pub open spec fn spec_contains(&self, ip: Ipv6Addr) -> bool {
        (ip.bits & v6_mask(self.spec_prefix())) == (self.spec_ip().bits & v6_mask(
            self.spec_prefix(),
        ))
    }

    /// Whether `ip` lies in this network.
    #[verifier::when_used_as_spec(spec_contains)]
    pub fn contains(&self, ip: Ipv6Addr) -> (b: bool)
        ensures
            b == self.spec_contains(ip),
    {
        proof {
            use_type_invariant(self);
        }
        v6_contains(self.addr.bits, self.prefix, ip.bits)
    }

    /// The network as text: address, slash, prefix length.
    pub open spec fn text(self) -> Seq<char> {
        ipv6_text(self.spec_ip().bits) + seq!['/'] + decimal_text(self.spec_prefix() as nat)
    }

    /// The network as text: address, slash, prefix length.
    pub fn to_string(&self) -> (s: String)
        ensures
            s@ == self.text(),
    {
        proof {
            use_type_invariant(self);
        }
        ipv6_network_to_string(self.addr.bits, self.prefix)
    }

    /// The lowest address of the network.
    pub open spec fn spec_network(&self) -> Ipv6Addr {
        Ipv6Addr { bits: self.spec_ip().bits & v6_mask(self.spec_prefix()) }
    }

    /// The highest address of the network.
    pub open spec fn spec_broadcast(&self) -> Ipv6Addr {
        Ipv6Addr { bits: self.spec_ip().bits | !v6_mask(self.spec_prefix()) }
    }

    /// The lowest address of the network.
    #[verifier::when_used_as_spec(spec_network)]
    pub fn network(&self) -> (ip: Ipv6Addr)
        ensures
            ip == self.spec_network(),
    {
        proof {
            use_type_invariant(self);
        }
        Ipv6Addr { bits: v6_network(self.addr.bits, self.prefix) }
    }

    /// The highest address of the network.
    #[verifier::when_used_as_spec(spec_broadcast)]
    pub fn broadcast(&self) -> (ip: Ipv6Addr)
        ensures
            ip == self.spec_broadcast(),
    {
        proof {
            use_type_invariant(self);
        }
        Ipv6Addr { bits: v6_broadcast(self.addr.bits, self.prefix) }
    }
}

/// The address and the prefix length that a text denotes as an IPv4 network,
/// if it denotes one.
pub uninterp spec fn ipv4_network_parse(s: Seq<char>) -> Option<(u32, u8)>;

/// The address and the prefix length that a text denotes as an IPv6 network,
/// if it denotes one.
pub uninterp spec fn ipv6_network_parse(s: Seq<char>) -> Option<(u128, u8)>;

/// `FromStr` of `ipnetwork::Ipv4Network`: the network that the text denotes,
/// if it denotes one; its prefix length is at most 32.
#[verifier::external_body]
fn parse_v4_network(s: &str) -> (r: Option<(u32, u8)>)
    ensures
        r == ipv4_network_parse(s@),
        r.is_some() ==> r.unwrap().1 <= 32,
{
    match s.parse::<ipnetwork::Ipv4Network>() {
        Ok(n) => Some((n.ip().into(), n.prefix())),
        Err(_) => None,
    }
}

/// `FromStr` of `ipnetwork::Ipv6Network`: the network that the text denotes,
/// if it denotes one; its prefix length is at most 128.
#[verifier::external_body]
fn parse_v6_network(s: &str) -> (r: Option<(u128, u8)>)
    ensures
        r == ipv6_network_parse(s@),
        r.is_some() ==> r.unwrap().1 <= 128,
{
    match s.parse::<ipnetwork::Ipv6Network>() {
        Ok(n) => Some((n.ip().into(), n.prefix())),
        Err(_) => None,
    }
}

/// The text of an IPv4 address in dotted decimal notation.
pub uninterp spec fn ipv4_text(bits: u32) -> Seq<char>;

/// The text of an IPv6 address in its canonical compressed notation.
pub uninterp spec fn ipv6_text(bits: u128) -> Seq<char>;

/// The standard library's `Display` for an IPv4 address, reached through
/// `ipnetwork::Ipv4Network::ip`: the result is the address's text.
#[verifier::external_body]
fn ipv4_to_string(bits: u32) -> (s: String)
    ensures
        s@ == ipv4_text(bits),
{
    ipnetwork::Ipv4Network::new(bits.into(), 32).unwrap().ip().to_string()
}

/// The standard library's `Display` for an IPv6 address, reached through
/// `ipnetwork::Ipv6Network::ip`: the result is the address's text.
#[verifier::external_body]
fn ipv6_to_string(bits: u128) -> (s: String)
    ensures
        s@ == ipv6_text(bits),
{
    ipnetwork::Ipv6Network::new(bits.into(), 128).unwrap().ip().to_string()
}

/// `Display` of `ipnetwork::Ipv4Network`: the address's text, a slash, and
/// the prefix length in decimal.
#[verifier::external_body]
fn ipv4_network_to_string(bits: u32, prefix: u8) -> (s: String)
    requires
        prefix <= 32,
    ensures
        s@ == ipv4_text(bits) + seq!['/'] + decimal_text(prefix as nat),
{
    ipnetwork::Ipv4Network::new(bits.into(), prefix).unwrap().to_string()
}

/// `Display` of `ipnetwork::Ipv6Network`: the address's text, a slash, and
/// the prefix length in decimal.
#[verifier::external_body]
fn ipv6_network_to_string(bits: u128, prefix: u8) -> (s: String)
    requires
        prefix <= 128,
    ensures
        s@ == ipv6_text(bits) + seq!['/'] + decimal_text(prefix as nat),
{
    ipnetwork::Ipv6Network::new(bits.into(), prefix).unwrap().to_string()
}

impl IpAddr {
    /// The address as text.
    pub open spec fn text(self) -> Seq<char> {
        match self {
            IpAddr::V4(a) => ipv4_text(a.bits),
            IpAddr::V6(a) => ipv6_text(a.bits),
        }
    }

    /// The address as text.
    pub fn to_string(&self) -> (s: String)
        ensures
            s@ == self.text(),
    {
        match self {
            IpAddr::V4(a) => ipv4_to_string(a.bits),
            IpAddr::V6(a) => ipv6_to_string(a.bits),
        }
    }
}

impl IpAddr {
    /// The address that a text denotes: the address of the network that the
    /// text denotes, for a text without a slash.
    pub open spec fn of_text(s: Seq<char>) -> Option<IpAddr> {
        if s.contains('/') {
            None
        } else {
            match IpNetwork::of_text(s) {
                Some(n) => Some(n.spec_ip()),
                None => None,
            }
        }
    }

    /// The address that a text denotes, or a `Config` error where it denotes
    /// none.
    pub fn from_str(s: &str) -> (r: Result<IpAddr, Error>)
        ensures
            match r {
                Ok(ip) => Self::of_text(s@) == Some(ip),
                Err(e) => Self::of_text(s@).is_none() && e.kind == ErrorKind::Config,
            },
    {
        match crate::text::split_once(s, '/') {
            Some(_) => {
                proof {
                    let i = choose|i: int| crate::text::first_at(s@, '/', i);
                    assert(s@[i] == '/');
                }
                let mut message = String::from_str("invalid address: ");
                message.append(s);
                Err(Error::new(ErrorKind::Config, message.as_str()))
            },
            None => {
                proof {
                    if s@.contains('/') {
                        let i = choose|i: int| 0 <= i < s@.len() && s@[i] == '/';
                        crate::text::lemma_first_occurrence(s@, '/', i);
                    }
                }
                match IpNetwork::from_str(s) {
                    Ok(n) => Ok(n.ip()),
                    Err(e) => Err(e),
                }
            },
        }
    }
}

impl IpNetwork {
    /// Every prefix length fits its family.
    pub open spec fn wf(self) -> bool {
        match self {
            IpNetwork::V4(n) => n.wf(),
            IpNetwork::V6(n) => n.wf(),
        }
    }

    /// The network value with the given address and prefix length.
    pub open spec fn spec_new(ip: IpAddr, prefix: u8) -> IpNetwork {
        match ip {
            IpAddr::V4(a) => IpNetwork::V4(Ipv4Network::spec_new(a, prefix)),
            IpAddr::V6(a) => IpNetwork::V6(Ipv6Network::spec_new(a, prefix)),
        }
    }

    /// The longest prefix that a family allows.
    pub open spec fn max_prefix(family: Family) -> u8 {
        if family == Family::V4 {
            32
        } else {
            128
        }
    }

    pub open spec fn spec_ip(&self) -> IpAddr {
        match self {
            IpNetwork::V4(n) => IpAddr::V4(n.spec_ip()),
            IpNetwork::V6(n) => IpAddr::V6(n.spec_ip()),
        }
    }

    pub open spec fn spec_prefix(&self) -> u8 {
        match self {
            IpNetwork::V4(n) => n.spec_prefix(),
            IpNetwork::V6(n) => n.spec_prefix(),
        }
    }

    pub open spec fn spec_family(&self) -> Family {
        match self {
            IpNetwork::V4(_) => Family::V4,
            IpNetwork::V6(_) => Family::V6,
        }
    }

    /// The family of the network.
    #[verifier::when_used_as_spec(spec_family)]
    pub fn family(&self) -> (f: Family)
        ensures
            f == self.spec_family(),
    {
        match self {
            IpNetwork::V4(_) => Family::V4,
            IpNetwork::V6(_) => Family::V6,
        }
    }

    /// Whether `ip` is of this network's family and lies in it.
    pub open spec fn spec_contains(&self, ip: IpAddr) -> bool {
        match (*self, ip) {
            (IpNetwork::V4(n), IpAddr::V4(a)) => n.spec_contains(a),
            (IpNetwork::V6(n), IpAddr::V6(a)) => n.spec_contains(a),
            _ => false,
        }
    }

    /// The network as text: address, slash, prefix length.
    pub open spec fn text(self) -> Seq<char> {
        self.spec_ip().text() + seq!['/'] + decimal_text(self.spec_prefix() as nat)
    }

    /// A network is its address and its prefix length, and nothing else.
    pub proof fn lemma_parts(self)
        ensures
            self == Self::spec_new(self.spec_ip(), self.spec_prefix()),
            self.wf() <==> self.spec_prefix() <= Self::max_prefix(self.family()),
            self.family() == self.spec_ip().family(),
    {
        match self {
            IpNetwork::V4(n) => n.lemma_parts(),
            IpNetwork::V6(n) => n.lemma_parts(),
        }
    }

    /// `spec_new` keeps what it is given.
    pub proof fn lemma_new(ip: IpAddr, prefix: u8)
        ensures
            Self::spec_new(ip, prefix).spec_ip() == ip,
            Self::spec_new(ip, prefix).spec_prefix() == prefix,
            Self::spec_new(ip, prefix).family() == ip.family(),
            Self::spec_new(ip, prefix).wf() <==> prefix <= Self::max_prefix(ip.family()),
    {
        match ip {
            IpAddr::V4(a) => {
                Ipv4Network::lemma_new(a, prefix);
                Ipv4Network::spec_new(a, prefix).lemma_parts();
            },
            IpAddr::V6(a) => {
                Ipv6Network::lemma_new(a, prefix);
                Ipv6Network::spec_new(a, prefix).lemma_parts();
            },
        }
    }

    /// The network `ip/prefix`, or a `Config` error if the prefix is longer
    /// than the family of `ip` allows.
    pub fn new(ip: IpAddr, prefix: u8) -> (r: Result<IpNetwork, Error>)
        ensures
            prefix <= Self::max_prefix(ip.family()) ==> r == Ok::<IpNetwork, Error>(
                Self::spec_new(ip, prefix),
            ),
            prefix > Self::max_prefix(ip.family()) ==> r is Err && r->Err_0.kind
                == ErrorKind::Config,
    {
        match ip {
            IpAddr::V4(a) => match Ipv4Network::new(a, prefix) {
                Ok(n) => Ok(IpNetwork::V4(n)),
                Err(e) => Err(e),
            },
            IpAddr::V6(a) => match Ipv6Network::new(a, prefix) {
                Ok(n) => Ok(IpNetwork::V6(n)),
                Err(e) => Err(e),
            },
        }
    }

    #[verifier::when_used_as_spec(spec_ip)]
    pub fn ip(&self) -> (ip: IpAddr)
        ensures
            ip == self.spec_ip(),
    {
        match self {
            IpNetwork::V4(n) => IpAddr::V4(n.ip()),
            IpNetwork::V6(n) => IpAddr::V6(n.ip()),
        }
    }

    #[verifier::when_used_as_spec(spec_prefix)]
    pub fn prefix(&self) -> (p: u8)
        ensures
            p == self.spec_prefix(),
            p <= Self::max_prefix(self.family()),
    {
        match self {
            IpNetwork::V4(n) => n.prefix(),
            IpNetwork::V6(n) => n.prefix(),
        }
    }

    pub fn is_ipv4(&self) -> (b: bool)
        ensures
            b <==> self.family() == Family::V4,
    {
        match self {
            IpNetwork::V4(_) => true,
            IpNetwork::V6(_) => false,
        }
    }

    pub fn is_ipv6(&self) -> (b: bool)
        ensures
            b <==> self.family() == Family::V6,
    {
        match self {
            IpNetwork::V4(_) => false,
            IpNetwork::V6(_) => true,
        }
    }

    /// Whether `ip` is of this network's family and lies in it.
    #[verifier::when_used_as_spec(spec_contains)]
    pub fn contains(&self, ip: IpAddr) -> (b: bool)
        ensures
            b == self.spec_contains(ip),
    {
        match (self, ip) {
            (IpNetwork::V4(n), IpAddr::V4(a)) => n.contains(a),
            (IpNetwork::V6(n), IpAddr::V6(a)) => n.contains(a),
            _ => false,
        }
    }

    /// The lowest address of the network.
    pub open spec fn spec_network(&self) -> IpAddr {
        match self {
            IpNetwork::V4(n) => IpAddr::V4(n.spec_network()),
            IpNetwork::V6(n) => IpAddr::V6(n.spec_network()),
        }
    }

    /// The highest address of the network.
    pub open spec fn spec_broadcast(&self) -> IpAddr {
        match self {
            IpNetwork::V4(n) => IpAddr::V4(n.spec_broadcast()),
            IpNetwork::V6(n) => IpAddr::V6(n.spec_broadcast()),
        }
    }

    /// The lowest address of the network.
    #[verifier::when_used_as_spec(spec_network)]
    pub fn network(&self) -> (ip: IpAddr)
        ensures
            ip == self.spec_network(),
    {
        match self {
            IpNetwork::V4(n) => IpAddr::V4(n.network()),
            IpNetwork::V6(n) => IpAddr::V6(n.network()),
        }
    }

    /// The highest address of the network.
    #[verifier::when_used_as_spec(spec_broadcast)]
    pub fn broadcast(&self) -> (ip: IpAddr)
        ensures
            ip == self.spec_broadcast(),
    {
        match self {
            IpNetwork::V4(n) => IpAddr::V4(n.broadcast()),
            IpNetwork::V6(n) => IpAddr::V6(n.broadcast()),
        }
    }

    /// The network that a text denotes, an IPv4 network where it denotes
    /// one, else an IPv6 network, if it denotes one.
    pub open spec fn of_text(s: Seq<char>) -> Option<IpNetwork> {
        match (Ipv4Network::of_text(s), Ipv6Network::of_text(s)) {
            (Some(n), _) => Some(IpNetwork::V4(n)),
            (None, Some(n)) => Some(IpNetwork::V6(n)),
            (None, None) => None,
        }
    }

    /// The network that a text denotes, or a `Config` error where it denotes
    /// none.
    pub fn from_str(s: &str) -> (r: Result<IpNetwork, Error>)
        ensures
            match r {
                Ok(n) => Self::of_text(s@) == Some(n),
                Err(e) => Self::of_text(s@).is_none() && e.kind == ErrorKind::Config,
            },
    {
        match Ipv4Network::from_str(s) {
            Ok(n) => Ok(IpNetwork::V4(n)),
            Err(_) => match Ipv6Network::from_str(s) {
                Ok(n) => Ok(IpNetwork::V6(n)),
                Err(e) => Err(e),
            },
        }
    }

    /// The network as text: address, slash, prefix length.
    pub fn to_string(&self) -> (s: String)
        ensures
            s@ == self.text(),
    {
        match self {
            IpNetwork::V4(n) => n.to_string(),
            IpNetwork::V6(n) => n.to_string(),
        }
    }
}

} // verus!
