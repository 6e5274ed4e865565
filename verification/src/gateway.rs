//! Gateways and default routes derived from what the address-management
//! plugin assigned.

use vstd::prelude::*;
use crate::addr::{next_ip, spec_next_ip, Family, IpAddr, IpNetwork, Ipv4Addr, Ipv6Addr};
use crate::config::{flag, NetConf};
use crate::error::{Error, ErrorKind};
use crate::types::{items, ExecResult, Ip, Route};

verus! {

/// The position of the container's interface in the list of reported
/// interfaces: the bridge comes first, the host end of the pair second.
pub const CONTAINER_INTERFACE_INDEX: usize = 2;

/// What the bridge needs to serve as gateway for one address family.
#[derive(Clone, Debug)]
pub struct GatewayInfo {
    /// The gateway addresses to put on the bridge, each with the prefix
    /// length of the assignment it serves.
    pub gws: Vec<IpNetwork>,
    pub family: Family,
    /// Whether the routes already held a default route with a gateway for
    /// this family.
    pub default_route_found: bool,
}

/// What a `GatewayInfo` holds, as mathematical values.
pub struct GatewayInfoView {
    pub gws: Seq<IpNetwork>,
    pub family: Family,
    pub default_route_found: bool,
}

impl View for GatewayInfo {
    type V = GatewayInfoView;

    open spec fn view(&self) -> GatewayInfoView {
        GatewayInfoView {
            gws: self.gws@,
            family: self.family,
            default_route_found: self.default_route_found,
        }
    }
}

/// What each `GatewayInfo` of a list holds.
pub open spec fn infos_view(infos: Seq<GatewayInfo>) -> Seq<GatewayInfoView> {
    infos.map_values(|g: GatewayInfo| g@)
}

/// The other one of the two address families.
pub open spec fn other_family(f: Family) -> Family {
    if f == Family::V4 {
        Family::V6
    } else {
        Family::V4
    }
}

/// The network that covers every address of a family.
pub open spec fn default_network(f: Family) -> IpNetwork {
    if f == Family::V4 {
        IpNetwork::spec_new(IpAddr::V4(Ipv4Addr { bits: 0 }), 0)
    } else {
        IpNetwork::spec_new(IpAddr::V6(Ipv6Addr { bits: 0 }), 0)
    }
}

/// An assignment as it is reported: owned by the container's interface, and,
/// where the bridge is a gateway and no gateway came with the assignment,
/// with the address after the assigned one as its gateway.
pub open spec fn tagged(ip: Ip, is_gw: bool) -> Ip {
    Ip {
        address: ip.address,
        gateway: if ip.gateway.is_none() && is_gw {
            spec_next_ip(ip.address.spec_ip())
        } else {
            ip.gateway
        },
        interface: Some(CONTAINER_INTERFACE_INDEX),
    }
}

/// Every assignment of a list as it is reported.
pub open spec fn tagged_all(ips: Seq<Ip>, is_gw: bool) -> Seq<Ip> {
    ips.map_values(|ip: Ip| tagged(ip, is_gw))
}

/// Whether an assignment can be served by the bridge: it has a gateway, and
/// its prefix length fits the gateway's family.
pub open spec fn servable(ip: Ip) -> bool {
    &&& ip.gateway.is_some()
    &&& ip.address.spec_prefix() <= IpNetwork::max_prefix(ip.gateway.unwrap().family())
}

/// The gateway of an assignment with the prefix length of the assignment.
pub open spec fn gateway_network(ip: Ip) -> IpNetwork {
    IpNetwork::spec_new(ip.gateway.unwrap(), ip.address.spec_prefix())
}

/// Whether a route is a default route with a gateway for a family: its
/// destination is the unspecified address of that family.
pub open spec fn is_default_route(r: Route, f: Family) -> bool {
    r.gw.is_some() && r.dst.family() == f && r.dst.spec_ip().number() == 0
}

/// Whether routes hold a default route with a gateway for a family.
pub open spec fn has_default_route(routes: Seq<Route>, f: Family) -> bool {
    exists|i: int| 0 <= i < routes.len() && is_default_route(#[trigger] routes[i], f)
}

/// Whether assignment `i` is the first one of family `f`.
pub open spec fn is_first(ips: Seq<Ip>, f: Family, i: int) -> bool {
    &&& 0 <= i < ips.len()
    &&& ips[i].address.family() == f
    &&& forall|j: int| 0 <= j < i ==> (#[trigger] ips[j]).address.family() != f
}

/// Whether some assignment is of family `f`.
pub open spec fn has_family(ips: Seq<Ip>, f: Family) -> bool {
    exists|i: int| is_first(ips, f, i)
}

/// The gateway of the first assignment of family `f`.
pub open spec fn first_gateway(ips: Seq<Ip>, f: Family) -> Option<IpAddr> {
    ips[choose|i: int| is_first(ips, f, i)].gateway
}

/// The families of the assignments, each once, in the order in which they
/// first occur.
pub open spec fn families(ips: Seq<Ip>) -> Seq<Family> {
    if ips.len() == 0 {
        Seq::<Family>::empty()
    } else {
        let f = ips[0].address.family();
        if has_family(ips, other_family(f)) {
            seq![f, other_family(f)]
        } else {
            seq![f]
        }
    }
}

/// The default route that is added for family `f`: none where no default
/// gateway is asked for or the routes hold one already, else one through the
/// gateway of the first assignment of the family.
pub open spec fn added_route(ips: Seq<Ip>, routes: Seq<Route>, is_default_gw: bool, f: Family) -> Seq<
    Route,
> {
    if is_default_gw && !has_default_route(routes, f) {
        seq![Route { dst: default_network(f), gw: first_gateway(ips, f) }]
    } else {
        Seq::<Route>::empty()
    }
}

/// The default routes that are added for the given families, in their order.
pub open spec fn added_routes(
    ips: Seq<Ip>,
    routes: Seq<Route>,
    is_default_gw: bool,
    fams: Seq<Family>,
) -> Seq<Route>
    decreases fams.len(),
{
    if fams.len() == 0 {
        Seq::<Route>::empty()
    } else {
        added_routes(ips, routes, is_default_gw, fams.drop_last()) + added_route(
            ips,
            routes,
            is_default_gw,
            fams.last(),
        )
    }
}

/// The gateway networks of the assignments of family `f`, in their order.
pub open spec fn family_gateways(ips: Seq<Ip>, f: Family) -> Seq<IpNetwork> {
    ips.filter_map(
        |ip: Ip|
            if ip.address.family() == f {
                Some(gateway_network(ip))
            } else {
                None
            },
    )
}

/// What the bridge needs for family `f`.
pub open spec fn gateway_info(
    ips: Seq<Ip>,
    routes: Seq<Route>,
    is_default_gw: bool,
    f: Family,
) -> GatewayInfoView {
    GatewayInfoView {
        gws: family_gateways(ips, f),
        family: f,
        default_route_found: is_default_gw && has_default_route(routes, f),
    }
}

/// What the bridge needs for each of the given families: nothing where it is
/// no gateway.
pub open spec fn gateway_infos(
    ips: Seq<Ip>,
    routes: Seq<Route>,
    is_gw: bool,
    is_default_gw: bool,
    fams: Seq<Family>,
) -> Seq<GatewayInfoView> {
    if is_gw {
        fams.map_values(|f: Family| gateway_info(ips, routes, is_default_gw, f))
    } else {
        Seq::<GatewayInfoView>::empty()
    }
}

/// Whether deriving gateways fails: the bridge is to be a gateway, and some
/// assignment, as it would be reported, cannot be served.
pub open spec fn underivable(ips: Seq<Ip>, is_gw: bool) -> bool {
    is_gw && exists|i: int| 0 <= i < ips.len() && !servable(tagged(#[trigger] ips[i], is_gw))
}

/// The network that covers every address of a family.
fn default_net(f: Family) -> (n: IpNetwork)
    ensures
        n == default_network(f),
{
    let ip = if f == Family::V4 {
        IpAddr::V4(Ipv4Addr { bits: 0 })
    } else {
        IpAddr::V6(Ipv6Addr { bits: 0 })
    };
    IpNetwork::new(ip, 0).unwrap()
}

/// The other one of the two address families.
fn other(f: Family) -> (o: Family)
    ensures
        o == other_family(f),
{
    if f == Family::V4 {
        Family::V6
    } else {
        Family::V4
    }
}

/// The assignments as they are reported, unless deriving gateways fails.
fn tag_all(ips: &Vec<Ip>, is_gw: bool) -> (r: Option<Vec<Ip>>)
    ensures
        match r {
            Some(v) => !underivable(ips@, is_gw) && v@ == tagged_all(ips@, is_gw),
            None => underivable(ips@, is_gw),
        },
{
    let mut out: Vec<Ip> = Vec::new();
    let mut i: usize = 0;
    while i < ips.len()
        invariant
            i <= ips.len(),
            out@.len() == i,
            forall|j: int| 0 <= j < i ==> out@[j] == tagged(#[trigger] ips@[j], is_gw),
            is_gw ==> forall|j: int| 0 <= j < i ==> servable(tagged(#[trigger] ips@[j], is_gw)),
        decreases ips.len() - i,
    {
        let ip = ips[i];
        let gateway = if ip.gateway.is_none() && is_gw {
            next_ip(&ip.address.ip())
        } else {
            ip.gateway
        };
        let t = Ip { address: ip.address, gateway, interface: Some(CONTAINER_INTERFACE_INDEX) };
        assert(t == tagged(ips@[i as int], is_gw));
        if is_gw {
            let fits = match gateway {
                Some(gw) => {
                    let max: u8 = if gw.family() == Family::V4 {
                        32
                    } else {
                        128
                    };
                    ip.address.prefix() <= max
                },
                None => false,
            };
            if !fits {
                assert(!servable(tagged(ips@[i as int], is_gw)));
                return None;
            }
        }
        out.push(t);
        i = i + 1;
    }
    assert(out@ =~= tagged_all(ips@, is_gw));
    Some(out)
}

/// Whether routes hold a default route with a gateway for a family.
fn route_found(routes: &Option<Vec<Route>>, f: Family) -> (b: bool)
    ensures
        b == has_default_route(items(*routes), f),
{
    match routes {
        None => false,
        Some(v) => {
            let mut i: usize = 0;
            while i < v.len()
                invariant
                    i <= v.len(),
                    items(*routes) == v@,
                    forall|j: int| 0 <= j < i ==> !is_default_route(#[trigger] v@[j], f),
                decreases v.len() - i,
            {
                let r = v[i];
                if r.gw.is_some() && r.dst.family() == f && r.dst.ip().is_unspecified() {
                    assert(is_default_route(items(*routes)[i as int], f));
                    return true;
                }
                i = i + 1;
            }
            false
        },
    }
}

/// The gateway of the first assignment of a family, if there is such an
/// assignment.
fn first_gateway_of(ips: &Vec<Ip>, f: Family) -> (r: Option<Option<IpAddr>>)
    ensures
        match r {
            Some(g) => has_family(ips@, f) && g == first_gateway(ips@, f),
            None => !has_family(ips@, f),
        },
{
    let mut i: usize = 0;
    while i < ips.len()
        invariant
            i <= ips.len(),
            forall|j: int| 0 <= j < i ==> (#[trigger] ips@[j]).address.family() != f,
        decreases ips.len() - i,
    {
        if ips[i].address.family() == f {
            proof {
                assert(is_first(ips@, f, i as int));
                let k = choose|k: int| is_first(ips@, f, k);
                assert(k == i) by {
                    if k < i {
                        assert(ips@[k].address.family() != f);
                    }
                    if i < k {
                        assert(ips@[i as int].address.family() != f);
                    }
                }
            }
            return Some(ips[i].gateway);
        }
        i = i + 1;
    }
    assert forall|k: int| !is_first(ips@, f, k) by {
        if is_first(ips@, f, k) {
            assert(ips@[k].address.family() != f);
        }
    }
    None
}

/// The gateway networks of the assignments of a family, in their order.
fn gateways_of(ips: &Vec<Ip>, f: Family) -> (r: Vec<IpNetwork>)
    requires
        forall|i: int| 0 <= i < ips.len() ==> servable(#[trigger] ips@[i]),
    ensures
        r@ == family_gateways(ips@, f),
{
    let ghost pick = |ip: Ip|
        if ip.address.family() == f {
            Some(gateway_network(ip))
        } else {
            None
        };
    let mut out: Vec<IpNetwork> = Vec::new();
    let mut i: usize = 0;
    while i < ips.len()
        invariant
            i <= ips.len(),
            forall|j: int| 0 <= j < ips.len() ==> servable(#[trigger] ips@[j]),
            pick == |ip: Ip|
                if ip.address.family() == f {
                    Some(gateway_network(ip))
                } else {
                    None
                },
            out@ == ips@.take(i as int).filter_map(pick),
        decreases ips.len() - i,
    {
        let ip = ips[i];
        proof {
            ips@.lemma_filter_map_take_succ(pick, i as int);
            assert(servable(ips@[i as int]));
        }
        if ip.address.family() == f {
            let net = IpNetwork::new(ip.gateway.unwrap(), ip.address.prefix()).unwrap();
            out.push(net);
        }
        i = i + 1;
    }
    assert(ips@.take(i as int) =~= ips@);
    out
}

/// Adds what one family needs: its default route, where one is to be added,
/// and, where the bridge is a gateway, its `GatewayInfo`.
fn for_family(
    ips: &Vec<Ip>,
    routes: &Option<Vec<Route>>,
    is_gw: bool,
    is_default_gw: bool,
    f: Family,
    added: &mut Vec<Route>,
    infos: &mut Vec<GatewayInfo>,
)
    requires
        has_family(ips@, f),
        is_gw ==> forall|i: int| 0 <= i < ips.len() ==> servable(#[trigger] ips@[i]),
    ensures
        final(added)@ == old(added)@ + added_route(ips@, items(*routes), is_default_gw, f),
        infos_view(final(infos)@) == infos_view(old(infos)@) + (if is_gw {
            seq![gateway_info(ips@, items(*routes), is_default_gw, f)]
        } else {
            Seq::<GatewayInfoView>::empty()
        }),
{
    let found = is_default_gw && route_found(routes, f);
    if is_default_gw && !found {
        let gw = match first_gateway_of(ips, f) {
            Some(g) => g,
            None => None,
        };
        added.push(Route { dst: default_net(f), gw });
    }
    if is_gw {
        let info = GatewayInfo { gws: gateways_of(ips, f), family: f, default_route_found: found };
        infos.push(info);
    }
}

/// Whether `new` and `infos` are what deriving gateways makes of `old`:
/// every assignment reported as the container's, with its gateway; one
/// default route added for each family that lacks one, where a default
/// gateway is asked for; everything else as it was; and for each family what
/// the bridge needs to be its gateway.
pub open spec fn gateways_derived(
    old: ExecResult,
    new: ExecResult,
    is_gw: bool,
    is_default_gw: bool,
    infos: Seq<GatewayInfoView>,
) -> bool {
    let ips = tagged_all(items(old.ips), is_gw);
    let fams = families(ips);
    let added = added_routes(ips, items(old.routes), is_default_gw, fams);
    &&& new.ips.is_some() && new.ips.unwrap()@ == ips
    &&& if added.len() == 0 {
        new.routes == old.routes
    } else {
        new.routes.is_some() && new.routes.unwrap()@ == items(old.routes) + added
    }
    &&& new.cni_version == old.cni_version
    &&& new.interfaces == old.interfaces
    &&& new.dns == old.dns
    &&& infos == gateway_infos(ips, items(old.routes), is_gw, is_default_gw, fams)
}

/// Derives gateways and default routes from what the address-management
/// plugin assigned, and says what the bridge needs for each family.
///
/// Fails with a `Delegate` error, and changes nothing, where the result
/// holds no list of assignments; with a `Config` error, and changes nothing,
/// where the bridge is to be a gateway and an assignment has no gateway and
/// none can be derived (the assigned address is the last IPv4 address, or an
/// IPv6 address), or its prefix length does not fit its gateway's family.
pub fn calc_gateway(ipam_result: &mut ExecResult, net_conf: &NetConf) -> (r: Result<
    Vec<GatewayInfo>,
    Error,
>)
    ensures
        old(ipam_result).ips.is_none() ==> r is Err && r->Err_0.kind == ErrorKind::Delegate
            && *final(ipam_result) == *old(ipam_result),
        old(ipam_result).ips.is_some() && underivable(
            items(old(ipam_result).ips),
            flag(net_conf.is_gw),
        ) ==> r is Err && r->Err_0.kind == ErrorKind::Config && *final(ipam_result) == *old(
            ipam_result,
        ),
        old(ipam_result).ips.is_some() && !underivable(
            items(old(ipam_result).ips),
            flag(net_conf.is_gw),
        ) ==> r is Ok && gateways_derived(
            *old(ipam_result),
            *final(ipam_result),
            flag(net_conf.is_gw),
            flag(net_conf.is_default_gw),
            infos_view(r->Ok_0@),
        ),
{
    let is_gw = match net_conf.is_gw {
        Some(b) => b,
        None => false,
    };
    let is_default_gw = match net_conf.is_default_gw {
        Some(b) => b,
        None => false,
    };
    let reported = match &ipam_result.ips {
        None => {
            return Err(Error::new(ErrorKind::Delegate, "IPAM plugin returned missing IP config"));
        },
        Some(ips) => match tag_all(ips, is_gw) {
            None => {
                return Err(
                    Error::new(ErrorKind::Config, "no gateway can be derived for an assigned address"),
                );
            },
            Some(t) => t,
        },
    };
    let ghost old_routes = items(ipam_result.routes);
    let mut added: Vec<Route> = Vec::new();
    let mut infos: Vec<GatewayInfo> = Vec::new();
    proof {
        assert forall|i: int| 0 <= i < reported.len() implies servable(#[trigger] reported@[i]) || !is_gw by {
            assert(reported@[i] == tagged(items(ipam_result.ips)[i], is_gw));
        }
    }
    if reported.len() > 0 {
        let f0 = reported[0].address.family();
        assert(is_first(reported@, f0, 0));
        for_family(&reported, &ipam_result.routes, is_gw, is_default_gw, f0, &mut added, &mut infos);
        let f1 = other(f0);
        if first_gateway_of(&reported, f1).is_some() {
            for_family(
                &reported,
                &ipam_result.routes,
                is_gw,
                is_default_gw,
                f1,
                &mut added,
                &mut infos,
            );
            proof {
                let fams = seq![f0, f1];
                assert(fams.drop_last() =~= seq![f0]);
                assert(seq![f0].drop_last() =~= Seq::<Family>::empty());
                reveal_with_fuel(added_routes, 3);
                assert(added@ =~= added_routes(reported@, old_routes, is_default_gw, fams));
                assert(infos_view(infos@) =~= gateway_infos(
                    reported@,
                    old_routes,
                    is_gw,
                    is_default_gw,
                    fams,
                ));
            }
        } else {
            proof {
                let fams = seq![f0];
                assert(fams.drop_last() =~= Seq::<Family>::empty());
                reveal_with_fuel(added_routes, 2);
                assert(added@ =~= added_routes(reported@, old_routes, is_default_gw, fams));
                assert(infos_view(infos@) =~= gateway_infos(
                    reported@,
                    old_routes,
                    is_gw,
                    is_default_gw,
                    fams,
                ));
            }
        }
    } else {
        proof {
            assert(infos_view(infos@) =~= gateway_infos(
                reported@,
                old_routes,
                is_gw,
                is_default_gw,
                families(reported@),
            ));
        }
    }
    ipam_result.ips = Some(reported);
    if added.len() > 0 {
        let mut routes: Vec<Route> = match ipam_result.routes.take() {
            Some(v) => v,
            None => Vec::new(),
        };
        routes.append(&mut added);
        ipam_result.routes = Some(routes);
    }
    Ok(infos)
}

/// The default network of a family is of that family and starts at its
/// unspecified address.
pub proof fn lemma_default_network(f: Family)
    requires
        f != Family::Unspec,
    ensures
        default_network(f).family() == f,
        default_network(f).spec_ip().number() == 0,
        default_network(f).spec_prefix() == 0,
        default_network(f).wf(),
{
    IpNetwork::lemma_new(IpAddr::V4(Ipv4Addr { bits: 0 }), 0);
    IpNetwork::lemma_new(IpAddr::V6(Ipv6Addr { bits: 0 }), 0);
}

/// Where the routes hold a default route with a gateway for every family
/// that has an assignment, none is added.
pub proof fn lemma_default_route_not_added_twice(
    ips: Seq<Ip>,
    routes: Seq<Route>,
    is_default_gw: bool,
)
    requires
        forall|f: Family| has_family(ips, f) ==> has_default_route(routes, f),
    ensures
        added_routes(ips, routes, is_default_gw, families(ips)).len() == 0,
{
    let fams = families(ips);
    reveal_with_fuel(added_routes, 3);
    if ips.len() > 0 {
        let f0 = ips[0].address.family();
        assert(is_first(ips, f0, 0));
        if has_family(ips, other_family(f0)) {
            assert(fams.drop_last() =~= seq![f0]);
            assert(seq![f0].drop_last() =~= Seq::<Family>::empty());
        } else {
            assert(fams.drop_last() =~= Seq::<Family>::empty());
        }
    }
}

/// At most one default route is added for a family: the families of the
/// assignments are at most two and differ, and what is added for each is
/// one route at most, to the default network of that family.
pub proof fn lemma_one_default_route_for_a_family(
    ips: Seq<Ip>,
    routes: Seq<Route>,
    is_default_gw: bool,
)
    ensures
        families(ips).len() <= 2,
        families(ips).len() == 2 ==> families(ips)[0] != families(ips)[1],
        forall|i: int| 0 <= i < families(ips).len() ==> #[trigger] families(ips)[i] != Family::Unspec,
        added_routes(ips, routes, is_default_gw, families(ips)).len() <= families(ips).len(),
        forall|f: Family| added_route(ips, routes, is_default_gw, f).len() <= 1,
        forall|f: Family|
            added_route(ips, routes, is_default_gw, f).len() == 1 ==> (#[trigger] added_route(
                ips,
                routes,
                is_default_gw,
                f,
            ))[0].dst == default_network(f),
{
    reveal_with_fuel(added_routes, 3);
    let fams = families(ips);
    if ips.len() > 0 {
        let f0 = ips[0].address.family();
        if has_family(ips, other_family(f0)) {
            assert(fams.drop_last() =~= seq![f0]);
            assert(seq![f0].drop_last() =~= Seq::<Family>::empty());
        } else {
            assert(fams.drop_last() =~= Seq::<Family>::empty());
        }
    }
}

/// Deriving gateways is idempotent: run on its own outcome, it reports the
/// assignments as they are and adds no route. This holds wherever every
/// assignment, as the first run reports it, has a gateway, as is the case
/// after every successful run for a bridge that is a gateway.
pub proof fn lemma_calc_gateway_idempotent(
    ips: Seq<Ip>,
    routes: Seq<Route>,
    is_gw: bool,
    is_default_gw: bool,
)
    requires
        forall|i: int| 0 <= i < ips.len() ==> tagged(#[trigger] ips[i], is_gw).gateway.is_some(),
    ensures
        ({
            let ips1 = tagged_all(ips, is_gw);
            let routes1 = routes + added_routes(ips1, routes, is_default_gw, families(ips1));
            &&& tagged_all(ips1, is_gw) == ips1
            &&& added_routes(ips1, routes1, is_default_gw, families(ips1)).len() == 0
        }),
{
    let ips1 = tagged_all(ips, is_gw);
    let fams = families(ips1);
    let added = added_routes(ips1, routes, is_default_gw, fams);
    let routes1 = routes + added;
    assert(tagged_all(ips1, is_gw) =~= ips1);
    reveal_with_fuel(added_routes, 3);
    if !is_default_gw {
        if ips1.len() > 0 {
            let f0 = ips1[0].address.family();
            if has_family(ips1, other_family(f0)) {
                assert(fams.drop_last() =~= seq![f0]);
                assert(seq![f0].drop_last() =~= Seq::<Family>::empty());
            } else {
                assert(fams.drop_last() =~= Seq::<Family>::empty());
            }
        }
    } else {
        assert forall|f: Family| has_family(ips1, f) implies has_default_route(routes1, f) by {
            let k = choose|k: int| is_first(ips1, f, k);
            assert(is_first(ips1, f, k));
            assert(ips1[k] == tagged(ips[k], is_gw));
            assert(f != Family::Unspec);
            lemma_default_network(f);
            let f0 = ips1[0].address.family();
            assert(is_first(ips1, f0, 0));
            if has_default_route(routes, f) {
                let i = choose|i: int| 0 <= i < routes.len() && is_default_route(#[trigger] routes[i], f);
                assert(is_default_route(routes1[i], f));
            } else {
                let a0 = added_route(ips1, routes, is_default_gw, f0);
                if has_family(ips1, other_family(f0)) {
                    assert(fams.drop_last() =~= seq![f0]);
                    assert(seq![f0].drop_last() =~= Seq::<Family>::empty());
                    let a1 = added_route(ips1, routes, is_default_gw, other_family(f0));
                    assert(added =~= a0 + a1);
                    if f == f0 {
                        assert(is_default_route(routes1[routes.len() as int], f));
                    } else {
                        assert(f == other_family(f0));
                        assert(is_default_route(routes1[(routes.len() + a0.len()) as int], f));
                    }
                } else {
                    assert(fams.drop_last() =~= Seq::<Family>::empty());
                    assert(added =~= a0);
                    assert(f == f0);
                    assert(is_default_route(routes1[routes.len() as int], f));
                }
            }
        }
        lemma_default_route_not_added_twice(ips1, routes1, is_default_gw);
    }
}

} // verus!
