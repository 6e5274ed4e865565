use cni_plugins::addr::{Family, IpAddr, IpNetwork, Ipv4Addr, Ipv6Addr};
use cni_plugins::config::NetConf;
use cni_plugins::error::ErrorKind;
use cni_plugins::gateway::{calc_gateway, CONTAINER_INTERFACE_INDEX};
use cni_plugins::types::{ExecResult, IPAMConfig, Ip, Route};

fn v4(a: u8, b: u8, c: u8, d: u8) -> IpAddr {
    IpAddr::V4(Ipv4Addr::new(a, b, c, d))
}

fn net4(a: u8, b: u8, c: u8, d: u8, prefix: u8) -> IpNetwork {
    IpNetwork::new(v4(a, b, c, d), prefix).unwrap()
}

fn v6(bits: u128) -> IpAddr {
    IpAddr::V6(Ipv6Addr::from_bits(bits))
}

fn conf(is_gw: Option<bool>, is_default_gw: Option<bool>) -> NetConf {
    NetConf {
        cni_version: "1.0.0".to_string(),
        name: "mynet".to_string(),
        plugin: "bridge".to_string(),
        br_name: Some("br0".to_string()),
        is_gw,
        is_default_gw,
        force_address: None,
        ip_masq: Some(true),
        mtu: None,
        hairpin_mode: None,
        ipam: IPAMConfig::default(),
        promisc_mode: None,
        vlan: None,
        vlan_trunk: None,
        preserve_default_vlan: None,
        mac_spoof_chk: None,
        enable_dad: None,
        macspoofchk: None,
    }
}

fn result(ips: Vec<Ip>, routes: Option<Vec<Route>>) -> ExecResult {
    ExecResult { cni_version: None, interfaces: None, ips: Some(ips), routes, dns: None }
}

fn assigned(address: IpNetwork, gateway: Option<IpAddr>) -> Ip {
    Ip { address, gateway, interface: None }
}

#[test]
fn gateway_is_derived_and_default_route_added() {
    let mut r = result(vec![assigned(net4(10, 10, 0, 5, 24), None)], None);
    let mut c = conf(Some(true), Some(true));
    c.normalize();
    let infos = calc_gateway(&mut r, &c).unwrap();
    let ips = r.ips.unwrap();
    assert_eq!(ips.len(), 1);
    assert_eq!(ips[0].address, net4(10, 10, 0, 5, 24));
    assert_eq!(ips[0].gateway, Some(v4(10, 10, 0, 6)));
    assert_eq!(ips[0].interface, Some(2));
    assert_eq!(CONTAINER_INTERFACE_INDEX, 2);
    let routes = r.routes.unwrap();
    assert_eq!(routes, vec![Route { dst: net4(0, 0, 0, 0, 0), gw: Some(v4(10, 10, 0, 6)) }]);
    assert_eq!(infos.len(), 1);
    assert_eq!(infos[0].family, Family::V4);
    assert_eq!(infos[0].gws, vec![net4(10, 10, 0, 6, 24)]);
    assert!(!infos[0].default_route_found);
}

#[test]
fn default_gateway_alone_makes_the_bridge_a_gateway() {
    let mut c = conf(None, Some(true));
    c.normalize();
    assert_eq!(c.is_gw, Some(true));
    let mut c = conf(Some(false), Some(false));
    c.normalize();
    assert_eq!(c.is_gw, Some(false));
    let mut c = conf(None, None);
    c.normalize();
    assert_eq!(c.is_gw, None);
}

#[test]
fn second_run_adds_no_second_default_route() {
    let mut r = result(vec![assigned(net4(10, 10, 0, 5, 24), None)], None);
    let c = conf(Some(true), Some(true));
    calc_gateway(&mut r, &c).unwrap();
    let first_routes = r.routes.clone().unwrap();
    let first_ips = r.ips.clone().unwrap();
    let infos = calc_gateway(&mut r, &c).unwrap();
    assert_eq!(r.routes.unwrap(), first_routes);
    assert_eq!(r.ips.unwrap(), first_ips);
    assert_eq!(first_routes.len(), 1);
    assert!(infos[0].default_route_found);
}

#[test]
fn existing_default_route_is_kept() {
    let routes = vec![
        Route { dst: net4(192, 168, 0, 0, 16), gw: Some(v4(10, 10, 5, 1)) },
        Route { dst: net4(0, 0, 0, 0, 0), gw: Some(v4(10, 10, 0, 254)) },
    ];
    let mut r = result(
        vec![assigned(net4(10, 10, 0, 1, 24), Some(v4(10, 10, 0, 254)))],
        Some(routes.clone()),
    );
    let infos = calc_gateway(&mut r, &conf(Some(true), Some(true))).unwrap();
    assert_eq!(r.routes.unwrap(), routes);
    assert!(infos[0].default_route_found);
    assert_eq!(infos[0].gws, vec![net4(10, 10, 0, 254, 24)]);
    assert_eq!(r.ips.unwrap()[0].gateway, Some(v4(10, 10, 0, 254)));
}

#[test]
fn default_route_without_gateway_does_not_count() {
    let routes = vec![Route { dst: net4(0, 0, 0, 0, 0), gw: None }];
    let mut r = result(vec![assigned(net4(10, 10, 0, 5, 24), None)], Some(routes));
    let infos = calc_gateway(&mut r, &conf(Some(true), Some(true))).unwrap();
    let routes = r.routes.unwrap();
    assert_eq!(routes.len(), 2);
    assert_eq!(routes[1], Route { dst: net4(0, 0, 0, 0, 0), gw: Some(v4(10, 10, 0, 6)) });
    assert!(!infos[0].default_route_found);
}

#[test]
fn no_gateway_asked_for() {
    let mut r = result(vec![assigned(net4(10, 10, 0, 5, 24), None)], None);
    let infos = calc_gateway(&mut r, &conf(None, None)).unwrap();
    assert!(infos.is_empty());
    assert!(r.routes.is_none());
    let ips = r.ips.unwrap();
    assert_eq!(ips[0].gateway, None);
    assert_eq!(ips[0].interface, Some(2));
}

#[test]
fn one_info_for_each_family_in_order_of_appearance() {
    let a6 = IpNetwork::new(v6(0x3ffe_ffff_0000_01ff_0000_0000_0000_0001), 64).unwrap();
    let g6 = v6(0x3ffe_ffff_0000_0000_0000_0000_0000_0001);
    let mut r = result(
        vec![
            assigned(a6, Some(g6)),
            assigned(net4(10, 10, 0, 1, 24), Some(v4(10, 10, 0, 254))),
            assigned(net4(10, 20, 0, 1, 16), None),
        ],
        None,
    );
    let infos = calc_gateway(&mut r, &conf(Some(true), Some(true))).unwrap();
    assert_eq!(infos.len(), 2);
    assert_eq!(infos[0].family, Family::V6);
    assert_eq!(infos[0].gws, vec![IpNetwork::new(g6, 64).unwrap()]);
    assert_eq!(infos[1].family, Family::V4);
    assert_eq!(infos[1].gws, vec![net4(10, 10, 0, 254, 24), net4(10, 20, 0, 2, 16)]);
    let routes = r.routes.unwrap();
    assert_eq!(
        routes,
        vec![
            Route { dst: IpNetwork::new(v6(0), 0).unwrap(), gw: Some(g6) },
            Route { dst: net4(0, 0, 0, 0, 0), gw: Some(v4(10, 10, 0, 254)) },
        ]
    );
}

#[test]
fn missing_assignments_are_a_delegate_error() {
    let mut r = ExecResult::default();
    let e = calc_gateway(&mut r, &conf(Some(true), None)).unwrap_err();
    assert_eq!(e.kind, ErrorKind::Delegate);
    assert_eq!(e.message, "IPAM plugin returned missing IP config");
}

#[test]
fn underivable_gateway_is_a_config_error_and_changes_nothing() {
    let last = assigned(net4(255, 255, 255, 255, 32), None);
    let mut r = result(vec![assigned(net4(10, 0, 0, 1, 24), None), last], None);
    let e = calc_gateway(&mut r, &conf(Some(true), Some(true))).unwrap_err();
    assert_eq!(e.kind, ErrorKind::Config);
    assert!(r.routes.is_none());
    let ips = r.ips.unwrap();
    assert_eq!(ips[0].gateway, None);
    assert_eq!(ips[0].interface, None);

    let a6 = IpNetwork::new(v6(0x3ffe_ffff_0000_01ff_0000_0000_0000_0001), 64).unwrap();
    let mut r = result(vec![assigned(a6, None)], None);
    assert_eq!(
        calc_gateway(&mut r, &conf(Some(true), None)).unwrap_err().kind,
        ErrorKind::Config
    );
    let mut r = result(vec![assigned(a6, Some(v4(10, 0, 0, 1)))], None);
    assert_eq!(
        calc_gateway(&mut r, &conf(Some(true), None)).unwrap_err().kind,
        ErrorKind::Config
    );
}
