use cni_plugins::addr::{IpAddr, IpNetwork, Ipv4Addr, Ipv6Addr};
use cni_plugins::chain::{format_chain_name, to_hex_string};
use cni_plugins::error::ErrorKind;
use cni_plugins::masq::{setup_ip_masq, FilterAction};
use cni_plugins::reconcile::{ensure_addr, AddrAction};

fn net4(a: u8, b: u8, c: u8, d: u8, prefix: u8) -> IpNetwork {
    IpNetwork::new(IpAddr::V4(Ipv4Addr::new(a, b, c, d)), prefix).unwrap()
}

fn net6(bits: u128, prefix: u8) -> IpNetwork {
    IpNetwork::new(IpAddr::V6(Ipv6Addr::from_bits(bits)), prefix).unwrap()
}

fn settle(mut addrs: Vec<IpNetwork>, actions: &[AddrAction]) -> Vec<IpNetwork> {
    for a in actions {
        match a {
            AddrAction::Delete(x) => addrs.retain(|y| y != x),
            AddrAction::Add(x) => addrs.push(*x),
        }
    }
    addrs
}

#[test]
fn first_gateway_is_added() {
    let g1 = net4(10, 10, 0, 1, 24);
    assert_eq!(ensure_addr("br0", &vec![], &g1, false).unwrap(), vec![AddrAction::Add(g1)]);
}

#[test]
fn second_ipv4_gateway_conflicts_unless_forced() {
    let g1 = net4(10, 10, 0, 1, 24);
    let g2 = net4(10, 20, 0, 1, 24);
    let bridge = settle(vec![], &ensure_addr("br0", &vec![], &g1, false).unwrap());
    let e = ensure_addr("br0", &bridge, &g2, false).unwrap_err();
    assert_eq!(e.kind, ErrorKind::AddressConflict);
    assert_eq!(e.message, "br0 already has an IP address different from 10.20.0.1/24");
    let plan = ensure_addr("br0", &bridge, &g2, true).unwrap();
    assert_eq!(plan, vec![AddrAction::Delete(g1), AddrAction::Add(g2)]);
    assert_eq!(settle(bridge, &plan), vec![g2]);
}

#[test]
fn same_ip_is_left_alone() {
    let g1 = net4(10, 10, 0, 1, 24);
    let bridge = vec![g1];
    assert!(ensure_addr("br0", &bridge, &g1, false).unwrap().is_empty());
    assert!(ensure_addr("br0", &bridge, &g1, true).unwrap().is_empty());
    let wider = net4(10, 10, 0, 1, 16);
    let plan = ensure_addr("br0", &bridge, &wider, false).unwrap();
    assert!(plan.is_empty());
    assert_eq!(settle(bridge.clone(), &plan).len(), 1);
    let others = vec![net4(10, 99, 0, 1, 24), g1];
    assert!(ensure_addr("br0", &others, &g1, false).unwrap().is_empty());
}

#[test]
fn ipv6_networks_coexist_unless_they_overlap() {
    let s1 = net6(0x2001_0db8_0000_0001_0000_0000_0000_0001, 64);
    let s2 = net6(0x2001_0db8_0000_0002_0000_0000_0000_0001, 64);
    let bridge = vec![s1];
    let plan = ensure_addr("cni0", &bridge, &s2, false).unwrap();
    assert_eq!(plan, vec![AddrAction::Add(s2)]);
    assert_eq!(settle(bridge.clone(), &plan), vec![s1, s2]);

    let inside = net6(0x2001_0db8_0000_0001_0000_0000_0000_0002, 64);
    let e = ensure_addr("cni0", &bridge, &inside, false).unwrap_err();
    assert_eq!(e.kind, ErrorKind::AddressConflict);
    let plan = ensure_addr("cni0", &bridge, &inside, true).unwrap();
    assert_eq!(plan, vec![AddrAction::Delete(s1), AddrAction::Add(inside)]);

    let wide = net6(0x2001_0db8_0000_0002_0000_0000_0000_0001, 32);
    assert!(ensure_addr("cni0", &bridge, &wide, false).is_err());
}

#[test]
fn addresses_of_the_other_family_are_left_alone() {
    let s1 = net6(0x2001_0db8_0000_0001_0000_0000_0000_0001, 64);
    let g1 = net4(10, 10, 0, 1, 24);
    assert_eq!(ensure_addr("br0", &vec![s1], &g1, false).unwrap(), vec![AddrAction::Add(g1)]);
    assert_eq!(ensure_addr("br0", &vec![g1], &s1, false).unwrap(), vec![AddrAction::Add(s1)]);
}

#[test]
fn forced_reconcile_removes_every_conflict() {
    let a = net4(10, 1, 0, 1, 24);
    let b = net4(10, 2, 0, 1, 24);
    let c = net4(10, 3, 0, 1, 24);
    let plan = ensure_addr("br0", &vec![a, b], &c, true).unwrap();
    assert_eq!(plan, vec![AddrAction::Delete(a), AddrAction::Delete(b), AddrAction::Add(c)]);
}

#[test]
fn chain_name_is_stable_and_short() {
    let a = format_chain_name("mynet", "container1");
    let b = format_chain_name("mynet", "container1");
    assert_eq!(a, b);
    assert_eq!(a, "CNI-cd72cbd512bbbf54d596852f");
    assert_eq!(a.len(), 28);
    assert_eq!(format_chain_name("", ""), "CNI-cf83e1357eefb8bdf1542850");
    assert_ne!(format_chain_name("mynet", "abc"), a);
    assert_eq!(format_chain_name("mynet", "abc"), "CNI-e88f49d94512ff752ebe6070");
}

#[test]
fn bytes_in_hexadecimal() {
    assert_eq!(to_hex_string(&[]), "");
    assert_eq!(to_hex_string(&[0x00, 0x0f, 0xa0, 0xff, 0x12]), "000fa0ff12");
}

fn parts(a: &FilterAction) -> (bool, &str, &str, Option<&str>) {
    match a {
        FilterAction::NewChain { ipv6, table, chain } => (*ipv6, table, chain, None),
        FilterAction::AppendUnique { ipv6, table, chain, rule } => {
            (*ipv6, table, chain, Some(rule))
        }
    }
}

#[test]
fn masquerade_creates_the_chain_and_three_rules() {
    let ip = net4(10, 10, 0, 5, 24);
    let chains = vec!["PREROUTING".to_string(), "POSTROUTING".to_string()];
    let plan = setup_ip_masq(&ip, "CNI-0123", &chains);
    let got: Vec<_> = plan.iter().map(parts).collect();
    assert_eq!(
        got,
        vec![
            (false, "nat", "CNI-0123", None),
            (false, "nat", "CNI-0123", Some("-d 10.10.0.5/24 -j ACCEPT")),
            (false, "nat", "CNI-0123", Some("! -d 224.0.0.0/4 -j MASQUERADE")),
            (false, "nat", "POSTROUTING", Some("-s 10.10.0.5 -j CNI-0123")),
        ]
    );
}

#[test]
fn masquerade_keeps_an_existing_chain() {
    let ip = net4(192, 168, 0, 1, 24);
    let chains = vec!["POSTROUTING".to_string(), "cni-012".to_string()];
    let plan = setup_ip_masq(&ip, "cni-012", &chains);
    let got: Vec<_> = plan.iter().map(parts).collect();
    assert_eq!(
        got,
        vec![
            (false, "nat", "cni-012", Some("-d 192.168.0.1/24 -j ACCEPT")),
            (false, "nat", "cni-012", Some("! -d 224.0.0.0/4 -j MASQUERADE")),
            (false, "nat", "POSTROUTING", Some("-s 192.168.0.1 -j cni-012")),
        ]
    );
}

#[test]
fn masquerade_for_ipv6_spares_its_multicast_range() {
    let ip = net6(0x2001_0db8_0000_0001_0000_0000_0000_0005, 64);
    let plan = setup_ip_masq(&ip, "CNI-6", &vec![]);
    let got: Vec<_> = plan.iter().map(parts).collect();
    assert_eq!(
        got,
        vec![
            (true, "nat", "CNI-6", None),
            (true, "nat", "CNI-6", Some("-d 2001:db8:0:1::5/64 -j ACCEPT")),
            (true, "nat", "CNI-6", Some("! -d ff00::/8 -j MASQUERADE")),
            (true, "nat", "POSTROUTING", Some("-s 2001:db8:0:1::5 -j CNI-6")),
        ]
    );
}

#[test]
fn test_setup_ip_masq() {
    let ip = IpNetwork::new(IpAddr::V4(Ipv4Addr::new(192, 168, 0, 1)), 24).unwrap();
    let chain = "cni-012";
    let list = setup_ip_masq(&ip, chain, &vec![]);
    let got: Vec<_> = list.iter().map(parts).collect();
    assert_eq!(
        got,
        vec![
            (false, "nat", "cni-012", None),
            (false, "nat", "cni-012", Some("-d 192.168.0.1/24 -j ACCEPT")),
            (false, "nat", "cni-012", Some("! -d 224.0.0.0/4 -j MASQUERADE")),
            (false, "nat", "POSTROUTING", Some("-s 192.168.0.1 -j cni-012")),
        ]
    );
}
