use cni_plugins::add::cmd_add;
use cni_plugins::addr::{Family, IpAddr, IpNetwork, Ipv4Addr};
use cni_plugins::bridge::{bridge_by_name, bridge_interface, ensure_bridge, setup_bridge};
use cni_plugins::config::NetConf;
use cni_plugins::error::{Error, ErrorKind, IoErrorKind};
use cni_plugins::host::{Link, LinkKind, Netns, Reply, Request, Step};
use cni_plugins::masq::FilterAction;
use cni_plugins::skel::CmdArgs;
use cni_plugins::types::{ExecResult, IPAMConfig, Ip, Route};
use cni_plugins::veth::{random_veth_name, setup_veth};

fn ns(id: &str, path: Option<&str>, fd: u32) -> Netns {
    Netns { id: id.to_string(), path: path.map(|p| p.to_string()), fd }
}

fn net4(a: u8, b: u8, c: u8, d: u8, prefix: u8) -> IpNetwork {
    IpNetwork::new(IpAddr::V4(Ipv4Addr::new(a, b, c, d)), prefix).unwrap()
}

/// A host in memory: two namespaces, devices, addresses, kernel parameters
/// and a packet filter.
struct Host {
    current: String,
    host_ns: Netns,
    container_ns: Netns,
    links: Vec<(String, Link)>,
    master: Vec<(u32, u32)>,
    up: Vec<u32>,
    promisc: Vec<u32>,
    addrs: Vec<(u32, IpNetwork)>,
    routes: Vec<(u32, IpNetwork, Option<IpAddr>)>,
    sysctl: Vec<(String, String)>,
    chains: Vec<String>,
    rules: Vec<(String, String)>,
    entropy: Vec<[u8; 4]>,
    delegate: Option<ExecResult>,
    next_index: u32,
    log: Vec<String>,
}

impl Host {
    fn new() -> Host {
        Host {
            current: "host".to_string(),
            host_ns: ns("host", None, 3),
            container_ns: ns("box", Some("/var/run/netns/box"), 4),
            links: vec![],
            master: vec![],
            up: vec![],
            promisc: vec![],
            addrs: vec![],
            routes: vec![],
            sysctl: vec![],
            chains: vec!["PREROUTING".to_string(), "POSTROUTING".to_string()],
            rules: vec![],
            entropy: vec![],
            delegate: None,
            next_index: 1,
            log: vec![],
        }
    }

    fn find(&self, space: &str, name: &str) -> Option<Link> {
        self.links.iter().find(|(s, l)| s == space && l.name == name).map(|(_, l)| l.clone())
    }

    fn place(&mut self, space: &str, mut link: Link) {
        link.index = self.next_index;
        link.hardware_addr = Some(vec![2, 0, 0, 0, 0, self.next_index as u8]);
        self.next_index += 1;
        self.links.push((space.to_string(), link));
    }

    fn answer(&mut self, request: Request) -> Reply {
        self.log.push(format!("{}:{:?}", self.current, request));
        let here = self.current.clone();
        match request {
            Request::LinkAdd(link) => {
                if self.find(&here, &link.name).is_some() {
                    return Reply::Failed(Error::from_io(IoErrorKind::AlreadyExists, "file exists"));
                }
                if let LinkKind::Veth { peer_name, peer_netns_fd } = &link.kind {
                    let space = if *peer_netns_fd == self.host_ns.fd { "host" } else { "box" };
                    if self.find(space, peer_name).is_some() {
                        return Reply::Failed(Error::from_io(
                            IoErrorKind::AlreadyExists,
                            "file exists",
                        ));
                    }
                    let peer = Link {
                        index: 0,
                        name: peer_name.clone(),
                        mtu: 0,
                        hardware_addr: None,
                        kind: LinkKind::Veth { peer_name: link.name.clone(), peer_netns_fd: 0 },
                    };
                    self.place(space, peer);
                }
                self.place(&here, link);
                Reply::Done
            }
            Request::LinkDel(name) => {
                let before = self.links.len();
                self.links.retain(|(s, l)| !(s == &here && l.name == name));
                if self.links.len() < before {
                    Reply::Done
                } else {
                    Reply::Failed(Error::from_io(IoErrorKind::NotFound, "no such device"))
                }
            }
            Request::LinkByName(name) => Reply::Link(self.find(&here, &name)),
            Request::LinkIndex(name) => Reply::Index(self.find(&here, &name).map(|l| l.index)),
            Request::SetPromiscOn(i) => {
                self.promisc.push(i);
                Reply::Done
            }
            Request::LinkSetUp(i) => {
                self.up.push(i);
                Reply::Done
            }
            Request::LinkSetMaster { link, master } => {
                self.master.push((link, master));
                Reply::Done
            }
            Request::AddrList { link, family } => Reply::Addrs(
                self.addrs
                    .iter()
                    .filter(|(l, a)| *l == link && a.family() == family)
                    .map(|(_, a)| *a)
                    .collect(),
            ),
            Request::AddrDel { link, addr } => {
                self.addrs.retain(|(l, a)| !(*l == link && *a == addr));
                Reply::Done
            }
            Request::AddrAdd { link, addr } => {
                self.addrs.push((link, addr));
                Reply::Done
            }
            Request::RouteAdd { link, dst, gw } => {
                self.routes.push((link, dst, gw));
                Reply::Done
            }
            Request::Sysctl(w) => {
                self.sysctl.push((w.key, w.value));
                Reply::Done
            }
            Request::CurrentNetns => {
                let n = if here == "host" { &self.host_ns } else { &self.container_ns };
                Reply::Netns(Some(n.clone()))
            }
            Request::NetnsFromPath(path) => {
                if self.container_ns.path.as_deref() == Some(path.as_str()) {
                    Reply::Netns(Some(self.container_ns.clone()))
                } else {
                    Reply::Netns(None)
                }
            }
            Request::SetNetns(n) => {
                self.current = n.id;
                Reply::Done
            }
            Request::Entropy => Reply::Entropy(self.entropy.remove(0)),
            Request::ListChains { .. } => Reply::Chains(self.chains.clone()),
            Request::Filter(FilterAction::NewChain { chain, .. }) => {
                self.chains.push(chain);
                Reply::Done
            }
            Request::Filter(FilterAction::AppendUnique { chain, rule, .. }) => {
                if !self.rules.contains(&(chain.clone(), rule.clone())) {
                    self.rules.push((chain, rule));
                }
                Reply::Done
            }
            Request::Delegate { .. } => match self.delegate.take() {
                Some(r) => Reply::Delegated(r),
                None => Reply::Failed(Error::new(ErrorKind::Delegate, "no plugin")),
            },
        }
    }
}

fn run_bridge(host: &mut Host, name: &str, promisc: bool) -> Result<Link, Error> {
    let (mut machine, mut request) = ensure_bridge(name, 1500, promisc, false);
    loop {
        let reply = host.answer(request);
        match machine.step(reply) {
            Step::Call(next) => request = next,
            Step::Done(link) => return Ok(link),
            Step::Fail(e) => return Err(e),
        }
    }
}

#[test]
fn bridge_is_created_once() {
    let mut host = Host::new();
    let first = run_bridge(&mut host, "br0", false).unwrap();
    assert_eq!(first.name, "br0");
    assert_eq!(first.mtu, 1500);
    assert!(matches!(first.kind, LinkKind::Bridge { vlan_filtering: Some(false) }));
    assert_eq!(host.links.len(), 1);
    assert_eq!(host.up, vec![first.index]);
    assert_eq!(
        host.sysctl,
        vec![("net/ipv6/conf/br0/accept_ra".to_string(), "1".to_string())]
    );
    let second = run_bridge(&mut host, "br0", false).unwrap();
    assert_eq!(second.index, first.index);
    assert_eq!(second.name, first.name);
    assert_eq!(host.links.len(), 1);
}

#[test]
fn bridge_operations_come_in_order() {
    let mut host = Host::new();
    run_bridge(&mut host, "br0", true).unwrap();
    let kinds: Vec<&str> = host
        .log
        .iter()
        .map(|l| l.split(|c| c == '(' || c == ' ').next().unwrap())
        .collect();
    assert_eq!(
        kinds,
        vec![
            "host:LinkAdd",
            "host:LinkIndex",
            "host:SetPromiscOn",
            "host:LinkByName",
            "host:Sysctl",
            "host:LinkSetUp"
        ]
    );
    assert_eq!(host.promisc.len(), 1);
}

#[test]
fn a_device_that_is_no_bridge_is_a_type_mismatch() {
    let mut host = Host::new();
    host.place(
        "host",
        Link { index: 0, name: "br0".to_string(), mtu: 0, hardware_addr: None, kind: LinkKind::Other },
    );
    let e = run_bridge(&mut host, "br0", false).unwrap_err();
    assert_eq!(e.kind, ErrorKind::TypeMismatch);
    assert_eq!(e.message, "link br0 is not a bridge");
    assert_eq!(host.links.len(), 1);
}

#[test]
fn bridge_creation_failure_is_a_provisioning_error() {
    let (mut machine, _) = ensure_bridge("br0", 0, false, true);
    let reply = Reply::Failed(Error::from_io(IoErrorKind::PermissionDenied, "denied"));
    match machine.step(reply) {
        Step::Fail(e) => {
            assert_eq!(e.kind, ErrorKind::Provisioning);
            assert_eq!(e.message, "link add failed: denied");
        }
        other => panic!("unexpected {:?}", other),
    }
    match machine.step(Reply::Done) {
        Step::Fail(e) => assert_eq!(e.kind, ErrorKind::Consistency),
        other => panic!("unexpected {:?}", other),
    }
}

#[test]
fn missing_bridge_after_creation_is_a_provisioning_error() {
    let (mut machine, _) = ensure_bridge("br0", 0, false, true);
    assert!(matches!(machine.step(Reply::Done), Step::Call(Request::LinkByName(n)) if n == "br0"));
    match machine.step(Reply::Link(None)) {
        Step::Fail(e) => {
            assert_eq!(e.kind, ErrorKind::Provisioning);
            assert_eq!(e.message, "bridge not found");
        }
        other => panic!("unexpected {:?}", other),
    }
}

#[test]
fn bridge_by_name_judges_the_kind() {
    assert!(bridge_by_name("br0", None).unwrap().is_none());
    let br = Link {
        index: 7,
        name: "br0".to_string(),
        mtu: 0,
        hardware_addr: None,
        kind: LinkKind::Bridge { vlan_filtering: None },
    };
    assert_eq!(bridge_by_name("br0", Some(br.clone())).unwrap().unwrap().index, 7);
    let i = bridge_interface(&br).unwrap();
    assert_eq!(i.name, "br0");
    assert_eq!(i.mac.unwrap().bytes, [0; 6]);
    assert_eq!(i.sandbox, None);
    let odd = Link { hardware_addr: Some(vec![1, 2, 3]), ..br };
    assert_eq!(bridge_interface(&odd).unwrap_err().kind, ErrorKind::Config);
}

fn conf() -> NetConf {
    NetConf {
        cni_version: "1.0.0".to_string(),
        name: "mynet".to_string(),
        plugin: "bridge".to_string(),
        br_name: Some("br0".to_string()),
        is_gw: Some(true),
        is_default_gw: Some(true),
        force_address: None,
        ip_masq: Some(true),
        mtu: None,
        hairpin_mode: None,
        ipam: IPAMConfig { plugin: "host-local".to_string(), ..IPAMConfig::default() },
        promisc_mode: None,
        vlan: None,
        vlan_trunk: None,
        preserve_default_vlan: None,
        mac_spoof_chk: None,
        enable_dad: None,
        macspoofchk: None,
    }
}

#[test]
fn bridge_of_a_configuration() {
    let (_, first) = setup_bridge(&conf());
    match first {
        Request::LinkAdd(l) => {
            assert_eq!(l.name, "br0");
            assert_eq!(l.mtu, 0);
            assert!(matches!(l.kind, LinkKind::Bridge { vlan_filtering: Some(false) }));
        }
        other => panic!("unexpected {:?}", other),
    }
    let mut c = conf();
    c.br_name = None;
    c.mtu = Some(9000);
    c.vlan = Some(5);
    match setup_bridge(&c).1 {
        Request::LinkAdd(l) => {
            assert_eq!(l.name, "cni0");
            assert_eq!(l.mtu, 9000);
            assert!(matches!(l.kind, LinkKind::Bridge { vlan_filtering: Some(true) }));
        }
        other => panic!("unexpected {:?}", other),
    }
}

fn run_veth(host: &mut Host, host_name: &str) -> Result<(Link, Link), Error> {
    let (mut machine, mut request) =
        setup_veth("eth0", host_name, 1500, "", &host.host_ns.clone(), &host.container_ns.clone());
    loop {
        let reply = host.answer(request);
        match machine.step(reply) {
            Step::Call(next) => request = next,
            Step::Done(pair) => return Ok((pair.host, pair.container)),
            Step::Fail(e) => return Err(e),
        }
    }
}

#[test]
fn veth_name_is_prefix_and_eight_hex_digits() {
    assert_eq!(random_veth_name(&[0x00, 0x0a, 0xf0, 0xff]), "veth000af0ff");
    let name = random_veth_name(&[0xde, 0xad, 0xbe, 0xef]);
    assert_eq!(name, "vethdeadbeef");
    assert_eq!(name.len(), 12);
    assert!(name[4..].chars().all(|c| c.is_ascii_hexdigit() && !c.is_ascii_uppercase()));
}

#[test]
fn veth_pair_gets_a_random_host_name() {
    let mut host = Host::new();
    host.current = "box".to_string();
    host.entropy = vec![[1, 2, 3, 4]];
    let (h, c) = run_veth(&mut host, "").unwrap();
    assert_eq!(h.name, "veth01020304");
    assert_eq!(c.name, "eth0");
    assert!(host.find("host", "veth01020304").is_some());
    assert!(host.find("box", "eth0").is_some());
    assert_eq!(host.up, vec![h.index]);
    assert_eq!(host.current, "box");
}

#[test]
fn veth_collision_is_retried_with_a_new_name() {
    let mut host = Host::new();
    host.place(
        "host",
        Link {
            index: 0,
            name: "vethaaaaaaaa".to_string(),
            mtu: 0,
            hardware_addr: None,
            kind: LinkKind::Other,
        },
    );
    host.current = "box".to_string();
    host.entropy = vec![[0xaa, 0xaa, 0xaa, 0xaa], [0xbb, 0xbb, 0xbb, 0xbb]];
    let (h, c) = run_veth(&mut host, "").unwrap();
    assert_eq!(h.name, "vethbbbbbbbb");
    assert_eq!(c.name, "eth0");
    assert!(host.entropy.is_empty());
    let adds = host.log.iter().filter(|l| l.contains("LinkAdd")).count();
    assert_eq!(adds, 2);
}

#[test]
fn veth_gives_up_after_ten_attempts() {
    let mut host = Host::new();
    host.place(
        "host",
        Link { index: 0, name: "vethfixed".to_string(), mtu: 0, hardware_addr: None, kind: LinkKind::Other },
    );
    host.current = "box".to_string();
    let e = run_veth(&mut host, "vethfixed").unwrap_err();
    assert_eq!(e.kind, ErrorKind::Provisioning);
    assert_eq!(e.message, "failed to create veth pair");
    let adds = host.log.iter().filter(|l| l.contains("LinkAdd")).count();
    assert_eq!(adds, 10);
    assert!(host.find("box", "eth0").is_none());
}

#[test]
fn veth_outside_the_container_namespace_is_refused() {
    let mut host = Host::new();
    let e = run_veth(&mut host, "").unwrap_err();
    assert_eq!(e.kind, ErrorKind::Consistency);
    assert_eq!(e.message, "netns not match");
    assert!(host.links.is_empty());
}

#[test]
fn unresolved_container_end_is_deleted_before_the_retry() {
    let h = ns("host", None, 3);
    let c = ns("box", Some("/var/run/netns/box"), 4);
    let (mut machine, first) = setup_veth("eth0", "vethx", 0, "", &h, &c);
    assert!(matches!(first, Request::CurrentNetns));
    assert!(matches!(machine.step(Reply::Netns(Some(c.clone()))), Step::Call(Request::LinkAdd(_))));
    assert!(matches!(machine.step(Reply::Done), Step::Call(Request::CurrentNetns)));
    assert!(matches!(
        machine.step(Reply::Netns(Some(c.clone()))),
        Step::Call(Request::LinkByName(n)) if n == "eth0"
    ));
    assert!(matches!(machine.step(Reply::Link(None)), Step::Call(Request::LinkDel(n)) if n == "eth0"));
    assert!(matches!(machine.step(Reply::Done), Step::Call(Request::CurrentNetns)));
    assert_eq!(machine.attempt, 1);
}

#[test]
fn trouble_in_the_host_namespace_is_reported_after_the_return() {
    let h = ns("host", None, 3);
    let c = ns("box", Some("/var/run/netns/box"), 4);
    let (mut machine, _) = setup_veth("eth0", "vethx", 0, "", &h, &c);
    machine.step(Reply::Netns(Some(c.clone())));
    machine.step(Reply::Done);
    machine.step(Reply::Netns(Some(c.clone())));
    let end = Link { index: 9, name: "eth0".to_string(), mtu: 0, hardware_addr: None, kind: LinkKind::Other };
    assert!(matches!(machine.step(Reply::Link(Some(end))), Step::Call(Request::SetNetns(n)) if n.id == "host"));
    assert!(matches!(machine.step(Reply::Done), Step::Call(Request::LinkByName(n)) if n == "vethx"));
    assert!(matches!(machine.step(Reply::Link(None)), Step::Call(Request::SetNetns(n)) if n.id == "box"));
    match machine.step(Reply::Done) {
        Step::Fail(e) => {
            assert_eq!(e.kind, ErrorKind::Provisioning);
            assert_eq!(e.message, "veth not found");
        }
        other => panic!("unexpected {:?}", other),
    }
}

fn args() -> CmdArgs {
    CmdArgs {
        container_id: "container1".to_string(),
        netns: "/var/run/netns/box".to_string(),
        if_name: "eth0".to_string(),
        args: String::new(),
        path: "/opt/cni/bin".to_string(),
    }
}

fn run_add(host: &mut Host, conf: NetConf) -> Result<ExecResult, Error> {
    let (mut machine, mut request) = cmd_add(args(), conf);
    loop {
        let reply = host.answer(request);
        match machine.step(reply) {
            Step::Call(next) => request = next,
            Step::Done(result) => return Ok(result),
            Step::Fail(e) => return Err(e),
        }
    }
}

fn delegate_output() -> ExecResult {
    ExecResult {
        cni_version: Some("1.0.0".to_string()),
        interfaces: None,
        ips: Some(vec![Ip { address: net4(10, 10, 0, 5, 24), gateway: None, interface: None }]),
        routes: None,
        dns: None,
    }
}

#[test]
fn add_sets_up_bridge_pair_gateway_forwarding_and_masquerade() {
    let mut host = Host::new();
    host.entropy = vec![[0x12, 0x34, 0x56, 0x78]];
    host.delegate = Some(delegate_output());
    let result = run_add(&mut host, conf()).unwrap();

    assert_eq!(result.cni_version.as_deref(), Some("1.0.0"));
    let interfaces = result.interfaces.unwrap();
    let names: Vec<&str> = interfaces.iter().map(|i| i.name.as_str()).collect();
    assert_eq!(names, vec!["br0", "veth12345678", "eth0"]);
    assert_eq!(interfaces[0].sandbox, None);
    assert_eq!(interfaces[1].sandbox, None);
    assert_eq!(interfaces[2].sandbox.as_deref(), Some("/var/run/netns/box"));
    assert!(interfaces.iter().all(|i| i.mac.is_some()));

    let gateway = IpAddr::V4(Ipv4Addr::new(10, 10, 0, 6));
    let ips = result.ips.unwrap();
    assert_eq!(
        ips,
        vec![Ip { address: net4(10, 10, 0, 5, 24), gateway: Some(gateway), interface: Some(2) }]
    );
    assert_eq!(result.routes.unwrap(), vec![Route { dst: net4(0, 0, 0, 0, 0), gw: Some(gateway) }]);

    let bridge = host.find("host", "br0").unwrap();
    let veth = host.find("host", "veth12345678").unwrap();
    let eth0 = host.find("box", "eth0").unwrap();
    assert_eq!(host.master, vec![(veth.index, bridge.index)]);
    assert!(host.addrs.contains(&(bridge.index, net4(10, 10, 0, 6, 24))));
    assert!(host.addrs.contains(&(eth0.index, net4(10, 10, 0, 5, 24))));
    assert_eq!(host.addrs.len(), 2);
    assert_eq!(host.routes, vec![(eth0.index, net4(0, 0, 0, 0, 0), Some(gateway))]);
    assert!(host.sysctl.contains(&("net/ipv4/ip_forward".to_string(), "1".to_string())));
    assert!(host.up.contains(&bridge.index) && host.up.contains(&veth.index));
    assert!(host.up.contains(&eth0.index));

    let chain = "CNI-cd72cbd512bbbf54d596852f".to_string();
    assert!(host.chains.contains(&chain));
    assert_eq!(
        host.rules,
        vec![
            (chain.clone(), "-d 10.10.0.5/24 -j ACCEPT".to_string()),
            (chain.clone(), "! -d 224.0.0.0/4 -j MASQUERADE".to_string()),
            ("POSTROUTING".to_string(), format!("-s 10.10.0.5 -j {}", chain)),
        ]
    );
    assert_eq!(host.current, "host");
}

#[test]
fn add_reconciles_before_it_configures_the_container() {
    let mut host = Host::new();
    host.entropy = vec![[1, 1, 1, 1]];
    host.delegate = Some(delegate_output());
    run_add(&mut host, conf()).unwrap();
    let position = |needle: &str| host.log.iter().position(|l| l.contains(needle)).unwrap();
    assert!(position("LinkAdd") < position("NetnsFromPath"));
    assert!(position("LinkSetMaster") < position("Delegate"));
    assert!(position("Delegate") < position("AddrList"));
    assert!(position("AddrList") < position("Sysctl(SysctlWrite { key: \"net/ipv4/ip_forward\""));
    assert!(position("net/ipv4/ip_forward") < position("ListChains"));
    let last = |needle: &str| host.log.iter().rposition(|l| l.contains(needle)).unwrap();
    assert!(last("Filter") < last("box:LinkByName(\"eth0\")"));
    assert!(last("box:LinkByName(\"eth0\")") < position("box:AddrAdd"));
    assert!(host.log.last().unwrap().starts_with("box:SetNetns"));
}

#[test]
fn add_twice_keeps_one_bridge_and_one_gateway_address() {
    let mut host = Host::new();
    host.entropy = vec![[1, 1, 1, 1], [2, 2, 2, 2]];
    host.delegate = Some(delegate_output());
    run_add(&mut host, conf()).unwrap();
    host.links.retain(|(s, _)| s == "host");
    host.delegate = Some(delegate_output());
    run_add(&mut host, conf()).unwrap();
    let bridges = host.links.iter().filter(|(_, l)| l.name == "br0").count();
    assert_eq!(bridges, 1);
    let bridge = host.find("host", "br0").unwrap();
    let on_bridge = host.addrs.iter().filter(|(l, _)| *l == bridge.index).count();
    assert_eq!(on_bridge, 1);
    assert_eq!(host.rules.len(), 3);
}

#[test]
fn add_stops_at_an_address_conflict_and_takes_nothing_back() {
    let mut host = Host::new();
    host.entropy = vec![[1, 1, 1, 1]];
    host.delegate = Some(delegate_output());
    let bridge = run_bridge(&mut host, "br0", false).unwrap();
    host.addrs.push((bridge.index, net4(10, 99, 0, 1, 24)));
    let e = run_add(&mut host, conf()).unwrap_err();
    assert_eq!(e.kind, ErrorKind::AddressConflict);
    assert_eq!(e.message, "br0 already has an IP address different from 10.10.0.6/24");
    assert!(host.find("host", "veth01010101").is_some());
    assert!(host.find("box", "eth0").is_some());
    assert!(host.rules.is_empty());

    let mut host = Host::new();
    host.entropy = vec![[1, 1, 1, 1]];
    host.delegate = Some(delegate_output());
    let bridge = run_bridge(&mut host, "br0", false).unwrap();
    host.addrs.push((bridge.index, net4(10, 99, 0, 1, 24)));
    let mut forced = conf();
    forced.force_address = Some(true);
    run_add(&mut host, forced).unwrap();
    let on_bridge: Vec<_> = host.addrs.iter().filter(|(l, _)| *l == bridge.index).collect();
    assert_eq!(on_bridge, vec![&(bridge.index, net4(10, 10, 0, 6, 24))]);
}

#[test]
fn add_without_gateway_or_masquerade_only_attaches() {
    let mut host = Host::new();
    host.entropy = vec![[1, 1, 1, 1]];
    host.delegate = Some(delegate_output());
    let mut c = conf();
    c.is_gw = None;
    c.is_default_gw = None;
    c.ip_masq = None;
    let result = run_add(&mut host, c).unwrap();
    assert_eq!(result.ips.unwrap()[0].gateway, None);
    assert!(result.routes.is_none());
    assert!(host.rules.is_empty());
    assert_eq!(host.sysctl.len(), 1);
    assert_eq!(host.addrs.len(), 1);
}

#[test]
fn add_fails_when_the_delegate_fails_or_the_namespace_is_missing() {
    let mut host = Host::new();
    host.entropy = vec![[1, 1, 1, 1]];
    let e = run_add(&mut host, conf()).unwrap_err();
    assert_eq!(e.kind, ErrorKind::Delegate);
    assert_eq!(host.current, "host");

    let mut host = Host::new();
    host.container_ns.path = Some("/elsewhere".to_string());
    let e = run_add(&mut host, conf()).unwrap_err();
    assert_eq!(e.kind, ErrorKind::Namespace);
    assert_eq!(e.message, "netns not found");
    assert!(host.find("host", "br0").is_some());
}

#[test]
fn family_of_a_network() {
    assert_eq!(net4(10, 0, 0, 1, 8).family(), Family::V4);
}

#[test]
fn failure_of_the_host_ends_the_run_with_its_kind() {
    let (mut machine, _) = ensure_bridge("br0", 0, false, false);
    machine.step(Reply::Done);
    let br = Link {
        index: 4,
        name: "br0".to_string(),
        mtu: 0,
        hardware_addr: None,
        kind: LinkKind::Bridge { vlan_filtering: None },
    };
    assert!(matches!(machine.step(Reply::Link(Some(br))), Step::Call(Request::Sysctl(_))));
    assert!(matches!(machine.step(Reply::Done), Step::Call(Request::LinkSetUp(4))));
    match machine.step(Reply::Failed(Error::from_io(IoErrorKind::PermissionDenied, "denied"))) {
        Step::Fail(e) => {
            assert_eq!(e.kind, ErrorKind::Os);
            assert_eq!(e.io_kind, Some(IoErrorKind::PermissionDenied));
            assert_eq!(e.message, "denied");
        }
        other => panic!("unexpected {:?}", other),
    }
    let (mut machine, _) = ensure_bridge("br0", 0, false, false);
    match machine.step(Reply::Entropy([0; 4])) {
        Step::Fail(e) => assert_eq!(e.kind, ErrorKind::Consistency),
        other => panic!("unexpected {:?}", other),
    }
}
