use cni_plugins::addr::{IpNetwork, Ipv4Addr, Ipv4Network, Ipv6Addr, Ipv6Network};
use cni_plugins::error::ErrorKind;
use cni_plugins::flannel::{
    cmd_add, get_delegate_ipam, load_flannel_net_conf, load_flannel_subnet_env, NetConf,
    SubnetEnv,
};
use cni_plugins::json::{contains_key, find, get_str, insert, is_string, or_insert, Value};
use cni_plugins::text::{parse_u32, split, split_once, u32_to_string, i32_to_string};

fn v4(a: u8, b: u8, c: u8, d: u8, prefix: u8) -> Ipv4Network {
    Ipv4Network::new(Ipv4Addr::new(a, b, c, d), prefix).unwrap()
}

#[test]
fn test_1() {
    let ip_str = "172.17.78.1/24";
    let ip: Ipv4Network = Ipv4Network::from_str(ip_str).unwrap();

    let ip_22 = Ipv4Network::new(ip.network(), ip.prefix()).unwrap();
    println!(">>>>>>>>>>>{}", ip_22.to_string());

    println!("{:?}", ip.network());
    println!("{:?}", ip.ip());
    println!("{}", ip.prefix());

    println!("{}", ip.to_string());
    assert_eq!(ip_22.to_string(), "172.17.78.0/24");
    assert_eq!(ip.network(), Ipv4Addr::new(172, 17, 78, 0));
    assert_eq!(ip.ip(), Ipv4Addr::new(172, 17, 78, 1));
    assert_eq!(ip.prefix(), 24);
    assert_eq!(ip.to_string(), "172.17.78.1/24");
}

#[test]
fn networks_are_read_from_text() {
    assert_eq!(Ipv4Network::from_str("10.1.9.32/16").unwrap(), v4(10, 1, 9, 32, 16));
    assert_eq!(Ipv4Network::from_str("127.0.0.0").unwrap(), v4(127, 0, 0, 0, 32));
    assert_eq!(Ipv4Network::from_str("10.0.0.0/255.255.0.0").unwrap(), v4(10, 0, 0, 0, 16));
    for bad in ["10.a.b/8", "10.1.1.1.0/8", "256/8", "0/39", "10.1.1.1/24/", "", "::1/64"] {
        let e = Ipv4Network::from_str(bad).unwrap_err();
        assert_eq!(e.kind, ErrorKind::Config);
    }
    let n6 = Ipv6Network::from_str("2001:db8::1/64").unwrap();
    assert_eq!(n6.ip(), Ipv6Addr::from_bits(0x2001_0db8_0000_0000_0000_0000_0000_0001));
    assert_eq!(n6.prefix(), 64);
    assert_eq!(n6.to_string(), "2001:db8::1/64");
    assert!(Ipv6Network::from_str("10.0.0.0/8").is_err());
    assert!(Ipv6Network::from_str("::/129").is_err());
    assert_eq!(IpNetwork::from_str("10.0.0.0/8").unwrap(), IpNetwork::V4(v4(10, 0, 0, 0, 8)));
    assert_eq!(IpNetwork::from_str("2001:db8::1/64").unwrap(), IpNetwork::V6(n6));
    assert_eq!(IpNetwork::from_str("nonsense").unwrap_err().kind, ErrorKind::Config);
}

#[test]
fn text_is_split_and_numbers_are_read() {
    assert_eq!(split("a,b,,c", ','), vec!["a", "b", "", "c"]);
    assert_eq!(split("", ','), vec![""]);
    assert_eq!(split("é,ü", ','), vec!["é", "ü"]);
    assert_eq!(split_once("k=v=w", '='), Some(("k".to_string(), "v=w".to_string())));
    assert_eq!(split_once("=v", '='), Some(("".to_string(), "v".to_string())));
    assert_eq!(split_once("k=", '='), Some(("k".to_string(), "".to_string())));
    assert_eq!(split_once("kv", '='), None);
    assert_eq!(parse_u32("1450"), Some(1450));
    assert_eq!(parse_u32("+7"), Some(7));
    assert_eq!(parse_u32("0"), Some(0));
    assert_eq!(parse_u32("007"), Some(7));
    assert_eq!(parse_u32("4294967295"), Some(u32::MAX));
    assert_eq!(parse_u32("4294967296"), None);
    assert_eq!(parse_u32("99999999999999999999"), None);
    for bad in ["", "+", "-1", "12a", " 1", "1 ", "++1"] {
        assert_eq!(parse_u32(bad), None, "{:?}", bad);
        assert_eq!(parse_u32(bad), bad.parse::<u32>().ok());
    }
    assert_eq!(u32_to_string(0), "0");
    assert_eq!(u32_to_string(4294967295), "4294967295");
    assert_eq!(u32_to_string(1500), "1500");
    assert_eq!(i32_to_string(-40), "-40");
    assert_eq!(i32_to_string(0), "0");
}

#[test]
fn environment_file_is_read() {
    let content = "FLANNEL_NETWORK=10.244.0.0/16,10.245.0.0/16\nFLANNEL_SUBNET=10.244.3.1/24\r\nFLANNEL_MTU=1450\nFLANNEL_IPMASQ=true\nFLANNEL_IPV6_NETWORK=fd00::/56\nFLANNEL_IPV6_SUBNET=fd00:0:0:3::1/64\n# comment\nOTHER=1\n";
    let env = load_flannel_subnet_env(content).unwrap();
    assert_eq!(env.nws, vec![v4(10, 244, 0, 0, 16), v4(10, 245, 0, 0, 16)]);
    assert_eq!(env.sn, Some(v4(10, 244, 3, 0, 24)));
    assert_eq!(env.mtu, Some(1450));
    assert_eq!(env.ipmasq, Some(true));
    assert_eq!(env.ip6_nws.len(), 1);
    assert_eq!(env.ip6_nws[0].to_string(), "fd00::/56");
    assert_eq!(env.ip6_sn.unwrap().to_string(), "fd00:0:0:3::/64");
}

#[test]
fn environment_file_edge_cases() {
    let env = load_flannel_subnet_env("").unwrap();
    assert!(env.nws.is_empty() && env.sn.is_none() && env.mtu.is_none() && env.ipmasq.is_none());
    let env = load_flannel_subnet_env("FLANNEL_MTU=1400\nFLANNEL_MTU=1300").unwrap();
    assert_eq!(env.mtu, Some(1300));
    let env = load_flannel_subnet_env("FLANNEL_IPMASQ=false").unwrap();
    assert_eq!(env.ipmasq, Some(false));
    assert!(load_flannel_subnet_env("FLANNEL_IPMASQ=false\r").is_err());
    let env = load_flannel_subnet_env("\n\nFLANNEL_MTU=9\n\n").unwrap();
    assert_eq!(env.mtu, Some(9));
    for bad in [
        "FLANNEL_MTU=abc\n",
        "FLANNEL_MTU=\n",
        "FLANNEL_IPMASQ=yes\n",
        "FLANNEL_NETWORK=10.0.0.0/8,\n",
        "FLANNEL_NETWORK=\n",
        "FLANNEL_SUBNET=10.0.0.0/33\n",
        "FLANNEL_IPV6_SUBNET=10.0.0.0/8\n",
        "FLANNEL_MTU=1\nFLANNEL_IPV6_NETWORK=x\nFLANNEL_MTU=2\n",
    ] {
        let e = load_flannel_subnet_env(bad).unwrap_err();
        assert_eq!(e.kind, ErrorKind::Config, "{:?}", bad);
    }
    let env = load_flannel_subnet_env("FLANNEL_MTU = 1\nMTU\n=\n").unwrap();
    assert_eq!(env.mtu, None);
}

fn conf(delegate: Option<Vec<(String, Value)>>) -> NetConf {
    NetConf {
        cni_version: "1.0.0".to_string(),
        name: "overlay".to_string(),
        plugin: "flannel".to_string(),
        subnet_file: None,
        data_dir: None,
        delegate,
        ipam: None,
        runtime_config: None,
    }
}

fn env() -> SubnetEnv {
    SubnetEnv {
        nws: vec![v4(10, 244, 0, 0, 16)],
        sn: Some(v4(10, 244, 3, 0, 24)),
        ip6_nws: vec![],
        ip6_sn: None,
        mtu: Some(1450),
        ipmasq: Some(true),
    }
}

fn text(s: &str) -> Value {
    Value::String(s.to_string())
}

fn object(members: Vec<(&str, Value)>) -> Value {
    Value::Object(members.into_iter().map(|(k, v)| (k.to_string(), v)).collect())
}

#[test]
fn defaults_of_the_overlay_configuration() {
    let n = load_flannel_net_conf(conf(None));
    assert_eq!(n.subnet_file.as_deref(), Some("/run/flannel/subnet.env"));
    assert_eq!(n.data_dir.as_deref(), Some("/var/lib/cni/flannel"));
    let mut c = conf(None);
    c.subnet_file = Some("/x/subnet.env".to_string());
    c.data_dir = Some("/x/data".to_string());
    let n = load_flannel_net_conf(c);
    assert_eq!(n.subnet_file.as_deref(), Some("/x/subnet.env"));
    assert_eq!(n.data_dir.as_deref(), Some("/x/data"));
    assert_eq!(n.name, "overlay");
}

#[test]
fn delegate_is_filled_in() {
    let d = cmd_add(conf(None), &env()).unwrap();
    assert_eq!(d.plugin, "bridge");
    let expected = vec![
        ("name".to_string(), text("overlay")),
        ("type".to_string(), text("bridge")),
        ("ipMasq".to_string(), Value::Bool(false)),
        ("mtu".to_string(), Value::Number(1450)),
        ("isGateway".to_string(), Value::Bool(true)),
        ("cniVersion".to_string(), text("1.0.0")),
        (
            "ipam".to_string(),
            object(vec![
                ("type", text("host-local")),
                (
                    "ranges",
                    Value::Array(vec![Value::Array(vec![object(vec![(
                        "subnet",
                        text("10.244.3.0/24"),
                    )])])]),
                ),
                ("routes", Value::Array(vec![object(vec![("dst", text("10.244.0.0/16"))])])),
            ]),
        ),
    ];
    assert_eq!(d.conf, expected);
}

#[test]
fn given_delegate_keeps_what_it_says() {
    let given = vec![
        ("type".to_string(), text("ipvlan")),
        ("name".to_string(), text("old")),
        ("ipam".to_string(), object(vec![("type", text("static"))])),
        ("mtu".to_string(), Value::Number(9000)),
        ("ipMasq".to_string(), Value::Bool(true)),
        ("ratio".to_string(), Value::Other("0.5".to_string())),
    ];
    let mut c = conf(Some(given));
    c.cni_version = String::new();
    c.ipam = Some(vec![("type".to_string(), text("mine")), ("extra".to_string(), Value::Null)]);
    let mut e = env();
    e.ipmasq = None;
    e.sn = None;
    e.nws = vec![];
    let d = cmd_add(c, &e).unwrap();
    assert_eq!(d.plugin, "ipvlan");
    assert_eq!(get_str(&d.conf, "name").as_deref(), Some("overlay"));
    assert_eq!(d.conf[3].1, Value::Number(9000));
    assert_eq!(d.conf[4].1, Value::Bool(true));
    assert!(!contains_key(&d.conf, "isGateway"));
    assert!(!contains_key(&d.conf, "cniVersion"));
    assert_eq!(d.conf.len(), 6);
    assert_eq!(
        d.conf[2].1,
        object(vec![
            ("type", text("mine")),
            ("extra", Value::Null),
            ("ranges", Value::Array(vec![])),
            ("routes", Value::Array(vec![])),
        ])
    );
}

#[test]
fn delegates_that_cannot_be_handed_on() {
    let full = || {
        vec![
            ("type".to_string(), text("bridge")),
            ("name".to_string(), text("x")),
            ("ipam".to_string(), object(vec![])),
        ]
    };
    assert!(cmd_add(conf(Some(full())), &env()).is_ok());
    for drop in 0..3 {
        let mut d = full();
        d.remove(drop);
        let e = cmd_add(conf(Some(d)), &env()).unwrap_err();
        assert_eq!(e.kind, ErrorKind::Config);
    }
    let mut d = full();
    d[0].1 = Value::Number(1);
    assert!(cmd_add(conf(Some(d)), &env()).is_err());
    let mut e = env();
    e.mtu = None;
    assert_eq!(cmd_add(conf(None), &e).unwrap_err().kind, ErrorKind::Config);
    let mut e = env();
    e.ipmasq = None;
    assert_eq!(cmd_add(conf(None), &e).unwrap_err().kind, ErrorKind::Config);
}

#[test]
fn address_section_of_the_delegate() {
    let mut c = conf(None);
    get_delegate_ipam(&mut c, &env()).unwrap();
    let ipam = c.ipam.unwrap();
    assert_eq!(get_str(&ipam, "type").as_deref(), Some("host-local"));
    assert_eq!(find(&ipam, "ranges"), Some(1));
    assert_eq!(find(&ipam, "routes"), Some(2));
    assert_eq!(find(&ipam, "missing"), None);
}

#[test]
fn members_are_set_in_place_or_added() {
    let mut m: Vec<(String, Value)> = vec![];
    insert(&mut m, "a", Value::Number(1));
    insert(&mut m, "b", Value::Bool(true));
    insert(&mut m, "a", text("x"));
    or_insert(&mut m, "b", Value::Null);
    or_insert(&mut m, "c", Value::Null);
    assert_eq!(
        m,
        vec![
            ("a".to_string(), text("x")),
            ("b".to_string(), Value::Bool(true)),
            ("c".to_string(), Value::Null),
        ]
    );
    assert!(is_string(&m, "a") && !is_string(&m, "b") && !is_string(&m, "z"));
    assert_eq!(get_str(&m, "b"), None);
}
