use cni_plugins::addr::{last_ip, IpAddr, IpNetwork, Ipv4Addr, Ipv6Addr};
use cni_plugins::error::ErrorKind;
use cni_plugins::host_local::{load_ipam_config, IPAMConfig, Net};
use cni_plugins::range::Range;
use cni_plugins::range_set::RangeSetExt;

fn ip(a: u8, b: u8, c: u8, d: u8) -> IpAddr {
    IpAddr::V4(Ipv4Addr::new(a, b, c, d))
}

fn net(a: u8, b: u8, c: u8, d: u8, prefix: u8) -> IpNetwork {
    IpNetwork::new(ip(a, b, c, d), prefix).unwrap()
}

fn on(subnet: IpNetwork) -> Range {
    Range { subnet, ..Default::default() }
}

#[test]
fn test_range() {
    let mut r = Range {
        range_start: None,
        range_end: None,
        subnet: net(192, 0, 2, 0, 24),
        gateway: None,
    };
    r.canonicalize().unwrap();
    println!("{:?}", r);
    assert_eq!(
        r,
        Range {
            range_start: Some(ip(192, 0, 2, 1)),
            range_end: Some(ip(192, 0, 2, 254)),
            subnet: net(192, 0, 2, 0, 24),
            gateway: Some(ip(192, 0, 2, 1)),
        }
    );
}

#[test]
fn test_range2() {
    let mut r = Range {
        range_start: None,
        range_end: None,
        subnet: net(192, 0, 2, 0, 25),
        gateway: None,
    };
    r.canonicalize().unwrap();

    println!("{:?}", r);
    assert_eq!(
        r,
        Range {
            range_start: Some(ip(192, 0, 2, 1)),
            range_end: Some(ip(192, 0, 2, 126)),
            subnet: net(192, 0, 2, 0, 25),
            gateway: Some(ip(192, 0, 2, 1)),
        }
    );
}

#[test]
fn test_range3() {
    let mut r = Range {
        range_start: None,
        range_end: None,
        subnet: net(192, 0, 2, 12, 24),
        gateway: None,
    };
    let result = r.canonicalize();
    assert!(result.is_err());
    let err = result.unwrap_err();
    assert_eq!(err.to_string(), "Network has host bits set. For a subnet mask of length 24 the network address is 192.0.2.0");
}

#[test]
fn test_range5() {
    let mut r = Range {
        range_start: None,
        range_end: None,
        subnet: net(192, 168, 127, 0, 23),
        gateway: None,
    };
    let result = r.canonicalize();
    assert!(result.is_err());
    let err = result.unwrap_err();
    assert_eq!(err.to_string(), "Network has host bits set. For a subnet mask of length 23 the network address is 192.168.126.0");
}

#[test]
fn test_range6() {
    let mut r = Range {
        range_start: None,
        range_end: None,
        subnet: net(192, 0, 2, 0, 31),
        gateway: None,
    };
    let result = r.canonicalize();
    assert!(result.is_err());
    let err = result.unwrap_err();
    assert_eq!(
        err.to_string(),
        "Network 192.0.2.0/31 too small to allocate from"
    );
}

#[test]
fn test_range7() {
    let mut r = Range {
        range_start: Some(ip(192, 0, 3, 0)),
        range_end: None,
        subnet: net(192, 0, 2, 0, 24),
        gateway: None,
    };
    let result = r.canonicalize();
    assert!(result.is_err());
    let err = result.unwrap_err();
    assert_eq!(
        err.to_string(),
        "RangeStart 192.0.3.0 not in network 192.0.2.0/24"
    );

    let mut r = Range {
        range_start: None,
        range_end: Some(ip(192, 0, 4, 0)),
        subnet: net(192, 0, 2, 0, 24),
        gateway: None,
    };
    let result = r.canonicalize();
    assert!(result.is_err());
    let err = result.unwrap_err();
    assert_eq!(
        err.to_string(),
        "RangeEnd 192.0.4.0 not in network 192.0.2.0/24"
    );

    let mut r = Range {
        range_start: Some(ip(192, 0, 2, 50)),
        range_end: Some(ip(192, 0, 2, 40)),
        subnet: net(192, 0, 2, 0, 24),
        gateway: None,
    };

    let result = r.canonicalize();
    assert!(result.is_err());
    let err = result.unwrap_err();
    assert_eq!(
        err.to_string(),
        "RangeStart 192.0.2.50 not in network 192.0.2.0/24"
    );
}

#[test]
fn test_range8() {
    let mut r = Range {
        range_start: Some(ip(192, 0, 2, 40)),
        range_end: Some(ip(192, 0, 2, 50)),
        subnet: net(192, 0, 2, 0, 24),
        gateway: Some(ip(192, 0, 2, 254)),
    };

    r.canonicalize().unwrap();
    assert_eq!(
        r,
        Range {
            range_start: Some(IpAddr::V4(Ipv4Addr::new(192, 0, 2, 40))),
            range_end: Some(IpAddr::V4(Ipv4Addr::new(192, 0, 2, 50))),
            subnet: IpNetwork::new(IpAddr::V4(Ipv4Addr::new(192, 0, 2, 0)), 24).unwrap(),
            gateway: Some(IpAddr::V4(Ipv4Addr::new(192, 0, 2, 254))),
        }
    )
}

#[test]
fn test_range9() {
    let mut r = Range {
        range_start: Some(ip(192, 0, 2, 40)),
        range_end: Some(ip(192, 0, 2, 50)),
        subnet: net(192, 0, 2, 0, 24),
        gateway: Some(ip(192, 0, 2, 254)),
    };

    r.canonicalize().unwrap();
    assert!(!r.contains(ip(192, 0, 3, 0)));
    assert!(!r.contains(ip(192, 0, 2, 39)));
    assert!(r.contains(ip(192, 0, 2, 40)));
    assert!(r.contains(ip(192, 0, 2, 50)));
    assert!(!r.contains(ip(192, 0, 2, 51)));
}

#[test]
fn test_range10() {
    {
        let mut r1 = Range {
            subnet: net(10, 0, 0, 0, 24),
            ..Default::default()
        };
        r1.canonicalize().unwrap();
        let mut r2 = Range {
            subnet: net(10, 0, 1, 0, 24),
            ..Default::default()
        };
        r2.canonicalize().unwrap();
        assert!(!r1.overlap(&r2));
    }
    {
        let mut r1 = Range {
            subnet: net(10, 0, 0, 0, 24),
            ..Default::default()
        };
        r1.canonicalize().unwrap();
        let mut r2 = Range {
            subnet: net(10, 0, 0, 0, 24),
            ..Default::default()
        };
        r2.canonicalize().unwrap();
        assert!(r1.overlap(&r2));
    }
    {
        let mut r1 = Range {
            subnet: net(10, 0, 0, 0, 20),
            ..Default::default()
        };
        r1.canonicalize().unwrap();
        let mut r2 = Range {
            subnet: net(10, 0, 1, 0, 24),
            ..Default::default()
        };
        r2.canonicalize().unwrap();
        assert!(r1.overlap(&r2));
    }

    {
        let mut r1 = Range {
            subnet: net(10, 0, 0, 0, 24),
            range_end: Some(ip(10, 0, 0, 127)),
            ..Default::default()
        };
        r1.canonicalize().unwrap();
        let mut r2 = Range {
            subnet: net(10, 0, 0, 0, 24),
            range_start: Some(ip(10, 0, 0, 128)),
            ..Default::default()
        };
        r2.canonicalize().unwrap();
        assert!(!r1.overlap(&r2));
    }

    {
        let mut r1 = Range {
            subnet: net(10, 0, 0, 0, 24),
            range_end: Some(ip(10, 0, 0, 127)),
            ..Default::default()
        };
        r1.canonicalize().unwrap();
        let mut r2 = Range {
            subnet: net(10, 0, 0, 0, 24),
            range_start: Some(ip(10, 0, 0, 127)),
            ..Default::default()
        };
        r2.canonicalize().unwrap();
        assert!(r1.overlap(&r2));
    }
}

#[test]
fn test1() {
    let mut p = vec![
        Range {
            subnet: net(192, 168, 0, 0, 24),
            ..Default::default()
        },
        Range {
            subnet: net(172, 16, 1, 0, 24),
            ..Default::default()
        },
    ];
    p.canonicalize().unwrap();
    assert!(p.contains_ip(ip(192, 168, 0, 55)))
}

#[test]
fn test2() {
    let mut p = vec![
        Range {
            subnet: net(192, 168, 0, 0, 20),
            ..Default::default()
        },
        Range {
            subnet: net(192, 168, 2, 0, 24),
            ..Default::default()
        },
    ];
    let result = p.canonicalize();
    assert!(result.is_err());
    let err = result.unwrap_err();
    assert_eq!(
        err.to_string(),
        "subnets 192.168.0.1-192.168.15.254 and 192.168.2.1-192.168.2.254 overlap"
    );
}

#[test]
fn test3() {
    let mut p1 = vec![Range {
        subnet: net(192, 168, 0, 0, 20),
        ..Default::default()
    }];
    let mut p2 = vec![Range {
        subnet: net(192, 168, 2, 0, 24),
        ..Default::default()
    }];
    p1.canonicalize().unwrap();
    p2.canonicalize().unwrap();
    assert!(p1.overlap(&p2));
    assert!(p2.overlap(&p1));
}

#[test]
fn default_range_covers_every_ipv4_address() {
    let r = Range::default();
    assert_eq!(r.subnet, net(0, 0, 0, 0, 0));
    assert_eq!((r.range_start, r.range_end, r.gateway), (None, None, None));
    assert!(r.contains(ip(203, 0, 113, 9)));
    assert_eq!(r.to_string(), "<nil>-<nil>");
}

#[test]
fn network_and_broadcast_addresses() {
    let n = net(10, 1, 9, 32, 16);
    assert_eq!(n.network(), ip(10, 1, 0, 0));
    assert_eq!(n.broadcast(), ip(10, 1, 255, 255));
    assert_eq!(last_ip(&n), ip(10, 1, 255, 254));
    assert_eq!(net(10, 1, 9, 32, 32).network(), ip(10, 1, 9, 32));
    assert_eq!(net(10, 1, 9, 32, 0).network(), ip(0, 0, 0, 0));
    assert_eq!(net(10, 1, 9, 32, 0).broadcast(), ip(255, 255, 255, 255));
    let base: u128 = 0x2001_0db8_0000_0001_0000_0000_0000_0005;
    let n6 = IpNetwork::new(IpAddr::V6(Ipv6Addr::from_bits(base)), 64).unwrap();
    assert_eq!(n6.network(), IpAddr::V6(Ipv6Addr::from_bits(0x2001_0db8_0000_0001u128 << 64)));
    assert_eq!(
        last_ip(&n6),
        IpAddr::V6(Ipv6Addr::from_bits((0x2001_0db8_0000_0001u128 << 64) | 0xffff_ffff_ffff_ffff))
    );
}

#[test]
fn failed_range_keeps_what_was_filled_in() {
    let mut r = Range { range_end: Some(ip(192, 0, 4, 0)), ..on(net(192, 0, 2, 0, 24)) };
    assert_eq!(r.canonicalize().unwrap_err().kind, ErrorKind::Config);
    assert_eq!(r.gateway, Some(ip(192, 0, 2, 1)));
    assert_eq!(r.range_start, Some(ip(192, 0, 2, 1)));
    assert_eq!(r.range_end, Some(ip(192, 0, 4, 0)));
}

#[test]
fn range_sets_as_text_and_empty_set() {
    let mut p = vec![on(net(192, 168, 0, 0, 24)), on(net(172, 16, 1, 0, 24))];
    p.canonicalize().unwrap();
    assert_eq!(RangeSetExt::to_string(&p), "192.168.0.1-192.168.0.254,172.16.1.1-172.16.1.254");
    assert!(!p.contains_ip(ip(10, 0, 0, 1)));
    let mut empty: Vec<Range> = vec![];
    let e = empty.canonicalize().unwrap_err();
    assert_eq!(e.to_string(), "empty range set");
    assert_eq!(RangeSetExt::to_string(&empty), "");
    let mut bad = vec![on(net(192, 168, 0, 0, 24)), on(net(10, 0, 0, 7, 24))];
    assert!(bad.canonicalize().is_err());
    assert_eq!(bad[0].range_start, Some(ip(192, 168, 0, 1)));
}

fn host_local(ranges: Vec<Vec<Range>>) -> Net {
    Net {
        name: "mynet".to_string(),
        cni_version: "1.0.0".to_string(),
        ipam: IPAMConfig { name: None, ranges, data_dir: Some("/tmp/ipam".to_string()), routes: None },
    }
}

#[test]
fn host_local_configuration_is_checked() {
    let (ipam, version) = load_ipam_config(host_local(vec![
        vec![on(net(10, 1, 0, 0, 24))],
        vec![on(net(10, 2, 0, 0, 24))],
    ]))
    .unwrap();
    assert_eq!(version, "1.0.0");
    assert_eq!(ipam.name.as_deref(), Some("mynet"));
    assert_eq!(ipam.data_dir.as_deref(), Some("/tmp/ipam"));
    assert_eq!(ipam.ranges[0][0].range_end, Some(ip(10, 1, 0, 254)));
    assert_eq!(ipam.ranges[1][0].gateway, Some(ip(10, 2, 0, 1)));

    let e = load_ipam_config(host_local(vec![])).unwrap_err();
    assert_eq!(e.to_string(), "no IP ranges specified");
    let e = load_ipam_config(host_local(vec![vec![]])).unwrap_err();
    assert_eq!(e.to_string(), "empty range set");
    let e = load_ipam_config(host_local(vec![
        vec![on(net(10, 1, 0, 0, 24))],
        vec![on(net(10, 9, 0, 0, 24))],
        vec![on(net(10, 1, 0, 0, 16))],
    ]))
    .unwrap_err();
    assert_eq!(e.kind, ErrorKind::Config);
    assert_eq!(e.to_string(), "range set 0 overlaps with 2");
}
