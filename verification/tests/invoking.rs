use cni_plugins::error::ErrorKind;
use cni_plugins::invoke::{
    delegate_add, delegate_common, exec_candidates, exec_plugin_with_result, find_exec_in_path,
    search_dirs, stringify_args, Args, CNIArgs, DelegateArgs,
};
use cni_plugins::ipam_static::{cmd_add, load_ipam_conf, NetConf};
use cni_plugins::addr::{IpAddr, IpNetwork, Ipv4Addr, Ipv6Addr};
use cni_plugins::store::{data_dir, last_ip_file, record, recorded_for, recorded_ip};
use cni_plugins::types::{Dns, IPAMConfig, Ip, Route};

fn pair(k: &str, v: &str) -> (String, String) {
    (k.to_string(), v.to_string())
}

#[test]
fn arguments_are_joined_in_order() {
    assert_eq!(stringify_args(&vec![]), "");
    assert_eq!(stringify_args(&vec![pair("IgnoreUnknown", "1")]), "IgnoreUnknown=1;");
    assert_eq!(
        stringify_args(&vec![pair("K8S_POD_NAME", "web"), pair("A", "")]),
        "K8S_POD_NAME=web;A=;"
    );
}

#[test]
fn environment_of_a_full_invocation() {
    let args = CNIArgs {
        command: "ADD".to_string(),
        containerid: "c1".to_string(),
        netns: "/var/run/netns/x".to_string(),
        args: vec![pair("a", "b")],
        ifname: "eth0".to_string(),
        path: "/opt/cni/bin".to_string(),
    };
    assert_eq!(
        args.as_env(),
        vec![
            pair("CNI_COMMAND", "ADD"),
            pair("CNI_CONTAINERID", "c1"),
            pair("CNI_NETNS", "/var/run/netns/x"),
            pair("CNI_ARGS", "a=b;"),
            pair("CNI_IFNAME", "eth0"),
            pair("CNI_PATH", "/opt/cni/bin"),
        ]
    );
    let d = DelegateArgs { command: "DEL".to_string() };
    assert_eq!(d.as_env(), vec![pair("CNI_COMMAND", "DEL")]);
}

#[test]
fn search_path_is_split_at_colons() {
    assert_eq!(search_dirs("/opt/cni/bin:/usr/lib/cni"), vec!["/opt/cni/bin", "/usr/lib/cni"]);
    assert_eq!(search_dirs("/opt/cni/bin"), vec!["/opt/cni/bin"]);
    assert_eq!(search_dirs(""), vec![""]);
    assert_eq!(search_dirs("a::b:"), vec!["a", "", "b", ""]);
}

#[test]
fn first_directory_with_the_executable_wins() {
    let dirs = search_dirs("/a:/b/:/c");
    assert_eq!(exec_candidates("static", &dirs), vec!["/a/static", "/b/static", "/c/static"]);
    assert_eq!(
        find_exec_in_path("static", &dirs, &vec![false, true, true]).as_deref(),
        Some("/b/static")
    );
    assert_eq!(find_exec_in_path("static", &dirs, &vec![false, false, false]), None);
    assert_eq!(find_exec_in_path("static", &dirs, &vec![true]).as_deref(), Some("/a/static"));
    assert_eq!(find_exec_in_path("static", &dirs, &vec![]), None);
}

#[test]
fn missing_plugin_is_a_delegate_error() {
    assert_eq!(delegate_common("static", "/a:/b", &vec![false, true]).unwrap(), "/b/static");
    let e = delegate_common("static", "/a:/b", &vec![false, false]).unwrap_err();
    assert_eq!(e.kind, ErrorKind::Delegate);
    assert_eq!(e.to_string(), "plugin static not found in CNI_PATH: /a:/b");
    let call = delegate_add("host-local", "/opt/cni/bin", &vec![true]).unwrap();
    assert_eq!(call.path, "/opt/cni/bin/host-local");
    assert_eq!(call.env, vec![pair("CNI_COMMAND", "ADD")]);
    assert!(delegate_add("host-local", "", &vec![false]).is_err());
}

#[test]
fn exit_code_of_a_plugin_is_judged() {
    assert_eq!(exec_plugin_with_result(Some(0), vec![1, 2, 3]).unwrap(), vec![1, 2, 3]);
    assert_eq!(exec_plugin_with_result(None, vec![7]).unwrap(), vec![7]);
    let e = exec_plugin_with_result(Some(1), b"no addresses left".to_vec()).unwrap_err();
    assert_eq!(e.kind, ErrorKind::Delegate);
    assert_eq!(e.to_string(), "plugin exited with non-zero exit code: 1: no addresses left");
    let e = exec_plugin_with_result(Some(-2147483648), vec![]).unwrap_err();
    assert_eq!(e.to_string(), "plugin exited with non-zero exit code: -2147483648: ");
    let e = exec_plugin_with_result(Some(255), vec![0x66, 0xff, 0x6f]).unwrap_err();
    assert_eq!(e.to_string(), "plugin exited with non-zero exit code: 255: f\u{fffd}o");
}

fn static_conf(ipam: Option<IPAMConfig>) -> NetConf {
    NetConf {
        cni_version: "1.0.0".to_string(),
        name: "mynet".to_string(),
        ipam,
        runtime: None,
        args: None,
    }
}

#[test]
fn static_plugin_hands_back_its_configuration() {
    let address = Ip {
        address: IpNetwork::new(IpAddr::V4(Ipv4Addr::new(10, 10, 0, 1)), 24).unwrap(),
        gateway: Some(IpAddr::V4(Ipv4Addr::new(10, 10, 0, 254))),
        interface: None,
    };
    let route = Route {
        dst: IpNetwork::new(IpAddr::V4(Ipv4Addr::new(0, 0, 0, 0)), 0).unwrap(),
        gw: None,
    };
    let ipam = IPAMConfig {
        plugin: "static".to_string(),
        routes: Some(vec![route]),
        addresses: Some(vec![address]),
        dns: Some(Dns {
            nameservers: vec![IpAddr::V4(Ipv4Addr::new(8, 8, 8, 8))],
            domain: Some("example.com".to_string()),
            search: vec!["example.com".to_string()],
            options: vec![],
        }),
    };
    let reply = cmd_add(static_conf(Some(ipam))).unwrap();
    assert_eq!(reply.cni_version, "1.0.0");
    assert!(reply.interfaces.is_empty());
    assert_eq!(reply.ips, vec![address]);
    assert_eq!(reply.routes, vec![route]);
    assert_eq!(reply.dns.domain.as_deref(), Some("example.com"));
    assert_eq!(reply.dns.nameservers.len(), 1);

    let bare = IPAMConfig { plugin: "static".to_string(), ..IPAMConfig::default() };
    let reply = cmd_add(static_conf(Some(bare))).unwrap();
    assert!(reply.ips.is_empty() && reply.routes.is_empty());
    assert!(reply.dns.nameservers.is_empty() && reply.dns.domain.is_none());
}

#[test]
fn static_plugin_rejects_other_configurations() {
    let e = cmd_add(static_conf(None)).unwrap_err();
    assert_eq!(e.kind, ErrorKind::Config);
    assert_eq!(e.to_string(), "IPAM config missing 'ipam' key");
    assert!(load_ipam_conf(static_conf(None)).is_err());
    let other = IPAMConfig { plugin: "host-local".to_string(), ..IPAMConfig::default() };
    assert_eq!(load_ipam_conf(static_conf(Some(other.clone()))).unwrap().plugin, "host-local");
    let e = cmd_add(static_conf(Some(other))).unwrap_err();
    assert_eq!(e.kind, ErrorKind::Config);
}

#[test]
fn records_of_given_addresses() {
    assert_eq!(record("id#0", "eth0"), "id#0\r\neth0");
    assert!(recorded_for("id#0\r\neth0", "id#0", "eth0"));
    assert!(recorded_for("  id#0\r\neth0\n", "id#0", "eth0"));
    assert!(!recorded_for("id#0\r\neth1", "id#0", "eth0"));
    assert!(!recorded_for("id#0\neth0", "id#0", "eth0"));
    assert_eq!(last_ip_file("1"), "last_reserved_ip_1");
    assert_eq!(data_dir(None), "/var/lib/cni/networks");
    assert_eq!(data_dir(Some("/tmp/ipam".to_string())), "/tmp/ipam");
    assert_eq!(recorded_ip("192.168.1.2"), Some(IpAddr::V4(Ipv4Addr::new(192, 168, 1, 2))));
    assert_eq!(recorded_ip("last_reserved_ip_1"), None);
}

#[test]
fn addresses_are_read_from_text() {
    assert_eq!(IpAddr::from_str("192.0.2.1").unwrap(), IpAddr::V4(Ipv4Addr::new(192, 0, 2, 1)));
    assert_eq!(IpAddr::from_str("::1").unwrap(), IpAddr::V6(Ipv6Addr::from_bits(1)));
    for bad in ["192.0.2.1/24", "192.0.2", "", "::1/128", "x"] {
        assert!(IpAddr::from_str(bad).is_err(), "{:?}", bad);
    }
}

#[test]
fn test_run_plugin() {
    let net_conf = r#"
        {
  "cniVersion": "1.0.0",
  "name": "mynet",
  "type": "bridge",
  "bridge": "br666",
  "isDefaultGateway": true,
  "forceAddress": false,
  "ipMasq": true,
  "hairpinMode": true,
  "ipam": {
    "type": "static",
    "addresses": [
      {
        "address": "10.10.0.1/24",
        "gateway": "10.10.0.254"
      },
      {
        "address": "3ffe:ffff:0:01ff::1/64",
        "gateway": "3ffe:ffff:0::1"
      }
    ]
  }
}
       "#;
    let call = delegate_add("static", "/opt/cni/bin", &vec![true]).unwrap();
    assert_eq!(call.path, "/opt/cni/bin/static");
    assert_eq!(call.env, vec![pair("CNI_COMMAND", "ADD")]);

    let addresses = vec![
        Ip {
            address: IpNetwork::from_str("10.10.0.1/24").unwrap(),
            gateway: Some(IpAddr::from_str("10.10.0.254").unwrap()),
            interface: None,
        },
        Ip {
            address: IpNetwork::from_str("3ffe:ffff:0:01ff::1/64").unwrap(),
            gateway: Some(IpAddr::from_str("3ffe:ffff:0::1").unwrap()),
            interface: None,
        },
    ];
    let ipam = IPAMConfig {
        plugin: "static".to_string(),
        routes: None,
        addresses: Some(addresses.clone()),
        dns: None,
    };
    let a = cmd_add(static_conf(Some(ipam))).unwrap();
    println!("a: {:?}", a);
    assert_eq!(a.ips, addresses);
    let output = exec_plugin_with_result(Some(0), net_conf.as_bytes().to_vec()).unwrap();
    assert_eq!(output, net_conf.as_bytes());
}
