use cni_plugins::error::{
    anyhow_io_kind, is_already_exists_error, is_not_found_error, Error, ErrorKind, IoErrorKind,
};
use cni_plugins::mac::MacAddr;
use cni_plugins::skel::{get_cmd_args_from_env, plugin_main, Cmd, CniEnv};
use cni_plugins::sysctl::{accept_ra, enable_ip_forward, enable_ipv4_forward, enable_ipv6_forward};
use cni_plugins::addr::Family;

#[test]
fn io_kind_of_errors() {
    let e = Error::from_io(IoErrorKind::AlreadyExists, "file exists");
    assert_eq!(e.kind, ErrorKind::Os);
    assert_eq!(anyhow_io_kind(&e), Some(IoErrorKind::AlreadyExists));
    assert!(is_already_exists_error(&e));
    assert!(!is_not_found_error(&e));
    let e = Error::from_io(IoErrorKind::NotFound, "no such device");
    assert!(is_not_found_error(&e));
    assert!(!is_already_exists_error(&e));
    let e = Error::new(ErrorKind::Provisioning, "plain");
    assert_eq!(anyhow_io_kind(&e), None);
    assert!(!is_already_exists_error(&e));
    assert!(!is_not_found_error(&e));
    assert_eq!(e.to_string(), "plain");
}

#[test]
fn error_context_keeps_the_io_kind() {
    let e = Error::from_io(IoErrorKind::PermissionDenied, "denied")
        .context(ErrorKind::Provisioning, "link add failed: ");
    assert_eq!(e.kind, ErrorKind::Provisioning);
    assert_eq!(e.io_kind, Some(IoErrorKind::PermissionDenied));
    assert_eq!(e.message, "link add failed: denied");
}

#[test]
fn commands_parse_and_print() {
    for (text, cmd) in [
        ("ADD", Cmd::Add),
        ("DEL", Cmd::Del),
        ("CHECK", Cmd::Check),
        ("VERSION", Cmd::Version),
    ] {
        assert_eq!(Cmd::from_str(text).unwrap(), cmd);
        assert_eq!(cmd.to_string(), text);
    }
    let e = Cmd::from_str("add").unwrap_err();
    assert_eq!(e.kind, ErrorKind::Config);
    assert_eq!(e.message, "unknown command: add");
    assert!(Cmd::from_str("").is_err());
}

fn env(command: &str) -> CniEnv {
    CniEnv {
        command: Some(command.to_string()),
        container_id: Some("c1".to_string()),
        netns: Some("/var/run/netns/x".to_string()),
        if_name: Some("eth0".to_string()),
        args: None,
        path: Some("/opt/cni/bin".to_string()),
    }
}

#[test]
fn arguments_come_from_the_environment() {
    let (cmd, args) = get_cmd_args_from_env(&env("ADD")).unwrap();
    assert_eq!(cmd, Cmd::Add);
    assert_eq!(args.container_id, "c1");
    assert_eq!(args.netns, "/var/run/netns/x");
    assert_eq!(args.if_name, "eth0");
    assert_eq!(args.args, "");
    assert_eq!(args.path, "/opt/cni/bin");
    assert!(get_cmd_args_from_env(&CniEnv::default()).is_err());
}

#[test]
fn plugin_main_runs_the_handler_of_the_command() {
    let fail = |tag: &'static str| move |_| Err(Error::new(ErrorKind::Config, tag));
    let r = plugin_main(&env("ADD"), |a| {
        assert_eq!(a.if_name, "eth0");
        Ok(())
    }, fail("del"), fail("check"));
    assert!(r.is_ok());
    let r = plugin_main(&env("DEL"), fail("add"), fail("del"), fail("check"));
    assert_eq!(r.unwrap_err().message, "del");
    let r = plugin_main(&env("CHECK"), fail("add"), fail("del"), fail("check"));
    assert_eq!(r.unwrap_err().message, "check");
    let r = plugin_main(&env("VERSION"), fail("add"), fail("del"), fail("check"));
    assert_eq!(r.unwrap_err().kind, ErrorKind::Config);
    let r = plugin_main(&env("bogus"), fail("add"), fail("del"), fail("check"));
    assert_eq!(r.unwrap_err().message, "unknown command: bogus");
}

#[test]
fn forwarding_requests() {
    let w = enable_ipv4_forward();
    assert_eq!((w.key.as_str(), w.value.as_str()), ("net/ipv4/ip_forward", "1"));
    let w = enable_ipv6_forward();
    assert_eq!((w.key.as_str(), w.value.as_str()), ("net/ipv6/conf/all/forwarding", "1"));
    assert_eq!(enable_ip_forward(Family::V4).unwrap().key, "net/ipv4/ip_forward");
    assert_eq!(enable_ip_forward(Family::V6).unwrap().key, "net/ipv6/conf/all/forwarding");
    assert_eq!(enable_ip_forward(Family::Unspec).unwrap_err().kind, ErrorKind::Config);
    let w = accept_ra("br0");
    assert_eq!((w.key.as_str(), w.value.as_str()), ("net/ipv6/conf/br0/accept_ra", "1"));
}

#[test]
fn hardware_addresses() {
    assert_eq!(MacAddr::try_from(&[]).unwrap(), MacAddr::default());
    assert_eq!(MacAddr::default().bytes, [0; 6]);
    let m = MacAddr::try_from(&[0x02, 0x42, 0xac, 0x11, 0x00, 0x0f]).unwrap();
    assert_eq!(m.bytes, [0x02, 0x42, 0xac, 0x11, 0x00, 0x0f]);
    assert_eq!(m.to_string(), "02:42:AC:11:00:0F");
    assert_eq!(MacAddr::try_from(&[1, 2, 3]).unwrap_err().kind, ErrorKind::Config);
    assert_eq!(MacAddr::try_from(&[1, 2, 3, 4, 5, 6, 7]).unwrap_err().kind, ErrorKind::Config);
    assert_eq!(MacAddr::from_str("02:42:ac:11:00:0f").unwrap(), m);
    assert_eq!(MacAddr::from_str("02-42-AC-11-00-0F").unwrap(), m);
    assert!(MacAddr::from_str("02:42:ac:11:00").is_err());
    assert_eq!(MacAddr::from([1, 2, 3, 4, 5, 6]).bytes, [1, 2, 3, 4, 5, 6]);
}
