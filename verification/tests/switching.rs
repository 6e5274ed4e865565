use cni_plugins::error::{Error, ErrorKind};
use cni_plugins::host::{Netns, Reply, Request};
use cni_plugins::netns::{with_namespace, SwitchPhase};

fn ns(id: &str) -> Netns {
    Netns { id: id.to_string(), path: None, fd: 5 }
}

#[test]
fn switch_enters_the_target_and_returns_to_the_origin() {
    let (mut switch, first) = with_namespace(&ns("host"), &ns("box"));
    assert!(matches!(first, Request::SetNetns(n) if n.id == "box"));
    assert_eq!(switch.phase, SwitchPhase::Entering);
    switch.entered(Reply::Done).unwrap();
    assert_eq!(switch.phase, SwitchPhase::Inside);
    let back = switch.leave(None);
    assert!(matches!(back, Request::SetNetns(n) if n.id == "host"));
    assert_eq!(switch.phase, SwitchPhase::Leaving);
    switch.left(Reply::Done).unwrap();
    assert_eq!(switch.phase, SwitchPhase::Finished);
}

#[test]
fn trouble_inside_is_reported_after_the_return() {
    let (mut switch, _) = with_namespace(&ns("host"), &ns("box"));
    switch.entered(Reply::Done).unwrap();
    let back = switch.leave(Some(Error::new(ErrorKind::Provisioning, "veth not found")));
    assert!(matches!(back, Request::SetNetns(n) if n.id == "host"));
    let e = switch.left(Reply::Done).unwrap_err();
    assert_eq!(e.kind, ErrorKind::Provisioning);
    assert_eq!(e.message, "veth not found");
}

#[test]
fn a_namespace_that_cannot_be_entered_or_restored_is_a_namespace_error() {
    let (mut switch, _) = with_namespace(&ns("host"), &ns("box"));
    let denied = Reply::Failed(Error::new(ErrorKind::Os, "denied"));
    assert_eq!(switch.entered(denied).unwrap_err().kind, ErrorKind::Namespace);
    assert_eq!(switch.phase, SwitchPhase::Finished);

    let (mut switch, _) = with_namespace(&ns("host"), &ns("box"));
    switch.entered(Reply::Done).unwrap();
    switch.leave(Some(Error::new(ErrorKind::Provisioning, "veth not found")));
    let denied = Reply::Failed(Error::new(ErrorKind::Os, "denied"));
    assert_eq!(switch.left(denied).unwrap_err().kind, ErrorKind::Namespace);

    let (mut switch, _) = with_namespace(&ns("host"), &ns("box"));
    assert_eq!(switch.left(Reply::Done).unwrap_err().kind, ErrorKind::Namespace);
}

#[test]
fn handles_denote_a_namespace_by_its_identity() {
    let a = Netns { id: "4026531992".to_string(), path: None, fd: 3 };
    let b = Netns { id: "4026531992".to_string(), path: Some("/proc/1/ns/net".to_string()), fd: 9 };
    let c = Netns { id: "4026532201".to_string(), path: None, fd: 3 };
    assert!(a.same(&b) && b.same(&a));
    assert!(!a.same(&c));
    let d = b.duplicate();
    assert_eq!((d.id.as_str(), d.path.as_deref(), d.fd), ("4026531992", Some("/proc/1/ns/net"), 9));
}
