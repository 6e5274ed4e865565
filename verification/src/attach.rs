//! The container's attachment to the bridge: a veth pair made inside the
//! container's namespace, whose host end is then attached to the bridge, as
//! a state machine over the operations of the host.

use vstd::prelude::*;
use crate::error::{Error, ErrorKind};
use crate::host::{
    Link, LinkView, Netns, NetnsView, Reply, ReplyView, Request, RequestView, Step, StepView,
};
use crate::mac::MacAddr;
use crate::netns::{
    kind_of, switch_entered, switch_leaves, switch_left, switch_start, with_namespace,
    NamespaceSwitch, NamespaceSwitchView,
};
use crate::types::{Interface, InterfaceView};
use crate::veth::{veth_start, veth_step, SetupVeth, SetupVethView, VethPair};

verus! {

/// The two interfaces of a pair as they are reported.
#[derive(Debug)]
pub struct VethInterfaces {
    pub host: Interface,
    pub container: Interface,
}

impl View for VethInterfaces {
    type V = (InterfaceView, InterfaceView);

    open spec fn view(&self) -> (InterfaceView, InterfaceView) {
        (self.host@, self.container@)
    }
}

/// What the attachment machine waits for.
#[derive(Clone, Copy, Debug, PartialEq, Eq, Structural)]
pub enum AttachPhase {
    /// The container's namespace being entered.
    Entering,
    /// The veth machine, inside the container's namespace.
    Pairing,
    /// The host's namespace being entered again.
    Leaving,
    /// The host end as the kernel reports it on the host.
    FindingHost,
    /// The host end being attached to the bridge.
    Attaching,
    /// Nothing: the machine has finished or failed.
    Finished,
}

/// The state machine that attaches a container to the bridge.
#[derive(Debug)]
pub struct AttachVeth {
    /// The container's namespace.
    pub netns: Netns,
    /// The index of the bridge.
    pub bridge: u32,
    pub phase: AttachPhase,
    pub pairing: SetupVeth,
    pub host: Option<Interface>,
    pub container: Option<Interface>,
    /// The host end as the kernel reports it on the host.
    pub host_link: Option<Link>,
    /// The switch into the container's namespace.
    pub switch: NamespaceSwitch,
}

/// What an `AttachVeth` holds, as mathematical values.
pub struct AttachVethView {
    pub netns: NetnsView,
    pub bridge: u32,
    pub phase: AttachPhase,
    pub pairing: SetupVethView,
    pub host: Option<InterfaceView>,
    pub container: Option<InterfaceView>,
    pub host_link: Option<LinkView>,
    pub switch: NamespaceSwitchView,
}

impl View for AttachVeth {
    type V = AttachVethView;

    open spec fn view(&self) -> AttachVethView {
        AttachVethView {
            netns: self.netns@,
            bridge: self.bridge,
            phase: self.phase,
            pairing: self.pairing@,
            host: match self.host {
                Some(i) => Some(i@),
                None => None,
            },
            container: match self.container {
                Some(i) => Some(i@),
                None => None,
            },
            host_link: match self.host_link {
                Some(l) => Some(l@),
                None => None,
            },
            switch: self.switch@,
        }
    }
}

/// The result of a step: the next state and what to do next.
pub type AttachStep = (AttachVethView, StepView<(InterfaceView, InterfaceView)>);

/// The machine before its first step, and the operation it starts with:
/// entering the container's namespace.
pub open spec fn attach_start(
    host_ns: NetnsView,
    netns: NetnsView,
    bridge: u32,
    if_name: Seq<char>,
) -> (AttachVethView, RequestView) {
    (
        AttachVethView {
            netns: netns,
            bridge: bridge,
            phase: AttachPhase::Entering,
            pairing: veth_start(if_name, Seq::<char>::empty(), host_ns, netns).0,
            host: None,
            container: None,
            host_link: None,
            switch: switch_start(host_ns, netns).0,
        },
        switch_start(host_ns, netns).1,
    )
}

/// The host end as it is reported before it is attached: its name alone.
pub open spec fn host_interface(l: LinkView) -> InterfaceView {
    InterfaceView { name: l.name, mac: None, sandbox: None }
}

/// The path of a namespace, empty where it was not opened by path.
pub open spec fn sandbox_path(ns: NetnsView) -> Seq<char> {
    match ns.path {
        Some(p) => p,
        None => Seq::<char>::empty(),
    }
}

/// The hardware address of a device, if the kernel reports one; nothing at
/// all where the one it reports has a length other than zero or six.
pub open spec fn link_mac(l: LinkView) -> Option<Option<Seq<u8>>> {
    match l.hardware_addr {
        None => Some(None),
        Some(bytes) => match MacAddr::spec_try_from(bytes) {
            Some(mac) => Some(Some(mac)),
            None => None,
        },
    }
}

/// The container end as it is reported: its name, its hardware address, and
/// the path of the container's namespace.
pub open spec fn container_interface(l: LinkView, mac: Option<Seq<u8>>, ns: NetnsView) -> InterfaceView {
    InterfaceView { name: l.name, mac: mac, sandbox: Some(sandbox_path(ns)) }
}

/// The machine after a failure of the given kind.
pub open spec fn attach_failed(m: AttachVethView, kind: ErrorKind) -> AttachStep {
    (
        AttachVethView {
            phase: AttachPhase::Finished,
            host: None,
            container: None,
            host_link: None,
            ..m
        },
        StepView::Fail(kind),
    )
}

/// The host's namespace being entered again, with what is to be reported
/// after that.
pub open spec fn attach_leaves(
    m: AttachVethView,
    pairing: SetupVethView,
    host: Option<InterfaceView>,
    container: Option<InterfaceView>,
    pending: Option<ErrorKind>,
) -> AttachStep {
    (
        AttachVethView {
            phase: AttachPhase::Leaving,
            pairing: pairing,
            host: host,
            container: container,
            switch: switch_leaves(m.switch, pending).0,
            ..m
        },
        StepView::Call(switch_leaves(m.switch, pending).1),
    )
}

/// One step of the attachment machine: the state and the reply to the
/// operation it waited for give the next state and what to do next.
///
/// The container's namespace is entered and the veth machine runs inside
/// it. Whether that machine finishes or fails, the host's namespace is
/// entered again before anything is reported. Back on the host, the host end
/// is looked up by its name and attached to the bridge, and its hardware
/// address is read for the report. A host end that is not found, or has no
/// hardware address, is a `Provisioning` error; a hardware address of a
/// wrong length a `Config` error; not entering a namespace a `Namespace` error.
pub open spec fn attach_step(m: AttachVethView, reply: ReplyView) -> AttachStep {
    match (m.phase, reply) {
        (AttachPhase::Entering, _) => {
            let (switch, failure) = switch_entered(m.switch, reply);
            let at = AttachVethView { switch: switch, ..m };
            match failure {
                None => (
                    AttachVethView { phase: AttachPhase::Pairing, ..at },
                    StepView::Call(RequestView::CurrentNetns),
                ),
                Some(kind) => attach_failed(at, kind),
            }
        },
        (AttachPhase::Pairing, _) => {
            let (pairing, step) = veth_step(m.pairing, reply);
            match step {
                StepView::Call(request) => (
                    AttachVethView { pairing: pairing, ..m },
                    StepView::Call(request),
                ),
                StepView::Done((host, container)) => match link_mac(container) {
                    Some(mac) => attach_leaves(
                        m,
                        pairing,
                        Some(host_interface(host)),
                        Some(container_interface(container, mac, m.netns)),
                        None,
                    ),
                    None => attach_leaves(m, pairing, None, None, Some(ErrorKind::Config)),
                },
                StepView::Fail(kind) => attach_leaves(m, pairing, None, None, Some(kind)),
            }
        },
        (AttachPhase::Leaving, _) => {
            let (switch, failure) = switch_left(m.switch, reply);
            let at = AttachVethView { switch: switch, ..m };
            match (failure, m.host) {
                (Some(kind), _) => attach_failed(at, kind),
                (None, Some(host)) => (
                    AttachVethView { phase: AttachPhase::FindingHost, ..at },
                    StepView::Call(RequestView::LinkByName(host.name)),
                ),
                _ => attach_failed(at, ErrorKind::Consistency),
            }
        },
        (AttachPhase::FindingHost, ReplyView::Link(Some(l))) => (
            AttachVethView { phase: AttachPhase::Attaching, host_link: Some(l), ..m },
            StepView::Call(RequestView::LinkSetMaster { link: l.index, master: m.bridge }),
        ),
        (AttachPhase::FindingHost, ReplyView::Link(None)) => attach_failed(
            m,
            ErrorKind::Provisioning,
        ),
        (AttachPhase::Attaching, ReplyView::Done) => match (m.host_link, m.host, m.container) {
            (Some(l), Some(host), Some(container)) => match l.hardware_addr {
                None => attach_failed(m, ErrorKind::Provisioning),
                Some(bytes) => match MacAddr::spec_try_from(bytes) {
                    None => attach_failed(m, ErrorKind::Config),
                    Some(mac) => (
                        AttachVethView {
                            phase: AttachPhase::Finished,
                            host: None,
                            container: None,
                            host_link: None,
                            ..m
                        },
                        StepView::Done((InterfaceView { mac: Some(mac), ..host }, container)),
                    ),
                },
            },
            _ => attach_failed(m, ErrorKind::Consistency),
        },
        (AttachPhase::Finished, _) => attach_failed(m, ErrorKind::Consistency),
        (_, ReplyView::Failed(e)) => attach_failed(m, e.kind),
        _ => attach_failed(m, ErrorKind::Consistency),
    }
}

/// Starts attaching a container to the bridge `br`: the machine, and the
/// operation it starts with. The container end is named `if_name`, the host
/// end gets a random name. Of the further settings none is applied.
pub fn setup_veth(
    host_ns: &Netns,
    netns: &Netns,
    br: &Link,
    if_name: &str,
    mtu: u32,
    hairpin_mode: bool,
    promisc_mode: bool,
    vlan_id: u16,
    vlans: Vec<u32>,
    preserve_default_vlan: bool,
    mac: &str,
) -> (r: (AttachVeth, Request))
    ensures
        (r.0@, r.1@) == attach_start(host_ns@, netns@, br.index, if_name@),
{
    let (pairing, _) = crate::veth::setup_veth(if_name, "", mtu, mac, host_ns, netns);
    let (switch, first) = with_namespace(host_ns, netns);
    proof {
        reveal_strlit("");
        assert(""@ =~= Seq::<char>::empty());
    }
    (
        AttachVeth {
            netns: netns.duplicate(),
            bridge: br.index,
            phase: AttachPhase::Entering,
            pairing,
            host: None,
            container: None,
            host_link: None,
            switch,
        },
        first,
    )
}

/// The hardware address of a device, if the kernel reports one, or a
/// `Config` error where the one it reports has a wrong length.
fn mac_of(l: &Link) -> (r: Result<Option<MacAddr>, Error>)
    ensures
        match link_mac(l@) {
            Some(None) => r is Ok && r->Ok_0.is_none(),
            Some(Some(bytes)) => r is Ok && r->Ok_0.is_some() && r->Ok_0.unwrap().bytes@ == bytes,
            None => r is Err && r->Err_0.kind == ErrorKind::Config,
        },
{
    match &l.hardware_addr {
        None => Ok(None),
        Some(bytes) => match MacAddr::try_from(bytes.as_slice()) {
            Ok(mac) => Ok(Some(mac)),
            Err(e) => Err(e),
        },
    }
}

impl AttachVeth {
    fn fail(&mut self, e: Error) -> (r: Step<VethInterfaces>)
        ensures
            (final(self)@, r@) == attach_failed(old(self)@, e.kind),
    {
        self.phase = AttachPhase::Finished;
        self.host = None;
        self.container = None;
        self.host_link = None;
        Step::Fail(e)
    }

    fn leave(&mut self, host: Option<Interface>, container: Option<Interface>, pending: Option<Error>) -> (r:
        Step<VethInterfaces>)
        ensures
            (final(self)@, r@) == attach_leaves(
                old(self)@,
                old(self)@.pairing,
                match host {
                    Some(i) => Some(i@),
                    None => None,
                },
                match container {
                    Some(i) => Some(i@),
                    None => None,
                },
                kind_of(pending),
            ),
    {
        self.phase = AttachPhase::Leaving;
        self.host = host;
        self.container = container;
        Step::Call(self.switch.leave(pending))
    }

    /// What follows the end of the veth machine.
    fn paired(&mut self, step: Step<VethPair>) -> (r: Step<VethInterfaces>)
        requires
            old(self).phase == AttachPhase::Pairing,
        ensures
            (final(self)@, r@) == (match step@ {
                StepView::Call(request) => (old(self)@, StepView::Call(request)),
                StepView::Done((host, container)) => match link_mac(container) {
                    Some(mac) => attach_leaves(
                        old(self)@,
                        old(self)@.pairing,
                        Some(host_interface(host)),
                        Some(container_interface(container, mac, old(self)@.netns)),
                        None,
                    ),
                    None => attach_leaves(
                        old(self)@,
                        old(self)@.pairing,
                        None,
                        None,
                        Some(ErrorKind::Config),
                    ),
                },
                StepView::Fail(kind) => attach_leaves(
                    old(self)@,
                    old(self)@.pairing,
                    None,
                    None,
                    Some(kind),
                ),
            }),
    {
        match step {
            Step::Call(request) => Step::Call(request),
            Step::Done(pair) => {
                match mac_of(&pair.container) {
                    Ok(mac) => {
                        let host = Interface { name: pair.host.name, mac: None, sandbox: None };
                        let sandbox = match &self.netns.path {
                            Some(p) => p.clone(),
                            None => String::new(),
                        };
                        let container = Interface {
                            name: pair.container.name,
                            mac,
                            sandbox: Some(sandbox),
                        };
                        self.leave(Some(host), Some(container), None)
                    },
                    Err(e) => self.leave(None, None, Some(e)),
                }
            },
            Step::Fail(e) => self.leave(None, None, Some(e)),
        }
    }

    /// What follows the attachment of the host end to the bridge.
    fn attached(&mut self) -> (r: Step<VethInterfaces>)
        requires
            old(self).phase == AttachPhase::Attaching,
        ensures
            (final(self)@, r@) == attach_step(old(self)@, ReplyView::Done),
    {
        match (self.host_link.take(), self.host.take(), self.container.take()) {
            (Some(l), Some(host), Some(container)) => {
                match &l.hardware_addr {
                    None => self.fail(Error::new(ErrorKind::Provisioning, "veth mac not found")),
                    Some(bytes) => match MacAddr::try_from(bytes.as_slice()) {
                        Err(e) => self.fail(e),
                        Ok(mac) => {
                            self.phase = AttachPhase::Finished;
                            let host = Interface { name: host.name, mac: Some(mac), sandbox: host.sandbox };
                            Step::Done(VethInterfaces { host, container })
                        },
                    },
                }
            },
            _ => self.fail(Error::new(ErrorKind::Consistency, "veth lost")),
        }
    }

    /// Takes the reply to the operation that the machine waited for, and says
    /// what to do next.
    pub fn step(&mut self, reply: Reply) -> (r: Step<VethInterfaces>)
        ensures
            (final(self)@, r@) == attach_step(old(self)@, reply@),
    {
        match (self.phase, reply) {
            (AttachPhase::Entering, reply) => match self.switch.entered(reply) {
                Ok(()) => {
                    self.phase = AttachPhase::Pairing;
                    Step::Call(Request::CurrentNetns)
                },
                Err(e) => self.fail(e),
            },
            (AttachPhase::Pairing, reply) => {
                let step = self.pairing.step(reply);
                self.paired(step)
            },
            (AttachPhase::Leaving, reply) => {
                match self.switch.left(reply) {
                    Err(e) => self.fail(e),
                    Ok(()) => {
                        let name = match &self.host {
                            Some(host) => Some(host.name.clone()),
                            None => None,
                        };
                        match name {
                            Some(name) => {
                                self.phase = AttachPhase::FindingHost;
                                Step::Call(Request::LinkByName(name))
                            },
                            None => self.fail(Error::new(ErrorKind::Consistency, "veth lost")),
                        }
                    },
                }
            },
            (AttachPhase::FindingHost, Reply::Link(Some(l))) => {
                let index = l.index;
                self.phase = AttachPhase::Attaching;
                self.host_link = Some(l);
                Step::Call(Request::LinkSetMaster { link: index, master: self.bridge })
            },
            (AttachPhase::FindingHost, Reply::Link(None)) => self.fail(
                Error::new(ErrorKind::Provisioning, "veth not found"),
            ),
            (AttachPhase::Attaching, Reply::Done) => self.attached(),
            (AttachPhase::Finished, _) => self.fail(
                Error::new(ErrorKind::Consistency, "the attachment machine has finished"),
            ),
            (_, Reply::Failed(e)) => self.fail(e),
            _ => self.fail(Error::new(ErrorKind::Consistency, "unexpected reply")),
        }
    }
}

/// The host's namespace is entered again on every path. While the veth
/// machine runs inside the container's namespace, the attachment machine
/// neither finishes nor fails: it passes on what the veth machine asks for,
/// or asks for the host's namespace.
pub proof fn lemma_host_namespace_restored(m: AttachVethView, reply: ReplyView)
    requires
        m.phase == AttachPhase::Pairing,
    ensures
        attach_step(m, reply).1 is Call,
        attach_step(m, reply).0.phase == AttachPhase::Pairing || (attach_step(m, reply).0.phase
            == AttachPhase::Leaving && attach_step(m, reply).1 == StepView::<
            (InterfaceView, InterfaceView),
        >::Call(RequestView::SetNetns(m.switch.origin))),
        attach_step(m, reply).0.switch.origin == m.switch.origin,
{
}

/// The switch of an attachment starts from the host's namespace.
pub proof fn lemma_switch_from_host(
    host_ns: NetnsView,
    netns: NetnsView,
    bridge: u32,
    if_name: Seq<char>,
)
    ensures
        attach_start(host_ns, netns, bridge, if_name).0.switch.origin == host_ns,
        attach_start(host_ns, netns, bridge, if_name).1 == RequestView::SetNetns(netns),
{
}

/// The interfaces are handed out only after the host end was attached to
/// the bridge: the machine finishes from no other phase than the one that
/// waits for the attachment, and on no other reply than its success.
pub proof fn lemma_attached_before_report(m: AttachVethView, reply: ReplyView)
    requires
        attach_step(m, reply).1 is Done,
    ensures
        m.phase == AttachPhase::Attaching,
        reply is Done,
        m.host_link.is_some(),
{
}

} // verus!
