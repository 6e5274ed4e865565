//! The bridge: making sure that the device exists, is a bridge and is up,
//! as a state machine over the operations of the host.

use vstd::prelude::*;
use crate::config::NetConf;
use crate::error::{Error, ErrorKind, IoErrorKind};
use crate::host::{
    host_answer, HostModel, Link, LinkKind, LinkKindView, LinkView, Reply, ReplyView, Request,
    RequestView, Step, StepView,
};
use crate::mac::MacAddr;
use crate::sysctl::accept_ra;
use crate::types::{Interface, InterfaceView};

verus! {

/// The name of the bridge where the configuration names none.
pub const DEFAULT_BRIDGE: &'static str = "cni0";

/// What the bridge machine waits for.
#[derive(Clone, Copy, Debug, PartialEq, Eq, Structural)]
pub enum BridgePhase {
    /// The creation of the device.
    Adding,
    /// The index of the device, to make it receive every packet.
    FindingIndex,
    /// The device being made to receive every packet.
    SettingPromisc,
    /// The device as the kernel reports it.
    Resolving,
    /// The device being allowed to accept router advertisements.
    AcceptingRa,
    /// The device being brought up.
    SettingUp,
    /// Nothing: the machine has finished or failed.
    Finished,
}

/// The state machine that makes sure a bridge exists.
#[derive(Debug)]
pub struct EnsureBridge {
    pub name: String,
    pub promisc_mode: bool,
    pub phase: BridgePhase,
    /// The device, once the kernel has reported it.
    pub link: Option<Link>,
}

/// What an `EnsureBridge` holds, as mathematical values.
pub struct EnsureBridgeView {
    pub name: Seq<char>,
    pub promisc_mode: bool,
    pub phase: BridgePhase,
    pub link: Option<LinkView>,
}

impl View for EnsureBridge {
    type V = EnsureBridgeView;

    open spec fn view(&self) -> EnsureBridgeView {
        EnsureBridgeView {
            name: self.name@,
            promisc_mode: self.promisc_mode,
            phase: self.phase,
            link: match self.link {
                Some(l) => Some(l@),
                None => None,
            },
        }
    }
}

/// The bridge device that is asked for.
pub open spec fn bridge_link(name: Seq<char>, mtu: u32, vlan_filtering: bool) -> LinkView {
    LinkView {
        index: 0,
        name: name,
        mtu: mtu,
        hardware_addr: None,
        kind: LinkKindView::Bridge { vlan_filtering: Some(vlan_filtering) },
    }
}

/// The machine before its first step, and the operation it starts with: the
/// creation of the bridge.
pub open spec fn bridge_start(name: Seq<char>, mtu: u32, promisc_mode: bool, vlan_filtering: bool) -> (
    EnsureBridgeView,
    RequestView,
) {
    (
        EnsureBridgeView { name: name, promisc_mode: promisc_mode, phase: BridgePhase::Adding, link: None },
        RequestView::LinkAdd(bridge_link(name, mtu, vlan_filtering)),
    )
}

/// The machine after a failure of the given kind.
pub open spec fn bridge_failed(m: EnsureBridgeView, kind: ErrorKind) -> (
    EnsureBridgeView,
    StepView<LinkView>,
) {
    (EnsureBridgeView { phase: BridgePhase::Finished, link: None, ..m }, StepView::Fail(kind))
}

/// The machine moving on to a phase with the operation that the phase waits for.
pub open spec fn bridge_goes(m: EnsureBridgeView, phase: BridgePhase, request: RequestView) -> (
    EnsureBridgeView,
    StepView<LinkView>,
) {
    (EnsureBridgeView { phase: phase, ..m }, StepView::Call(request))
}

/// What follows the creation of the device, whether it was created now or
/// existed before.
pub open spec fn bridge_added(m: EnsureBridgeView) -> (EnsureBridgeView, StepView<LinkView>) {
    if m.promisc_mode {
        bridge_goes(m, BridgePhase::FindingIndex, RequestView::LinkIndex(m.name))
    } else {
        bridge_goes(m, BridgePhase::Resolving, RequestView::LinkByName(m.name))
    }
}

/// The key of the kernel parameter that lets a device accept router
/// advertisements.
pub open spec fn accept_ra_key(name: Seq<char>) -> Seq<char> {
    "net/ipv6/conf/"@ + name + "/accept_ra"@
}

/// One step of the bridge machine: the state and the reply to the operation
/// it waited for give the next state and what to do next.
///
/// The device is created, and that it exists already is no failure; any
/// other failure of the creation is a `Provisioning` error. Where asked for,
/// the device is made to receive every packet. Then the device is looked up:
/// none is a `Provisioning` error, one that is no bridge a `TypeMismatch`
/// error. The bridge is allowed to accept router advertisements, brought up,
/// and handed out. A failure of any other operation ends the run with the
/// kind of that failure, a reply of the wrong shape with a `Consistency` error.
pub open spec fn bridge_step(m: EnsureBridgeView, reply: ReplyView) -> (
    EnsureBridgeView,
    StepView<LinkView>,
) {
    match (m.phase, reply) {
        (BridgePhase::Adding, ReplyView::Done) => bridge_added(m),
        (BridgePhase::Adding, ReplyView::Failed(e)) => if e.io_kind == Some(
            IoErrorKind::AlreadyExists,
        ) {
            bridge_added(m)
        } else {
            bridge_failed(m, ErrorKind::Provisioning)
        },
        (BridgePhase::FindingIndex, ReplyView::Index(Some(i))) => bridge_goes(
            m,
            BridgePhase::SettingPromisc,
            RequestView::SetPromiscOn(i),
        ),
        (BridgePhase::FindingIndex, ReplyView::Index(None)) => bridge_failed(
            m,
            ErrorKind::Provisioning,
        ),
        (BridgePhase::SettingPromisc, ReplyView::Done) => bridge_goes(
            m,
            BridgePhase::Resolving,
            RequestView::LinkByName(m.name),
        ),
        (BridgePhase::Resolving, ReplyView::Link(None)) => bridge_failed(m, ErrorKind::Provisioning),
        (BridgePhase::Resolving, ReplyView::Link(Some(l))) => if l.kind is Bridge {
            (
                EnsureBridgeView { phase: BridgePhase::AcceptingRa, link: Some(l), ..m },
                StepView::Call(RequestView::Sysctl(accept_ra_key(m.name), "1"@)),
            )
        } else {
            bridge_failed(m, ErrorKind::TypeMismatch)
        },
        (BridgePhase::AcceptingRa, ReplyView::Done) => match m.link {
            Some(l) => bridge_goes(m, BridgePhase::SettingUp, RequestView::LinkSetUp(l.index)),
            None => bridge_failed(m, ErrorKind::Consistency),
        },
        (BridgePhase::SettingUp, ReplyView::Done) => match m.link {
            Some(l) => (
                EnsureBridgeView { phase: BridgePhase::Finished, link: None, ..m },
                StepView::Done(l),
            ),
            None => bridge_failed(m, ErrorKind::Consistency),
        },
        (BridgePhase::Finished, _) => bridge_failed(m, ErrorKind::Consistency),
        (_, ReplyView::Failed(e)) => bridge_failed(m, e.kind),
        _ => bridge_failed(m, ErrorKind::Consistency),
    }
}

/// Starts making sure that the bridge `br_name` exists with the given
/// attributes: the machine, and the operation it starts with.
pub fn ensure_bridge(br_name: &str, mtu: u32, promisc_mode: bool, vlan_filtering: bool) -> (r: (
    EnsureBridge,
    Request,
))
    ensures
        (r.0@, r.1@) == bridge_start(br_name@, mtu, promisc_mode, vlan_filtering),
{
    let br = Link {
        index: 0,
        name: String::from_str(br_name),
        mtu,
        hardware_addr: None,
        kind: LinkKind::Bridge { vlan_filtering: Some(vlan_filtering) },
    };
    (
        EnsureBridge {
            name: String::from_str(br_name),
            promisc_mode,
            phase: BridgePhase::Adding,
            link: None,
        },
        Request::LinkAdd(br),
    )
}

/// Judges the device found under the name of the bridge: none is passed on,
/// a bridge too, and any other device is a `TypeMismatch` error.
pub fn bridge_by_name(br_name: &str, link: Option<Link>) -> (r: Result<Option<Link>, Error>)
    ensures
        match link {
            None => r == Ok::<Option<Link>, Error>(None),
            Some(l) => if l.kind is Bridge {
                r == Ok::<Option<Link>, Error>(Some(l))
            } else {
                r is Err && r->Err_0.kind == ErrorKind::TypeMismatch && r->Err_0.message@ == "link "@
                    + br_name@ + " is not a bridge"@
            },
        },
{
    match link {
        None => Ok(None),
        Some(link) => {
            let is_bridge = match &link.kind {
                LinkKind::Bridge { .. } => true,
                _ => false,
            };
            if !is_bridge {
                let mut message = String::from_str("link ");
                message.append(br_name);
                message.append(" is not a bridge");
                return Err(Error::new(ErrorKind::TypeMismatch, message.as_str()));
            }
            Ok(Some(link))
        },
    }
}

impl EnsureBridge {
    fn fail(&mut self, e: Error) -> (r: Step<Link>)
        ensures
            (final(self)@, r@) == bridge_failed(old(self)@, e.kind),
    {
        self.phase = BridgePhase::Finished;
        self.link = None;
        Step::Fail(e)
    }

    fn added(&mut self) -> (r: Step<Link>)
        ensures
            (final(self)@, r@) == bridge_added(old(self)@),
    {
        if self.promisc_mode {
            self.phase = BridgePhase::FindingIndex;
            Step::Call(Request::LinkIndex(self.name.clone()))
        } else {
            self.phase = BridgePhase::Resolving;
            Step::Call(Request::LinkByName(self.name.clone()))
        }
    }

    /// Takes the reply to the operation that the machine waited for, and says
    /// what to do next.
    pub fn step(&mut self, reply: Reply) -> (r: Step<Link>)
        ensures
            (final(self)@, r@) == bridge_step(old(self)@, reply@),
    {
        match (self.phase, reply) {
            (BridgePhase::Adding, Reply::Done) => self.added(),
            (BridgePhase::Adding, Reply::Failed(e)) => {
                if crate::error::is_already_exists_error(&e) {
                    self.added()
                } else {
                    self.fail(e.context(ErrorKind::Provisioning, "link add failed: "))
                }
            },
            (BridgePhase::FindingIndex, Reply::Index(Some(i))) => {
                self.phase = BridgePhase::SettingPromisc;
                Step::Call(Request::SetPromiscOn(i))
            },
            (BridgePhase::FindingIndex, Reply::Index(None)) => self.fail(
                Error::new(ErrorKind::Provisioning, "bridge not found"),
            ),
            (BridgePhase::SettingPromisc, Reply::Done) => {
                self.phase = BridgePhase::Resolving;
                Step::Call(Request::LinkByName(self.name.clone()))
            },
            (BridgePhase::Resolving, Reply::Link(found)) => {
                match bridge_by_name(self.name.as_str(), found) {
                    Ok(None) => self.fail(Error::new(ErrorKind::Provisioning, "bridge not found")),
                    Ok(Some(link)) => {
                        self.phase = BridgePhase::AcceptingRa;
                        self.link = Some(link);
                        Step::Call(Request::Sysctl(accept_ra(self.name.as_str())))
                    },
                    Err(e) => self.fail(e),
                }
            },
            (BridgePhase::AcceptingRa, Reply::Done) => {
                let index = match &self.link {
                    Some(l) => Some(l.index),
                    None => None,
                };
                match index {
                    Some(index) => {
                        self.phase = BridgePhase::SettingUp;
                        Step::Call(Request::LinkSetUp(index))
                    },
                    None => self.fail(Error::new(ErrorKind::Consistency, "bridge lost")),
                }
            },
            (BridgePhase::SettingUp, Reply::Done) => {
                match self.link.take() {
                    Some(link) => {
                        self.phase = BridgePhase::Finished;
                        Step::Done(link)
                    },
                    None => self.fail(Error::new(ErrorKind::Consistency, "bridge lost")),
                }
            },
            (BridgePhase::Finished, _) => self.fail(
                Error::new(ErrorKind::Consistency, "the bridge machine has finished"),
            ),
            (_, Reply::Failed(e)) => self.fail(e),
            _ => self.fail(Error::new(ErrorKind::Consistency, "unexpected reply")),
        }
    }
}

/// The hardware address of a device as bytes: none where the kernel reports none.
pub open spec fn hardware_bytes(link: LinkView) -> Seq<u8> {
    match link.hardware_addr {
        Some(a) => a,
        None => Seq::<u8>::empty(),
    }
}

/// Starts making sure that the bridge of a configuration exists: its name
/// is `cni0` where none is configured, its packet size is left to the kernel
/// where none is configured, it receives every packet only where that is
/// asked for, and it filters by VLAN where a VLAN or a trunk is configured.
pub fn setup_bridge(net_conf: &NetConf) -> (r: (EnsureBridge, Request))
    ensures
        (r.0@, r.1@) == bridge_start(
            net_conf.bridge_name(),
            match net_conf.mtu {
                Some(mtu) => mtu,
                None => 0,
            },
            net_conf.promisc_mode == Some(true),
            net_conf.vlan_filtering(),
        ),
{
    let vlan_filtering = net_conf.vlan.is_some() || net_conf.vlan_trunk.is_some();
    let mtu = match net_conf.mtu {
        Some(mtu) => mtu,
        None => 0,
    };
    let promisc_mode = match net_conf.promisc_mode {
        Some(p) => p,
        None => false,
    };
    match &net_conf.br_name {
        Some(name) => ensure_bridge(name.as_str(), mtu, promisc_mode, vlan_filtering),
        None => ensure_bridge(DEFAULT_BRIDGE, mtu, promisc_mode, vlan_filtering),
    }
}

/// Reports the bridge: its name and its hardware address, the all-zero
/// address where the kernel reports none. A hardware address of another
/// length than six bytes is a `Config` error.
pub fn bridge_interface(br: &Link) -> (r: Result<Interface, Error>)
    ensures
        match MacAddr::spec_try_from(hardware_bytes(br@)) {
            Some(mac) => r is Ok && r->Ok_0@ == (InterfaceView {
                name: br.name@,
                mac: Some(mac),
                sandbox: None,
            }),
            None => r is Err && r->Err_0.kind == ErrorKind::Config,
        },
{
    let br_mac = match &br.hardware_addr {
        None => MacAddr::default(),
        Some(addr) => match MacAddr::try_from(addr.as_slice()) {
            Ok(mac) => mac,
            Err(e) => {
                return Err(e);
            },
        },
    };
    Ok(Interface { name: br.name.clone(), mac: Some(br_mac), sandbox: None })
}

/// The bridge machine run against the model host: each operation it asks for
/// is answered by the host, for at most `fuel` operations.
pub open spec fn bridge_run(m: EnsureBridgeView, pending: RequestView, h: HostModel, fuel: nat) -> (
    HostModel,
    StepView<LinkView>,
)
    decreases fuel,
{
    if fuel == 0 {
        (h, StepView::Call(pending))
    } else {
        let (h1, reply) = host_answer(h, pending);
        let (m1, step) = bridge_step(m, reply);
        match step {
            StepView::Call(next) => bridge_run(m1, next, h1, (fuel - 1) as nat),
            _ => (h1, step),
        }
    }
}

/// Making sure of a bridge is idempotent. On a host on which the name is
/// free or belongs to a bridge, the run succeeds and hands out the device
/// that the host then has under that name, a bridge; every other device is
/// as it was, and so is the bridge where it existed before. A second run
/// with the same attributes succeeds too, hands out the same device, and
/// leaves the host as the first run left it.
pub proof fn lemma_ensure_bridge_idempotent(
    h: HostModel,
    name: Seq<char>,
    mtu: u32,
    promisc_mode: bool,
    vlan_filtering: bool,
)
    requires
        h.wf(),
        h.links.dom().contains(name) ==> h.links[name].kind is Bridge,
    ensures
        ({
            let (m, first) = bridge_start(name, mtu, promisc_mode, vlan_filtering);
            let (h1, s1) = bridge_run(m, first, h, 6);
            let (h2, s2) = bridge_run(m, first, h1, 6);
            &&& s1 is Done
            &&& s1->Done_0.kind is Bridge
            &&& s1->Done_0.name == name
            &&& h1.wf()
            &&& h1.links.dom() == h.links.dom().insert(name)
            &&& h1.links[name] == s1->Done_0
            &&& forall|n: Seq<char>| n != name && h.links.dom().contains(n) ==> h1.links[n] == h.links[n]
            &&& h.links.dom().contains(name) ==> h1 == h
            &&& s2 == s1
            &&& h2 == h1
        }),
{
    reveal_with_fuel(bridge_run, 7);
    let (m, first) = bridge_start(name, mtu, promisc_mode, vlan_filtering);
    let (h1, s1) = bridge_run(m, first, h, 6);
    let (ha, reply) = host_answer(h, first);
    assert(ha.links.dom().contains(name));
    assert(ha.links[name].kind is Bridge);
    assert(ha.links[name].name == name);
    assert(h1 == ha);
    assert(h1.links.dom() =~= h.links.dom().insert(name));
    if h.links.dom().contains(name) {
        assert(h1 == h);
    }
    let (hb, reply2) = host_answer(h1, first);
    assert(hb == h1);
}

} // verus!
