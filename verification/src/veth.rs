//! The veth pair between host and container: created from inside the
//! container's namespace, with the host end put into the host's namespace
//! and brought up there, as a state machine over the operations of the host.

use vstd::prelude::*;
use crate::chain::{hex_text, lemma_hex_text_len, to_hex_string};
use crate::error::{Error, ErrorKind};
use crate::host::{
    Link, LinkKind, LinkKindView, LinkView, Netns, NetnsView, Reply, ReplyView, Request,
    RequestView, Step, StepView,
};
use crate::netns::{
    kind_of, switch_entered, switch_leaves, switch_left, switch_start, with_namespace,
    NamespaceSwitch, NamespaceSwitchView,
};

verus! {

/// How often the creation of the pair is tried.
pub const MAX_ATTEMPTS: u8 = 10;

/// What the name of a host end starts with where none is given.
pub const VETH_PREFIX: &'static str = "veth";

/// The name of a host end made from four random bytes: the prefix and the
/// bytes as eight hexadecimal digits.
pub open spec fn veth_name(entropy: Seq<u8>) -> Seq<char> {
    VETH_PREFIX@ + hex_text(entropy)
}

/// The name of a host end made from four random bytes.
pub fn random_veth_name(entropy: &[u8; 4]) -> (name: String)
    ensures
        name@ == veth_name(entropy@),
        name@.len() == 12,
{
    proof {
        reveal_strlit("veth");
        lemma_hex_text_len(entropy@);
    }
    let mut name = String::from_str(VETH_PREFIX);
    name.append(to_hex_string(entropy.as_slice()).as_str());
    name
}

/// The two ends of a pair as the kernel reports them.
#[derive(Debug)]
pub struct VethPair {
    pub host: Link,
    pub container: Link,
}

impl View for VethPair {
    type V = (LinkView, LinkView);

    open spec fn view(&self) -> (LinkView, LinkView) {
        (self.host@, self.container@)
    }
}

/// What the veth machine waits for.
#[derive(Clone, Copy, Debug, PartialEq, Eq, Structural)]
pub enum VethPhase {
    /// The current namespace, before an attempt.
    CheckingNs,
    /// Random bytes for the name of the host end.
    Naming,
    /// The creation of the pair.
    Adding,
    /// The current namespace, after the creation.
    Rechecking,
    /// The container end as the kernel reports it.
    Resolving,
    /// The removal of a pair whose container end could not be found.
    Deleting,
    /// The host's namespace being entered.
    EnteringHost,
    /// The host end as the kernel reports it, inside the host's namespace.
    FindingPeer,
    /// The host end being brought up, inside the host's namespace.
    RaisingPeer,
    /// The container's namespace being entered again.
    Leaving,
    /// Nothing: the machine has finished or failed.
    Finished,
}

/// The state machine that creates a veth pair.
#[derive(Debug)]
pub struct SetupVeth {
    pub container_veth_name: String,
    /// The name asked for the host end; empty where a random one is to be made.
    pub host_veth_name: String,
    pub host_ns: Netns,
    pub container_ns: Netns,
    pub phase: VethPhase,
    /// The number of the attempt under way, from 0.
    pub attempt: u8,
    /// The name of the host end in the attempt under way.
    pub peer_name: String,
    pub container: Option<Link>,
    pub host: Option<Link>,
    /// The switch into the host's namespace, once it has begun.
    pub switch: Option<NamespaceSwitch>,
}

/// What a `SetupVeth` holds, as mathematical values.
pub struct SetupVethView {
    pub container_veth_name: Seq<char>,
    pub host_veth_name: Seq<char>,
    pub host_ns: NetnsView,
    pub container_ns: NetnsView,
    pub phase: VethPhase,
    pub attempt: u8,
    pub peer_name: Seq<char>,
    pub container: Option<LinkView>,
    pub host: Option<LinkView>,
    pub switch: Option<NamespaceSwitchView>,
}

impl View for SetupVeth {
    type V = SetupVethView;

    open spec fn view(&self) -> SetupVethView {
        SetupVethView {
            container_veth_name: self.container_veth_name@,
            host_veth_name: self.host_veth_name@,
            host_ns: self.host_ns@,
            container_ns: self.container_ns@,
            phase: self.phase,
            attempt: self.attempt,
            peer_name: self.peer_name@,
            container: match self.container {
                Some(l) => Some(l@),
                None => None,
            },
            host: match self.host {
                Some(l) => Some(l@),
                None => None,
            },
            switch: match self.switch {
                Some(s) => Some(s@),
                None => None,
            },
        }
    }
}

/// The result of a step: the next state and what to do next.
pub type VethStep = (SetupVethView, StepView<(LinkView, LinkView)>);

/// The machine before its first step, and the operation it starts with: the
/// question which namespace is the current one.
pub open spec fn veth_start(
    container_veth_name: Seq<char>,
    host_veth_name: Seq<char>,
    host_ns: NetnsView,
    container_ns: NetnsView,
) -> (SetupVethView, RequestView) {
    (
        SetupVethView {
            container_veth_name: container_veth_name,
            host_veth_name: host_veth_name,
            host_ns: host_ns,
            container_ns: container_ns,
            phase: VethPhase::CheckingNs,
            attempt: 0,
            peer_name: host_veth_name,
            container: None,
            host: None,
            switch: None,
        },
        RequestView::CurrentNetns,
    )
}

/// The pair that one attempt asks for: the container end under its name, the
/// host end under the name of this attempt, placed into the host's namespace
/// by its file descriptor.
pub open spec fn pair_link(m: SetupVethView) -> LinkView {
    LinkView {
        index: 0,
        name: m.container_veth_name,
        mtu: 0,
        hardware_addr: None,
        kind: LinkKindView::Veth { peer_name: m.peer_name, peer_netns_fd: m.host_ns.fd },
    }
}

/// The machine after a failure of the given kind.
pub open spec fn veth_failed(m: SetupVethView, kind: ErrorKind) -> VethStep {
    (
        SetupVethView { phase: VethPhase::Finished, container: None, host: None, switch: None, ..m },
        StepView::Fail(kind),
    )
}

/// The machine moving on to a phase with the operation that the phase waits for.
pub open spec fn veth_goes(m: SetupVethView, phase: VethPhase, request: RequestView) -> VethStep {
    (SetupVethView { phase: phase, ..m }, StepView::Call(request))
}

/// What follows a failed attempt: the next attempt, or, after the last one,
/// a `Provisioning` error.
pub open spec fn veth_retry(m: SetupVethView) -> VethStep {
    if m.attempt + 1 < MAX_ATTEMPTS {
        (
            SetupVethView {
                phase: VethPhase::CheckingNs,
                attempt: (m.attempt + 1) as u8,
                container: None,
                ..m
            },
            StepView::Call(RequestView::CurrentNetns),
        )
    } else {
        veth_failed(m, ErrorKind::Provisioning)
    }
}

/// The creation of the pair under the given name of the host end.
pub open spec fn veth_adds(m: SetupVethView, peer_name: Seq<char>) -> VethStep {
    let named = SetupVethView { peer_name: peer_name, ..m };
    veth_goes(named, VethPhase::Adding, RequestView::LinkAdd(pair_link(named)))
}

/// What follows trouble inside the host's namespace: the container's
/// namespace is entered again, and the trouble is reported after that.
pub open spec fn veth_leaves(m: SetupVethView, pending: Option<ErrorKind>) -> VethStep {
    match m.switch {
        Some(s) => (
            SetupVethView {
                phase: VethPhase::Leaving,
                switch: Some(switch_leaves(s, pending).0),
                ..m
            },
            StepView::Call(switch_leaves(s, pending).1),
        ),
        None => veth_failed(m, ErrorKind::Consistency),
    }
}

/// One step of the veth machine: the state and the reply to the operation
/// it waited for give the next state and what to do next.
///
/// Every attempt starts in the container's namespace, or the run ends with
/// a `Consistency` error. The host end gets the name asked for, or a fresh
/// random name in every attempt. An attempt fails where the pair cannot be
/// created, or where its container end cannot be found afterwards, in which
/// case the pair is deleted again; after a failed attempt the next one
/// starts, and after the last one the run ends with a `Provisioning` error.
/// Once the pair exists, the host's namespace is entered, the host end is
/// looked up and brought up, and the container's namespace is entered again,
/// whatever happened in between. Not entering a namespace is a `Namespace`
/// error.
pub open spec fn veth_step(m: SetupVethView, reply: ReplyView) -> VethStep {
    match (m.phase, reply) {
        (VethPhase::CheckingNs, ReplyView::Netns(Some(ns))) => if ns.id != m.container_ns.id {
            veth_failed(m, ErrorKind::Consistency)
        } else if m.host_veth_name.len() == 0 {
            veth_goes(m, VethPhase::Naming, RequestView::Entropy)
        } else {
            veth_adds(m, m.host_veth_name)
        },
        (VethPhase::CheckingNs, _) => veth_failed(m, ErrorKind::Namespace),
        (VethPhase::Naming, ReplyView::Entropy(bytes)) => veth_adds(m, veth_name(bytes)),
        (VethPhase::Adding, ReplyView::Done) => veth_goes(
            m,
            VethPhase::Rechecking,
            RequestView::CurrentNetns,
        ),
        (VethPhase::Adding, ReplyView::Failed(_)) => veth_retry(m),
        (VethPhase::Rechecking, ReplyView::Netns(Some(ns))) => if ns.id != m.container_ns.id {
            veth_failed(m, ErrorKind::Consistency)
        } else {
            veth_goes(m, VethPhase::Resolving, RequestView::LinkByName(m.container_veth_name))
        },
        (VethPhase::Rechecking, _) => veth_failed(m, ErrorKind::Namespace),
        (VethPhase::Resolving, ReplyView::Link(Some(l))) => (
            SetupVethView {
                phase: VethPhase::EnteringHost,
                container: Some(l),
                switch: Some(switch_start(m.container_ns, m.host_ns).0),
                ..m
            },
            StepView::Call(switch_start(m.container_ns, m.host_ns).1),
        ),
        (VethPhase::Resolving, ReplyView::Link(None)) => veth_goes(
            m,
            VethPhase::Deleting,
            RequestView::LinkDel(m.container_veth_name),
        ),
        (VethPhase::Resolving, ReplyView::Failed(_)) => veth_goes(
            m,
            VethPhase::Deleting,
            RequestView::LinkDel(m.container_veth_name),
        ),
        (VethPhase::Deleting, ReplyView::Done) => veth_retry(m),
        (VethPhase::Deleting, ReplyView::Failed(_)) => veth_retry(m),
        (VethPhase::EnteringHost, _) => match m.switch {
            Some(s) => match switch_entered(s, reply).1 {
                None => veth_goes(
                    SetupVethView { switch: Some(switch_entered(s, reply).0), ..m },
                    VethPhase::FindingPeer,
                    RequestView::LinkByName(m.peer_name),
                ),
                Some(kind) => veth_failed(m, kind),
            },
            None => veth_failed(m, ErrorKind::Consistency),
        },
        (VethPhase::FindingPeer, ReplyView::Link(Some(l))) => (
            SetupVethView { phase: VethPhase::RaisingPeer, host: Some(l), ..m },
            StepView::Call(RequestView::LinkSetUp(l.index)),
        ),
        (VethPhase::FindingPeer, ReplyView::Link(None)) => veth_leaves(
            m,
            Some(ErrorKind::Provisioning),
        ),
        (VethPhase::FindingPeer, ReplyView::Failed(e)) => veth_leaves(m, Some(e.kind)),
        (VethPhase::FindingPeer, _) => veth_leaves(m, Some(ErrorKind::Consistency)),
        (VethPhase::RaisingPeer, ReplyView::Done) => veth_leaves(m, None),
        (VethPhase::RaisingPeer, ReplyView::Failed(e)) => veth_leaves(m, Some(e.kind)),
        (VethPhase::RaisingPeer, _) => veth_leaves(m, Some(ErrorKind::Consistency)),
        (VethPhase::Leaving, _) => match m.switch {
            Some(s) => match (switch_left(s, reply).1, m.host, m.container) {
                (Some(kind), _, _) => veth_failed(m, kind),
                (None, Some(host), Some(container)) => (
                    SetupVethView {
                        phase: VethPhase::Finished,
                        container: None,
                        host: None,
                        switch: None,
                        ..m
                    },
                    StepView::Done((host, container)),
                ),
                _ => veth_failed(m, ErrorKind::Consistency),
            },
            None => veth_failed(m, ErrorKind::Consistency),
        },
        (VethPhase::Finished, _) => veth_failed(m, ErrorKind::Consistency),
        (_, ReplyView::Failed(e)) => veth_failed(m, e.kind),
        _ => veth_failed(m, ErrorKind::Consistency),
    }
}

/// Starts the creation of a veth pair from inside the container's
/// namespace: the machine, and the operation it starts with.
///
/// The container end is named `container_veth_name`; the host end is named
/// `host_veth_name` or, where that is empty, gets a random name. The packet
/// size and the hardware address asked for are not applied.
pub fn setup_veth(
    container_veth_name: &str,
    host_veth_name: &str,
    mtu: u32,
    container_veth_mac: &str,
    host_ns: &Netns,
    container_ns: &Netns,
) -> (r: (SetupVeth, Request))
    ensures
        (r.0@, r.1@) == veth_start(container_veth_name@, host_veth_name@, host_ns@, container_ns@),
{
    (
        SetupVeth {
            container_veth_name: String::from_str(container_veth_name),
            host_veth_name: String::from_str(host_veth_name),
            host_ns: host_ns.duplicate(),
            container_ns: container_ns.duplicate(),
            phase: VethPhase::CheckingNs,
            attempt: 0,
            peer_name: String::from_str(host_veth_name),
            container: None,
            host: None,
            switch: None,
        },
        Request::CurrentNetns,
    )
}

impl SetupVeth {
    fn fail(&mut self, e: Error) -> (r: Step<VethPair>)
        ensures
            (final(self)@, r@) == veth_failed(old(self)@, e.kind),
    {
        self.phase = VethPhase::Finished;
        self.container = None;
        self.host = None;
        self.switch = None;
        Step::Fail(e)
    }

    /// Starts the next attempt, or gives up after the last one.
    fn make_veth(&mut self) -> (r: Step<VethPair>)
        ensures
            (final(self)@, r@) == veth_retry(old(self)@),
    {
        if self.attempt < MAX_ATTEMPTS - 1 {
            self.phase = VethPhase::CheckingNs;
            self.attempt = self.attempt + 1;
            self.container = None;
            Step::Call(Request::CurrentNetns)
        } else {
            self.fail(Error::new(ErrorKind::Provisioning, "failed to create veth pair"))
        }
    }

    /// Asks for the pair under the given name of the host end.
    fn make_veth_pair(&mut self, peer_name: String) -> (r: Step<VethPair>)
        ensures
            (final(self)@, r@) == veth_adds(old(self)@, peer_name@),
    {
        let link = Link {
            index: 0,
            name: self.container_veth_name.clone(),
            mtu: 0,
            hardware_addr: None,
            kind: LinkKind::Veth { peer_name: peer_name.clone(), peer_netns_fd: self.host_ns.fd },
        };
        self.peer_name = peer_name;
        self.phase = VethPhase::Adding;
        Step::Call(Request::LinkAdd(link))
    }

    fn leave(&mut self, pending: Option<Error>) -> (r: Step<VethPair>)
        ensures
            (final(self)@, r@) == veth_leaves(old(self)@, kind_of(pending)),
    {
        match self.switch.take() {
            Some(mut switch) => {
                let request = switch.leave(pending);
                self.phase = VethPhase::Leaving;
                self.switch = Some(switch);
                Step::Call(request)
            },
            None => self.fail(Error::new(ErrorKind::Consistency, "netns lost")),
        }
    }

    /// Takes the reply to entering the host's namespace.
    fn entered(&mut self, reply: Reply) -> (r: Step<VethPair>)
        requires
            old(self).phase == VethPhase::EnteringHost,
        ensures
            (final(self)@, r@) == veth_step(old(self)@, reply@),
    {
        match self.switch.take() {
            Some(mut switch) => match switch.entered(reply) {
                Ok(()) => {
                    self.phase = VethPhase::FindingPeer;
                    self.switch = Some(switch);
                    Step::Call(Request::LinkByName(self.peer_name.clone()))
                },
                Err(e) => self.fail(e),
            },
            None => self.fail(Error::new(ErrorKind::Consistency, "netns lost")),
        }
    }

    /// Takes the reply to entering the container's namespace again.
    fn left(&mut self, reply: Reply) -> (r: Step<VethPair>)
        requires
            old(self).phase == VethPhase::Leaving,
        ensures
            (final(self)@, r@) == veth_step(old(self)@, reply@),
    {
        match self.switch.take() {
            Some(mut switch) => {
                match (switch.left(reply), self.host.take(), self.container.take()) {
                    (Err(e), _, _) => self.fail(e),
                    (Ok(()), Some(host), Some(container)) => {
                        self.phase = VethPhase::Finished;
                        Step::Done(VethPair { host, container })
                    },
                    _ => self.fail(Error::new(ErrorKind::Consistency, "veth lost")),
                }
            },
            None => self.fail(Error::new(ErrorKind::Consistency, "netns lost")),
        }
    }

    fn delete(&mut self) -> (r: Step<VethPair>)
        ensures
            (final(self)@, r@) == veth_goes(
                old(self)@,
                VethPhase::Deleting,
                RequestView::LinkDel(old(self)@.container_veth_name),
            ),
    {
        self.phase = VethPhase::Deleting;
        Step::Call(Request::LinkDel(self.container_veth_name.clone()))
    }

    /// Takes the reply to the operation that the machine waited for, and says
    /// what to do next.
    pub fn step(&mut self, reply: Reply) -> (r: Step<VethPair>)
        ensures
            (final(self)@, r@) == veth_step(old(self)@, reply@),
    {
        match (self.phase, reply) {
            (VethPhase::CheckingNs, Reply::Netns(Some(ns))) => {
                if !ns.same(&self.container_ns) {
                    self.fail(Error::new(ErrorKind::Consistency, "netns not match"))
                } else if self.host_veth_name.as_str().unicode_len() == 0 {
                    self.phase = VethPhase::Naming;
                    Step::Call(Request::Entropy)
                } else {
                    let name = self.host_veth_name.clone();
                    self.make_veth_pair(name)
                }
            },
            (VethPhase::CheckingNs, _) => self.fail(
                Error::new(ErrorKind::Namespace, "current netns not found"),
            ),
            (VethPhase::Naming, Reply::Entropy(bytes)) => {
                let name = random_veth_name(&bytes);
                self.make_veth_pair(name)
            },
            (VethPhase::Adding, Reply::Done) => {
                self.phase = VethPhase::Rechecking;
                Step::Call(Request::CurrentNetns)
            },
            (VethPhase::Adding, Reply::Failed(_)) => self.make_veth(),
            (VethPhase::Rechecking, Reply::Netns(Some(ns))) => {
                if !ns.same(&self.container_ns) {
                    self.fail(Error::new(ErrorKind::Consistency, "netns not match"))
                } else {
                    self.phase = VethPhase::Resolving;
                    Step::Call(Request::LinkByName(self.container_veth_name.clone()))
                }
            },
            (VethPhase::Rechecking, _) => self.fail(
                Error::new(ErrorKind::Namespace, "current netns not found"),
            ),
            (VethPhase::Resolving, Reply::Link(Some(l))) => {
                let (switch, request) = with_namespace(&self.container_ns, &self.host_ns);
                self.phase = VethPhase::EnteringHost;
                self.container = Some(l);
                self.switch = Some(switch);
                Step::Call(request)
            },
            (VethPhase::Resolving, Reply::Link(None)) => self.delete(),
            (VethPhase::Resolving, Reply::Failed(_)) => self.delete(),
            (VethPhase::Deleting, Reply::Done) => self.make_veth(),
            (VethPhase::Deleting, Reply::Failed(_)) => self.make_veth(),
            (VethPhase::EnteringHost, reply) => self.entered(reply),
            (VethPhase::FindingPeer, Reply::Link(Some(l))) => {
                let index = l.index;
                self.phase = VethPhase::RaisingPeer;
                self.host = Some(l);
                Step::Call(Request::LinkSetUp(index))
            },
            (VethPhase::FindingPeer, Reply::Link(None)) => self.leave(
                Some(Error::new(ErrorKind::Provisioning, "veth not found")),
            ),
            (VethPhase::FindingPeer, Reply::Failed(e)) => self.leave(Some(e)),
            (VethPhase::FindingPeer, _) => self.leave(
                Some(Error::new(ErrorKind::Consistency, "unexpected reply")),
            ),
            (VethPhase::RaisingPeer, Reply::Done) => self.leave(None),
            (VethPhase::RaisingPeer, Reply::Failed(e)) => self.leave(Some(e)),
            (VethPhase::RaisingPeer, _) => self.leave(
                Some(Error::new(ErrorKind::Consistency, "unexpected reply")),
            ),
            (VethPhase::Leaving, reply) => self.left(reply),
            (VethPhase::Finished, _) => self.fail(
                Error::new(ErrorKind::Consistency, "the veth machine has finished"),
            ),
            (_, Reply::Failed(e)) => self.fail(e),
            _ => self.fail(Error::new(ErrorKind::Consistency, "unexpected reply")),
        }
    }
}

/// Whether a machine in this phase is inside the host's namespace.
pub open spec fn inside_host(phase: VethPhase) -> bool {
    phase == VethPhase::FindingPeer || phase == VethPhase::RaisingPeer
}

/// The container's namespace is entered again on every path. A machine
/// inside the host's namespace neither finishes nor fails in its next step,
/// whatever the reply: it stays inside, or asks for the container's
/// namespace; and only entering the host's namespace brings a machine inside.
pub proof fn lemma_namespace_restored(m: SetupVethView, reply: ReplyView)
    requires
        m.switch.is_some(),
        m.switch.unwrap().origin == m.container_ns,
    ensures
        inside_host(m.phase) ==> veth_step(m, reply).1 is Call && (inside_host(
            veth_step(m, reply).0.phase,
        ) || (veth_step(m, reply).0.phase == VethPhase::Leaving && veth_step(m, reply).1
            == StepView::<(LinkView, LinkView)>::Call(RequestView::SetNetns(m.container_ns)))),
        !inside_host(m.phase) && inside_host(veth_step(m, reply).0.phase) ==> m.phase
            == VethPhase::EnteringHost && reply is Done,
{
}

/// The switch into the host's namespace starts from the container's
/// namespace, and stays so for as long as it lasts.
pub proof fn lemma_switch_from_container(m: SetupVethView, reply: ReplyView)
    requires
        m.switch.is_some() ==> m.switch.unwrap().origin == m.container_ns,
    ensures
        veth_step(m, reply).0.switch.is_some() ==> veth_step(m, reply).0.switch.unwrap().origin
            == veth_step(m, reply).0.container_ns,
        veth_step(m, reply).0.container_ns == m.container_ns,
{
}

/// A failed attempt is followed by another one rather than by a failure,
/// as long as fewer than ten were made; the next attempt starts like the
/// first one, and where no name is asked for the host end, it asks for fresh
/// random bytes and names the host end after them.
pub proof fn lemma_collision_is_retried(
    m: SetupVethView,
    failure: ReplyView,
    ns: NetnsView,
    bytes: Seq<u8>,
)
    requires
        m.phase == VethPhase::Adding,
        failure is Failed,
        m.attempt + 1 < MAX_ATTEMPTS,
        m.host_veth_name.len() == 0,
        ns.id == m.container_ns.id,
    ensures
        ({
            let (m1, s1) = veth_step(m, failure);
            let (m2, s2) = veth_step(m1, ReplyView::Netns(Some(ns)));
            let (m3, s3) = veth_step(m2, ReplyView::Entropy(bytes));
            &&& s1 == StepView::<(LinkView, LinkView)>::Call(RequestView::CurrentNetns)
            &&& m1.attempt == m.attempt + 1
            &&& s2 == StepView::<(LinkView, LinkView)>::Call(RequestView::Entropy)
            &&& m3.peer_name == veth_name(bytes)
            &&& s3 == StepView::<(LinkView, LinkView)>::Call(RequestView::LinkAdd(pair_link(m3)))
        }),
{
}

/// The pair is tried at most ten times: a failed attempt is followed by
/// another one only while fewer than ten have been made, and each new
/// attempt counts one up.
pub proof fn lemma_attempts_bounded(m: SetupVethView, reply: ReplyView)
    requires
        m.attempt < MAX_ATTEMPTS,
    ensures
        veth_step(m, reply).0.attempt < MAX_ATTEMPTS,
        veth_step(m, reply).0.attempt == m.attempt || veth_step(m, reply).0.attempt == m.attempt
            + 1,
        m.attempt == MAX_ATTEMPTS - 1 && m.phase == VethPhase::Adding && reply is Failed
            ==> veth_step(m, reply).1 == StepView::<(LinkView, LinkView)>::Fail(
            ErrorKind::Provisioning,
        ),
{
}

} // verus!
