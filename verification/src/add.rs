//! The ADD command of the bridge plugin: the order in which bridge, veth
//! pair, addresses, gateways, forwarding, masquerading and the container's
//! interface are set up, as a state machine over the operations of the host.

use vstd::prelude::*;
use crate::addr::{Family, IpNetwork};
use crate::attach::{attach_start, attach_step, AttachVeth, AttachVethView};
use crate::bridge::{
    bridge_interface, bridge_start, bridge_step, hardware_bytes, setup_bridge, EnsureBridge,
    EnsureBridgeView,
};
use crate::chain::{chain_name, format_chain_name};
use crate::config::{flag, NetConf};
use crate::container::{config_interface, interface_plan, requests_view};
use crate::error::{Error, ErrorKind};
use crate::gateway::{
    added_routes, calc_gateway, families, gateway_infos, infos_view, tagged_all, underivable,
    GatewayInfo, GatewayInfoView,
};
use crate::host::{
    Link, LinkView, Netns, NetnsView, Reply, ReplyView, Request, RequestView, Step, StepView,
};
use crate::mac::MacAddr;
use crate::netns::{
    kind_of, switch_entered, switch_leaves, switch_left, switch_start, with_namespace,
    NamespaceSwitch, NamespaceSwitchView,
};
use crate::masq::{masq_plan, setup_ip_masq, FilterAction, FilterActionView, NAT_TABLE};
use crate::reconcile::{ensure_addr, reconcile, AddrAction};
use crate::skel::{CmdArgs, CmdArgsView};
use crate::sysctl::enable_ip_forward;
use crate::types::{items, ExecResult, ExecResultView, Interface, InterfaceView, Ip, Route};

verus! {

/// The version that the result is reported in.
pub const RESULT_VERSION: &'static str = "1.0.0";

/// One piece of work that follows the assignment of addresses.
#[derive(Clone, Copy, Debug, PartialEq, Eq, Structural)]
pub enum Task {
    /// Put a gateway address on the bridge.
    Reconcile(IpNetwork),
    /// Turn on forwarding for a family.
    Forward(Family),
    /// Masquerade what leaves from an assigned address.
    Masquerade(IpNetwork),
}

/// The work for one family: its gateway addresses, and forwarding if it has any.
pub open spec fn info_tasks(info: GatewayInfoView) -> Seq<Task> {
    info.gws.map_values(|g: IpNetwork| Task::Reconcile(g)) + (if info.gws.len() > 0 {
        seq![Task::Forward(info.family)]
    } else {
        Seq::<Task>::empty()
    })
}

/// The work for each family, in the order of the families.
pub open spec fn gateway_tasks(infos: Seq<GatewayInfoView>) -> Seq<Task>
    decreases infos.len(),
{
    if infos.len() == 0 {
        Seq::<Task>::empty()
    } else {
        gateway_tasks(infos.drop_last()) + info_tasks(infos.last())
    }
}

/// Masquerading for every assigned address, in the order of the assignments.
pub open spec fn masq_tasks(ips: Seq<Ip>) -> Seq<Task> {
    ips.map_values(|ip: Ip| Task::Masquerade(ip.address))
}

/// The work that follows the assignment of addresses: where the bridge is a
/// gateway, the gateway addresses of each family and forwarding for each
/// family that has one; then, where masquerading is asked for, masquerading
/// for every assigned address, whether or not it has a gateway.
pub open spec fn add_tasks(infos: Seq<GatewayInfoView>, ips: Seq<Ip>, is_gw: bool, ip_masq: bool) -> Seq<
    Task,
> {
    (if is_gw {
        gateway_tasks(infos)
    } else {
        Seq::<Task>::empty()
    }) + (if ip_masq {
        masq_tasks(ips)
    } else {
        Seq::<Task>::empty()
    })
}

/// The work that follows the assignment of addresses.
pub fn plan_tasks(infos: &Vec<GatewayInfo>, ips: &Vec<Ip>, is_gw: bool, ip_masq: bool) -> (tasks: Vec<
    Task,
>)
    ensures
        tasks@ == add_tasks(infos_view(infos@), ips@, is_gw, ip_masq),
{
    let mut tasks: Vec<Task> = Vec::new();
    if is_gw {
        let mut i: usize = 0;
        assert(infos_view(infos@).take(0) =~= Seq::<GatewayInfoView>::empty());
        while i < infos.len()
            invariant
                i <= infos.len(),
                tasks@ == gateway_tasks(infos_view(infos@).take(i as int)),
            decreases infos.len() - i,
        {
            let info = &infos[i];
            proof {
                let all = infos_view(infos@);
                assert(all.take(i + 1).drop_last() =~= all.take(i as int));
                assert(all.take(i + 1).last() == info@);
            }
            let ghost before = tasks@;
            let mut j: usize = 0;
            while j < info.gws.len()
                invariant
                    j <= info.gws.len(),
                    tasks@ == before + info.gws@.take(j as int).map_values(
                        |g: IpNetwork| Task::Reconcile(g),
                    ),
                decreases info.gws.len() - j,
            {
                tasks.push(Task::Reconcile(info.gws[j]));
                assert(info.gws@.take(j + 1).map_values(|g: IpNetwork| Task::Reconcile(g))
                    =~= info.gws@.take(j as int).map_values(|g: IpNetwork| Task::Reconcile(g)).push(
                    Task::Reconcile(info.gws@[j as int]),
                ));
                j = j + 1;
            }
            assert(info.gws@.take(j as int) =~= info.gws@);
            if info.gws.len() > 0 {
                tasks.push(Task::Forward(info.family));
            }
            assert(tasks@ =~= before + info_tasks(info@));
            i = i + 1;
        }
        assert(infos_view(infos@).take(i as int) =~= infos_view(infos@));
    }
    if ip_masq {
        let ghost before = tasks@;
        let mut k: usize = 0;
        while k < ips.len()
            invariant
                k <= ips.len(),
                tasks@ == before + masq_tasks(ips@.take(k as int)),
            decreases ips.len() - k,
        {
            tasks.push(Task::Masquerade(ips[k].address));
            assert(masq_tasks(ips@.take(k + 1)) =~= masq_tasks(ips@.take(k as int)).push(
                Task::Masquerade(ips@[k as int].address),
            ));
            k = k + 1;
        }
        assert(ips@.take(k as int) =~= ips@);
    }
    tasks
}

/// What the ADD machine waits for.
#[derive(Clone, Copy, Debug, PartialEq, Eq, Structural)]
pub enum AddPhase {
    /// The bridge machine.
    Bridge,
    /// The container's namespace being opened.
    OpeningNetns,
    /// The namespace that the plugin runs in.
    CurrentNs,
    /// The attachment machine.
    Attaching,
    /// The address-management plugin.
    Delegating,
    /// The addresses of the bridge, for a gateway address.
    Listing,
    /// The chains of the packet filter, for an assigned address.
    ListingChains,
    /// One operation of the piece of work under way.
    Running,
    /// The container's namespace being entered.
    Entering,
    /// The container's interface as the kernel reports it.
    Finding,
    /// One operation on the container's interface, inside its namespace.
    Configuring,
    /// The plugin's own namespace being entered again.
    Leaving,
    /// Nothing: the machine has finished or failed.
    Finished,
}

/// The state machine of the ADD command.
#[derive(Debug)]
pub struct CmdAdd {
    /// The configuration, with a default gateway counted as a gateway.
    pub conf: NetConf,
    pub args: CmdArgs,
    pub phase: AddPhase,
    pub bridge: EnsureBridge,
    pub br_link: Option<Link>,
    pub br_interface: Option<Interface>,
    pub netns: Option<Netns>,
    pub host_ns: Option<Netns>,
    pub attach: Option<AttachVeth>,
    pub result: Option<ExecResult>,
    /// The work that follows the assignment of addresses.
    pub tasks: Vec<Task>,
    /// The position of the piece of work under way.
    pub task: usize,
    /// The operations of the piece of work under way that are still to be
    /// asked for, in order.
    pub queue: Vec<Request>,
    /// The switch into the container's namespace for the configuration of
    /// the container's interface, once it has begun.
    pub switch: Option<NamespaceSwitch>,
}

/// What a `CmdAdd` holds, as mathematical values.
pub struct CmdAddView {
    pub conf: NetConf,
    pub args: CmdArgsView,
    pub phase: AddPhase,
    pub bridge: EnsureBridgeView,
    pub br_link: Option<LinkView>,
    pub br_interface: Option<InterfaceView>,
    pub netns: Option<NetnsView>,
    pub host_ns: Option<NetnsView>,
    pub attach: Option<AttachVethView>,
    pub result: Option<ExecResultView>,
    pub tasks: Seq<Task>,
    pub task: usize,
    pub queue: Seq<RequestView>,
    pub switch: Option<NamespaceSwitchView>,
}

impl View for CmdAdd {
    type V = CmdAddView;

    open spec fn view(&self) -> CmdAddView {
        CmdAddView {
            conf: self.conf,
            args: self.args@,
            phase: self.phase,
            bridge: self.bridge@,
            br_link: match self.br_link {
                Some(l) => Some(l@),
                None => None,
            },
            br_interface: match self.br_interface {
                Some(i) => Some(i@),
                None => None,
            },
            netns: match self.netns {
                Some(n) => Some(n@),
                None => None,
            },
            host_ns: match self.host_ns {
                Some(n) => Some(n@),
                None => None,
            },
            attach: match self.attach {
                Some(a) => Some(a@),
                None => None,
            },
            result: match self.result {
                Some(r) => Some(r@),
                None => None,
            },
            tasks: self.tasks@,
            task: self.task,
            queue: requests_view(self.queue@),
            switch: match self.switch {
                Some(s) => Some(s@),
                None => None,
            },
        }
    }
}

/// The result of a step: the next state and what to do next.
pub type AddStep = (CmdAddView, StepView<ExecResultView>);

/// A configuration with a default gateway counted as a gateway.
pub open spec fn normalized(conf: NetConf) -> NetConf {
    NetConf {
        is_gw: if flag(conf.is_default_gw) {
            Some(true)
        } else {
            conf.is_gw
        },
        ..conf
    }
}

/// The packet size of the bridge: left to the kernel where none is configured.
pub open spec fn bridge_mtu(conf: NetConf) -> u32 {
    match conf.mtu {
        Some(mtu) => mtu,
        None => 0,
    }
}

/// The machine before its first step, and the operation it starts with: the
/// creation of the bridge of the configuration.
pub open spec fn add_start(args: CmdArgsView, conf: NetConf) -> (CmdAddView, RequestView) {
    let start = bridge_start(
        conf.bridge_name(),
        bridge_mtu(conf),
        conf.promisc_mode == Some(true),
        conf.vlan_filtering(),
    );
    (
        CmdAddView {
            conf: normalized(conf),
            args: args,
            phase: AddPhase::Bridge,
            bridge: start.0,
            br_link: None,
            br_interface: None,
            netns: None,
            host_ns: None,
            attach: None,
            result: None,
            tasks: Seq::<Task>::empty(),
            task: 0,
            queue: Seq::<RequestView>::empty(),
            switch: None,
        },
        start.1,
    )
}

/// The machine after a failure of the given kind.
pub open spec fn add_failed(m: CmdAddView, kind: ErrorKind) -> AddStep {
    (
        CmdAddView { phase: AddPhase::Finished, result: None, switch: None, ..m },
        StepView::Fail(kind),
    )
}

/// The machine moving on to a phase with the operation that the phase waits for.
pub open spec fn add_goes(m: CmdAddView, phase: AddPhase, request: RequestView) -> AddStep {
    (CmdAddView { phase: phase, ..m }, StepView::Call(request))
}

/// The request that turns on forwarding for a family.
pub open spec fn forward_request(f: Family) -> RequestView {
    if f == Family::V4 {
        RequestView::Sysctl("net/ipv4/ip_forward"@, "1"@)
    } else {
        RequestView::Sysctl("net/ipv6/conf/all/forwarding"@, "1"@)
    }
}

/// The start of piece of work `i`: a gateway address starts with the list
/// of the bridge's addresses of its family, forwarding is one operation,
/// masquerading starts with the list of the chains of the packet filter. Past
/// the last piece of work, the container's namespace is entered to configure
/// the container's interface.
pub open spec fn add_begins(m: CmdAddView, i: int) -> AddStep {
    let at = CmdAddView { task: i as usize, queue: Seq::<RequestView>::empty(), ..m };
    if i >= m.tasks.len() {
        match (m.host_ns, m.netns) {
            (Some(own), Some(ns)) => add_goes(
                CmdAddView { switch: Some(switch_start(own, ns).0), ..at },
                AddPhase::Entering,
                switch_start(own, ns).1,
            ),
            _ => add_failed(at, ErrorKind::Consistency),
        }
    } else {
        match (m.tasks[i], m.br_link) {
            (Task::Reconcile(gw), Some(br)) => add_goes(
                at,
                AddPhase::Listing,
                RequestView::AddrList { link: br.index, family: gw.family() },
            ),
            (Task::Reconcile(_), None) => add_failed(at, ErrorKind::Consistency),
            (Task::Forward(f), _) => if f == Family::Unspec {
                add_failed(at, ErrorKind::Config)
            } else {
                add_goes(at, AddPhase::Running, forward_request(f))
            },
            (Task::Masquerade(ip), _) => add_goes(
                at,
                AddPhase::ListingChains,
                RequestView::ListChains { ipv6: ip.family() == Family::V6, table: NAT_TABLE@ },
            ),
        }
    }
}

/// The operations of a piece of work being run from the first one; a piece
/// of work without operations is followed by the next one at once.
pub open spec fn add_runs(m: CmdAddView, queue: Seq<RequestView>) -> AddStep {
    if queue.len() == 0 {
        add_begins(m, m.task + 1)
    } else {
        (
            CmdAddView { phase: AddPhase::Running, queue: queue.drop_first(), ..m },
            StepView::Call(queue[0]),
        )
    }
}

/// The changes of the bridge's addresses as operations on the bridge.
pub open spec fn addr_requests(link: u32, actions: Seq<AddrAction>) -> Seq<RequestView> {
    actions.map_values(
        |a: AddrAction|
            match a {
                AddrAction::Delete(x) => RequestView::AddrDel { link: link, addr: x },
                AddrAction::Add(x) => RequestView::AddrAdd { link: link, addr: x },
            },
    )
}

/// The changes of the packet filter as operations.
pub open spec fn filter_requests(actions: Seq<FilterActionView>) -> Seq<RequestView> {
    actions.map_values(|a: FilterActionView| RequestView::Filter(a))
}

/// The result as it stands once the pair exists: the version, and the
/// bridge, the host end and the container end, in this order.
pub open spec fn attached_result(
    br: InterfaceView,
    host: InterfaceView,
    container: InterfaceView,
) -> ExecResultView {
    ExecResultView {
        cni_version: Some(RESULT_VERSION@),
        interfaces: Some(seq![br, host, container]),
        ips: None,
        routes: None,
        dns: None,
    }
}

/// The result with what the address-management plugin assigned, and with
/// the gateways and default routes derived from it.
pub open spec fn derived_result(base: ExecResultView, ipam: ExecResult, conf: NetConf) -> ExecResultView {
    let ips = tagged_all(items(ipam.ips), flag(conf.is_gw));
    let added = added_routes(ips, items(ipam.routes), flag(conf.is_default_gw), families(ips));
    ExecResultView {
        ips: Some(ips),
        routes: if added.len() == 0 {
            ipam@.routes
        } else {
            Some(items(ipam.routes) + added)
        },
        dns: ipam.dns,
        ..base
    }
}

/// The work that follows from what the address-management plugin assigned.
pub open spec fn derived_tasks(ipam: ExecResult, conf: NetConf) -> Seq<Task> {
    let ips = tagged_all(items(ipam.ips), flag(conf.is_gw));
    add_tasks(
        gateway_infos(
            ips,
            items(ipam.routes),
            flag(conf.is_gw),
            flag(conf.is_default_gw),
            families(ips),
        ),
        ips,
        flag(conf.is_gw),
        flag(conf.ip_masq),
    )
}

/// What follows trouble inside the container's namespace, or the end of the
/// work there: the plugin's own namespace is entered again, and the outcome
/// is reported after that.
pub open spec fn add_leaves(m: CmdAddView, pending: Option<ErrorKind>) -> AddStep {
    match m.switch {
        Some(s) => (
            CmdAddView { phase: AddPhase::Leaving, switch: Some(switch_leaves(s, pending).0), ..m },
            StepView::Call(switch_leaves(s, pending).1),
        ),
        None => add_failed(m, ErrorKind::Consistency),
    }
}

/// What follows an operation of a piece of work that was done: the next
/// operation of the piece, or the next piece.
pub open spec fn add_advances(m: CmdAddView) -> AddStep {
    if m.queue.len() > 0 {
        (CmdAddView { queue: m.queue.drop_first(), ..m }, StepView::Call(m.queue[0]))
    } else if m.task < m.tasks.len() {
        add_begins(m, m.task + 1)
    } else {
        add_failed(m, ErrorKind::Consistency)
    }
}

/// One step of the ADD machine: the state and the reply to the operation it
/// waited for give the next state and what to do next.
///
/// The bridge is made sure of first, then the container's namespace is
/// opened and the veth pair is made and attached. The address-management
/// plugin is asked next; from what it assigns, gateways and default routes
/// are derived. Then, in this order: each gateway address is put on the
/// bridge and forwarding is turned on for its family; masquerading is set up
/// for every assigned address; and the container's interface is configured
/// from inside its namespace, which is left again whatever happens there.
/// The first failure ends the run, and nothing that was set up is taken back.
pub open spec fn add_step(m: CmdAddView, reply: ReplyView) -> AddStep {
    match (m.phase, reply) {
        (AddPhase::Bridge, _) => {
            let (bridge, step) = bridge_step(m.bridge, reply);
            let at = CmdAddView { bridge: bridge, ..m };
            match step {
                StepView::Call(request) => (at, StepView::Call(request)),
                StepView::Fail(kind) => add_failed(at, kind),
                StepView::Done(link) => match MacAddr::spec_try_from(hardware_bytes(link)) {
                    None => add_failed(at, ErrorKind::Config),
                    Some(mac) => add_goes(
                        CmdAddView {
                            br_link: Some(link),
                            br_interface: Some(
                                InterfaceView { name: link.name, mac: Some(mac), sandbox: None },
                            ),
                            ..at
                        },
                        AddPhase::OpeningNetns,
                        RequestView::NetnsFromPath(m.args.netns),
                    ),
                },
            }
        },
        (AddPhase::OpeningNetns, ReplyView::Netns(Some(ns))) => add_goes(
            CmdAddView { netns: Some(ns), ..m },
            AddPhase::CurrentNs,
            RequestView::CurrentNetns,
        ),
        (AddPhase::OpeningNetns, ReplyView::Failed(e)) => add_failed(m, e.kind),
        (AddPhase::OpeningNetns, _) => add_failed(m, ErrorKind::Namespace),
        (AddPhase::CurrentNs, ReplyView::Netns(Some(ns))) => match (m.netns, m.br_link) {
            (Some(netns), Some(br)) => {
                let start = attach_start(ns, netns, br.index, m.args.if_name);
                (
                    CmdAddView {
                        phase: AddPhase::Attaching,
                        host_ns: Some(ns),
                        attach: Some(start.0),
                        ..m
                    },
                    StepView::Call(start.1),
                )
            },
            _ => add_failed(m, ErrorKind::Consistency),
        },
        (AddPhase::CurrentNs, ReplyView::Failed(e)) => add_failed(m, e.kind),
        (AddPhase::CurrentNs, _) => add_failed(m, ErrorKind::Namespace),
        (AddPhase::Attaching, _) => match (m.attach, m.br_interface) {
            (Some(attach), Some(br)) => {
                let (attach, step) = attach_step(attach, reply);
                let at = CmdAddView { attach: Some(attach), ..m };
                match step {
                    StepView::Call(request) => (at, StepView::Call(request)),
                    StepView::Fail(kind) => add_failed(at, kind),
                    StepView::Done((host, container)) => add_goes(
                        CmdAddView {
                            result: Some(attached_result(br, host, container)),
                            br_interface: None,
                            ..at
                        },
                        AddPhase::Delegating,
                        RequestView::Delegate { plugin: m.conf.ipam.plugin@ },
                    ),
                }
            },
            _ => add_failed(m, ErrorKind::Consistency),
        },
        (AddPhase::Delegating, ReplyView::Delegated(ipam)) => match m.result {
            None => add_failed(m, ErrorKind::Consistency),
            Some(base) => if ipam.ips.is_none() {
                add_failed(m, ErrorKind::Delegate)
            } else if underivable(items(ipam.ips), flag(m.conf.is_gw)) {
                add_failed(m, ErrorKind::Config)
            } else {
                add_begins(
                    CmdAddView {
                        result: Some(derived_result(base, ipam, m.conf)),
                        tasks: derived_tasks(ipam, m.conf),
                        ..m
                    },
                    0,
                )
            },
        },
        (AddPhase::Delegating, ReplyView::Failed(_)) => add_failed(m, ErrorKind::Delegate),
        (AddPhase::Listing, ReplyView::Addrs(addrs)) => if m.task < m.tasks.len() {
            match (m.tasks[m.task as int], m.br_link) {
                (Task::Reconcile(gw), Some(br)) => match reconcile(
                    addrs,
                    gw,
                    flag(m.conf.force_address),
                ) {
                    Some(actions) => add_runs(m, addr_requests(br.index, actions)),
                    None => add_failed(m, ErrorKind::AddressConflict),
                },
                _ => add_failed(m, ErrorKind::Consistency),
            }
        } else {
            add_failed(m, ErrorKind::Consistency)
        },
        (AddPhase::ListingChains, ReplyView::Chains(chains)) => if m.task < m.tasks.len() {
            match m.tasks[m.task as int] {
                Task::Masquerade(ip) => add_runs(
                    m,
                    filter_requests(
                        masq_plan(ip, chain_name(m.conf.name@, m.args.container_id), chains),
                    ),
                ),
                _ => add_failed(m, ErrorKind::Consistency),
            }
        } else {
            add_failed(m, ErrorKind::Consistency)
        },
        (AddPhase::Running, ReplyView::Done) => add_advances(m),
        (AddPhase::Entering, _) => match m.switch {
            Some(s) => match switch_entered(s, reply).1 {
                None => add_goes(
                    CmdAddView { switch: Some(switch_entered(s, reply).0), ..m },
                    AddPhase::Finding,
                    RequestView::LinkByName(m.args.if_name),
                ),
                Some(kind) => add_failed(m, kind),
            },
            None => add_failed(m, ErrorKind::Consistency),
        },
        (AddPhase::Finding, ReplyView::Link(found)) => match (found, m.result) {
            (None, _) => add_leaves(m, Some(ErrorKind::Provisioning)),
            (Some(_), None) => add_leaves(m, Some(ErrorKind::Consistency)),
            (Some(l), Some(result)) => match result.ips {
                None => add_leaves(m, Some(ErrorKind::Delegate)),
                Some(ips) => {
                    let plan = interface_plan(
                        l.index,
                        ips,
                        match result.routes {
                            Some(r) => r,
                            None => Seq::<Route>::empty(),
                        },
                    );
                    (
                        CmdAddView { phase: AddPhase::Configuring, queue: plan.drop_first(), ..m },
                        StepView::Call(plan[0]),
                    )
                },
            },
        },
        (AddPhase::Finding, ReplyView::Failed(e)) => add_leaves(m, Some(e.kind)),
        (AddPhase::Finding, _) => add_leaves(m, Some(ErrorKind::Consistency)),
        (AddPhase::Configuring, ReplyView::Done) => if m.queue.len() > 0 {
            (CmdAddView { queue: m.queue.drop_first(), ..m }, StepView::Call(m.queue[0]))
        } else {
            add_leaves(m, None)
        },
        (AddPhase::Configuring, ReplyView::Failed(e)) => add_leaves(m, Some(e.kind)),
        (AddPhase::Configuring, _) => add_leaves(m, Some(ErrorKind::Consistency)),
        (AddPhase::Leaving, _) => match m.switch {
            Some(s) => match (switch_left(s, reply).1, m.result) {
                (Some(kind), _) => add_failed(m, kind),
                (None, Some(result)) => (
                    CmdAddView { phase: AddPhase::Finished, result: None, switch: None, ..m },
                    StepView::Done(result),
                ),
                _ => add_failed(m, ErrorKind::Consistency),
            },
            None => add_failed(m, ErrorKind::Consistency),
        },
        (AddPhase::Finished, _) => add_failed(m, ErrorKind::Consistency),
        (_, ReplyView::Failed(e)) => add_failed(m, e.kind),
        _ => add_failed(m, ErrorKind::Consistency),
    }
}

/// The changes of the bridge's addresses as operations on the bridge.
fn addr_queue(link: u32, actions: &Vec<AddrAction>) -> (queue: Vec<Request>)
    ensures
        requests_view(queue@) == addr_requests(link, actions@),
{
    let mut queue: Vec<Request> = Vec::new();
    let mut i: usize = 0;
    while i < actions.len()
        invariant
            i <= actions.len(),
            requests_view(queue@) == addr_requests(link, actions@.take(i as int)),
        decreases actions.len() - i,
    {
        let ghost before = queue@;
        let request = match actions[i] {
            AddrAction::Delete(addr) => Request::AddrDel { link, addr },
            AddrAction::Add(addr) => Request::AddrAdd { link, addr },
        };
        queue.push(request);
        assert(requests_view(queue@) =~= requests_view(before).push(request@));
        assert(addr_requests(link, actions@.take(i + 1)) =~= addr_requests(
            link,
            actions@.take(i as int),
        ).push(request@));
        i = i + 1;
    }
    assert(actions@.take(i as int) =~= actions@);
    queue
}

/// The changes of the packet filter as operations.
fn filter_queue(plan: Vec<FilterAction>) -> (queue: Vec<Request>)
    ensures
        requests_view(queue@) == filter_requests(crate::masq::actions_view(plan@)),
{
    let ghost all = crate::masq::actions_view(plan@);
    let mut plan = plan;
    let mut queue: Vec<Request> = Vec::new();
    while plan.len() > 0
        invariant
            requests_view(queue@) + filter_requests(crate::masq::actions_view(plan@))
                == filter_requests(all),
        decreases plan.len(),
    {
        let ghost before = queue@;
        let ghost rest = crate::masq::actions_view(plan@);
        let action = plan.remove(0);
        assert(crate::masq::actions_view(plan@) =~= rest.drop_first());
        queue.push(Request::Filter(action));
        assert(requests_view(queue@) =~= requests_view(before).push(
            RequestView::Filter(rest[0]),
        ));
        assert(requests_view(queue@) + filter_requests(crate::masq::actions_view(plan@))
            =~= requests_view(before) + filter_requests(rest));
    }
    assert(requests_view(queue@) =~= requests_view(queue@) + filter_requests(
        crate::masq::actions_view(plan@),
    ));
    queue
}

/// Starts the ADD command for the given arguments and configuration: the
/// machine, and the operation it starts with. A bridge that is to be the
/// default gateway is a gateway from here on.
pub fn cmd_add(args: CmdArgs, net_conf: NetConf) -> (r: (CmdAdd, Request))
    ensures
        (r.0@, r.1@) == add_start(args@, net_conf),
{
    let mut conf = net_conf;
    conf.normalize();
    let (bridge, first) = setup_bridge(&conf);
    assert(conf == normalized(net_conf));
    assert(conf.bridge_name() == net_conf.bridge_name());
    let queue: Vec<Request> = Vec::new();
    assert(requests_view(queue@) =~= Seq::<RequestView>::empty());
    (
        CmdAdd {
            conf,
            args,
            phase: AddPhase::Bridge,
            bridge,
            br_link: None,
            br_interface: None,
            netns: None,
            host_ns: None,
            attach: None,
            result: None,
            tasks: Vec::new(),
            task: 0,
            queue,
            switch: None,
        },
        first,
    )
}

impl CmdAdd {
    fn fail(&mut self, e: Error) -> (r: Step<ExecResult>)
        ensures
            (final(self)@, r@) == add_failed(old(self)@, e.kind),
    {
        self.phase = AddPhase::Finished;
        self.result = None;
        self.switch = None;
        Step::Fail(e)
    }

    /// Starts piece of work `i`, or, past the last one, the configuration
    /// of the container's interface.
    fn begin(&mut self, i: usize) -> (r: Step<ExecResult>)
        ensures
            (final(self)@, r@) == add_begins(old(self)@, i as int),
    {
        self.task = i;
        self.queue = Vec::new();
        assert(requests_view(self.queue@) =~= Seq::<RequestView>::empty());
        if i >= self.tasks.len() {
            let started = match (&self.host_ns, &self.netns) {
                (Some(own), Some(ns)) => Some(with_namespace(own, ns)),
                _ => None,
            };
            match started {
                Some((switch, request)) => {
                    self.phase = AddPhase::Entering;
                    self.switch = Some(switch);
                    Step::Call(request)
                },
                None => self.fail(Error::new(ErrorKind::Consistency, "netns lost")),
            }
        } else {
            let bridge = match &self.br_link {
                Some(br) => Some(br.index),
                None => None,
            };
            match (self.tasks[i], bridge) {
                (Task::Reconcile(gw), Some(link)) => {
                    self.phase = AddPhase::Listing;
                    Step::Call(Request::AddrList { link, family: gw.family() })
                },
                (Task::Reconcile(_), None) => self.fail(
                    Error::new(ErrorKind::Consistency, "bridge lost"),
                ),
                (Task::Forward(f), _) => match enable_ip_forward(f) {
                    Ok(write) => {
                        self.phase = AddPhase::Running;
                        Step::Call(Request::Sysctl(write))
                    },
                    Err(e) => self.fail(e),
                },
                (Task::Masquerade(ip), _) => {
                    self.phase = AddPhase::ListingChains;
                    Step::Call(
                        Request::ListChains { ipv6: ip.is_ipv6(), table: String::from_str(NAT_TABLE) },
                    )
                },
            }
        }
    }

    /// Runs the operations of the piece of work under way.
    fn run(&mut self, queue: Vec<Request>) -> (r: Step<ExecResult>)
        requires
            old(self).task < old(self).tasks.len(),
        ensures
            (final(self)@, r@) == add_runs(old(self)@, requests_view(queue@)),
    {
        let mut queue = queue;
        if queue.len() == 0 {
            self.begin(self.task + 1)
        } else {
            let ghost all = requests_view(queue@);
            let first = queue.remove(0);
            assert(requests_view(queue@) =~= all.drop_first());
            self.phase = AddPhase::Running;
            self.queue = queue;
            Step::Call(first)
        }
    }

    /// Moves on after an operation of a piece of work.
    fn advance(&mut self) -> (r: Step<ExecResult>)
        ensures
            (final(self)@, r@) == add_advances(old(self)@),
    {
        if self.queue.len() > 0 {
            let ghost all = requests_view(self.queue@);
            let first = self.queue.remove(0);
            assert(requests_view(self.queue@) =~= all.drop_first());
            Step::Call(first)
        } else if self.task < self.tasks.len() {
            self.begin(self.task + 1)
        } else {
            self.fail(Error::new(ErrorKind::Consistency, "no work under way"))
        }
    }

    /// Enters the plugin's own namespace again, keeping what is to be
    /// reported after that.
    fn leave(&mut self, pending: Option<Error>) -> (r: Step<ExecResult>)
        ensures
            (final(self)@, r@) == add_leaves(old(self)@, kind_of(pending)),
    {
        match self.switch.take() {
            Some(mut switch) => {
                let request = switch.leave(pending);
                self.phase = AddPhase::Leaving;
                self.switch = Some(switch);
                Step::Call(request)
            },
            None => self.fail(Error::new(ErrorKind::Consistency, "netns lost")),
        }
    }

    /// Takes the reply to entering the container's namespace.
    fn entered(&mut self, reply: Reply) -> (r: Step<ExecResult>)
        requires
            old(self).phase == AddPhase::Entering,
        ensures
            (final(self)@, r@) == add_step(old(self)@, reply@),
    {
        match self.switch.take() {
            Some(mut switch) => match switch.entered(reply) {
                Ok(()) => {
                    self.phase = AddPhase::Finding;
                    self.switch = Some(switch);
                    Step::Call(Request::LinkByName(self.args.if_name.clone()))
                },
                Err(e) => self.fail(e),
            },
            None => self.fail(Error::new(ErrorKind::Consistency, "netns lost")),
        }
    }

    /// Takes the reply to entering the plugin's own namespace again, and
    /// hands out the result.
    fn left(&mut self, reply: Reply) -> (r: Step<ExecResult>)
        requires
            old(self).phase == AddPhase::Leaving,
        ensures
            (final(self)@, r@) == add_step(old(self)@, reply@),
    {
        match self.switch.take() {
            Some(mut switch) => match (switch.left(reply), self.result.take()) {
                (Err(e), _) => self.fail(e),
                (Ok(()), Some(result)) => {
                    self.phase = AddPhase::Finished;
                    Step::Done(result)
                },
                _ => self.fail(Error::new(ErrorKind::Consistency, "result lost")),
            },
            None => self.fail(Error::new(ErrorKind::Consistency, "netns lost")),
        }
    }

    /// What follows the end of the bridge machine.
    fn bridged(&mut self, step: Step<Link>) -> (r: Step<ExecResult>)
        requires
            old(self).phase == AddPhase::Bridge,
        ensures
            (final(self)@, r@) == (match step@ {
                StepView::Call(request) => (old(self)@, StepView::Call(request)),
                StepView::Fail(kind) => add_failed(old(self)@, kind),
                StepView::Done(link) => match MacAddr::spec_try_from(hardware_bytes(link)) {
                    None => add_failed(old(self)@, ErrorKind::Config),
                    Some(mac) => add_goes(
                        CmdAddView {
                            br_link: Some(link),
                            br_interface: Some(
                                InterfaceView { name: link.name, mac: Some(mac), sandbox: None },
                            ),
                            ..old(self)@
                        },
                        AddPhase::OpeningNetns,
                        RequestView::NetnsFromPath(old(self)@.args.netns),
                    ),
                },
            }),
    {
        match step {
            Step::Call(request) => Step::Call(request),
            Step::Fail(e) => self.fail(e),
            Step::Done(link) => match bridge_interface(&link) {
                Err(e) => self.fail(e),
                Ok(interface) => {
                    self.br_link = Some(link);
                    self.br_interface = Some(interface);
                    self.phase = AddPhase::OpeningNetns;
                    Step::Call(Request::NetnsFromPath(self.args.netns.clone()))
                },
            },
        }
    }

    /// Starts the attachment machine, now that both namespaces are known.
    fn attach(&mut self, host_ns: Netns) -> (r: Step<ExecResult>)
        requires
            old(self).phase == AddPhase::CurrentNs,
        ensures
            (final(self)@, r@) == add_step(old(self)@, ReplyView::Netns(Some(host_ns@))),
    {
        let mtu = match self.conf.mtu {
            Some(mtu) => mtu,
            None => 1500,
        };
        let started = match (&self.netns, &self.br_link) {
            (Some(netns), Some(br)) => Some(
                crate::attach::setup_veth(
                    &host_ns,
                    netns,
                    br,
                    self.args.if_name.as_str(),
                    mtu,
                    false,
                    false,
                    0,
                    Vec::new(),
                    false,
                    "",
                ),
            ),
            _ => None,
        };
        match started {
            Some((machine, first)) => {
                self.phase = AddPhase::Attaching;
                self.host_ns = Some(host_ns);
                self.attach = Some(machine);
                Step::Call(first)
            },
            None => self.fail(Error::new(ErrorKind::Consistency, "bridge or netns lost")),
        }
    }

    /// Takes one step of the attachment machine.
    fn attaching(&mut self, reply: Reply) -> (r: Step<ExecResult>)
        requires
            old(self).phase == AddPhase::Attaching,
        ensures
            (final(self)@, r@) == add_step(old(self)@, reply@),
    {
        if self.br_interface.is_none() {
            return self.fail(Error::new(ErrorKind::Consistency, "bridge lost"));
        }
        let mut machine = match self.attach.take() {
            Some(machine) => machine,
            None => {
                return self.fail(Error::new(ErrorKind::Consistency, "veth lost"));
            },
        };
        let step = machine.step(reply);
        self.attach = Some(machine);
        match step {
            Step::Call(request) => Step::Call(request),
            Step::Fail(e) => self.fail(e),
            Step::Done(pair) => {
                match self.br_interface.take() {
                    None => self.fail(Error::new(ErrorKind::Consistency, "bridge lost")),
                    Some(br) => {
                        let mut interfaces: Vec<Interface> = Vec::new();
                        interfaces.push(br);
                        interfaces.push(pair.host);
                        interfaces.push(pair.container);
                        assert(crate::types::interfaces_view(interfaces@) =~= seq![
                            br@,
                            pair.host@,
                            pair.container@,
                        ]);
                        self.result = Some(
                            ExecResult {
                                cni_version: Some(String::from_str(RESULT_VERSION)),
                                interfaces: Some(interfaces),
                                ips: None,
                                routes: None,
                                dns: None,
                            },
                        );
                        self.phase = AddPhase::Delegating;
                        Step::Call(Request::Delegate { plugin: self.conf.ipam.plugin.clone() })
                    },
                }
            },
        }
    }

    /// Takes what the address-management plugin assigned, derives gateways
    /// and default routes, and starts the work that follows.
    fn delegated(&mut self, ipam: ExecResult) -> (r: Step<ExecResult>)
        requires
            old(self).phase == AddPhase::Delegating,
        ensures
            (final(self)@, r@) == add_step(old(self)@, ReplyView::Delegated(ipam)),
    {
        let mut result = match self.result.take() {
            Some(result) => result,
            None => {
                return self.fail(Error::new(ErrorKind::Consistency, "result lost"));
            },
        };
        let ghost base = result@;
        result.ips = ipam.ips;
        result.routes = ipam.routes;
        result.dns = ipam.dns;
        let is_gw = match self.conf.is_gw {
            Some(b) => b,
            None => false,
        };
        let ip_masq = match self.conf.ip_masq {
            Some(b) => b,
            None => false,
        };
        match calc_gateway(&mut result, &self.conf) {
            Err(e) => self.fail(e),
            Ok(infos) => {
                let tasks = match &result.ips {
                    Some(ips) => plan_tasks(&infos, ips, is_gw, ip_masq),
                    None => Vec::new(),
                };
                assert(result@ == derived_result(base, ipam, self.conf));
                assert(tasks@ == derived_tasks(ipam, self.conf));
                self.result = Some(result);
                self.tasks = tasks;
                self.begin(0)
            },
        }
    }

    /// Takes the addresses of the bridge and starts putting the gateway
    /// address of the piece of work under way on it.
    fn listed(&mut self, addrs: Vec<IpNetwork>) -> (r: Step<ExecResult>)
        requires
            old(self).phase == AddPhase::Listing,
        ensures
            (final(self)@, r@) == add_step(old(self)@, ReplyView::Addrs(addrs@)),
    {
        if self.task >= self.tasks.len() {
            return self.fail(Error::new(ErrorKind::Consistency, "no work under way"));
        }
        let bridge = match &self.br_link {
            Some(br) => Some(br.index),
            None => None,
        };
        match (self.tasks[self.task], bridge) {
            (Task::Reconcile(gw), Some(link)) => {
                let force = match self.conf.force_address {
                    Some(b) => b,
                    None => false,
                };
                match ensure_addr(self.bridge.name.as_str(), &addrs, &gw, force) {
                    Ok(actions) => {
                        let queue = addr_queue(link, &actions);
                        self.run(queue)
                    },
                    Err(e) => self.fail(e),
                }
            },
            _ => self.fail(Error::new(ErrorKind::Consistency, "no gateway under way")),
        }
    }

    /// Takes the chains of the packet filter and starts masquerading for
    /// the address of the piece of work under way.
    fn chains_listed(&mut self, chains: Vec<String>) -> (r: Step<ExecResult>)
        requires
            old(self).phase == AddPhase::ListingChains,
        ensures
            (final(self)@, r@) == add_step(
                old(self)@,
                ReplyView::Chains(crate::types::texts(chains@)),
            ),
    {
        if self.task >= self.tasks.len() {
            return self.fail(Error::new(ErrorKind::Consistency, "no work under way"));
        }
        match self.tasks[self.task] {
            Task::Masquerade(ip) => {
                let chain = format_chain_name(
                    self.conf.name.as_str(),
                    self.args.container_id.as_str(),
                );
                assert(crate::types::texts(chains@) =~= crate::masq::names(chains@));
                let plan = setup_ip_masq(&ip, chain.as_str(), &chains);
                let queue = filter_queue(plan);
                self.run(queue)
            },
            _ => self.fail(Error::new(ErrorKind::Consistency, "no address under way")),
        }
    }

    /// Takes the container's interface and starts configuring it.
    fn found(&mut self, link: Option<Link>) -> (r: Step<ExecResult>)
        requires
            old(self).phase == AddPhase::Finding,
        ensures
            (final(self)@, r@) == add_step(
                old(self)@,
                ReplyView::Link(
                    match link {
                        Some(l) => Some(l@),
                        None => None,
                    },
                ),
            ),
    {
        let planned = match (&link, &self.result) {
            (None, _) => Err(Error::new(ErrorKind::Provisioning, "link not found")),
            (Some(_), None) => Err(Error::new(ErrorKind::Consistency, "result lost")),
            (Some(l), Some(result)) => config_interface(
                self.args.if_name.as_str(),
                Some(l),
                result,
            ),
        };
        match planned {
            Err(e) => self.leave(Some(e)),
            Ok(plan) => {
                let mut plan = plan;
                let ghost all = requests_view(plan@);
                assert(all.len() > 0);
                let first = plan.remove(0);
                assert(requests_view(plan@) =~= all.drop_first());
                self.phase = AddPhase::Configuring;
                self.queue = plan;
                Step::Call(first)
            },
        }
    }

    /// Takes the reply to the operation that the machine waited for, and says
    /// what to do next.
    pub fn step(&mut self, reply: Reply) -> (r: Step<ExecResult>)
        ensures
            (final(self)@, r@) == add_step(old(self)@, reply@),
    {
        match (self.phase, reply) {
            (AddPhase::Bridge, reply) => {
                let step = self.bridge.step(reply);
                self.bridged(step)
            },
            (AddPhase::OpeningNetns, Reply::Netns(Some(ns))) => {
                self.netns = Some(ns);
                self.phase = AddPhase::CurrentNs;
                Step::Call(Request::CurrentNetns)
            },
            (AddPhase::OpeningNetns, Reply::Failed(e)) => self.fail(e),
            (AddPhase::OpeningNetns, _) => self.fail(
                Error::new(ErrorKind::Namespace, "netns not found"),
            ),
            (AddPhase::CurrentNs, Reply::Netns(Some(ns))) => self.attach(ns),
            (AddPhase::CurrentNs, Reply::Failed(e)) => self.fail(e),
            (AddPhase::CurrentNs, _) => self.fail(
                Error::new(ErrorKind::Namespace, "current netns not found"),
            ),
            (AddPhase::Attaching, reply) => self.attaching(reply),
            (AddPhase::Delegating, Reply::Delegated(ipam)) => self.delegated(ipam),
            (AddPhase::Delegating, Reply::Failed(e)) => self.fail(
                e.context(ErrorKind::Delegate, "address management failed: "),
            ),
            (AddPhase::Listing, Reply::Addrs(addrs)) => self.listed(addrs),
            (AddPhase::ListingChains, Reply::Chains(chains)) => self.chains_listed(chains),
            (AddPhase::Running, Reply::Done) => self.advance(),
            (AddPhase::Entering, reply) => self.entered(reply),
            (AddPhase::Finding, Reply::Link(link)) => self.found(link),
            (AddPhase::Finding, Reply::Failed(e)) => self.leave(Some(e)),
            (AddPhase::Finding, _) => self.leave(
                Some(Error::new(ErrorKind::Consistency, "unexpected reply")),
            ),
            (AddPhase::Configuring, Reply::Done) => {
                if self.queue.len() > 0 {
                    let ghost all = requests_view(self.queue@);
                    let first = self.queue.remove(0);
                    assert(requests_view(self.queue@) =~= all.drop_first());
                    Step::Call(first)
                } else {
                    self.leave(None)
                }
            },
            (AddPhase::Configuring, Reply::Failed(e)) => self.leave(Some(e)),
            (AddPhase::Configuring, _) => self.leave(
                Some(Error::new(ErrorKind::Consistency, "unexpected reply")),
            ),
            (AddPhase::Leaving, reply) => self.left(reply),
            (AddPhase::Finished, _) => self.fail(
                Error::new(ErrorKind::Consistency, "the machine has finished"),
            ),
            (_, Reply::Failed(e)) => self.fail(e),
            _ => self.fail(Error::new(ErrorKind::Consistency, "unexpected reply")),
        }
    }
}

/// How far a run has come: the phases in the order in which a run passes
/// through them.
pub open spec fn progress(phase: AddPhase) -> int {
    match phase {
        AddPhase::Bridge => 0,
        AddPhase::OpeningNetns => 1,
        AddPhase::CurrentNs => 2,
        AddPhase::Attaching => 3,
        AddPhase::Delegating => 4,
        AddPhase::Listing => 5,
        AddPhase::ListingChains => 5,
        AddPhase::Running => 5,
        AddPhase::Entering => 6,
        AddPhase::Finding => 7,
        AddPhase::Configuring => 8,
        AddPhase::Leaving => 9,
        AddPhase::Finished => 10,
    }
}

/// Whether an operation changes the addresses of a device.
pub open spec fn changes_addresses(request: RequestView) -> bool {
    request is AddrAdd || request is AddrDel
}

/// The work is done in order: a run never goes back to an earlier phase.
#[verifier::rlimit(60)]
pub proof fn lemma_order_of_work(m: CmdAddView, reply: ReplyView)
    ensures
        progress(add_step(m, reply).0.phase) >= progress(m.phase),
{
    match m.phase {
        AddPhase::Bridge => {
            assert(progress(add_step(m, reply).0.phase) >= 0);
        },
        AddPhase::Attaching => {
            let next = add_step(m, reply).0.phase;
            assert(next == AddPhase::Attaching || next == AddPhase::Delegating || next
                == AddPhase::Finished);
        },
        AddPhase::Delegating => {
            let next = add_step(m, reply).0.phase;
            assert(progress(next) >= 5);
        },
        AddPhase::Listing => {
            let next = add_step(m, reply).0.phase;
            assert(progress(next) >= 5);
        },
        AddPhase::ListingChains => {
            let next = add_step(m, reply).0.phase;
            assert(progress(next) >= 5);
        },
        AddPhase::Running => {
            let next = add_step(m, reply).0.phase;
            assert(progress(next) >= 5);
        },
        _ => {},
    }
}

/// A run leaves the attachment behind only when the attachment machine has
/// finished, or the run has failed.
pub proof fn lemma_attachment_first(m: CmdAddView, reply: ReplyView)
    requires
        m.phase == AddPhase::Attaching,
        add_step(m, reply).0.phase != AddPhase::Attaching,
        add_step(m, reply).0.phase != AddPhase::Finished,
    ensures
        m.attach.is_some(),
        attach_step(m.attach.unwrap(), reply).1 is Done,
        add_step(m, reply).0.phase == AddPhase::Delegating,
{
}

/// Addresses are applied only once the host end of the pair is attached to
/// the bridge: no operation changes the addresses of a device in a phase
/// before the work that follows the attachment.
#[verifier::rlimit(60)]
pub proof fn lemma_addresses_follow_attachment(m: CmdAddView, reply: ReplyView)
    requires
        add_step(m, reply).1 is Call,
        changes_addresses(add_step(m, reply).1->Call_0),
    ensures
        progress(m.phase) >= 5,
{
    match m.phase {
        AddPhase::Bridge => {
            lemma_bridge_changes_none(m.bridge, reply);
        },
        AddPhase::Attaching => {
            if m.attach.is_some() {
                lemma_pairing_changes_none(m.attach.unwrap(), reply);
            }
        },
        AddPhase::Delegating => {
            match reply {
                ReplyView::Delegated(ipam) => {
                    if m.result.is_some() && ipam.ips.is_some() && !underivable(
                        items(ipam.ips),
                        flag(m.conf.is_gw),
                    ) {
                        let at = CmdAddView {
                            result: Some(derived_result(m.result.unwrap(), ipam, m.conf)),
                            tasks: derived_tasks(ipam, m.conf),
                            ..m
                        };
                        assert(add_step(m, reply) == add_begins(at, 0));
                    }
                },
                _ => {},
            }
        },
        _ => {},
    }
}

/// Making sure of the bridge changes no addresses.
proof fn lemma_bridge_changes_none(m: EnsureBridgeView, reply: ReplyView)
    ensures
        bridge_step(m, reply).1 is Call ==> !changes_addresses(bridge_step(m, reply).1->Call_0),
{
}

/// Attaching the container changes no addresses.
proof fn lemma_pairing_changes_none(m: AttachVethView, reply: ReplyView)
    ensures
        attach_step(m, reply).1 is Call ==> !changes_addresses(attach_step(m, reply).1->Call_0),
{
}

/// Whether a result has the shape in which it is reported: the version, and
/// three interfaces, the bridge, the host end and the container end.
pub open spec fn reported_shape(r: ExecResultView) -> bool {
    &&& r.cni_version == Some(RESULT_VERSION@)
    &&& r.interfaces.is_some()
    &&& r.interfaces.unwrap().len() == 3
}

/// Whether every assignment of a result is owned by the container's
/// interface, the third of the three.
pub open spec fn assignments_owned(r: ExecResultView) -> bool {
    &&& r.ips.is_some()
    &&& forall|i: int|
        0 <= i < r.ips.unwrap().len() ==> (#[trigger] r.ips.unwrap()[i]).interface == Some(
            crate::gateway::CONTAINER_INTERFACE_INDEX,
        )
}

/// What holds of the result in every state of a run: from the moment the
/// pair exists, the machine holds a result of the reported shape, and from
/// the moment addresses are assigned, every assignment is owned by the
/// container's interface.
pub open spec fn result_kept(m: CmdAddView) -> bool {
    &&& 4 <= progress(m.phase) <= 9 ==> m.result.is_some() && reported_shape(m.result.unwrap())
    &&& 5 <= progress(m.phase) <= 9 ==> assignments_owned(m.result.unwrap())
}

/// Three interfaces are reported, and every assigned address belongs to the
/// third. What holds of the result at the start of a run holds after every
/// step, and a run that finishes hands out a result of the reported shape
/// whose assignments are all owned by the container's interface.
#[verifier::rlimit(60)]
pub proof fn lemma_result_kept(m: CmdAddView, reply: ReplyView)
    requires
        result_kept(m),
    ensures
        result_kept(add_step(m, reply).0),
        add_step(m, reply).1 is Done ==> reported_shape(add_step(m, reply).1->Done_0)
            && assignments_owned(add_step(m, reply).1->Done_0),
{
    lemma_order_of_work(m, reply);
    match m.phase {
        AddPhase::Delegating => {
            match reply {
                ReplyView::Delegated(ipam) => {
                    if m.result.is_some() && ipam.ips.is_some() && !underivable(
                        items(ipam.ips),
                        flag(m.conf.is_gw),
                    ) {
                        let derived = derived_result(m.result.unwrap(), ipam, m.conf);
                        let at = CmdAddView {
                            result: Some(derived),
                            tasks: derived_tasks(ipam, m.conf),
                            ..m
                        };
                        assert(add_step(m, reply) == add_begins(at, 0));
                        assert(assignments_owned(derived));
                    }
                },
                _ => {},
            }
        },
        _ => {},
    }
}

/// A run starts in a state of which `result_kept` holds.
pub proof fn lemma_result_kept_at_start(args: CmdArgsView, conf: NetConf)
    ensures
        result_kept(add_start(args, conf).0),
{
}

/// The plugin's own namespace is entered again on every path. A machine
/// that works on the container's interface inside the container's namespace
/// neither finishes nor fails in its next step: it goes on with the work, or
/// asks for its own namespace.
pub proof fn lemma_own_namespace_restored(m: CmdAddView, reply: ReplyView)
    requires
        m.phase == AddPhase::Finding || m.phase == AddPhase::Configuring,
        m.switch.is_some(),
    ensures
        add_step(m, reply).1 is Call,
        add_step(m, reply).0.phase == AddPhase::Configuring || (add_step(m, reply).0.phase
            == AddPhase::Leaving && add_step(m, reply).1 == StepView::<ExecResultView>::Call(
            RequestView::SetNetns(m.switch.unwrap().origin),
        )),
        add_step(m, reply).0.switch.is_some(),
        add_step(m, reply).0.switch.unwrap().origin == m.switch.unwrap().origin,
{
}

} // verus!
