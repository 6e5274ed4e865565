//! The operations that the provisioning logic asks of the operating system,
//! and what comes back. The logic never performs an operation itself: each
//! state machine hands out one `Request` at a time and is given the `Reply`.

use vstd::prelude::*;
use crate::addr::{Family, IpAddr, IpNetwork};
use crate::error::{Error, ErrorKind, ErrorView, IoErrorKind};
use crate::masq::{FilterAction, FilterActionView};
use crate::sysctl::SysctlWrite;
use crate::types::{opt_text, texts, ExecResult};

verus! {

/// A handle of a network namespace.
#[derive(Clone, Debug)]
pub struct Netns {
    /// What identifies the namespace: two handles denote the same namespace
    /// exactly when their identities are equal.
    pub id: String,
    /// The path under which the namespace was opened, if it was opened by path.
    pub path: Option<String>,
    /// The file descriptor that refers to the namespace.
    pub fd: u32,
}

/// What a `Netns` holds, as mathematical values.
pub struct NetnsView {
    pub id: Seq<char>,
    pub path: Option<Seq<char>>,
    pub fd: u32,
}

impl View for Netns {
    type V = NetnsView;

    open spec fn view(&self) -> NetnsView {
        NetnsView { id: self.id@, path: opt_text(self.path), fd: self.fd }
    }
}

impl Netns {
    /// Whether two handles denote the same namespace.
    pub fn same(&self, other: &Netns) -> (b: bool)
        ensures
            b == (self.id@ == other.id@),
    {
        self.id == other.id
    }

    /// A copy of the handle.
    pub fn duplicate(&self) -> (n: Netns)
        ensures
            n@ == self@,
    {
        Netns {
            id: self.id.clone(),
            path: match &self.path {
                Some(p) => Some(p.clone()),
                None => None,
            },
            fd: self.fd,
        }
    }
}

/// What kind of device a link is.
#[derive(Clone, Debug)]
pub enum LinkKind {
    Bridge { vlan_filtering: Option<bool> },
    /// One end of a veth pair; the other end is named `peer_name` and is put
    /// into the namespace that the descriptor `peer_netns_fd` refers to.
    Veth { peer_name: String, peer_netns_fd: u32 },
    Other,
}

/// What a `LinkKind` holds, as mathematical values.
pub enum LinkKindView {
    Bridge { vlan_filtering: Option<bool> },
    Veth { peer_name: Seq<char>, peer_netns_fd: u32 },
    Other,
}

impl View for LinkKind {
    type V = LinkKindView;

    open spec fn view(&self) -> LinkKindView {
        match self {
            LinkKind::Bridge { vlan_filtering } => LinkKindView::Bridge {
                vlan_filtering: *vlan_filtering,
            },
            LinkKind::Veth { peer_name, peer_netns_fd } => LinkKindView::Veth {
                peer_name: peer_name@,
                peer_netns_fd: *peer_netns_fd,
            },
            LinkKind::Other => LinkKindView::Other,
        }
    }
}

/// A network device as the kernel reports it, or as it is to be created.
#[derive(Clone, Debug)]
pub struct Link {
    /// The index that the kernel gave the device; 0 before it is created.
    pub index: u32,
    pub name: String,
    /// The largest packet the device carries; 0 leaves the choice to the kernel.
    pub mtu: u32,
    /// The hardware address, if the device has one.
    pub hardware_addr: Option<Vec<u8>>,
    pub kind: LinkKind,
}

/// What a `Link` holds, as mathematical values.
pub struct LinkView {
    pub index: u32,
    pub name: Seq<char>,
    pub mtu: u32,
    pub hardware_addr: Option<Seq<u8>>,
    pub kind: LinkKindView,
}

impl View for Link {
    type V = LinkView;

    open spec fn view(&self) -> LinkView {
        LinkView {
            index: self.index,
            name: self.name@,
            mtu: self.mtu,
            hardware_addr: match self.hardware_addr {
                Some(a) => Some(a@),
                None => None,
            },
            kind: self.kind@,
        }
    }
}

/// One operation asked of the operating system, in the current namespace.
#[derive(Clone, Debug)]
pub enum Request {
    /// Create a device.
    LinkAdd(Link),
    /// Delete the device of a name.
    LinkDel(String),
    /// Look a device up by name.
    LinkByName(String),
    /// Look the index of a device up by name.
    LinkIndex(String),
    /// Make a device receive every packet.
    SetPromiscOn(u32),
    /// Bring a device up.
    LinkSetUp(u32),
    /// Attach a device to a bridge.
    LinkSetMaster { link: u32, master: u32 },
    /// List the addresses of a family on a device.
    AddrList { link: u32, family: Family },
    AddrDel { link: u32, addr: IpNetwork },
    AddrAdd { link: u32, addr: IpNetwork },
    /// Add a route through a device, joining it to the routes that lead to
    /// the same destination.
    RouteAdd { link: u32, dst: IpNetwork, gw: Option<IpAddr> },
    /// Set a kernel parameter.
    Sysctl(SysctlWrite),
    /// Say which namespace is the current one.
    CurrentNetns,
    /// Open the namespace at a path.
    NetnsFromPath(String),
    /// Make a namespace the current one.
    SetNetns(Netns),
    /// Give four random bytes.
    Entropy,
    /// List the chains of a table of the packet filter.
    ListChains { ipv6: bool, table: String },
    /// Change the packet filter.
    Filter(FilterAction),
    /// Run the address-management plugin of a name on the configuration.
    Delegate { plugin: String },
}

/// What a `Request` holds, as mathematical values.
pub enum RequestView {
    LinkAdd(LinkView),
    LinkDel(Seq<char>),
    LinkByName(Seq<char>),
    LinkIndex(Seq<char>),
    SetPromiscOn(u32),
    LinkSetUp(u32),
    LinkSetMaster { link: u32, master: u32 },
    AddrList { link: u32, family: Family },
    AddrDel { link: u32, addr: IpNetwork },
    AddrAdd { link: u32, addr: IpNetwork },
    RouteAdd { link: u32, dst: IpNetwork, gw: Option<IpAddr> },
    Sysctl(Seq<char>, Seq<char>),
    CurrentNetns,
    NetnsFromPath(Seq<char>),
    SetNetns(NetnsView),
    Entropy,
    ListChains { ipv6: bool, table: Seq<char> },
    Filter(FilterActionView),
    Delegate { plugin: Seq<char> },
}

impl View for Request {
    type V = RequestView;

    open spec fn view(&self) -> RequestView {
        match self {
            Request::LinkAdd(l) => RequestView::LinkAdd(l@),
            Request::LinkDel(n) => RequestView::LinkDel(n@),
            Request::LinkByName(n) => RequestView::LinkByName(n@),
            Request::LinkIndex(n) => RequestView::LinkIndex(n@),
            Request::SetPromiscOn(i) => RequestView::SetPromiscOn(*i),
            Request::LinkSetUp(i) => RequestView::LinkSetUp(*i),
            Request::LinkSetMaster { link, master } => RequestView::LinkSetMaster {
                link: *link,
                master: *master,
            },
            Request::AddrList { link, family } => RequestView::AddrList {
                link: *link,
                family: *family,
            },
            Request::AddrDel { link, addr } => RequestView::AddrDel { link: *link, addr: *addr },
            Request::AddrAdd { link, addr } => RequestView::AddrAdd { link: *link, addr: *addr },
            Request::RouteAdd { link, dst, gw } => RequestView::RouteAdd {
                link: *link,
                dst: *dst,
                gw: *gw,
            },
            Request::Sysctl(w) => RequestView::Sysctl(w.key@, w.value@),
            Request::CurrentNetns => RequestView::CurrentNetns,
            Request::NetnsFromPath(p) => RequestView::NetnsFromPath(p@),
            Request::SetNetns(n) => RequestView::SetNetns(n@),
            Request::Entropy => RequestView::Entropy,
            Request::ListChains { ipv6, table } => RequestView::ListChains {
                ipv6: *ipv6,
                table: table@,
            },
            Request::Filter(a) => RequestView::Filter(a@),
            Request::Delegate { plugin } => RequestView::Delegate { plugin: plugin@ },
        }
    }
}

/// What came back from an operation.
#[derive(Debug)]
pub enum Reply {
    /// The operation was done and has nothing to report.
    Done,
    /// The device looked for, or none if there is no such device.
    Link(Option<Link>),
    /// The index looked for, or none if there is no such device.
    Index(Option<u32>),
    Addrs(Vec<IpNetwork>),
    /// The namespace asked for, or none if there is no such namespace.
    Netns(Option<Netns>),
    Entropy([u8; 4]),
    Chains(Vec<String>),
    /// What the address-management plugin reported.
    Delegated(ExecResult),
    /// The operation failed.
    Failed(Error),
}

/// What a `Reply` holds, as mathematical values.
pub enum ReplyView {
    Done,
    Link(Option<LinkView>),
    Index(Option<u32>),
    Addrs(Seq<IpNetwork>),
    Netns(Option<NetnsView>),
    Entropy(Seq<u8>),
    Chains(Seq<Seq<char>>),
    Delegated(ExecResult),
    Failed(ErrorView),
}

impl View for Reply {
    type V = ReplyView;

    open spec fn view(&self) -> ReplyView {
        match self {
            Reply::Done => ReplyView::Done,
            Reply::Link(l) => ReplyView::Link(
                match l {
                    Some(l) => Some(l@),
                    None => None,
                },
            ),
            Reply::Index(i) => ReplyView::Index(*i),
            Reply::Addrs(a) => ReplyView::Addrs(a@),
            Reply::Netns(n) => ReplyView::Netns(
                match n {
                    Some(n) => Some(n@),
                    None => None,
                },
            ),
            Reply::Entropy(e) => ReplyView::Entropy(e@),
            Reply::Chains(c) => ReplyView::Chains(texts(c@)),
            Reply::Delegated(r) => ReplyView::Delegated(*r),
            Reply::Failed(e) => ReplyView::Failed(e@),
        }
    }
}

/// The position of a step in a run: a state machine either asks for the next
/// operation, or has finished with a value, or has failed.
#[derive(Debug)]
pub enum Step<T> {
    Call(Request),
    Done(T),
    Fail(Error),
}

/// What a `Step` holds, as mathematical values; of a failure, its kind.
pub enum StepView<V> {
    Call(RequestView),
    Done(V),
    Fail(ErrorKind),
}

impl<T: View> View for Step<T> {
    type V = StepView<T::V>;

    open spec fn view(&self) -> StepView<T::V> {
        match self {
            Step::Call(r) => StepView::Call(r@),
            Step::Done(t) => StepView::Done(t@),
            Step::Fail(e) => StepView::Fail(e.kind),
        }
    }
}

/// A host as far as the laws of the state machines need it: the devices of
/// the current namespace by name, and the index that the next new device gets.
pub struct HostModel {
    pub links: Map<Seq<char>, LinkView>,
    pub next_index: u32,
}

impl HostModel {
    /// Every device is filed under its own name.
    pub open spec fn wf(self) -> bool {
        forall|n: Seq<char>| self.links.dom().contains(n) ==> (#[trigger] self.links[n]).name == n
    }
}

/// The failure that an operating system reports with the given error class.
pub open spec fn os_failure(io_kind: IoErrorKind) -> ReplyView {
    ReplyView::Failed(
        ErrorView { kind: ErrorKind::Os, io_kind: Some(io_kind), message: Seq::<char>::empty() },
    )
}

/// What the model host does on a request, and what it answers. A device is
/// created under a name that is free and refused under one that is taken; it
/// is found by its name; everything that changes no device succeeds and
/// leaves the devices as they are.
pub open spec fn host_answer(h: HostModel, request: RequestView) -> (HostModel, ReplyView) {
    match request {
        RequestView::LinkAdd(l) => if h.links.dom().contains(l.name) {
            (h, os_failure(IoErrorKind::AlreadyExists))
        } else {
            (
                HostModel {
                    links: h.links.insert(l.name, LinkView { index: h.next_index, ..l }),
                    next_index: if h.next_index < u32::MAX {
                        (h.next_index + 1) as u32
                    } else {
                        0
                    },
                },
                ReplyView::Done,
            )
        },
        RequestView::LinkDel(n) => if h.links.dom().contains(n) {
            (HostModel { links: h.links.remove(n), ..h }, ReplyView::Done)
        } else {
            (h, os_failure(IoErrorKind::NotFound))
        },
        RequestView::LinkByName(n) => (
            h,
            ReplyView::Link(
                if h.links.dom().contains(n) {
                    Some(h.links[n])
                } else {
                    None
                },
            ),
        ),
        RequestView::LinkIndex(n) => (
            h,
            ReplyView::Index(
                if h.links.dom().contains(n) {
                    Some(h.links[n].index)
                } else {
                    None
                },
            ),
        ),
        _ => (h, ReplyView::Done),
    }
}

} // verus!
