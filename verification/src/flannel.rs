//! The overlay plugin: what it reads from the environment file of the
//! overlay daemon, and the configuration it hands on to the plugin that
//! does the work.

use vstd::prelude::*;
use crate::addr::{Ipv4Network, Ipv6Network};
use crate::error::{Error, ErrorKind};
use crate::text::{
    parse_u32, split, split_once, split_once_text, split_text, str_eq, u32_of_text,
};
use crate::json::{
    contains_key, get_str, has_member, insert, is_string, items_view, lemma_array_view,
    lemma_object_view, lemma_with_default, lemma_with_member, member, members_view, or_insert,
    with_default, with_member, Members, Value, ValueView,
};
use crate::types::texts;

verus! {

/// Where the overlay daemon writes its environment file.
pub const DEFAULT_SUBNET_FILE: &'static str = "/run/flannel/subnet.env";

/// Where the plugin keeps its data.
pub const DEFAULT_DATA_DIR: &'static str = "/var/lib/cni/flannel";

/// What the overlay daemon says about the network of this host.
#[derive(Clone, Debug)]
pub struct SubnetEnv {
    /// The IPv4 networks of the overlay.
    pub nws: Vec<Ipv4Network>,
    /// The IPv4 subnet of this host.
    pub sn: Option<Ipv4Network>,
    /// The IPv6 networks of the overlay.
    pub ip6_nws: Vec<Ipv6Network>,
    /// The IPv6 subnet of this host.
    pub ip6_sn: Option<Ipv6Network>,
    pub mtu: Option<u32>,
    pub ipmasq: Option<bool>,
}

/// What a `SubnetEnv` holds, as mathematical values.
pub struct SubnetEnvView {
    pub nws: Seq<Ipv4Network>,
    pub sn: Option<Ipv4Network>,
    pub ip6_nws: Seq<Ipv6Network>,
    pub ip6_sn: Option<Ipv6Network>,
    pub mtu: Option<u32>,
    pub ipmasq: Option<bool>,
}

impl View for SubnetEnv {
    type V = SubnetEnvView;

    open spec fn view(&self) -> SubnetEnvView {
        SubnetEnvView {
            nws: self.nws@,
            sn: self.sn,
            ip6_nws: self.ip6_nws@,
            ip6_sn: self.ip6_sn,
            mtu: self.mtu,
            ipmasq: self.ipmasq,
        }
    }
}

/// The environment in which nothing is set.
pub open spec fn empty_env() -> SubnetEnvView {
    SubnetEnvView {
        nws: Seq::<Ipv4Network>::empty(),
        sn: None,
        ip6_nws: Seq::<Ipv6Network>::empty(),
        ip6_sn: None,
        mtu: None,
        ipmasq: None,
    }
}

/// A line without the carriage return at its end, if it has one.
pub open spec fn strip_cr(s: Seq<char>) -> Seq<char> {
    if s.len() > 0 && s.last() == '\r' {
        s.drop_last()
    } else {
        s
    }
}

/// The lines of a text. A line ends with a line feed, or with a carriage
/// return and a line feed, neither of which belongs to the line; what
/// follows the last line feed is a line too unless it is empty.
pub open spec fn lines_of(content: Seq<char>) -> Seq<Seq<char>> {
    let pieces = split_text(content, '\n');
    let ended = pieces.drop_last().map_values(|p: Seq<char>| strip_cr(p));
    if pieces.last().len() == 0 {
        ended
    } else {
        ended.push(pieces.last())
    }
}

/// The IPv4 networks that the texts denote, if each of them denotes one.
pub open spec fn v4_list(items: Seq<Seq<char>>) -> Option<Seq<Ipv4Network>>
    decreases items.len(),
{
    if items.len() == 0 {
        Some(Seq::<Ipv4Network>::empty())
    } else {
        match (v4_list(items.drop_last()), Ipv4Network::of_text(items.last())) {
            (Some(l), Some(n)) => Some(l.push(n)),
            _ => None,
        }
    }
}

/// The IPv6 networks that the texts denote, if each of them denotes one.
pub open spec fn v6_list(items: Seq<Seq<char>>) -> Option<Seq<Ipv6Network>>
    decreases items.len(),
{
    if items.len() == 0 {
        Some(Seq::<Ipv6Network>::empty())
    } else {
        match (v6_list(items.drop_last()), Ipv6Network::of_text(items.last())) {
            (Some(l), Some(n)) => Some(l.push(n)),
            _ => None,
        }
    }
}

/// A network given by its lowest address.
pub open spec fn v4_subnet(n: Ipv4Network) -> Ipv4Network {
    Ipv4Network::spec_new(n.spec_network(), n.spec_prefix())
}

/// A network given by its lowest address.
pub open spec fn v6_subnet(n: Ipv6Network) -> Ipv6Network {
    Ipv6Network::spec_new(n.spec_network(), n.spec_prefix())
}

/// The truth value that a text denotes: `true` or `false`.
pub open spec fn bool_of_text(s: Seq<char>) -> Option<bool> {
    if s == "true"@ {
        Some(true)
    } else if s == "false"@ {
        Some(false)
    } else {
        None
    }
}

/// The environment after one more line, or nothing where the line sets a
/// known key to a value that cannot be read. A line sets the key before its
/// first equals sign to the value after it; a line without an equals sign
/// and a line with an unknown key set nothing. Lists are separated by commas.
pub open spec fn apply_line(env: SubnetEnvView, line: Seq<char>) -> Option<SubnetEnvView> {
    match split_once_text(line, '=') {
        None => Some(env),
        Some((k, v)) => if k == "FLANNEL_NETWORK"@ {
            match v4_list(split_text(v, ',')) {
                Some(l) => Some(SubnetEnvView { nws: l, ..env }),
                None => None,
            }
        } else if k == "FLANNEL_IPV6_NETWORK"@ {
            match v6_list(split_text(v, ',')) {
                Some(l) => Some(SubnetEnvView { ip6_nws: l, ..env }),
                None => None,
            }
        } else if k == "FLANNEL_SUBNET"@ {
            match Ipv4Network::of_text(v) {
                Some(n) => Some(SubnetEnvView { sn: Some(v4_subnet(n)), ..env }),
                None => None,
            }
        } else if k == "FLANNEL_IPV6_SUBNET"@ {
            match Ipv6Network::of_text(v) {
                Some(n) => Some(SubnetEnvView { ip6_sn: Some(v6_subnet(n)), ..env }),
                None => None,
            }
        } else if k == "FLANNEL_MTU"@ {
            match u32_of_text(v) {
                Some(mtu) => Some(SubnetEnvView { mtu: Some(mtu), ..env }),
                None => None,
            }
        } else if k == "FLANNEL_IPMASQ"@ {
            match bool_of_text(v) {
                Some(b) => Some(SubnetEnvView { ipmasq: Some(b), ..env }),
                None => None,
            }
        } else {
            Some(env)
        },
    }
}

/// The environment after the given lines, taken in order, or nothing where
/// one of them cannot be read.
pub open spec fn apply_lines(env: SubnetEnvView, lines: Seq<Seq<char>>) -> Option<SubnetEnvView>
    decreases lines.len(),
{
    if lines.len() == 0 {
        Some(env)
    } else {
        match apply_lines(env, lines.drop_last()) {
            Some(e) => apply_line(e, lines.last()),
            None => None,
        }
    }
}

/// The IPv4 networks of a list separated by commas.
fn parse_v4_list(v: &str) -> (r: Result<Vec<Ipv4Network>, Error>)
    ensures
        match r {
            Ok(l) => v4_list(split_text(v@, ',')) == Some(l@),
            Err(e) => v4_list(split_text(v@, ',')).is_none() && e.kind == ErrorKind::Config,
        },
{
    let items = split(v, ',');
    let ghost all = texts(items@);
    let mut out: Vec<Ipv4Network> = Vec::new();
    let mut i: usize = 0;
    assert(all.take(0) =~= Seq::<Seq<char>>::empty());
    while i < items.len()
        invariant
            i <= items.len(),
            all == texts(items@),
            all == split_text(v@, ','),
            v4_list(all.take(i as int)) == Some(out@),
        decreases items.len() - i,
    {
        proof {
            assert(all.take(i + 1).drop_last() =~= all.take(i as int));
            assert(all.take(i + 1).last() == items@[i as int]@);
        }
        match Ipv4Network::from_str(items[i].as_str()) {
            Ok(n) => out.push(n),
            Err(e) => {
                proof {
                    lemma_v4_list_stops(all, i + 1);
                }
                return Err(e);
            },
        }
        i = i + 1;
    }
    assert(all.take(i as int) =~= all);
    Ok(out)
}

/// A list with an item that denotes no network denotes no list of networks.
proof fn lemma_v4_list_stops(items: Seq<Seq<char>>, n: int)
    requires
        0 <= n <= items.len(),
        v4_list(items.take(n)).is_none(),
    ensures
        v4_list(items).is_none(),
    decreases items.len(),
{
    if n == items.len() {
        assert(items.take(n) =~= items);
    } else {
        assert(items.drop_last().take(n) =~= items.take(n));
        lemma_v4_list_stops(items.drop_last(), n);
    }
}

/// The IPv6 networks of a list separated by commas.
fn parse_v6_list(v: &str) -> (r: Result<Vec<Ipv6Network>, Error>)
    ensures
        match r {
            Ok(l) => v6_list(split_text(v@, ',')) == Some(l@),
            Err(e) => v6_list(split_text(v@, ',')).is_none() && e.kind == ErrorKind::Config,
        },
{
    let items = split(v, ',');
    let ghost all = texts(items@);
    let mut out: Vec<Ipv6Network> = Vec::new();
    let mut i: usize = 0;
    assert(all.take(0) =~= Seq::<Seq<char>>::empty());
    while i < items.len()
        invariant
            i <= items.len(),
            all == texts(items@),
            all == split_text(v@, ','),
            v6_list(all.take(i as int)) == Some(out@),
        decreases items.len() - i,
    {
        proof {
            assert(all.take(i + 1).drop_last() =~= all.take(i as int));
            assert(all.take(i + 1).last() == items@[i as int]@);
        }
        match Ipv6Network::from_str(items[i].as_str()) {
            Ok(n) => out.push(n),
            Err(e) => {
                proof {
                    lemma_v6_list_stops(all, i + 1);
                }
                return Err(e);
            },
        }
        i = i + 1;
    }
    assert(all.take(i as int) =~= all);
    Ok(out)
}

/// A list with an item that denotes no network denotes no list of networks.
proof fn lemma_v6_list_stops(items: Seq<Seq<char>>, n: int)
    requires
        0 <= n <= items.len(),
        v6_list(items.take(n)).is_none(),
    ensures
        v6_list(items).is_none(),
    decreases items.len(),
{
    if n == items.len() {
        assert(items.take(n) =~= items);
    } else {
        assert(items.drop_last().take(n) =~= items.take(n));
        lemma_v6_list_stops(items.drop_last(), n);
    }
}

/// The truth value that a text denotes.
fn parse_bool(v: &str) -> (r: Option<bool>)
    ensures
        r == bool_of_text(v@),
{
    if str_eq(v, "true") {
        Some(true)
    } else if str_eq(v, "false") {
        Some(false)
    } else {
        None
    }
}

/// Takes one line into the environment.
fn take_line(env: &mut SubnetEnv, line: &str) -> (r: Result<(), Error>)
    ensures
        match r {
            Ok(()) => apply_line(old(env)@, line@) == Some(final(env)@),
            Err(e) => apply_line(old(env)@, line@).is_none() && e.kind == ErrorKind::Config,
        },
{
    let (k, v) = match split_once(line, '=') {
        Some(kv) => kv,
        None => {
            return Ok(());
        },
    };
    let k = k.as_str();
    let v = v.as_str();
    if str_eq(k, "FLANNEL_NETWORK") {
        match parse_v4_list(v) {
            Ok(l) => {
                env.nws = l;
            },
            Err(e) => {
                return Err(e);
            },
        }
    } else if str_eq(k, "FLANNEL_IPV6_NETWORK") {
        match parse_v6_list(v) {
            Ok(l) => {
                env.ip6_nws = l;
            },
            Err(e) => {
                return Err(e);
            },
        }
    } else if str_eq(k, "FLANNEL_SUBNET") {
        match Ipv4Network::from_str(v) {
            Ok(sn) => {
                let subnet = Ipv4Network::new(sn.network(), sn.prefix()).unwrap();
                env.sn = Some(subnet);
            },
            Err(e) => {
                return Err(e);
            },
        }
    } else if str_eq(k, "FLANNEL_IPV6_SUBNET") {
        match Ipv6Network::from_str(v) {
            Ok(sn) => {
                let subnet = Ipv6Network::new(sn.network(), sn.prefix()).unwrap();
                env.ip6_sn = Some(subnet);
            },
            Err(e) => {
                return Err(e);
            },
        }
    } else if str_eq(k, "FLANNEL_MTU") {
        match parse_u32(v) {
            Some(mtu) => {
                env.mtu = Some(mtu);
            },
            None => {
                return Err(Error::new(ErrorKind::Config, "invalid FLANNEL_MTU"));
            },
        }
    } else if str_eq(k, "FLANNEL_IPMASQ") {
        match parse_bool(v) {
            Some(b) => {
                env.ipmasq = Some(b);
            },
            None => {
                return Err(Error::new(ErrorKind::Config, "invalid FLANNEL_IPMASQ"));
            },
        }
    }
    Ok(())
}

/// A line without the carriage return at its end, if it has one.
fn without_cr(s: &str) -> (r: String)
    ensures
        r@ == strip_cr(s@),
{
    let n = s.unicode_len();
    if n > 0 && s.get_char(n - 1) == '\r' {
        proof {
            assert(s@.subrange(0, n - 1) =~= s@.drop_last());
        }
        String::from_str(s.substring_char(0, n - 1))
    } else {
        String::from_str(s)
    }
}

/// Reads the environment file of the overlay daemon from its content. A
/// known key with a value that cannot be read is a `Config` error.
pub fn load_flannel_subnet_env(content: &str) -> (r: Result<SubnetEnv, Error>)
    ensures
        match r {
            Ok(env) => apply_lines(empty_env(), lines_of(content@)) == Some(env@),
            Err(e) => apply_lines(empty_env(), lines_of(content@)).is_none() && e.kind
                == ErrorKind::Config,
        },
{
    let mut env = SubnetEnv {
        nws: Vec::new(),
        sn: None,
        ip6_nws: Vec::new(),
        ip6_sn: None,
        mtu: None,
        ipmasq: None,
    };
    let pieces = split(content, '\n');
    proof {
        crate::text::lemma_split_nonempty(content@, '\n');
    }
    let ghost all = texts(pieces@);
    let ghost ended = all.drop_last().map_values(|p: Seq<char>| strip_cr(p));
    let last = pieces.len() - 1;
    let mut i: usize = 0;
    assert(ended.take(0) =~= Seq::<Seq<char>>::empty());
    while i < last
        invariant
            i <= last,
            last == pieces.len() - 1,
            all == texts(pieces@),
            all == split_text(content@, '\n'),
            ended == all.drop_last().map_values(|p: Seq<char>| strip_cr(p)),
            apply_lines(empty_env(), ended.take(i as int)) == Some(env@),
        decreases last - i,
    {
        let line = without_cr(pieces[i].as_str());
        proof {
            assert(ended.take(i + 1).drop_last() =~= ended.take(i as int));
            assert(ended.take(i + 1).last() == line@);
        }
        match take_line(&mut env, line.as_str()) {
            Ok(()) => {},
            Err(e) => {
                proof {
                    lemma_lines_stop(empty_env(), ended, i + 1);
                    if all.last().len() != 0 {
                        assert(ended.push(all.last()).drop_last() =~= ended);
                    }
                }
                return Err(e);
            },
        }
        i = i + 1;
    }
    assert(ended.take(i as int) =~= ended);
    if pieces[last].as_str().unicode_len() > 0 {
        proof {
            assert(ended.push(all.last()).drop_last() =~= ended);
            assert(all.last() == pieces@[last as int]@);
        }
        match take_line(&mut env, pieces[last].as_str()) {
            Ok(()) => {},
            Err(e) => {
                return Err(e);
            },
        }
    }
    Ok(env)
}

/// Lines of which a leading part cannot be read cannot be read.
proof fn lemma_lines_stop(env: SubnetEnvView, lines: Seq<Seq<char>>, n: int)
    requires
        0 <= n <= lines.len(),
        apply_lines(env, lines.take(n)).is_none(),
    ensures
        apply_lines(env, lines).is_none(),
    decreases lines.len(),
{
    if n == lines.len() {
        assert(lines.take(n) =~= lines);
    } else {
        assert(lines.drop_last().take(n) =~= lines.take(n));
        lemma_lines_stop(env, lines.drop_last(), n);
    }
}

/// The address-management section of a configuration, as members of an object.
pub type Ipam = Members;

/// The configuration of the overlay plugin.
#[derive(Debug)]
pub struct NetConf {
    pub cni_version: String,
    pub name: String,
    pub plugin: String,
    /// The environment file of the overlay daemon.
    pub subnet_file: Option<String>,
    pub data_dir: Option<String>,
    /// The configuration that is handed on, as far as it is given.
    pub delegate: Option<Members>,
    pub ipam: Option<Ipam>,
    pub runtime_config: Option<Members>,
}

/// The characters of a text that is given, or else of the other one.
pub open spec fn text_or(given: Option<String>, other: Seq<char>) -> Seq<char> {
    match given {
        Some(s) => s@,
        None => other,
    }
}

/// The members of an object that is given, none where none is given.
pub open spec fn given_members(m: Option<Members>) -> Seq<(Seq<char>, ValueView)> {
    match m {
        Some(m) => members_view(m@),
        None => Seq::<(Seq<char>, ValueView)>::empty(),
    }
}

/// Fills in where the environment file and the data are kept, for a
/// configuration that does not say.
pub fn load_flannel_net_conf(n: NetConf) -> (r: NetConf)
    ensures
        r.subnet_file.is_some() && r.subnet_file.unwrap()@ == text_or(
            n.subnet_file,
            DEFAULT_SUBNET_FILE@,
        ),
        r.data_dir.is_some() && r.data_dir.unwrap()@ == text_or(n.data_dir, DEFAULT_DATA_DIR@),
        r.cni_version == n.cni_version,
        r.name == n.name,
        r.plugin == n.plugin,
        r.delegate == n.delegate,
        r.ipam == n.ipam,
        r.runtime_config == n.runtime_config,
{
    let mut n = n;
    if n.subnet_file.is_none() {
        n.subnet_file = Some(String::from_str(DEFAULT_SUBNET_FILE));
    }
    if n.data_dir.is_none() {
        n.data_dir = Some(String::from_str(DEFAULT_DATA_DIR));
    }
    n
}

/// The ranges to give addresses out of: one set with the subnet of this
/// host, or none where the host has no subnet.
pub open spec fn subnet_ranges(sn: Option<Ipv4Network>) -> ValueView {
    ValueView::Array(
        match sn {
            Some(n) => seq![
                ValueView::Array(
                    seq![ValueView::Object(seq![("subnet"@, ValueView::String(n.text()))])],
                ),
            ],
            None => Seq::<ValueView>::empty(),
        },
    )
}

/// The route to one network of the overlay.
pub open spec fn network_route(n: Ipv4Network) -> ValueView {
    ValueView::Object(seq![("dst"@, ValueView::String(n.text()))])
}

/// The routes to the networks of the overlay, in their order.
pub open spec fn network_routes(nws: Seq<Ipv4Network>) -> ValueView {
    ValueView::Array(nws.map_values(|n: Ipv4Network| network_route(n)))
}

/// The address-management section that is handed on: the one given, with
/// the local address plugin where it names none, and with the ranges and the
/// routes of the overlay.
pub open spec fn delegate_ipam(ipam: Seq<(Seq<char>, ValueView)>, env: SubnetEnvView) -> Seq<
    (Seq<char>, ValueView),
> {
    with_member(
        with_member(
            with_default(ipam, "type"@, ValueView::String("host-local"@)),
            "ranges"@,
            subnet_ranges(env.sn),
        ),
        "routes"@,
        network_routes(env.nws),
    )
}

/// Makes the address-management section that is handed on and puts it into
/// the configuration.
pub fn get_delegate_ipam(n: &mut NetConf, subnet_env: &SubnetEnv) -> (r: Result<(), Error>)
    ensures
        r is Ok,
        final(n).ipam.is_some(),
        members_view(final(n).ipam.unwrap()@) == delegate_ipam(
            given_members(old(n).ipam),
            subnet_env@,
        ),
        final(n).cni_version == old(n).cni_version,
        final(n).name == old(n).name,
        final(n).plugin == old(n).plugin,
        final(n).subnet_file == old(n).subnet_file,
        final(n).data_dir == old(n).data_dir,
        final(n).delegate == old(n).delegate,
        final(n).runtime_config == old(n).runtime_config,
{
    let mut ipam: Members = match n.ipam.take() {
        Some(ipam) => ipam,
        None => Vec::new(),
    };
    assert(members_view(ipam@) =~= given_members(old(n).ipam));
    or_insert(&mut ipam, "type", Value::String(String::from_str("host-local")));
    let mut ranges: Vec<Value> = Vec::new();
    match &subnet_env.sn {
        Some(sn) => {
            let mut subnet: Members = Vec::new();
            subnet.push((String::from_str("subnet"), Value::String(sn.to_string())));
            let mut set: Vec<Value> = Vec::new();
            set.push(Value::Object(subnet));
            ranges.push(Value::Array(set));
            proof {
                lemma_object_view(subnet);
                lemma_array_view(set);
                assert(members_view(subnet@) =~= seq![("subnet"@, ValueView::String(sn.text()))]);
                assert(items_view(set@) =~= seq![
                    ValueView::Object(seq![("subnet"@, ValueView::String(sn.text()))]),
                ]);
            }
        },
        None => {},
    }
    proof {
        lemma_array_view(ranges);
        assert(items_view(ranges@) =~= subnet_ranges(subnet_env.sn)->Array_0);
    }
    insert(&mut ipam, "ranges", Value::Array(ranges));
    let mut routes: Vec<Value> = Vec::new();
    let mut i: usize = 0;
    while i < subnet_env.nws.len()
        invariant
            i <= subnet_env.nws.len(),
            items_view(routes@) == subnet_env.nws@.take(i as int).map_values(
                |n: Ipv4Network| network_route(n),
            ),
        decreases subnet_env.nws.len() - i,
    {
        let ghost before = items_view(routes@);
        let mut route: Members = Vec::new();
        route.push((String::from_str("dst"), Value::String(subnet_env.nws[i].to_string())));
        proof {
            lemma_object_view(route);
            assert(members_view(route@) =~= seq![
                ("dst"@, ValueView::String(subnet_env.nws@[i as int].text())),
            ]);
        }
        routes.push(Value::Object(route));
        assert(items_view(routes@) =~= before.push(network_route(subnet_env.nws@[i as int])));
        assert(subnet_env.nws@.take(i + 1).map_values(|n: Ipv4Network| network_route(n))
            =~= subnet_env.nws@.take(i as int).map_values(|n: Ipv4Network| network_route(n)).push(
            network_route(subnet_env.nws@[i as int]),
        ));
        i = i + 1;
    }
    proof {
        assert(subnet_env.nws@.take(i as int) =~= subnet_env.nws@);
        lemma_array_view(routes);
    }
    insert(&mut ipam, "routes", Value::Array(routes));
    n.ipam = Some(ipam);
    Ok(())
}

/// Whether a configuration cannot be handed on. A delegate that is given
/// must name its plugin by a string and must carry a name and an
/// address-management section; the environment must give the packet size;
/// and it must say whether it masquerades unless the delegate says whether
/// to.
pub open spec fn delegate_faulty(delegate: Option<Members>, env: SubnetEnvView) -> bool {
    let d = given_members(delegate);
    ||| delegate.is_some() && !(member(d, "type"@) matches Some(ValueView::String(_)))
    ||| delegate.is_some() && !has_member(d, "name"@)
    ||| delegate.is_some() && !has_member(d, "ipam"@)
    ||| env.ipmasq.is_none() && !has_member(d, "ipMasq"@)
    ||| env.mtu.is_none()
}

/// The delegate with everything but the address-management section filled
/// in: the name of the network; the bridge plugin where it names none;
/// masquerading where the overlay does none, and the packet size of the
/// overlay, unless it says otherwise; for the bridge plugin, that it is a
/// gateway unless it says otherwise; and the version of the configuration
/// where it has one.
pub open spec fn delegate_base(
    d: Seq<(Seq<char>, ValueView)>,
    name: Seq<char>,
    cni_version: Seq<char>,
    env: SubnetEnvView,
) -> Seq<(Seq<char>, ValueView)> {
    let d1 = with_member(d, "name"@, ValueView::String(name));
    let d2 = with_default(d1, "type"@, ValueView::String("bridge"@));
    let d3 = with_default(d2, "ipMasq"@, ValueView::Bool(!env.ipmasq.unwrap()));
    let d4 = with_default(d3, "mtu"@, ValueView::Number(env.mtu.unwrap() as u64));
    let d5 = if member(d4, "type"@) == Some(ValueView::String("bridge"@)) {
        with_default(d4, "isGateway"@, ValueView::Bool(true))
    } else {
        d4
    };
    if cni_version.len() > 0 {
        with_member(d5, "cniVersion"@, ValueView::String(cni_version))
    } else {
        d5
    }
}

/// The configuration that is handed on.
pub open spec fn delegate_conf(n: NetConf, env: SubnetEnvView) -> Seq<(Seq<char>, ValueView)> {
    with_member(
        delegate_base(given_members(n.delegate), n.name@, n.cni_version@, env),
        "ipam"@,
        ValueView::Object(delegate_ipam(given_members(n.ipam), env)),
    )
}

/// What is handed on: the plugin that does the work, and its configuration.
#[derive(Debug)]
pub struct Delegation {
    pub plugin: String,
    pub conf: Members,
}

/// Makes the configuration that is handed on to the plugin that does the
/// work, from the configuration of the overlay plugin and the environment
/// of the overlay daemon. A configuration that cannot be handed on is a
/// `Config` error.
pub fn cmd_add(net_conf: NetConf, subnet_env: &SubnetEnv) -> (r: Result<Delegation, Error>)
    ensures
        match r {
            Ok(d) => !delegate_faulty(net_conf.delegate, subnet_env@) && members_view(d.conf@)
                == delegate_conf(net_conf, subnet_env@) && member(
                delegate_conf(net_conf, subnet_env@),
                "type"@,
            ) == Some(ValueView::String(d.plugin@)),
            Err(e) => delegate_faulty(net_conf.delegate, subnet_env@) && e.kind
                == ErrorKind::Config,
        },
{
    let mut net_conf = net_conf;
    let ghost given = net_conf;
    let ghost env = subnet_env@;
    let ghost d = given_members(given.delegate);
    let mut delegate: Members = match net_conf.delegate.take() {
        None => Vec::new(),
        Some(delegate) => {
            if !is_string(&delegate, "type") {
                return Err(
                    Error::new(
                        ErrorKind::Config,
                        "'delegate' dictionary, if present, must have (string) 'type' field",
                    ),
                );
            }
            if !contains_key(&delegate, "name") {
                return Err(
                    Error::new(ErrorKind::Config, "'delegate' dictionary must have 'name' field"),
                );
            }
            if !contains_key(&delegate, "ipam") {
                return Err(
                    Error::new(ErrorKind::Config, "'delegate' dictionary must have 'ipam' field"),
                );
            }
            delegate
        },
    };
    assert(members_view(delegate@) =~= d);
    let mtu = match subnet_env.mtu {
        Some(mtu) => mtu,
        None => {
            return Err(Error::new(ErrorKind::Config, "the overlay gives no packet size"));
        },
    };
    proof {
        lemma_names_differ();
    }
    insert(&mut delegate, "name", Value::String(net_conf.name.clone()));
    let ghost d1 = members_view(delegate@);
    or_insert(&mut delegate, "type", Value::String(String::from_str("bridge")));
    let ghost d2 = members_view(delegate@);
    proof {
        lemma_with_member(d, "name"@, ValueView::String(given.name@), "ipMasq"@);
        lemma_with_member(d, "name"@, ValueView::String(given.name@), "type"@);
        lemma_with_default(d1, "type"@, ValueView::String("bridge"@), "ipMasq"@);
        if given.delegate.is_none() {
            assert(!has_member(d, "type"@)) by {
                if has_member(d, "type"@) {
                    let i = choose|i: int| crate::json::member_at(d, "type"@, i);
                    assert(crate::json::member_at(d, "type"@, i));
                }
            }
        }
        assert(member(d2, "type"@) matches Some(ValueView::String(_)));
    }
    if !contains_key(&delegate, "ipMasq") {
        match subnet_env.ipmasq {
            Some(ipmasq) => {
                or_insert(&mut delegate, "ipMasq", Value::Bool(!ipmasq));
            },
            None => {
                return Err(
                    Error::new(ErrorKind::Config, "the overlay does not say whether it masquerades"),
                );
            },
        }
    }
    let ghost d3 = members_view(delegate@);
    assert(d3 == with_default(d2, "ipMasq"@, ValueView::Bool(!env.ipmasq.unwrap())));
    or_insert(&mut delegate, "mtu", Value::Number(mtu as u64));
    let ghost d4 = members_view(delegate@);
    proof {
        lemma_with_default(d2, "ipMasq"@, ValueView::Bool(!env.ipmasq.unwrap()), "type"@);
        lemma_with_default(d3, "mtu"@, ValueView::Number(mtu as u64), "type"@);
    }
    let plugin = match get_str(&delegate, "type") {
        Some(plugin) => plugin,
        None => {
            return Err(Error::new(ErrorKind::Config, "the delegate names no plugin"));
        },
    };
    if str_eq(plugin.as_str(), "bridge") {
        or_insert(&mut delegate, "isGateway", Value::Bool(true));
    }
    let ghost d5 = members_view(delegate@);
    if net_conf.cni_version.as_str().unicode_len() > 0 {
        insert(&mut delegate, "cniVersion", Value::String(net_conf.cni_version.clone()));
    }
    let ghost d6 = members_view(delegate@);
    assert(d6 == delegate_base(d, given.name@, given.cni_version@, env));
    let _ = get_delegate_ipam(&mut net_conf, subnet_env);
    let ipam: Members = match net_conf.ipam.take() {
        Some(ipam) => ipam,
        None => Vec::new(),
    };
    proof {
        lemma_object_view(ipam);
        lemma_with_default(d4, "isGateway"@, ValueView::Bool(true), "type"@);
        lemma_with_member(d5, "cniVersion"@, ValueView::String(given.cni_version@), "type"@);
        lemma_with_member(
            d6,
            "ipam"@,
            ValueView::Object(delegate_ipam(given_members(given.ipam), env)),
            "type"@,
        );
    }
    insert(&mut delegate, "ipam", Value::Object(ipam));
    Ok(Delegation { plugin, conf: delegate })
}

/// The names of the members that are filled in all differ from `type`.
proof fn lemma_names_differ()
    ensures
        "name"@ != "type"@,
        "ipMasq"@ != "type"@,
        "mtu"@ != "type"@,
        "isGateway"@ != "type"@,
        "cniVersion"@ != "type"@,
        "ipam"@ != "type"@,
        "ipMasq"@ != "name"@,
{
    reveal_strlit("name");
    reveal_strlit("type");
    reveal_strlit("ipMasq");
    reveal_strlit("mtu");
    reveal_strlit("isGateway");
    reveal_strlit("cniVersion");
    reveal_strlit("ipam");
    assert("name"@[0] != "type"@[0]);
    assert("ipam"@[0] != "type"@[0]);
    assert("ipMasq"@.len() == 6 && "mtu"@.len() == 3 && "isGateway"@.len() == 9 && "cniVersion"@.len()
        == 10 && "type"@.len() == 4 && "name"@.len() == 4);
}

} // verus!
