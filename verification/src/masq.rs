//! Masquerading of what leaves a network: the chain and the three rules that
//! one assigned address needs in the packet filter.

use vstd::prelude::*;
use crate::addr::{Family, IpNetwork};
use crate::text::str_eq;

verus! {

/// The IPv4 multicast range.
pub const IP_V4_MULTICAST_NET: &'static str = "224.0.0.0/4";

/// The IPv6 multicast range.
pub const IP_V6_MULTICAST_NET: &'static str = "ff00::/8";

/// The table that holds the rules.
pub const NAT_TABLE: &'static str = "nat";

/// The chain that every packet passes after routing.
pub const POSTROUTING: &'static str = "POSTROUTING";

/// One change of the packet filter of a family.
#[derive(Clone, Debug)]
pub enum FilterAction {
    /// Creates a chain.
    NewChain { ipv6: bool, table: String, chain: String },
    /// Appends a rule to a chain unless the chain holds that rule already.
    AppendUnique { ipv6: bool, table: String, chain: String, rule: String },
}

/// What a `FilterAction` holds, as mathematical values.
pub enum FilterActionView {
    NewChain { ipv6: bool, table: Seq<char>, chain: Seq<char> },
    AppendUnique { ipv6: bool, table: Seq<char>, chain: Seq<char>, rule: Seq<char> },
}

impl View for FilterAction {
    type V = FilterActionView;

    open spec fn view(&self) -> FilterActionView {
        match self {
            FilterAction::NewChain { ipv6, table, chain } => FilterActionView::NewChain {
                ipv6: *ipv6,
                table: table@,
                chain: chain@,
            },
            FilterAction::AppendUnique { ipv6, table, chain, rule } => FilterActionView::AppendUnique {
                ipv6: *ipv6,
                table: table@,
                chain: chain@,
                rule: rule@,
            },
        }
    }
}

/// What each action of a list holds.
pub open spec fn actions_view(actions: Seq<FilterAction>) -> Seq<FilterActionView> {
    actions.map_values(|a: FilterAction| a@)
}

/// The names of a list of chains.
pub open spec fn names(chains: Seq<String>) -> Seq<Seq<char>> {
    chains.map_values(|c: String| c@)
}

/// The multicast range of a family.
pub open spec fn multicast_net(f: Family) -> Seq<char> {
    if f == Family::V4 {
        IP_V4_MULTICAST_NET@
    } else {
        IP_V6_MULTICAST_NET@
    }
}

/// The rule that leaves traffic to the assigned network alone.
pub open spec fn accept_rule(ip: IpNetwork) -> Seq<char> {
    "-d "@ + ip.text() + " -j ACCEPT"@
}

/// The rule that masquerades everything but multicast traffic.
pub open spec fn masquerade_rule(f: Family) -> Seq<char> {
    "! -d "@ + multicast_net(f) + " -j MASQUERADE"@
}

/// The rule that sends what comes from the assigned address to a chain.
pub open spec fn jump_rule(ip: IpNetwork, chain: Seq<char>) -> Seq<char> {
    "-s "@ + ip.spec_ip().text() + " -j "@ + chain
}

/// The rules of one assigned address: in its own chain, traffic to the
/// assigned network is accepted and everything else but multicast is
/// masqueraded; after routing, what comes from the address goes to the chain.
pub open spec fn masq_rules(ip: IpNetwork, chain: Seq<char>) -> Seq<FilterActionView> {
    let v6 = ip.family() == Family::V6;
    seq![
        FilterActionView::AppendUnique {
            ipv6: v6,
            table: NAT_TABLE@,
            chain: chain,
            rule: accept_rule(ip),
        },
        FilterActionView::AppendUnique {
            ipv6: v6,
            table: NAT_TABLE@,
            chain: chain,
            rule: masquerade_rule(ip.family()),
        },
        FilterActionView::AppendUnique {
            ipv6: v6,
            table: NAT_TABLE@,
            chain: POSTROUTING@,
            rule: jump_rule(ip, chain),
        },
    ]
}

/// The changes that set up masquerading for one assigned address: the chain
/// is created unless the table lists it, and the three rules follow.
pub open spec fn masq_plan(ip: IpNetwork, chain: Seq<char>, chains: Seq<Seq<char>>) -> Seq<
    FilterActionView,
> {
    if chains.contains(chain) {
        masq_rules(ip, chain)
    } else {
        seq![
            FilterActionView::NewChain {
                ipv6: ip.family() == Family::V6,
                table: NAT_TABLE@,
                chain: chain,
            },
        ] + masq_rules(ip, chain)
    }
}

/// Whether a list of chains holds a name.
fn lists_chain(chains: &Vec<String>, chain_name: &str) -> (b: bool)
    ensures
        b == names(chains@).contains(chain_name@),
{
    let mut i: usize = 0;
    while i < chains.len()
        invariant
            i <= chains.len(),
            forall|j: int| 0 <= j < i ==> (#[trigger] chains@[j])@ != chain_name@,
        decreases chains.len() - i,
    {
        if str_eq(chains[i].as_str(), chain_name) {
            assert(names(chains@)[i as int] == chain_name@);
            return true;
        }
        i = i + 1;
    }
    assert forall|j: int| 0 <= j < names(chains@).len() implies names(chains@)[j] != chain_name@ by {
        assert(names(chains@)[j] == chains@[j]@);
    }
    false
}

/// The changes of the packet filter that set up masquerading for the
/// assigned address `ip` in the chain `chain_name`, given the chains that the
/// `nat` table of the address's family lists.
pub fn setup_ip_masq(ip: &IpNetwork, chain_name: &str, chains: &Vec<String>) -> (plan: Vec<
    FilterAction,
>)
    ensures
        actions_view(plan@) == masq_plan(*ip, chain_name@, names(chains@)),
{
    let ipv6 = ip.is_ipv6();
    let multicast_net = if ip.is_ipv4() {
        IP_V4_MULTICAST_NET
    } else {
        IP_V6_MULTICAST_NET
    };
    let mut plan: Vec<FilterAction> = Vec::new();
    if !lists_chain(chains, chain_name) {
        plan.push(
            FilterAction::NewChain {
                ipv6,
                table: String::from_str(NAT_TABLE),
                chain: String::from_str(chain_name),
            },
        );
    }
    let mut accept = String::from_str("-d ");
    accept.append(ip.to_string().as_str());
    accept.append(" -j ACCEPT");
    plan.push(
        FilterAction::AppendUnique {
            ipv6,
            table: String::from_str(NAT_TABLE),
            chain: String::from_str(chain_name),
            rule: accept,
        },
    );
    let mut masquerade = String::from_str("! -d ");
    masquerade.append(multicast_net);
    masquerade.append(" -j MASQUERADE");
    plan.push(
        FilterAction::AppendUnique {
            ipv6,
            table: String::from_str(NAT_TABLE),
            chain: String::from_str(chain_name),
            rule: masquerade,
        },
    );
    let mut jump = String::from_str("-s ");
    jump.append(ip.ip().to_string().as_str());
    jump.append(" -j ");
    jump.append(chain_name);
    plan.push(
        FilterAction::AppendUnique {
            ipv6,
            table: String::from_str(NAT_TABLE),
            chain: String::from_str(POSTROUTING),
            rule: jump,
        },
    );
    assert(actions_view(plan@) =~= masq_plan(*ip, chain_name@, names(chains@)));
    plan
}

/// The packet filter of one family as far as masquerading goes: the chains
/// of the `nat` table, and the rules of each chain in their order.
pub struct FilterModel {
    pub chains: Seq<Seq<char>>,
    pub rules: Seq<(Seq<char>, Seq<char>)>,
}

/// The packet filter after one change: a chain is added to the chains, and
/// a rule is appended unless its chain holds it already.
pub open spec fn filter_after(f: FilterModel, action: FilterActionView) -> FilterModel {
    match action {
        FilterActionView::NewChain { chain, .. } => FilterModel {
            chains: f.chains.push(chain),
            ..f
        },
        FilterActionView::AppendUnique { chain, rule, .. } => if f.rules.contains((chain, rule)) {
            f
        } else {
            FilterModel { rules: f.rules.push((chain, rule)), ..f }
        },
    }
}

/// The packet filter after a list of changes, made in order.
pub open spec fn filter_after_all(f: FilterModel, actions: Seq<FilterActionView>) -> FilterModel
    decreases actions.len(),
{
    if actions.len() == 0 {
        f
    } else {
        filter_after(filter_after_all(f, actions.drop_last()), actions.last())
    }
}

/// The packet filter after masquerading was set up for an address.
pub open spec fn masqueraded(f: FilterModel, ip: IpNetwork, chain: Seq<char>) -> FilterModel {
    filter_after_all(f, masq_plan(ip, chain, f.chains))
}

/// Setting up masquerading is idempotent: after it was set up for an
/// address, the chain exists and holds its rules, and setting it up again
/// for the same address creates no chain and leaves the packet filter as it
/// is.
pub proof fn lemma_masquerade_idempotent(f: FilterModel, ip: IpNetwork, chain: Seq<char>)
    ensures
        masqueraded(f, ip, chain).chains.contains(chain),
        masqueraded(f, ip, chain).rules.contains((chain, accept_rule(ip))),
        masqueraded(f, ip, chain).rules.contains((chain, masquerade_rule(ip.family()))),
        masqueraded(f, ip, chain).rules.contains((POSTROUTING@, jump_rule(ip, chain))),
        masq_plan(ip, chain, masqueraded(f, ip, chain).chains) == masq_rules(ip, chain),
        masqueraded(masqueraded(f, ip, chain), ip, chain) == masqueraded(f, ip, chain),
{
    let rules = masq_rules(ip, chain);
    let once = masqueraded(f, ip, chain);
    let start = if f.chains.contains(chain) {
        f
    } else {
        FilterModel { chains: f.chains.push(chain), ..f }
    };
    assert(start.chains.contains(chain)) by {
        if !f.chains.contains(chain) {
            assert(start.chains[f.chains.len() as int] == chain);
        }
    }
    lemma_rules_applied(start, ip, chain);
    assert(once == filter_after_all(start, rules)) by {
        if !f.chains.contains(chain) {
            let first = FilterActionView::NewChain {
                ipv6: ip.family() == Family::V6,
                table: NAT_TABLE@,
                chain: chain,
            };
            lemma_first_then_rest(f, first, rules);
        }
    }
    lemma_rules_applied(once, ip, chain);
}

/// Changes made after a first one are made to what the first one leaves.
proof fn lemma_first_then_rest(f: FilterModel, first: FilterActionView, rest: Seq<FilterActionView>)
    ensures
        filter_after_all(f, seq![first] + rest) == filter_after_all(filter_after(f, first), rest),
    decreases rest.len(),
{
    reveal_with_fuel(filter_after_all, 2);
    let all = seq![first] + rest;
    if rest.len() == 0 {
        assert(all =~= seq![first]);
        assert(all.drop_last() =~= Seq::<FilterActionView>::empty());
        assert(all.last() == first);
    } else {
        lemma_first_then_rest(f, first, rest.drop_last());
        assert(all.drop_last() =~= seq![first] + rest.drop_last());
        assert(all.last() == rest.last());
    }
}

/// What the three rules of an address leave: the chains as they were, and
/// each rule in its chain; a filter that holds the three rules is left as it
/// is.
proof fn lemma_rules_applied(f: FilterModel, ip: IpNetwork, chain: Seq<char>)
    ensures
        filter_after_all(f, masq_rules(ip, chain)).chains == f.chains,
        filter_after_all(f, masq_rules(ip, chain)).rules.contains((chain, accept_rule(ip))),
        filter_after_all(f, masq_rules(ip, chain)).rules.contains(
            (chain, masquerade_rule(ip.family())),
        ),
        filter_after_all(f, masq_rules(ip, chain)).rules.contains(
            (POSTROUTING@, jump_rule(ip, chain)),
        ),
        f.rules.contains((chain, accept_rule(ip))) && f.rules.contains(
            (chain, masquerade_rule(ip.family())),
        ) && f.rules.contains((POSTROUTING@, jump_rule(ip, chain))) ==> filter_after_all(
            f,
            masq_rules(ip, chain),
        ) == f,
{
    let rules = masq_rules(ip, chain);
    let two = rules.drop_last();
    let one = two.drop_last();
    assert(one.drop_last() =~= Seq::<FilterActionView>::empty());
    reveal_with_fuel(filter_after_all, 4);
    let f1 = filter_after(f, rules[0]);
    let f2 = filter_after(f1, rules[1]);
    let f3 = filter_after(f2, rules[2]);
    assert(one.last() == rules[0] && two.last() == rules[1] && rules.last() == rules[2]);
    assert(filter_after_all(f, one) == f1);
    assert(filter_after_all(f, two) == f2);
    assert(filter_after_all(f, rules) == f3);
    lemma_kept(f, rules[0]);
    lemma_kept(f1, rules[1]);
    lemma_kept(f2, rules[2]);
    assert(f1.rules.contains((chain, accept_rule(ip))));
    assert(f2.rules.contains((chain, masquerade_rule(ip.family()))));
    assert(f3.rules.contains((POSTROUTING@, jump_rule(ip, chain))));
}

/// A change takes no chain and no rule away, and an appended rule is held
/// afterwards.
proof fn lemma_kept(f: FilterModel, action: FilterActionView)
    ensures
        forall|r: (Seq<char>, Seq<char>)|
            f.rules.contains(r) ==> #[trigger] filter_after(f, action).rules.contains(r),
        action is AppendUnique ==> filter_after(f, action).chains == f.chains && filter_after(
            f,
            action,
        ).rules.contains((action->AppendUnique_chain, action->AppendUnique_rule)),
{
    match action {
        FilterActionView::NewChain { .. } => {},
        FilterActionView::AppendUnique { chain, rule, .. } => {
            if !f.rules.contains((chain, rule)) {
                let after = f.rules.push((chain, rule));
                assert(after[f.rules.len() as int] == (chain, rule));
                assert forall|r: (Seq<char>, Seq<char>)| f.rules.contains(r) implies after.contains(
                    r,
                ) by {
                    let i = choose|i: int| 0 <= i < f.rules.len() && f.rules[i] == r;
                    assert(after[i] == r);
                }
            }
        },
    }
}

} // verus!
