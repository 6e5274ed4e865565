//! Putting a gateway address on the bridge: what has to be removed and added,
//! given the addresses that the bridge already has.

use vstd::prelude::*;
use crate::addr::{Family, IpNetwork};
use crate::error::{Error, ErrorKind};

verus! {

/// One change of the addresses of a device.
#[derive(Clone, Copy, Debug, PartialEq, Eq, Structural)]
pub enum AddrAction {
    Delete(IpNetwork),
    Add(IpNetwork),
}

/// Whether two networks overlap: one holds the address of the other.
pub open spec fn overlaps(a: IpNetwork, b: IpNetwork) -> bool {
    a.spec_contains(b.spec_ip()) || b.spec_contains(a.spec_ip())
}

/// Whether an address of the bridge stands in the way of a candidate: it is
/// of the candidate's family, has another IP, and either the family is IPv4,
/// which allows one address only, or the two networks overlap.
pub open spec fn conflicts(existing: IpNetwork, candidate: IpNetwork) -> bool {
    &&& existing.family() == candidate.family()
    &&& existing.spec_ip() != candidate.spec_ip()
    &&& (candidate.family() == Family::V4 || overlaps(existing, candidate))
}

/// Whether the bridge already has the IP of the candidate.
pub open spec fn present(existing: Seq<IpNetwork>, candidate: IpNetwork) -> bool {
    exists|i: int| 0 <= i < existing.len() && (#[trigger] existing[i]).spec_ip() == candidate.spec_ip()
}

/// Whether some address of the bridge stands in the way of the candidate.
pub open spec fn conflicted(existing: Seq<IpNetwork>, candidate: IpNetwork) -> bool {
    exists|i: int| 0 <= i < existing.len() && conflicts(#[trigger] existing[i], candidate)
}

/// The removal of every address that stands in the way of the candidate, in
/// the order of the addresses.
pub open spec fn removals(existing: Seq<IpNetwork>, candidate: IpNetwork) -> Seq<AddrAction> {
    existing.filter_map(
        |a: IpNetwork|
            if conflicts(a, candidate) {
                Some(AddrAction::Delete(a))
            } else {
                None
            },
    )
}

/// The changes that put the candidate on the bridge, or none where an
/// address stands in its way and may not be removed: nothing where the
/// bridge has the candidate's IP already; else the removal of what stands in
/// the way, and then the candidate itself.
pub open spec fn reconcile(existing: Seq<IpNetwork>, candidate: IpNetwork, force: bool) -> Option<
    Seq<AddrAction>,
> {
    if present(existing, candidate) {
        Some(Seq::<AddrAction>::empty())
    } else if conflicted(existing, candidate) && !force {
        None
    } else {
        Some(removals(existing, candidate).push(AddrAction::Add(candidate)))
    }
}

/// The addresses of a device after one change: a removal takes away every
/// entry equal to the address, an addition appends it.
pub open spec fn apply(addrs: Seq<IpNetwork>, action: AddrAction) -> Seq<IpNetwork> {
    match action {
        AddrAction::Delete(a) => addrs.filter(|x: IpNetwork| x != a),
        AddrAction::Add(a) => addrs.push(a),
    }
}

/// The addresses of a device after a list of changes, made in order.
pub open spec fn apply_all(addrs: Seq<IpNetwork>, actions: Seq<AddrAction>) -> Seq<IpNetwork>
    decreases actions.len(),
{
    if actions.len() == 0 {
        addrs
    } else {
        apply(apply_all(addrs, actions.drop_last()), actions.last())
    }
}

/// Whether the bridge already has the IP of the candidate.
fn is_present(existing: &Vec<IpNetwork>, ip: &IpNetwork) -> (b: bool)
    ensures
        b == present(existing@, *ip),
{
    let mut i: usize = 0;
    while i < existing.len()
        invariant
            i <= existing.len(),
            forall|j: int| 0 <= j < i ==> (#[trigger] existing@[j]).spec_ip() != ip.spec_ip(),
        decreases existing.len() - i,
    {
        if existing[i].ip() == ip.ip() {
            return true;
        }
        i = i + 1;
    }
    false
}

/// Whether an address of the bridge stands in the way of a candidate.
fn is_conflict(existing: &IpNetwork, ip: &IpNetwork) -> (b: bool)
    ensures
        b == conflicts(*existing, *ip),
{
    existing.family() == ip.family() && existing.ip() != ip.ip() && (ip.family() == Family::V4
        || existing.contains(ip.ip()) || ip.contains(existing.ip()))
}

/// The changes that make sure the bridge `br_name` has the gateway address
/// `ip`, given the addresses `existing` that the bridge has in the family of
/// `ip`; addresses of the other family are left alone.
///
/// Nothing is changed where the bridge has that IP already. Else every
/// address that stands in the way is removed first, if `force_address`
/// allows it; if not, the result is an `AddressConflict` error that names the
/// bridge and the candidate.
pub fn ensure_addr(
    br_name: &str,
    existing: &Vec<IpNetwork>,
    ip: &IpNetwork,
    force_address: bool,
) -> (r: Result<Vec<AddrAction>, Error>)
    ensures
        match r {
            Ok(actions) => reconcile(existing@, *ip, force_address) == Some(actions@),
            Err(e) => reconcile(existing@, *ip, force_address).is_none() && e.kind
                == ErrorKind::AddressConflict && e.message@ == br_name@
                + " already has an IP address different from "@ + ip.text(),
        },
{
    if is_present(existing, ip) {
        return Ok(Vec::new());
    }
    let ghost pick = |a: IpNetwork|
        if conflicts(a, *ip) {
            Some(AddrAction::Delete(a))
        } else {
            None
        };
    let mut actions: Vec<AddrAction> = Vec::new();
    let mut i: usize = 0;
    while i < existing.len()
        invariant
            i <= existing.len(),
            pick == |a: IpNetwork|
                if conflicts(a, *ip) {
                    Some(AddrAction::Delete(a))
                } else {
                    None
                },
            actions@ == existing@.take(i as int).filter_map(pick),
            !present(existing@, *ip),
            !force_address ==> forall|j: int| 0 <= j < i ==> !conflicts(#[trigger] existing@[j], *ip),
        decreases existing.len() - i,
    {
        proof {
            existing@.lemma_filter_map_take_succ(pick, i as int);
        }
        if is_conflict(&existing[i], ip) {
            if !force_address {
                let mut message = String::from_str(br_name);
                message.append(" already has an IP address different from ");
                message.append(ip.to_string().as_str());
                assert(conflicts(existing@[i as int], *ip));
                assert(message@ =~= br_name@ + " already has an IP address different from "@
                    + ip.text());
                return Err(Error::new(ErrorKind::AddressConflict, message.as_str()));
            }
            actions.push(AddrAction::Delete(existing[i]));
        }
        i = i + 1;
    }
    proof {
        assert(existing@.take(i as int) =~= existing@);
        if conflicted(existing@, *ip) && !force_address {
            let k = choose|k: int| 0 <= k < existing.len() && conflicts(#[trigger] existing@[k], *ip);
            assert(!conflicts(existing@[k], *ip));
        }
    }
    actions.push(AddrAction::Add(*ip));
    Ok(actions)
}

/// The bridge that holds one address and nothing else.
pub open spec fn bridge_with(a: IpNetwork) -> Seq<IpNetwork> {
    apply_all(
        Seq::<IpNetwork>::empty(),
        reconcile(Seq::<IpNetwork>::empty(), a, false).unwrap(),
    )
}

/// Reconciling an address onto a bridge without addresses succeeds and
/// leaves the bridge with that address alone.
pub proof fn lemma_first_address(a: IpNetwork)
    ensures
        reconcile(Seq::<IpNetwork>::empty(), a, false) == Some(seq![AddrAction::Add(a)]),
        bridge_with(a) == seq![a],
{
    let none = Seq::<IpNetwork>::empty();
    assert(removals(none, a) =~= Seq::<AddrAction>::empty());
    assert(removals(none, a).push(AddrAction::Add(a)) =~= seq![AddrAction::Add(a)]);
    let actions = seq![AddrAction::Add(a)];
    assert(actions.drop_last() =~= Seq::<AddrAction>::empty());
    reveal_with_fuel(apply_all, 2);
    assert(apply_all(none, actions) =~= seq![a]);
}

/// What reconciling a second address does to a bridge that holds one
/// address with another IP: where the first stands in the way, nothing
/// without force, and with force the first is replaced by the second; where
/// it does not, the second joins the first.
proof fn lemma_second_address(a: IpNetwork, b: IpNetwork)
    requires
        a.spec_ip() != b.spec_ip(),
    ensures
        conflicts(a, b) ==> reconcile(seq![a], b, false).is_none(),
        conflicts(a, b) ==> reconcile(seq![a], b, true) == Some(
            seq![AddrAction::Delete(a), AddrAction::Add(b)],
        ),
        conflicts(a, b) ==> apply_all(seq![a], seq![AddrAction::Delete(a), AddrAction::Add(b)])
            == seq![b],
        !conflicts(a, b) ==> reconcile(seq![a], b, false) == Some(seq![AddrAction::Add(b)]),
        !conflicts(a, b) ==> apply_all(seq![a], seq![AddrAction::Add(b)]) == seq![a, b],
{
    let one = seq![a];
    let pick = |x: IpNetwork|
        if conflicts(x, b) {
            Some(AddrAction::Delete(x))
        } else {
            None
        };
    Seq::lemma_filter_map_singleton(a, pick);
    assert(!present(one, b)) by {
        if present(one, b) {
            let i = choose|i: int| 0 <= i < one.len() && (#[trigger] one[i]).spec_ip() == b.spec_ip();
            assert(one[i] == a);
        }
    }
    reveal_with_fuel(apply_all, 3);
    if conflicts(a, b) {
        assert(conflicts(one[0], b));
        assert(removals(one, b).push(AddrAction::Add(b)) =~= seq![
            AddrAction::Delete(a),
            AddrAction::Add(b),
        ]);
        let actions = seq![AddrAction::Delete(a), AddrAction::Add(b)];
        assert(actions.drop_last() =~= seq![AddrAction::Delete(a)]);
        assert(seq![AddrAction::Delete(a)].drop_last() =~= Seq::<AddrAction>::empty());
        assert(one.filter(|x: IpNetwork| x != a) =~= Seq::<IpNetwork>::empty()) by {
            reveal_with_fuel(Seq::filter, 2);
            assert(one.drop_last() =~= Seq::<IpNetwork>::empty());
        }
        assert(apply_all(one, actions) =~= seq![b]);
    } else {
        assert(!conflicted(one, b)) by {
            if conflicted(one, b) {
                let i = choose|i: int| 0 <= i < one.len() && conflicts(#[trigger] one[i], b);
                assert(one[i] == a);
            }
        }
        assert(removals(one, b).push(AddrAction::Add(b)) =~= seq![AddrAction::Add(b)]);
        let actions = seq![AddrAction::Add(b)];
        assert(actions.drop_last() =~= Seq::<AddrAction>::empty());
        assert(apply_all(one, actions) =~= seq![a, b]);
    }
}

/// The bridge has room for one IPv4 gateway only. Where it holds the IPv4
/// address `g1` and `g2` is an IPv4 address with another IP, reconciling
/// `g2` fails unless it is forced, and forced it removes `g1` and leaves `g2`.
pub proof fn lemma_ipv4_gateway_conflict(g1: IpNetwork, g2: IpNetwork)
    requires
        g1.family() == Family::V4,
        g2.family() == Family::V4,
        g1.spec_ip() != g2.spec_ip(),
    ensures
        reconcile(bridge_with(g1), g2, false).is_none(),
        reconcile(bridge_with(g1), g2, true).is_some(),
        !apply_all(bridge_with(g1), reconcile(bridge_with(g1), g2, true).unwrap()).contains(g1),
        apply_all(bridge_with(g1), reconcile(bridge_with(g1), g2, true).unwrap()).contains(g2),
{
    lemma_first_address(g1);
    lemma_second_address(g1, g2);
    assert(conflicts(g1, g2));
    let after = seq![g2];
    assert(after[0] == g2);
    assert(g1 != g2);
}

/// IPv6 networks share the bridge as long as they do not overlap. Where the
/// bridge holds the IPv6 address `s1` and `s2` is an IPv6 address whose
/// network does not overlap, reconciling `s2` adds it and removes nothing.
/// Where the networks overlap and the IPs differ, reconciling `s2` fails
/// unless it is forced, and forced it replaces `s1` by `s2`.
pub proof fn lemma_ipv6_coexistence(s1: IpNetwork, s2: IpNetwork)
    requires
        s1.family() == Family::V6,
        s2.family() == Family::V6,
    ensures
        !overlaps(s1, s2) ==> reconcile(bridge_with(s1), s2, false) == Some(
            seq![AddrAction::Add(s2)],
        ) && apply_all(bridge_with(s1), seq![AddrAction::Add(s2)]) == seq![s1, s2],
        overlaps(s1, s2) && s1.spec_ip() != s2.spec_ip() ==> reconcile(
            bridge_with(s1),
            s2,
            false,
        ).is_none() && reconcile(bridge_with(s1), s2, true) == Some(
            seq![AddrAction::Delete(s1), AddrAction::Add(s2)],
        ) && apply_all(bridge_with(s1), seq![AddrAction::Delete(s1), AddrAction::Add(s2)])
            == seq![s2],
{
    lemma_first_address(s1);
    if s1.spec_ip() != s2.spec_ip() {
        lemma_second_address(s1, s2);
    } else {
        assert(overlaps(s1, s2)) by {
            match (s1, s2) {
                (IpNetwork::V6(n1), IpNetwork::V6(n2)) => {
                    assert(n1.spec_contains(n2.spec_ip()));
                },
                _ => {},
            }
        }
    }
}

/// What the bridge holds after the addresses that stand in the way of a
/// candidate were removed, as far as the first `n` addresses were gone
/// through: what it held, without those of the first `n` that stand in the way.
proof fn lemma_removed(existing: Seq<IpNetwork>, candidate: IpNetwork, n: int)
    requires
        0 <= n <= existing.len(),
    ensures
        forall|x: IpNetwork| #[trigger]
            apply_all(existing, removals(existing.take(n), candidate)).contains(x) <==> (
            existing.contains(x) && !(conflicts(x, candidate) && existing.take(n).contains(x))),
    decreases n,
{
    let pick = |a: IpNetwork|
        if conflicts(a, candidate) {
            Some(AddrAction::Delete(a))
        } else {
            None
        };
    if n == 0 {
        assert(existing.take(0) =~= Seq::<IpNetwork>::empty());
        assert(removals(existing.take(0), candidate) =~= Seq::<AddrAction>::empty());
    } else {
        lemma_removed(existing, candidate, n - 1);
        existing.lemma_filter_map_take_succ(pick, n - 1);
        let last = existing[n - 1];
        let before = removals(existing.take(n - 1), candidate);
        let held = apply_all(existing, before);
        let shorter = existing.take(n - 1);
        let longer = existing.take(n);
        assert forall|y: IpNetwork| longer.contains(y) <==> (shorter.contains(y) || y
            == last) by {
            if longer.contains(y) {
                let i = choose|i: int| 0 <= i < longer.len() && longer[i] == y;
                if i < n - 1 {
                    assert(shorter[i] == y);
                }
            }
            if shorter.contains(y) {
                let i = choose|i: int| 0 <= i < shorter.len() && shorter[i] == y;
                assert(longer[i] == y);
            }
            assert(longer[n - 1] == last);
        }
        if conflicts(last, candidate) {
            let now = before.push(AddrAction::Delete(last));
            assert(removals(existing.take(n), candidate) =~= now);
            assert(now.drop_last() =~= before);
            let keep = |x: IpNetwork| x != last;
            assert(apply_all(existing, now) == held.filter(keep));
            assert forall|x: IpNetwork| #[trigger] held.filter(keep).contains(x) <==> (
            held.contains(x) && x != last) by {
                if held.filter(keep).contains(x) {
                    held.lemma_filter_contains_rev(keep, x);
                    let kept = held.filter(keep);
                    let i = choose|i: int| 0 <= i < kept.len() && kept[i] == x;
                    held.lemma_filter_pred(keep, i);
                }
                if held.contains(x) && x != last {
                    let j = choose|j: int| 0 <= j < held.len() && held[j] == x;
                    held.lemma_filter_contains(keep, j);
                }
            }
        } else {
            assert(removals(existing.take(n), candidate) =~= before);
        }
    }
}

/// What reconciling leaves on the bridge. Where the bridge does not have the
/// IP of the candidate and the changes are made, by force if need be, the
/// bridge holds the candidate afterwards; nothing that stood in its way is
/// left; and everything else that the bridge held is still there.
pub proof fn lemma_reconciled(existing: Seq<IpNetwork>, candidate: IpNetwork, force: bool)
    requires
        !present(existing, candidate),
        reconcile(existing, candidate, force).is_some(),
    ensures
        ({
            let after = apply_all(existing, reconcile(existing, candidate, force).unwrap());
            &&& after.contains(candidate)
            &&& !conflicted(after, candidate)
            &&& forall|x: IpNetwork|
                existing.contains(x) && !conflicts(x, candidate) ==> #[trigger] after.contains(x)
            &&& forall|x: IpNetwork| #[trigger]
                after.contains(x) ==> x == candidate || existing.contains(x)
        }),
{
    let gone = removals(existing, candidate);
    let actions = gone.push(AddrAction::Add(candidate));
    assert(actions.drop_last() =~= gone);
    lemma_removed(existing, candidate, existing.len() as int);
    assert(existing.take(existing.len() as int) =~= existing);
    let held = apply_all(existing, gone);
    let after = held.push(candidate);
    assert(apply_all(existing, actions) == after);
    assert(after[held.len() as int] == candidate);
    assert forall|x: IpNetwork| #[trigger] after.contains(x) <==> (held.contains(x) || x
        == candidate) by {
        if after.contains(x) {
            let i = choose|i: int| 0 <= i < after.len() && after[i] == x;
            if i < held.len() {
                assert(held[i] == x);
            }
        }
        if held.contains(x) {
            let i = choose|i: int| 0 <= i < held.len() && held[i] == x;
            assert(after[i] == x);
        }
    }
    assert(!conflicted(after, candidate)) by {
        if conflicted(after, candidate) {
            let i = choose|i: int| 0 <= i < after.len() && conflicts(#[trigger] after[i], candidate);
            assert(after.contains(after[i]));
        }
    }
}

/// Reconciling an address whose IP the bridge has already changes nothing,
/// whatever else the bridge holds and whether or not force is allowed.
pub proof fn lemma_present_address_is_kept(
    existing: Seq<IpNetwork>,
    candidate: IpNetwork,
    force: bool,
)
    requires
        present(existing, candidate),
    ensures
        reconcile(existing, candidate, force) == Some(Seq::<AddrAction>::empty()),
        apply_all(existing, reconcile(existing, candidate, force).unwrap()) == existing,
{
}

} // verus!
