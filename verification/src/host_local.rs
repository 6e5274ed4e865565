//! The configuration of the address plugin that gives addresses out of
//! ranges kept on the local host.

use vstd::prelude::*;
use crate::error::{Error, ErrorKind};
use crate::range::Range;
use crate::range_set::{canonical_set, sets_overlap, usable, RangeSet, RangeSetExt};
use crate::text::u32_to_string;
use crate::types::Route;

verus! {

/// The address-management section of a configuration.
#[derive(Clone, Debug)]
pub struct IPAMConfig {
    /// The name of the network; taken from the configuration around it.
    pub name: Option<String>,
    /// The sets of ranges; one address is given out of each set.
    pub ranges: Vec<RangeSet>,
    /// Where the given addresses are recorded.
    pub data_dir: Option<String>,
    pub routes: Option<Vec<Route>>,
}

/// A network configuration as far as the plugin reads it.
#[derive(Clone, Debug)]
pub struct Net {
    pub name: String,
    pub cni_version: String,
    pub ipam: IPAMConfig,
}

/// The ranges of each set of a list.
pub open spec fn sets_view(sets: Seq<RangeSet>) -> Seq<Seq<Range>> {
    sets.map_values(|s: RangeSet| s@)
}

/// Whether every set of ranges can be used.
pub open spec fn all_usable(sets: Seq<Seq<Range>>) -> bool {
    forall|i: int| 0 <= i < sets.len() ==> usable(#[trigger] sets[i])
}

/// Whether two different sets, each made consistent, overlap.
pub open spec fn sets_collide(sets: Seq<Seq<Range>>) -> bool {
    exists|i: int, j: int|
        #![trigger sets[i], sets[j]]
        0 <= i < j < sets.len() && sets_overlap(canonical_set(sets[i]), canonical_set(sets[j]))
}

/// Whether the sets of ranges of a configuration can be used: there is at
/// least one set, every set can be used by itself, and no two sets overlap.
pub open spec fn ranges_usable(sets: Seq<Seq<Range>>) -> bool {
    sets.len() > 0 && all_usable(sets) && !sets_collide(sets)
}

/// Checks the address-management section of a configuration and makes its
/// ranges consistent. The outcome is the section, named after the network,
/// together with the version of the configuration; or a `Config` error
/// where the sets of ranges cannot be used.
pub fn load_ipam_config(n: Net) -> (r: Result<(IPAMConfig, String), Error>)
    ensures
        match r {
            Ok((ipam, version)) => {
                &&& ranges_usable(sets_view(n.ipam.ranges@))
                &&& ipam.ranges@.len() == n.ipam.ranges@.len()
                &&& forall|i: int|
                    0 <= i < ipam.ranges@.len() ==> (#[trigger] ipam.ranges@[i])@ == canonical_set(
                        n.ipam.ranges@[i]@,
                    )
                &&& ipam.name.is_some() && ipam.name.unwrap()@ == n.name@
                &&& ipam.data_dir == n.ipam.data_dir
                &&& ipam.routes == n.ipam.routes
                &&& version@ == n.cni_version@
            },
            Err(e) => !ranges_usable(sets_view(n.ipam.ranges@)) && e.kind == ErrorKind::Config,
        },
{
    let ghost given = sets_view(n.ipam.ranges@);
    let Net { name, cni_version, ipam } = n;
    let IPAMConfig { name: _, ranges, data_dir, routes } = ipam;
    let mut ranges = ranges;
    if ranges.len() == 0 {
        return Err(Error::new(ErrorKind::Config, "no IP ranges specified"));
    }
    let l = ranges.len();
    let mut k: usize = 0;
    while k < l
        invariant
            k <= l,
            l == given.len(),
            l == ranges@.len(),
            l > 0,
            given == sets_view(n.ipam.ranges@),
            forall|i: int| 0 <= i < k ==> usable(#[trigger] given[i]),
            forall|i: int| 0 <= i < k ==> (#[trigger] ranges@[i])@ == canonical_set(given[i]),
            forall|i: int| k <= i < l ==> (#[trigger] ranges@[i])@ == given[i],
        decreases l - k,
    {
        let mut entry: RangeSet = Vec::new();
        std::mem::swap(&mut entry, &mut ranges[k]);
        let ghost before = entry@;
        assert(before == given[k as int]);
        let outcome = entry.canonicalize();
        match outcome {
            Ok(()) => {
                ranges.set(k, entry);
            },
            Err(e) => {
                assert(!usable(given[k as int]));
                return Err(e);
            },
        }
        k = k + 1;
    }
    assert(all_usable(given));
    let mut i: usize = 0;
    while i < l
        invariant
            i <= l,
            all_usable(given),
            l == given.len(),
            l == ranges@.len(),
            l > 0,
            given == sets_view(n.ipam.ranges@),
            forall|a: int| 0 <= a < l ==> (#[trigger] ranges@[a])@ == canonical_set(given[a]),
            forall|a: int, b: int|
                #![trigger given[a], given[b]]
                0 <= a < b < l && a < i ==> !sets_overlap(
                    canonical_set(given[a]),
                    canonical_set(given[b]),
                ),
        decreases l - i,
    {
        let mut j: usize = i + 1;
        while j < l
            invariant
                i < j <= l,
                all_usable(given),
                l == given.len(),
                l == ranges@.len(),
                l > 0,
                given == sets_view(n.ipam.ranges@),
                forall|a: int| 0 <= a < l ==> (#[trigger] ranges@[a])@ == canonical_set(given[a]),
                forall|a: int, b: int|
                    #![trigger given[a], given[b]]
                    0 <= a < b < l && (a < i || (a == i && b < j)) ==> !sets_overlap(
                        canonical_set(given[a]),
                        canonical_set(given[b]),
                    ),
            decreases l - j,
        {
            if ranges[i].overlap(&ranges[j]) {
                let mut message = String::from_str("range set ");
                message.append(u32_to_string(index_number(i)).as_str());
                message.append(" overlaps with ");
                message.append(u32_to_string(index_number(j)).as_str());
                assert(sets_overlap(
                    canonical_set(given[i as int]),
                    canonical_set(given[j as int]),
                ));
                return Err(Error::new(ErrorKind::Config, message.as_str()));
            }
            j = j + 1;
        }
        i = i + 1;
    }
    proof {
        assert(!sets_collide(given)) by {
            if sets_collide(given) {
                let (a, b) = choose|a: int, b: int|
                    #![trigger given[a], given[b]]
                    0 <= a < b < given.len() && sets_overlap(
                        canonical_set(given[a]),
                        canonical_set(given[b]),
                    );
                assert(!sets_overlap(canonical_set(given[a]), canonical_set(given[b])));
            }
        }
    }
    Ok((IPAMConfig { name: Some(name), ranges, data_dir, routes }, cni_version))
}

/// A position in a list as a number to print; positions that do not fit
/// are printed as the largest number.
fn index_number(i: usize) -> (n: u32)
    ensures
        i <= u32::MAX ==> n == i,
{
    if i <= 0xffff_ffff {
        i as u32
    } else {
        0xffff_ffff
    }
}

} // verus!
