//! A set of ranges that addresses of one network are given out of.

use vstd::prelude::*;
use crate::addr::IpAddr;
use crate::error::{Error, ErrorKind};
use crate::range::{fault_text, Range};

verus! {

/// The ranges of one network, in the order in which they are tried.
pub type RangeSet = Vec<Range>;

/// The ranges with the first `n` made consistent and the rest as they are.
pub open spec fn canonical_upto(rs: Seq<Range>, n: int) -> Seq<Range> {
    Seq::new(
        rs.len(),
        |i: int|
            if i < n {
                Range::canonical(rs[i]).0
            } else {
                rs[i]
            },
    )
}

/// Whether range `i` is the first one that cannot be made consistent.
pub open spec fn first_fault(rs: Seq<Range>, i: int) -> bool {
    &&& 0 <= i < rs.len()
    &&& Range::canonical(rs[i]).1.is_some()
    &&& forall|j: int| 0 <= j < i ==> Range::canonical(#[trigger] rs[j]).1.is_none()
}

/// Whether some range cannot be made consistent.
pub open spec fn faulty(rs: Seq<Range>) -> bool {
    exists|i: int| 0 <= i < rs.len() && Range::canonical(#[trigger] rs[i]).1.is_some()
}

/// Whether ranges `i` and `j` are the first pair that overlaps, going
/// through the pairs by their first and then by their second range.
pub open spec fn first_overlap(rs: Seq<Range>, i: int, j: int) -> bool {
    &&& 0 <= i < j < rs.len()
    &&& rs[i].spec_overlap(&rs[j])
    &&& forall|a: int, b: int|
        #![trigger rs[a].spec_overlap(&rs[b])]
        0 <= a < b < rs.len() && (a < i || (a == i && b < j)) ==> !rs[a].spec_overlap(&rs[b])
}

/// Whether two ranges of the set overlap.
pub open spec fn overlapping(rs: Seq<Range>) -> bool {
    exists|a: int, b: int|
        #![trigger rs[a].spec_overlap(&rs[b])]
        0 <= a < b < rs.len() && rs[a].spec_overlap(&rs[b])
}

/// The message that reports two overlapping ranges.
pub open spec fn overlap_text(a: Range, b: Range) -> Seq<char> {
    "subnets "@ + a.text() + " and "@ + b.text() + " overlap"@
}

/// Whether some range of the set contains the address.
pub open spec fn set_contains(rs: Seq<Range>, ip: IpAddr) -> bool {
    exists|i: int| 0 <= i < rs.len() && (#[trigger] rs[i]).spec_contains(ip)
}

/// Whether some range of one set overlaps some range of the other.
pub open spec fn sets_overlap(rs: Seq<Range>, other: Seq<Range>) -> bool {
    exists|i: int, j: int|
        #![trigger rs[i].spec_overlap(&other[j])]
        0 <= i < rs.len() && 0 <= j < other.len() && rs[i].spec_overlap(&other[j])
}

/// The ranges as text, separated by commas.
pub open spec fn set_text(rs: Seq<Range>) -> Seq<char>
    decreases rs.len(),
{
    if rs.len() == 0 {
        Seq::<char>::empty()
    } else if rs.len() == 1 {
        rs[0].text()
    } else {
        set_text(rs.drop_last()) + seq![','] + rs.last().text()
    }
}

/// The ranges of a set with every one made consistent.
pub open spec fn canonical_set(rs: Seq<Range>) -> Seq<Range> {
    canonical_upto(rs, rs.len() as int)
}

/// Whether a set of ranges can be used: it is not empty, every range can be
/// made consistent, and no two of the consistent ranges overlap.
pub open spec fn usable(rs: Seq<Range>) -> bool {
    rs.len() > 0 && !faulty(rs) && !overlapping(canonical_set(rs))
}

/// What a set of ranges can do.
pub trait RangeSetExt {
    /// The ranges of the set.
    spec fn ranges(&self) -> Seq<Range>;

    /// Makes every range consistent, in order, and makes sure that no two
    /// of them overlap. An empty set, a range that cannot be made consistent
    /// and two ranges that overlap are `Config` errors; ranges that were made
    /// consistent before the error was found stay so.
    fn canonicalize(&mut self) -> (r: Result<(), Error>)
        ensures
            old(self).ranges().len() == 0 ==> r is Err && r->Err_0.kind == ErrorKind::Config
                && final(self).ranges() == old(self).ranges(),
            forall|i: int|
                first_fault(old(self).ranges(), i) ==> r is Err && r->Err_0.kind
                    == ErrorKind::Config && final(self).ranges() == canonical_upto(
                    old(self).ranges(),
                    i + 1,
                ) && r->Err_0.message@ == fault_text(
                    final(self).ranges()[i],
                    Range::canonical(old(self).ranges()[i]).1.unwrap(),
                ),
            old(self).ranges().len() > 0 && !faulty(old(self).ranges()) ==> final(self).ranges()
                == canonical_upto(old(self).ranges(), old(self).ranges().len() as int),
            faulty(old(self).ranges()) ==> r is Err,
            old(self).ranges().len() > 0 && !faulty(old(self).ranges()) ==> (r is Ok
                <==> !overlapping(final(self).ranges())),
            r is Err ==> r->Err_0.kind == ErrorKind::Config,
            forall|i: int, j: int|
                !faulty(old(self).ranges()) && r is Err && first_overlap(final(self).ranges(), i, j)
                    ==> r->Err_0.kind == ErrorKind::Config && r->Err_0.message@ == overlap_text(
                    final(self).ranges()[i],
                    final(self).ranges()[j],
                ),
    ;

    /// Whether some range of the set contains the address.
    fn contains_ip(&self, ip_addr: IpAddr) -> (b: bool)
        ensures
            b == set_contains(self.ranges(), ip_addr),
    ;

    /// Whether some range of this set overlaps some range of the other.
    fn overlap(&self, other: &RangeSet) -> (b: bool)
        ensures
            b == sets_overlap(self.ranges(), other@),
    ;

    /// The ranges as text, separated by commas.
    fn to_string(&self) -> (s: String)
        ensures
            s@ == set_text(self.ranges()),
    ;
}

impl RangeSetExt for RangeSet {
    open spec fn ranges(&self) -> Seq<Range> {
        self@
    }

    fn canonicalize(&mut self) -> (r: Result<(), Error>) {
        if self.len() == 0 {
            return Err(Error::new(ErrorKind::Config, "empty range set"));
        }
        let ghost before = self@;
        let n = self.len();
        let mut k: usize = 0;
        while k < n
            invariant
                k <= n,
                n == before.len(),
                n > 0,
                before == old(self)@,
                self@ == canonical_upto(before, k as int),
                forall|j: int| 0 <= j < k ==> Range::canonical(#[trigger] before[j]).1.is_none(),
            decreases n - k,
        {
            let mut range = self[k];
            let outcome = range.canonicalize();
            self.set(k, range);
            assert(self@ =~= canonical_upto(before, k + 1));
            match outcome {
                Ok(()) => {},
                Err(e) => {
                    proof {
                        assert(first_fault(before, k as int));
                        assert forall|i: int| first_fault(before, i) implies i == k by {
                            if i < k {
                                assert(Range::canonical(before[i]).1.is_none());
                            }
                            if k < i {
                                assert(Range::canonical(before[k as int]).1.is_none());
                            }
                        }
                        assert(faulty(before));
                    }
                    return Err(e);
                },
            }
            k = k + 1;
        }
        proof {
            assert(!faulty(before)) by {
                if faulty(before) {
                    let i = choose|i: int|
                        0 <= i < before.len() && Range::canonical(#[trigger] before[i]).1.is_some();
                    assert(Range::canonical(before[i]).1.is_none());
                }
            }
            assert forall|i: int| !first_fault(before, i) by {
                if first_fault(before, i) {
                    assert(Range::canonical(before[i]).1.is_none());
                }
            }
        }
        let mut i: usize = 0;
        while i < n
            invariant
                i <= n,
                n == self@.len(),
                n > 0,
                before == old(self)@,
                n == before.len(),
                !faulty(before),
                forall|i: int| !first_fault(before, i),
                self@ == canonical_upto(before, n as int),
                forall|a: int, b: int|
                    #![trigger self@[a].spec_overlap(&self@[b])]
                    0 <= a < b < n && a < i ==> !self@[a].spec_overlap(&self@[b]),
            decreases n - i,
        {
            let mut j: usize = i + 1;
            while j < n
                invariant
                    i < j <= n,
                    n == self@.len(),
                    n > 0,
                    before == old(self)@,
                    n == before.len(),
                    !faulty(before),
                    forall|i: int| !first_fault(before, i),
                    self@ == canonical_upto(before, n as int),
                    forall|a: int, b: int|
                        #![trigger self@[a].spec_overlap(&self@[b])]
                        0 <= a < b < n && (a < i || (a == i && b < j)) ==> !self@[a].spec_overlap(
                            &self@[b],
                        ),
                decreases n - j,
            {
                if self[i].overlap(&self[j]) {
                    let mut message = String::from_str("subnets ");
                    message.append(self[i].to_string().as_str());
                    message.append(" and ");
                    message.append(self[j].to_string().as_str());
                    message.append(" overlap");
                    proof {
                        assert(first_overlap(self@, i as int, j as int));
                        assert(overlapping(self@));
                        assert forall|a: int, b: int| first_overlap(self@, a, b) implies a == i && b
                            == j by {
                            if a < i || (a == i && b < j) {
                                assert(!self@[a].spec_overlap(&self@[b]));
                            }
                            if i < a || (a == i && j < b) {
                                assert(!self@[i as int].spec_overlap(&self@[j as int]));
                            }
                        }
                    }
                    return Err(Error::new(ErrorKind::Config, message.as_str()));
                }
                j = j + 1;
            }
            i = i + 1;
        }
        proof {
            assert(!overlapping(self@)) by {
                if overlapping(self@) {
                    let (a, b) = choose|a: int, b: int|
                        #![trigger self@[a].spec_overlap(&self@[b])]
                        0 <= a < b < self@.len() && self@[a].spec_overlap(&self@[b]);
                    assert(!self@[a].spec_overlap(&self@[b]));
                }
            }
            assert forall|a: int, b: int| !first_overlap(self@, a, b) by {
                if first_overlap(self@, a, b) {
                    assert(!self@[a].spec_overlap(&self@[b]));
                }
            }
        }
        Ok(())
    }

    fn contains_ip(&self, ip_addr: IpAddr) -> (b: bool) {
        let mut i: usize = 0;
        while i < self.len()
            invariant
                i <= self.len(),
                forall|j: int| 0 <= j < i ==> !(#[trigger] self@[j]).spec_contains(ip_addr),
            decreases self.len() - i,
        {
            if self[i].contains(ip_addr) {
                return true;
            }
            i = i + 1;
        }
        false
    }

    fn overlap(&self, other: &RangeSet) -> (b: bool) {
        let mut i: usize = 0;
        while i < self.len()
            invariant
                i <= self.len(),
                forall|a: int, b: int|
                    #![trigger self@[a].spec_overlap(&other@[b])]
                    0 <= a < i && 0 <= b < other.len() ==> !self@[a].spec_overlap(&other@[b]),
            decreases self.len() - i,
        {
            let mut j: usize = 0;
            while j < other.len()
                invariant
                    i < self.len(),
                    j <= other.len(),
                    forall|a: int, b: int|
                        #![trigger self@[a].spec_overlap(&other@[b])]
                        0 <= a < i && 0 <= b < other.len() ==> !self@[a].spec_overlap(&other@[b]),
                    forall|b: int|
                        #![trigger other@[b]]
                        0 <= b < j ==> !self@[i as int].spec_overlap(&other@[b]),
                decreases other.len() - j,
            {
                if self[i].overlap(&other[j]) {
                    return true;
                }
                j = j + 1;
            }
            i = i + 1;
        }
        false
    }

    fn to_string(&self) -> (s: String) {
        let mut s = String::new();
        let mut i: usize = 0;
        proof {
            reveal_strlit(",");
            assert(self@.take(0) =~= Seq::<Range>::empty());
        }
        while i < self.len()
            invariant
                i <= self.len(),
                ","@ == seq![','],
                s@ == set_text(self@.take(i as int)),
            decreases self.len() - i,
        {
            proof {
                assert(self@.take(i + 1).drop_last() =~= self@.take(i as int));
                assert(self@.take(i + 1).last() == self@[i as int]);
                if i == 0 {
                    assert(self@.take(1)[0] == self@[0]);
                }
            }
            if i > 0 {
                s.append(",");
            }
            s.append(self[i].to_string().as_str());
            proof {
                if i == 0 {
                    assert(s@ =~= self@[0].text());
                } else {
                    assert(s@ =~= set_text(self@.take(i as int)) + seq![','] + self@[i as int].text());
                }
            }
            i = i + 1;
        }
        proof {
            assert(self@.take(i as int) =~= self@);
        }
        s
    }
}

} // verus!
