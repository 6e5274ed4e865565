//! Values of the notation in which configurations are exchanged, as far as
//! the plugins build and inspect them.

use vstd::prelude::*;
use crate::text::str_eq;

verus! {

/// A value.
#[derive(Debug, PartialEq, Eq)]
pub enum Value {
    Null,
    Bool(bool),
    /// A whole number that is not negative.
    Number(u64),
    /// Any other number, as it is written.
    Other(String),
    String(String),
    Array(Vec<Value>),
    /// The members of an object, in order; a name occurs once.
    Object(Vec<(String, Value)>),
}

/// What a `Value` holds, as mathematical values.
pub enum ValueView {
    Null,
    Bool(bool),
    Number(u64),
    Other(Seq<char>),
    String(Seq<char>),
    Array(Seq<ValueView>),
    Object(Seq<(Seq<char>, ValueView)>),
}

/// What a value holds.
pub open spec fn value_view(v: Value) -> ValueView
    decreases v,
{
    match v {
        Value::Null => ValueView::Null,
        Value::Bool(b) => ValueView::Bool(b),
        Value::Number(n) => ValueView::Number(n),
        Value::Other(s) => ValueView::Other(s@),
        Value::String(s) => ValueView::String(s@),
        Value::Array(items) => ValueView::Array(
            Seq::new(
                items@.len(),
                |i: int|
                    if 0 <= i < items@.len() {
                        value_view(items@[i])
                    } else {
                        ValueView::Null
                    },
            ),
        ),
        Value::Object(members) => ValueView::Object(
            Seq::new(
                members@.len(),
                |i: int|
                    if 0 <= i < members@.len() {
                        (members@[i].0@, value_view(members@[i].1))
                    } else {
                        (Seq::<char>::empty(), ValueView::Null)
                    },
            ),
        ),
    }
}

impl View for Value {
    type V = ValueView;

    open spec fn view(&self) -> ValueView {
        value_view(*self)
    }
}

/// The members of an object, in order.
pub type Members = Vec<(String, Value)>;

/// What the members of an object hold.
pub open spec fn members_view(members: Seq<(String, Value)>) -> Seq<(Seq<char>, ValueView)> {
    Seq::new(members.len(), |i: int| (members[i].0@, value_view(members[i].1)))
}

/// What the items of an array hold.
pub open spec fn items_view(items: Seq<Value>) -> Seq<ValueView> {
    Seq::new(items.len(), |i: int| value_view(items[i]))
}

/// An object holds what its members hold.
pub proof fn lemma_object_view(members: Members)
    ensures
        value_view(Value::Object(members)) == ValueView::Object(members_view(members@)),
{
    assert(value_view(Value::Object(members))->Object_0 =~= members_view(members@));
}

/// An array holds what its items hold.
pub proof fn lemma_array_view(items: Vec<Value>)
    ensures
        value_view(Value::Array(items)) == ValueView::Array(items_view(items@)),
{
    assert(value_view(Value::Array(items))->Array_0 =~= items_view(items@));
}

/// Whether member `i` is the first one of the given name.
pub open spec fn member_at(members: Seq<(Seq<char>, ValueView)>, name: Seq<char>, i: int) -> bool {
    &&& 0 <= i < members.len()
    &&& members[i].0 == name
    &&& forall|j: int| 0 <= j < i ==> (#[trigger] members[j]).0 != name
}

/// Whether some member has the given name.
pub open spec fn has_member(members: Seq<(Seq<char>, ValueView)>, name: Seq<char>) -> bool {
    exists|i: int| member_at(members, name, i)
}

/// The value of the first member of the given name, if there is one.
pub open spec fn member(members: Seq<(Seq<char>, ValueView)>, name: Seq<char>) -> Option<
    ValueView,
> {
    if has_member(members, name) {
        Some(members[choose|i: int| member_at(members, name, i)].1)
    } else {
        None
    }
}

/// The members with the given name set to a value: the first member of
/// that name gets the value, and where there is none, a member is added at
/// the end.
pub open spec fn with_member(
    members: Seq<(Seq<char>, ValueView)>,
    name: Seq<char>,
    value: ValueView,
) -> Seq<(Seq<char>, ValueView)> {
    if has_member(members, name) {
        members.update(choose|i: int| member_at(members, name, i), (name, value))
    } else {
        members.push((name, value))
    }
}

/// The members with a value for the given name: as they are where a member
/// has that name, else with the value added at the end.
pub open spec fn with_default(
    members: Seq<(Seq<char>, ValueView)>,
    name: Seq<char>,
    value: ValueView,
) -> Seq<(Seq<char>, ValueView)> {
    if has_member(members, name) {
        members
    } else {
        members.push((name, value))
    }
}

/// The position of the first member of a name.
pub fn find(members: &Members, name: &str) -> (r: Option<usize>)
    ensures
        match r {
            Some(i) => member_at(members_view(members@), name@, i as int),
            None => !has_member(members_view(members@), name@),
        },
{
    let mut i: usize = 0;
    while i < members.len()
        invariant
            i <= members.len(),
            forall|j: int| 0 <= j < i ==> (#[trigger] members_view(members@)[j]).0 != name@,
        decreases members.len() - i,
    {
        if str_eq(members[i].0.as_str(), name) {
            assert(members_view(members@)[i as int].0 == name@);
            return Some(i);
        }
        i = i + 1;
    }
    proof {
        assert forall|k: int| !member_at(members_view(members@), name@, k) by {
            if member_at(members_view(members@), name@, k) {
                assert(members_view(members@)[k].0 != name@);
            }
        }
    }
    None
}

/// The first member of a name is found at one position only.
pub proof fn lemma_member_at_unique(members: Seq<(Seq<char>, ValueView)>, name: Seq<char>, i: int)
    requires
        member_at(members, name, i),
    ensures
        has_member(members, name),
        (choose|k: int| member_at(members, name, k)) == i,
        member(members, name) == Some(members[i].1),
{
    let k = choose|k: int| member_at(members, name, k);
    if k < i {
        assert(members[k].0 != name);
    }
    if i < k {
        assert(members[i].0 != name);
    }
}

/// Whether a member has the given name.
pub fn contains_key(members: &Members, name: &str) -> (b: bool)
    ensures
        b == has_member(members_view(members@), name@),
{
    find(members, name).is_some()
}

/// Sets the member of the given name to a value.
pub fn insert(members: &mut Members, name: &str, value: Value)
    ensures
        members_view(final(members)@) == with_member(members_view(old(members)@), name@, value@),
{
    let ghost before = members_view(members@);
    match find(members, name) {
        Some(i) => {
            proof {
                lemma_member_at_unique(before, name@, i as int);
            }
            members.set(i, (String::from_str(name), value));
            assert(members_view(members@) =~= before.update(i as int, (name@, value@)));
        },
        None => {
            members.push((String::from_str(name), value));
            assert(members_view(members@) =~= before.push((name@, value@)));
        },
    }
}

/// Gives the member of the given name a value unless it has one.
pub fn or_insert(members: &mut Members, name: &str, value: Value)
    ensures
        members_view(final(members)@) == with_default(members_view(old(members)@), name@, value@),
{
    let ghost before = members_view(members@);
    if !contains_key(members, name) {
        members.push((String::from_str(name), value));
        assert(members_view(members@) =~= before.push((name@, value@)));
    }
}

/// Whether the member of the given name is a string.
pub fn is_string(members: &Members, name: &str) -> (b: bool)
    ensures
        b == (member(members_view(members@), name@) matches Some(ValueView::String(_))),
{
    match find(members, name) {
        Some(i) => {
            proof {
                lemma_member_at_unique(members_view(members@), name@, i as int);
            }
            match &members[i].1 {
                Value::String(_) => true,
                _ => false,
            }
        },
        None => false,
    }
}

/// The string that the member of the given name holds, if it holds one.
pub fn get_str(members: &Members, name: &str) -> (r: Option<String>)
    ensures
        match r {
            Some(s) => member(members_view(members@), name@) == Some(ValueView::String(s@)),
            None => !(member(members_view(members@), name@) matches Some(ValueView::String(_))),
        },
{
    match find(members, name) {
        Some(i) => {
            proof {
                lemma_member_at_unique(members_view(members@), name@, i as int);
            }
            match &members[i].1 {
                Value::String(s) => Some(s.clone()),
                _ => None,
            }
        },
        None => None,
    }
}

/// After a member is set, its name has the value that was set, and every
/// other name has what it had.
pub proof fn lemma_with_member(
    members: Seq<(Seq<char>, ValueView)>,
    name: Seq<char>,
    value: ValueView,
    other: Seq<char>,
)
    ensures
        member(with_member(members, name, value), name) == Some(value),
        other != name ==> member(with_member(members, name, value), other) == member(
            members,
            other,
        ),
        other != name ==> has_member(with_member(members, name, value), other) == has_member(
            members,
            other,
        ),
{
    let after = with_member(members, name, value);
    if has_member(members, name) {
        let k = choose|k: int| member_at(members, name, k);
        assert(member_at(after, name, k)) by {
            assert forall|j: int| 0 <= j < k implies (#[trigger] after[j]).0 != name by {
                assert(members[j].0 != name);
            }
        }
        lemma_member_at_unique(after, name, k);
    } else {
        assert(member_at(after, name, members.len() as int)) by {
            assert forall|j: int| 0 <= j < members.len() implies (#[trigger] after[j]).0
                != name by {
                if members[j].0 == name {
                    lemma_first_exists(members, name, j);
                }
            }
        }
        lemma_member_at_unique(after, name, members.len() as int);
    }
    if other != name {
        lemma_same_names(members, after, other);
    }
}

/// After a member is given a default, its name has the value it had, or
/// the default where it had none, and every other name has what it had.
pub proof fn lemma_with_default(
    members: Seq<(Seq<char>, ValueView)>,
    name: Seq<char>,
    value: ValueView,
    other: Seq<char>,
)
    ensures
        has_member(with_default(members, name, value), name),
        member(with_default(members, name, value), name) == (if has_member(members, name) {
            member(members, name)
        } else {
            Some(value)
        }),
        other != name ==> member(with_default(members, name, value), other) == member(
            members,
            other,
        ),
        other != name ==> has_member(with_default(members, name, value), other) == has_member(
            members,
            other,
        ),
{
    let after = with_default(members, name, value);
    if !has_member(members, name) {
        assert(member_at(after, name, members.len() as int)) by {
            assert forall|j: int| 0 <= j < members.len() implies (#[trigger] after[j]).0
                != name by {
                if members[j].0 == name {
                    lemma_first_exists(members, name, j);
                }
            }
        }
        lemma_member_at_unique(after, name, members.len() as int);
    }
    if other != name {
        lemma_same_names(members, after, other);
    }
}

/// A name that some member has is the name of a first member.
pub proof fn lemma_first_exists(members: Seq<(Seq<char>, ValueView)>, name: Seq<char>, i: int)
    requires
        0 <= i < members.len(),
        members[i].0 == name,
    ensures
        has_member(members, name),
    decreases i,
{
    if exists|j: int| 0 <= j < i && (#[trigger] members[j]).0 == name {
        let j = choose|j: int| 0 <= j < i && (#[trigger] members[j]).0 == name;
        lemma_first_exists(members, name, j);
    } else {
        assert(member_at(members, name, i));
    }
}

/// Members that agree wherever a name occurs among the first, and of which
/// the second have at most one more at the end under another name, give that
/// name the same value.
proof fn lemma_same_names(
    before: Seq<(Seq<char>, ValueView)>,
    after: Seq<(Seq<char>, ValueView)>,
    other: Seq<char>,
)
    requires
        before.len() <= after.len() <= before.len() + 1,
        forall|j: int|
            0 <= j < before.len() ==> ((#[trigger] before[j]).0 == other) == (after[j].0 == other),
        forall|j: int|
            0 <= j < before.len() && (#[trigger] before[j]).0 == other ==> after[j] == before[j],
        after.len() > before.len() ==> after[before.len() as int].0 != other,
    ensures
        has_member(after, other) == has_member(before, other),
        member(after, other) == member(before, other),
{
    if has_member(before, other) {
        let i = choose|i: int| member_at(before, other, i);
        assert(member_at(after, other, i)) by {
            assert forall|j: int| 0 <= j < i implies (#[trigger] after[j]).0 != other by {
                assert(before[j].0 != other);
            }
        }
        lemma_member_at_unique(after, other, i);
    }
    if has_member(after, other) {
        let i = choose|i: int| member_at(after, other, i);
        assert(i < before.len());
        assert(member_at(before, other, i)) by {
            assert(before[i].0 == other);
            assert forall|j: int| 0 <= j < i implies (#[trigger] before[j]).0 != other by {
                assert(after[j].0 != other);
            }
        }
        lemma_member_at_unique(before, other, i);
    }
}

} // verus!
