//! The set of multicast groups that a device has joined, each with a count of
//! the joins that have not been undone yet.

use crate::addr::{IpAddress, MulticastAddr};
use vstd::prelude::*;

verus! {

/// The result of joining a multicast group.
#[derive(Debug, PartialEq, Eq)]
pub enum GroupJoinResult<O = ()> {
    /// The group was not joined before; it is now, with a reference count of
    /// one.
    Joined(O),
    /// The group was already joined; its reference count went up by one.
    AlreadyMember,
}

impl<O> GroupJoinResult<O> {
    /// Applies `f` to what `Joined` holds and leaves `AlreadyMember` as it is.
    pub fn map<P, F: FnOnce(O) -> P>(self, f: F) -> (r: GroupJoinResult<P>)
        requires
            self matches GroupJoinResult::Joined(o) ==> f.requires((o,)),
        ensures
            self matches GroupJoinResult::Joined(o) ==> r matches GroupJoinResult::Joined(p)
                && f.ensures((o,), p),
            self is AlreadyMember ==> r is AlreadyMember,
    {
        match self {
            GroupJoinResult::Joined(output) => GroupJoinResult::Joined(f(output)),
            GroupJoinResult::AlreadyMember => GroupJoinResult::AlreadyMember,
        }
    }
}

/// The result of leaving a multicast group.
#[derive(Debug, PartialEq, Eq)]
pub enum GroupLeaveResult<T = ()> {
    /// The reference count reached zero and the group was left.
    Left(T),
    /// The reference count went down by one and is still positive.
    StillMember,
    /// The group was not joined in the first place.
    NotMember,
}

impl<T> GroupLeaveResult<T> {
    /// Applies `f` to what `Left` holds and leaves the other two as they are.
    pub fn map<U, F: FnOnce(T) -> U>(self, f: F) -> (r: GroupLeaveResult<U>)
        requires
            self matches GroupLeaveResult::Left(t) ==> f.requires((t,)),
        ensures
            self matches GroupLeaveResult::Left(t) ==> r matches GroupLeaveResult::Left(u)
                && f.ensures((t,), u),
            self is StillMember ==> r is StillMember,
            self is NotMember ==> r is NotMember,
    {
        match self {
            GroupLeaveResult::Left(value) => GroupLeaveResult::Left(f(value)),
            GroupLeaveResult::StillMember => GroupLeaveResult::StillMember,
            GroupLeaveResult::NotMember => GroupLeaveResult::NotMember,
        }
    }
}

/// One joined group: its address, what is kept for it, and how many joins of
/// it are outstanding.
pub struct GroupEntry<A: IpAddress, T> {
    /// The group's address.
    pub addr: MulticastAddr<A>,
    /// What the set keeps for the group.
    pub value: T,
    /// The joins of the group that no leave has undone yet.
    pub ref_count: usize,
}

/// Whether some entry of `s` is for `addr`.
pub open spec fn contains_addr<A: IpAddress, T>(
    s: Seq<GroupEntry<A, T>>,
    addr: MulticastAddr<A>,
) -> bool {
    exists|i: int| 0 <= i < s.len() && (#[trigger] s[i]).addr == addr
}

/// The place in `s` of an entry for `addr`. Where the entries are well
/// formed and one of them is for `addr`, it is the place of that one.
pub open spec fn index_of<A: IpAddress, T>(
    s: Seq<GroupEntry<A, T>>,
    addr: MulticastAddr<A>,
) -> int {
    choose|i: int| 0 <= i < s.len() && (#[trigger] s[i]).addr == addr
}

/// The outstanding joins of `addr` in `s`: zero where `s` has no entry for
/// it.
pub open spec fn ref_count_of<A: IpAddress, T>(
    s: Seq<GroupEntry<A, T>>,
    addr: MulticastAddr<A>,
) -> nat {
    if contains_addr(s, addr) {
        s[index_of(s, addr)].ref_count as nat
    } else {
        0
    }
}

/// What `s` keeps for `addr`. Only meaningful where `s` has an entry for it.
pub open spec fn value_of<A: IpAddress, T>(s: Seq<GroupEntry<A, T>>, addr: MulticastAddr<A>) -> T {
    s[index_of(s, addr)].value
}

/// What makes a sequence of entries a set of groups: no address occurs
/// twice, and every count is positive.
pub open spec fn entries_wf<A: IpAddress, T>(s: Seq<GroupEntry<A, T>>) -> bool {
    &&& forall|i: int, j: int|
        0 <= i < s.len() && 0 <= j < s.len() && (#[trigger] s[i]).addr == (#[trigger] s[j]).addr
            ==> i == j
    &&& forall|i: int| 0 <= i < s.len() ==> (#[trigger] s[i]).ref_count >= 1
}

/// In well-formed entries the place of an address is the one place where it
/// stands.
pub proof fn lemma_index_of<A: IpAddress, T>(
    s: Seq<GroupEntry<A, T>>,
    addr: MulticastAddr<A>,
    i: int,
)
    requires
        entries_wf(s),
        0 <= i < s.len(),
        s[i].addr == addr,
    ensures
        contains_addr(s, addr),
        index_of(s, addr) == i,
        ref_count_of(s, addr) == s[i].ref_count,
        value_of(s, addr) == s[i].value,
{
}

/// A new entry at the end, for an address that had none, is the entry of its
/// address and leaves every other address as it was.
pub proof fn lemma_push_entry<A: IpAddress, T>(
    before: Seq<GroupEntry<A, T>>,
    entry: GroupEntry<A, T>,
)
    requires
        entries_wf(before),
        !contains_addr(before, entry.addr),
        entry.ref_count >= 1,
    ensures
        entries_wf(before.push(entry)),
        contains_addr(before.push(entry), entry.addr),
        index_of(before.push(entry), entry.addr) == before.len(),
        forall|other: MulticastAddr<A>|
            other != entry.addr ==> contains_addr(before.push(entry), other) == contains_addr(
                before,
                other,
            ) && ref_count_of(before.push(entry), other) == ref_count_of(before, other)
                && (contains_addr(before, other) ==> value_of(before.push(entry), other)
                == value_of(before, other) && index_of(before.push(entry), other) == index_of(
                before,
                other,
            )),
{
    let after = before.push(entry);
    lemma_index_of(after, entry.addr, before.len() as int);
    assert forall|other: MulticastAddr<A>| other != entry.addr implies contains_addr(
        after,
        other,
    ) == contains_addr(before, other) && ref_count_of(after, other) == ref_count_of(
        before,
        other,
    ) && (contains_addr(before, other) ==> value_of(after, other) == value_of(before, other)
        && index_of(after, other) == index_of(before, other)) by {
        if contains_addr(before, other) {
            let k = index_of(before, other);
            assert(after[k] == before[k]);
            lemma_index_of(after, other, k);
        }
        if contains_addr(after, other) {
            let k = index_of(after, other);
            assert(k < before.len());
            assert(after[k] == before[k]);
            lemma_index_of(before, other, k);
        }
    }
}

/// A set of multicast groups in the order in which they were joined, each
/// with a value of type `T` and a reference count. A group leaves the set
/// when its count reaches zero.
pub struct MulticastGroupSet<A: IpAddress, T> {
    entries: Vec<GroupEntry<A, T>>,
}

impl<A: IpAddress, T> View for MulticastGroupSet<A, T> {
    type V = Seq<GroupEntry<A, T>>;

    /// The entries in the order in which their groups were joined.
    closed spec fn view(&self) -> Seq<GroupEntry<A, T>> {
        self.entries@
    }
}

impl<A: IpAddress, T> Default for MulticastGroupSet<A, T> {
    /// The set of no groups.
    fn default() -> (s: Self)
        ensures
            s@ == Seq::<GroupEntry<A, T>>::empty(),
            s.wf(),
    {
        MulticastGroupSet { entries: Vec::new() }
    }
}

impl<A: IpAddress, T> MulticastGroupSet<A, T> {
    /// The invariant of the set: see `entries_wf`.
    pub open spec fn wf(&self) -> bool {
        entries_wf(self@)
    }

    /// Whether `group` is in the set.
    pub open spec fn spec_contains(&self, group: MulticastAddr<A>) -> bool {
        contains_addr(self@, group)
    }

    /// The outstanding joins of `group`, zero where it is not in the set.
    pub open spec fn spec_ref_count(&self, group: MulticastAddr<A>) -> nat {
        ref_count_of(self@, group)
    }

    /// The place of `group` among the entries, if it has one.
    pub fn find(&self, group: &MulticastAddr<A>) -> (r: Option<usize>)
        requires
            self.wf(),
        ensures
            r matches Some(i) ==> i < self@.len() && self@[i as int].addr == *group
                && self.spec_contains(*group) && index_of(self@, *group) == i,
            r is None ==> !self.spec_contains(*group),
    {
        let mut i: usize = 0;
        while i < self.entries.len()
            invariant
                self.wf(),
                i <= self.entries.len(),
                forall|j: int| 0 <= j < i ==> (#[trigger] self.entries@[j]).addr != *group,
            decreases self.entries.len() - i,
        {
            if self.entries[i].addr.same(group) {
                return Some(i);
            }
            i = i + 1;
        }
        None
    }

    /// The number of groups in the set.
    pub fn len(&self) -> (n: usize)
        ensures
            n == self@.len(),
    {
        self.entries.len()
    }

    /// The address of the group at place `i`.
    pub fn addr_at(&self, i: usize) -> (addr: MulticastAddr<A>)
        requires
            i < self@.len(),
        ensures
            addr == self@[i as int].addr,
    {
        self.entries[i].addr
    }

    /// What the set keeps for the group at place `i`.
    pub fn value_at(&self, i: usize) -> (value: &T)
        requires
            i < self@.len(),
        ensures
            *value == self@[i as int].value,
    {
        &self.entries[i].value
    }

    /// What the set keeps for the group at place `i`, to be changed in place.
    /// The group's address and count stay as they are, and so does every
    /// other entry.
    pub fn value_at_mut(&mut self, i: usize) -> (value: &mut T)
        requires
            i < old(self)@.len(),
        ensures
            *value == old(self)@[i as int].value,
            final(self)@ == old(self)@.update(
                i as int,
                GroupEntry {
                    addr: old(self)@[i as int].addr,
                    value: *final(value),
                    ref_count: old(self)@[i as int].ref_count,
                },
            ),
    {
        &mut self.entries[i].value
    }

    /// Counts one more join of `group` where the group is in the set, and says
    /// whether it is. A group that is not in the set stays out.
    pub fn rejoin(&mut self, group: MulticastAddr<A>) -> (member: bool)
        requires
            old(self).wf(),
            old(self).spec_ref_count(group) < usize::MAX,
        ensures
            final(self).wf(),
            member == old(self).spec_contains(group),
            !member ==> final(self)@ == old(self)@,
            member ==> final(self)@ == old(self)@.update(
                index_of(old(self)@, group),
                GroupEntry {
                    addr: group,
                    value: old(self)@[index_of(old(self)@, group)].value,
                    ref_count: (old(self).spec_ref_count(group) + 1) as usize,
                },
            ),
            final(self).spec_ref_count(group) == if member {
                old(self).spec_ref_count(group) + 1
            } else {
                0
            },
    {
        match self.find(&group) {
            Some(i) => {
                self.entries[i].ref_count = self.entries[i].ref_count + 1;
                true
            },
            None => false,
        }
    }

    /// Joins `group`. Where the group is new to the set, `f` is called, its
    /// first result is kept for the group with a count of one, and its second
    /// is handed back in `Joined`. Where the group is in the set already, `f`
    /// is not called and the group's count goes up by one.
    pub fn join_group_with<O, F: FnOnce() -> (T, O)>(
        &mut self,
        group: MulticastAddr<A>,
        f: F,
    ) -> (r: GroupJoinResult<O>)
        requires
            old(self).wf(),
            !old(self).spec_contains(group) ==> f.requires(()),
            old(self).spec_ref_count(group) < usize::MAX,
        ensures
            final(self).wf(),
            !old(self).spec_contains(group) ==> {
                &&& r matches GroupJoinResult::Joined(o)
                &&& final(self)@.len() == old(self)@.len() + 1
                &&& final(self)@ == old(self)@.push(final(self)@.last())
                &&& final(self)@.last().addr == group
                &&& final(self)@.last().ref_count == 1
                &&& f.ensures((), (final(self)@.last().value, o))
            },
            old(self).spec_contains(group) ==> {
                &&& r is AlreadyMember
                &&& final(self)@ == old(self)@.update(
                    index_of(old(self)@, group),
                    GroupEntry {
                        addr: group,
                        value: old(self)@[index_of(old(self)@, group)].value,
                        ref_count: (old(self).spec_ref_count(group) + 1) as usize,
                    },
                )
            },
            final(self).spec_contains(group),
            final(self).spec_ref_count(group) == count_after(
                old(self).spec_ref_count(group),
                GroupOp::Join,
            ),
    {
        if self.rejoin(group) {
            GroupJoinResult::AlreadyMember
        } else {
            let (value, output) = f();
            self.entries.push(GroupEntry { addr: group, value, ref_count: 1 });
            proof {
                lemma_index_of(self@, group, self@.len() - 1);
            }
            GroupJoinResult::Joined(output)
        }
    }

    /// Undoes one join of `group`. Where that was the last one, the group
    /// leaves the set and what was kept for it is handed back in `Left`; the
    /// groups behind it move up by one place.
    pub fn leave_group(&mut self, group: MulticastAddr<A>) -> (r: GroupLeaveResult<T>)
        requires
            old(self).wf(),
        ensures
            final(self).wf(),
            old(self).spec_ref_count(group) == 0 ==> r is NotMember && final(self)@ == old(self)@,
            old(self).spec_ref_count(group) == 1 ==> {
                &&& r == GroupLeaveResult::Left(old(self)@[index_of(old(self)@, group)].value)
                &&& final(self)@ == old(self)@.remove(index_of(old(self)@, group))
            },
            old(self).spec_ref_count(group) > 1 ==> {
                &&& r is StillMember
                &&& final(self)@ == old(self)@.update(
                    index_of(old(self)@, group),
                    GroupEntry {
                        addr: group,
                        value: old(self)@[index_of(old(self)@, group)].value,
                        ref_count: (old(self).spec_ref_count(group) - 1) as usize,
                    },
                )
            },
            final(self).spec_ref_count(group) == count_after(
                old(self).spec_ref_count(group),
                GroupOp::Leave,
            ),
            r is Left <==> old(self).spec_ref_count(group) == 1,
            final(self).spec_contains(group) == (old(self).spec_ref_count(group) > 1),
            forall|other: MulticastAddr<A>|
                other != group ==> contains_addr(final(self)@, other) == contains_addr(
                    old(self)@,
                    other,
                ) && ref_count_of(final(self)@, other) == ref_count_of(old(self)@, other),
    {
        match self.find(&group) {
            None => GroupLeaveResult::NotMember,
            Some(i) => {
                if self.entries[i].ref_count > 1 {
                    self.entries[i].ref_count = self.entries[i].ref_count - 1;
                    proof {
                        lemma_update_keeps_others(old(self)@, self@, i as int);
                    }
                    GroupLeaveResult::StillMember
                } else {
                    let entry = self.entries.remove(i);
                    proof {
                        lemma_remove_entry(old(self)@, i as int);
                    }
                    GroupLeaveResult::Left(entry.value)
                }
            },
        }
    }

    /// Whether `group` is in the set.
    pub fn contains(&self, group: &MulticastAddr<A>) -> (b: bool)
        requires
            self.wf(),
        ensures
            b == self.spec_contains(*group),
    {
        self.find(group).is_some()
    }

    /// The outstanding joins of `group`, zero where it is not in the set.
    pub fn ref_count(&self, group: &MulticastAddr<A>) -> (n: usize)
        requires
            self.wf(),
        ensures
            n == self.spec_ref_count(*group),
    {
        match self.find(group) {
            Some(i) => self.entries[i].ref_count,
            None => 0,
        }
    }

    /// What the set keeps for `group`, if the group is in the set.
    pub fn get(&self, group: &MulticastAddr<A>) -> (r: Option<&T>)
        requires
            self.wf(),
        ensures
            self.spec_contains(*group) ==> r == Some(&self@[index_of(self@, *group)].value),
            !self.spec_contains(*group) ==> r is None,
    {
        match self.find(group) {
            Some(i) => Some(&self.entries[i].value),
            None => None,
        }
    }
}

/// Changing the value or the count of the entry at `i` moves no address: the
/// other addresses are in the set as before, with the counts they had.
pub proof fn lemma_update_keeps_others<A: IpAddress, T>(
    before: Seq<GroupEntry<A, T>>,
    after: Seq<GroupEntry<A, T>>,
    i: int,
)
    requires
        entries_wf(before),
        0 <= i < before.len(),
        after.len() == before.len(),
        after[i].addr == before[i].addr,
        after[i].ref_count >= 1,
        forall|j: int| 0 <= j < before.len() && j != i ==> after[j] == before[j],
    ensures
        entries_wf(after),
        forall|other: MulticastAddr<A>|
            contains_addr(after, other) == contains_addr(before, other),
        forall|other: MulticastAddr<A>|
            other != before[i].addr ==> ref_count_of(after, other) == ref_count_of(before, other),
        forall|other: MulticastAddr<A>|
            contains_addr(before, other) ==> index_of(after, other) == index_of(before, other),
        forall|other: MulticastAddr<A>|
            other != before[i].addr && contains_addr(before, other) ==> value_of(after, other)
                == value_of(before, other),
        value_of(after, before[i].addr) == after[i].value,
        ref_count_of(after, before[i].addr) == after[i].ref_count,
{
}

/// Taking the entry at `i` out leaves a set in which its address is gone and
/// every other address stands as before, with the count it had.
pub proof fn lemma_remove_entry<A: IpAddress, T>(before: Seq<GroupEntry<A, T>>, i: int)
    requires
        entries_wf(before),
        0 <= i < before.len(),
    ensures
        entries_wf(before.remove(i)),
        !contains_addr(before.remove(i), before[i].addr),
        forall|other: MulticastAddr<A>|
            other != before[i].addr ==> contains_addr(before.remove(i), other) == contains_addr(
                before,
                other,
            ) && ref_count_of(before.remove(i), other) == ref_count_of(before, other),
        forall|other: MulticastAddr<A>|
            contains_addr(before.remove(i), other) ==> value_of(before.remove(i), other)
                == value_of(before, other),
{
    let after = before.remove(i);
    assert forall|other: MulticastAddr<A>| other != before[i].addr implies contains_addr(
        after,
        other,
    ) == contains_addr(before, other) && ref_count_of(after, other) == ref_count_of(
        before,
        other,
    ) by {
        if contains_addr(before, other) {
            let k = index_of(before, other);
            assert(k != i);
            let k2 = if k < i { k } else { k - 1 };
            assert(after[k2] == before[k]);
            lemma_index_of(after, other, k2);
        }
        if contains_addr(after, other) {
            let k = index_of(after, other);
            let k2 = if k < i { k } else { k + 1 };
            assert(before[k2].addr == other);
            lemma_index_of(before, other, k2);
        }
    }
}

/// A join or a leave of one group.
#[derive(Debug, Clone, Copy, PartialEq, Eq, Structural)]
pub enum GroupOp {
    /// The group is joined once more.
    Join,
    /// One join of the group is undone.
    Leave,
}

/// The count of a group after `op`, where it was `count` before. A leave of
/// a group that is not joined leaves the count at zero.
pub open spec fn count_after(count: nat, op: GroupOp) -> nat {
    match op {
        GroupOp::Join => count + 1,
        GroupOp::Leave => if count == 0 {
            0
        } else {
            (count - 1) as nat
        },
    }
}

/// The count of a group after all of `ops` in turn, where it was `count`
/// before.
pub open spec fn count_after_all(count: nat, ops: Seq<GroupOp>) -> nat
    decreases ops.len(),
{
    if ops.len() == 0 {
        count
    } else {
        count_after(count_after_all(count, ops.drop_last()), ops.last())
    }
}

/// The number of joins among `ops`.
pub open spec fn joins(ops: Seq<GroupOp>) -> nat
    decreases ops.len(),
{
    if ops.len() == 0 {
        0
    } else {
        joins(ops.drop_last()) + if ops.last() == GroupOp::Join {
            1nat
        } else {
            0nat
        }
    }
}

/// The number of leaves among `ops` that found the group joined, where the
/// group was not joined before `ops`. The others answer `NotMember` and undo
/// nothing.
pub open spec fn leaves_of_member(ops: Seq<GroupOp>) -> nat
    decreases ops.len(),
{
    if ops.len() == 0 {
        0
    } else {
        leaves_of_member(ops.drop_last()) + if ops.last() == GroupOp::Leave && count_after_all(
            0,
            ops.drop_last(),
        ) > 0 {
            1nat
        } else {
            0nat
        }
    }
}

/// A group is in a well-formed set exactly where its count is positive.
pub proof fn lemma_member_iff_counted<A: IpAddress, T>(
    s: Seq<GroupEntry<A, T>>,
    addr: MulticastAddr<A>,
)
    requires
        entries_wf(s),
    ensures
        contains_addr(s, addr) <==> ref_count_of(s, addr) > 0,
{
}

/// The reference count law. After any sequence of joins and leaves of a
/// group that was not joined before, the count of the group is the number of
/// joins less the number of leaves that found it joined, so that the group is
/// a member exactly where the joins outnumber those leaves.
pub proof fn lemma_count_is_net_joins(ops: Seq<GroupOp>)
    ensures
        count_after_all(0, ops) == joins(ops) - leaves_of_member(ops),
        count_after_all(0, ops) > 0 <==> joins(ops) > leaves_of_member(ops),
    decreases ops.len(),
{
    if ops.len() > 0 {
        lemma_count_is_net_joins(ops.drop_last());
    }
}

/// A leave brings the count of a group to zero, which is when `Left` is the
/// answer, exactly where the count was one before: a group is left once for
/// each time that it became a member.
pub proof fn lemma_left_on_last_leave(count: nat)
    ensures
        count == 1 <==> count > 0 && count_after(count, GroupOp::Leave) == 0,
{
}

} // verus!
