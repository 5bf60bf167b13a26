//! The report timers of one device: for each group at most one instant at
//! which its delayed report is due.
//!
//! The heap is plain data. Nothing in it fires by itself: the caller asks for
//! the timer that is due, handing in the current instant.

use crate::addr::{IpAddress, MulticastAddr};
use crate::time::{Duration, Instant};
use vstd::prelude::*;

verus! {

/// One pending timer: the group it belongs to and the instant at which it
/// is due.
struct TimerEntry<A: IpAddress> {
    addr: MulticastAddr<A>,
    instant: Instant,
}

/// The instant at which the timer of `addr` is due in `timers`, if it has
/// one.
pub open spec fn timer_of<A: IpAddress>(
    timers: Map<MulticastAddr<A>, Instant>,
    addr: MulticastAddr<A>,
) -> Option<Instant> {
    if timers.dom().contains(addr) {
        Some(timers[addr])
    } else {
        None
    }
}

/// Whether a timer for `a1` that is due at `i1` fires no later than one for
/// `a2` that is due at `i2`. The earlier instant comes first; at one instant
/// the address that is the lesser number comes first.
pub open spec fn fires_first<A: IpAddress>(
    i1: Instant,
    a1: MulticastAddr<A>,
    i2: Instant,
    a2: MulticastAddr<A>,
) -> bool {
    i1@ < i2@ || (i1@ == i2@ && a1.spec_get().spec_number() <= a2.spec_get().spec_number())
}

/// Whether the timer of `addr` is the next to fire among `timers`.
pub open spec fn is_next<A: IpAddress>(
    timers: Map<MulticastAddr<A>, Instant>,
    addr: MulticastAddr<A>,
) -> bool {
    &&& timers.dom().contains(addr)
    &&& forall|other: MulticastAddr<A>| #[trigger]
        timers.dom().contains(other) ==> fires_first(timers[addr], addr, timers[other], other)
}

/// The group whose timer is the next to fire. Only meaningful where a timer
/// is pending.
pub open spec fn next_addr<A: IpAddress>(timers: Map<MulticastAddr<A>, Instant>) -> MulticastAddr<
    A,
> {
    choose|addr: MulticastAddr<A>| is_next(timers, addr)
}

/// There is one group only whose timer is the next to fire.
pub proof fn lemma_next_addr<A: IpAddress>(
    timers: Map<MulticastAddr<A>, Instant>,
    addr: MulticastAddr<A>,
)
    requires
        is_next(timers, addr),
    ensures
        next_addr(timers) == addr,
{
    let other = next_addr(timers);
    MulticastAddr::lemma_number_is_address(addr, other);
}

/// Whether some entry of `s` is for `addr`.
spec fn has_entry<A: IpAddress>(s: Seq<TimerEntry<A>>, addr: MulticastAddr<A>) -> bool {
    exists|i: int| 0 <= i < s.len() && (#[trigger] s[i]).addr == addr
}

/// The place in `s` of an entry for `addr`.
spec fn entry_index<A: IpAddress>(s: Seq<TimerEntry<A>>, addr: MulticastAddr<A>) -> int {
    choose|i: int| 0 <= i < s.len() && (#[trigger] s[i]).addr == addr
}

/// No address has two entries in `s`.
spec fn distinct<A: IpAddress>(s: Seq<TimerEntry<A>>) -> bool {
    forall|i: int, j: int|
        0 <= i < s.len() && 0 <= j < s.len() && (#[trigger] s[i]).addr == (#[trigger] s[j]).addr
            ==> i == j
}

/// The timers that the entries of `s` stand for.
spec fn as_map<A: IpAddress>(s: Seq<TimerEntry<A>>) -> Map<MulticastAddr<A>, Instant> {
    Map::new(|addr: MulticastAddr<A>| has_entry(s, addr), |addr: MulticastAddr<A>|
        s[entry_index(s, addr)].instant)
}

/// The entry at place `i` is the entry of its address, and the timer that
/// the entries stand for at that address is its instant.
proof fn lemma_entry<A: IpAddress>(s: Seq<TimerEntry<A>>, i: int)
    requires
        distinct(s),
        0 <= i < s.len(),
    ensures
        has_entry(s, s[i].addr),
        entry_index(s, s[i].addr) == i,
        as_map(s).dom().contains(s[i].addr),
        as_map(s)[s[i].addr] == s[i].instant,
{
}

/// Setting the instant of the entry at place `i` sets the timer of its
/// address and no other.
proof fn lemma_set<A: IpAddress>(s: Seq<TimerEntry<A>>, i: int, instant: Instant)
    requires
        distinct(s),
        0 <= i < s.len(),
    ensures
        distinct(s.update(i, TimerEntry { addr: s[i].addr, instant })),
        as_map(s.update(i, TimerEntry { addr: s[i].addr, instant })) == as_map(s).insert(
            s[i].addr,
            instant,
        ),
{
    let after = s.update(i, TimerEntry { addr: s[i].addr, instant });
    assert forall|addr: MulticastAddr<A>| has_entry(after, addr) == has_entry(s, addr) by {
        if has_entry(s, addr) {
            let k = entry_index(s, addr);
            assert(after[k].addr == addr);
        }
        if has_entry(after, addr) {
            let k = entry_index(after, addr);
            assert(s[k].addr == addr);
        }
    }
}

/// A new entry at the end, for an address that had none, sets the timer of
/// its address and no other.
proof fn lemma_push<A: IpAddress>(s: Seq<TimerEntry<A>>, entry: TimerEntry<A>)
    requires
        distinct(s),
        !has_entry(s, entry.addr),
    ensures
        distinct(s.push(entry)),
        as_map(s.push(entry)) == as_map(s).insert(entry.addr, entry.instant),
{
    let after = s.push(entry);
    lemma_entry(after, s.len() as int);
    assert forall|addr: MulticastAddr<A>| addr != entry.addr implies has_entry(after, addr)
        == has_entry(s, addr) by {
        if has_entry(s, addr) {
            let k = entry_index(s, addr);
            assert(after[k].addr == addr);
        }
        if has_entry(after, addr) {
            let k = entry_index(after, addr);
            assert(k < s.len());
            assert(s[k].addr == addr);
        }
    }
}

/// Taking the entry at place `i` out takes the timer of its address out and
/// no other.
proof fn lemma_remove<A: IpAddress>(s: Seq<TimerEntry<A>>, i: int)
    requires
        distinct(s),
        0 <= i < s.len(),
    ensures
        distinct(s.remove(i)),
        as_map(s.remove(i)) == as_map(s).remove(s[i].addr),
{
    let after = s.remove(i);
    assert forall|addr: MulticastAddr<A>| addr != s[i].addr implies has_entry(after, addr)
        == has_entry(s, addr) by {
        if has_entry(s, addr) {
            let k = entry_index(s, addr);
            assert(k != i);
            let k2 = if k < i { k } else { k - 1 };
            assert(after[k2] == s[k]);
        }
        if has_entry(after, addr) {
            let k = entry_index(after, addr);
            let k2 = if k < i { k } else { k + 1 };
            assert(s[k2].addr == addr);
        }
    }
}

/// The pending timers of one device, keyed by group address.
pub struct LocalTimerHeap<A: IpAddress> {
    entries: Vec<TimerEntry<A>>,
}

impl<A: IpAddress> View for LocalTimerHeap<A> {
    type V = Map<MulticastAddr<A>, Instant>;

    /// For each group with a pending timer, the instant at which it is due.
    closed spec fn view(&self) -> Map<MulticastAddr<A>, Instant> {
        as_map(self.entries@)
    }
}

impl<A: IpAddress> LocalTimerHeap<A> {
    /// The invariant of the heap, which every heap that this module hands
    /// out meets: its timers are finitely many, and it holds each once.
    pub closed spec fn wf(&self) -> bool {
        &&& distinct(self.entries@)
        &&& self@.dom().finite()
        &&& self@.dom().len() == self.entries@.len()
    }

    /// The instant at which the timer of `addr` is due, if it has one.
    pub open spec fn spec_get(&self, addr: MulticastAddr<A>) -> Option<Instant> {
        timer_of(self@, addr)
    }

    /// The heap without a timer.
    pub fn new() -> (h: Self)
        ensures
            h@ == Map::<MulticastAddr<A>, Instant>::empty(),
            h.wf(),
    {
        let h = LocalTimerHeap { entries: Vec::new() };
        assert(h@ =~= Map::<MulticastAddr<A>, Instant>::empty());
        h
    }

    /// The place of the entry of `addr`, if it has one.
    fn find(&self, addr: &MulticastAddr<A>) -> (r: Option<usize>)
        requires
            self.wf(),
        ensures
            r matches Some(i) ==> i < self.entries@.len() && self.entries@[i as int].addr == *addr
                && self@.dom().contains(*addr) && self@[*addr] == self.entries@[i as int].instant,
            r is None ==> !self@.dom().contains(*addr) && !has_entry(self.entries@, *addr),
    {
        let mut i: usize = 0;
        while i < self.entries.len()
            invariant
                self.wf(),
                i <= self.entries.len(),
                forall|j: int| 0 <= j < i ==> (#[trigger] self.entries@[j]).addr != *addr,
            decreases self.entries.len() - i,
        {
            if self.entries[i].addr.same(addr) {
                return Some(i);
            }
            i = i + 1;
        }
        None
    }

    /// The number of pending timers.
    pub fn len(&self) -> (n: usize)
        requires
            self.wf(),
        ensures
            n == self@.dom().len(),
    {
        self.entries.len()
    }

    /// The instant at which the timer of `addr` is due, if it has one.
    pub fn get(&self, addr: &MulticastAddr<A>) -> (r: Option<Instant>)
        requires
            self.wf(),
        ensures
            r == self.spec_get(*addr),
    {
        match self.find(addr) {
            Some(i) => Some(self.entries[i].instant),
            None => None,
        }
    }

    /// The groups that have a timer, each once.
    pub fn groups(&self) -> (groups: Vec<MulticastAddr<A>>)
        requires
            self.wf(),
        ensures
            groups@.len() == self@.dom().len(),
            forall|addr: MulticastAddr<A>| self@.dom().contains(addr) <==> groups@.contains(addr),
    {
        let mut groups: Vec<MulticastAddr<A>> = Vec::new();
        let mut i: usize = 0;
        while i < self.entries.len()
            invariant
                self.wf(),
                i <= self.entries.len(),
                groups@.len() == i,
                forall|j: int| 0 <= j < i ==> groups@[j] == (#[trigger] self.entries@[j]).addr,
            decreases self.entries.len() - i,
        {
            groups.push(self.entries[i].addr);
            i = i + 1;
        }
        proof {
            assert forall|addr: MulticastAddr<A>| self@.dom().contains(addr) <==> groups@.contains(
                addr,
            ) by {
                if self@.dom().contains(addr) {
                    let k = entry_index(self.entries@, addr);
                    assert(groups@[k] == addr);
                }
                if groups@.contains(addr) {
                    let k = choose|k: int| 0 <= k < groups@.len() && groups@[k] == addr;
                    assert(self.entries@[k].addr == addr);
                }
            }
        }
        groups
    }

    /// Sets the timer of `addr` to fire at `instant`, in place of the one it
    /// had, and returns the instant of the one it had.
    pub fn schedule_instant(&mut self, addr: MulticastAddr<A>, instant: Instant) -> (previous:
        Option<Instant>)
        requires
            old(self).wf(),
        ensures
            final(self).wf(),
            previous == old(self).spec_get(addr),
            final(self)@ == old(self)@.insert(addr, instant),
    {
        match self.find(&addr) {
            Some(i) => {
                let previous = self.entries[i].instant;
                self.entries[i].instant = instant;
                proof {
                    lemma_set(old(self).entries@, i as int, instant);
                }
                Some(previous)
            },
            None => {
                self.entries.push(TimerEntry { addr, instant });
                proof {
                    lemma_push(old(self).entries@, TimerEntry { addr, instant });
                }
                None
            },
        }
    }

    /// Sets the timer of `addr` to fire `after` from `now`, in place of the
    /// one it had, and returns the instant of the one it had.
    pub fn schedule_after(
        &mut self,
        now: Instant,
        addr: MulticastAddr<A>,
        after: Duration,
    ) -> (previous: Option<Instant>)
        requires
            old(self).wf(),
            now.fits_after(after),
        ensures
            final(self).wf(),
            previous == old(self).spec_get(addr),
            final(self)@ == old(self)@.insert(addr, now.spec_add(after)),
    {
        let instant = now.checked_add(after).unwrap();
        self.schedule_instant(addr, instant)
    }

    /// Takes the timer of `addr` out, if it has one, and returns the instant
    /// at which it was due.
    pub fn cancel(&mut self, addr: &MulticastAddr<A>) -> (previous: Option<Instant>)
        requires
            old(self).wf(),
        ensures
            final(self).wf(),
            previous == old(self).spec_get(*addr),
            final(self)@ == old(self)@.remove(*addr),
    {
        match self.find(addr) {
            Some(i) => {
                let entry = self.entries.remove(i);
                proof {
                    lemma_remove(old(self).entries@, i as int);
                }
                Some(entry.instant)
            },
            None => {
                None
            },
        }
    }

    /// The place of the entry that is next to fire.
    fn find_next(&self) -> (best: usize)
        requires
            self.wf(),
            self.entries@.len() > 0,
        ensures
            best < self.entries@.len(),
            is_next(self@, self.entries@[best as int].addr),
            next_addr(self@) == self.entries@[best as int].addr,
            self@[next_addr(self@)] == self.entries@[best as int].instant,
    {
        let mut best: usize = 0;
        let mut i: usize = 1;
        while i < self.entries.len()
            invariant
                1 <= i <= self.entries.len(),
                best < i,
                forall|j: int|
                    0 <= j < i ==> fires_first(
                        self.entries@[best as int].instant,
                        self.entries@[best as int].addr,
                        (#[trigger] self.entries@[j]).instant,
                        self.entries@[j].addr,
                    ),
            decreases self.entries.len() - i,
        {
            let earlier = !self.entries[best].instant.le(&self.entries[i].instant);
            let same_instant = self.entries[i].instant.le(&self.entries[best].instant)
                && self.entries[best].instant.le(&self.entries[i].instant);
            if earlier || (same_instant && !self.entries[best].addr.number_le(
                &self.entries[i].addr,
            )) {
                best = i;
            }
            i = i + 1;
        }
        proof {
            let s = self.entries@;
            lemma_next_addr(self@, s[best as int].addr);
        }
        best
    }

    /// The timer that is next to fire, with the instant at which it is due,
    /// or `None` where no timer is pending. The heap stays as it is.
    pub fn peek(&self) -> (next: Option<(MulticastAddr<A>, Instant)>)
        requires
            self.wf(),
        ensures
            self@.dom().len() == 0 ==> next is None,
            self@.dom().len() > 0 ==> next == Some((next_addr(self@), self@[next_addr(self@)])),
    {
        if self.entries.len() == 0 {
            None
        } else {
            let best = self.find_next();
            Some((self.entries[best].addr, self.entries[best].instant))
        }
    }

    /// Takes out the timer that is next to fire, where that one is due at
    /// `now` or was due before, and returns its group. Where the next timer
    /// is due later, or there is none, the heap stays as it is.
    pub fn pop(&mut self, now: Instant) -> (fired: Option<MulticastAddr<A>>)
        requires
            old(self).wf(),
        ensures
            final(self).wf(),
            old(self)@.dom().len() > 0 && old(self)@[next_addr(old(self)@)]@ <= now@ ==> {
                &&& fired == Some(next_addr(old(self)@))
                &&& old(self)@.dom().contains(next_addr(old(self)@))
                &&& final(self)@ == old(self)@.remove(next_addr(old(self)@))
            },
            !(old(self)@.dom().len() > 0 && old(self)@[next_addr(old(self)@)]@ <= now@) ==> {
                &&& fired is None
                &&& final(self)@ == old(self)@
            },
    {
        if self.entries.len() == 0 {
            return None;
        }
        let best = self.find_next();
        if self.entries[best].instant.le(&now) {
            let entry = self.entries.remove(best);
            proof {
                lemma_remove(old(self).entries@, best as int);
            }
            Some(entry.addr)
        } else {
            None
        }
    }
}

} // verus!
