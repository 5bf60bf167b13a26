//! What each trigger does to the groups and report timers of one device.
//!
//! A trigger is a local join or leave, a query or report that came in, the
//! expiry of a report timer, or the protocol going up or down on the device.
//! Each function here takes the device's groups and timers, which the caller
//! holds exclusively for the length of the call, moves state machines and
//! timers on, and hands back what is to be sent. Sending is the caller's
//! part, and it comes after the call has returned.

use crate::addr::{IpAddress, IpExt, MulticastAddr};
use crate::gmp::{
    is_report_timeout, report_period_fits, report_period_ok, GmpStateMachine, JoinGroupActions,
    LeaveGroupActions, MemberState, ProtocolSpecific, QueryReceivedActions,
    QueryReceivedGenericAction,
};
use crate::group_set::{
    contains_addr, entries_wf, index_of, lemma_push_entry, lemma_remove_entry, ref_count_of,
    value_of, GroupEntry, GroupJoinResult, GroupLeaveResult, MulticastGroupSet,
};
use crate::time::{Duration, Instant};
use crate::timers::{next_addr, timer_of, LocalTimerHeap};
use rand_xorshift::XorShiftRng;
use vstd::prelude::*;

verus! {

/// A type of GMP message.
#[derive(Debug, PartialEq, Eq)]
pub enum GmpMessageType<P> {
    /// A report of membership, with what the protocol needs to format it.
    Report(P),
    /// A leave message.
    Leave,
}

/// The identifier of the timer that tells a device that a delayed report may
/// be due.
#[derive(Copy, Clone, Eq, PartialEq, Debug, Hash)]
pub struct GmpDelayedReportTimerId<D> {
    /// The device whose reports the timer delays.
    pub device: D,
}

impl<D> GmpDelayedReportTimerId<D> {
    /// The device whose reports the timer delays.
    pub fn device_id(&self) -> (d: &D)
        ensures
            *d == self.device,
    {
        &self.device
    }
}

/// The report timers of a device.
pub struct GmpState<I: IpExt> {
    /// For each group with a pending report, when the report is due.
    pub timers: LocalTimerHeap<I::Addr>,
}

impl<I: IpExt> GmpState<I> {
    /// The state of a device without a pending report.
    pub fn new() -> (s: Self)
        ensures
            s.timers@ == Map::<MulticastAddr<I::Addr>, Instant>::empty(),
            s.timers.wf(),
    {
        GmpState { timers: LocalTimerHeap::new() }
    }
}

/// The group that a query asks about.
#[derive(Debug, PartialEq, Eq)]
pub enum QueryTarget<A: IpAddress> {
    /// Every group: a general query.
    Unspecified,
    /// The one group that is named.
    Specified(MulticastAddr<A>),
}

impl<A: IpAddress> QueryTarget<A> {
    /// Whether a query for this target asks about `addr`.
    pub open spec fn selects(self, addr: MulticastAddr<A>) -> bool {
        match self {
            QueryTarget::Unspecified => true,
            QueryTarget::Specified(group) => group == addr,
        }
    }
}

/// The error of a message about a group that the device has not joined.
#[derive(Debug, PartialEq, Eq)]
pub struct NotAMemberErr<A> {
    /// The group that the message was about.
    pub addr: A,
}

/// The report timer that the groups of a device call for at `addr`: the one
/// of its state machine if the group is joined and a report is pending, and
/// none otherwise.
pub open spec fn expected_timer<A: IpAddress, P: ProtocolSpecific>(
    groups: Seq<GroupEntry<A, GmpStateMachine<P>>>,
    addr: MulticastAddr<A>,
) -> Option<Instant> {
    if contains_addr(groups, addr) {
        value_of(groups, addr)@.timer()
    } else {
        None
    }
}

/// What holds of the groups of every device: they form a set, and every
/// state machine is in a state.
pub open spec fn groups_wf<A: IpAddress, P: ProtocolSpecific>(
    groups: Seq<GroupEntry<A, GmpStateMachine<P>>>,
) -> bool {
    &&& entries_wf(groups)
    &&& forall|i: int| 0 <= i < groups.len() ==> (#[trigger] groups[i]).value.wf()
}

/// Whether the timers are those that the groups call for: a group has a
/// timer exactly where a report is pending for it, and the timer then fires
/// at the instant that the state machine holds.
pub open spec fn timers_match<A: IpAddress, P: ProtocolSpecific>(
    groups: Seq<GroupEntry<A, GmpStateMachine<P>>>,
    timers: Map<MulticastAddr<A>, Instant>,
) -> bool {
    forall|addr: MulticastAddr<A>| #[trigger]
        timer_of(timers, addr) == expected_timer(groups, addr)
}

/// The invariant that ties the groups of a device to its report timers: the
/// groups are well formed, the heap is, and the timers are those that the
/// groups call for.
pub open spec fn gmp_wf<A: IpAddress, P: ProtocolSpecific>(
    groups: Seq<GroupEntry<A, GmpStateMachine<P>>>,
    timers: LocalTimerHeap<A>,
) -> bool {
    &&& groups_wf(groups)
    &&& timers.wf()
    &&& timers_match(groups, timers@)
}

/// Whether the timers of a device are those that its groups call for.
pub fn check_timers<I: IpExt, P: ProtocolSpecific>(
    groups: &MulticastGroupSet<I::Addr, GmpStateMachine<P>>,
    gmp: &GmpState<I>,
) -> (ok: bool)
    requires
        groups_wf(groups@),
        gmp.timers.wf(),
    ensures
        ok == timers_match(groups@, gmp.timers@),
{
    let n = groups.len();
    let mut i: usize = 0;
    while i < n
        invariant
            groups_wf(groups@),
            gmp.timers.wf(),
            n == groups@.len(),
            i <= n,
            forall|k: int|
                0 <= k < i ==> timer_of(gmp.timers@, (#[trigger] groups@[k]).addr)
                    == groups@[k].value@.timer(),
        decreases n - i,
    {
        let addr = groups.addr_at(i);
        let expected = match groups.value_at(i).get_inner() {
            MemberState::Delaying(s) => Some(s.state.timer_expiration),
            _ => None,
        };
        let found = gmp.timers.get(&addr);
        let same = match (expected, found) {
            (Some(a), Some(b)) => a == b,
            (None, None) => true,
            _ => false,
        };
        if !same {
            return false;
        }
        i = i + 1;
    }
    let with_timer = gmp.timers.groups();
    let mut j: usize = 0;
    while j < with_timer.len()
        invariant
            groups_wf(groups@),
            j <= with_timer.len(),
            forall|addr: MulticastAddr<I::Addr>|
                gmp.timers@.dom().contains(addr) <==> with_timer@.contains(addr),
            forall|k: int| 0 <= k < j ==> contains_addr(groups@, #[trigger] with_timer@[k]),
        decreases with_timer.len() - j,
    {
        if !groups.contains(&with_timer[j]) {
            proof {
                let addr = with_timer@[j as int];
                assert(with_timer@.contains(addr));
                assert(timer_of(gmp.timers@, addr) != expected_timer(groups@, addr));
            }
            return false;
        }
        j = j + 1;
    }
    proof {
        assert forall|addr: MulticastAddr<I::Addr>| #[trigger]
            timer_of(gmp.timers@, addr) == expected_timer(groups@, addr) by {
            if contains_addr(groups@, addr) {
                let k = index_of(groups@, addr);
                assert(timer_of(gmp.timers@, groups@[k].addr) == groups@[k].value@.timer());
            } else if gmp.timers@.dom().contains(addr) {
                assert(with_timer@.contains(addr));
                let k = choose|k: int| 0 <= k < with_timer@.len() && with_timer@[k] == addr;
                assert(contains_addr(groups@, with_timer@[k]));
            }
        }
    }
    true
}

/// Whether a join of `group_addr` at `now` can be taken: see `join_allowed`.
pub fn can_join<I: IpExt, P: ProtocolSpecific>(
    enabled: bool,
    groups: &MulticastGroupSet<I::Addr, GmpStateMachine<P>>,
    now: Instant,
    group_addr: MulticastAddr<I::Addr>,
) -> (ok: bool)
    requires
        groups.wf(),
    ensures
        ok == join_allowed::<I, P>(enabled, groups@, now, group_addr),
{
    if groups.ref_count(&group_addr) == usize::MAX {
        return false;
    }
    if groups.contains(&group_addr) || !enabled || !I::should_perform_gmp(group_addr) {
        return true;
    }
    let cfg = P::default_config();
    report_period_fits(P::cfg_unsolicited_report_interval(&cfg), now)
}

/// Whether a query for `target` can be taken at `now`: see
/// `query_allowed_for`.
pub fn can_take_query<A: IpAddress, P: ProtocolSpecific>(
    groups: &MulticastGroupSet<A, GmpStateMachine<P>>,
    target: &QueryTarget<A>,
    max_resp_time: Duration,
    now: Instant,
) -> (ok: bool)
    requires
        groups_wf(groups@),
    ensures
        ok == query_allowed_for(groups@, *target, max_resp_time, now),
{
    let n = groups.len();
    let mut i: usize = 0;
    while i < n
        invariant
            groups_wf(groups@),
            n == groups@.len(),
            i <= n,
            forall|k: int|
                0 <= k < i && target.selects((#[trigger] groups@[k]).addr)
                    ==> groups@[k].value@.query_allowed(max_resp_time, now),
        decreases n - i,
    {
        let selected = match target {
            QueryTarget::Unspecified => true,
            QueryTarget::Specified(group) => group.same(&groups.addr_at(i)),
        };
        if selected && !groups.value_at(i).get_inner().query_fits(max_resp_time, now) {
            return false;
        }
        i = i + 1;
    }
    true
}

/// Whether the protocol can come up at `now`: see `enable_allowed`.
pub fn can_enable<I: IpExt, P: ProtocolSpecific>(
    groups: &MulticastGroupSet<I::Addr, GmpStateMachine<P>>,
    now: Instant,
) -> (ok: bool)
    requires
        groups_wf(groups@),
    ensures
        ok == enable_allowed::<I, P>(groups@, now),
{
    let n = groups.len();
    let mut i: usize = 0;
    while i < n
        invariant
            groups_wf(groups@),
            n == groups@.len(),
            i <= n,
            forall|k: int|
                0 <= k < i && I::spec_should_perform_gmp((#[trigger] groups@[k]).addr)
                    && groups@[k].value@ is NonMember ==> report_period_ok(
                    P::spec_cfg_unsolicited_report_interval(&groups@[k].value@.cfg()),
                    now,
                ),
        decreases n - i,
    {
        if I::should_perform_gmp(groups.addr_at(i)) {
            match groups.value_at(i).get_inner() {
                MemberState::NonMember(s) => {
                    if !report_period_fits(P::cfg_unsolicited_report_interval(&s.cfg), now) {
                        return false;
                    }
                },
                _ => {},
            }
        }
        i = i + 1;
    }
    true
}

/// A device's groups and report timers, borrowed for one trigger, and
/// whether the protocol is enabled on the device.
pub struct GmpStateRef<'a, I: IpExt, P: ProtocolSpecific> {
    /// True if GMP is enabled for the device.
    pub enabled: bool,
    /// The multicast groups of the device.
    pub groups: &'a mut MulticastGroupSet<I::Addr, GmpStateMachine<P>>,
    /// The report timers of the device.
    pub gmp: &'a mut GmpState<I>,
}

/// The delay that leads from `now` to the report timer of `state`, zero where
/// no report is pending.
pub open spec fn delay_until<P: ProtocolSpecific>(now: Instant, state: MemberState<P>) -> Duration {
    match state.timer() {
        Some(t) => Duration { nanos: (t@ - now@) as u128 },
        None => Duration { nanos: 0 },
    }
}

/// The message that goes out with the actions of a join: the report, if one
/// is asked for.
pub open spec fn spec_join_message<P: ProtocolSpecific>(
    actions: JoinGroupActions<P>,
) -> Option<GmpMessageType<P>> {
    match actions.send_report_and_schedule_timer {
        Some((ps, _)) => Some(GmpMessageType::Report(ps)),
        None => None,
    }
}

/// The message that goes out with the actions of a query: the report, if one
/// is asked for at once.
pub open spec fn spec_query_message<P: ProtocolSpecific>(
    actions: QueryReceivedActions<P>,
) -> Option<GmpMessageType<P>> {
    match actions.generic {
        Some(QueryReceivedGenericAction::StopTimerAndSendReport(ps)) => Some(
            GmpMessageType::Report(ps),
        ),
        _ => None,
    }
}

/// Whether `after` is a state that a query can lead to from `before`: it is
/// the state that `MemberState::spec_query_received` gives for the delay that
/// leads to its timer, and where that delay was drawn anew it is one that
/// may be drawn out of the query's window.
pub open spec fn query_step<P: ProtocolSpecific>(
    before: MemberState<P>,
    max_resp_time: Duration,
    now: Instant,
    after: MemberState<P>,
) -> bool {
    &&& after == before.spec_query_received(max_resp_time, now, delay_until(now, after)).0
    &&& before.query_needs_new_timer(max_resp_time, now) ==> is_report_timeout(
        P::spec_get_max_resp_time(max_resp_time)->0,
        delay_until(now, after),
    )
}

/// The actions of the query that led from `before` to `after`.
pub open spec fn query_actions<P: ProtocolSpecific>(
    before: MemberState<P>,
    max_resp_time: Duration,
    now: Instant,
    after: MemberState<P>,
) -> QueryReceivedActions<P> {
    before.spec_query_received(max_resp_time, now, delay_until(now, after)).1
}

/// Whether `after` is a state that the protocol coming up can lead to from
/// `before`, for a group for which the protocol runs.
pub open spec fn enable_step<P: ProtocolSpecific>(
    before: MemberState<P>,
    now: Instant,
    after: MemberState<P>,
) -> bool {
    &&& after == before.spec_join_if_non_member(now, delay_until(now, after)).0
    &&& before is NonMember ==> is_report_timeout(
        P::spec_cfg_unsolicited_report_interval(&before.cfg()),
        delay_until(now, after),
    )
}

/// What a query has the caller do for one group: the group, the message to
/// send if any, and the protocol's own action if any.
pub type QueryEffect<A, P> = (
    MulticastAddr<A>,
    Option<GmpMessageType<P>>,
    Option<<P as ProtocolSpecific>::Actions>,
);

/// What a query has the caller do for a group in the state `before`: the
/// message to send if any, and the protocol's own action if any. Neither
/// depends on the delay that the query may have had drawn.
pub open spec fn query_effect_of<P: ProtocolSpecific>(
    before: MemberState<P>,
    max_resp_time: Duration,
    now: Instant,
) -> (Option<GmpMessageType<P>>, Option<P::Actions>) {
    let actions = before.spec_query_received(max_resp_time, now, Duration { nanos: 0 }).1;
    (spec_query_message(actions), actions.protocol_specific)
}

/// What a query for `target` has the caller do for the first `n` groups, in
/// the order of the groups. A group for which there is neither a message nor
/// an action of the protocol does not appear.
pub open spec fn query_effects<A: IpAddress, P: ProtocolSpecific>(
    before: Seq<GroupEntry<A, GmpStateMachine<P>>>,
    target: QueryTarget<A>,
    max_resp_time: Duration,
    now: Instant,
    n: nat,
) -> Seq<QueryEffect<A, P>>
    decreases n,
{
    if n == 0 {
        Seq::empty()
    } else {
        let k = n - 1;
        let rest = query_effects(before, target, max_resp_time, now, k as nat);
        let effect = query_effect_of(before[k].value@, max_resp_time, now);
        if target.selects(before[k].addr) && (effect.0 is Some || effect.1 is Some) {
            rest.push((before[k].addr, effect.0, effect.1))
        } else {
            rest
        }
    }
}

/// The reports that go out for the first `n` groups when the protocol comes
/// up, in the order of the groups: one for each non-member for which the
/// protocol runs.
pub open spec fn enable_reports<I: IpExt, P: ProtocolSpecific>(
    before: Seq<GroupEntry<I::Addr, GmpStateMachine<P>>>,
    n: nat,
) -> Seq<(MulticastAddr<I::Addr>, GmpMessageType<P>)>
    decreases n,
{
    if n == 0 {
        Seq::empty()
    } else {
        let k = n - 1;
        let rest = enable_reports::<I, P>(before, k as nat);
        if I::spec_should_perform_gmp(before[k].addr) && before[k].value@ is NonMember {
            rest.push(
                (before[k].addr, GmpMessageType::Report(before[k].value@.protocol_specific())),
            )
        } else {
            rest
        }
    }
}

/// The groups among the first `n` for which a leave message goes out when the
/// protocol goes down, in the order of the groups.
pub open spec fn disable_leaves<A: IpAddress, P: ProtocolSpecific>(
    before: Seq<GroupEntry<A, GmpStateMachine<P>>>,
    n: nat,
) -> Seq<MulticastAddr<A>>
    decreases n,
{
    if n == 0 {
        Seq::empty()
    } else {
        let k = n - 1;
        let rest = disable_leaves(before, k as nat);
        if before[k].value@.sends_leave() {
            rest.push(before[k].addr)
        } else {
            rest
        }
    }
}

/// Whether `after` holds the groups of `before` with the same counts, in the
/// same order, each with a state machine that is in a state.
pub open spec fn same_groups<A: IpAddress, P: ProtocolSpecific>(
    before: Seq<GroupEntry<A, GmpStateMachine<P>>>,
    after: Seq<GroupEntry<A, GmpStateMachine<P>>>,
) -> bool {
    &&& after.len() == before.len()
    &&& forall|k: int|
        0 <= k < before.len() ==> (#[trigger] after[k]).addr == before[k].addr && after[k].ref_count
            == before[k].ref_count && after[k].value.wf()
}

/// Whether every group that a query for `target` asks about can take the
/// query: see `MemberState::query_allowed`.
pub open spec fn query_allowed_for<A: IpAddress, P: ProtocolSpecific>(
    groups: Seq<GroupEntry<A, GmpStateMachine<P>>>,
    target: QueryTarget<A>,
    max_resp_time: Duration,
    now: Instant,
) -> bool {
    forall|k: int|
        0 <= k < groups.len() && target.selects((#[trigger] groups[k]).addr)
            ==> groups[k].value@.query_allowed(max_resp_time, now)
}

/// Whether a join of `group_addr` at `now` can be taken: the group's count
/// can go up by one, and where the protocol starts for the group, the
/// default unsolicited report interval can be turned into a delay.
pub open spec fn join_allowed<I: IpExt, P: ProtocolSpecific>(
    enabled: bool,
    groups: Seq<GroupEntry<I::Addr, GmpStateMachine<P>>>,
    now: Instant,
    group_addr: MulticastAddr<I::Addr>,
) -> bool {
    &&& ref_count_of(groups, group_addr) < usize::MAX
    &&& !contains_addr(groups, group_addr) && enabled && I::spec_should_perform_gmp(group_addr)
        ==> report_period_ok(
        P::spec_cfg_unsolicited_report_interval(&P::spec_default_config()),
        now,
    )
}

/// Whether the protocol can come up at `now`: for every non-member for whose
/// group the protocol runs, the unsolicited report interval of its
/// configuration can be turned into a delay.
pub open spec fn enable_allowed<I: IpExt, P: ProtocolSpecific>(
    groups: Seq<GroupEntry<I::Addr, GmpStateMachine<P>>>,
    now: Instant,
) -> bool {
    forall|k: int|
        0 <= k < groups.len() && I::spec_should_perform_gmp((#[trigger] groups[k]).addr)
            && groups[k].value@ is NonMember ==> report_period_ok(
            P::spec_cfg_unsolicited_report_interval(&groups[k].value@.cfg()),
            now,
        )
}

/// The effects that a handler hands back, as a sequence.
pub open spec fn effects_view<A: IpAddress, P: ProtocolSpecific>(
    r: Result<Vec<QueryEffect<A, P>>, NotAMemberErr<A>>,
) -> Result<Seq<QueryEffect<A, P>>, NotAMemberErr<A>> {
    match r {
        Ok(effects) => Ok(effects@),
        Err(e) => Err(e),
    }
}

/// What holds after the expiry of the report timer was handled at `now`, of
/// the groups and timers before and after and of the result.
///
/// Where a timer is pending and the one that is next to fire is due, its
/// group has made the "report timer expired" transition, its timer is taken
/// out, and the result is the group with the report to send for it. Every
/// other group and timer is as it was. Where no timer is due, nothing has
/// changed and there is no result.
pub open spec fn timer_handled<A: IpAddress, P: ProtocolSpecific>(
    groups: Seq<GroupEntry<A, GmpStateMachine<P>>>,
    timers: Map<MulticastAddr<A>, Instant>,
    now: Instant,
    groups2: Seq<GroupEntry<A, GmpStateMachine<P>>>,
    timers2: Map<MulticastAddr<A>, Instant>,
    r: Option<(MulticastAddr<A>, GmpMessageType<P>)>,
) -> bool {
    &&& same_groups(groups, groups2)
    &&& if timers.dom().len() > 0 && timers[next_addr(timers)]@ <= now@ {
        let group = next_addr(timers);
        let i = index_of(groups, group);
        &&& contains_addr(groups, group)
        &&& groups[i].value@ is Delaying
        &&& r == Some((group, GmpMessageType::Report(groups[i].value@.protocol_specific())))
        &&& groups2[i].value@ == groups[i].value@.spec_report_timer_expired().0
        &&& forall|j: int| 0 <= j < groups.len() && j != i ==> groups2[j] == groups[j]
        &&& timers2 == timers.remove(group)
    } else {
        &&& r is None
        &&& groups2 == groups
        &&& timers2 == timers
    }
}

/// What holds after a report for `group_addr` was handled, of the groups and
/// timers before and after and of the result.
///
/// Where the group is not joined the result is the error and nothing has
/// changed. Otherwise the group's state machine has taken the report, every
/// other group is as it was, and the timers match the groups again.
pub open spec fn report_handled<A: IpAddress, P: ProtocolSpecific>(
    groups: Seq<GroupEntry<A, GmpStateMachine<P>>>,
    timers: Map<MulticastAddr<A>, Instant>,
    group_addr: MulticastAddr<A>,
    groups2: Seq<GroupEntry<A, GmpStateMachine<P>>>,
    timers2: Map<MulticastAddr<A>, Instant>,
    r: Result<(), NotAMemberErr<A>>,
) -> bool {
    &&& groups_wf(groups2)
    &&& timers_match(groups2, timers2)
    &&& same_groups(groups, groups2)
    &&& !contains_addr(groups, group_addr) ==> {
        &&& r == Err::<(), _>(NotAMemberErr { addr: group_addr.spec_get() })
        &&& groups2 == groups
        &&& timers2 == timers
    }
    &&& contains_addr(groups, group_addr) ==> {
        let i = index_of(groups, group_addr);
        &&& r is Ok
        &&& groups2[i].value@ == groups[i].value@.spec_report_received().0
        &&& forall|j: int| 0 <= j < groups.len() && j != i ==> groups2[j] == groups[j]
    }
}

/// What holds after a query for `target` was handled, of the groups and
/// timers before and after and of the result.
///
/// Where the query names a group that is not joined the result is the error
/// and nothing has changed. Otherwise every group that the query asks about
/// is in a state that the query can lead to, every other group is as it was,
/// the timers match the groups again, and the result holds the effects in
/// the order of the groups.
pub open spec fn query_handled<A: IpAddress, P: ProtocolSpecific>(
    groups: Seq<GroupEntry<A, GmpStateMachine<P>>>,
    timers: Map<MulticastAddr<A>, Instant>,
    target: QueryTarget<A>,
    max_resp_time: Duration,
    now: Instant,
    groups2: Seq<GroupEntry<A, GmpStateMachine<P>>>,
    timers2: Map<MulticastAddr<A>, Instant>,
    r: Result<Seq<QueryEffect<A, P>>, NotAMemberErr<A>>,
) -> bool {
    &&& groups_wf(groups2)
    &&& timers_match(groups2, timers2)
    &&& same_groups(groups, groups2)
    &&& (target matches QueryTarget::Specified(group) && !contains_addr(groups, group)) ==> {
        &&& r == Err::<Seq<QueryEffect<A, P>>, _>(
            NotAMemberErr { addr: target->Specified_0.spec_get() },
        )
        &&& groups2 == groups
        &&& timers2 == timers
    }
    &&& !(target matches QueryTarget::Specified(group) && !contains_addr(groups, group)) ==> {
        &&& r == Ok::<_, NotAMemberErr<A>>(
            query_effects(groups, target, max_resp_time, now, groups.len()),
        )
        &&& forall|k: int|
            0 <= k < groups.len() ==> if target.selects((#[trigger] groups[k]).addr) {
                query_step(groups[k].value@, max_resp_time, now, groups2[k].value@)
            } else {
                groups2[k] == groups[k]
            }
    }
}

/// After the state machine at place `i` has moved on and the timer of its
/// group was set to match, the groups and timers are tied as before.
proof fn lemma_step_keeps_wf<A: IpAddress, P: ProtocolSpecific>(
    groups: Seq<GroupEntry<A, GmpStateMachine<P>>>,
    timers: Map<MulticastAddr<A>, Instant>,
    i: int,
    groups2: Seq<GroupEntry<A, GmpStateMachine<P>>>,
    timers2: Map<MulticastAddr<A>, Instant>,
)
    requires
        groups_wf(groups),
        timers_match(groups, timers),
        0 <= i < groups.len(),
        groups2.len() == groups.len(),
        groups2[i].addr == groups[i].addr,
        groups2[i].ref_count >= 1,
        groups2[i].value.wf(),
        forall|j: int| 0 <= j < groups.len() && j != i ==> groups2[j] == groups[j],
        timer_of(timers2, groups[i].addr) == groups2[i].value@.timer(),
        forall|other: MulticastAddr<A>|
            other != groups[i].addr ==> timer_of(timers2, other) == timer_of(timers, other),
    ensures
        groups_wf(groups2),
        timers_match(groups2, timers2),
{
}

/// Has the state machine at place `i` take a query and sets the group's
/// timer as the state machine asks.
fn query_group_at<A: IpAddress, P: ProtocolSpecific>(
    groups: &mut MulticastGroupSet<A, GmpStateMachine<P>>,
    timers: &mut LocalTimerHeap<A>,
    rng: &mut XorShiftRng,
    i: usize,
    max_resp_time: Duration,
    now: Instant,
) -> (actions: QueryReceivedActions<P>)
    requires
        gmp_wf(old(groups)@, *old(timers)),
        i < old(groups)@.len(),
        old(groups)@[i as int].value@.query_allowed(max_resp_time, now),
    ensures
        gmp_wf(final(groups)@, *final(timers)),
        same_groups(old(groups)@, final(groups)@),
        forall|j: int|
            0 <= j < old(groups)@.len() && j != i ==> final(groups)@[j] == old(groups)@[j],
        query_step(
            old(groups)@[i as int].value@,
            max_resp_time,
            now,
            final(groups)@[i as int].value@,
        ),
        actions == query_actions(
            old(groups)@[i as int].value@,
            max_resp_time,
            now,
            final(groups)@[i as int].value@,
        ),
{
    let group_addr = groups.addr_at(i);
    let actions = groups.value_at_mut(i).query_received(rng, max_resp_time, now);
    match &actions.generic {
        Some(QueryReceivedGenericAction::ScheduleTimer(delay)) => {
            let _ = timers.schedule_after(now, group_addr, *delay);
        },
        Some(QueryReceivedGenericAction::StopTimerAndSendReport(_)) => {
            let _ = timers.cancel(&group_addr);
        },
        None => {},
    }
    proof {
        lemma_step_keeps_wf(old(groups)@, old(timers)@, i as int, groups@, timers@);
    }
    actions
}

/// After a group has joined the set at the end and its timer, if it asks
/// for one, was set to match, the groups and timers are tied as before.
proof fn lemma_push_keeps_wf<A: IpAddress, P: ProtocolSpecific>(
    groups: Seq<GroupEntry<A, GmpStateMachine<P>>>,
    timers: Map<MulticastAddr<A>, Instant>,
    entry: GroupEntry<A, GmpStateMachine<P>>,
    timers2: Map<MulticastAddr<A>, Instant>,
)
    requires
        groups_wf(groups),
        timers_match(groups, timers),
        !contains_addr(groups, entry.addr),
        entry.ref_count >= 1,
        entry.value.wf(),
        timer_of(timers2, entry.addr) == entry.value@.timer(),
        forall|other: MulticastAddr<A>|
            other != entry.addr ==> timer_of(timers2, other) == timer_of(timers, other),
    ensures
        groups_wf(groups.push(entry)),
        timers_match(groups.push(entry), timers2),
{
    lemma_push_entry(groups, entry);
}

/// After the group at place `i` has left the set and its timer, if it had
/// one, was taken out, the groups and timers are tied as before.
proof fn lemma_remove_keeps_wf<A: IpAddress, P: ProtocolSpecific>(
    groups: Seq<GroupEntry<A, GmpStateMachine<P>>>,
    timers: Map<MulticastAddr<A>, Instant>,
    i: int,
    timers2: Map<MulticastAddr<A>, Instant>,
)
    requires
        groups_wf(groups),
        timers_match(groups, timers),
        0 <= i < groups.len(),
        timer_of(timers2, groups[i].addr) is None,
        forall|other: MulticastAddr<A>|
            other != groups[i].addr ==> timer_of(timers2, other) == timer_of(timers, other),
    ensures
        groups_wf(groups.remove(i)),
        timers_match(groups.remove(i), timers2),
{
    lemma_remove_entry(groups, i);
}

/// The timers of a device without a group are those that its groups call
/// for exactly where there are none.
pub proof fn lemma_empty_device_wf<A: IpAddress, P: ProtocolSpecific>()
    ensures
        groups_wf(Seq::<GroupEntry<A, GmpStateMachine<P>>>::empty()),
        timers_match(
            Seq::<GroupEntry<A, GmpStateMachine<P>>>::empty(),
            Map::<MulticastAddr<A>, Instant>::empty(),
        ),
{
}

/// A timer is pending for `addr` only where `addr` is a joined group whose
/// state machine has a report pending, and the timer then fires at the
/// instant that the state machine holds.
pub proof fn lemma_timer_means_delaying<A: IpAddress, P: ProtocolSpecific>(
    groups: Seq<GroupEntry<A, GmpStateMachine<P>>>,
    timers: Map<MulticastAddr<A>, Instant>,
    addr: MulticastAddr<A>,
)
    requires
        groups_wf(groups),
        timers_match(groups, timers),
    ensures
        timer_of(timers, addr) is Some <==> contains_addr(groups, addr) && value_of(
            groups,
            addr,
        )@ is Delaying,
        timer_of(timers, addr) is Some ==> timer_of(timers, addr) == value_of(
            groups,
            addr,
        )@.timer(),
{
}

/// The never-lengthen rule for a device. Where a query has led the group
/// from `before` to `after`, a report was pending, and the query's window
/// ends at the pending timer's instant or after it, the timer is where it
/// was.
pub proof fn lemma_query_step_keeps_timer<P: ProtocolSpecific>(
    before: MemberState<P>,
    max_resp_time: Duration,
    now: Instant,
    after: MemberState<P>,
)
    requires
        query_step(before, max_resp_time, now, after),
        before is Delaying,
        P::spec_get_max_resp_time(max_resp_time) matches Some(window) && now@ + window@
            >= before.timer()->0@,
    ensures
        after is Delaying,
        after.timer() == before.timer(),
        query_actions(before, max_resp_time, now, after).generic is None,
{
}

/// A query for one group has the caller do something for that group at most.
proof fn lemma_query_effects_single<A: IpAddress, P: ProtocolSpecific>(
    before: Seq<GroupEntry<A, GmpStateMachine<P>>>,
    group: MulticastAddr<A>,
    max_resp_time: Duration,
    now: Instant,
    i: int,
    n: nat,
)
    requires
        entries_wf(before),
        0 <= i < before.len(),
        before[i].addr == group,
        n <= before.len(),
    ensures
        query_effects(before, QueryTarget::Specified(group), max_resp_time, now, n) == if n > i && (
        query_effect_of(before[i].value@, max_resp_time, now).0 is Some || query_effect_of(
            before[i].value@,
            max_resp_time,
            now,
        ).1 is Some) {
            seq![
                (
                    group,
                    query_effect_of(before[i].value@, max_resp_time, now).0,
                    query_effect_of(before[i].value@, max_resp_time, now).1,
                ),
            ]
        } else {
            Seq::<QueryEffect<A, P>>::empty()
        },
    decreases n,
{
    if n > 0 {
        lemma_query_effects_single(before, group, max_resp_time, now, i, (n - 1) as nat);
    }
}

impl<A: IpAddress, P: ProtocolSpecific> MulticastGroupSet<A, GmpStateMachine<P>> {
    /// Joins `group`. Where the group is new to the set, it gets a state
    /// machine that has just made its "join group" transition, and the
    /// actions of that transition are handed back. Where the group is in the
    /// set already, its count goes up by one and nothing else changes.
    pub fn join_group_gmp(
        &mut self,
        gmp_disabled: bool,
        group: MulticastAddr<A>,
        rng: &mut XorShiftRng,
        now: Instant,
    ) -> (r: GroupJoinResult<JoinGroupActions<P>>)
        requires
            old(self).wf(),
            old(self).spec_ref_count(group) < usize::MAX,
            !old(self).spec_contains(group) && !gmp_disabled ==> report_period_ok(
                P::spec_cfg_unsolicited_report_interval(&P::spec_default_config()),
                now,
            ),
        ensures
            final(self).wf(),
            old(self).spec_contains(group) ==> {
                &&& r is AlreadyMember
                &&& final(self)@ == old(self)@.update(
                    index_of(old(self)@, group),
                    GroupEntry {
                        addr: group,
                        value: old(self)@[index_of(old(self)@, group)].value,
                        ref_count: (old(self).spec_ref_count(group) + 1) as usize,
                    },
                )
            },
            !old(self).spec_contains(group) ==> {
                &&& r matches GroupJoinResult::Joined(actions)
                &&& final(self)@ == old(self)@.push(final(self)@.last())
                &&& final(self)@.len() == old(self)@.len() + 1
                &&& final(self)@.last().addr == group
                &&& final(self)@.last().ref_count == 1
                &&& final(self)@.last().value.wf()
                &&& (final(self)@.last().value@, actions) == MemberState::spec_join_group(
                    P::spec_initial(),
                    P::spec_default_config(),
                    now,
                    actions.delay(),
                    gmp_disabled,
                )
                &&& !gmp_disabled ==> is_report_timeout(
                    P::spec_cfg_unsolicited_report_interval(&P::spec_default_config()),
                    actions.delay(),
                )
            },
    {
        if self.rejoin(group) {
            GroupJoinResult::AlreadyMember
        } else {
            let (machine, actions) = GmpStateMachine::join_group(rng, now, gmp_disabled);
            let ghost m = machine;
            let ghost a = actions;
            let make = move || -> (made: (GmpStateMachine<P>, JoinGroupActions<P>))
                ensures
                    made == (m, a),
                { (machine, actions) };
            self.join_group_with(group, make)
        }
    }

    /// Undoes one join of `group`. Where that was the last one, the group
    /// leaves the set, its state machine makes its "leave group" transition,
    /// and the actions of that transition are handed back.
    pub fn leave_group_gmp(&mut self, group: MulticastAddr<A>) -> (r: GroupLeaveResult<
        LeaveGroupActions,
    >)
        requires
            old(self).wf(),
            old(self).spec_contains(group) ==> value_of(old(self)@, group).wf(),
        ensures
            final(self).wf(),
            old(self).spec_ref_count(group) == 0 ==> r is NotMember && final(self)@ == old(self)@,
            old(self).spec_ref_count(group) == 1 ==> {
                &&& r == GroupLeaveResult::Left(value_of(old(self)@, group)@.spec_leave_group().1)
                &&& final(self)@ == old(self)@.remove(index_of(old(self)@, group))
            },
            old(self).spec_ref_count(group) > 1 ==> {
                &&& r is StillMember
                &&& final(self)@ == old(self)@.update(
                    index_of(old(self)@, group),
                    GroupEntry {
                        addr: group,
                        value: old(self)@[index_of(old(self)@, group)].value,
                        ref_count: (old(self).spec_ref_count(group) - 1) as usize,
                    },
                )
            },
    {
        match self.leave_group(group) {
            GroupLeaveResult::Left(machine) => GroupLeaveResult::Left(machine.leave_group()),
            GroupLeaveResult::StillMember => GroupLeaveResult::StillMember,
            GroupLeaveResult::NotMember => GroupLeaveResult::NotMember,
        }
    }
}

/// Handles the expiry of the device's report timer at `now`.
///
/// The group whose report is due first is taken from the timers, if that
/// report is due by `now`; its state machine makes the "report timer expired"
/// transition, and the report to send for it is handed back. Where no report
/// is due yet nothing changes: a timer that was stopped may still be seen to
/// fire by whoever runs the clock.
pub fn gmp_handle_timer<I: IpExt, P: ProtocolSpecific>(
    state: GmpStateRef<'_, I, P>,
    now: Instant,
) -> (r: Option<(MulticastAddr<I::Addr>, GmpMessageType<P>)>)
    requires
        gmp_wf(old(state.groups)@, old(state.gmp).timers),
    ensures
        gmp_wf(final(state.groups)@, final(state.gmp).timers),
        timer_handled(
            old(state.groups)@,
            old(state.gmp).timers@,
            now,
            final(state.groups)@,
            final(state.gmp).timers@,
            r,
        ),
{
    let GmpStateRef { enabled: _, groups, gmp } = state;
    let ghost groups0 = groups@;
    let ghost timers0 = gmp.timers@;
    match gmp.timers.pop(now) {
        None => None,
        Some(group_addr) => {
            proof {
                lemma_timer_means_delaying(groups0, timers0, group_addr);
            }
            match groups.find(&group_addr) {
                None => unreached(),
                Some(i) => {
                    let actions = groups.value_at_mut(i).report_timer_expired();
                    proof {
                        lemma_step_keeps_wf(groups0, timers0, i as int, groups@, gmp.timers@);
                    }
                    Some((group_addr, GmpMessageType::Report(actions.send_report)))
                },
            }
        },
    }
}

/// Handles the report of another host for `group_addr`.
///
/// Fails where the device has not joined the group. Otherwise the group's
/// state machine takes the report, and the group's timer is stopped where
/// the state machine says so.
pub fn handle_report_message<I: IpExt, P: ProtocolSpecific>(
    state: GmpStateRef<'_, I, P>,
    group_addr: MulticastAddr<I::Addr>,
) -> (r: Result<(), NotAMemberErr<I::Addr>>)
    requires
        gmp_wf(old(state.groups)@, old(state.gmp).timers),
    ensures
        gmp_wf(final(state.groups)@, final(state.gmp).timers),
        report_handled(
            old(state.groups)@,
            old(state.gmp).timers@,
            group_addr,
            final(state.groups)@,
            final(state.gmp).timers@,
            r,
        ),
{
    let GmpStateRef { enabled: _, groups, gmp } = state;
    let ghost groups0 = groups@;
    let ghost timers0 = gmp.timers@;
    match groups.find(&group_addr) {
        None => Err(NotAMemberErr { addr: group_addr.get() }),
        Some(i) => {
            let actions = groups.value_at_mut(i).report_received();
            if actions.stop_timer {
                let _ = gmp.timers.cancel(&group_addr);
            }
            proof {
                lemma_step_keeps_wf(groups0, timers0, i as int, groups@, gmp.timers@);
            }
            Ok(())
        },
    }
}

/// Handles a query for `target` that was heard at `now` with the response
/// time `max_response_time`.
///
/// A query for one group fails where the device has not joined that group.
/// Otherwise every group that the query asks about takes it, in the order of
/// the groups, and what is to be sent and what the protocol asks for is
/// collected in that order.
pub fn handle_query_message<I: IpExt, P: ProtocolSpecific>(
    state: GmpStateRef<'_, I, P>,
    rng: &mut XorShiftRng,
    now: Instant,
    target: QueryTarget<I::Addr>,
    max_response_time: Duration,
) -> (r: Result<Vec<QueryEffect<I::Addr, P>>, NotAMemberErr<I::Addr>>)
    requires
        gmp_wf(old(state.groups)@, old(state.gmp).timers),
        query_allowed_for(old(state.groups)@, target, max_response_time, now),
    ensures
        gmp_wf(final(state.groups)@, final(state.gmp).timers),
        query_handled(
            old(state.groups)@,
            old(state.gmp).timers@,
            target,
            max_response_time,
            now,
            final(state.groups)@,
            final(state.gmp).timers@,
            effects_view(r),
        ),
{
    let GmpStateRef { enabled: _, groups, gmp } = state;
    let ghost groups0 = groups@;
    let mut effects: Vec<QueryEffect<I::Addr, P>> = Vec::new();
    match target {
        QueryTarget::Unspecified => {
            let n = groups.len();
            let mut i: usize = 0;
            while i < n
                invariant
                    gmp_wf(groups@, gmp.timers),
                    same_groups(groups0, groups@),
                    target is Unspecified,
                    n == groups0.len(),
                    i <= n,
                    forall|k: int|
                        0 <= k < groups0.len() ==> (#[trigger] groups0[k]).value@.query_allowed(
                            max_response_time,
                            now,
                        ),
                    forall|k: int|
                        0 <= k < i ==> query_step(
                            (#[trigger] groups0[k]).value@,
                            max_response_time,
                            now,
                            groups@[k].value@,
                        ),
                    forall|k: int| i <= k < n ==> groups@[k] == #[trigger] groups0[k],
                    effects@ == query_effects(groups0, target, max_response_time, now, i as nat),
                decreases n - i,
            {
                let group_addr = groups.addr_at(i);
                let actions = query_group_at(
                    groups,
                    &mut gmp.timers,
                    rng,
                    i,
                    max_response_time,
                    now,
                );
                let QueryReceivedActions { generic, protocol_specific } = actions;
                let send_msg = match generic {
                    Some(QueryReceivedGenericAction::StopTimerAndSendReport(ps)) => Some(
                        GmpMessageType::Report(ps),
                    ),
                    _ => None,
                };
                if send_msg.is_some() || protocol_specific.is_some() {
                    effects.push((group_addr, send_msg, protocol_specific));
                }
                i = i + 1;
            }
            Ok(effects)
        },
        QueryTarget::Specified(group_addr) => {
            match groups.find(&group_addr) {
                None => Err(NotAMemberErr { addr: group_addr.get() }),
                Some(i) => {
                    let actions = query_group_at(
                        groups,
                        &mut gmp.timers,
                        rng,
                        i,
                        max_response_time,
                        now,
                    );
                    proof {
                        lemma_query_effects_single(
                            groups0,
                            group_addr,
                            max_response_time,
                            now,
                            i as int,
                            groups0.len(),
                        );
                    }
                    let QueryReceivedActions { generic, protocol_specific } = actions;
                    let send_msg = match generic {
                        Some(QueryReceivedGenericAction::StopTimerAndSendReport(ps)) => Some(
                            GmpMessageType::Report(ps),
                        ),
                        _ => None,
                    };
                    if send_msg.is_some() || protocol_specific.is_some() {
                        effects.push((group_addr, send_msg, protocol_specific));
                    }
                    Ok(effects)
                },
            }
        },
    }
}

/// Handles a local join of `group_addr` at `now`.
///
/// The group joins the device's set. Where it is new to the set, its state
/// machine starts the protocol unless the protocol is disabled on the device
/// or does not run for the group; the report timer is then set, and the
/// report to send is handed back in `Joined`.
pub fn gmp_join_group<I: IpExt, P: ProtocolSpecific>(
    state: GmpStateRef<'_, I, P>,
    rng: &mut XorShiftRng,
    now: Instant,
    group_addr: MulticastAddr<I::Addr>,
) -> (r: GroupJoinResult<Option<GmpMessageType<P>>>)
    requires
        gmp_wf(old(state.groups)@, old(state.gmp).timers),
        join_allowed::<I, P>(state.enabled, old(state.groups)@, now, group_addr),
    ensures
        gmp_wf(final(state.groups)@, final(state.gmp).timers),
        contains_addr(final(state.groups)@, group_addr),
        ref_count_of(final(state.groups)@, group_addr) == ref_count_of(
            old(state.groups)@,
            group_addr,
        ) + 1,
        contains_addr(old(state.groups)@, group_addr) ==> {
            &&& r is AlreadyMember
            &&& final(state.groups)@ == old(state.groups)@.update(
                index_of(old(state.groups)@, group_addr),
                GroupEntry {
                    addr: group_addr,
                    value: value_of(old(state.groups)@, group_addr),
                    ref_count: (ref_count_of(old(state.groups)@, group_addr) + 1) as usize,
                },
            )
            &&& final(state.gmp).timers@ == old(state.gmp).timers@
        },
        !contains_addr(old(state.groups)@, group_addr) ==> {
            let joined = final(state.groups)@.last();
            let disabled = !state.enabled || !I::spec_should_perform_gmp(group_addr);
            let transition = MemberState::<P>::spec_join_group(
                P::spec_initial(),
                P::spec_default_config(),
                now,
                delay_until(now, joined.value@),
                disabled,
            );
            &&& final(state.groups)@ == old(state.groups)@.push(joined)
            &&& joined.addr == group_addr
            &&& joined.ref_count == 1
            &&& joined.value@ == transition.0
            &&& r == GroupJoinResult::Joined(spec_join_message(transition.1))
            &&& !disabled ==> is_report_timeout(
                P::spec_cfg_unsolicited_report_interval(&P::spec_default_config()),
                delay_until(now, joined.value@),
            )
            &&& final(state.gmp).timers@ == if disabled {
                old(state.gmp).timers@
            } else {
                old(state.gmp).timers@.insert(group_addr, joined.value@.timer()->0)
            }
        },
{
    let GmpStateRef { enabled, groups, gmp } = state;
    let ghost groups0 = groups@;
    let ghost timers0 = gmp.timers@;
    let gmp_disabled = !enabled || !I::should_perform_gmp(group_addr);
    match groups.join_group_gmp(gmp_disabled, group_addr, rng, now) {
        GroupJoinResult::AlreadyMember => {
            proof {
                let i = index_of(groups0, group_addr);
                lemma_step_keeps_wf(groups0, timers0, i, groups@, timers0);
            }
            GroupJoinResult::AlreadyMember
        },
        GroupJoinResult::Joined(JoinGroupActions { send_report_and_schedule_timer }) => {
            let msg = match send_report_and_schedule_timer {
                Some((protocol_specific, delay)) => {
                    let _ = gmp.timers.schedule_after(now, group_addr, delay);
                    Some(GmpMessageType::Report(protocol_specific))
                },
                None => None,
            };
            proof {
                lemma_push_keeps_wf(groups0, timers0, groups@.last(), gmp.timers@);
            }
            GroupJoinResult::Joined(msg)
        },
    }
}

/// Handles a local leave of `group_addr`.
///
/// One join of the group is undone. Where that was the last one, the group
/// leaves the set, its timer is stopped if a report was pending, and `Left`
/// says whether a leave message is to be sent.
pub fn gmp_leave_group<I: IpExt, P: ProtocolSpecific>(
    state: GmpStateRef<'_, I, P>,
    group_addr: MulticastAddr<I::Addr>,
) -> (r: GroupLeaveResult<bool>)
    requires
        gmp_wf(old(state.groups)@, old(state.gmp).timers),
    ensures
        gmp_wf(final(state.groups)@, final(state.gmp).timers),
        ref_count_of(old(state.groups)@, group_addr) == 0 ==> {
            &&& r is NotMember
            &&& final(state.groups)@ == old(state.groups)@
            &&& final(state.gmp).timers@ == old(state.gmp).timers@
        },
        ref_count_of(old(state.groups)@, group_addr) == 1 ==> {
            &&& r == GroupLeaveResult::Left(value_of(old(state.groups)@, group_addr)@.sends_leave())
            &&& final(state.groups)@ == old(state.groups)@.remove(
                index_of(old(state.groups)@, group_addr),
            )
            &&& final(state.gmp).timers@ == old(state.gmp).timers@.remove(group_addr)
        },
        ref_count_of(old(state.groups)@, group_addr) > 1 ==> {
            &&& r is StillMember
            &&& final(state.groups)@ == old(state.groups)@.update(
                index_of(old(state.groups)@, group_addr),
                GroupEntry {
                    addr: group_addr,
                    value: value_of(old(state.groups)@, group_addr),
                    ref_count: (ref_count_of(old(state.groups)@, group_addr) - 1) as usize,
                },
            )
            &&& final(state.gmp).timers@ == old(state.gmp).timers@
        },
{
    let GmpStateRef { enabled: _, groups, gmp } = state;
    let ghost groups0 = groups@;
    let ghost timers0 = gmp.timers@;
    match groups.leave_group_gmp(group_addr) {
        GroupLeaveResult::Left(LeaveGroupActions { send_leave, stop_timer }) => {
            if stop_timer {
                let _ = gmp.timers.cancel(&group_addr);
            }
            proof {
                let i = index_of(groups0, group_addr);
                lemma_remove_keeps_wf(groups0, timers0, i, gmp.timers@);
            }
            GroupLeaveResult::Left(send_leave)
        },
        GroupLeaveResult::StillMember => {
            proof {
                let i = index_of(groups0, group_addr);
                lemma_step_keeps_wf(groups0, timers0, i, groups@, timers0);
            }
            GroupLeaveResult::StillMember
        },
        GroupLeaveResult::NotMember => GroupLeaveResult::NotMember,
    }
}

/// Handles the protocol coming up on the device, or anything that may have
/// brought it up.
///
/// Where the protocol is enabled, every non-member for whose group the
/// protocol runs starts it as on a join. The reports to send are handed back
/// in the order of the groups. Members stay as they are, and so does every
/// group while the protocol is disabled.
pub fn gmp_handle_maybe_enabled<I: IpExt, P: ProtocolSpecific>(
    state: GmpStateRef<'_, I, P>,
    rng: &mut XorShiftRng,
    now: Instant,
) -> (messages: Vec<(MulticastAddr<I::Addr>, GmpMessageType<P>)>)
    requires
        gmp_wf(old(state.groups)@, old(state.gmp).timers),
        state.enabled ==> enable_allowed::<I, P>(old(state.groups)@, now),
    ensures
        gmp_wf(final(state.groups)@, final(state.gmp).timers),
        same_groups(old(state.groups)@, final(state.groups)@),
        !state.enabled ==> {
            &&& messages@ == Seq::<(MulticastAddr<I::Addr>, GmpMessageType<P>)>::empty()
            &&& final(state.groups)@ == old(state.groups)@
            &&& final(state.gmp).timers@ == old(state.gmp).timers@
        },
        state.enabled ==> {
            &&& messages@ == enable_reports::<I, P>(old(state.groups)@, old(state.groups)@.len())
            &&& forall|k: int|
                0 <= k < old(state.groups)@.len() ==> if I::spec_should_perform_gmp(
                    (#[trigger] old(state.groups)@[k]).addr,
                ) {
                    enable_step(old(state.groups)@[k].value@, now, final(state.groups)@[k].value@)
                } else {
                    final(state.groups)@[k] == old(state.groups)@[k]
                }
        },
{
    let GmpStateRef { enabled, groups, gmp } = state;
    let ghost groups0 = groups@;
    let mut messages: Vec<(MulticastAddr<I::Addr>, GmpMessageType<P>)> = Vec::new();
    if !enabled {
        return messages;
    }
    let n = groups.len();
    let mut i: usize = 0;
    while i < n
        invariant
            gmp_wf(groups@, gmp.timers),
            same_groups(groups0, groups@),
            n == groups0.len(),
            i <= n,
            forall|k: int|
                0 <= k < groups0.len() && I::spec_should_perform_gmp((#[trigger] groups0[k]).addr)
                    && groups0[k].value@ is NonMember ==> report_period_ok(
                    P::spec_cfg_unsolicited_report_interval(&groups0[k].value@.cfg()),
                    now,
                ),
            forall|k: int|
                0 <= k < i ==> if I::spec_should_perform_gmp((#[trigger] groups0[k]).addr) {
                    enable_step(groups0[k].value@, now, groups@[k].value@)
                } else {
                    groups@[k] == groups0[k]
                },
            forall|k: int| i <= k < n ==> groups@[k] == #[trigger] groups0[k],
            messages@ == enable_reports::<I, P>(groups0, i as nat),
        decreases n - i,
    {
        let group_addr = groups.addr_at(i);
        let ghost groups1 = groups@;
        let ghost timers1 = gmp.timers@;
        if I::should_perform_gmp(group_addr) {
            let JoinGroupActions { send_report_and_schedule_timer } = groups.value_at_mut(
                i,
            ).join_if_non_member(rng, now);
            match send_report_and_schedule_timer {
                Some((protocol_specific, delay)) => {
                    let _ = gmp.timers.schedule_after(now, group_addr, delay);
                    messages.push((group_addr, GmpMessageType::Report(protocol_specific)));
                },
                None => {},
            }
            proof {
                lemma_step_keeps_wf(groups1, timers1, i as int, groups@, gmp.timers@);
            }
        }
        i = i + 1;
    }
    messages
}

/// Handles the protocol going down on the device.
///
/// Every member leaves the protocol as on a leave: its timer is stopped if a
/// report was pending, and the groups for which a leave message is to be sent
/// are handed back in the order of the groups. Every group stays in the set
/// with its count: the device is still interested in it.
pub fn gmp_handle_disabled<I: IpExt, P: ProtocolSpecific>(
    state: GmpStateRef<'_, I, P>,
) -> (leave_groups: Vec<MulticastAddr<I::Addr>>)
    requires
        gmp_wf(old(state.groups)@, old(state.gmp).timers),
    ensures
        gmp_wf(final(state.groups)@, final(state.gmp).timers),
        same_groups(old(state.groups)@, final(state.groups)@),
        leave_groups@ == disable_leaves(old(state.groups)@, old(state.groups)@.len()),
        ({
            let groups = old(state.groups)@;
            let groups2 = final(state.groups)@;
            forall|k: int|
                0 <= k < groups.len() ==> (#[trigger] groups2[k]).value@
                    == groups[k].value@.spec_leave_group().0
        }),
        final(state.gmp).timers@ == Map::<MulticastAddr<I::Addr>, Instant>::empty(),
{
    let GmpStateRef { enabled: _, groups, gmp } = state;
    let ghost groups0 = groups@;
    let mut leave_groups: Vec<MulticastAddr<I::Addr>> = Vec::new();
    let n = groups.len();
    let mut i: usize = 0;
    while i < n
        invariant
            gmp_wf(groups@, gmp.timers),
            same_groups(groups0, groups@),
            n == groups0.len(),
            i <= n,
            forall|k: int|
                0 <= k < i ==> (#[trigger] groups@[k]).value@
                    == groups0[k].value@.spec_leave_group().0,
            forall|k: int| i <= k < n ==> groups@[k] == #[trigger] groups0[k],
            leave_groups@ == disable_leaves(groups0, i as nat),
        decreases n - i,
    {
        let group_addr = groups.addr_at(i);
        let ghost groups1 = groups@;
        let ghost timers1 = gmp.timers@;
        let LeaveGroupActions { send_leave, stop_timer } = groups.value_at_mut(i).leave_if_member();
        if stop_timer {
            let _ = gmp.timers.cancel(&group_addr);
        }
        if send_leave {
            leave_groups.push(group_addr);
        }
        proof {
            lemma_step_keeps_wf(groups1, timers1, i as int, groups@, gmp.timers@);
        }
        i = i + 1;
    }
    proof {
        assert forall|addr: MulticastAddr<I::Addr>| !gmp.timers@.dom().contains(addr) by {
            assert(timer_of(gmp.timers@, addr) == expected_timer(groups@, addr));
            if contains_addr(groups@, addr) {
                let k = index_of(groups@, addr);
                assert(groups@[k].value@ == groups0[k].value@.spec_leave_group().0);
            }
        }
    }
    leave_groups
}

/// A message that came in, as far as the engine reads it.
#[derive(Debug, PartialEq, Eq)]
pub enum GmpInbound<A: IpAddress> {
    /// A router asks which groups have members.
    Query {
        /// The groups that the router asks about.
        target: QueryTarget<A>,
        /// The response time that the query carries.
        max_response_time: Duration,
    },
    /// Another host reports that it is a member.
    Report {
        /// The group that the host reports.
        group_addr: MulticastAddr<A>,
    },
    /// A message that a host does not react to: the leave message of another
    /// host, or a message of a protocol version that is not spoken here.
    Ignored,
}

/// What holds after the message `inbound` was handled, of the groups and
/// timers before and after and of the result: for a query see
/// `query_handled`, for a report see `report_handled`. A message that is
/// ignored changes nothing and has no effects.
pub open spec fn inbound_handled<A: IpAddress, P: ProtocolSpecific>(
    groups: Seq<GroupEntry<A, GmpStateMachine<P>>>,
    timers: Map<MulticastAddr<A>, Instant>,
    inbound: GmpInbound<A>,
    now: Instant,
    groups2: Seq<GroupEntry<A, GmpStateMachine<P>>>,
    timers2: Map<MulticastAddr<A>, Instant>,
    r: Result<Seq<QueryEffect<A, P>>, NotAMemberErr<A>>,
) -> bool {
    match inbound {
        GmpInbound::Query { target, max_response_time } => query_handled(
            groups,
            timers,
            target,
            max_response_time,
            now,
            groups2,
            timers2,
            r,
        ),
        GmpInbound::Report { group_addr } => {
            &&& report_handled(
                groups,
                timers,
                group_addr,
                groups2,
                timers2,
                match r {
                    Ok(_) => Ok(()),
                    Err(e) => Err(e),
                },
            )
            &&& r matches Ok(effects) ==> effects == Seq::<QueryEffect<A, P>>::empty()
        },
        GmpInbound::Ignored => {
            &&& groups2 == groups
            &&& timers2 == timers
            &&& r == Ok::<_, NotAMemberErr<A>>(Seq::<QueryEffect<A, P>>::empty())
        },
    }
}

/// Handles a message that came in at `now`, and hands back what is to be
/// sent and what the protocol asks for.
pub fn handle_inbound<I: IpExt, P: ProtocolSpecific>(
    state: GmpStateRef<'_, I, P>,
    rng: &mut XorShiftRng,
    now: Instant,
    inbound: GmpInbound<I::Addr>,
) -> (r: Result<Vec<QueryEffect<I::Addr, P>>, NotAMemberErr<I::Addr>>)
    requires
        gmp_wf(old(state.groups)@, old(state.gmp).timers),
        inbound matches GmpInbound::Query { target, max_response_time } ==> query_allowed_for(
            old(state.groups)@,
            target,
            max_response_time,
            now,
        ),
    ensures
        gmp_wf(final(state.groups)@, final(state.gmp).timers),
        inbound_handled(
            old(state.groups)@,
            old(state.gmp).timers@,
            inbound,
            now,
            final(state.groups)@,
            final(state.gmp).timers@,
            effects_view(r),
        ),
{
    match inbound {
        GmpInbound::Query { target, max_response_time } => handle_query_message(
            state,
            rng,
            now,
            target,
            max_response_time,
        ),
        GmpInbound::Report { group_addr } => match handle_report_message(state, group_addr) {
            Ok(()) => Ok(Vec::new()),
            Err(e) => Err(e),
        },
        GmpInbound::Ignored => Ok(Vec::new()),
    }
}

/// Puts `ps` in the place of the protocol's value in every group of the
/// device. No group changes its membership state, and no timer changes.
pub fn update_all_with_protocol_specific<I: IpExt, P: ProtocolSpecific>(
    state: GmpStateRef<'_, I, P>,
    ps: P,
)
    requires
        gmp_wf(old(state.groups)@, old(state.gmp).timers),
    ensures
        gmp_wf(final(state.groups)@, final(state.gmp).timers),
        same_groups(old(state.groups)@, final(state.groups)@),
        final(state.gmp).timers@ == old(state.gmp).timers@,
        ({
            let groups = old(state.groups)@;
            let groups2 = final(state.groups)@;
            forall|k: int|
                0 <= k < groups.len() ==> (#[trigger] groups2[k]).value@
                    == groups[k].value@.with_protocol_specific(ps)
        }),
{
    let GmpStateRef { enabled: _, groups, gmp } = state;
    let ghost groups0 = groups@;
    let ghost timers = gmp.timers@;
    let n = groups.len();
    let mut i: usize = 0;
    while i < n
        invariant
            groups_wf(groups@),
            timers_match(groups@, timers),
            same_groups(groups0, groups@),
            n == groups0.len(),
            i <= n,
            forall|k: int|
                0 <= k < i ==> (#[trigger] groups@[k]).value@
                    == groups0[k].value@.with_protocol_specific(ps),
            forall|k: int| i <= k < n ==> groups@[k] == #[trigger] groups0[k],
        decreases n - i,
    {
        let ghost groups1 = groups@;
        groups.value_at_mut(i).update_with_protocol_specific(ps);
        proof {
            lemma_step_keeps_wf(groups1, timers, i as int, groups@, timers);
        }
        i = i + 1;
    }
}

} // verus!
