//! Group management protocols (GMPs): the host side of IGMPv2 for IPv4 and of
//! MLDv1 for IPv6, which share one state machine.
//!
//! For every group that a device has joined the engine keeps a
//! [`GmpStateMachine`]. Every transition takes the state by value and hands
//! back the next state together with a record of what is to be done: none of
//! the functions here sends a message or arms a timer.

pub mod device;
pub mod igmp;
pub mod mld;

use crate::rng::gen_below;
use crate::time::{Duration, Instant, NonZeroDuration, NANOS_PER_MICRO};
use rand_xorshift::XorShiftRng;
use vstd::prelude::*;

verus! {

/// Actions to take as a consequence of joining a group.
#[derive(Debug, PartialEq, Eq)]
pub struct JoinGroupActions<P> {
    /// The report to send at once, and the delay after which the report
    /// timer is to fire.
    pub send_report_and_schedule_timer: Option<(P, Duration)>,
}

impl<P> JoinGroupActions<P> {
    /// Nothing to do.
    pub open spec fn spec_noop() -> Self {
        JoinGroupActions { send_report_and_schedule_timer: None }
    }

    /// Nothing to do.
    pub fn noop() -> (a: Self)
        ensures
            a == Self::spec_noop(),
    {
        JoinGroupActions { send_report_and_schedule_timer: None }
    }

    /// The delay that these actions ask a timer for, zero where they ask for
    /// none.
    pub open spec fn delay(self) -> Duration {
        match self.send_report_and_schedule_timer {
            Some((_, d)) => d,
            None => Duration { nanos: 0 },
        }
    }
}

/// Actions to take as a consequence of leaving a group.
#[derive(Debug, PartialEq, Eq, Clone, Copy, Structural)]
pub struct LeaveGroupActions {
    /// Whether a leave message is to be sent.
    pub send_leave: bool,
    /// Whether the report timer is to be stopped.
    pub stop_timer: bool,
}

impl LeaveGroupActions {
    /// Nothing to do.
    pub open spec fn spec_noop() -> Self {
        LeaveGroupActions { send_leave: false, stop_timer: false }
    }

    /// Nothing to do.
    pub fn noop() -> (a: Self)
        ensures
            a == Self::spec_noop(),
    {
        LeaveGroupActions { send_leave: false, stop_timer: false }
    }
}

/// Actions to take as a consequence of handling a received report message.
#[derive(Debug, PartialEq, Eq, Clone, Copy, Structural)]
pub struct ReportReceivedActions {
    /// Whether the report timer is to be stopped.
    pub stop_timer: bool,
}

impl ReportReceivedActions {
    /// Nothing to do.
    pub open spec fn spec_noop() -> Self {
        ReportReceivedActions { stop_timer: false }
    }

    /// Nothing to do.
    pub fn noop() -> (a: Self)
        ensures
            a == Self::spec_noop(),
    {
        ReportReceivedActions { stop_timer: false }
    }
}

/// What the state machine itself asks for when a query has come in.
#[derive(Debug, PartialEq, Eq)]
pub enum QueryReceivedGenericAction<P> {
    /// Arm the report timer to fire after the given delay, in place of the
    /// one that may be pending.
    ScheduleTimer(Duration),
    /// Stop the report timer and send a report now.
    StopTimerAndSendReport(P),
}

/// Actions to take as a consequence of receiving a query message.
#[derive(Debug, PartialEq, Eq)]
pub struct QueryReceivedActions<P: ProtocolSpecific> {
    /// What the state machine asks for.
    pub generic: Option<QueryReceivedGenericAction<P>>,
    /// What the protocol asks for beyond that.
    pub protocol_specific: Option<P::Actions>,
}

impl<P: ProtocolSpecific> QueryReceivedActions<P> {
    /// Nothing to do.
    pub open spec fn spec_noop() -> Self {
        QueryReceivedActions { generic: None, protocol_specific: None }
    }

    /// Nothing to do.
    pub fn noop() -> (a: Self)
        ensures
            a == Self::spec_noop(),
    {
        QueryReceivedActions { generic: None, protocol_specific: None }
    }

    /// The delay that these actions ask a timer for, zero where they ask for
    /// none.
    pub open spec fn delay(self) -> Duration {
        match self.generic {
            Some(QueryReceivedGenericAction::ScheduleTimer(d)) => d,
            _ => Duration { nanos: 0 },
        }
    }
}

/// Actions to take as a consequence of a report timer expiring.
#[derive(Debug, PartialEq, Eq)]
pub struct ReportTimerExpiredActions<P> {
    /// The report to send.
    pub send_report: P,
}

/// Where IGMPv2 and MLDv1 differ: what each keeps per group, what each can be
/// configured with, and how each reads the response time of a query.
pub trait ProtocolSpecific: Copy {
    /// What the protocol may ask for beyond the actions of the shared state
    /// machine.
    type Actions;

    /// What the user can configure.
    type Config: core::fmt::Debug;

    /// The value that the protocol keeps for a group that was just joined.
    spec fn spec_initial() -> Self;

    /// The configuration of a group that was just joined.
    spec fn spec_default_config() -> Self::Config;

    /// The longest delay before the second of the two unsolicited reports.
    spec fn spec_cfg_unsolicited_report_interval(cfg: &Self::Config) -> Duration;

    /// Whether a leave message is sent even by a host that was not the last
    /// to report.
    spec fn spec_cfg_send_leave_anyway(cfg: &Self::Config) -> bool;

    /// The window within which a query with the given response time is to be
    /// answered. `None` stands for "at once".
    spec fn spec_get_max_resp_time(resp_time: Duration) -> Option<Duration>;

    /// What the protocol keeps for the group after a query, and what it asks
    /// for.
    spec fn spec_do_query_received_specific(
        cfg: &Self::Config,
        max_resp_time: Duration,
        previous: Self,
    ) -> (Self, Option<Self::Actions>);

    /// The value that the protocol keeps for a group that was just joined.
    fn initial() -> (p: Self)
        ensures
            p == Self::spec_initial(),
    ;

    /// The configuration of a group that was just joined.
    fn default_config() -> (cfg: Self::Config)
        ensures
            cfg == Self::spec_default_config(),
    ;

    /// The longest delay before the second of the two unsolicited reports.
    fn cfg_unsolicited_report_interval(cfg: &Self::Config) -> (d: Duration)
        ensures
            d == Self::spec_cfg_unsolicited_report_interval(cfg),
    ;

    /// Whether a leave message is sent even by a host that was not the last
    /// to report.
    fn cfg_send_leave_anyway(cfg: &Self::Config) -> (b: bool)
        ensures
            b == Self::spec_cfg_send_leave_anyway(cfg),
    ;

    /// The window within which a query with the given response time is to be
    /// answered. `None` stands for "at once".
    fn get_max_resp_time(resp_time: Duration) -> (r: Option<NonZeroDuration>)
        ensures
            r matches Some(window) ==> Self::spec_get_max_resp_time(resp_time) == Some(
                window.spec_get(),
            ),
            r is None ==> Self::spec_get_max_resp_time(resp_time) is None,
    ;

    /// Responds to a query in the protocol's own way.
    fn do_query_received_specific(
        cfg: &Self::Config,
        max_resp_time: Duration,
        previous: Self,
    ) -> (r: (Self, Option<Self::Actions>))
        ensures
            r == Self::spec_do_query_received_specific(cfg, max_resp_time, previous),
    ;
}

/// The next state and the actions of one transition.
pub struct Transition<S, P: ProtocolSpecific, Actions>(pub GmpHostState<S, P>, pub Actions);

/// What is kept for a group in every state: the state's own variables, the
/// protocol's value, and the configuration. The last two pass through every
/// transition unchanged, but for the protocol's own update on a query.
#[derive(Debug)]
pub struct GmpHostState<State, P: ProtocolSpecific> {
    /// The variables of the state itself.
    pub state: State,
    /// What only the protocol may change.
    pub protocol_specific: P,
    /// What only the user may change.
    pub cfg: P::Config,
}

impl<S, P: ProtocolSpecific> GmpHostState<S, P> {
    /// The transition from this state into `t` with the given actions.
    pub fn transition<T, A>(self, t: T, actions: A) -> (r: Transition<T, P, A>)
        ensures
            r.0.state == t,
            r.0.protocol_specific == self.protocol_specific,
            r.0.cfg == self.cfg,
            r.1 == actions,
    {
        Transition(
            GmpHostState { state: t, protocol_specific: self.protocol_specific, cfg: self.cfg },
            actions,
        )
    }

    /// What the protocol keeps for the group.
    pub fn get_protocol_specific(&self) -> (p: P)
        ensures
            p == self.protocol_specific,
    {
        self.protocol_specific
    }

    /// The variables of the state itself.
    pub fn get_state(&self) -> (s: &S)
        ensures
            *s == self.state,
    {
        &self.state
    }
}

/// The state of a group that is joined locally while the protocol does not
/// run for it.
#[derive(Debug, Clone, Copy, PartialEq, Eq, Structural)]
pub struct NonMember;

/// The state of a group for which a report is pending.
#[derive(Debug, Clone, Copy, PartialEq, Eq, Structural)]
pub struct DelayingMember {
    /// When the pending report timer fires.
    pub timer_expiration: Instant,
    /// Whether this host sent the last report and so has to send a leave
    /// message when it goes. It is cleared on hearing another host's report.
    pub last_reporter: bool,
}

/// The state of a member for which no report is pending.
#[derive(Debug, Clone, Copy, PartialEq, Eq, Structural)]
pub struct IdleMember {
    /// Whether this host sent the last report and so has to send a leave
    /// message when it goes.
    pub last_reporter: bool,
}

/// The state of one group membership.
#[derive(Debug)]
pub enum MemberState<P: ProtocolSpecific> {
    /// Joined locally, protocol not running.
    NonMember(GmpHostState<NonMember, P>),
    /// A report is pending.
    Delaying(GmpHostState<DelayingMember, P>),
    /// A member with nothing pending.
    Idle(GmpHostState<IdleMember, P>),
}

/// Whether `period`, read at `now`, can be turned into a random delay: it
/// holds at least one whole microsecond, its microseconds fit in 64 bits, and
/// the latest instant that a delay out of it can lead to can be held.
pub open spec fn report_period_ok(period: Duration, now: Instant) -> bool {
    &&& 1 <= period.micros() <= u64::MAX
    &&& now@ + period.micros() * NANOS_PER_MICRO <= u128::MAX
}

/// Whether `period`, read at `now`, can be turned into a random delay.
pub fn report_period_fits(period: Duration, now: Instant) -> (fits: bool)
    ensures
        fits == report_period_ok(period, now),
{
    let micros: u128 = period.as_micros();
    if micros < 1 || micros > (u64::MAX as u128) {
        return false;
    }
    match micros.checked_mul(NANOS_PER_MICRO) {
        Some(nanos) => now.checked_add(Duration { nanos }).is_some(),
        None => false,
    }
}

/// Whether `delay` is one of the delays that may be drawn out of `period`: a
/// whole number of microseconds, at least one, and no more than `period`
/// holds.
pub open spec fn is_report_timeout(period: Duration, delay: Duration) -> bool {
    &&& delay@ % (NANOS_PER_MICRO as nat) == 0
    &&& 1 <= delay.micros() <= period.micros()
}

/// The delay that stands for the sample `sample` of a uniform draw from
/// `0..n`: one microsecond more than the sample, so that the delay is never
/// zero and may be the whole period.
pub fn report_timeout_from_sample(sample: u64) -> (delay: Duration)
    requires
        sample < u64::MAX,
    ensures
        delay == Duration::spec_from_micros((sample + 1) as u64),
        delay@ == (sample + 1) * NANOS_PER_MICRO,
{
    Duration::from_micros(sample + 1)
}

/// Draws a delay out of `(0, period]`, in whole microseconds.
pub fn random_report_timeout(rng: &mut XorShiftRng, period: Duration) -> (delay: Duration)
    requires
        1 <= period.micros() <= u64::MAX,
    ensures
        is_report_timeout(period, delay),
{
    let micros: u128 = period.as_micros();
    let sample = gen_below(rng, micros as u64);
    report_timeout_from_sample(sample)
}

impl<P: ProtocolSpecific> MemberState<P> {
    /// What the protocol keeps for the group.
    pub open spec fn protocol_specific(self) -> P {
        match self {
            MemberState::NonMember(s) => s.protocol_specific,
            MemberState::Delaying(s) => s.protocol_specific,
            MemberState::Idle(s) => s.protocol_specific,
        }
    }

    /// The group's configuration.
    pub open spec fn cfg(self) -> P::Config {
        match self {
            MemberState::NonMember(s) => s.cfg,
            MemberState::Delaying(s) => s.cfg,
            MemberState::Idle(s) => s.cfg,
        }
    }

    /// The instant at which the group's report timer fires, if one is
    /// pending.
    pub open spec fn timer(self) -> Option<Instant> {
        match self {
            MemberState::Delaying(s) => Some(s.state.timer_expiration),
            _ => None,
        }
    }

    /// Whether this host counts as the last to have reported the group. A
    /// non-member never does.
    pub open spec fn last_reporter(self) -> bool {
        match self {
            MemberState::NonMember(_) => false,
            MemberState::Delaying(s) => s.state.last_reporter,
            MemberState::Idle(s) => s.state.last_reporter,
        }
    }

    /// The same state with `ps` as the protocol's value.
    pub open spec fn with_protocol_specific(self, ps: P) -> Self {
        match self {
            MemberState::NonMember(s) => MemberState::NonMember(
                GmpHostState { state: s.state, protocol_specific: ps, cfg: s.cfg },
            ),
            MemberState::Delaying(s) => MemberState::Delaying(
                GmpHostState { state: s.state, protocol_specific: ps, cfg: s.cfg },
            ),
            MemberState::Idle(s) => MemberState::Idle(
                GmpHostState { state: s.state, protocol_specific: ps, cfg: s.cfg },
            ),
        }
    }

    /// The same state with `cfg` as the configuration.
    pub open spec fn with_cfg(self, cfg: P::Config) -> Self {
        match self {
            MemberState::NonMember(s) => MemberState::NonMember(
                GmpHostState { state: s.state, protocol_specific: s.protocol_specific, cfg },
            ),
            MemberState::Delaying(s) => MemberState::Delaying(
                GmpHostState { state: s.state, protocol_specific: s.protocol_specific, cfg },
            ),
            MemberState::Idle(s) => MemberState::Idle(
                GmpHostState { state: s.state, protocol_specific: s.protocol_specific, cfg },
            ),
        }
    }

    /// The state of a group that was just joined, and what is to be done for
    /// it. With the protocol disabled the group is a non-member and nothing
    /// is done. Otherwise a report is sent at once, a second one is due
    /// `delay` from `now`, and this host counts as the last reporter.
    pub open spec fn spec_join_group(
        protocol_specific: P,
        cfg: P::Config,
        now: Instant,
        delay: Duration,
        gmp_disabled: bool,
    ) -> (MemberState<P>, JoinGroupActions<P>) {
        if gmp_disabled {
            (
                MemberState::NonMember(GmpHostState { state: NonMember, protocol_specific, cfg }),
                JoinGroupActions::spec_noop(),
            )
        } else {
            (
                MemberState::Delaying(
                    GmpHostState {
                        state: DelayingMember {
                            timer_expiration: now.spec_add(delay),
                            last_reporter: true,
                        },
                        protocol_specific,
                        cfg,
                    },
                ),
                JoinGroupActions {
                    send_report_and_schedule_timer: Some((protocol_specific, delay)),
                },
            )
        }
    }

    /// What becomes of the state when the protocol comes up: a non-member
    /// joins as in `spec_join_group`, a member stays as it is.
    pub open spec fn spec_join_if_non_member(self, now: Instant, delay: Duration) -> (
        MemberState<P>,
        JoinGroupActions<P>,
    ) {
        match self {
            MemberState::NonMember(s) => Self::spec_join_group(
                s.protocol_specific,
                s.cfg,
                now,
                delay,
                false,
            ),
            _ => (self, JoinGroupActions::spec_noop()),
        }
    }

    /// Whether a member in this state sends a leave message when it goes: it
    /// does if it was the last to report, or if it is configured to do so
    /// anyway.
    pub open spec fn sends_leave(self) -> bool {
        match self {
            MemberState::NonMember(_) => false,
            MemberState::Delaying(s) => s.state.last_reporter || P::spec_cfg_send_leave_anyway(
                &s.cfg,
            ),
            MemberState::Idle(s) => s.state.last_reporter || P::spec_cfg_send_leave_anyway(&s.cfg),
        }
    }

    /// The state after the group is left, which is always that of a
    /// non-member, and what is to be done: a pending timer is stopped, and a
    /// member sends a leave message as `sends_leave` says.
    pub open spec fn spec_leave_group(self) -> (MemberState<P>, LeaveGroupActions) {
        (
            MemberState::NonMember(
                GmpHostState {
                    state: NonMember,
                    protocol_specific: self.protocol_specific(),
                    cfg: self.cfg(),
                },
            ),
            LeaveGroupActions { send_leave: self.sends_leave(), stop_timer: self is Delaying },
        )
    }

    /// The state after another host's report was heard. A pending report is
    /// dropped: the group becomes idle, its timer is stopped, and this host is
    /// no longer the last reporter. In the other states nothing changes.
    pub open spec fn spec_report_received(self) -> (MemberState<P>, ReportReceivedActions) {
        match self {
            MemberState::Delaying(s) => (
                MemberState::Idle(
                    GmpHostState {
                        state: IdleMember { last_reporter: false },
                        protocol_specific: s.protocol_specific,
                        cfg: s.cfg,
                    },
                ),
                ReportReceivedActions { stop_timer: true },
            ),
            _ => (self, ReportReceivedActions::spec_noop()),
        }
    }

    /// The state after the report timer has fired, which it only does for a
    /// group with a pending report: the report is sent, the group becomes
    /// idle, and this host is the last reporter.
    pub open spec fn spec_report_timer_expired(self) -> (
        MemberState<P>,
        ReportTimerExpiredActions<P>,
    ) {
        (
            MemberState::Idle(
                GmpHostState {
                    state: IdleMember { last_reporter: true },
                    protocol_specific: self.protocol_specific(),
                    cfg: self.cfg(),
                },
            ),
            ReportTimerExpiredActions { send_report: self.protocol_specific() },
        )
    }

    /// Whether a query with the given response time, heard at `now`, makes a
    /// member in this state draw a new delay: the query leaves a window, and
    /// no timer is pending that fires within it.
    pub open spec fn query_needs_new_timer(self, max_resp_time: Duration, now: Instant) -> bool {
        &&& !(self is NonMember)
        &&& P::spec_get_max_resp_time(max_resp_time) matches Some(window)
        &&& (self.timer() matches Some(pending) ==> now@ + window@ < pending@)
    }

    /// Whether the state machine can take a query with the given response
    /// time at `now`: the end of the window that the query leaves can be held
    /// as an instant, and where a new delay is drawn the window can be turned
    /// into one.
    pub open spec fn query_allowed(self, max_resp_time: Duration, now: Instant) -> bool {
        &&& !(self is NonMember) ==> (P::spec_get_max_resp_time(max_resp_time) matches Some(
            window,
        ) ==> now.fits_after(window))
        &&& self.query_needs_new_timer(max_resp_time, now) ==> report_period_ok(
            P::spec_get_max_resp_time(max_resp_time)->0,
            now,
        )
    }

    /// Whether the state machine can take a query with the given response
    /// time at `now`.
    pub fn query_fits(&self, max_resp_time: Duration, now: Instant) -> (fits: bool)
        ensures
            fits == self.query_allowed(max_resp_time, now),
    {
        let pending = match self {
            MemberState::NonMember(_) => {
                return true;
            },
            MemberState::Delaying(s) => Some(s.state.timer_expiration),
            MemberState::Idle(_) => None,
        };
        match P::get_max_resp_time(max_resp_time) {
            None => true,
            Some(window) => {
                let window = window.get();
                match now.checked_add(window) {
                    None => false,
                    Some(new_deadline) => {
                        let keeps = match pending {
                            Some(pending) => new_deadline.ge(&pending),
                            None => false,
                        };
                        keeps || report_period_fits(window, now)
                    },
                }
            },
        }
    }

    /// The state after a query with the given response time was heard at
    /// `now`, and what is to be done, where `delay` is the delay that is
    /// drawn if one is needed.
    ///
    /// A non-member ignores the query. For a member the protocol first
    /// updates its own value. Then, where the protocol reads the response
    /// time as "at once", the member becomes idle, stops its timer and sends
    /// a report. Where it reads a window and a timer is pending that fires
    /// by the end of the window, that timer stays. Otherwise the member
    /// waits for `delay` from `now`. Who the last reporter is does not
    /// change.
    pub open spec fn spec_query_received(
        self,
        max_resp_time: Duration,
        now: Instant,
        delay: Duration,
    ) -> (MemberState<P>, QueryReceivedActions<P>) {
        match self {
            MemberState::NonMember(_) => (self, QueryReceivedActions::spec_noop()),
            MemberState::Delaying(s) => spec_member_query_received(
                s.state.last_reporter,
                Some(s.state.timer_expiration),
                max_resp_time,
                now,
                s.cfg,
                s.protocol_specific,
                delay,
            ),
            MemberState::Idle(s) => spec_member_query_received(
                s.state.last_reporter,
                None,
                max_resp_time,
                now,
                s.cfg,
                s.protocol_specific,
                delay,
            ),
        }
    }
}

/// What a query does to a member: see `MemberState::spec_query_received`.
/// `timer_expiration` is the instant of the pending timer, `None` for an idle
/// member.
pub open spec fn spec_member_query_received<P: ProtocolSpecific>(
    last_reporter: bool,
    timer_expiration: Option<Instant>,
    max_resp_time: Duration,
    now: Instant,
    cfg: P::Config,
    ps: P,
    delay: Duration,
) -> (MemberState<P>, QueryReceivedActions<P>) {
    let (protocol_specific, ps_actions) = P::spec_do_query_received_specific(
        &cfg,
        max_resp_time,
        ps,
    );
    match P::spec_get_max_resp_time(max_resp_time) {
        None => (
            MemberState::Idle(
                GmpHostState { state: IdleMember { last_reporter }, protocol_specific, cfg },
            ),
            QueryReceivedActions {
                generic: Some(
                    QueryReceivedGenericAction::StopTimerAndSendReport(protocol_specific),
                ),
                protocol_specific: ps_actions,
            },
        ),
        Some(window) => {
            if timer_expiration is Some && now@ + window@ >= timer_expiration->0@ {
                (
                    MemberState::Delaying(
                        GmpHostState {
                            state: DelayingMember {
                                timer_expiration: timer_expiration->0,
                                last_reporter,
                            },
                            protocol_specific,
                            cfg,
                        },
                    ),
                    QueryReceivedActions { generic: None, protocol_specific: ps_actions },
                )
            } else {
                (
                    MemberState::Delaying(
                        GmpHostState {
                            state: DelayingMember {
                                timer_expiration: now.spec_add(delay),
                                last_reporter,
                            },
                            protocol_specific,
                            cfg,
                        },
                    ),
                    QueryReceivedActions {
                        generic: Some(QueryReceivedGenericAction::ScheduleTimer(delay)),
                        protocol_specific: ps_actions,
                    },
                )
            }
        },
    }
}

/// Computes the next state of a member that has heard a query, and what is
/// to be done.
///
/// `timer_expiration` is the instant of the pending timer, `None` for an idle
/// member. A delay is drawn from `rng` only where no pending timer fires
/// within the query's window.
pub fn member_query_received<P: ProtocolSpecific>(
    rng: &mut XorShiftRng,
    last_reporter: bool,
    timer_expiration: Option<Instant>,
    max_resp_time: Duration,
    now: Instant,
    cfg: P::Config,
    ps: P,
) -> (r: (MemberState<P>, QueryReceivedActions<P>))
    requires
        P::spec_get_max_resp_time(max_resp_time) matches Some(window) ==> now.fits_after(window)
            && ((timer_expiration matches Some(pending) ==> now@ + window@ < pending@)
            ==> report_period_ok(window, now)),
    ensures
        r == spec_member_query_received(
            last_reporter,
            timer_expiration,
            max_resp_time,
            now,
            cfg,
            ps,
            r.1.delay(),
        ),
        r.1.generic matches Some(QueryReceivedGenericAction::ScheduleTimer(d))
            ==> is_report_timeout(P::spec_get_max_resp_time(max_resp_time)->0, d),
{
    let (protocol_specific, ps_actions) = P::do_query_received_specific(&cfg, max_resp_time, ps);
    match P::get_max_resp_time(max_resp_time) {
        None => (
            MemberState::Idle(
                GmpHostState { state: IdleMember { last_reporter }, protocol_specific, cfg },
            ),
            QueryReceivedActions {
                generic: Some(
                    QueryReceivedGenericAction::StopTimerAndSendReport(protocol_specific),
                ),
                protocol_specific: ps_actions,
            },
        ),
        Some(window) => {
            let window = window.get();
            let new_deadline = now.checked_add(window).unwrap();
            let keep = match timer_expiration {
                Some(pending) => new_deadline.ge(&pending),
                None => false,
            };
            if keep {
                (
                    MemberState::Delaying(
                        GmpHostState {
                            state: DelayingMember {
                                timer_expiration: timer_expiration.unwrap(),
                                last_reporter,
                            },
                            protocol_specific,
                            cfg,
                        },
                    ),
                    QueryReceivedActions { generic: None, protocol_specific: ps_actions },
                )
            } else {
                let delay = random_report_timeout(rng, window);
                (
                    MemberState::Delaying(
                        GmpHostState {
                            state: DelayingMember {
                                timer_expiration: now.checked_add(delay).unwrap(),
                                last_reporter,
                            },
                            protocol_specific,
                            cfg,
                        },
                    ),
                    QueryReceivedActions {
                        generic: Some(QueryReceivedGenericAction::ScheduleTimer(delay)),
                        protocol_specific: ps_actions,
                    },
                )
            }
        },
    }
}

impl<P: ProtocolSpecific> GmpHostState<NonMember, P> {
    /// Starts the protocol for the group: a report is sent at once, and a
    /// second one is due after a random delay out of the unsolicited report
    /// interval.
    pub fn join_group(self, rng: &mut XorShiftRng, now: Instant) -> (r: Transition<
        DelayingMember,
        P,
        JoinGroupActions<P>,
    >)
        requires
            report_period_ok(P::spec_cfg_unsolicited_report_interval(&self.cfg), now),
        ensures
            (MemberState::Delaying(r.0), r.1) == MemberState::spec_join_group(
                self.protocol_specific,
                self.cfg,
                now,
                r.1.delay(),
                false,
            ),
            is_report_timeout(P::spec_cfg_unsolicited_report_interval(&self.cfg), r.1.delay()),
    {
        let duration = P::cfg_unsolicited_report_interval(&self.cfg);
        let delay = random_report_timeout(rng, duration);
        let actions = JoinGroupActions {
            send_report_and_schedule_timer: Some((self.protocol_specific, delay)),
        };
        self.transition(
            DelayingMember {
                last_reporter: true,
                timer_expiration: now.checked_add(delay).unwrap(),
            },
            actions,
        )
    }

    /// Leaves the group, for which nothing is to be done.
    pub fn leave_group(self) -> (r: Transition<NonMember, P, LeaveGroupActions>)
        ensures
            (MemberState::NonMember(r.0), r.1) == MemberState::NonMember(self).spec_leave_group(),
    {
        self.transition(NonMember, LeaveGroupActions::noop())
    }
}

impl<P: ProtocolSpecific> GmpHostState<DelayingMember, P> {
    /// Takes a query that was heard at `now`.
    pub fn query_received(self, rng: &mut XorShiftRng, max_resp_time: Duration, now: Instant) -> (r:
        (MemberState<P>, QueryReceivedActions<P>))
        requires
            MemberState::Delaying(self).query_allowed(max_resp_time, now),
        ensures
            r == MemberState::Delaying(self).spec_query_received(max_resp_time, now, r.1.delay()),
            r.1.generic matches Some(QueryReceivedGenericAction::ScheduleTimer(d))
                ==> is_report_timeout(P::spec_get_max_resp_time(max_resp_time)->0, d),
    {
        let GmpHostState {
            state: DelayingMember { last_reporter, timer_expiration },
            protocol_specific,
            cfg,
        } = self;
        member_query_received(
            rng,
            last_reporter,
            Some(timer_expiration),
            max_resp_time,
            now,
            cfg,
            protocol_specific,
        )
    }

    /// Leaves the group: the timer is stopped, and a leave message is sent
    /// where this host was the last to report or is configured to send one
    /// anyway.
    pub fn leave_group(self) -> (r: Transition<NonMember, P, LeaveGroupActions>)
        ensures
            (MemberState::NonMember(r.0), r.1) == MemberState::Delaying(self).spec_leave_group(),
    {
        let actions = LeaveGroupActions {
            send_leave: self.state.last_reporter || P::cfg_send_leave_anyway(&self.cfg),
            stop_timer: true,
        };
        self.transition(NonMember, actions)
    }

    /// Takes another host's report: the pending report is dropped.
    pub fn report_received(self) -> (r: Transition<IdleMember, P, ReportReceivedActions>)
        ensures
            (MemberState::Idle(r.0), r.1) == MemberState::Delaying(self).spec_report_received(),
    {
        self.transition(
            IdleMember { last_reporter: false },
            ReportReceivedActions { stop_timer: true },
        )
    }

    /// Takes the expiry of the report timer: the report is sent.
    pub fn report_timer_expired(self) -> (r: Transition<
        IdleMember,
        P,
        ReportTimerExpiredActions<P>,
    >)
        ensures
            (MemberState::Idle(r.0), r.1) == MemberState::Delaying(
                self,
            ).spec_report_timer_expired(),
    {
        let actions = ReportTimerExpiredActions { send_report: self.protocol_specific };
        self.transition(IdleMember { last_reporter: true }, actions)
    }
}

impl<P: ProtocolSpecific> GmpHostState<IdleMember, P> {
    /// Takes a query that was heard at `now`.
    pub fn query_received(self, rng: &mut XorShiftRng, max_resp_time: Duration, now: Instant) -> (r:
        (MemberState<P>, QueryReceivedActions<P>))
        requires
            MemberState::Idle(self).query_allowed(max_resp_time, now),
        ensures
            r == MemberState::Idle(self).spec_query_received(max_resp_time, now, r.1.delay()),
            r.1.generic matches Some(QueryReceivedGenericAction::ScheduleTimer(d))
                ==> is_report_timeout(P::spec_get_max_resp_time(max_resp_time)->0, d),
    {
        let GmpHostState { state: IdleMember { last_reporter }, protocol_specific, cfg } = self;
        member_query_received(rng, last_reporter, None, max_resp_time, now, cfg, protocol_specific)
    }

    /// Leaves the group: a leave message is sent where this host was the
    /// last to report or is configured to send one anyway.
    pub fn leave_group(self) -> (r: Transition<NonMember, P, LeaveGroupActions>)
        ensures
            (MemberState::NonMember(r.0), r.1) == MemberState::Idle(self).spec_leave_group(),
    {
        let actions = LeaveGroupActions {
            send_leave: self.state.last_reporter || P::cfg_send_leave_anyway(&self.cfg),
            stop_timer: false,
        };
        self.transition(NonMember, actions)
    }
}

impl<P: ProtocolSpecific> MemberState<P> {
    /// Performs the "join group" transition for a group that was not in the
    /// set before.
    pub fn join_group(
        protocol_specific: P,
        cfg: P::Config,
        rng: &mut XorShiftRng,
        now: Instant,
        gmp_disabled: bool,
    ) -> (r: (MemberState<P>, JoinGroupActions<P>))
        requires
            !gmp_disabled ==> report_period_ok(P::spec_cfg_unsolicited_report_interval(&cfg), now),
        ensures
            r == Self::spec_join_group(protocol_specific, cfg, now, r.1.delay(), gmp_disabled),
            !gmp_disabled ==> is_report_timeout(
                P::spec_cfg_unsolicited_report_interval(&cfg),
                r.1.delay(),
            ),
    {
        let non_member = GmpHostState { protocol_specific, cfg, state: NonMember };
        if gmp_disabled {
            (MemberState::NonMember(non_member), JoinGroupActions::noop())
        } else {
            let Transition(state, actions) = non_member.join_group(rng, now);
            (MemberState::Delaying(state), actions)
        }
    }

    /// Performs the "leave group" transition.
    pub fn leave_group(self) -> (r: (MemberState<P>, LeaveGroupActions))
        ensures
            r == self.spec_leave_group(),
    {
        let Transition(state, actions) = match self {
            MemberState::NonMember(state) => state.leave_group(),
            MemberState::Delaying(state) => state.leave_group(),
            MemberState::Idle(state) => state.leave_group(),
        };
        (MemberState::NonMember(state), actions)
    }

    /// Takes a query that was heard at `now`.
    pub fn query_received(self, rng: &mut XorShiftRng, max_resp_time: Duration, now: Instant) -> (r:
        (MemberState<P>, QueryReceivedActions<P>))
        requires
            self.query_allowed(max_resp_time, now),
        ensures
            r == self.spec_query_received(max_resp_time, now, r.1.delay()),
            self.query_needs_new_timer(max_resp_time, now) ==> is_report_timeout(
                P::spec_get_max_resp_time(max_resp_time)->0,
                r.1.delay(),
            ),
    {
        match self {
            MemberState::NonMember(state) => (
                MemberState::NonMember(state),
                QueryReceivedActions::noop(),
            ),
            MemberState::Delaying(state) => state.query_received(rng, max_resp_time, now),
            MemberState::Idle(state) => state.query_received(rng, max_resp_time, now),
        }
    }

    /// Takes another host's report.
    pub fn report_received(self) -> (r: (MemberState<P>, ReportReceivedActions))
        ensures
            r == self.spec_report_received(),
    {
        match self {
            MemberState::Idle(state) => (MemberState::Idle(state), ReportReceivedActions::noop()),
            MemberState::NonMember(state) => (
                MemberState::NonMember(state),
                ReportReceivedActions::noop(),
            ),
            MemberState::Delaying(state) => {
                let Transition(state, actions) = state.report_received();
                (MemberState::Idle(state), actions)
            },
        }
    }

    /// Takes the expiry of the report timer. A timer is pending only for a
    /// group with a pending report, so the state must be `Delaying`.
    pub fn report_timer_expired(self) -> (r: (MemberState<P>, ReportTimerExpiredActions<P>))
        requires
            self is Delaying,
        ensures
            r == self.spec_report_timer_expired(),
    {
        match self {
            MemberState::Delaying(state) => {
                let Transition(state, actions) = state.report_timer_expired();
                (MemberState::Idle(state), actions)
            },
            MemberState::Idle(_) => unreached(),
            MemberState::NonMember(_) => unreached(),
        }
    }
}

/// The state machine of one group membership.
#[derive(Debug)]
pub struct GmpStateMachine<P: ProtocolSpecific> {
    // Always `Some`. The state is taken out for a transition, which consumes
    // it by value, and the next state is put in its place.
    inner: Option<MemberState<P>>,
}

impl<P: ProtocolSpecific> View for GmpStateMachine<P> {
    type V = MemberState<P>;

    /// The state that the machine is in.
    closed spec fn view(&self) -> MemberState<P> {
        self.inner->0
    }
}

impl<P: ProtocolSpecific> GmpStateMachine<P> {
    /// The invariant of the machine: it is in a state.
    pub closed spec fn wf(&self) -> bool {
        self.inner is Some
    }

    /// Creates the machine of a group that was just joined, in the state that
    /// the "join group" transition leads to from a non-member with the
    /// protocol's initial value and default configuration.
    pub fn join_group(rng: &mut XorShiftRng, now: Instant, gmp_disabled: bool) -> (r: (
        GmpStateMachine<P>,
        JoinGroupActions<P>,
    ))
        requires
            !gmp_disabled ==> report_period_ok(
                P::spec_cfg_unsolicited_report_interval(&P::spec_default_config()),
                now,
            ),
        ensures
            r.0.wf(),
            (r.0@, r.1) == MemberState::spec_join_group(
                P::spec_initial(),
                P::spec_default_config(),
                now,
                r.1.delay(),
                gmp_disabled,
            ),
            !gmp_disabled ==> is_report_timeout(
                P::spec_cfg_unsolicited_report_interval(&P::spec_default_config()),
                r.1.delay(),
            ),
    {
        let (state, actions) = MemberState::join_group(
            P::initial(),
            P::default_config(),
            rng,
            now,
            gmp_disabled,
        );
        (GmpStateMachine { inner: Some(state) }, actions)
    }

    /// Joins the group if it is in the non-member state, and does nothing if
    /// it is a member already.
    pub fn join_if_non_member(&mut self, rng: &mut XorShiftRng, now: Instant) -> (actions:
        JoinGroupActions<P>)
        requires
            old(self).wf(),
            old(self)@ is NonMember ==> report_period_ok(
                P::spec_cfg_unsolicited_report_interval(&old(self)@.cfg()),
                now,
            ),
        ensures
            final(self).wf(),
            (final(self)@, actions) == old(self)@.spec_join_if_non_member(now, actions.delay()),
            old(self)@ is NonMember ==> is_report_timeout(
                P::spec_cfg_unsolicited_report_interval(&old(self)@.cfg()),
                actions.delay(),
            ),
    {
        let (state, actions) = match self.inner.take().unwrap() {
            MemberState::NonMember(s) => {
                let Transition(state, actions) = s.join_group(rng, now);
                (MemberState::Delaying(state), actions)
            },
            MemberState::Delaying(s) => (MemberState::Delaying(s), JoinGroupActions::noop()),
            MemberState::Idle(s) => (MemberState::Idle(s), JoinGroupActions::noop()),
        };
        self.inner = Some(state);
        actions
    }

    /// Leaves the group if it is in a member state, and does nothing if it is
    /// a non-member. The machine stays in the set.
    pub fn leave_if_member(&mut self) -> (actions: LeaveGroupActions)
        requires
            old(self).wf(),
        ensures
            final(self).wf(),
            (final(self)@, actions) == old(self)@.spec_leave_group(),
    {
        let (state, actions) = self.inner.take().unwrap().leave_group();
        self.inner = Some(state);
        actions
    }

    /// Takes the machine of a group that was left for good and says what is
    /// to be done.
    pub fn leave_group(self) -> (actions: LeaveGroupActions)
        requires
            self.wf(),
        ensures
            actions == self@.spec_leave_group().1,
    {
        let (_state, actions) = self.inner.unwrap().leave_group();
        actions
    }

    /// Takes a query that was heard at `now` and is to be answered within
    /// `max_resp_time`, as the protocol reads that time.
    pub fn query_received(
        &mut self,
        rng: &mut XorShiftRng,
        max_resp_time: Duration,
        now: Instant,
    ) -> (actions: QueryReceivedActions<P>)
        requires
            old(self).wf(),
            old(self)@.query_allowed(max_resp_time, now),
        ensures
            final(self).wf(),
            (final(self)@, actions) == old(self)@.spec_query_received(
                max_resp_time,
                now,
                actions.delay(),
            ),
            old(self)@.query_needs_new_timer(max_resp_time, now) ==> is_report_timeout(
                P::spec_get_max_resp_time(max_resp_time)->0,
                actions.delay(),
            ),
    {
        let (state, actions) = self.inner.take().unwrap().query_received(rng, max_resp_time, now);
        self.inner = Some(state);
        actions
    }

    /// Takes the report of another host on the link.
    pub fn report_received(&mut self) -> (actions: ReportReceivedActions)
        requires
            old(self).wf(),
        ensures
            final(self).wf(),
            (final(self)@, actions) == old(self)@.spec_report_received(),
    {
        let (state, actions) = self.inner.take().unwrap().report_received();
        self.inner = Some(state);
        actions
    }

    /// Takes the expiry of the report timer, which is only pending while the
    /// machine is in the `Delaying` state.
    pub fn report_timer_expired(&mut self) -> (actions: ReportTimerExpiredActions<P>)
        requires
            old(self).wf(),
            old(self)@ is Delaying,
        ensures
            final(self).wf(),
            (final(self)@, actions) == old(self)@.spec_report_timer_expired(),
    {
        let (state, actions) = self.inner.take().unwrap().report_timer_expired();
        self.inner = Some(state);
        actions
    }

    /// Puts `ps` in the place of the protocol's value and leaves the state
    /// as it is.
    pub fn update_with_protocol_specific(&mut self, ps: P)
        requires
            old(self).wf(),
        ensures
            final(self).wf(),
            final(self)@ == old(self)@.with_protocol_specific(ps),
    {
        let state = match self.inner.take().unwrap() {
            MemberState::NonMember(GmpHostState { state, cfg, protocol_specific: _ }) => {
                MemberState::NonMember(GmpHostState { state, cfg, protocol_specific: ps })
            },
            MemberState::Delaying(GmpHostState { state, cfg, protocol_specific: _ }) => {
                MemberState::Delaying(GmpHostState { state, cfg, protocol_specific: ps })
            },
            MemberState::Idle(GmpHostState { state, cfg, protocol_specific: _ }) => {
                MemberState::Idle(GmpHostState { state, cfg, protocol_specific: ps })
            },
        };
        self.inner = Some(state);
    }

    /// Puts `cfg` in the place of the group's configuration and leaves the
    /// state as it is.
    pub fn set_config(&mut self, cfg: P::Config)
        requires
            old(self).wf(),
        ensures
            final(self).wf(),
            final(self)@ == old(self)@.with_cfg(cfg),
    {
        let state = match self.inner.take().unwrap() {
            MemberState::NonMember(GmpHostState { state, cfg: _, protocol_specific }) => {
                MemberState::NonMember(GmpHostState { state, cfg, protocol_specific })
            },
            MemberState::Delaying(GmpHostState { state, cfg: _, protocol_specific }) => {
                MemberState::Delaying(GmpHostState { state, cfg, protocol_specific })
            },
            MemberState::Idle(GmpHostState { state, cfg: _, protocol_specific }) => {
                MemberState::Idle(GmpHostState { state, cfg, protocol_specific })
            },
        };
        self.inner = Some(state);
    }

    /// The state that the machine is in.
    pub fn get_inner(&self) -> (state: &MemberState<P>)
        requires
            self.wf(),
        ensures
            *state == self@,
    {
        self.inner.as_ref().unwrap()
    }
}

/// The never-lengthen rule. Where a report is pending and a query leaves a
/// window that ends at the pending timer's instant or after it, the query
/// leaves the timer where it is and asks for no new one, whatever delay
/// might have been drawn.
pub proof fn lemma_query_never_lengthens<P: ProtocolSpecific>(
    state: MemberState<P>,
    max_resp_time: Duration,
    now: Instant,
    delay: Duration,
)
    requires
        state is Delaying,
        P::spec_get_max_resp_time(max_resp_time) matches Some(window) && now@ + window@
            >= state.timer()->0@,
    ensures
        state.spec_query_received(max_resp_time, now, delay).0 is Delaying,
        state.spec_query_received(max_resp_time, now, delay).0.timer() == state.timer(),
        state.spec_query_received(max_resp_time, now, delay).1.generic is None,
        !state.query_needs_new_timer(max_resp_time, now),
{
}

/// A query never changes who the last reporter is, and never makes a member
/// a non-member or a non-member a member.
pub proof fn lemma_query_keeps_reporter<P: ProtocolSpecific>(
    state: MemberState<P>,
    max_resp_time: Duration,
    now: Instant,
    delay: Duration,
)
    ensures
        state.spec_query_received(max_resp_time, now, delay).0.last_reporter()
            == state.last_reporter(),
        state.spec_query_received(max_resp_time, now, delay).0 is NonMember <==> state is NonMember,
{
}

/// A host that joins a group and leaves it before anything else happens
/// sends a leave message: the join has made it the last reporter.
pub proof fn lemma_join_then_leave_sends_leave<P: ProtocolSpecific>(
    protocol_specific: P,
    cfg: P::Config,
    now: Instant,
    delay: Duration,
)
    ensures
        MemberState::spec_join_group(
            protocol_specific,
            cfg,
            now,
            delay,
            false,
        ).0.spec_leave_group().1 == (LeaveGroupActions { send_leave: true, stop_timer: true }),
{
}

/// Suppression. A host that joins a group and then hears another host's
/// report becomes idle, stops its timer and is no longer the last reporter;
/// when it leaves, it sends a leave message only if it is configured to send
/// one anyway.
pub proof fn lemma_suppressed_member_leaves_quietly<P: ProtocolSpecific>(
    protocol_specific: P,
    cfg: P::Config,
    now: Instant,
    delay: Duration,
)
    ensures
        ({
            let joined = MemberState::spec_join_group(protocol_specific, cfg, now, delay, false).0;
            let heard = joined.spec_report_received();
            &&& joined is Delaying
            &&& joined.last_reporter()
            &&& heard.0 is Idle
            &&& !heard.0.last_reporter()
            &&& heard.1.stop_timer
            &&& heard.0.spec_leave_group().0 is NonMember
            &&& heard.0.spec_leave_group().1 == (LeaveGroupActions {
                send_leave: P::spec_cfg_send_leave_anyway(&cfg),
                stop_timer: false,
            })
        }),
{
}

/// A group that was joined while the protocol was down and for which the
/// protocol then comes up is in the state of a group that was joined with
/// the protocol up, and the same is to be done for it: one report to send,
/// one timer to set.
pub proof fn lemma_enable_after_disabled_join<P: ProtocolSpecific>(
    protocol_specific: P,
    cfg: P::Config,
    joined_at: Instant,
    now: Instant,
    delay: Duration,
)
    ensures
        ({
            let disabled = MemberState::spec_join_group(
                protocol_specific,
                cfg,
                joined_at,
                delay,
                true,
            );
            &&& disabled.0 is NonMember
            &&& disabled.1 == JoinGroupActions::<P>::spec_noop()
            &&& disabled.0.spec_join_if_non_member(now, delay) == MemberState::spec_join_group(
                protocol_specific,
                cfg,
                now,
                delay,
                false,
            )
        }),
{
}

} // verus!
