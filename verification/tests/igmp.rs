//! IGMPv2 on one device, with a clock, a generator and a list of sent
//! messages that the tests hold themselves.

use netstack_gmp::addr::{Ipv4, Ipv4Addr, MulticastAddr};
use netstack_gmp::gmp::device::{
    gmp_handle_disabled, gmp_handle_maybe_enabled, gmp_join_group, gmp_leave_group,
    GmpDelayedReportTimerId, GmpMessageType, GmpState, GmpStateRef,
};
use netstack_gmp::gmp::igmp::{
    receive_igmp_packet, send_message, source_address, IgmpGroupState, IgmpMessage,
    IgmpMessageKind, IgmpPacket, IgmpState, IgmpTimerId, Igmpv2Actions, Igmpv2ProtocolSpecific,
    DEFAULT_V1_ROUTER_PRESENT_TIMEOUT, IGMP_DEFAULT_UNSOLICITED_REPORT_INTERVAL,
};
use netstack_gmp::gmp::{
    GmpStateMachine, MemberState, QueryReceivedActions, ReportReceivedActions,
    ReportTimerExpiredActions,
};
use netstack_gmp::group_set::{GroupJoinResult, GroupLeaveResult, MulticastGroupSet};
use netstack_gmp::time::{Duration, Instant};
use rand::{Rng, SeedableRng};
use rand_xorshift::XorShiftRng;

/// A generator with a fixed seed. A seed of zero stands for a seed of one.
fn new_rng(mut seed: u128) -> XorShiftRng {
    if seed == 0 {
        seed = 1;
    }
    XorShiftRng::from_seed(seed.to_ne_bytes())
}

/// Runs `f` with sixty-four seeds that a fixed generator gives.
fn run_with_many_seeds<F: FnMut(u128)>(mut f: F) {
    let mut rng = new_rng(0x0fe50fae6c37593d71944697f1245847);
    for _ in 0..64 {
        f(rng.gen());
    }
}

fn default_unsolicited_report_interval() -> Duration {
    Duration { nanos: IGMP_DEFAULT_UNSOLICITED_REPORT_INTERVAL }
}

fn default_v1_router_present_timeout() -> Duration {
    Duration { nanos: DEFAULT_V1_ROUTER_PRESENT_TIMEOUT }
}

fn after(now: Instant, d: Duration) -> Instant {
    now.checked_add(d).unwrap()
}

#[derive(Debug, Clone, Copy, PartialEq, Eq)]
struct FakeDeviceId;

type TimerId = IgmpTimerId<FakeDeviceId>;

fn gmp_timer_id() -> TimerId {
    IgmpTimerId::Gmp(GmpDelayedReportTimerId { device: FakeDeviceId })
}

fn v1_router_present_timer_id() -> TimerId {
    IgmpTimerId::V1RouterPresent { device: FakeDeviceId }
}

/// A message as it left the device: where it came from and what it was.
#[derive(Debug, Clone, Copy, PartialEq, Eq)]
struct Frame {
    src_ip: Ipv4Addr,
    message: IgmpMessage,
}

impl Frame {
    /// The type field of the message.
    fn message_type(&self) -> u8 {
        self.message.kind.message_type()
    }

    /// The destination field of the packet.
    fn dst_octets(&self) -> [u8; 4] {
        self.message.dst_ip.get().octets()
    }
}

/// One device with its groups, timers, clock and generator, and the messages
/// it has sent.
struct FakeCtx {
    groups: MulticastGroupSet<Ipv4Addr, IgmpGroupState>,
    gmp_state: GmpState<Ipv4>,
    igmp_state: IgmpState,
    igmp_enabled: bool,
    addr_subnet: Option<Ipv4Addr>,
    rng: XorShiftRng,
    now: Instant,
    frames: Vec<Frame>,
}

impl FakeCtx {
    fn seed_rng(&mut self, seed: u128) {
        self.rng = XorShiftRng::from_seed(seed.to_ne_bytes());
    }

    fn now(&self) -> Instant {
        self.now
    }

    fn frames(&self) -> &[Frame] {
        &self.frames
    }

    fn take_frames(&mut self) -> Vec<Frame> {
        std::mem::take(&mut self.frames)
    }

    fn send(
        &mut self,
        group_addr: MulticastAddr<Ipv4Addr>,
        msg: GmpMessageType<Igmpv2ProtocolSpecific>,
    ) {
        let message = send_message(group_addr, msg);
        self.frames.push(Frame { src_ip: source_address(self.addr_subnet), message });
    }

    fn gmp_join_group(&mut self, group_addr: MulticastAddr<Ipv4Addr>) -> GroupJoinResult {
        let state = GmpStateRef {
            enabled: self.igmp_enabled,
            groups: &mut self.groups,
            gmp: &mut self.gmp_state,
        };
        match gmp_join_group(state, &mut self.rng, self.now, group_addr) {
            GroupJoinResult::Joined(msg) => {
                if let Some(msg) = msg {
                    self.send(group_addr, msg);
                }
                GroupJoinResult::Joined(())
            }
            GroupJoinResult::AlreadyMember => GroupJoinResult::AlreadyMember,
        }
    }

    fn gmp_leave_group(&mut self, group_addr: MulticastAddr<Ipv4Addr>) -> GroupLeaveResult {
        let state = GmpStateRef {
            enabled: self.igmp_enabled,
            groups: &mut self.groups,
            gmp: &mut self.gmp_state,
        };
        match gmp_leave_group(state, group_addr) {
            GroupLeaveResult::Left(send_leave) => {
                if send_leave {
                    self.send(group_addr, GmpMessageType::Leave);
                }
                GroupLeaveResult::Left(())
            }
            GroupLeaveResult::StillMember => GroupLeaveResult::StillMember,
            GroupLeaveResult::NotMember => GroupLeaveResult::NotMember,
        }
    }

    fn gmp_handle_maybe_enabled(&mut self) {
        let state = GmpStateRef {
            enabled: self.igmp_enabled,
            groups: &mut self.groups,
            gmp: &mut self.gmp_state,
        };
        for (group_addr, msg) in gmp_handle_maybe_enabled(state, &mut self.rng, self.now) {
            self.send(group_addr, msg);
        }
    }

    fn gmp_handle_disabled(&mut self) {
        let state = GmpStateRef {
            enabled: self.igmp_enabled,
            groups: &mut self.groups,
            gmp: &mut self.gmp_state,
        };
        for group_addr in gmp_handle_disabled(state) {
            self.send(group_addr, GmpMessageType::Leave);
        }
    }

    fn receive_igmp_packet(&mut self, packet: IgmpPacket) {
        let state = GmpStateRef {
            enabled: self.igmp_enabled,
            groups: &mut self.groups,
            gmp: &mut self.gmp_state,
        };
        let effects = match receive_igmp_packet(state, &mut self.rng, self.now, packet) {
            Ok(effects) => effects,
            Err(_) => return,
        };
        for (group_addr, send_msg, ps_actions) in effects {
            if let Some(msg) = send_msg {
                self.send(group_addr, msg);
            }
            if let Some(ps_actions) = ps_actions {
                self.igmp_state.run_actions(self.now, ps_actions);
            }
        }
    }

    /// The timers that are armed, the latest first.
    fn timers(&self) -> Vec<(Instant, TimerId)> {
        let mut timers = Vec::new();
        if let Some((_, instant)) = self.gmp_state.timers.peek() {
            timers.push((instant, gmp_timer_id()));
        }
        if let Some(instant) = self.igmp_state.v1_router_present_timer {
            timers.push((instant, v1_router_present_timer_id()));
        }
        timers.sort_by(|a, b| b.0.cmp(&a.0));
        timers
    }

    fn assert_no_timers_installed(&self) {
        assert_eq!(self.timers(), vec![]);
    }

    fn assert_timers_installed_range(&self, expected: &[(TimerId, Instant, Instant)]) {
        let timers = self.timers();
        assert_eq!(timers.len(), expected.len());
        for (id, from, to) in expected {
            let (instant, _) = timers.iter().find(|(_, i)| i == id).expect("timer is armed");
            assert!(from <= instant && instant <= to);
        }
    }

    /// Lets the clock run to the timer that fires next and handles it.
    fn trigger_next_timer(&mut self) -> Option<TimerId> {
        let (instant, id) = self.timers().pop()?;
        if self.now < instant {
            self.now = instant;
        }
        let state = GmpStateRef {
            enabled: self.igmp_enabled,
            groups: &mut self.groups,
            gmp: &mut self.gmp_state,
        };
        if let Some((group_addr, msg)) = id.handle(state, &mut self.igmp_state, self.now) {
            self.send(group_addr, msg);
        }
        Some(id)
    }

    /// Asserts that the report timer of `group` is the next to fire.
    fn assert_top(&self, group: &MulticastAddr<Ipv4Addr>) {
        let (top, _) = self.gmp_state.timers.peek().expect("a report timer is pending");
        assert_eq!(&top, group);
    }

    /// Asserts that the report timers are those of `expected`, each within
    /// its range.
    fn assert_range(&self, expected: &[(MulticastAddr<Ipv4Addr>, Instant, Instant)]) {
        assert_eq!(self.gmp_state.timers.len(), expected.len());
        for (group, from, to) in expected {
            let instant = self.gmp_state.timers.get(group).expect("the group has a timer");
            assert!(*from <= instant && instant <= *to);
        }
    }

    fn assert_gmp_state_non_member(&self, group: &MulticastAddr<Ipv4Addr>) {
        assert!(matches!(self.groups.get(group).unwrap().get_inner(), MemberState::NonMember(_)));
    }

    fn assert_gmp_state_delaying(&self, group: &MulticastAddr<Ipv4Addr>) {
        assert!(matches!(self.groups.get(group).unwrap().get_inner(), MemberState::Delaying(_)));
    }
}

fn my_addr() -> Ipv4Addr {
    Ipv4Addr::new([192, 168, 0, 2])
}

fn group_addr() -> MulticastAddr<Ipv4Addr> {
    Ipv4::all_routers_multicast_address()
}

fn group_addr_2() -> MulticastAddr<Ipv4Addr> {
    MulticastAddr::new(Ipv4Addr::new([224, 0, 0, 4])).unwrap()
}

/// The response time as a query carries it: in whole tenths of a second,
/// which have to fit in eight bits.
fn on_the_wire(resp_time: Duration) -> Duration {
    let tenths = u8::try_from(resp_time.as_micros() / 100_000).unwrap();
    Duration::from_millis(100 * u64::from(tenths))
}

fn receive_igmp_query(ctx: &mut FakeCtx, resp_time: Duration) {
    ctx.receive_igmp_packet(IgmpPacket::MembershipQueryV2 {
        group_addr: group_addr().get(),
        max_response_time: on_the_wire(resp_time),
    });
}

fn receive_igmp_general_query(ctx: &mut FakeCtx, resp_time: Duration) {
    ctx.receive_igmp_packet(IgmpPacket::MembershipQueryV2 {
        group_addr: Ipv4Addr::new([0, 0, 0, 0]),
        max_response_time: on_the_wire(resp_time),
    });
}

fn receive_igmp_report(ctx: &mut FakeCtx) {
    ctx.receive_igmp_packet(IgmpPacket::MembershipReportV2 { group_addr: group_addr().get() });
}

fn setup_simple_test_environment_with_addr_subnet(seed: u128, a: Option<Ipv4Addr>) -> FakeCtx {
    let mut ctx = FakeCtx {
        groups: MulticastGroupSet::default(),
        gmp_state: GmpState::new(),
        igmp_state: IgmpState::new(),
        igmp_enabled: true,
        addr_subnet: None,
        rng: new_rng(0),
        now: Instant::default(),
        frames: Vec::new(),
    };
    ctx.seed_rng(seed);
    ctx.addr_subnet = a;
    ctx
}

fn setup_simple_test_environment(seed: u128) -> FakeCtx {
    setup_simple_test_environment_with_addr_subnet(seed, Some(my_addr()))
}

#[test]
fn test_igmp_state_with_igmpv1_router() {
    run_with_many_seeds(|seed| {
        let mut rng = new_rng(seed);
        let (mut s, _actions) = GmpStateMachine::join_group(&mut rng, Instant::default(), false);
        assert_eq!(
            s.query_received(&mut rng, Duration::from_secs(0), Instant::default()),
            QueryReceivedActions {
                generic: None,
                protocol_specific: Some(Igmpv2Actions::ScheduleV1RouterPresentTimer(
                    default_v1_router_present_timeout()
                ))
            }
        );
        assert_eq!(
            s.report_timer_expired(),
            ReportTimerExpiredActions {
                send_report: Igmpv2ProtocolSpecific { v1_router_present: true }
            }
        );
    });
}

#[test]
fn test_igmp_state_igmpv1_router_present_timer_expires() {
    run_with_many_seeds(|seed| {
        let mut rng = new_rng(seed);
        let (mut s, _actions) = GmpStateMachine::<Igmpv2ProtocolSpecific>::join_group(
            &mut rng,
            Instant::default(),
            false,
        );
        assert_eq!(
            s.query_received(&mut rng, Duration::from_secs(0), Instant::default()),
            QueryReceivedActions {
                generic: None,
                protocol_specific: Some(Igmpv2Actions::ScheduleV1RouterPresentTimer(
                    default_v1_router_present_timeout()
                ))
            }
        );
        match s.get_inner() {
            MemberState::Delaying(state) => {
                assert!(state.get_protocol_specific().v1_router_present);
            }
            _ => panic!("Wrong State!"),
        }
        s.v1_router_present_timer_expired();
        match s.get_inner() {
            MemberState::Delaying(state) => {
                assert!(!state.get_protocol_specific().v1_router_present);
            }
            _ => panic!("Wrong State!"),
        }
        assert_eq!(
            s.query_received(&mut rng, Duration::from_secs(0), Instant::default()),
            QueryReceivedActions {
                generic: None,
                protocol_specific: Some(Igmpv2Actions::ScheduleV1RouterPresentTimer(
                    default_v1_router_present_timeout()
                ))
            }
        );
        assert_eq!(s.report_received(), ReportReceivedActions { stop_timer: true });
        s.v1_router_present_timer_expired();
        match s.get_inner() {
            MemberState::Idle(state) => {
                assert!(!state.get_protocol_specific().v1_router_present);
            }
            _ => panic!("Wrong State!"),
        }
    });
}

fn simple_integration(src_ip: Option<Ipv4Addr>) {
    let check_report = |ctx: &mut FakeCtx| {
        let expected_src_ip = src_ip.unwrap_or(Ipv4::unspecified_address());

        let frames = ctx.take_frames();
        assert_eq!(frames.len(), 1);
        let frame = &frames[0];
        assert_eq!(frame.message.dst_ip, group_addr());
        assert_eq!(frame.src_ip, expected_src_ip);
        assert_eq!(frame.message.kind, IgmpMessageKind::MembershipReportV2);
        assert_eq!(frame.message.group_addr.get(), group_addr().get());
    };

    run_with_many_seeds(|seed| {
        let mut ctx = setup_simple_test_environment_with_addr_subnet(seed, src_ip);

        // Joining a group sends a report.
        assert_eq!(ctx.gmp_join_group(group_addr()), GroupJoinResult::Joined(()));
        check_report(&mut ctx);

        // A report is sent after a query.
        receive_igmp_query(&mut ctx, Duration::from_secs(10));
        ctx.assert_top(&group_addr());
        assert_eq!(ctx.trigger_next_timer(), Some(gmp_timer_id()));
        check_report(&mut ctx);
    });
}

#[test]
fn test_igmp_simple_integration_specified_src() {
    simple_integration(Some(my_addr()));
}

#[test]
fn test_igmp_simple_integration_unspecified_src() {
    simple_integration(None);
}

#[test]
fn test_igmp_integration_fallback_from_idle() {
    run_with_many_seeds(|seed| {
        let mut ctx = setup_simple_test_environment(seed);
        assert_eq!(ctx.gmp_join_group(group_addr()), GroupJoinResult::Joined(()));
        assert_eq!(ctx.frames().len(), 1);

        ctx.assert_top(&group_addr());
        assert_eq!(ctx.trigger_next_timer(), Some(gmp_timer_id()));
        assert_eq!(ctx.frames().len(), 2);

        receive_igmp_query(&mut ctx, Duration::from_secs(10));

        // A query was heard, so the group is back in the delaying state.
        let group_state = ctx.groups.get(&group_addr()).unwrap();
        match group_state.get_inner() {
            MemberState::Delaying(_) => {}
            _ => panic!("Wrong State!"),
        }

        ctx.assert_top(&group_addr());
        assert_eq!(ctx.trigger_next_timer(), Some(gmp_timer_id()));
        assert_eq!(ctx.frames().len(), 3);
    });
}

#[test]
fn test_igmp_integration_igmpv1_router_present() {
    run_with_many_seeds(|seed| {
        let mut ctx = setup_simple_test_environment(seed);

        assert_eq!(ctx.gmp_join_group(group_addr()), GroupJoinResult::Joined(()));
        let now = ctx.now();
        ctx.assert_range(&[(
            group_addr(),
            now,
            after(now, default_unsolicited_report_interval()),
        )]);
        let instant1 = ctx.timers()[0].0;

        receive_igmp_query(&mut ctx, Duration::from_secs(0));
        assert_eq!(ctx.frames().len(), 1);

        // The router speaks IGMPv1, so the flag is set.
        let group_state = ctx.groups.get(&group_addr()).unwrap();
        match group_state.get_inner() {
            MemberState::Delaying(state) => {
                assert!(state.get_protocol_specific().v1_router_present)
            }
            _ => panic!("Wrong State!"),
        }

        assert_eq!(ctx.frames().len(), 1);
        // Two timers: one for the delayed report, one for the IGMPv1 router.
        let now = ctx.now();
        ctx.assert_range(&[(
            group_addr(),
            now,
            after(now, default_unsolicited_report_interval()),
        )]);
        ctx.assert_timers_installed_range(&[
            (gmp_timer_id(), now, after(now, default_unsolicited_report_interval())),
            (v1_router_present_timer_id(), now, after(now, default_v1_router_present_timeout())),
        ]);
        let instant2 = ctx.timers()[1].0;
        assert_eq!(instant1, instant2);

        ctx.assert_top(&group_addr());
        assert_eq!(ctx.trigger_next_timer(), Some(gmp_timer_id()));
        // After the first timer the report goes out in the format of IGMPv1.
        assert_eq!(ctx.frames().len(), 2);
        let frame = ctx.frames().last().unwrap();
        assert_eq!(frame.message_type(), 0x12);

        assert_eq!(ctx.trigger_next_timer(), Some(v1_router_present_timer_id()));
        // After the second timer the flag is cleared.
        let group_state = ctx.groups.get(&group_addr()).unwrap();
        match group_state.get_inner() {
            MemberState::Idle(state) => {
                assert!(!state.get_protocol_specific().v1_router_present)
            }
            _ => panic!("Wrong State!"),
        }

        receive_igmp_query(&mut ctx, Duration::from_secs(10));
        ctx.assert_top(&group_addr());
        assert_eq!(ctx.trigger_next_timer(), Some(gmp_timer_id()));
        assert_eq!(ctx.frames().len(), 3);
        // Now the report goes out in the format of IGMPv2.
        assert_eq!(ctx.frames().last().unwrap().message_type(), 0x16);
    });
}

#[test]
fn test_igmp_integration_delay_reset_timer() {
    // This seed leads to a timer of more than 100 ms below.
    let mut ctx = setup_simple_test_environment(123456);
    assert_eq!(ctx.gmp_join_group(group_addr()), GroupJoinResult::Joined(()));
    let now = ctx.now();
    ctx.assert_range(&[(group_addr(), now, after(now, default_unsolicited_report_interval()))]);
    let instant1 = ctx.timers()[0].0;
    let start = ctx.now();
    let duration = Duration::from_micros(((instant1.nanos - start.nanos) / 1000 / 2) as u64);
    assert!(duration.as_micros() / 1000 > 100);
    receive_igmp_query(&mut ctx, duration);
    assert_eq!(ctx.frames().len(), 1);
    let now = ctx.now();
    ctx.assert_range(&[(group_addr(), now, after(now, duration))]);
    let instant2 = ctx.timers()[0].0;
    // The query has moved the timer to an earlier instant.
    assert!(instant2 <= instant1);
    ctx.assert_top(&group_addr());
    assert_eq!(ctx.trigger_next_timer(), Some(gmp_timer_id()));
    assert!(ctx.now().nanos - start.nanos <= duration.nanos);
    assert_eq!(ctx.frames().len(), 2);
    // The report is in the format of IGMPv2.
    assert_eq!(ctx.frames().last().unwrap().message_type(), 0x16);
}

#[test]
fn test_igmp_integration_last_send_leave() {
    run_with_many_seeds(|seed| {
        let mut ctx = setup_simple_test_environment(seed);
        assert_eq!(ctx.gmp_join_group(group_addr()), GroupJoinResult::Joined(()));
        let now = ctx.now();
        ctx.assert_range(&[(
            group_addr(),
            now,
            after(now, default_unsolicited_report_interval()),
        )]);
        // The first unsolicited report.
        assert_eq!(ctx.frames().len(), 1);
        ctx.assert_top(&group_addr());
        assert_eq!(ctx.trigger_next_timer(), Some(gmp_timer_id()));
        // The report after the delay.
        assert_eq!(ctx.frames().len(), 2);
        assert_eq!(ctx.gmp_leave_group(group_addr()), GroupLeaveResult::Left(()));
        // The leave message.
        assert_eq!(ctx.frames().len(), 3);

        let leave_frame = ctx.frames().last().unwrap();

        // It is a leave message.
        assert_eq!(leave_frame.message_type(), 0x17);
        // It goes to all routers (224.0.0.2).
        assert_eq!(leave_frame.dst_octets()[0], 224);
        assert_eq!(leave_frame.dst_octets()[1], 0);
        assert_eq!(leave_frame.dst_octets()[2], 0);
        assert_eq!(leave_frame.dst_octets()[3], 2);
    });
}

#[test]
fn test_igmp_integration_always_idle_member() {
    run_with_many_seeds(|seed| {
        let mut ctx = setup_simple_test_environment(seed);
        assert_eq!(
            ctx.gmp_join_group(Ipv4::all_systems_multicast_address()),
            GroupJoinResult::Joined(())
        );
        assert_eq!(ctx.frames().len(), 0);
        ctx.assert_no_timers_installed();
    });
}

#[test]
fn test_igmp_integration_not_last_does_not_send_leave() {
    run_with_many_seeds(|seed| {
        let mut ctx = setup_simple_test_environment(seed);
        assert_eq!(ctx.gmp_join_group(group_addr()), GroupJoinResult::Joined(()));
        let now = ctx.now();
        ctx.assert_range(&[(
            group_addr(),
            now,
            after(now, default_unsolicited_report_interval()),
        )]);
        assert_eq!(ctx.frames().len(), 1);
        receive_igmp_report(&mut ctx);
        ctx.assert_no_timers_installed();
        // The pending report is dropped: another host has reported.
        assert_eq!(ctx.frames().len(), 1);
        assert_eq!(ctx.gmp_leave_group(group_addr()), GroupLeaveResult::Left(()));
        // No leave message is sent.
        assert_eq!(ctx.frames().len(), 1);
    });
}

#[test]
fn test_receive_general_query() {
    run_with_many_seeds(|seed| {
        let mut ctx = setup_simple_test_environment(seed);
        assert_eq!(ctx.gmp_join_group(group_addr()), GroupJoinResult::Joined(()));
        assert_eq!(ctx.gmp_join_group(group_addr_2()), GroupJoinResult::Joined(()));
        let now = ctx.now();
        let to = after(now, default_unsolicited_report_interval());
        ctx.assert_range(&[(group_addr(), now, to), (group_addr_2(), now, to)]);
        // The first unsolicited reports.
        assert_eq!(ctx.frames().len(), 2);
        assert_eq!(ctx.trigger_next_timer(), Some(gmp_timer_id()));
        assert_eq!(ctx.trigger_next_timer(), Some(gmp_timer_id()));
        assert_eq!(ctx.frames().len(), 4);
        let resp_time = Duration::from_secs(10);
        receive_igmp_general_query(&mut ctx, resp_time);
        // Two new timers are pending.
        let now = ctx.now();
        let to = after(now, resp_time);
        ctx.assert_range(&[(group_addr(), now, to), (group_addr_2(), now, to)]);
        assert_eq!(ctx.trigger_next_timer(), Some(gmp_timer_id()));
        assert_eq!(ctx.trigger_next_timer(), Some(gmp_timer_id()));
        // Two new reports were sent.
        assert_eq!(ctx.frames().len(), 6);
    });
}

#[test]
fn test_skip_igmp() {
    run_with_many_seeds(|seed| {
        // No IGMP is performed while IGMP is disabled.
        let mut ctx = setup_simple_test_environment(seed);
        ctx.seed_rng(seed);
        ctx.igmp_enabled = false;

        // Nothing can be seen from outside.
        let assert_no_effect = |ctx: &FakeCtx| {
            ctx.assert_no_timers_installed();
            assert!(ctx.frames().is_empty());
        };

        assert_eq!(ctx.gmp_join_group(group_addr()), GroupJoinResult::Joined(()));
        // The group is joined, as a non-member.
        ctx.assert_gmp_state_non_member(&group_addr());
        assert_no_effect(&ctx);

        receive_igmp_report(&mut ctx);
        // No transition, no work.
        ctx.assert_gmp_state_non_member(&group_addr());
        assert_no_effect(&ctx);

        receive_igmp_query(&mut ctx, Duration::from_secs(10));
        // No transition, no work.
        ctx.assert_gmp_state_non_member(&group_addr());
        assert_no_effect(&ctx);

        assert_eq!(ctx.gmp_leave_group(group_addr()), GroupLeaveResult::Left(()));
        // The group is left, and nothing was done for it.
        assert!(ctx.groups.get(&group_addr()).is_none());
        assert_no_effect(&ctx);
    });
}

#[test]
fn test_igmp_integration_with_local_join_leave() {
    run_with_many_seeds(|seed| {
        // IGMP is performed on a local join and a local leave.
        let mut ctx = setup_simple_test_environment(seed);

        assert_eq!(ctx.gmp_join_group(group_addr()), GroupJoinResult::Joined(()));
        ctx.assert_gmp_state_delaying(&group_addr());
        assert_eq!(ctx.frames().len(), 1);
        let now = ctx.now();
        let to = after(now, default_unsolicited_report_interval());
        ctx.assert_range(&[(group_addr(), now, to)]);

        assert_eq!(ctx.gmp_join_group(group_addr()), GroupJoinResult::AlreadyMember);
        ctx.assert_gmp_state_delaying(&group_addr());
        assert_eq!(ctx.frames().len(), 1);
        ctx.assert_range(&[(group_addr(), now, to)]);

        assert_eq!(ctx.gmp_leave_group(group_addr()), GroupLeaveResult::StillMember);
        ctx.assert_gmp_state_delaying(&group_addr());
        assert_eq!(ctx.frames().len(), 1);
        ctx.assert_range(&[(group_addr(), now, to)]);

        assert_eq!(ctx.gmp_leave_group(group_addr()), GroupLeaveResult::Left(()));
        assert_eq!(ctx.frames().len(), 2);
        ctx.assert_no_timers_installed();
    });
}

#[test]
fn test_igmp_enable_disable() {
    run_with_many_seeds(|seed| {
        let mut ctx = setup_simple_test_environment(seed);
        assert_eq!(ctx.take_frames(), []);

        assert_eq!(ctx.gmp_join_group(group_addr()), GroupJoinResult::Joined(()));
        ctx.assert_gmp_state_delaying(&group_addr());
        {
            let frames = ctx.take_frames();
            assert_eq!(frames.len(), 1);
            let frame = &frames[0];
            assert_eq!(frame.message.dst_ip, group_addr());
            assert_eq!(frame.src_ip, my_addr());
            assert_eq!(frame.message.kind, IgmpMessageKind::MembershipReportV2);
            assert_eq!(frame.message.group_addr.get(), group_addr().get());
        }

        // Nothing to do.
        ctx.gmp_handle_maybe_enabled();
        ctx.assert_gmp_state_delaying(&group_addr());
        assert_eq!(ctx.take_frames(), []);

        // A leave message goes out.
        ctx.gmp_handle_disabled();
        ctx.assert_gmp_state_non_member(&group_addr());
        {
            let frames = ctx.take_frames();
            assert_eq!(frames.len(), 1);
            let frame = &frames[0];
            assert_eq!(frame.message.dst_ip, Ipv4::all_routers_multicast_address());
            assert_eq!(frame.src_ip, my_addr());
            assert_eq!(frame.message.kind, IgmpMessageKind::LeaveGroup);
            assert_eq!(frame.message.group_addr.get(), group_addr().get());
        }

        // Nothing to do.
        ctx.gmp_handle_disabled();
        ctx.assert_gmp_state_non_member(&group_addr());
        assert_eq!(ctx.take_frames(), []);

        // A report goes out.
        ctx.gmp_handle_maybe_enabled();
        ctx.assert_gmp_state_delaying(&group_addr());
        {
            let frames = ctx.take_frames();
            assert_eq!(frames.len(), 1);
            let frame = &frames[0];
            assert_eq!(frame.message.dst_ip, group_addr());
            assert_eq!(frame.src_ip, my_addr());
            assert_eq!(frame.message.kind, IgmpMessageKind::MembershipReportV2);
            assert_eq!(frame.message.group_addr.get(), group_addr().get());
        }
    });
}
