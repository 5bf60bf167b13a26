//! MLDv1 on one device, with a clock, a generator and a list of sent
//! messages that the tests hold themselves.

use netstack_gmp::addr::{Ipv6, Ipv6Addr, MulticastAddr};
use netstack_gmp::gmp::device::{
    gmp_handle_disabled, gmp_handle_maybe_enabled, gmp_join_group, gmp_leave_group,
    GmpDelayedReportTimerId, GmpMessageType, GmpState, GmpStateRef,
};
use netstack_gmp::gmp::mld::{
    receive_mld_packet, send_message, source_address, MldGroupState, MldMessage, MldPacket,
    MldProtocolSpecific, MldTimerId, MLD_DEFAULT_UNSOLICITED_REPORT_INTERVAL,
};
use netstack_gmp::gmp::{
    GmpStateMachine, MemberState, QueryReceivedActions, QueryReceivedGenericAction,
};
use netstack_gmp::group_set::{GroupJoinResult, GroupLeaveResult, MulticastGroupSet};
use netstack_gmp::time::{Duration, Instant};
use rand::{Rng, SeedableRng};
use rand_xorshift::XorShiftRng;

/// A generator with a fixed seed. A seed of zero stands for a seed of one.
fn new_rng(mut seed: u128) -> XorShiftRng {
    if seed == 0 {
        seed = 1;
    }
    XorShiftRng::from_seed(seed.to_ne_bytes())
}

/// Runs `f` with sixty-four seeds that a fixed generator gives.
fn run_with_many_seeds<F: FnMut(u128)>(mut f: F) {
    let mut rng = new_rng(0x0fe50fae6c37593d71944697f1245847);
    for _ in 0..64 {
        f(rng.gen());
    }
}

fn default_unsolicited_report_interval() -> Duration {
    Duration { nanos: MLD_DEFAULT_UNSOLICITED_REPORT_INTERVAL }
}

fn after(now: Instant, d: Duration) -> Instant {
    now.checked_add(d).unwrap()
}

#[derive(Debug, Clone, Copy, PartialEq, Eq)]
struct FakeDeviceId;

type TimerId = MldTimerId<FakeDeviceId>;

fn timer_id() -> TimerId {
    MldTimerId(GmpDelayedReportTimerId { device: FakeDeviceId })
}

/// A message as it left the device: where it came from and what it was.
#[derive(Debug, Clone, Copy, PartialEq, Eq)]
struct Frame {
    src_ip: Ipv6Addr,
    message: MldMessage,
}

/// One device with its groups, timers, clock and generator, and the messages
/// it has sent.
struct FakeCtx {
    groups: MulticastGroupSet<Ipv6Addr, MldGroupState>,
    gmp_state: GmpState<Ipv6>,
    mld_enabled: bool,
    ipv6_link_local: Option<Ipv6Addr>,
    rng: XorShiftRng,
    now: Instant,
    frames: Vec<Frame>,
}

impl FakeCtx {
    fn seed_rng(&mut self, seed: u128) {
        self.rng = XorShiftRng::from_seed(seed.to_ne_bytes());
    }

    fn now(&self) -> Instant {
        self.now
    }

    fn frames(&self) -> &[Frame] {
        &self.frames
    }

    fn take_frames(&mut self) -> Vec<Frame> {
        std::mem::take(&mut self.frames)
    }

    fn send(
        &mut self,
        group_addr: MulticastAddr<Ipv6Addr>,
        msg: GmpMessageType<MldProtocolSpecific>,
    ) {
        let message = send_message(group_addr, msg);
        self.frames.push(Frame { src_ip: source_address(self.ipv6_link_local), message });
    }

    fn gmp_join_group(&mut self, group_addr: MulticastAddr<Ipv6Addr>) -> GroupJoinResult {
        let state = GmpStateRef {
            enabled: self.mld_enabled,
            groups: &mut self.groups,
            gmp: &mut self.gmp_state,
        };
        match gmp_join_group(state, &mut self.rng, self.now, group_addr) {
            GroupJoinResult::Joined(msg) => {
                if let Some(msg) = msg {
                    self.send(group_addr, msg);
                }
                GroupJoinResult::Joined(())
            }
            GroupJoinResult::AlreadyMember => GroupJoinResult::AlreadyMember,
        }
    }

    fn gmp_leave_group(&mut self, group_addr: MulticastAddr<Ipv6Addr>) -> GroupLeaveResult {
        let state = GmpStateRef {
            enabled: self.mld_enabled,
            groups: &mut self.groups,
            gmp: &mut self.gmp_state,
        };
        match gmp_leave_group(state, group_addr) {
            GroupLeaveResult::Left(send_leave) => {
                if send_leave {
                    self.send(group_addr, GmpMessageType::Leave);
                }
                GroupLeaveResult::Left(())
            }
            GroupLeaveResult::StillMember => GroupLeaveResult::StillMember,
            GroupLeaveResult::NotMember => GroupLeaveResult::NotMember,
        }
    }

    fn gmp_handle_maybe_enabled(&mut self) {
        let state = GmpStateRef {
            enabled: self.mld_enabled,
            groups: &mut self.groups,
            gmp: &mut self.gmp_state,
        };
        for (group_addr, msg) in gmp_handle_maybe_enabled(state, &mut self.rng, self.now) {
            self.send(group_addr, msg);
        }
    }

    fn gmp_handle_disabled(&mut self) {
        let state = GmpStateRef {
            enabled: self.mld_enabled,
            groups: &mut self.groups,
            gmp: &mut self.gmp_state,
        };
        for group_addr in gmp_handle_disabled(state) {
            self.send(group_addr, GmpMessageType::Leave);
        }
    }

    fn receive_mld_packet(&mut self, packet: MldPacket) {
        let state = GmpStateRef {
            enabled: self.mld_enabled,
            groups: &mut self.groups,
            gmp: &mut self.gmp_state,
        };
        let effects = match receive_mld_packet(state, &mut self.rng, self.now, packet) {
            Ok(effects) => effects,
            Err(_) => return,
        };
        for (group_addr, send_msg, ps_actions) in effects {
            if let Some(msg) = send_msg {
                self.send(group_addr, msg);
            }
            if let Some(ps_actions) = ps_actions {
                match ps_actions {}
            }
        }
    }

    /// The timers that are armed, the latest first.
    fn timers(&self) -> Vec<(Instant, TimerId)> {
        let mut timers = Vec::new();
        if let Some((_, instant)) = self.gmp_state.timers.peek() {
            timers.push((instant, timer_id()));
        }
        timers
    }

    fn assert_no_timers_installed(&self) {
        assert_eq!(self.timers(), vec![]);
    }

    /// Lets the clock run to the timer that fires next and handles it.
    fn trigger_next_timer(&mut self) -> Option<TimerId> {
        let (instant, id) = self.timers().pop()?;
        if self.now < instant {
            self.now = instant;
        }
        let state = GmpStateRef {
            enabled: self.mld_enabled,
            groups: &mut self.groups,
            gmp: &mut self.gmp_state,
        };
        if let Some((group_addr, msg)) = id.handle(state, self.now) {
            self.send(group_addr, msg);
        }
        Some(id)
    }

    /// Asserts that the report timer of `group` is the next to fire.
    fn assert_top(&self, group: &MulticastAddr<Ipv6Addr>) {
        let (top, _) = self.gmp_state.timers.peek().expect("a report timer is pending");
        assert_eq!(&top, group);
    }

    /// Asserts that the report timers are those of `expected`, each within
    /// its range.
    fn assert_range(&self, expected: &[(MulticastAddr<Ipv6Addr>, Instant, Instant)]) {
        assert_eq!(self.gmp_state.timers.len(), expected.len());
        for (group, from, to) in expected {
            let instant = self.gmp_state.timers.get(group).expect("the group has a timer");
            assert!(*from <= instant && instant <= *to);
        }
    }

    /// Asserts that the report timers are exactly those of `expected`.
    fn assert_timers(&self, expected: &[(MulticastAddr<Ipv6Addr>, Instant)]) {
        assert_eq!(self.gmp_state.timers.len(), expected.len());
        for (group, instant) in expected {
            assert_eq!(self.gmp_state.timers.get(group), Some(*instant));
        }
    }

    fn assert_gmp_state_non_member(&self, group: &MulticastAddr<Ipv6Addr>) {
        assert!(matches!(self.groups.get(group).unwrap().get_inner(), MemberState::NonMember(_)));
    }

    fn assert_gmp_state_delaying(&self, group: &MulticastAddr<Ipv6Addr>) {
        assert!(matches!(self.groups.get(group).unwrap().get_inner(), MemberState::Delaying(_)));
    }
}

fn new_context() -> FakeCtx {
    FakeCtx {
        groups: MulticastGroupSet::default(),
        gmp_state: GmpState::new(),
        mld_enabled: true,
        ipv6_link_local: None,
        rng: new_rng(0),
        now: Instant::default(),
        frames: Vec::new(),
    }
}

/// The link-local address that the interface identifier of the hardware
/// address 01:02:03:04:05:06 gives.
fn my_link_local() -> Ipv6Addr {
    Ipv6Addr::new([0xfe80, 0, 0, 0, 0x0302, 0x03ff, 0xfe04, 0x0506])
}

fn group_addr() -> MulticastAddr<Ipv6Addr> {
    MulticastAddr::new(Ipv6Addr::new([0xff02, 0, 0, 0, 0, 0, 0, 3])).unwrap()
}

/// The response delay as a query carries it: in whole milliseconds, which
/// have to fit in sixteen bits.
fn on_the_wire(resp_time: Duration) -> Duration {
    let millis = u16::try_from(resp_time.as_micros() / 1000).unwrap();
    Duration::from_millis(u64::from(millis))
}

fn receive_mld_query(ctx: &mut FakeCtx, resp_time: Duration, group_addr: MulticastAddr<Ipv6Addr>) {
    ctx.receive_mld_packet(MldPacket::MulticastListenerQuery {
        group_addr: group_addr.get(),
        max_response_delay: on_the_wire(resp_time),
    });
}

fn receive_mld_report(ctx: &mut FakeCtx, group_addr: MulticastAddr<Ipv6Addr>) {
    ctx.receive_mld_packet(MldPacket::MulticastListenerReport { group_addr: group_addr.get() });
}

/// Asserts that a sent message has the type `op`, goes to `dst` and is about
/// `multicast`.
fn ensure_frame(
    frame: &Frame,
    op: u8,
    dst: MulticastAddr<Ipv6Addr>,
    multicast: MulticastAddr<Ipv6Addr>,
) {
    assert_eq!(frame.message.kind.message_type(), op);
    assert_eq!(frame.message.dst_ip.get(), dst.get());
    assert_eq!(frame.message.group_addr.get(), multicast.get());
}

#[test]
fn test_mld_immediate_report() {
    run_with_many_seeds(|seed| {
        // A router may ask for a report at once with a response delay of
        // zero. The host then sends the report and sets no timer.
        let mut rng = new_rng(seed);
        let (mut s, _actions) = GmpStateMachine::<MldProtocolSpecific>::join_group(
            &mut rng,
            Instant::default(),
            false,
        );
        assert_eq!(
            s.query_received(&mut rng, Duration::from_secs(0), Instant::default()),
            QueryReceivedActions {
                generic: Some(QueryReceivedGenericAction::StopTimerAndSendReport(
                    MldProtocolSpecific
                )),
                protocol_specific: None
            }
        );
    });
}

#[test]
fn test_mld_simple_integration() {
    run_with_many_seeds(|seed| {
        let mut ctx = new_context();
        ctx.seed_rng(seed);

        assert_eq!(ctx.gmp_join_group(group_addr()), GroupJoinResult::Joined(()));

        receive_mld_query(&mut ctx, Duration::from_secs(10), group_addr());
        ctx.assert_top(&group_addr());
        assert_eq!(ctx.trigger_next_timer(), Some(timer_id()));

        // Two reports: the unsolicited one on the join and the one that the
        // timer has sent.
        assert_eq!(ctx.frames().len(), 2);
        for frame in ctx.frames() {
            ensure_frame(frame, 131, group_addr(), group_addr());
            assert_eq!(frame.src_ip, Ipv6::unspecified_address());
        }
    });
}

#[test]
fn test_mld_immediate_query() {
    run_with_many_seeds(|seed| {
        let mut ctx = new_context();
        ctx.seed_rng(seed);

        assert_eq!(ctx.gmp_join_group(group_addr()), GroupJoinResult::Joined(()));
        assert_eq!(ctx.frames().len(), 1);

        receive_mld_query(&mut ctx, Duration::from_secs(0), group_addr());
        // The query asks for an answer at once.
        assert_eq!(ctx.frames().len(), 2);
        // No timer is set.
        assert_eq!(ctx.trigger_next_timer(), None);
        for frame in ctx.frames() {
            ensure_frame(frame, 131, group_addr(), group_addr());
            assert_eq!(frame.src_ip, Ipv6::unspecified_address());
        }
    });
}

#[test]
fn test_mld_integration_fallback_from_idle() {
    run_with_many_seeds(|seed| {
        let mut ctx = new_context();
        ctx.seed_rng(seed);

        assert_eq!(ctx.gmp_join_group(group_addr()), GroupJoinResult::Joined(()));
        assert_eq!(ctx.frames().len(), 1);

        ctx.assert_top(&group_addr());
        assert_eq!(ctx.trigger_next_timer(), Some(timer_id()));
        assert_eq!(ctx.frames().len(), 2);

        receive_mld_query(&mut ctx, Duration::from_secs(10), group_addr());

        // A query was heard, so the group is back in the delaying state.
        let group_state = ctx.groups.get(&group_addr()).unwrap();
        match group_state.get_inner() {
            MemberState::Delaying(_) => {}
            _ => panic!("Wrong State!"),
        }

        ctx.assert_top(&group_addr());
        assert_eq!(ctx.trigger_next_timer(), Some(timer_id()));
        assert_eq!(ctx.frames().len(), 3);
        for frame in ctx.frames() {
            ensure_frame(frame, 131, group_addr(), group_addr());
            assert_eq!(frame.src_ip, Ipv6::unspecified_address());
        }
    });
}

#[test]
fn test_mld_integration_immediate_query_wont_fallback() {
    run_with_many_seeds(|seed| {
        let mut ctx = new_context();
        ctx.seed_rng(seed);

        assert_eq!(ctx.gmp_join_group(group_addr()), GroupJoinResult::Joined(()));
        assert_eq!(ctx.frames().len(), 1);

        ctx.assert_top(&group_addr());
        assert_eq!(ctx.trigger_next_timer(), Some(timer_id()));
        assert_eq!(ctx.frames().len(), 2);

        receive_mld_query(&mut ctx, Duration::from_secs(0), group_addr());

        // The query asks for an answer at once: a report goes out and the
        // group is idle again.
        let group_state = ctx.groups.get(&group_addr()).unwrap();
        match group_state.get_inner() {
            MemberState::Idle(_) => {}
            _ => panic!("Wrong State!"),
        }

        // No timers.
        assert_eq!(ctx.trigger_next_timer(), None);
        assert_eq!(ctx.frames().len(), 3);
        for frame in ctx.frames() {
            ensure_frame(frame, 131, group_addr(), group_addr());
            assert_eq!(frame.src_ip, Ipv6::unspecified_address());
        }
    });
}

#[test]
fn test_mld_integration_delay_reset_timer() {
    let mut ctx = new_context();
    // This seed leads to a delay of some length below.
    ctx.seed_rng(123456);
    assert_eq!(ctx.gmp_join_group(group_addr()), GroupJoinResult::Joined(()));

    ctx.assert_timers(&[(group_addr(), Instant::from_offset(Duration::from_micros(590_354)))]);
    let instant1 = ctx.timers()[0].0;
    let start = ctx.now();
    let duration = Duration { nanos: instant1.nanos - start.nanos };

    receive_mld_query(&mut ctx, duration, group_addr());
    assert_eq!(ctx.frames().len(), 1);
    ctx.assert_timers(&[(group_addr(), Instant::from_offset(Duration::from_micros(34_751)))]);
    let instant2 = ctx.timers()[0].0;
    // The new timer fires sooner.
    assert!(instant2 <= instant1);
    assert_eq!(ctx.trigger_next_timer(), Some(timer_id()));
    assert!(ctx.now().nanos - start.nanos <= duration.nanos);
    assert_eq!(ctx.frames().len(), 2);
    for frame in ctx.frames() {
        ensure_frame(frame, 131, group_addr(), group_addr());
        assert_eq!(frame.src_ip, Ipv6::unspecified_address());
    }
}

#[test]
fn test_mld_integration_last_send_leave() {
    run_with_many_seeds(|seed| {
        let mut ctx = new_context();
        ctx.seed_rng(seed);

        assert_eq!(ctx.gmp_join_group(group_addr()), GroupJoinResult::Joined(()));
        let now = ctx.now();

        ctx.assert_range(&[(
            group_addr(),
            now,
            after(now, default_unsolicited_report_interval()),
        )]);
        // The first unsolicited report.
        assert_eq!(ctx.frames().len(), 1);
        assert_eq!(ctx.trigger_next_timer(), Some(timer_id()));
        // The report after the delay.
        assert_eq!(ctx.frames().len(), 2);
        assert_eq!(ctx.gmp_leave_group(group_addr()), GroupLeaveResult::Left(()));
        // The done message.
        assert_eq!(ctx.frames().len(), 3);
        // The first two messages are reports.
        ensure_frame(&ctx.frames()[0], 131, group_addr(), group_addr());
        assert_eq!(ctx.frames()[0].src_ip, Ipv6::unspecified_address());
        ensure_frame(&ctx.frames()[1], 131, group_addr(), group_addr());
        assert_eq!(ctx.frames()[1].src_ip, Ipv6::unspecified_address());
        // The last one is the done message, which goes to all routers.
        ensure_frame(
            &ctx.frames()[2],
            132,
            Ipv6::all_routers_link_local_multicast_address(),
            group_addr(),
        );
        assert_eq!(ctx.frames()[2].src_ip, Ipv6::unspecified_address());
    });
}

#[test]
fn test_mld_integration_not_last_does_not_send_leave() {
    run_with_many_seeds(|seed| {
        let mut ctx = new_context();
        ctx.seed_rng(seed);

        assert_eq!(ctx.gmp_join_group(group_addr()), GroupJoinResult::Joined(()));
        let now = ctx.now();
        ctx.assert_range(&[(
            group_addr(),
            now,
            after(now, default_unsolicited_report_interval()),
        )]);
        assert_eq!(ctx.frames().len(), 1);
        receive_mld_report(&mut ctx, group_addr());
        ctx.assert_no_timers_installed();
        // The pending report is dropped: another host has reported.
        assert_eq!(ctx.frames().len(), 1);
        assert_eq!(ctx.gmp_leave_group(group_addr()), GroupLeaveResult::Left(()));
        // No done message is sent.
        assert_eq!(ctx.frames().len(), 1);
        for frame in ctx.frames() {
            ensure_frame(frame, 131, group_addr(), group_addr());
            assert_eq!(frame.src_ip, Ipv6::unspecified_address());
        }
    });
}

#[test]
fn test_mld_with_link_local() {
    run_with_many_seeds(|seed| {
        let mut ctx = new_context();
        ctx.seed_rng(seed);

        ctx.ipv6_link_local = Some(my_link_local());
        assert_eq!(ctx.gmp_join_group(group_addr()), GroupJoinResult::Joined(()));
        ctx.assert_top(&group_addr());
        assert_eq!(ctx.trigger_next_timer(), Some(timer_id()));
        for frame in ctx.frames() {
            ensure_frame(frame, 131, group_addr(), group_addr());
            assert_eq!(frame.src_ip, my_link_local());
        }
    });
}

#[test]
fn test_skip_mld() {
    run_with_many_seeds(|seed| {
        // No MLD is performed for the addresses that are to be skipped, nor
        // while MLD is disabled.
        let test = |mut ctx: FakeCtx, group: MulticastAddr<Ipv6Addr>| {
            ctx.ipv6_link_local = Some(my_link_local());

            // Nothing can be seen from outside.
            let assert_no_effect = |ctx: &FakeCtx| {
                ctx.assert_no_timers_installed();
                assert!(ctx.frames().is_empty());
            };

            assert_eq!(ctx.gmp_join_group(group), GroupJoinResult::Joined(()));
            // The group is joined, as a non-member.
            ctx.assert_gmp_state_non_member(&group);
            assert_no_effect(&ctx);

            receive_mld_report(&mut ctx, group);
            // No transition, no work.
            ctx.assert_gmp_state_non_member(&group);
            assert_no_effect(&ctx);

            receive_mld_query(&mut ctx, Duration::from_secs(10), group);
            // No transition, no work.
            ctx.assert_gmp_state_non_member(&group);
            assert_no_effect(&ctx);

            assert_eq!(ctx.gmp_leave_group(group), GroupLeaveResult::Left(()));
            // The group is left, and nothing was done for it.
            assert!(ctx.groups.get(&group).is_none());
            assert_no_effect(&ctx);
        };

        let new_ctx = || {
            let mut ctx = new_context();
            ctx.seed_rng(seed);
            ctx
        };

        // The addresses that are to be skipped.
        test(new_ctx(), Ipv6::all_nodes_link_local_multicast_address());
        let mut bytes = [0u8; 16];
        bytes[0] = 0xff;
        // The scope field is set to 0 by hand.
        bytes[1] = bytes[1] & 0xF0;
        let reserved0 = MulticastAddr::new(Ipv6Addr::from_bytes(bytes)).unwrap();
        // The scope field is set to 1 (interface-local) by hand.
        bytes[1] = (bytes[1] & 0xF0) | 1;
        let iface_local = MulticastAddr::new(Ipv6Addr::from_bytes(bytes)).unwrap();
        test(new_ctx(), reserved0);
        test(new_ctx(), iface_local);

        // MLD is disabled on the device.
        let mut ctx = new_ctx();
        ctx.mld_enabled = false;
        test(ctx, group_addr());
    });
}

#[test]
fn test_mld_integration_with_local_join_leave() {
    run_with_many_seeds(|seed| {
        // MLD is performed on a local join and a local leave.
        let mut ctx = new_context();
        ctx.seed_rng(seed);

        assert_eq!(ctx.gmp_join_group(group_addr()), GroupJoinResult::Joined(()));
        ctx.assert_gmp_state_delaying(&group_addr());
        assert_eq!(ctx.frames().len(), 1);
        let now = ctx.now();
        let to = after(now, default_unsolicited_report_interval());

        ctx.assert_range(&[(group_addr(), now, to)]);
        let frame = ctx.frames().last().unwrap();
        ensure_frame(frame, 131, group_addr(), group_addr());
        assert_eq!(frame.src_ip, Ipv6::unspecified_address());

        assert_eq!(ctx.gmp_join_group(group_addr()), GroupJoinResult::AlreadyMember);
        ctx.assert_gmp_state_delaying(&group_addr());
        assert_eq!(ctx.frames().len(), 1);
        ctx.assert_range(&[(group_addr(), now, to)]);

        assert_eq!(ctx.gmp_leave_group(group_addr()), GroupLeaveResult::StillMember);
        ctx.assert_gmp_state_delaying(&group_addr());
        assert_eq!(ctx.frames().len(), 1);

        ctx.assert_range(&[(group_addr(), now, to)]);

        assert_eq!(ctx.gmp_leave_group(group_addr()), GroupLeaveResult::Left(()));
        assert_eq!(ctx.frames().len(), 2);
        ctx.assert_no_timers_installed();
        let frame = ctx.frames().last().unwrap();
        ensure_frame(frame, 132, Ipv6::all_routers_link_local_multicast_address(), group_addr());
        assert_eq!(frame.src_ip, Ipv6::unspecified_address());
    });
}

#[test]
fn test_mld_enable_disable() {
    run_with_many_seeds(|seed| {
        let mut ctx = new_context();
        ctx.seed_rng(seed);
        assert_eq!(ctx.take_frames(), []);

        // No MLD is performed for the all-nodes address.
        assert_eq!(
            ctx.gmp_join_group(Ipv6::all_nodes_link_local_multicast_address()),
            GroupJoinResult::Joined(())
        );
        ctx.assert_gmp_state_non_member(&Ipv6::all_nodes_link_local_multicast_address());
        assert_eq!(ctx.gmp_join_group(group_addr()), GroupJoinResult::Joined(()));
        ctx.assert_gmp_state_delaying(&group_addr());
        {
            let frames = ctx.take_frames();
            assert_eq!(frames.len(), 1);
            let frame = &frames[0];
            assert_eq!(frame.message.dst_ip, group_addr());
            ensure_frame(frame, 131, group_addr(), group_addr());
            assert_eq!(frame.src_ip, Ipv6::unspecified_address());
        }

        // Nothing to do.
        ctx.gmp_handle_maybe_enabled();
        ctx.assert_gmp_state_non_member(&Ipv6::all_nodes_link_local_multicast_address());
        ctx.assert_gmp_state_delaying(&group_addr());
        assert_eq!(ctx.take_frames(), []);

        // A done message goes out.
        ctx.gmp_handle_disabled();
        ctx.assert_gmp_state_non_member(&Ipv6::all_nodes_link_local_multicast_address());
        ctx.assert_gmp_state_non_member(&group_addr());
        {
            let frames = ctx.take_frames();
            assert_eq!(frames.len(), 1);
            let frame = &frames[0];
            assert_eq!(frame.message.dst_ip, Ipv6::all_routers_link_local_multicast_address());
            ensure_frame(
                frame,
                132,
                Ipv6::all_routers_link_local_multicast_address(),
                group_addr(),
            );
            assert_eq!(frame.src_ip, Ipv6::unspecified_address());
        }

        // Nothing to do.
        ctx.gmp_handle_disabled();
        ctx.assert_gmp_state_non_member(&Ipv6::all_nodes_link_local_multicast_address());
        ctx.assert_gmp_state_non_member(&group_addr());
        assert_eq!(ctx.take_frames(), []);

        // A report goes out.
        ctx.gmp_handle_maybe_enabled();
        ctx.assert_gmp_state_non_member(&Ipv6::all_nodes_link_local_multicast_address());
        ctx.assert_gmp_state_delaying(&group_addr());
        let frames = ctx.take_frames();
        assert_eq!(frames.len(), 1);
        let frame = &frames[0];
        assert_eq!(frame.message.dst_ip, group_addr());
        ensure_frame(frame, 131, group_addr(), group_addr());
        assert_eq!(frame.src_ip, Ipv6::unspecified_address());
    });
}
