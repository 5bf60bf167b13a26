//! The shared state machine, driven directly with a protocol of the tests'
//! own.

use netstack_gmp::gmp::{
    GmpStateMachine, JoinGroupActions, LeaveGroupActions, MemberState, ProtocolSpecific,
    QueryReceivedActions, QueryReceivedGenericAction, ReportReceivedActions,
    ReportTimerExpiredActions,
};
use netstack_gmp::time::{Duration, Instant, NonZeroDuration};
use rand::SeedableRng;
use rand_xorshift::XorShiftRng;
use std::convert::Infallible as Never;

fn default_unsolicited_report_interval() -> Duration {
    Duration::from_secs(10)
}

/// A generator with a fixed seed. A seed of zero stands for a seed of one.
fn new_rng(mut seed: u128) -> XorShiftRng {
    if seed == 0 {
        seed = 1;
    }
    XorShiftRng::from_seed(seed.to_ne_bytes())
}

/// A protocol for the tests of the shared state machine.
#[derive(PartialEq, Eq, Copy, Clone, Debug, Default)]
struct FakeProtocolSpecific;

impl ProtocolSpecific for FakeProtocolSpecific {
    /// The shared state machine knows nothing of the protocol's actions.
    type Actions = Never;

    /// Whether to send a leave message where the flag is not set.
    type Config = bool;

    fn spec_initial() -> Self {
        FakeProtocolSpecific
    }

    fn spec_default_config() -> bool {
        false
    }

    fn spec_cfg_unsolicited_report_interval(_cfg: &Self::Config) -> Duration {
        default_unsolicited_report_interval()
    }

    fn spec_cfg_send_leave_anyway(cfg: &Self::Config) -> bool {
        *cfg
    }

    fn spec_get_max_resp_time(resp_time: Duration) -> Option<Duration> {
        NonZeroDuration::new(resp_time).map(|d| d.get())
    }

    fn spec_do_query_received_specific(
        _cfg: &Self::Config,
        _max_resp_time: Duration,
        previous: Self,
    ) -> (Self, Option<Never>) {
        (previous, None)
    }

    fn initial() -> Self {
        FakeProtocolSpecific
    }

    fn default_config() -> bool {
        false
    }

    fn cfg_unsolicited_report_interval(_cfg: &Self::Config) -> Duration {
        default_unsolicited_report_interval()
    }

    fn cfg_send_leave_anyway(cfg: &Self::Config) -> bool {
        *cfg
    }

    fn get_max_resp_time(resp_time: Duration) -> Option<NonZeroDuration> {
        NonZeroDuration::new(resp_time)
    }

    fn do_query_received_specific(
        _cfg: &Self::Config,
        _max_resp_time: Duration,
        previous: Self,
    ) -> (Self, Option<Never>) {
        (previous, None)
    }
}

type FakeGmpStateMachine = GmpStateMachine<FakeProtocolSpecific>;

fn assert_report_and_timer_within_interval(actions: JoinGroupActions<FakeProtocolSpecific>) {
    match actions {
        JoinGroupActions { send_report_and_schedule_timer: Some((FakeProtocolSpecific, d)) } => {
            assert!(d <= default_unsolicited_report_interval())
        }
        other => panic!("unexpected actions {:?}", other),
    }
}

#[test]
fn test_gmp_state_non_member_to_delay_should_set_flag() {
    let (s, _actions) = FakeGmpStateMachine::join_group(&mut new_rng(0), Instant::default(), false);
    match s.get_inner() {
        MemberState::Delaying(s) => assert!(s.get_state().last_reporter),
        _ => panic!("Wrong State!"),
    }
}

#[test]
fn test_gmp_state_non_member_to_delay_actions() {
    let (_state, actions) =
        FakeGmpStateMachine::join_group(&mut new_rng(0), Instant::default(), false);
    assert_report_and_timer_within_interval(actions);
}

#[test]
fn test_gmp_state_delay_no_reset_timer() {
    let mut rng = new_rng(0);
    let (mut s, _actions) = FakeGmpStateMachine::join_group(&mut rng, Instant::default(), false);
    assert_eq!(
        s.query_received(
            &mut rng,
            default_unsolicited_report_interval().checked_add(Duration::from_secs(1)).unwrap(),
            Instant::default(),
        ),
        QueryReceivedActions { generic: None, protocol_specific: None }
    );
}

#[test]
fn test_gmp_state_delay_reset_timer() {
    let mut rng = new_rng(0);
    let (mut s, _actions) = FakeGmpStateMachine::join_group(&mut rng, Instant::default(), false);
    assert_eq!(
        s.query_received(&mut rng, Duration::from_millis(1), Instant::default()),
        QueryReceivedActions {
            generic: Some(QueryReceivedGenericAction::ScheduleTimer(Duration::from_micros(1))),
            protocol_specific: None
        }
    );
}

#[test]
fn test_gmp_state_delay_to_idle_with_report_no_flag() {
    let (mut s, _actions) =
        FakeGmpStateMachine::join_group(&mut new_rng(0), Instant::default(), false);
    assert_eq!(s.report_received(), ReportReceivedActions { stop_timer: true });
    match s.get_inner() {
        MemberState::Idle(s) => {
            assert!(!s.get_state().last_reporter);
        }
        _ => panic!("Wrong State!"),
    }
}

#[test]
fn test_gmp_state_delay_to_idle_without_report_set_flag() {
    let (mut s, _actions) =
        FakeGmpStateMachine::join_group(&mut new_rng(0), Instant::default(), false);
    assert_eq!(
        s.report_timer_expired(),
        ReportTimerExpiredActions { send_report: FakeProtocolSpecific }
    );
    match s.get_inner() {
        MemberState::Idle(s) => {
            assert!(s.get_state().last_reporter);
        }
        _ => panic!("Wrong State!"),
    }
}

#[test]
fn test_gmp_state_leave_should_send_leave() {
    let mut rng = new_rng(0);
    let (s, _actions) = FakeGmpStateMachine::join_group(&mut rng, Instant::default(), false);
    assert_eq!(s.leave_group(), LeaveGroupActions { send_leave: true, stop_timer: true },);
    let (mut s, _actions) = FakeGmpStateMachine::join_group(&mut rng, Instant::default(), false);
    assert_eq!(
        s.report_timer_expired(),
        ReportTimerExpiredActions { send_report: FakeProtocolSpecific }
    );
    assert_eq!(s.leave_group(), LeaveGroupActions { send_leave: true, stop_timer: false });
}

#[test]
fn test_gmp_state_delay_to_other_states_should_stop_timer() {
    let mut rng = new_rng(0);
    let (s, _actions) = FakeGmpStateMachine::join_group(&mut rng, Instant::default(), false);
    assert_eq!(s.leave_group(), LeaveGroupActions { send_leave: true, stop_timer: true },);
    let (mut s, _actions) = FakeGmpStateMachine::join_group(&mut rng, Instant::default(), false);
    assert_eq!(s.report_received(), ReportReceivedActions { stop_timer: true });
}

#[test]
fn test_gmp_state_other_states_to_delay_should_schedule_timer() {
    let mut rng = new_rng(0);
    let (mut s, actions) = FakeGmpStateMachine::join_group(&mut rng, Instant::default(), false);
    assert_report_and_timer_within_interval(actions);
    assert_eq!(s.report_received(), ReportReceivedActions { stop_timer: true });
    assert_eq!(
        s.query_received(&mut rng, Duration::from_secs(1), Instant::default()),
        QueryReceivedActions {
            generic: Some(QueryReceivedGenericAction::ScheduleTimer(Duration::from_micros(1))),
            protocol_specific: None
        }
    );
}

#[test]
fn test_gmp_state_leave_send_anyway_do_send() {
    let (mut s, _actions) =
        FakeGmpStateMachine::join_group(&mut new_rng(0), Instant::default(), false);
    s.set_config(true);
    assert_eq!(s.report_received(), ReportReceivedActions { stop_timer: true });
    match s.get_inner() {
        MemberState::Idle(s) => assert!(!s.get_state().last_reporter),
        _ => panic!("Wrong State!"),
    }
    assert_eq!(s.leave_group(), LeaveGroupActions { send_leave: true, stop_timer: false });
}

#[test]
fn test_gmp_state_leave_not_the_last_do_nothing() {
    let (mut s, _actions) =
        FakeGmpStateMachine::join_group(&mut new_rng(0), Instant::default(), false);
    assert_eq!(s.report_received(), ReportReceivedActions { stop_timer: true });
    assert_eq!(s.leave_group(), LeaveGroupActions { send_leave: false, stop_timer: false })
}
