//! Internet Group Management Protocol, version 2 (IGMPv2): group management
//! for IPv4.
//!
//! IGMPv2 adds one thing to the shared state machine. A query with a response
//! time of zero comes from a router that only speaks IGMPv1. The host then
//! answers within ten seconds, and until a timeout has passed it sends its
//! reports in the format of IGMPv1.

use crate::addr::{IpAddress, Ipv4, Ipv4Addr, MulticastAddr, IPV4_ALL_ROUTERS};
use crate::gmp::device::{
    effects_view, gmp_handle_timer, gmp_wf, handle_inbound, inbound_handled, query_allowed_for,
    same_groups, timer_handled, update_all_with_protocol_specific, GmpDelayedReportTimerId,
    GmpInbound, GmpMessageType, GmpStateRef, NotAMemberErr, QueryEffect, QueryTarget,
};
use crate::gmp::{GmpStateMachine, MemberState, ProtocolSpecific, QueryReceivedGenericAction};
use crate::time::{Duration, Instant, NonZeroDuration};
use rand_xorshift::XorShiftRng;
use vstd::prelude::*;

verus! {

/// What IGMPv2 keeps per group beyond the shared state.
#[derive(Debug, Clone, Copy, PartialEq, Eq, Structural)]
pub struct Igmpv2ProtocolSpecific {
    /// Whether a router that only speaks IGMPv1 was heard and its timeout has
    /// not passed yet.
    pub v1_router_present: bool,
}

impl Default for Igmpv2ProtocolSpecific {
    fn default() -> (p: Igmpv2ProtocolSpecific)
        ensures
            p == (Igmpv2ProtocolSpecific { v1_router_present: false }),
    {
        Igmpv2ProtocolSpecific { v1_router_present: false }
    }
}

/// What IGMPv2 may ask for beyond the actions of the shared state machine.
#[derive(PartialEq, Eq, Debug, Clone, Copy, Structural)]
pub enum Igmpv2Actions {
    /// Arm the device's "IGMPv1 router present" timer to fire after the given
    /// time.
    ScheduleV1RouterPresentTimer(Duration),
}

/// The configuration of IGMPv2 for one group.
#[derive(Debug, Clone, Copy, PartialEq, Eq, Structural)]
pub struct Igmpv2HostConfig {
    /// The longest delay before the second of the two unsolicited reports.
    pub unsolicited_report_interval: Duration,
    /// Whether a leave message is sent even where this host was not the last
    /// to report.
    pub send_leave_anyway: bool,
    /// How long after an IGMPv1 query the host keeps to IGMPv1 reports.
    pub v1_router_present_timeout: Duration,
}

/// The default of `unsolicited_report_interval` in nanoseconds: ten seconds,
/// as RFC 2236 section 8.10 has it.
pub const IGMP_DEFAULT_UNSOLICITED_REPORT_INTERVAL: u128 = 10_000_000_000;

/// The default of `v1_router_present_timeout` in nanoseconds: four hundred
/// seconds, as RFC 2236 section 8.11 has it.
pub const DEFAULT_V1_ROUTER_PRESENT_TIMEOUT: u128 = 400_000_000_000;

/// The window in nanoseconds within which a query of an IGMPv1 router is
/// answered: ten seconds, as RFC 2236 section 4 has it.
pub const DEFAULT_V1_QUERY_MAX_RESP_TIME: u128 = 10_000_000_000;

impl Igmpv2HostConfig {
    /// The configuration that RFC 2236 prescribes.
    pub open spec fn spec_default() -> Igmpv2HostConfig {
        Igmpv2HostConfig {
            unsolicited_report_interval: Duration {
                nanos: IGMP_DEFAULT_UNSOLICITED_REPORT_INTERVAL,
            },
            send_leave_anyway: false,
            v1_router_present_timeout: Duration { nanos: DEFAULT_V1_ROUTER_PRESENT_TIMEOUT },
        }
    }
}

impl Default for Igmpv2HostConfig {
    fn default() -> (cfg: Igmpv2HostConfig)
        ensures
            cfg == Igmpv2HostConfig::spec_default(),
    {
        Igmpv2HostConfig {
            unsolicited_report_interval: Duration {
                nanos: IGMP_DEFAULT_UNSOLICITED_REPORT_INTERVAL,
            },
            send_leave_anyway: false,
            v1_router_present_timeout: Duration { nanos: DEFAULT_V1_ROUTER_PRESENT_TIMEOUT },
        }
    }
}

impl ProtocolSpecific for Igmpv2ProtocolSpecific {
    type Actions = Igmpv2Actions;

    type Config = Igmpv2HostConfig;

    open spec fn spec_initial() -> Self {
        Igmpv2ProtocolSpecific { v1_router_present: false }
    }

    open spec fn spec_default_config() -> Igmpv2HostConfig {
        Igmpv2HostConfig::spec_default()
    }

    open spec fn spec_cfg_unsolicited_report_interval(cfg: &Igmpv2HostConfig) -> Duration {
        cfg.unsolicited_report_interval
    }

    open spec fn spec_cfg_send_leave_anyway(cfg: &Igmpv2HostConfig) -> bool {
        cfg.send_leave_anyway
    }

    /// IGMPv2 never answers at once. A response time of zero is that of an
    /// IGMPv1 router and stands for ten seconds; any other is the window
    /// itself.
    open spec fn spec_get_max_resp_time(resp_time: Duration) -> Option<Duration> {
        if resp_time@ == 0 {
            Some(Duration { nanos: DEFAULT_V1_QUERY_MAX_RESP_TIME })
        } else {
            Some(resp_time)
        }
    }

    /// A query whose response time holds no whole microsecond is that of an
    /// IGMPv1 router: the flag is set and the router's timeout is to be
    /// armed. Any other query clears the flag.
    open spec fn spec_do_query_received_specific(
        cfg: &Igmpv2HostConfig,
        max_resp_time: Duration,
        previous: Self,
    ) -> (Self, Option<Igmpv2Actions>) {
        if max_resp_time.micros() == 0 {
            (
                Igmpv2ProtocolSpecific { v1_router_present: true },
                Some(Igmpv2Actions::ScheduleV1RouterPresentTimer(cfg.v1_router_present_timeout)),
            )
        } else {
            (Igmpv2ProtocolSpecific { v1_router_present: false }, None)
        }
    }

    fn initial() -> (p: Self) {
        Igmpv2ProtocolSpecific::default()
    }

    fn default_config() -> (cfg: Igmpv2HostConfig) {
        Igmpv2HostConfig::default()
    }

    fn cfg_unsolicited_report_interval(cfg: &Igmpv2HostConfig) -> (d: Duration) {
        cfg.unsolicited_report_interval
    }

    fn cfg_send_leave_anyway(cfg: &Igmpv2HostConfig) -> (b: bool) {
        cfg.send_leave_anyway
    }

    fn get_max_resp_time(resp_time: Duration) -> (r: Option<NonZeroDuration>) {
        match NonZeroDuration::new(resp_time) {
            Some(window) => Some(window),
            None => NonZeroDuration::new(Duration { nanos: DEFAULT_V1_QUERY_MAX_RESP_TIME }),
        }
    }

    fn do_query_received_specific(
        cfg: &Igmpv2HostConfig,
        max_resp_time: Duration,
        previous: Self,
    ) -> (r: (Self, Option<Igmpv2Actions>)) {
        let v1_router_present = max_resp_time.as_micros() == 0;
        (
            Igmpv2ProtocolSpecific { v1_router_present },
            if v1_router_present {
                Some(Igmpv2Actions::ScheduleV1RouterPresentTimer(cfg.v1_router_present_timeout))
            } else {
                None
            },
        )
    }
}

/// What is kept for a group that a device has joined over IGMP.
pub type IgmpGroupState = GmpStateMachine<Igmpv2ProtocolSpecific>;

/// The IGMP state of a device beyond its groups: the one timer that ends the
/// time in which the device keeps to IGMPv1 reports.
#[derive(Debug)]
pub struct IgmpState {
    /// When the "IGMPv1 router present" timer fires, if it is armed.
    pub v1_router_present_timer: Option<Instant>,
}

impl IgmpState {
    /// The state of a device that has heard no IGMPv1 router.
    pub fn new() -> (s: IgmpState)
        ensures
            s.v1_router_present_timer is None,
    {
        IgmpState { v1_router_present_timer: None }
    }

    /// Does what the protocol has asked for at `now`: arms the "IGMPv1
    /// router present" timer to fire after the time that the action names,
    /// in place of the instant it may have been armed for.
    pub fn run_actions(&mut self, now: Instant, actions: Igmpv2Actions)
        requires
            actions matches Igmpv2Actions::ScheduleV1RouterPresentTimer(timeout)
                && now.fits_after(timeout),
        ensures
            actions matches Igmpv2Actions::ScheduleV1RouterPresentTimer(timeout)
                && final(self).v1_router_present_timer == Some(now.spec_add(timeout)),
    {
        match actions {
            Igmpv2Actions::ScheduleV1RouterPresentTimer(timeout) => {
                self.v1_router_present_timer = now.checked_add(timeout);
            },
        }
    }
}

impl GmpStateMachine<Igmpv2ProtocolSpecific> {
    /// Takes the expiry of the "IGMPv1 router present" timer: the group
    /// goes back to IGMPv2 reports. Its membership state stays as it is.
    pub fn v1_router_present_timer_expired(&mut self)
        requires
            old(self).wf(),
        ensures
            final(self).wf(),
            final(self)@ == old(self)@.with_protocol_specific(
                Igmpv2ProtocolSpecific { v1_router_present: false },
            ),
    {
        self.update_with_protocol_specific(Igmpv2ProtocolSpecific { v1_router_present: false });
    }
}

/// What can go wrong in handling IGMP.
#[derive(Debug, Clone, Copy, PartialEq, Eq, Structural)]
pub enum IgmpError {
    /// A message is about a group of which the host is not a member.
    NotAMember {
        /// The address that the message names.
        addr: Ipv4Addr,
    },
}

/// The result of handling IGMP.
pub type IgmpResult<T> = Result<T, IgmpError>;

/// The error of the engine as an error of IGMP.
pub fn not_a_member_err(addr: Ipv4Addr) -> (e: IgmpError)
    ensures
        e == (IgmpError::NotAMember { addr }),
{
    IgmpError::NotAMember { addr }
}

/// An IGMP message as it was parsed from a packet, with the fields that a
/// host reads.
#[derive(Debug, Clone, Copy, PartialEq, Eq, Structural)]
pub enum IgmpPacket {
    /// A query of an IGMPv2 router, or of an IGMPv1 router where the
    /// response time is zero.
    MembershipQueryV2 {
        /// The group that is asked about; all zero in a general query.
        group_addr: Ipv4Addr,
        /// The time within which an answer is asked for.
        max_response_time: Duration,
    },
    /// A query of an IGMPv3 router.
    MembershipQueryV3,
    /// The report of a host in the format of IGMPv1.
    MembershipReportV1 {
        /// The group that is reported.
        group_addr: Ipv4Addr,
    },
    /// The report of a host in the format of IGMPv2.
    MembershipReportV2 {
        /// The group that is reported.
        group_addr: Ipv4Addr,
    },
    /// The report of a host in the format of IGMPv3.
    MembershipReportV3,
    /// The leave message of a host.
    LeaveGroup {
        /// The group that is left.
        group_addr: Ipv4Addr,
    },
}

/// The address that an IGMP message names, for the kinds of message that a
/// host reads the address of.
pub open spec fn spec_group_addr(packet: IgmpPacket) -> Option<Ipv4Addr> {
    match packet {
        IgmpPacket::MembershipQueryV2 { group_addr, .. } => Some(group_addr),
        IgmpPacket::MembershipReportV1 { group_addr } => Some(group_addr),
        IgmpPacket::MembershipReportV2 { group_addr } => Some(group_addr),
        IgmpPacket::LeaveGroup { group_addr } => Some(group_addr),
        _ => None,
    }
}

/// How a host reads an IGMP message.
///
/// A query with the all-zero address asks about every group. A query or a
/// report that names a multicast address is about that group. One that names
/// any other address is an error: no host is a member of such a group. The
/// leave messages of other hosts and the messages of IGMPv3 are ignored.
pub open spec fn spec_classify_igmp(packet: IgmpPacket) -> Result<GmpInbound<Ipv4Addr>, IgmpError> {
    match packet {
        IgmpPacket::MembershipQueryV2 { group_addr, max_response_time } => {
            if !group_addr.spec_is_specified() {
                Ok(GmpInbound::Query { target: QueryTarget::Unspecified, max_response_time })
            } else if group_addr.spec_is_multicast() {
                Ok(
                    GmpInbound::Query {
                        target: QueryTarget::Specified(MulticastAddr::spec_new(group_addr)),
                        max_response_time,
                    },
                )
            } else {
                Err(IgmpError::NotAMember { addr: group_addr })
            }
        },
        IgmpPacket::MembershipReportV1 { group_addr } | IgmpPacket::MembershipReportV2 {
            group_addr,
        } => {
            if group_addr.spec_is_multicast() {
                Ok(GmpInbound::Report { group_addr: MulticastAddr::spec_new(group_addr) })
            } else {
                Err(IgmpError::NotAMember { addr: group_addr })
            }
        },
        _ => Ok(GmpInbound::Ignored),
    }
}

/// Reads an IGMP message as `spec_classify_igmp` says.
pub fn classify_igmp(packet: IgmpPacket) -> (r: Result<GmpInbound<Ipv4Addr>, IgmpError>)
    ensures
        r == spec_classify_igmp(packet),
{
    match packet {
        IgmpPacket::MembershipQueryV2 { group_addr, max_response_time } => {
            if !group_addr.is_specified() {
                Ok(GmpInbound::Query { target: QueryTarget::Unspecified, max_response_time })
            } else {
                match MulticastAddr::new(group_addr) {
                    Some(group) => {
                        Ok(
                            GmpInbound::Query {
                                target: QueryTarget::Specified(group),
                                max_response_time,
                            },
                        )
                    },
                    None => Err(not_a_member_err(group_addr)),
                }
            }
        },
        IgmpPacket::MembershipReportV1 { group_addr } | IgmpPacket::MembershipReportV2 {
            group_addr,
        } => {
            match MulticastAddr::new(group_addr) {
                Some(group) => Ok(GmpInbound::Report { group_addr: group }),
                None => Err(not_a_member_err(group_addr)),
            }
        },
        IgmpPacket::MembershipQueryV3 => Ok(GmpInbound::Ignored),
        IgmpPacket::MembershipReportV3 => Ok(GmpInbound::Ignored),
        IgmpPacket::LeaveGroup { group_addr: _ } => Ok(GmpInbound::Ignored),
    }
}

/// The result of the engine as a result of IGMP.
pub open spec fn spec_engine_result<T>(r: IgmpResult<T>) -> Result<T, NotAMemberErr<Ipv4Addr>> {
    match r {
        Ok(t) => Ok(t),
        Err(IgmpError::NotAMember { addr }) => Err(NotAMemberErr { addr }),
    }
}

/// Handles an IGMP message that came in at `now`.
///
/// The message is read as `spec_classify_igmp` says. Where that is an error,
/// the error is the result and nothing changes. Otherwise the message is
/// handled as `inbound_handled` says, and an error of the engine comes back
/// as `NotAMember`.
pub fn receive_igmp_packet(
    state: GmpStateRef<'_, Ipv4, Igmpv2ProtocolSpecific>,
    rng: &mut XorShiftRng,
    now: Instant,
    packet: IgmpPacket,
) -> (r: IgmpResult<Vec<QueryEffect<Ipv4Addr, Igmpv2ProtocolSpecific>>>)
    requires
        gmp_wf(old(state.groups)@, old(state.gmp).timers),
        spec_classify_igmp(packet) matches Ok(GmpInbound::Query { target, max_response_time })
            ==> query_allowed_for(old(state.groups)@, target, max_response_time, now),
    ensures
        gmp_wf(final(state.groups)@, final(state.gmp).timers),
        r matches Err(IgmpError::NotAMember { addr }) ==> spec_group_addr(packet) == Some(addr),
        match spec_classify_igmp(packet) {
            Err(e) => {
                &&& r == Err::<Vec<QueryEffect<Ipv4Addr, Igmpv2ProtocolSpecific>>, _>(e)
                &&& final(state.groups)@ == old(state.groups)@
                &&& final(state.gmp).timers@ == old(state.gmp).timers@
            },
            Ok(inbound) => inbound_handled(
                old(state.groups)@,
                old(state.gmp).timers@,
                inbound,
                now,
                final(state.groups)@,
                final(state.gmp).timers@,
                effects_view(spec_engine_result(r)),
            ),
        },
{
    match classify_igmp(packet) {
        Err(e) => Err(e),
        Ok(inbound) => match handle_inbound(state, rng, now, inbound) {
            Ok(effects) => Ok(effects),
            Err(NotAMemberErr { addr }) => {
                proof {
                    let named = spec_group_addr(packet)->0;
                    MulticastAddr::lemma_spec_new(MulticastAddr::spec_new(named), named);
                }
                Err(not_a_member_err(addr))
            },
        },
    }
}

/// The kinds of IGMP messages that a host sends.
#[derive(Debug, Clone, Copy, PartialEq, Eq, Structural)]
pub enum IgmpMessageKind {
    /// A report in the format of IGMPv1.
    MembershipReportV1,
    /// A report in the format of IGMPv2.
    MembershipReportV2,
    /// A leave message.
    LeaveGroup,
}

/// The type number of an IGMPv1 membership report.
pub const IGMP_MEMBERSHIP_REPORT_V1: u8 = 0x12;

/// The type number of an IGMPv2 membership report.
pub const IGMP_MEMBERSHIP_REPORT_V2: u8 = 0x16;

/// The type number of an IGMPv2 leave group message.
pub const IGMP_LEAVE_GROUP: u8 = 0x17;

impl IgmpMessageKind {
    /// The number that stands for this kind in the type field of an IGMP
    /// message.
    pub fn message_type(&self) -> (t: u8)
        ensures
            t == match *self {
                IgmpMessageKind::MembershipReportV1 => IGMP_MEMBERSHIP_REPORT_V1,
                IgmpMessageKind::MembershipReportV2 => IGMP_MEMBERSHIP_REPORT_V2,
                IgmpMessageKind::LeaveGroup => IGMP_LEAVE_GROUP,
            },
    {
        match self {
            IgmpMessageKind::MembershipReportV1 => IGMP_MEMBERSHIP_REPORT_V1,
            IgmpMessageKind::MembershipReportV2 => IGMP_MEMBERSHIP_REPORT_V2,
            IgmpMessageKind::LeaveGroup => IGMP_LEAVE_GROUP,
        }
    }
}

/// An IGMP message that is to be sent.
#[derive(Debug, Clone, Copy, PartialEq, Eq)]
pub struct IgmpMessage {
    /// The kind of message.
    pub kind: IgmpMessageKind,
    /// The group that the message is about.
    pub group_addr: MulticastAddr<Ipv4Addr>,
    /// Where the message goes.
    pub dst_ip: MulticastAddr<Ipv4Addr>,
}

/// The IGMP message that stands for `msg_type` about `group_addr`.
///
/// A report goes to the group itself, in the format of IGMPv1 while a router
/// that only speaks IGMPv1 is present and in the format of IGMPv2 otherwise.
/// A leave message goes to all routers, whatever routers are present.
pub fn send_message(
    group_addr: MulticastAddr<Ipv4Addr>,
    msg_type: GmpMessageType<Igmpv2ProtocolSpecific>,
) -> (m: IgmpMessage)
    ensures
        m.group_addr == group_addr,
        match msg_type {
            GmpMessageType::Report(ps) => {
                &&& m.dst_ip == group_addr
                &&& m.kind == if ps.v1_router_present {
                    IgmpMessageKind::MembershipReportV1
                } else {
                    IgmpMessageKind::MembershipReportV2
                }
            },
            GmpMessageType::Leave => {
                &&& m.dst_ip.spec_get().bits == IPV4_ALL_ROUTERS
                &&& m.kind == IgmpMessageKind::LeaveGroup
            },
        },
{
    match msg_type {
        GmpMessageType::Report(Igmpv2ProtocolSpecific { v1_router_present }) => {
            if v1_router_present {
                IgmpMessage {
                    kind: IgmpMessageKind::MembershipReportV1,
                    group_addr,
                    dst_ip: group_addr,
                }
            } else {
                IgmpMessage {
                    kind: IgmpMessageKind::MembershipReportV2,
                    group_addr,
                    dst_ip: group_addr,
                }
            }
        },
        GmpMessageType::Leave => IgmpMessage {
            kind: IgmpMessageKind::LeaveGroup,
            group_addr,
            dst_ip: Ipv4::all_routers_multicast_address(),
        },
    }
}

/// The source address of an IGMP message: the address that is assigned to
/// the device, or the all-zero address while none is.
pub fn source_address(assigned: Option<Ipv4Addr>) -> (src: Ipv4Addr)
    ensures
        src == match assigned {
            Some(addr) => addr,
            None => Ipv4Addr { bits: 0 },
        },
{
    match assigned {
        Some(addr) => addr,
        None => Ipv4::unspecified_address(),
    }
}

/// An IGMP timer ID.
#[derive(Debug, PartialEq, Eq, Clone, Copy, Hash)]
pub enum IgmpTimerId<D> {
    /// The timer of the delayed reports.
    Gmp(GmpDelayedReportTimerId<D>),
    /// The timer that ends the time in which a router that only speaks
    /// IGMPv1 counts as present.
    V1RouterPresent {
        /// The device that heard the router.
        device: D,
    },
}

impl<D> IgmpTimerId<D> {
    /// The device that the timer belongs to.
    pub fn device_id(&self) -> (d: &D)
        ensures
            *d == match *self {
                IgmpTimerId::Gmp(id) => id.device,
                IgmpTimerId::V1RouterPresent { device } => device,
            },
    {
        match self {
            IgmpTimerId::Gmp(id) => id.device_id(),
            IgmpTimerId::V1RouterPresent { device } => device,
        }
    }

    /// The identifier of the timer of the delayed reports on `device`.
    pub fn new_delayed_report(device: D) -> (id: Self)
        ensures
            id == IgmpTimerId::Gmp(GmpDelayedReportTimerId { device }),
    {
        IgmpTimerId::Gmp(GmpDelayedReportTimerId { device })
    }

    /// Handles the expiry of this timer at `now`.
    ///
    /// The timer of the delayed reports is handled as `gmp_handle_timer`
    /// says. On the expiry of the "IGMPv1 router present" timer every group
    /// goes back to IGMPv2 reports, the timer is disarmed, and no group
    /// changes its membership state.
    pub fn handle(
        self,
        state: GmpStateRef<'_, Ipv4, Igmpv2ProtocolSpecific>,
        igmp: &mut IgmpState,
        now: Instant,
    ) -> (r: Option<(MulticastAddr<Ipv4Addr>, GmpMessageType<Igmpv2ProtocolSpecific>)>)
        requires
            gmp_wf(old(state.groups)@, old(state.gmp).timers),
        ensures
            gmp_wf(final(state.groups)@, final(state.gmp).timers),
            same_groups(old(state.groups)@, final(state.groups)@),
            self is V1RouterPresent ==> {
                let groups = old(state.groups)@;
                let groups2 = final(state.groups)@;
                &&& r is None
                &&& final(igmp).v1_router_present_timer is None
                &&& final(state.gmp).timers@ == old(state.gmp).timers@
                &&& forall|k: int|
                    0 <= k < groups.len() ==> (#[trigger] groups2[k]).value@
                        == groups[k].value@.with_protocol_specific(
                        Igmpv2ProtocolSpecific { v1_router_present: false },
                    )
            },
            self is Gmp ==> {
                &&& *final(igmp) == *old(igmp)
                &&& timer_handled(
                    old(state.groups)@,
                    old(state.gmp).timers@,
                    now,
                    final(state.groups)@,
                    final(state.gmp).timers@,
                    r,
                )
            },
    {
        match self {
            IgmpTimerId::Gmp(_) => gmp_handle_timer(state, now),
            IgmpTimerId::V1RouterPresent { device: _ } => {
                update_all_with_protocol_specific(
                    state,
                    Igmpv2ProtocolSpecific { v1_router_present: false },
                );
                igmp.v1_router_present_timer = None;
                None
            },
        }
    }
}

/// Compatibility with IGMPv1. A member with the default configuration that
/// hears a query with a response time of zero notes that an IGMPv1 router is
/// present, is asked to arm that router's timer for four hundred seconds,
/// and answers within ten seconds: it never reports at once.
pub proof fn lemma_v1_query(
    state: MemberState<Igmpv2ProtocolSpecific>,
    now: Instant,
    delay: Duration,
)
    requires
        !(state is NonMember),
        state.cfg() == Igmpv2HostConfig::spec_default(),
    ensures
        ({
            let after = state.spec_query_received(Duration { nanos: 0 }, now, delay);
            &&& after.0.protocol_specific().v1_router_present
            &&& after.0 is Delaying
            &&& after.1.protocol_specific == Some(
                Igmpv2Actions::ScheduleV1RouterPresentTimer(
                    Duration { nanos: DEFAULT_V1_ROUTER_PRESENT_TIMEOUT },
                ),
            )
            &&& Igmpv2ProtocolSpecific::spec_get_max_resp_time(Duration { nanos: 0 }) == Some(
                Duration { nanos: DEFAULT_V1_QUERY_MAX_RESP_TIME },
            )
            &&& !(after.1.generic matches Some(
                QueryReceivedGenericAction::StopTimerAndSendReport(_),
            ))
        }),
{
}

} // verus!
