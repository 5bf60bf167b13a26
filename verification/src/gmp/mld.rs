//! Multicast Listener Discovery, version 1 (MLDv1): group management for
//! IPv6.
//!
//! MLD takes the shared state machine as it is. It keeps nothing of its own
//! per group, asks for nothing of its own, and reads a response time of zero
//! as a request to report at once.

use crate::addr::{IpAddress, Ipv6, Ipv6Addr, MulticastAddr, IPV6_ALL_ROUTERS_LINK_LOCAL};
use crate::gmp::device::{
    effects_view, gmp_handle_timer, gmp_wf, handle_inbound, inbound_handled, query_allowed_for,
    timer_handled, GmpDelayedReportTimerId, GmpInbound, GmpMessageType, GmpStateRef, NotAMemberErr,
    QueryEffect, QueryTarget,
};
use crate::gmp::{GmpStateMachine, MemberState, ProtocolSpecific, QueryReceivedGenericAction};
use crate::time::{Duration, Instant, NonZeroDuration};
use core::convert::Infallible;
use rand_xorshift::XorShiftRng;
use vstd::prelude::*;

verus! {

/// What MLD keeps per group beyond the shared state: nothing.
#[derive(PartialEq, Eq, Clone, Copy, Default, Debug, Structural)]
pub struct MldProtocolSpecific;

/// The configuration of MLD for one group.
#[derive(Debug, Clone, Copy, PartialEq, Eq, Structural)]
pub struct MldConfig {
    /// The longest delay before the second of the two unsolicited reports.
    pub unsolicited_report_interval: Duration,
    /// Whether a done message is sent even where this host was not the last
    /// to report.
    pub send_leave_anyway: bool,
}

/// The default of `unsolicited_report_interval` in nanoseconds: ten seconds,
/// as RFC 2710 section 7.10 has it.
pub const MLD_DEFAULT_UNSOLICITED_REPORT_INTERVAL: u128 = 10_000_000_000;

impl MldConfig {
    /// The configuration that RFC 2710 prescribes.
    pub open spec fn spec_default() -> MldConfig {
        MldConfig {
            unsolicited_report_interval: Duration {
                nanos: MLD_DEFAULT_UNSOLICITED_REPORT_INTERVAL,
            },
            send_leave_anyway: false,
        }
    }
}

impl Default for MldConfig {
    fn default() -> (cfg: MldConfig)
        ensures
            cfg == MldConfig::spec_default(),
    {
        MldConfig {
            unsolicited_report_interval: Duration {
                nanos: MLD_DEFAULT_UNSOLICITED_REPORT_INTERVAL,
            },
            send_leave_anyway: false,
        }
    }
}

impl ProtocolSpecific for MldProtocolSpecific {
    /// MLD asks for nothing of its own, so its actions have no value.
    type Actions = Infallible;

    type Config = MldConfig;

    open spec fn spec_initial() -> Self {
        MldProtocolSpecific
    }

    open spec fn spec_default_config() -> MldConfig {
        MldConfig::spec_default()
    }

    open spec fn spec_cfg_unsolicited_report_interval(cfg: &MldConfig) -> Duration {
        cfg.unsolicited_report_interval
    }

    open spec fn spec_cfg_send_leave_anyway(cfg: &MldConfig) -> bool {
        cfg.send_leave_anyway
    }

    /// A response time of zero asks for a report at once; any other is the
    /// window itself.
    open spec fn spec_get_max_resp_time(resp_time: Duration) -> Option<Duration> {
        if resp_time@ == 0 {
            None
        } else {
            Some(resp_time)
        }
    }

    /// MLD does nothing of its own on a query.
    open spec fn spec_do_query_received_specific(
        cfg: &MldConfig,
        max_resp_time: Duration,
        previous: Self,
    ) -> (Self, Option<Infallible>) {
        (previous, None)
    }

    fn initial() -> (p: Self) {
        MldProtocolSpecific
    }

    fn default_config() -> (cfg: MldConfig) {
        MldConfig::default()
    }

    fn cfg_unsolicited_report_interval(cfg: &MldConfig) -> (d: Duration) {
        cfg.unsolicited_report_interval
    }

    fn cfg_send_leave_anyway(cfg: &MldConfig) -> (b: bool) {
        cfg.send_leave_anyway
    }

    fn get_max_resp_time(resp_time: Duration) -> (r: Option<NonZeroDuration>) {
        NonZeroDuration::new(resp_time)
    }

    fn do_query_received_specific(
        cfg: &MldConfig,
        max_resp_time: Duration,
        previous: Self,
    ) -> (r: (Self, Option<Infallible>)) {
        (previous, None)
    }
}

/// What is kept for a group that a device has joined over MLD.
pub type MldGroupState = GmpStateMachine<MldProtocolSpecific>;

/// What can go wrong in handling MLD.
#[derive(Debug, Clone, Copy, PartialEq, Eq, Structural)]
pub enum MldError {
    /// A message is about a group of which the host is not a member.
    NotAMember {
        /// The address that the message names.
        addr: Ipv6Addr,
    },
}

/// The result of handling MLD.
pub type MldResult<T> = Result<T, MldError>;

/// The error of the engine as an error of MLD.
pub fn not_a_member_err(addr: Ipv6Addr) -> (e: MldError)
    ensures
        e == (MldError::NotAMember { addr }),
{
    MldError::NotAMember { addr }
}

/// An MLD message as it was parsed from a packet, with the fields that a
/// host reads.
#[derive(Debug, Clone, Copy, PartialEq, Eq, Structural)]
pub enum MldPacket {
    /// A query of an MLDv1 router.
    MulticastListenerQuery {
        /// The group that is asked about; all zero in a general query.
        group_addr: Ipv6Addr,
        /// The time within which an answer is asked for.
        max_response_delay: Duration,
    },
    /// The report of a host in the format of MLDv1.
    MulticastListenerReport {
        /// The group that is reported.
        group_addr: Ipv6Addr,
    },
    /// The done message of a host.
    MulticastListenerDone {
        /// The group that is left.
        group_addr: Ipv6Addr,
    },
    /// A query of an MLDv2 router.
    MulticastListenerQueryV2,
    /// The report of a host in the format of MLDv2.
    MulticastListenerReportV2,
}

/// The address that an MLD message names, for the kinds of message that a
/// host reads the address of.
pub open spec fn spec_group_addr(packet: MldPacket) -> Option<Ipv6Addr> {
    match packet {
        MldPacket::MulticastListenerQuery { group_addr, .. } => Some(group_addr),
        MldPacket::MulticastListenerReport { group_addr } => Some(group_addr),
        MldPacket::MulticastListenerDone { group_addr } => Some(group_addr),
        _ => None,
    }
}

/// How a host reads an MLD message.
///
/// A query with the all-zero address asks about every group. A query or a
/// report that names a multicast address is about that group. One that names
/// any other address is an error: no host is a member of such a group. The
/// done messages of other hosts and the messages of MLDv2 are ignored.
pub open spec fn spec_classify_mld(packet: MldPacket) -> Result<GmpInbound<Ipv6Addr>, MldError> {
    match packet {
        MldPacket::MulticastListenerQuery { group_addr, max_response_delay } => {
            if !group_addr.spec_is_specified() {
                Ok(
                    GmpInbound::Query {
                        target: QueryTarget::Unspecified,
                        max_response_time: max_response_delay,
                    },
                )
            } else if group_addr.spec_is_multicast() {
                Ok(
                    GmpInbound::Query {
                        target: QueryTarget::Specified(MulticastAddr::spec_new(group_addr)),
                        max_response_time: max_response_delay,
                    },
                )
            } else {
                Err(MldError::NotAMember { addr: group_addr })
            }
        },
        MldPacket::MulticastListenerReport { group_addr } => {
            if group_addr.spec_is_multicast() {
                Ok(GmpInbound::Report { group_addr: MulticastAddr::spec_new(group_addr) })
            } else {
                Err(MldError::NotAMember { addr: group_addr })
            }
        },
        _ => Ok(GmpInbound::Ignored),
    }
}

/// Reads an MLD message as `spec_classify_mld` says.
pub fn classify_mld(packet: MldPacket) -> (r: Result<GmpInbound<Ipv6Addr>, MldError>)
    ensures
        r == spec_classify_mld(packet),
{
    match packet {
        MldPacket::MulticastListenerQuery { group_addr, max_response_delay } => {
            if !group_addr.is_specified() {
                Ok(
                    GmpInbound::Query {
                        target: QueryTarget::Unspecified,
                        max_response_time: max_response_delay,
                    },
                )
            } else {
                match MulticastAddr::new(group_addr) {
                    Some(group) => Ok(
                        GmpInbound::Query {
                            target: QueryTarget::Specified(group),
                            max_response_time: max_response_delay,
                        },
                    ),
                    None => Err(not_a_member_err(group_addr)),
                }
            }
        },
        MldPacket::MulticastListenerReport { group_addr } => {
            match MulticastAddr::new(group_addr) {
                Some(group) => Ok(GmpInbound::Report { group_addr: group }),
                None => Err(not_a_member_err(group_addr)),
            }
        },
        MldPacket::MulticastListenerDone { group_addr: _ } => Ok(GmpInbound::Ignored),
        MldPacket::MulticastListenerQueryV2 => Ok(GmpInbound::Ignored),
        MldPacket::MulticastListenerReportV2 => Ok(GmpInbound::Ignored),
    }
}

/// The result of the engine as a result of MLD.
pub open spec fn spec_engine_result<T>(r: MldResult<T>) -> Result<T, NotAMemberErr<Ipv6Addr>> {
    match r {
        Ok(t) => Ok(t),
        Err(MldError::NotAMember { addr }) => Err(NotAMemberErr { addr }),
    }
}

/// Handles an MLD message that came in at `now`.
///
/// The message is read as `spec_classify_mld` says. Where that is an error,
/// the error is the result and nothing changes. Otherwise the message is
/// handled as `inbound_handled` says, and an error of the engine comes back
/// as `NotAMember`.
pub fn receive_mld_packet(
    state: GmpStateRef<'_, Ipv6, MldProtocolSpecific>,
    rng: &mut XorShiftRng,
    now: Instant,
    packet: MldPacket,
) -> (r: MldResult<Vec<QueryEffect<Ipv6Addr, MldProtocolSpecific>>>)
    requires
        gmp_wf(old(state.groups)@, old(state.gmp).timers),
        spec_classify_mld(packet) matches Ok(GmpInbound::Query { target, max_response_time })
            ==> query_allowed_for(old(state.groups)@, target, max_response_time, now),
    ensures
        gmp_wf(final(state.groups)@, final(state.gmp).timers),
        r matches Err(MldError::NotAMember { addr }) ==> spec_group_addr(packet) == Some(addr),
        match spec_classify_mld(packet) {
            Err(e) => {
                &&& r == Err::<Vec<QueryEffect<Ipv6Addr, MldProtocolSpecific>>, _>(e)
                &&& final(state.groups)@ == old(state.groups)@
                &&& final(state.gmp).timers@ == old(state.gmp).timers@
            },
            Ok(inbound) => inbound_handled(
                old(state.groups)@,
                old(state.gmp).timers@,
                inbound,
                now,
                final(state.groups)@,
                final(state.gmp).timers@,
                effects_view(spec_engine_result(r)),
            ),
        },
{
    match classify_mld(packet) {
        Err(e) => Err(e),
        Ok(inbound) => match handle_inbound(state, rng, now, inbound) {
            Ok(effects) => Ok(effects),
            Err(NotAMemberErr { addr }) => {
                proof {
                    let named = spec_group_addr(packet)->0;
                    MulticastAddr::lemma_spec_new(MulticastAddr::spec_new(named), named);
                }
                Err(not_a_member_err(addr))
            },
        },
    }
}

/// The kinds of MLD messages that a host sends.
#[derive(Debug, Clone, Copy, PartialEq, Eq, Structural)]
pub enum MldMessageKind {
    /// A report.
    MulticastListenerReport,
    /// A done message.
    MulticastListenerDone,
}

/// The ICMPv6 type number of a multicast listener report.
pub const MLD_MULTICAST_LISTENER_REPORT: u8 = 131;

/// The ICMPv6 type number of a multicast listener done message.
pub const MLD_MULTICAST_LISTENER_DONE: u8 = 132;

impl MldMessageKind {
    /// The number that stands for this kind in the type field of an ICMPv6
    /// message.
    pub fn message_type(&self) -> (t: u8)
        ensures
            t == match *self {
                MldMessageKind::MulticastListenerReport => MLD_MULTICAST_LISTENER_REPORT,
                MldMessageKind::MulticastListenerDone => MLD_MULTICAST_LISTENER_DONE,
            },
    {
        match self {
            MldMessageKind::MulticastListenerReport => MLD_MULTICAST_LISTENER_REPORT,
            MldMessageKind::MulticastListenerDone => MLD_MULTICAST_LISTENER_DONE,
        }
    }
}

/// An MLD message that is to be sent.
#[derive(Debug, Clone, Copy, PartialEq, Eq)]
pub struct MldMessage {
    /// The kind of message.
    pub kind: MldMessageKind,
    /// The group that the message is about.
    pub group_addr: MulticastAddr<Ipv6Addr>,
    /// Where the message goes.
    pub dst_ip: MulticastAddr<Ipv6Addr>,
}

/// The MLD message that stands for `msg_type` about `group_addr`: a report
/// goes to the group itself, a done message to all routers on the link.
pub fn send_message(
    group_addr: MulticastAddr<Ipv6Addr>,
    msg_type: GmpMessageType<MldProtocolSpecific>,
) -> (m: MldMessage)
    ensures
        m.group_addr == group_addr,
        match msg_type {
            GmpMessageType::Report(_) => {
                &&& m.dst_ip == group_addr
                &&& m.kind == MldMessageKind::MulticastListenerReport
            },
            GmpMessageType::Leave => {
                &&& m.dst_ip.spec_get().bits == IPV6_ALL_ROUTERS_LINK_LOCAL
                &&& m.kind == MldMessageKind::MulticastListenerDone
            },
        },
{
    match msg_type {
        GmpMessageType::Report(MldProtocolSpecific) => MldMessage {
            kind: MldMessageKind::MulticastListenerReport,
            group_addr,
            dst_ip: group_addr,
        },
        GmpMessageType::Leave => MldMessage {
            kind: MldMessageKind::MulticastListenerDone,
            group_addr,
            dst_ip: Ipv6::all_routers_link_local_multicast_address(),
        },
    }
}

/// The source address of an MLD message: the link-local address of the
/// device, or the all-zero address while it has none.
pub fn source_address(link_local: Option<Ipv6Addr>) -> (src: Ipv6Addr)
    ensures
        src == match link_local {
            Some(addr) => addr,
            None => Ipv6Addr { bits: 0 },
        },
{
    match link_local {
        Some(addr) => addr,
        None => Ipv6::unspecified_address(),
    }
}

/// An MLD timer to delay the sending of a report.
#[derive(PartialEq, Eq, Clone, Copy, Debug, Hash)]
pub struct MldTimerId<D>(pub GmpDelayedReportTimerId<D>);

impl<D> MldTimerId<D> {
    /// The device that the timer belongs to.
    pub fn device_id(&self) -> (d: &D)
        ensures
            *d == self.0.device,
    {
        self.0.device_id()
    }

    /// The identifier of the timer of the delayed reports on `device`.
    pub fn new_delayed_report(device: D) -> (id: Self)
        ensures
            id == MldTimerId(GmpDelayedReportTimerId { device }),
    {
        MldTimerId(GmpDelayedReportTimerId { device })
    }

    /// Handles the expiry of this timer at `now`, as `gmp_handle_timer`
    /// says.
    pub fn handle(self, state: GmpStateRef<'_, Ipv6, MldProtocolSpecific>, now: Instant) -> (r:
        Option<(MulticastAddr<Ipv6Addr>, GmpMessageType<MldProtocolSpecific>)>)
        requires
            gmp_wf(old(state.groups)@, old(state.gmp).timers),
        ensures
            gmp_wf(final(state.groups)@, final(state.gmp).timers),
            timer_handled(
                old(state.groups)@,
                old(state.gmp).timers@,
                now,
                final(state.groups)@,
                final(state.gmp).timers@,
                r,
            ),
    {
        gmp_handle_timer(state, now)
    }
}

/// The immediate response of MLD. A member that hears a query with a
/// response time of zero becomes idle and is asked to stop its timer and to
/// send a report at once; no timer is asked for.
pub proof fn lemma_immediate_query(
    state: MemberState<MldProtocolSpecific>,
    now: Instant,
    delay: Duration,
)
    requires
        !(state is NonMember),
    ensures
        ({
            let after = state.spec_query_received(Duration { nanos: 0 }, now, delay);
            &&& after.0 is Idle
            &&& after.0.timer() is None
            &&& after.0.last_reporter() == state.last_reporter()
            &&& after.1.generic == Some(
                QueryReceivedGenericAction::StopTimerAndSendReport(MldProtocolSpecific),
            )
            &&& after.1.protocol_specific is None
        }),
{
}

} // verus!
