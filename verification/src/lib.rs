//! Host-side group management for IP multicast: IGMPv2 for IPv4 and MLDv1
//! for IPv6 on one shared state machine, the set of groups that a device has
//! joined, and the timers of its delayed reports.
//!
//! Beside the engine stand two small things that a stack keeps at hand: the
//! counter that numbers its interfaces, and the table of the kinds of BPF
//! programs that can be attached to it.

pub mod addr;
pub mod bpf;
pub mod gmp;
pub mod group_set;
pub mod iface_counter;
pub mod rng;
pub mod time;
pub mod timers;
