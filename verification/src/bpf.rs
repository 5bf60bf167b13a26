//! The kinds of BPF programs that can be attached to the stack.

use vstd::prelude::*;

verus! {

/// The number of a socket filter program.
pub const BPF_PROG_TYPE_SOCKET_FILTER: u32 = 1;

/// The number of a kprobe program.
pub const BPF_PROG_TYPE_KPROBE: u32 = 2;

/// The number of a traffic classifier program.
pub const BPF_PROG_TYPE_SCHED_CLS: u32 = 3;

/// The number of a traffic action program.
pub const BPF_PROG_TYPE_SCHED_ACT: u32 = 4;

/// The number of a tracepoint program.
pub const BPF_PROG_TYPE_TRACEPOINT: u32 = 5;

/// The number of an XDP program.
pub const BPF_PROG_TYPE_XDP: u32 = 6;

/// The number of a cgroup packet filter program.
pub const BPF_PROG_TYPE_CGROUP_SKB: u32 = 8;

/// The number of a cgroup socket program.
pub const BPF_PROG_TYPE_CGROUP_SOCK: u32 = 9;

/// The number of a cgroup socket address program.
pub const BPF_PROG_TYPE_CGROUP_SOCK_ADDR: u32 = 18;

/// The number of a cgroup socket option program.
pub const BPF_PROG_TYPE_CGROUP_SOCKOPT: u32 = 25;

/// The number that stands for a FUSE program.
pub const BPF_PROG_TYPE_FUSE: u32 = 0x77777777;

/// The different types of BPF programs.
#[derive(Clone, Copy, Debug, Eq, Hash, PartialEq, Structural)]
pub enum ProgramType {
    SocketFilter,
    KProbe,
    SchedCls,
    SchedAct,
    TracePoint,
    Xdp,
    CgroupSkb,
    CgroupSock,
    CgroupSockopt,
    CgroupSockAddr,
    /// The stack's own number for FUSE.
    Fuse,
    /// A program type that is not handled, with its number.
    Unknown(u32),
}

impl ProgramType {
    /// The program type that the number `program_type` stands for.
    pub open spec fn spec_from_u32(program_type: u32) -> ProgramType {
        if program_type == BPF_PROG_TYPE_SOCKET_FILTER {
            ProgramType::SocketFilter
        } else if program_type == BPF_PROG_TYPE_KPROBE {
            ProgramType::KProbe
        } else if program_type == BPF_PROG_TYPE_SCHED_CLS {
            ProgramType::SchedCls
        } else if program_type == BPF_PROG_TYPE_SCHED_ACT {
            ProgramType::SchedAct
        } else if program_type == BPF_PROG_TYPE_TRACEPOINT {
            ProgramType::TracePoint
        } else if program_type == BPF_PROG_TYPE_XDP {
            ProgramType::Xdp
        } else if program_type == BPF_PROG_TYPE_CGROUP_SKB {
            ProgramType::CgroupSkb
        } else if program_type == BPF_PROG_TYPE_CGROUP_SOCK {
            ProgramType::CgroupSock
        } else if program_type == BPF_PROG_TYPE_CGROUP_SOCKOPT {
            ProgramType::CgroupSockopt
        } else if program_type == BPF_PROG_TYPE_CGROUP_SOCK_ADDR {
            ProgramType::CgroupSockAddr
        } else if program_type == BPF_PROG_TYPE_FUSE {
            ProgramType::Fuse
        } else {
            ProgramType::Unknown(program_type)
        }
    }
}

impl From<u32> for ProgramType {
    fn from(program_type: u32) -> (t: ProgramType) {
        match program_type {
            BPF_PROG_TYPE_SOCKET_FILTER => ProgramType::SocketFilter,
            BPF_PROG_TYPE_KPROBE => ProgramType::KProbe,
            BPF_PROG_TYPE_SCHED_CLS => ProgramType::SchedCls,
            BPF_PROG_TYPE_SCHED_ACT => ProgramType::SchedAct,
            BPF_PROG_TYPE_TRACEPOINT => ProgramType::TracePoint,
            BPF_PROG_TYPE_XDP => ProgramType::Xdp,
            BPF_PROG_TYPE_CGROUP_SKB => ProgramType::CgroupSkb,
            BPF_PROG_TYPE_CGROUP_SOCK => ProgramType::CgroupSock,
            BPF_PROG_TYPE_CGROUP_SOCKOPT => ProgramType::CgroupSockopt,
            BPF_PROG_TYPE_CGROUP_SOCK_ADDR => ProgramType::CgroupSockAddr,
            BPF_PROG_TYPE_FUSE => ProgramType::Fuse,
            program_type => ProgramType::Unknown(program_type),
        }
    }
}

impl vstd::std_specs::convert::FromSpecImpl<u32> for ProgramType {
    open spec fn obeys_from_spec() -> bool {
        true
    }

    open spec fn from_spec(program_type: u32) -> ProgramType {
        ProgramType::spec_from_u32(program_type)
    }
}

/// What is known of a program before it is loaded.
#[derive(Clone, Debug)]
pub struct ProgramInfo {
    /// The type that the program was declared with.
    pub program_type: ProgramType,
}

impl ProgramInfo {
    /// The information on a program that was declared with the type number
    /// `prog_type`.
    pub fn from_prog_type(prog_type: u32) -> (info: ProgramInfo)
        ensures
            info.program_type == ProgramType::spec_from_u32(prog_type),
    {
        ProgramInfo { program_type: ProgramType::from(prog_type) }
    }
}

} // verus!
