use netstack_gmp::bpf::{ProgramInfo, ProgramType};

#[test]
fn program_types_are_read_from_their_numbers() {
    assert_eq!(ProgramType::from(1), ProgramType::SocketFilter);
    assert_eq!(ProgramType::from(2), ProgramType::KProbe);
    assert_eq!(ProgramType::from(3), ProgramType::SchedCls);
    assert_eq!(ProgramType::from(4), ProgramType::SchedAct);
    assert_eq!(ProgramType::from(5), ProgramType::TracePoint);
    assert_eq!(ProgramType::from(6), ProgramType::Xdp);
    assert_eq!(ProgramType::from(8), ProgramType::CgroupSkb);
    assert_eq!(ProgramType::from(9), ProgramType::CgroupSock);
    assert_eq!(ProgramType::from(25), ProgramType::CgroupSockopt);
    assert_eq!(ProgramType::from(18), ProgramType::CgroupSockAddr);
    assert_eq!(ProgramType::from(0x77777777), ProgramType::Fuse);
}

#[test]
fn other_numbers_are_unknown_program_types() {
    for number in [0, 7, 10, 17, 19, 24, 26, u32::MAX] {
        assert_eq!(ProgramType::from(number), ProgramType::Unknown(number));
    }
}

#[test]
fn program_info_keeps_the_program_type() {
    assert_eq!(ProgramInfo::from_prog_type(6).program_type, ProgramType::Xdp);
    assert_eq!(ProgramInfo::from_prog_type(7).program_type, ProgramType::Unknown(7));
}
