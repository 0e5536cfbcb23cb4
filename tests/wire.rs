use pidtrace::wire::{
    decode_frame, Decoded, EventHeader, EventKind, MmapArgs, SysEnterEvent, SysMmapEvent, TcpArgs,
    TcpConnEvent, HEADER_SIZE, SYS_ENTER_EVENT_SIZE, SYS_MMAP_EVENT_SIZE, TCP_CONN_EVENT_SIZE,
};

fn sys_enter_event() -> SysEnterEvent {
    SysEnterEvent { header: EventHeader::new(0x0102030405060708, 42, EventKind::SysEnter), id: 59 }
}

#[test]
fn tags_of_kinds() {
    assert_eq!(EventKind::SysEnter.tag(), 1);
    assert_eq!(EventKind::SysMmap.tag(), 2);
    assert_eq!(EventKind::TcpConn.tag(), 3);
    assert_eq!(EventKind::from_tag(2), Some(EventKind::SysMmap));
    assert_eq!(EventKind::from_tag(0), None);
    assert_eq!(EventKind::from_tag(4), None);
}

#[test]
fn header_bytes_are_little_endian() {
    let bytes = sys_enter_event().to_bytes();
    assert_eq!(bytes.len(), SYS_ENTER_EVENT_SIZE);
    assert_eq!(&bytes[0..8], &[8, 7, 6, 5, 4, 3, 2, 1]);
    assert_eq!(&bytes[8..12], &[42, 0, 0, 0]);
    assert_eq!(&bytes[12..14], &[1, 0]);
    assert_eq!(&bytes[14..16], &[0, 0]);
    assert_eq!(&bytes[16..20], &[59, 0, 0, 0]);
    assert_eq!(&bytes[20..24], &[0, 0, 0, 0]);
}

#[test]
fn sys_enter_round_trip() {
    let e = sys_enter_event();
    assert_eq!(decode_frame(&e.to_bytes()), Decoded::SysEnter(e));
}

#[test]
fn sys_mmap_round_trip() {
    let e = SysMmapEvent {
        header: EventHeader::new(7, 100, EventKind::SysMmap),
        args: MmapArgs { address: 0, len: 4096, prot: 3, flag: 34, fd: u64::MAX, offset: 0 },
    };
    let bytes = e.to_bytes();
    assert_eq!(bytes.len(), SYS_MMAP_EVENT_SIZE);
    assert_eq!(decode_frame(&bytes), Decoded::SysMmap(e));
}

#[test]
fn tcp_conn_round_trip() {
    let e = TcpConnEvent {
        header: EventHeader::new(9, 5, EventKind::TcpConn),
        args: TcpArgs {
            source_address: 0,
            destination_address: 0x7f00_0001,
            source_port: 0,
            destination_port: 80,
        },
    };
    let bytes = e.to_bytes();
    assert_eq!(bytes.len(), TCP_CONN_EVENT_SIZE);
    assert_eq!(decode_frame(&bytes), Decoded::TcpConn(e));
}

#[test]
fn unknown_tag_is_reported() {
    let mut bytes = sys_enter_event().to_bytes();
    bytes[12] = 9;
    assert_eq!(decode_frame(&bytes), Decoded::Unknown { kind: 9, len: SYS_ENTER_EVENT_SIZE });
}

#[test]
fn short_frames_are_truncated() {
    assert_eq!(decode_frame(&vec![0u8; HEADER_SIZE - 1]), Decoded::Truncated { len: 15 });
    let bytes = sys_enter_event().to_bytes();
    let mut mmap_tag = bytes.clone();
    mmap_tag[12] = 2;
    assert_eq!(decode_frame(&mmap_tag), Decoded::Truncated { len: SYS_ENTER_EVENT_SIZE });
}

#[test]
fn longer_frame_decodes_its_record() {
    let e = sys_enter_event();
    let mut bytes = e.to_bytes();
    bytes.extend_from_slice(&[0xff; 8]);
    assert_eq!(decode_frame(&bytes), Decoded::SysEnter(e));
}
