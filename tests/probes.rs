use pidtrace::probes::{KernelState, PidKey, SockaddrIn, SysEnter, AF_INET};
use pidtrace::wire::{
    decode_frame, Decoded, Event, EventHeader, EventKind, MmapArgs, SysEnterEvent, SysMmapEvent,
    SYS_ENTER_EVENT_SIZE, SYS_MMAP_EVENT_SIZE, TCP_CONN_EVENT_SIZE,
};

fn mmap_ctx(args: [u64; 6]) -> Vec<u8> {
    let mut ctx = vec![0u8; 16];
    for a in args {
        ctx.extend_from_slice(&a.to_le_bytes());
    }
    ctx
}

fn sys_enter_ctx(id: i64) -> Vec<u8> {
    let mut ctx = vec![0u8; 8];
    ctx.extend_from_slice(&id.to_le_bytes());
    for a in 0..6u64 {
        ctx.extend_from_slice(&a.to_le_bytes());
    }
    ctx
}

fn allowing(pid: u32) -> KernelState {
    let mut k = KernelState::new(1 << 20);
    k.allow_pid(PidKey { pid }, 1);
    k
}

#[test]
fn mmap_end_to_end() {
    let mut k = allowing(100);
    let ctx = mmap_ctx([0, 4096, 3, 34, (-1i64) as u64, 0]);
    k.sys_enter_mmap(100, 1234, &ctx);
    k.sys_enter_mmap(200, 1235, &ctx);
    let frame = k.next_frame().expect("one event");
    assert!(k.next_frame().is_none());
    match decode_frame(&frame) {
        Decoded::SysMmap(e) => {
            assert_eq!(e.header.pid, 100);
            assert_eq!(e.header.ts_ns, 1234);
            assert_eq!(e.header.kind, 2);
            assert_eq!(
                e.args,
                MmapArgs { address: 0, len: 4096, prot: 3, flag: 34, fd: u64::MAX, offset: 0 }
            );
        }
        other => panic!("unexpected {:?}", other),
    }
}

#[test]
fn unlisted_pid_gets_no_events() {
    let mut k = allowing(100);
    for _ in 0..50 {
        k.sys_enter(200, 1, &sys_enter_ctx(9));
        k.sys_enter_mmap(200, 1, &mmap_ctx([0; 6]));
        k.enter_connect(200, 3, 0x1000, 16);
        assert!(k.exit_connect(200).is_none());
    }
    assert!(k.next_frame().is_none());
    assert!(!k.is_allowed_pid(200));
    assert!(k.is_allowed_pid(100));
}

#[test]
fn removed_pid_is_filtered() {
    let mut k = allowing(100);
    k.remove_pid(PidKey { pid: 100 });
    k.sys_enter(100, 1, &sys_enter_ctx(9));
    assert!(k.next_frame().is_none());
}

#[test]
fn sys_enter_emits_low_bits_of_id() {
    let mut k = allowing(100);
    k.sys_enter(100, 77, &sys_enter_ctx(0x1_0000_0005));
    match decode_frame(&k.next_frame().unwrap()) {
        Decoded::SysEnter(e) => {
            assert_eq!(e.id, 5);
            assert_eq!(e.header.ts_ns, 77);
            assert_eq!(e.header.pid, 100);
        }
        other => panic!("unexpected {:?}", other),
    }
}

#[test]
fn short_tracepoint_record_is_ignored() {
    let mut k = allowing(100);
    k.sys_enter(100, 1, &vec![0u8; 63]);
    k.sys_enter_mmap(100, 1, &vec![0u8; 63]);
    assert!(k.next_frame().is_none());
}

#[test]
fn parse_sys_enter_record() {
    let raw = SysEnter::parse(&sys_enter_ctx(-2)).unwrap();
    assert_eq!(raw.id, -2);
    assert_eq!(raw.args, [0, 1, 2, 3, 4, 5]);
    assert!(SysEnter::parse(&vec![0u8; 10]).is_none());
}

#[test]
fn connect_correlation() {
    let mut k = allowing(100);
    k.enter_connect(100, 3, 0x1000, 16);
    let read = k.exit_connect(100).expect("a read");
    assert_eq!(read.address(), 0x1000);
    assert_eq!(read.pid(), 100);
    let sa = SockaddrIn::new(AF_INET, 0x5000, 0x0100_007f);
    k.finish_connect(read, 55, Some(sa));
    let frame = k.next_frame().unwrap();
    assert_eq!(frame.len(), TCP_CONN_EVENT_SIZE);
    match decode_frame(&frame) {
        Decoded::TcpConn(e) => {
            assert_eq!(e.header.pid, 100);
            assert_eq!(e.header.ts_ns, 55);
            assert_eq!(e.args.destination_address, 0x7f00_0001);
            assert_eq!(e.args.destination_port, 80);
            assert_eq!(e.args.source_address, 0);
            assert_eq!(e.args.source_port, 0);
        }
        other => panic!("unexpected {:?}", other),
    }
    assert!(k.exit_connect(100).is_none());
}

#[test]
fn exit_without_entry_emits_nothing() {
    let mut k = allowing(100);
    assert!(k.exit_connect(100).is_none());
    assert!(k.next_frame().is_none());
}

#[test]
fn second_entry_overwrites_stash() {
    let mut k = allowing(100);
    k.enter_connect(100, 3, 0x1000, 16);
    k.enter_connect(100, 4, 0x2000, 16);
    assert_eq!(k.exit_connect(100).unwrap().address(), 0x2000);
}

#[test]
fn unusable_stash_is_dropped() {
    let mut k = allowing(100);
    k.enter_connect(100, 3, 0, 16);
    assert!(k.exit_connect(100).is_none());
    k.enter_connect(100, 3, 0x1000, 8);
    assert!(k.exit_connect(100).is_none());
    k.enter_connect(100, 3, 0x1000, 16);
    assert!(k.exit_connect(100).is_some());
}

#[test]
fn ipv6_and_failed_reads_emit_nothing() {
    let mut k = allowing(100);
    k.enter_connect(100, 3, 0x1000, 28);
    let read = k.exit_connect(100).unwrap();
    k.finish_connect(read, 1, Some(SockaddrIn::new(10, 1, 2)));
    k.enter_connect(100, 3, 0x1000, 16);
    let read = k.exit_connect(100).unwrap();
    k.finish_connect(read, 1, None);
    assert!(k.next_frame().is_none());
}

#[test]
fn parse_sockaddr() {
    let bytes = vec![2u8, 0, 0x1f, 0x90, 127, 0, 0, 1, 0, 0, 0, 0, 0, 0, 0, 0];
    let sa = SockaddrIn::parse(&bytes).unwrap();
    assert_eq!(sa.sin_family, 2);
    assert_eq!(sa.sin_port, 0x901f);
    assert_eq!(sa.sin_addr, 0x0100_007f);
    assert!(SockaddrIn::parse(&bytes[..15].to_vec()).is_none());
    let mut k = allowing(7);
    k.enter_connect(7, 3, 0x1000, 16);
    let read = k.exit_connect(7).unwrap();
    k.finish_connect(read, 1, Some(sa));
    match decode_frame(&k.next_frame().unwrap()) {
        Decoded::TcpConn(e) => {
            assert_eq!(e.args.destination_address, u32::from_be_bytes([127, 0, 0, 1]));
            assert_eq!(e.args.destination_port, 8080);
        }
        other => panic!("unexpected {:?}", other),
    }
}

#[test]
fn full_ring_buffer_drops_event() {
    let mut k = KernelState::new(TCP_CONN_EVENT_SIZE + 8);
    k.allow_pid(PidKey { pid: 1 }, 1);
    k.sys_enter_mmap(1, 1, &mmap_ctx([1; 6]));
    assert!(k.next_frame().is_none());
    k.sys_enter(1, 2, &sys_enter_ctx(3));
    assert!(k.next_frame().is_some());
}

#[test]
fn submit_commits_decodable_frames() {
    let mut k = KernelState::new(SYS_MMAP_EVENT_SIZE + SYS_ENTER_EVENT_SIZE);
    let mmap = SysMmapEvent {
        header: EventHeader::new(3, 9, EventKind::SysMmap),
        args: MmapArgs { address: 1, len: 2, prot: 3, flag: 4, fd: 5, offset: 6 },
    };
    let enter = SysEnterEvent { header: EventHeader::new(4, 9, EventKind::SysEnter), id: 11 };
    assert!(k.submit(Event::SysMmap(mmap)));
    assert!(k.submit(Event::SysEnter(enter)));
    assert!(!k.submit(Event::SysEnter(enter)));
    let first = k.next_frame().unwrap();
    assert_eq!(first.len(), SYS_MMAP_EVENT_SIZE);
    assert_eq!(decode_frame(&first), Decoded::SysMmap(mmap));
    assert!(k.submit(Event::SysEnter(enter)));
    assert_eq!(decode_frame(&k.next_frame().unwrap()), Decoded::SysEnter(enter));
    assert_eq!(decode_frame(&k.next_frame().unwrap()), Decoded::SysEnter(enter));
    assert!(k.next_frame().is_none());
}
