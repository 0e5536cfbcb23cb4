//! The probe programs and the kernel-side state they share: the process-id
//! allow-list, the connect correlation table and the event ring buffer.
//!
//! Each probe is a bounded function of the state and of what its hook hands
//! it (the current process id, the kernel clock, the raw argument bytes).
//! Reads that fall outside the supplied bytes are silent no-ops, and a full
//! ring buffer drops the event.
use std::collections::HashMap;
use vstd::prelude::*;
use crate::ring::RingBuf;
use crate::wire::{
    decode_spec, lemma_sys_enter_round_trip, lemma_sys_mmap_round_trip, lemma_tcp_conn_round_trip,
    lemma_event_round_trip, Decoded, Event, TAG_SYS_ENTER, TAG_SYS_MMAP, TAG_TCP_CONN, get_u16, get_u32, get_u64, read_u16, read_u32, read_u64, EventHeader, EventKind, MmapArgs,
    SysEnterEvent, SysMmapEvent, TcpArgs, TcpConnEvent,
};

verus! {

broadcast use vstd::std_specs::hash::group_hash_axioms;

/// Address family of IPv4 socket addresses.
pub const AF_INET: u16 = 2;

/// Size in bytes of a [`SockaddrIn`].
pub const SOCKADDR_IN_SIZE: usize = 16;

/// Size in bytes of the raw record of the syscall-enter tracepoint.
pub const SYS_ENTER_RECORD_SIZE: usize = 64;

/// Offset of the syscall arguments in a syscall tracepoint's raw record.
pub const SYSCALL_ARGS_OFFSET: usize = 16;

/// Key of the allow-list.
#[derive(Clone, Copy, Debug, PartialEq, Eq, Structural)]
pub struct PidKey {
    pub pid: u32,
}

/// An IPv4 socket address as the caller of `connect` laid it out.
#[derive(Clone, Copy, Debug, PartialEq, Eq, Structural)]
pub struct SockaddrIn {
    pub sin_family: u16,
    pub sin_port: u16,
    pub sin_addr: u32,
    pub pad: u64,
}

/// The common header of a tracepoint's raw record.
#[derive(Clone, Copy, Debug, PartialEq, Eq, Structural)]
pub struct TracePointHeader {
    pub common_type: u16,
    pub common_flags: u8,
    pub common_preempt_count: u8,
    pub common_pid: i32,
}

/// The raw record of the syscall-enter tracepoint.
#[derive(Clone, Copy, Debug)]
pub struct SysEnter {
    pub header: TracePointHeader,
    pub id: i64,
    pub args: [u64; 6],
}

/// Arguments of a `connect` call, kept between its entry and its return.
#[derive(Clone, Copy, Debug, PartialEq, Eq, Structural)]
pub struct ConnectArgs {
    pub fd: i32,
    /// Address of the caller's socket-address buffer.
    pub uservaddr: u64,
    pub address_len: i32,
}

impl SockaddrIn {
    pub open spec fn parse_spec(b: Seq<u8>) -> Option<SockaddrIn> {
        if b.len() < SOCKADDR_IN_SIZE {
            None
        } else {
            Some(
                SockaddrIn {
                    sin_family: get_u16(b, 0),
                    sin_port: get_u16(b, 2),
                    sin_addr: get_u32(b, 4),
                    pad: get_u64(b, 8),
                },
            )
        }
    }

    pub fn new(sin_family: u16, sin_port: u16, sin_addr: u32) -> (r: SockaddrIn)
        ensures
            r.sin_family == sin_family,
            r.sin_port == sin_port,
            r.sin_addr == sin_addr,
    {
        SockaddrIn { sin_family, sin_port, sin_addr, pad: 0 }
    }

    /// Reads a socket address from the bytes copied out of the caller's buffer.
    pub fn parse(b: &Vec<u8>) -> (r: Option<SockaddrIn>)
        ensures
            r == Self::parse_spec(b@),
    {
        if b.len() < SOCKADDR_IN_SIZE {
            None
        } else {
            Some(
                SockaddrIn {
                    sin_family: read_u16(b, 0),
                    sin_port: read_u16(b, 2),
                    sin_addr: read_u32(b, 4),
                    pad: read_u64(b, 8),
                },
            )
        }
    }
}

impl SysEnter {
    pub open spec fn parse_spec(b: Seq<u8>) -> Option<SysEnter> {
        if b.len() < SYS_ENTER_RECORD_SIZE {
            None
        } else {
            Some(
                SysEnter {
                    header: TracePointHeader {
                        common_type: get_u16(b, 0),
                        common_flags: b[2],
                        common_preempt_count: b[3],
                        common_pid: get_u32(b, 4) as i32,
                    },
                    id: get_u64(b, 8) as i64,
                    args: [
                        get_u64(b, 16),
                        get_u64(b, 24),
                        get_u64(b, 32),
                        get_u64(b, 40),
                        get_u64(b, 48),
                        get_u64(b, 56),
                    ],
                },
            )
        }
    }

    /// Reads the tracepoint's raw record; `None` when the bytes are too few.
    pub fn parse(b: &Vec<u8>) -> (r: Option<SysEnter>)
        ensures
            r == Self::parse_spec(b@),
    {
        if b.len() < SYS_ENTER_RECORD_SIZE {
            None
        } else {
            Some(
                SysEnter {
                    header: TracePointHeader {
                        common_type: read_u16(b, 0),
                        common_flags: b[2],
                        common_preempt_count: b[3],
                        common_pid: read_u32(b, 4) as i32,
                    },
                    id: read_u64(b, 8) as i64,
                    args: [
                        read_u64(b, 16),
                        read_u64(b, 24),
                        read_u64(b, 32),
                        read_u64(b, 40),
                        read_u64(b, 48),
                        read_u64(b, 56),
                    ],
                },
            )
        }
    }
}


/// `v` with its two bytes swapped: a network-order port read little-endian
/// becomes the host-order port.
pub open spec fn swap16(v: u16) -> u16 {
    ((v & 0xff) << 8u16) | (v >> 8u16)
}

/// `v` with its four bytes reversed: a network-order IPv4 address read
/// little-endian becomes the host-order address.
pub open spec fn swap32(v: u32) -> u32 {
    ((v & 0xff) << 24u32) | (((v >> 8u32) & 0xff) << 16u32) | (((v >> 16u32) & 0xff) << 8u32) | (v
        >> 24u32)
}

fn byte_swap16(v: u16) -> (r: u16)
    ensures
        r == swap16(v),
{
    ((v & 0xff) << 8u16) | (v >> 8u16)
}

fn byte_swap32(v: u32) -> (r: u32)
    ensures
        r == swap32(v),
{
    ((v & 0xff) << 24u32) | (((v >> 8u32) & 0xff) << 16u32) | (((v >> 16u32) & 0xff) << 8u32) | (v
        >> 24u32)
}

/// The syscall number a syscall-enter record carries: the low 32 bits of the
/// tracepoint's signed id.
pub open spec fn syscall_id_spec(raw: SysEnter) -> u32 {
    raw.id as u32
}

/// The event the syscall-enter probe emits, if any.
pub open spec fn sys_enter_event(allowed: bool, pid: u32, ts: u64, ctx: Seq<u8>) -> Option<
    SysEnterEvent,
> {
    if !allowed {
        None
    } else {
        match SysEnter::parse_spec(ctx) {
            None => None,
            Some(raw) => Some(
                SysEnterEvent {
                    header: EventHeader::new_spec(ts, pid, EventKind::SysEnter),
                    id: syscall_id_spec(raw),
                },
            ),
        }
    }
}

/// The event the mmap-enter probe emits, if any: the six arguments sit at a
/// fixed offset of the tracepoint's raw record.
pub open spec fn sys_mmap_event(allowed: bool, pid: u32, ts: u64, ctx: Seq<u8>) -> Option<
    SysMmapEvent,
> {
    if !allowed || ctx.len() < SYSCALL_ARGS_OFFSET + 48 {
        None
    } else {
        Some(
            SysMmapEvent {
                header: EventHeader::new_spec(ts, pid, EventKind::SysMmap),
                args: MmapArgs::parse_spec(ctx, SYSCALL_ARGS_OFFSET as int),
            },
        )
    }
}

/// The user address whose bytes the connect-exit probe reads: present when
/// the process is allowed, a stash exists for it, the stashed pointer is
/// non-null and the claimed length covers an IPv4 socket address.
pub open spec fn connect_read_address(
    allowed: bool,
    pending: Map<u32, ConnectArgs>,
    pid: u32,
) -> Option<u64> {
    if !allowed || !pending.contains_key(pid) {
        None
    } else {
        let a = pending[pid];
        if a.uservaddr == 0 || a.address_len < SOCKADDR_IN_SIZE as i32 {
            None
        } else {
            Some(a.uservaddr)
        }
    }
}

/// The event the connect-exit probe emits once the caller's socket address
/// has been read (`None` when the read failed): IPv4 only, destination from
/// the address turned from network to host order, source left zero.
pub open spec fn tcp_conn_event(pid: u32, ts: u64, sa: Option<SockaddrIn>) -> Option<TcpConnEvent> {
    match sa {
        Some(s) if s.sin_family == AF_INET => Some(
            TcpConnEvent {
                header: EventHeader::new_spec(ts, pid, EventKind::TcpConn),
                args: TcpArgs {
                    source_address: 0,
                    destination_address: swap32(s.sin_addr),
                    source_port: 0,
                    destination_port: swap16(s.sin_port) as u32,
                },
            },
        ),
        _ => None,
    }
}

/// A read of the caller's socket address that the connect-exit probe asks
/// for; only [`KernelState::exit_connect`] makes one.
pub struct UserRead {
    pid: u32,
    address: u64,
}

impl UserRead {
    pub closed spec fn pid_spec(&self) -> u32 {
        self.pid
    }

    pub closed spec fn address_spec(&self) -> u64 {
        self.address
    }

    /// The user-space address to read a [`SockaddrIn`] from.
    pub fn address(&self) -> (r: u64)
        ensures
            r == self.address_spec(),
    {
        self.address
    }

    pub fn pid(&self) -> (r: u32)
        ensures
            r == self.pid_spec(),
    {
        self.pid
    }
}

/// The state the probes share inside the kernel.
pub struct KernelState {
    allow: HashMap<u32, u8>,
    pending: HashMap<u32, ConnectArgs>,
    events: RingBuf,
}

impl KernelState {
    /// The allow-list: process id to liveness flag.
    pub closed spec fn allow_list(&self) -> Map<u32, u8> {
        self.allow@
    }

    /// The correlation table: process id to stashed `connect` arguments.
    pub closed spec fn pending(&self) -> Map<u32, ConnectArgs> {
        self.pending@
    }

    pub closed spec fn events(&self) -> RingBuf {
        self.events
    }

    pub open spec fn allowed(&self, pid: u32) -> bool {
        self.allow_list().contains_key(pid)
    }

    pub open spec fn wf(&self) -> bool {
        self.events().wf()
    }

    /// The frames after emitting `e`: appended when it fits, dropped otherwise.
    pub open spec fn after_emit(&self, e: Seq<u8>) -> Seq<Seq<u8>> {
        if e.len() <= self.events().free_spec() {
            self.events().frames().push(e)
        } else {
            self.events().frames()
        }
    }

    /// Empty tables and an empty ring buffer of `capacity` bytes.
    pub fn new(capacity: usize) -> (r: KernelState)
        ensures
            r.wf(),
            r.allow_list() == Map::<u32, u8>::empty(),
            r.pending() == Map::<u32, ConnectArgs>::empty(),
            r.events().frames() == Seq::<Seq<u8>>::empty(),
            r.events().capacity_spec() == capacity,
    {
        KernelState { allow: HashMap::new(), pending: HashMap::new(), events: RingBuf::new(capacity) }
    }

    /// Adds a process to the allow-list.
    pub fn allow_pid(&mut self, key: PidKey, flag: u8)
        ensures
            final(self).allow_list() == old(self).allow_list().insert(key.pid, flag),
            final(self).pending() == old(self).pending(),
            final(self).events() == old(self).events(),
    {
        self.allow.insert(key.pid, flag);
    }

    /// Removes a process from the allow-list.
    pub fn remove_pid(&mut self, key: PidKey)
        ensures
            final(self).allow_list() == old(self).allow_list().remove(key.pid),
            final(self).pending() == old(self).pending(),
            final(self).events() == old(self).events(),
    {
        self.allow.remove(&key.pid);
    }

    pub fn is_allowed_pid(&self, pid: u32) -> (r: bool)
        ensures
            r == self.allowed(pid),
    {
        self.allow.contains_key(&pid)
    }

    /// Reserves a frame of the record's exact size, writes the record and
    /// commits it; when no space remains the record is dropped and the
    /// committed frames stay as they were. A well-tagged record's frame
    /// decodes back to it.
    pub fn submit(&mut self, event: Event) -> (r: bool)
        requires
            old(self).wf(),
        ensures
            final(self).wf(),
            final(self).allow_list() == old(self).allow_list(),
            final(self).pending() == old(self).pending(),
            final(self).events().capacity_spec() == old(self).events().capacity_spec(),
            r == (event.bytes_spec().len() <= old(self).events().free_spec()),
            r ==> final(self).events().frames() == old(self).events().frames().push(
                event.bytes_spec(),
            ),
            !r ==> final(self).events().frames() == old(self).events().frames(),
            final(self).events().frames() == old(self).after_emit(event.bytes_spec()),
            event.well_tagged() ==> event.bytes_spec().len() == event.kind_spec().record_size_spec()
                && decode_spec(event.bytes_spec()) == event.decoded_spec(),
    {
        proof {
            if event.well_tagged() {
                lemma_event_round_trip(event);
            }
        }
        self.events.output(event.to_bytes())
    }

    /// The syscall-enter probe.
    pub fn sys_enter(&mut self, pid: u32, ts: u64, ctx: &Vec<u8>)
        requires
            old(self).wf(),
        ensures
            final(self).wf(),
            final(self).allow_list() == old(self).allow_list(),
            final(self).pending() == old(self).pending(),
            final(self).events().capacity_spec() == old(self).events().capacity_spec(),
            final(self).events().frames() == match sys_enter_event(
                old(self).allowed(pid),
                pid,
                ts,
                ctx@,
            ) {
                None => old(self).events().frames(),
                Some(e) => old(self).after_emit(e.bytes_spec()),
            },
    {
        if !self.is_allowed_pid(pid) {
            return;
        }
        let raw = match SysEnter::parse(ctx) {
            Some(raw) => raw,
            None => return,
        };
        let event = SysEnterEvent {
            header: EventHeader::new(ts, pid, EventKind::SysEnter),
            id: raw.id as u32,
        };
        self.submit(Event::SysEnter(event));
    }

    /// The mmap-enter probe.
    pub fn sys_enter_mmap(&mut self, pid: u32, ts: u64, ctx: &Vec<u8>)
        requires
            old(self).wf(),
        ensures
            final(self).wf(),
            final(self).allow_list() == old(self).allow_list(),
            final(self).pending() == old(self).pending(),
            final(self).events().capacity_spec() == old(self).events().capacity_spec(),
            final(self).events().frames() == match sys_mmap_event(
                old(self).allowed(pid),
                pid,
                ts,
                ctx@,
            ) {
                None => old(self).events().frames(),
                Some(e) => old(self).after_emit(e.bytes_spec()),
            },
    {
        if !self.is_allowed_pid(pid) {
            return;
        }
        if ctx.len() < SYSCALL_ARGS_OFFSET + 48 {
            return;
        }
        let event = SysMmapEvent {
            header: EventHeader::new(ts, pid, EventKind::SysMmap),
            args: MmapArgs::parse(ctx, SYSCALL_ARGS_OFFSET),
        };
        self.submit(Event::SysMmap(event));
    }

    /// The connect-entry probe: stashes the call's arguments for its return.
    /// A second entry by the same process before the return overwrites the
    /// stash.
    pub fn enter_connect(&mut self, pid: u32, fd: i32, uservaddr: u64, address_len: i32)
        ensures
            final(self).allow_list() == old(self).allow_list(),
            final(self).events() == old(self).events(),
            final(self).pending() == if old(self).allowed(pid) {
                old(self).pending().insert(
                    pid,
                    ConnectArgs { fd, uservaddr, address_len },
                )
            } else {
                old(self).pending()
            },
    {
        if !self.is_allowed_pid(pid) {
            return;
        }
        let args = ConnectArgs { fd, uservaddr, address_len };
        self.pending.insert(pid, args);
    }

    /// The first half of the connect-exit probe: takes the process's stash
    /// out of the table and, when it is usable, asks for the caller's socket
    /// address to be read.
    pub fn exit_connect(&mut self, pid: u32) -> (r: Option<UserRead>)
        ensures
            final(self).allow_list() == old(self).allow_list(),
            final(self).events() == old(self).events(),
            final(self).pending() == if old(self).allowed(pid) {
                old(self).pending().remove(pid)
            } else {
                old(self).pending()
            },
            match r {
                None => connect_read_address(old(self).allowed(pid), old(self).pending(), pid)
                    is None,
                Some(u) => connect_read_address(old(self).allowed(pid), old(self).pending(), pid)
                    == Some(u.address_spec()) && u.pid_spec() == pid,
            },
    {
        if !self.is_allowed_pid(pid) {
            return None;
        }
        let args = match self.pending.get(&pid) {
            Some(a) => *a,
            None => return None,
        };
        self.pending.remove(&pid);
        if args.uservaddr == 0 || args.address_len < SOCKADDR_IN_SIZE as i32 {
            return None;
        }
        Some(UserRead { pid, address: args.uservaddr })
    }

    /// The second half of the connect-exit probe: `sa` is what the read asked
    /// for returned (`None` when it failed). Emits the TCP-connect event for
    /// an IPv4 address.
    pub fn finish_connect(&mut self, read: UserRead, ts: u64, sa: Option<SockaddrIn>)
        requires
            old(self).wf(),
        ensures
            final(self).wf(),
            final(self).allow_list() == old(self).allow_list(),
            final(self).pending() == old(self).pending(),
            final(self).events().capacity_spec() == old(self).events().capacity_spec(),
            final(self).events().frames() == match tcp_conn_event(read.pid_spec(), ts, sa) {
                None => old(self).events().frames(),
                Some(e) => old(self).after_emit(e.bytes_spec()),
            },
    {
        let s = match sa {
            Some(s) => s,
            None => return,
        };
        if s.sin_family != AF_INET {
            return;
        }
        let event = TcpConnEvent {
            header: EventHeader::new(ts, read.pid, EventKind::TcpConn),
            args: TcpArgs {
                source_address: 0,
                destination_address: byte_swap32(s.sin_addr),
                source_port: 0,
                destination_port: byte_swap16(s.sin_port) as u32,
            },
        };
        self.submit(Event::TcpConn(event));
    }

    /// Takes the oldest frame out of the ring buffer, for the consumer.
    pub fn next_frame(&mut self) -> (r: Option<Vec<u8>>)
        requires
            old(self).wf(),
        ensures
            final(self).wf(),
            final(self).allow_list() == old(self).allow_list(),
            final(self).pending() == old(self).pending(),
            final(self).events().capacity_spec() == old(self).events().capacity_spec(),
            old(self).events().frames().len() == 0 ==> r is None && final(self).events().frames()
                == old(self).events().frames(),
            old(self).events().frames().len() > 0 ==> (r matches Some(f) && f@ == old(
                self,
            ).events().frames()[0] && final(self).events().frames() == old(
                self,
            ).events().frames().drop_first()),
    {
        self.events.next()
    }
}


/// A process that is not on the allow-list gets no event from any probe, and
/// its connect calls leave nothing to read, however often they are made.
pub proof fn lemma_unlisted_pid_emits_nothing(
    state: KernelState,
    pid: u32,
    ts: u64,
    ctx: Seq<u8>,
)
    requires
        !state.allowed(pid),
    ensures
        sys_enter_event(state.allowed(pid), pid, ts, ctx) is None,
        sys_mmap_event(state.allowed(pid), pid, ts, ctx) is None,
        connect_read_address(state.allowed(pid), state.pending(), pid) is None,
{
}

/// A connect entry followed by its exit, with no other entry by the same
/// process between them, asks for the stashed address to be read, and the
/// event then carries the destination read from it, in host order, with zero
/// source fields.
/// An exit with nothing stashed for the process asks for nothing.
pub proof fn lemma_connect_correlation(
    pending: Map<u32, ConnectArgs>,
    pid: u32,
    args: ConnectArgs,
    ts: u64,
    sa: SockaddrIn,
)
    requires
        args.uservaddr != 0,
        args.address_len >= SOCKADDR_IN_SIZE as i32,
        sa.sin_family == AF_INET,
    ensures
        connect_read_address(true, pending.insert(pid, args), pid) == Some(args.uservaddr),
        tcp_conn_event(pid, ts, Some(sa)) matches Some(e) && e.header.pid == pid
            && e.args.destination_address == swap32(sa.sin_addr) && e.args.destination_port
            == swap16(sa.sin_port) as u32 && e.args.source_address == 0 && e.args.source_port == 0,
        !pending.contains_key(pid) ==> connect_read_address(true, pending, pid) is None,
{
}

/// Every frame a probe commits carries a known tag and decodes back to the
/// event it was made from, field for field.
pub proof fn lemma_emitted_frames_decode(
    allowed: bool,
    pid: u32,
    ts: u64,
    ctx: Seq<u8>,
    sa: Option<SockaddrIn>,
)
    ensures
        sys_enter_event(allowed, pid, ts, ctx) matches Some(e) ==> e.header.kind == TAG_SYS_ENTER
            && decode_spec(e.bytes_spec()) == Decoded::SysEnter(e),
        sys_mmap_event(allowed, pid, ts, ctx) matches Some(e) ==> e.header.kind == TAG_SYS_MMAP
            && decode_spec(e.bytes_spec()) == Decoded::SysMmap(e),
        tcp_conn_event(pid, ts, sa) matches Some(e) ==> e.header.kind == TAG_TCP_CONN
            && decode_spec(e.bytes_spec()) == Decoded::TcpConn(e),
{
    if let Some(e) = sys_enter_event(allowed, pid, ts, ctx) {
        lemma_sys_enter_round_trip(e);
    }
    if let Some(e) = sys_mmap_event(allowed, pid, ts, ctx) {
        lemma_sys_mmap_round_trip(e);
    }
    if let Some(e) = tcp_conn_event(pid, ts, sa) {
        lemma_tcp_conn_round_trip(e);
    }
}

} // verus!
