//! The binary layout of the event records shared by the probes and the
//! consumer: fixed-size, little-endian, C-aligned records, each made of a
//! 16-byte header followed by a payload that depends on the event kind.
use vstd::prelude::*;

verus! {

/// Size in bytes of an [`EventHeader`].
pub const HEADER_SIZE: usize = 16;

/// Size in bytes of a [`SysEnterEvent`] (the payload is padded to 8 bytes).
pub const SYS_ENTER_EVENT_SIZE: usize = 24;

/// Size in bytes of a [`SysMmapEvent`].
pub const SYS_MMAP_EVENT_SIZE: usize = 64;

/// Size in bytes of a [`TcpConnEvent`].
pub const TCP_CONN_EVENT_SIZE: usize = 32;

/// Tag of a syscall-enter record.
pub const TAG_SYS_ENTER: u16 = 1;

/// Tag of an mmap-enter record.
pub const TAG_SYS_MMAP: u16 = 2;

/// Tag of a TCP-connect record.
pub const TAG_TCP_CONN: u16 = 3;

/// The kinds of event record that probes emit.
#[derive(Clone, Copy, Debug, PartialEq, Eq, Structural)]
pub enum EventKind {
    SysEnter,
    SysMmap,
    TcpConn,
}

impl EventKind {
    pub open spec fn tag_spec(self) -> u16 {
        match self {
            EventKind::SysEnter => TAG_SYS_ENTER,
            EventKind::SysMmap => TAG_SYS_MMAP,
            EventKind::TcpConn => TAG_TCP_CONN,
        }
    }

    pub open spec fn from_tag_spec(tag: u16) -> Option<EventKind> {
        if tag == TAG_SYS_ENTER {
            Some(EventKind::SysEnter)
        } else if tag == TAG_SYS_MMAP {
            Some(EventKind::SysMmap)
        } else if tag == TAG_TCP_CONN {
            Some(EventKind::TcpConn)
        } else {
            None
        }
    }

    /// Size in bytes of a whole record of this kind, header included.
    pub open spec fn record_size_spec(self) -> nat {
        match self {
            EventKind::SysEnter => SYS_ENTER_EVENT_SIZE as nat,
            EventKind::SysMmap => SYS_MMAP_EVENT_SIZE as nat,
            EventKind::TcpConn => TCP_CONN_EVENT_SIZE as nat,
        }
    }

    /// The 16-bit tag that stands for this kind in a record's header.
    pub fn tag(self) -> (r: u16)
        ensures
            r == self.tag_spec(),
    {
        match self {
            EventKind::SysEnter => TAG_SYS_ENTER,
            EventKind::SysMmap => TAG_SYS_MMAP,
            EventKind::TcpConn => TAG_TCP_CONN,
        }
    }

    /// The kind that a header tag names, if any.
    pub fn from_tag(tag: u16) -> (r: Option<EventKind>)
        ensures
            r == Self::from_tag_spec(tag),
    {
        if tag == TAG_SYS_ENTER {
            Some(EventKind::SysEnter)
        } else if tag == TAG_SYS_MMAP {
            Some(EventKind::SysMmap)
        } else if tag == TAG_TCP_CONN {
            Some(EventKind::TcpConn)
        } else {
            None
        }
    }

    /// Size in bytes of a whole record of this kind.
    pub fn record_size(self) -> (r: usize)
        ensures
            r == self.record_size_spec(),
    {
        match self {
            EventKind::SysEnter => SYS_ENTER_EVENT_SIZE,
            EventKind::SysMmap => SYS_MMAP_EVENT_SIZE,
            EventKind::TcpConn => TCP_CONN_EVENT_SIZE,
        }
    }
}

// ---------------------------------------------------------------------------
// Little-endian integers
// ---------------------------------------------------------------------------

/// The two bytes of `v`, least significant first.
pub open spec fn le16(v: u16) -> Seq<u8> {
    seq![(v & 0xff) as u8, ((v >> 8u16) & 0xff) as u8]
}

/// The four bytes of `v`, least significant first.
pub open spec fn le32(v: u32) -> Seq<u8> {
    seq![
        (v & 0xff) as u8,
        ((v >> 8u32) & 0xff) as u8,
        ((v >> 16u32) & 0xff) as u8,
        ((v >> 24u32) & 0xff) as u8,
    ]
}

/// The eight bytes of `v`, least significant first.
pub open spec fn le64(v: u64) -> Seq<u8> {
    seq![
        (v & 0xff) as u8,
        ((v >> 8u64) & 0xff) as u8,
        ((v >> 16u64) & 0xff) as u8,
        ((v >> 24u64) & 0xff) as u8,
        ((v >> 32u64) & 0xff) as u8,
        ((v >> 40u64) & 0xff) as u8,
        ((v >> 48u64) & 0xff) as u8,
        ((v >> 56u64) & 0xff) as u8,
    ]
}

pub open spec fn get_u16(b: Seq<u8>, i: int) -> u16 {
    (b[i] as u16) | ((b[i + 1] as u16) << 8u16)
}

pub open spec fn get_u32(b: Seq<u8>, i: int) -> u32 {
    (b[i] as u32) | ((b[i + 1] as u32) << 8u32) | ((b[i + 2] as u32) << 16u32) | ((b[i
        + 3] as u32) << 24u32)
}

pub open spec fn get_u64(b: Seq<u8>, i: int) -> u64 {
    (b[i] as u64) | ((b[i + 1] as u64) << 8u64) | ((b[i + 2] as u64) << 16u64) | ((b[i
        + 3] as u64) << 24u64) | ((b[i + 4] as u64) << 32u64) | ((b[i + 5] as u64) << 40u64)
        | ((b[i + 6] as u64) << 48u64) | ((b[i + 7] as u64) << 56u64)
}

pub proof fn lemma_le16(v: u16)
    ensures
        get_u16(le16(v), 0) == v,
{
    let s = le16(v);
    let (b0, b1) = (s[0], s[1]);
    assert(b0 == (v & 0xff) as u8 && b1 == ((v >> 8u16) & 0xff) as u8);
    assert(b0 == (v & 0xff) as u8 && b1 == ((v >> 8u16) & 0xff) as u8 ==> (b0 as u16) | ((
    b1 as u16) << 8u16) == v) by (bit_vector);
}

pub proof fn lemma_le32(v: u32)
    ensures
        get_u32(le32(v), 0) == v,
{
    let s = le32(v);
    let (b0, b1, b2, b3) = (s[0], s[1], s[2], s[3]);
    assert(b0 == (v & 0xff) as u8 && b1 == ((v >> 8u32) & 0xff) as u8 && b2 == ((v >> 16u32)
        & 0xff) as u8 && b3 == ((v >> 24u32) & 0xff) as u8);
    assert(b0 == (v & 0xff) as u8 && b1 == ((v >> 8u32) & 0xff) as u8 && b2 == ((v >> 16u32)
        & 0xff) as u8 && b3 == ((v >> 24u32) & 0xff) as u8 ==> (b0 as u32) | ((b1 as u32)
        << 8u32) | ((b2 as u32) << 16u32) | ((b3 as u32) << 24u32) == v) by (bit_vector);
}

pub proof fn lemma_le64(v: u64)
    ensures
        get_u64(le64(v), 0) == v,
{
    let s = le64(v);
    let (b0, b1, b2, b3, b4, b5, b6, b7) = (s[0], s[1], s[2], s[3], s[4], s[5], s[6], s[7]);
    assert(b0 == (v & 0xff) as u8 && b1 == ((v >> 8u64) & 0xff) as u8 && b2 == ((v >> 16u64)
        & 0xff) as u8 && b3 == ((v >> 24u64) & 0xff) as u8 && b4 == ((v >> 32u64) & 0xff) as u8
        && b5 == ((v >> 40u64) & 0xff) as u8 && b6 == ((v >> 48u64) & 0xff) as u8 && b7 == ((v
        >> 56u64) & 0xff) as u8);
    assert(b0 == (v & 0xff) as u8 && b1 == ((v >> 8u64) & 0xff) as u8 && b2 == ((v >> 16u64)
        & 0xff) as u8 && b3 == ((v >> 24u64) & 0xff) as u8 && b4 == ((v >> 32u64) & 0xff) as u8
        && b5 == ((v >> 40u64) & 0xff) as u8 && b6 == ((v >> 48u64) & 0xff) as u8 && b7 == ((v
        >> 56u64) & 0xff) as u8 ==> (b0 as u64) | ((b1 as u64) << 8u64) | ((b2 as u64) << 16u64)
        | ((b3 as u64) << 24u64) | ((b4 as u64) << 32u64) | ((b5 as u64) << 40u64) | ((
    b6 as u64) << 48u64) | ((b7 as u64) << 56u64) == v) by (bit_vector);
}

/// Reads the little-endian `u16` at byte `i` of `b`.
pub fn read_u16(b: &Vec<u8>, i: usize) -> (r: u16)
    requires
        i + 2 <= b@.len(),
    ensures
        r == get_u16(b@, i as int),
{
    let _len = b.len();
    (b[i] as u16) | ((b[i + 1] as u16) << 8u16)
}

/// Reads the little-endian `u32` at byte `i` of `b`.
pub fn read_u32(b: &Vec<u8>, i: usize) -> (r: u32)
    requires
        i + 4 <= b@.len(),
    ensures
        r == get_u32(b@, i as int),
{
    let _len = b.len();
    (b[i] as u32) | ((b[i + 1] as u32) << 8u32) | ((b[i + 2] as u32) << 16u32) | ((b[i
        + 3] as u32) << 24u32)
}

/// Reads the little-endian `u64` at byte `i` of `b`.
pub fn read_u64(b: &Vec<u8>, i: usize) -> (r: u64)
    requires
        i + 8 <= b@.len(),
    ensures
        r == get_u64(b@, i as int),
{
    let _len = b.len();
    (b[i] as u64) | ((b[i + 1] as u64) << 8u64) | ((b[i + 2] as u64) << 16u64) | ((b[i
        + 3] as u64) << 24u64) | ((b[i + 4] as u64) << 32u64) | ((b[i + 5] as u64) << 40u64)
        | ((b[i + 6] as u64) << 48u64) | ((b[i + 7] as u64) << 56u64)
}

fn push_u16(out: &mut Vec<u8>, v: u16)
    ensures
        final(out)@ == old(out)@ + le16(v),
{
    out.push((v & 0xff) as u8);
    out.push(((v >> 8u16) & 0xff) as u8);
    assert(final(out)@ =~= old(out)@ + le16(v));
}

fn push_u32(out: &mut Vec<u8>, v: u32)
    ensures
        final(out)@ == old(out)@ + le32(v),
{
    out.push((v & 0xff) as u8);
    out.push(((v >> 8u32) & 0xff) as u8);
    out.push(((v >> 16u32) & 0xff) as u8);
    out.push(((v >> 24u32) & 0xff) as u8);
    assert(final(out)@ =~= old(out)@ + le32(v));
}

fn push_u64(out: &mut Vec<u8>, v: u64)
    ensures
        final(out)@ == old(out)@ + le64(v),
{
    out.push((v & 0xff) as u8);
    out.push(((v >> 8u64) & 0xff) as u8);
    out.push(((v >> 16u64) & 0xff) as u8);
    out.push(((v >> 24u64) & 0xff) as u8);
    out.push(((v >> 32u64) & 0xff) as u8);
    out.push(((v >> 40u64) & 0xff) as u8);
    out.push(((v >> 48u64) & 0xff) as u8);
    out.push(((v >> 56u64) & 0xff) as u8);
    assert(final(out)@ =~= old(out)@ + le64(v));
}


/// Common header of every record.
#[derive(Clone, Copy, Debug, PartialEq, Eq, Structural)]
pub struct EventHeader {
    /// Monotonic kernel time, in nanoseconds.
    pub ts_ns: u64,
    /// Process id the event belongs to.
    pub pid: u32,
    /// Tag of the event kind (see [`EventKind::tag`]).
    pub kind: u16,
    /// Alignment filler, zero when written by a probe.
    pub pad: u16,
}

/// A syscall-enter record.
#[derive(Clone, Copy, Debug, PartialEq, Eq, Structural)]
pub struct SysEnterEvent {
    pub header: EventHeader,
    /// Syscall number.
    pub id: u32,
}

/// The six arguments of an `mmap` call, in the kernel's order.
#[derive(Clone, Copy, Debug, PartialEq, Eq, Structural)]
pub struct MmapArgs {
    pub address: u64,
    pub len: u64,
    pub prot: u64,
    pub flag: u64,
    pub fd: u64,
    pub offset: u64,
}

/// An mmap-enter record.
#[derive(Clone, Copy, Debug, PartialEq, Eq, Structural)]
pub struct SysMmapEvent {
    pub header: EventHeader,
    pub args: MmapArgs,
}

/// IPv4 endpoints of a connection attempt.
#[derive(Clone, Copy, Debug, PartialEq, Eq, Structural)]
pub struct TcpArgs {
    pub source_address: u32,
    pub destination_address: u32,
    pub source_port: u32,
    pub destination_port: u32,
}

/// A TCP-connect record.
#[derive(Clone, Copy, Debug, PartialEq, Eq, Structural)]
pub struct TcpConnEvent {
    pub header: EventHeader,
    pub args: TcpArgs,
}

impl EventHeader {
    /// The header a probe writes: the filler is zero.
    pub open spec fn new_spec(ts_ns: u64, pid: u32, kind: EventKind) -> EventHeader {
        EventHeader { ts_ns, pid, kind: kind.tag_spec(), pad: 0 }
    }

    pub open spec fn bytes_spec(self) -> Seq<u8> {
        le64(self.ts_ns) + le32(self.pid) + le16(self.kind) + le16(self.pad)
    }

    /// The header at the start of `b`.
    pub open spec fn parse_spec(b: Seq<u8>) -> EventHeader {
        EventHeader {
            ts_ns: get_u64(b, 0),
            pid: get_u32(b, 8),
            kind: get_u16(b, 12),
            pad: get_u16(b, 14),
        }
    }

    /// Builds the header of a record of `kind`.
    pub fn new(ts_ns: u64, pid: u32, kind: EventKind) -> (r: EventHeader)
        ensures
            r == Self::new_spec(ts_ns, pid, kind),
    {
        EventHeader { ts_ns, pid, kind: kind.tag(), pad: 0 }
    }

    fn write(&self, out: &mut Vec<u8>)
        ensures
            final(out)@ == old(out)@ + self.bytes_spec(),
    {
        push_u64(out, self.ts_ns);
        push_u32(out, self.pid);
        push_u16(out, self.kind);
        push_u16(out, self.pad);
        assert(final(out)@ =~= old(out)@ + self.bytes_spec());
    }

    /// Reads the header at the start of `b`.
    pub fn parse(b: &Vec<u8>) -> (r: EventHeader)
        requires
            b@.len() >= HEADER_SIZE,
        ensures
            r == Self::parse_spec(b@),
    {
        EventHeader {
            ts_ns: read_u64(b, 0),
            pid: read_u32(b, 8),
            kind: read_u16(b, 12),
            pad: read_u16(b, 14),
        }
    }
}

impl MmapArgs {
    pub open spec fn bytes_spec(self) -> Seq<u8> {
        le64(self.address) + le64(self.len) + le64(self.prot) + le64(self.flag) + le64(self.fd)
            + le64(self.offset)
    }

    /// The arguments laid out from byte `i` of `b`.
    pub open spec fn parse_spec(b: Seq<u8>, i: int) -> MmapArgs {
        MmapArgs {
            address: get_u64(b, i),
            len: get_u64(b, i + 8),
            prot: get_u64(b, i + 16),
            flag: get_u64(b, i + 24),
            fd: get_u64(b, i + 32),
            offset: get_u64(b, i + 40),
        }
    }

    /// Reads the arguments laid out from byte `i` of `b`.
    pub fn parse(b: &Vec<u8>, i: usize) -> (r: MmapArgs)
        requires
            i + 48 <= b@.len(),
        ensures
            r == Self::parse_spec(b@, i as int),
    {
        let _len = b.len();
        MmapArgs {
            address: read_u64(b, i),
            len: read_u64(b, i + 8),
            prot: read_u64(b, i + 16),
            flag: read_u64(b, i + 24),
            fd: read_u64(b, i + 32),
            offset: read_u64(b, i + 40),
        }
    }
}

impl TcpArgs {
    pub open spec fn bytes_spec(self) -> Seq<u8> {
        le32(self.source_address) + le32(self.destination_address) + le32(self.source_port)
            + le32(self.destination_port)
    }

    pub open spec fn parse_spec(b: Seq<u8>, i: int) -> TcpArgs {
        TcpArgs {
            source_address: get_u32(b, i),
            destination_address: get_u32(b, i + 4),
            source_port: get_u32(b, i + 8),
            destination_port: get_u32(b, i + 12),
        }
    }
}

impl SysEnterEvent {
    /// Header, syscall number, then four zero bytes of trailing alignment.
    pub open spec fn bytes_spec(self) -> Seq<u8> {
        self.header.bytes_spec() + le32(self.id) + le32(0)
    }

    pub fn to_bytes(&self) -> (r: Vec<u8>)
        ensures
            r@ == self.bytes_spec(),
    {
        let mut out: Vec<u8> = Vec::new();
        self.header.write(&mut out);
        push_u32(&mut out, self.id);
        push_u32(&mut out, 0);
        assert(out@ =~= self.bytes_spec());
        out
    }
}

impl SysMmapEvent {
    pub open spec fn bytes_spec(self) -> Seq<u8> {
        self.header.bytes_spec() + self.args.bytes_spec()
    }

    pub fn to_bytes(&self) -> (r: Vec<u8>)
        ensures
            r@ == self.bytes_spec(),
    {
        let mut out: Vec<u8> = Vec::new();
        self.header.write(&mut out);
        push_u64(&mut out, self.args.address);
        push_u64(&mut out, self.args.len);
        push_u64(&mut out, self.args.prot);
        push_u64(&mut out, self.args.flag);
        push_u64(&mut out, self.args.fd);
        push_u64(&mut out, self.args.offset);
        assert(out@ =~= self.bytes_spec());
        out
    }
}

impl TcpConnEvent {
    pub open spec fn bytes_spec(self) -> Seq<u8> {
        self.header.bytes_spec() + self.args.bytes_spec()
    }

    pub fn to_bytes(&self) -> (r: Vec<u8>)
        ensures
            r@ == self.bytes_spec(),
    {
        let mut out: Vec<u8> = Vec::new();
        self.header.write(&mut out);
        push_u32(&mut out, self.args.source_address);
        push_u32(&mut out, self.args.destination_address);
        push_u32(&mut out, self.args.source_port);
        push_u32(&mut out, self.args.destination_port);
        assert(out@ =~= self.bytes_spec());
        out
    }
}

/// An event record of any kind, as a probe emits it.
#[derive(Clone, Copy, Debug, PartialEq, Eq, Structural)]
pub enum Event {
    SysEnter(SysEnterEvent),
    SysMmap(SysMmapEvent),
    TcpConn(TcpConnEvent),
}

impl Event {
    pub open spec fn bytes_spec(self) -> Seq<u8> {
        match self {
            Event::SysEnter(e) => e.bytes_spec(),
            Event::SysMmap(e) => e.bytes_spec(),
            Event::TcpConn(e) => e.bytes_spec(),
        }
    }

    pub open spec fn kind_spec(self) -> EventKind {
        match self {
            Event::SysEnter(_) => EventKind::SysEnter,
            Event::SysMmap(_) => EventKind::SysMmap,
            Event::TcpConn(_) => EventKind::TcpConn,
        }
    }

    pub open spec fn header_spec(self) -> EventHeader {
        match self {
            Event::SysEnter(e) => e.header,
            Event::SysMmap(e) => e.header,
            Event::TcpConn(e) => e.header,
        }
    }

    /// The header's tag is the one of the record's kind.
    pub open spec fn well_tagged(self) -> bool {
        self.header_spec().kind == self.kind_spec().tag_spec()
    }

    /// What decoding the record's bytes should give.
    pub open spec fn decoded_spec(self) -> Decoded {
        match self {
            Event::SysEnter(e) => Decoded::SysEnter(e),
            Event::SysMmap(e) => Decoded::SysMmap(e),
            Event::TcpConn(e) => Decoded::TcpConn(e),
        }
    }

    pub fn to_bytes(&self) -> (r: Vec<u8>)
        ensures
            r@ == self.bytes_spec(),
    {
        match self {
            Event::SysEnter(e) => e.to_bytes(),
            Event::SysMmap(e) => e.to_bytes(),
            Event::TcpConn(e) => e.to_bytes(),
        }
    }
}

/// What the consumer makes of one frame taken from the ring buffer.
#[derive(Clone, Copy, Debug, PartialEq, Eq, Structural)]
pub enum Decoded {
    SysEnter(SysEnterEvent),
    SysMmap(SysMmapEvent),
    TcpConn(TcpConnEvent),
    /// The header's tag names no known kind: an anomaly, reported with the
    /// tag and the frame's length.
    Unknown { kind: u16, len: usize },
    /// The frame is shorter than the header, or than the record its tag names.
    Truncated { len: usize },
}

/// What a frame of bytes `b` decodes to.
pub open spec fn decode_spec(b: Seq<u8>) -> Decoded {
    if b.len() < HEADER_SIZE {
        Decoded::Truncated { len: b.len() as usize }
    } else {
        let h = EventHeader::parse_spec(b);
        match EventKind::from_tag_spec(h.kind) {
            None => Decoded::Unknown { kind: h.kind, len: b.len() as usize },
            Some(k) => if b.len() < k.record_size_spec() {
                Decoded::Truncated { len: b.len() as usize }
            } else {
                match k {
                    EventKind::SysEnter => Decoded::SysEnter(
                        SysEnterEvent { header: h, id: get_u32(b, 16) },
                    ),
                    EventKind::SysMmap => Decoded::SysMmap(
                        SysMmapEvent { header: h, args: MmapArgs::parse_spec(b, 16) },
                    ),
                    EventKind::TcpConn => Decoded::TcpConn(
                        TcpConnEvent { header: h, args: TcpArgs::parse_spec(b, 16) },
                    ),
                }
            },
        }
    }
}

/// Classifies a frame by its header tag and reads the record of that kind.
pub fn decode_frame(b: &Vec<u8>) -> (r: Decoded)
    ensures
        r == decode_spec(b@),
{
    let len = b.len();
    if len < HEADER_SIZE {
        return Decoded::Truncated { len };
    }
    let h = EventHeader::parse(b);
    match EventKind::from_tag(h.kind) {
        None => Decoded::Unknown { kind: h.kind, len },
        Some(k) => {
            if len < k.record_size() {
                Decoded::Truncated { len }
            } else {
                match k {
                    EventKind::SysEnter => Decoded::SysEnter(
                        SysEnterEvent { header: h, id: read_u32(b, 16) },
                    ),
                    EventKind::SysMmap => Decoded::SysMmap(
                        SysMmapEvent { header: h, args: MmapArgs::parse(b, 16) },
                    ),
                    EventKind::TcpConn => Decoded::TcpConn(
                        TcpConnEvent {
                            header: h,
                            args: TcpArgs {
                                source_address: read_u32(b, 16),
                                destination_address: read_u32(b, 20),
                                source_port: read_u32(b, 24),
                                destination_port: read_u32(b, 28),
                            },
                        },
                    ),
                }
            }
        },
    }
}


impl Decoded {
    /// The kind and header of a decoded record; `None` for an anomaly.
    pub open spec fn record_header(self) -> Option<(EventKind, EventHeader)> {
        match self {
            Decoded::SysEnter(e) => Some((EventKind::SysEnter, e.header)),
            Decoded::SysMmap(e) => Some((EventKind::SysMmap, e.header)),
            Decoded::TcpConn(e) => Some((EventKind::TcpConn, e.header)),
            _ => None,
        }
    }
}

proof fn lemma_u16_at(s: Seq<u8>, i: int, v: u16)
    requires
        0 <= i,
        i + 2 <= s.len(),
        s.subrange(i, i + 2) == le16(v),
    ensures
        get_u16(s, i) == v,
{
    lemma_le16(v);
    assert(s.subrange(i, i + 2)[0] == s[i] && s.subrange(i, i + 2)[1] == s[i + 1]);
}

proof fn lemma_u32_at(s: Seq<u8>, i: int, v: u32)
    requires
        0 <= i,
        i + 4 <= s.len(),
        s.subrange(i, i + 4) == le32(v),
    ensures
        get_u32(s, i) == v,
{
    lemma_le32(v);
    let t = s.subrange(i, i + 4);
    assert(t[0] == s[i] && t[1] == s[i + 1] && t[2] == s[i + 2] && t[3] == s[i + 3]);
}

proof fn lemma_u64_at(s: Seq<u8>, i: int, v: u64)
    requires
        0 <= i,
        i + 8 <= s.len(),
        s.subrange(i, i + 8) == le64(v),
    ensures
        get_u64(s, i) == v,
{
    lemma_le64(v);
    let t = s.subrange(i, i + 8);
    assert(t[0] == s[i] && t[1] == s[i + 1] && t[2] == s[i + 2] && t[3] == s[i + 3]);
    assert(t[4] == s[i + 4] && t[5] == s[i + 5] && t[6] == s[i + 6] && t[7] == s[i + 7]);
}

proof fn lemma_header_round_trip(h: EventHeader, rest: Seq<u8>)
    ensures
        EventHeader::parse_spec(h.bytes_spec() + rest) == h,
        (h.bytes_spec() + rest).len() == HEADER_SIZE + rest.len(),
{
    let b = h.bytes_spec() + rest;
    assert(b.subrange(0, 8) =~= le64(h.ts_ns));
    assert(b.subrange(8, 12) =~= le32(h.pid));
    assert(b.subrange(12, 14) =~= le16(h.kind));
    assert(b.subrange(14, 16) =~= le16(h.pad));
    lemma_u64_at(b, 0, h.ts_ns);
    lemma_u32_at(b, 8, h.pid);
    lemma_u16_at(b, 12, h.kind);
    lemma_u16_at(b, 14, h.pad);
}

/// A frame of at least a header's length whose tag names a kind, and which is
/// exactly as long as a record of that kind, decodes to a record of that kind
/// whose header holds the header's bytes; a frame whose tag names no kind is
/// reported as unknown, with its tag and length, and never decoded.
pub proof fn lemma_decode_by_tag(b: Seq<u8>)
    requires
        HEADER_SIZE <= b.len() <= usize::MAX,
    ensures
        ({
            let h = EventHeader::parse_spec(b);
            match EventKind::from_tag_spec(h.kind) {
                Some(k) => b.len() == k.record_size_spec() ==> decode_spec(b).record_header()
                    == Some((k, h)) && k.tag_spec() == h.kind,
                None => decode_spec(b) == (Decoded::Unknown { kind: h.kind, len: b.len() as usize }),
            }
        }),
{
}

/// Decoding the bytes of a syscall-enter record gives the record back.
pub proof fn lemma_sys_enter_round_trip(e: SysEnterEvent)
    requires
        e.header.kind == TAG_SYS_ENTER,
    ensures
        decode_spec(e.bytes_spec()) == Decoded::SysEnter(e),
        e.bytes_spec().len() == SYS_ENTER_EVENT_SIZE,
{
    let rest = le32(e.id) + le32(0);
    let b = e.bytes_spec();
    assert(b =~= e.header.bytes_spec() + rest);
    lemma_header_round_trip(e.header, rest);
    assert(b.subrange(16, 20) =~= le32(e.id));
    lemma_u32_at(b, 16, e.id);
}

/// Decoding the bytes of an mmap-enter record gives the record back.
pub proof fn lemma_sys_mmap_round_trip(e: SysMmapEvent)
    requires
        e.header.kind == TAG_SYS_MMAP,
    ensures
        decode_spec(e.bytes_spec()) == Decoded::SysMmap(e),
        e.bytes_spec().len() == SYS_MMAP_EVENT_SIZE,
{
    let a = e.args;
    let b = e.bytes_spec();
    lemma_header_round_trip(e.header, a.bytes_spec());
    assert(b.subrange(16, 24) =~= le64(a.address));
    assert(b.subrange(24, 32) =~= le64(a.len));
    assert(b.subrange(32, 40) =~= le64(a.prot));
    assert(b.subrange(40, 48) =~= le64(a.flag));
    assert(b.subrange(48, 56) =~= le64(a.fd));
    assert(b.subrange(56, 64) =~= le64(a.offset));
    lemma_u64_at(b, 16, a.address);
    lemma_u64_at(b, 24, a.len);
    lemma_u64_at(b, 32, a.prot);
    lemma_u64_at(b, 40, a.flag);
    lemma_u64_at(b, 48, a.fd);
    lemma_u64_at(b, 56, a.offset);
}

/// Decoding the bytes of a TCP-connect record gives the record back.
pub proof fn lemma_tcp_conn_round_trip(e: TcpConnEvent)
    requires
        e.header.kind == TAG_TCP_CONN,
    ensures
        decode_spec(e.bytes_spec()) == Decoded::TcpConn(e),
        e.bytes_spec().len() == TCP_CONN_EVENT_SIZE,
{
    let a = e.args;
    let b = e.bytes_spec();
    lemma_header_round_trip(e.header, a.bytes_spec());
    assert(b.subrange(16, 20) =~= le32(a.source_address));
    assert(b.subrange(20, 24) =~= le32(a.destination_address));
    assert(b.subrange(24, 28) =~= le32(a.source_port));
    assert(b.subrange(28, 32) =~= le32(a.destination_port));
    lemma_u32_at(b, 16, a.source_address);
    lemma_u32_at(b, 20, a.destination_address);
    lemma_u32_at(b, 24, a.source_port);
    lemma_u32_at(b, 28, a.destination_port);
}

/// A well-tagged record of any kind is as long as its kind's record size
/// and decodes back to itself.
pub proof fn lemma_event_round_trip(e: Event)
    requires
        e.well_tagged(),
    ensures
        e.bytes_spec().len() == e.kind_spec().record_size_spec(),
        decode_spec(e.bytes_spec()) == e.decoded_spec(),
{
    match e {
        Event::SysEnter(x) => lemma_sys_enter_round_trip(x),
        Event::SysMmap(x) => lemma_sys_mmap_round_trip(x),
        Event::TcpConn(x) => lemma_tcp_conn_round_trip(x),
    }
}

} // verus!
