//! The protocol's data model: priorities, identifiers, packets,
//! connections and error kinds.
use vstd::prelude::*;
use crate::conn::ConnType;
use crate::crc32::{crc32c, crc32c_of, with_crc};
use crate::interface::{CspIface, NextHop};

verus! {

/// Packet priority, carried in the two most significant header bits.
#[derive(Debug, Clone, Copy, PartialEq, Eq, Structural, Hash)]
pub enum Priorities {
    PrioCritical,
    PrioHigh,
    PrioNormal,
    PrioLow,
}

/// The two-bit wire value of a priority.
pub open spec fn priority_bits(p: Priorities) -> u8 {
    match p {
        Priorities::PrioCritical => 0,
        Priorities::PrioHigh => 1,
        Priorities::PrioNormal => 2,
        Priorities::PrioLow => 3,
    }
}

/// The priority a byte stands for: 0, 1 and 2 name the three highest
/// priorities, every other value is the lowest.
pub open spec fn priority_of(v: u8) -> Priorities {
    if v == 0 {
        Priorities::PrioCritical
    } else if v == 1 {
        Priorities::PrioHigh
    } else if v == 2 {
        Priorities::PrioNormal
    } else {
        Priorities::PrioLow
    }
}

impl Priorities {
    /// The two-bit wire value of this priority.
    pub fn bits(self) -> (r: u8)
        ensures
            r == priority_bits(self),
            r < 4,
    {
        match self {
            Priorities::PrioCritical => 0,
            Priorities::PrioHigh => 1,
            Priorities::PrioNormal => 2,
            Priorities::PrioLow => 3,
        }
    }
}

impl From<u8> for Priorities {
    fn from(orig: u8) -> (r: Priorities) {
        if orig == 0 {
            Priorities::PrioCritical
        } else if orig == 1 {
            Priorities::PrioHigh
        } else if orig == 2 {
            Priorities::PrioNormal
        } else {
            Priorities::PrioLow
        }
    }
}

impl vstd::std_specs::convert::FromSpecImpl<u8> for Priorities {
    open spec fn obeys_from_spec() -> bool {
        true
    }

    open spec fn from_spec(v: u8) -> Priorities {
        priority_of(v)
    }
}

/// The addressing header of a packet.
#[derive(Debug, Clone, Copy, PartialEq, Eq, Structural, Hash)]
pub struct Id {
    pub pri: Priorities,
    pub flags: u8,
    pub src: u8,
    pub dst: u8,
    pub dport: u8,
    pub sport: u8,
}

impl Id {
    /// Every field fits its width on the wire: five bits for the two
    /// addresses, six for the two ports (flags and priority always fit).
    pub open spec fn wf(&self) -> bool {
        &&& self.src < 32
        &&& self.dst < 32
        &&& self.dport < 64
        &&& self.sport < 64
    }

    /// The default identifier: lowest priority, every other field zero.
    pub open spec fn spec_new() -> Id {
        Id { pri: Priorities::PrioLow, flags: 0, src: 0, dst: 0, dport: 0, sport: 0 }
    }

    pub fn new() -> (r: Self)
        ensures
            r == Id::spec_new(),
    {
        Self { pri: Priorities::PrioLow, flags: 0, src: 0, dst: 0, dport: 0, sport: 0 }
    }

    pub fn pri(self, pri: Priorities) -> (r: Self)
        ensures
            r == (Id { pri, ..self }),
    {
        Id { pri, ..self }
    }

    pub fn flags(self, flags: u8) -> (r: Self)
        ensures
            r == (Id { flags, ..self }),
    {
        Id { flags, ..self }
    }

    pub fn src(self, src: u8) -> (r: Self)
        ensures
            r == (Id { src, ..self }),
    {
        Id { src, ..self }
    }

    pub fn dst(self, dst: u8) -> (r: Self)
        ensures
            r == (Id { dst, ..self }),
    {
        Id { dst, ..self }
    }

    pub fn dport(self, dport: u8) -> (r: Self)
        ensures
            r == (Id { dport, ..self }),
    {
        Id { dport, ..self }
    }

    pub fn sport(self, sport: u8) -> (r: Self)
        ensures
            r == (Id { sport, ..self }),
    {
        Id { sport, ..self }
    }
}

/// A datagram: its addressing header and its payload bytes.
#[derive(Clone, Debug)]
pub struct Packet {
    pub id: Id,
    pub data: Vec<u8>,
}

impl Packet {
    /// An empty packet under the default identifier.
    pub fn new() -> (r: Self)
        ensures
            r.id == Id::spec_new(),
            r.data@.len() == 0,
    {
        Self { id: Id::new(), data: Vec::new() }
    }

    pub fn id(self, id: Id) -> (r: Self)
        ensures
            r.id == id,
            r.data@ == self.data@,
    {
        let mut p = self;
        p.id = id;
        p
    }

    pub fn data(self, data: Vec<u8>) -> (r: Self)
        ensures
            r.id == self.id,
            r.data@ == data@,
    {
        let mut p = self;
        p.data = data;
        p
    }

    /// Appends the CRC-32C of the payload to the payload, most significant
    /// byte first.
    pub fn crc32_append(&mut self)
        ensures
            final(self).id == old(self).id,
            final(self).data@ == with_crc(old(self).data@),
    {
        crate::utils::push_crc32(&mut self.data);
    }
}

/// The CRC-32C checksum of the bytes.
pub fn csp_crc32_calc(data: &Vec<u8>) -> (r: u32)
    ensures
        r == crc32c_of(data@),
{
    crc32c(data.as_slice())
}

/// Hands `packet` to `iface` to send toward `via`, once, and returns what
/// the interface reports.
pub fn csp_send_direct_iface<Intf: NextHop>(
    _idout: &Id,
    packet: &mut Packet,
    iface: &mut Intf,
    via: u16,
    from_me: bool,
) -> (r: Result<(), Error>)
    ensures
        *final(iface) == *old(iface),
        old(iface).hop_outcome(via, *old(packet), from_me, *final(packet), r),
{
    iface.next_hop(via, packet, from_me)
}

/// A packet that came in on a link, with the record of that link.
#[derive(Debug)]
pub struct CspFIFO {
    pub iface: CspIface,
    pub packet: Packet,
}

/// Whether a connection may carry traffic.
#[derive(PartialEq, Eq, Structural, Debug, Hash, Clone, Copy)]
pub enum ConnState {
    ConnOpen,
    ConnClosed,
}

/// One logical conversation: its end identifiers, options and state.
#[derive(Hash, Debug, Clone, Copy)]
pub struct Connection {
    pub conn_type: ConnType,
    pub opts: u8,
    pub state: ConnState,
    pub idout: Id,
    pub idin: Id,
    pub timeout: u32,
}

impl Connection {
    /// A closed client connection with default identifiers.
    pub open spec fn spec_new() -> Connection {
        Connection {
            conn_type: ConnType::ConnClient,
            opts: 0,
            state: ConnState::ConnClosed,
            idout: Id::spec_new(),
            idin: Id::spec_new(),
            timeout: 0,
        }
    }

    pub fn new() -> (r: Self)
        ensures
            r == Connection::spec_new(),
    {
        Self {
            conn_type: ConnType::ConnClient,
            idout: Id::new(),
            idin: Id::new(),
            opts: 0,
            state: ConnState::ConnClosed,
            timeout: 0,
        }
    }

    /// The two connections are the same conversation: both are open client
    /// connections on the same incoming destination port.
    pub open spec fn matches(&self, other: &Connection) -> bool {
        &&& self.state == ConnState::ConnOpen
        &&& other.state == ConnState::ConnOpen
        &&& self.conn_type == ConnType::ConnClient
        &&& other.conn_type == ConnType::ConnClient
        &&& self.idin.dport == other.idin.dport
    }
}

impl PartialEq for Connection {
    fn eq(&self, other: &Connection) -> (r: bool) {
        self.state == ConnState::ConnOpen && other.state == ConnState::ConnOpen && self.conn_type
            == ConnType::ConnClient && other.conn_type == ConnType::ConnClient && self.idin.dport
            == other.idin.dport
    }
}

impl vstd::std_specs::cmp::PartialEqSpecImpl for Connection {
    open spec fn obeys_eq_spec() -> bool {
        true
    }

    open spec fn eq_spec(&self, other: &Connection) -> bool {
        self.matches(other)
    }
}

/// What a send or a read reports when it cannot be done.
#[derive(Debug, Clone, Copy, PartialEq, Eq, Structural)]
pub enum Error {
    /// The connection is not open.
    CspConnectionClosed,
    /// A frame ended before it could hold a header and a checksum.
    CspFramingError,
    /// A frame's checksum trailer does not match its payload.
    CspChecksumError,
    /// Nothing arrived in time.
    CspNoPacket,
    /// The link could not read or write.
    CspTransportError,
    /// No interface is there to carry the packet.
    CspInterfaceUnavailable,
}

/// The well-known service ports.
#[derive(Debug, Clone, Copy, PartialEq, Eq, Structural)]
pub enum Services {
    CMP,
    Ping,
    Ps,
    MemFree,
    Reboot,
    BufFree,
    Uptime,
}

impl Services {
    pub open spec fn spec_port(self) -> u8 {
        match self {
            Services::CMP => 0,
            Services::Ping => 1,
            Services::Ps => 2,
            Services::MemFree => 3,
            Services::Reboot => 4,
            Services::BufFree => 5,
            Services::Uptime => 6,
        }
    }

    /// The port number the service listens on.
    pub fn port(self) -> (r: u8)
        ensures
            r == self.spec_port(),
    {
        match self {
            Services::CMP => 0,
            Services::Ping => 1,
            Services::Ps => 2,
            Services::MemFree => 3,
            Services::Reboot => 4,
            Services::BufFree => 5,
            Services::Uptime => 6,
        }
    }
}

} // verus!
