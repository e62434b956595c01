//! Connection-level send, read and connect, for code that holds a
//! connection but no router.
use vstd::prelude::*;
use crate::conn::ConnType;
use crate::interface::NextHop;
use crate::types::{ConnState, Connection, Error, Id, Packet, Priorities};

verus! {

/// Hands `packet` to `iface` to send toward `via`, once, and returns what
/// the interface reports; a nonzero `from_me`
/// marks the packet as made on this node.
pub fn csp_send_direct_iface<Intf: NextHop>(
    _idout: &Id,
    packet: &mut Packet,
    iface: &mut Intf,
    via: u16,
    from_me: u32,
) -> (r: Result<(), Error>)
    ensures
        *final(iface) == *old(iface),
        old(iface).hop_outcome(via, *old(packet), from_me != 0, *final(packet), r),
{
    iface.next_hop(via, packet, from_me != 0)
}

/// Sends `packet` on `conn`: a closed connection fails at once, else the
/// packet goes out as `csp_send_direct` sends it.
pub fn csp_send(conn: &mut Connection, packet: &mut Packet) -> (r: Result<(), Error>)
    ensures
        *final(conn) == *old(conn),
        *final(packet) == *old(packet),
        old(conn).state != ConnState::ConnOpen ==> r == Err::<(), Error>(Error::CspConnectionClosed),
        old(conn).state == ConnState::ConnOpen ==> r == Err::<(), Error>(
            Error::CspInterfaceUnavailable,
        ),
{
    if conn.state != ConnState::ConnOpen {
        return Err(Error::CspConnectionClosed);
    }
    csp_send_direct(conn, packet)
}

/// Without a router no interface is registered, so a direct send always
/// reports that none is there; `CSP::csp_send_direct` is the one that
/// reaches a link.
pub fn csp_send_direct(_conn: &mut Connection, _packet: &mut Packet) -> (r: Result<(), Error>)
    ensures
        *final(_conn) == *old(_conn),
        *final(_packet) == *old(_packet),
        r == Err::<(), Error>(Error::CspInterfaceUnavailable),
{
    Err(Error::CspInterfaceUnavailable)
}

/// Reads from `conn`: a closed connection fails at once; without a router
/// nothing can arrive, so an open one reports that no packet came.
pub fn csp_read(conn: &mut Connection, _timeout: u32) -> (r: Result<Packet, Error>)
    ensures
        *final(conn) == *old(conn),
        old(conn).state != ConnState::ConnOpen ==> r == Err::<Packet, Error>(
            Error::CspConnectionClosed,
        ),
        old(conn).state == ConnState::ConnOpen ==> r == Err::<Packet, Error>(Error::CspNoPacket),
{
    if conn.state != ConnState::ConnOpen {
        return Err(Error::CspConnectionClosed);
    }
    Err(Error::CspNoPacket)
}

/// The remote identifier `csp_connect` gives a connection: the priority,
/// the destination address and port cut down to their widths, every other
/// field zero.
pub open spec fn connect_idout(prio: Priorities, dest: u16, dport: u8) -> Id {
    Id {
        pri: prio,
        flags: 0,
        src: 0,
        dst: (dest & 0x1Fu16) as u8,
        dport: dport & 0x3Fu8,
        sport: 0,
    }
}

/// Opens a client connection to port `dport` of node `dest`. Setting up a
/// connection is local bookkeeping: it never waits and never fails.
pub fn csp_connect(prio: Priorities, dest: u16, dport: u8, timeout: u32, opts: u8) -> (r: Result<
    Connection,
    Error,
>)
    ensures
        r == Ok::<Connection, Error>(
            Connection {
                conn_type: ConnType::ConnClient,
                opts,
                state: ConnState::ConnOpen,
                idout: connect_idout(prio, dest, dport),
                idin: Id::spec_new(),
                timeout,
            },
        ),
        r->Ok_0.idout.wf(),
{
    let d = dest & 0x1F;
    assert(d < 32) by (bit_vector)
        requires
            d == dest & 0x1Fu16,
    ;
    let p = dport & 0x3F;
    assert(p < 64) by (bit_vector)
        requires
            p == dport & 0x3Fu8,
    ;
    let idout = Id { pri: prio, flags: 0, src: 0, dst: d as u8, dport: p, sport: 0 };
    Ok(
        Connection {
            conn_type: ConnType::ConnClient,
            opts,
            state: ConnState::ConnOpen,
            idout,
            idin: Id::new(),
            timeout,
        },
    )
}

} // verus!
