use std::cell::Cell;
use std::rc::Rc;

use csp::conn::{Conn, ConnStatus, ConnType};
use csp::csp::CSP;
use csp::interface::{CspIface, NextHop};
use csp::io::{csp_connect, csp_read, csp_send, csp_send_direct_iface};
use csp::qfifo::CspQueue;
use csp::types::{ConnState, Connection, CspFIFO, Error, Id, Packet, Priorities};

struct Spy {
    calls: Rc<Cell<usize>>,
    last_via: Rc<Cell<u16>>,
    fail: bool,
}

impl NextHop for Spy {
    fn next_hop(&self, via: u16, packet: &mut Packet, from_me: bool) -> Result<(), Error> {
        assert!(from_me);
        self.calls.set(self.calls.get() + 1);
        self.last_via.set(via);
        packet.data.push(0xEE);
        if self.fail {
            Err(Error::CspTransportError)
        } else {
            Ok(())
        }
    }
}

fn spy(fail: bool) -> (Spy, Rc<Cell<usize>>, Rc<Cell<u16>>) {
    let calls = Rc::new(Cell::new(0));
    let via = Rc::new(Cell::new(0));
    (Spy { calls: calls.clone(), last_via: via.clone(), fail }, calls, via)
}

fn entry(byte: u8) -> CspFIFO {
    CspFIFO { iface: CspIface::new(1, 8, "KISS".to_string()), packet: Packet::new().data(vec![byte]) }
}

#[test]
fn closed_connection_send_touches_no_interface() {
    let (s, calls, _) = spy(false);
    let mut router = CSP::new();
    router.add_interface(s);
    let mut conn = Connection::new();
    let mut pkt = Packet::new().data(vec![1, 2, 3]);
    assert_eq!(router.csp_send(&mut conn, &mut pkt), Err(Error::CspConnectionClosed));
    assert_eq!(calls.get(), 0);
    assert_eq!(pkt.data, vec![1, 2, 3]);
}

#[test]
fn closed_connection_read_fails() {
    let mut conn = Connection::new();
    assert_eq!(csp_read(&mut conn, 100).unwrap_err(), Error::CspConnectionClosed);
    conn.state = ConnState::ConnOpen;
    assert_eq!(csp_read(&mut conn, 100).unwrap_err(), Error::CspNoPacket);
}

#[test]
fn open_connection_sends_through_first_interface() {
    let (first, calls1, via) = spy(false);
    let (second, calls2, _) = spy(false);
    let mut router = CSP::new();
    router.add_interface(first);
    router.add_interface(second);
    let mut conn = Connection::new();
    conn.state = ConnState::ConnOpen;
    let mut pkt = Packet::new().data(vec![1]);
    assert_eq!(router.csp_send(&mut conn, &mut pkt), Ok(()));
    assert_eq!((calls1.get(), calls2.get()), (1, 0));
    assert_eq!(via.get(), 2);
}

#[test]
fn interface_failure_is_the_send_failure() {
    let (s, calls, _) = spy(true);
    let mut router = CSP::new();
    router.add_interface(s);
    let mut conn = Connection::new();
    conn.state = ConnState::ConnOpen;
    let mut pkt = Packet::new();
    assert_eq!(router.csp_send(&mut conn, &mut pkt), Err(Error::CspTransportError));
    assert_eq!(calls.get(), 1);
}

#[test]
fn send_without_interface_is_unavailable() {
    let router: CSP<Spy> = CSP::new();
    let mut conn = Connection::new();
    conn.state = ConnState::ConnOpen;
    let mut pkt = Packet::new();
    assert_eq!(router.csp_send(&mut conn, &mut pkt), Err(Error::CspInterfaceUnavailable));
    assert_eq!(csp_send(&mut conn, &mut pkt), Err(Error::CspInterfaceUnavailable));
    conn.state = ConnState::ConnClosed;
    assert_eq!(csp_send(&mut conn, &mut pkt), Err(Error::CspConnectionClosed));
}

#[test]
fn ping_goes_through_the_interface() {
    let (s, calls, _) = spy(false);
    let mut router = CSP::new();
    assert_eq!(router.csp_ping(5, 100, 0), Err(Error::CspInterfaceUnavailable));
    router.add_interface(s);
    assert_eq!(router.csp_ping(5, 100, 0), Ok(()));
    assert_eq!(calls.get(), 1);
}

#[test]
fn send_direct_iface_calls_the_interface() {
    let (mut s, calls, via) = spy(false);
    let mut pkt = Packet::new();
    assert_eq!(csp_send_direct_iface(&Id::new(), &mut pkt, &mut s, 9, 1), Ok(()));
    assert_eq!(calls.get(), 1);
    assert_eq!(via.get(), 9);
    assert_eq!(csp::types::csp_send_direct_iface(&Id::new(), &mut pkt, &mut s, 3, true), Ok(()));
    assert_eq!(calls.get(), 2);
}

#[test]
fn bounded_queue_refuses_the_item_past_capacity() {
    let n = 16;
    let mut q: CspQueue<u32> = CspQueue::new(n);
    for i in 0..n as u32 {
        assert_eq!(q.push(i), Ok(()));
    }
    assert!(q.is_full());
    assert_eq!(q.push(99), Err(99));
    assert_eq!(q.len(), n);
    for i in 0..n as u32 {
        assert_eq!(q.pop(), Some(i));
    }
    assert_eq!(q.pop(), None);
}

#[test]
fn router_funnel_backpressure() {
    let mut router: CSP<Spy> = CSP::new();
    for i in 0..16u8 {
        assert!(router.csp_qfifo_write(entry(i)).is_ok());
    }
    let refused = router.csp_qfifo_write(entry(200)).unwrap_err();
    assert_eq!(refused.packet.data, vec![200]);
    assert!(router.csp_route_work());
    assert!(router.csp_qfifo_write(entry(201)).is_ok());
}

#[test]
fn routing_delivers_in_order_and_read_reports_no_packet() {
    let mut router: CSP<Spy> = CSP::new();
    assert_eq!(router.csp_read().unwrap_err(), Error::CspNoPacket);
    assert!(!router.csp_route_work());
    router.csp_qfifo_write(entry(1)).unwrap();
    router.csp_qfifo_write(entry(2)).unwrap();
    assert!(router.csp_route_work());
    assert!(router.csp_route_work());
    assert!(!router.csp_route_work());
    assert_eq!(router.csp_read().unwrap().data, vec![1]);
    assert_eq!(router.csp_read().unwrap().data, vec![2]);
    assert_eq!(router.csp_read().unwrap_err(), Error::CspNoPacket);
}

#[test]
fn routing_waits_when_application_queue_is_full() {
    let mut router: CSP<Spy> = CSP::new();
    for round in 0..17u8 {
        router.csp_qfifo_write(entry(round)).unwrap();
        if round < 16 {
            assert!(router.csp_route_work());
        } else {
            assert!(!router.csp_route_work());
        }
    }
    assert_eq!(router.csp_read().unwrap().data, vec![0]);
    assert!(router.csp_route_work());
}

#[test]
fn connect_opens_a_client_connection() {
    let c = csp_connect(Priorities::PrioHigh, 0x125, 0x47, 500, 3).unwrap();
    assert_eq!(c.state, ConnState::ConnOpen);
    assert_eq!(c.conn_type, ConnType::ConnClient);
    assert_eq!(c.idout.pri, Priorities::PrioHigh);
    assert_eq!(c.idout.dst, 0x05);
    assert_eq!(c.idout.dport, 0x07);
    assert_eq!(c.timeout, 500);
    assert_eq!(c.opts, 3);
}

#[test]
fn interface_record_defaults() {
    let i = CspIface::new(12, 5, "KISS".to_string());
    assert_eq!((i.addr, i.netmask, i.mtu), (12, 5, 255));
    assert_eq!(i.name, "KISS");
    assert_eq!((i.tx, i.rx, i.drop, i.irq), (0, 0, 0, 0));
}

#[test]
fn connection_table() {
    let table = Conn::new();
    let idin = Id::new().dport(4);
    let idout = Id::new().dst(9);
    let s = table.get(idin, idout, ConnType::ConnServer);
    assert_eq!(s.state, ConnState::ConnOpen);
    assert_eq!(s.conn_type, ConnType::ConnServer);
    assert_eq!(s.idin, idin);
    assert_eq!(s.idout, idout);
    let fresh = ConnStatus::new();
    assert_eq!(fresh.state, ConnState::ConnClosed);
    assert_eq!(fresh.rx_queue.capacity(), 16);
}
