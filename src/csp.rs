//! The router: the set of interfaces, the funnel that every link feeds
//! with the packets it receives, and the queue the application reads from.
use vstd::prelude::*;
use crate::interface::NextHop;
use crate::qfifo::{CspQueue, CSP_QUEUE_LENGTH};
use crate::types::{ConnState, Connection, CspFIFO, Error, Packet};

verus! {

/// The next-hop hint given to the interface a direct send goes through.
pub const CSP_DIRECT_VIA: u16 = 2;

/// Links -> interfaces -> routing -> application (`csp_read`);
/// application (`csp_send`) -> routing -> interfaces -> links.
pub struct CSP<I: NextHop> {
    intf_list: Vec<I>,
    inbound: CspQueue<CspFIFO>,
    app_rx: CspQueue<Packet>,
}

impl<I: NextHop> CSP<I> {
    /// The registered interfaces, in the order they were added.
    pub closed spec fn interfaces(&self) -> Seq<I> {
        self.intf_list@
    }

    /// What the links handed in and routing has not taken yet.
    pub closed spec fn inbound(&self) -> Seq<CspFIFO> {
        self.inbound@
    }

    /// What routing delivered and the application has not read yet.
    pub closed spec fn delivered(&self) -> Seq<Packet> {
        self.app_rx@
    }

    /// Both queues hold at most `CSP_QUEUE_LENGTH` entries.
    pub closed spec fn wf(&self) -> bool {
        &&& self.inbound.wf()
        &&& self.app_rx.wf()
        &&& self.inbound.spec_capacity() == CSP_QUEUE_LENGTH
        &&& self.app_rx.spec_capacity() == CSP_QUEUE_LENGTH
    }

    /// A router with no interface and empty queues.
    pub fn new() -> (r: Self)
        ensures
            r.wf(),
            r.interfaces() == Seq::<I>::empty(),
            r.inbound() == Seq::<CspFIFO>::empty(),
            r.delivered() == Seq::<Packet>::empty(),
    {
        CSP {
            intf_list: Vec::new(),
            inbound: CspQueue::new(CSP_QUEUE_LENGTH),
            app_rx: CspQueue::new(CSP_QUEUE_LENGTH),
        }
    }

    pub fn add_interface(&mut self, intf: I)
        ensures
            final(self).interfaces() == old(self).interfaces().push(intf),
            final(self).inbound() == old(self).inbound(),
            final(self).delivered() == old(self).delivered(),
            old(self).wf() ==> final(self).wf(),
    {
        self.intf_list.push(intf);
    }

    /// Sends `packet` on `conn`: a closed connection fails at once and no
    /// interface is used; else the packet goes out as `csp_send_direct`
    /// sends it.
    pub fn csp_send(&self, conn: &mut Connection, packet: &mut Packet) -> (r: Result<(), Error>)
        ensures
            *final(conn) == *old(conn),
            old(conn).state != ConnState::ConnOpen ==> r == Err::<(), Error>(
                Error::CspConnectionClosed,
            ) && *final(packet) == *old(packet),
            old(conn).state == ConnState::ConnOpen && self.interfaces().len() == 0 ==> r == Err::<
                (),
                Error,
            >(Error::CspInterfaceUnavailable) && *final(packet) == *old(packet),
            old(conn).state == ConnState::ConnOpen && self.interfaces().len() > 0 ==> self.interfaces()[0].hop_outcome(
                CSP_DIRECT_VIA,
                *old(packet),
                true,
                *final(packet),
                r,
            ),
    {
        if conn.state != ConnState::ConnOpen {
            return Err(Error::CspConnectionClosed);
        }
        self.csp_send_direct(conn, packet)
    }

    /// Hands `packet` to the first registered interface, as made on this
    /// node, and returns what the interface reports; with no interface it
    /// fails and the packet stays as it is.
    pub fn csp_send_direct(&self, _conn: &mut Connection, packet: &mut Packet) -> (r: Result<
        (),
        Error,
    >)
        ensures
            *final(_conn) == *old(_conn),
            self.interfaces().len() == 0 ==> r == Err::<(), Error>(Error::CspInterfaceUnavailable)
                && *final(packet) == *old(packet),
            self.interfaces().len() > 0 ==> self.interfaces()[0].hop_outcome(
                CSP_DIRECT_VIA,
                *old(packet),
                true,
                *final(packet),
                r,
            ),
    {
        let from_me = true;
        if self.intf_list.len() == 0 {
            return Err(Error::CspInterfaceUnavailable);
        }
        self.intf_list[0].next_hop(CSP_DIRECT_VIA, packet, from_me)
    }

    /// A link hands in a packet it received. When the funnel is full the
    /// entry is handed back and nothing changes: the link waits and offers
    /// it again.
    pub fn csp_qfifo_write(&mut self, entry: CspFIFO) -> (r: Result<(), CspFIFO>)
        requires
            old(self).wf(),
        ensures
            final(self).wf(),
            final(self).interfaces() == old(self).interfaces(),
            final(self).delivered() == old(self).delivered(),
            old(self).inbound().len() < CSP_QUEUE_LENGTH ==> r is Ok && final(self).inbound() == old(
                self,
            ).inbound().push(entry),
            old(self).inbound().len() >= CSP_QUEUE_LENGTH ==> r == Err::<(), CspFIFO>(entry)
                && final(self).inbound() == old(self).inbound(),
    {
        self.inbound.push(entry)
    }

    /// One step of routing: moves the oldest packet of the funnel to the
    /// application's queue. Does nothing, and returns false, when the funnel
    /// is empty or the application's queue is full.
    pub fn csp_route_work(&mut self) -> (r: bool)
        requires
            old(self).wf(),
        ensures
            final(self).wf(),
            final(self).interfaces() == old(self).interfaces(),
            r == (old(self).inbound().len() > 0 && old(self).delivered().len() < CSP_QUEUE_LENGTH),
            r ==> final(self).inbound() == old(self).inbound().drop_first() && final(self).delivered()
                == old(self).delivered().push(old(self).inbound()[0].packet),
            !r ==> final(self).inbound() == old(self).inbound() && final(self).delivered() == old(
                self,
            ).delivered(),
    {
        if self.app_rx.is_full() {
            return false;
        }
        match self.inbound.pop() {
            None => false,
            Some(entry) => match self.app_rx.push(entry.packet) {
                Ok(()) => true,
                Err(_) => false,
            },
        }
    }

    /// Takes the oldest delivered packet; when there is none, reports that
    /// no packet came.
    pub fn csp_read(&mut self) -> (r: Result<Packet, Error>)
        requires
            old(self).wf(),
        ensures
            final(self).wf(),
            final(self).interfaces() == old(self).interfaces(),
            final(self).inbound() == old(self).inbound(),
            old(self).delivered().len() == 0 ==> r == Err::<Packet, Error>(Error::CspNoPacket)
                && final(self).delivered() == old(self).delivered(),
            old(self).delivered().len() > 0 ==> r == Ok::<Packet, Error>(old(self).delivered()[0])
                && final(self).delivered() == old(self).delivered().drop_first(),
    {
        match self.app_rx.pop() {
            Some(p) => Ok(p),
            None => Err(Error::CspNoPacket),
        }
    }
}

} // verus!
