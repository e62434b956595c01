//! The connection table.
use vstd::prelude::*;
use crate::qfifo::{CspQueue, CSP_QUEUE_LENGTH};
use crate::types::{ConnState, CspFIFO, Id};

verus! {

/// How many connections the table holds.
pub const CSP_CONN_MAX: usize = 16;

/// The first source port handed to an outgoing connection.
pub const CSP_CONN_SPORT_FIRST: u8 = 16;

/// Which side opened a connection.
#[derive(Debug, PartialEq, Eq, Structural, Hash, Clone, Copy)]
pub enum ConnType {
    ConnClient,
    ConnServer,
}

/// A slot of the connection table, with the queue of packets that arrived
/// for it.
pub struct ConnStatus {
    pub conn_type: ConnType,
    pub state: ConnState,
    pub idin: Id,
    pub idout: Id,
    pub sport_out: u8,
    pub timestamp: u32,
    pub opts: u32,
    pub rx_queue: CspQueue<CspFIFO>,
}

impl ConnStatus {
    /// A closed client slot with default identifiers and an empty queue.
    pub open spec fn is_fresh(&self) -> bool {
        &&& self.conn_type == ConnType::ConnClient
        &&& self.state == ConnState::ConnClosed
        &&& self.idin == Id::spec_new()
        &&& self.idout == Id::spec_new()
        &&& self.sport_out == 0
        &&& self.timestamp == 0
        &&& self.opts == 0
        &&& self.rx_queue@ == Seq::<CspFIFO>::empty()
        &&& self.rx_queue.spec_capacity() == CSP_QUEUE_LENGTH
    }

    pub fn new() -> (r: Self)
        ensures
            r.is_fresh(),
            r.rx_queue.wf(),
    {
        Self {
            conn_type: ConnType::ConnClient,
            state: ConnState::ConnClosed,
            idin: Id::new(),
            idout: Id::new(),
            sport_out: 0,
            timestamp: 0,
            opts: 0,
            rx_queue: CspQueue::new(CSP_QUEUE_LENGTH),
        }
    }
}

/// The connection table.
pub struct Conn {
    arr_conn: Vec<ConnStatus>,
}

impl Conn {
    pub closed spec fn slots(&self) -> Seq<ConnStatus> {
        self.arr_conn@
    }

    /// A table of `CSP_CONN_MAX` closed slots; slot `i` sends from port
    /// `CSP_CONN_SPORT_FIRST + i`.
    pub fn new() -> (r: Self)
        ensures
            r.slots().len() == CSP_CONN_MAX,
            forall|i: int|
                0 <= i < CSP_CONN_MAX ==> {
                    let c = #[trigger] r.slots()[i];
                    &&& c.state == ConnState::ConnClosed
                    &&& c.conn_type == ConnType::ConnClient
                    &&& c.idin == Id::spec_new()
                    &&& c.idout == Id::spec_new()
                    &&& c.sport_out == CSP_CONN_SPORT_FIRST + i
                    &&& c.rx_queue@ == Seq::<CspFIFO>::empty()
                    &&& c.rx_queue.spec_capacity() == CSP_QUEUE_LENGTH
                },
    {
        let mut ret_val = Conn { arr_conn: Vec::new() };
        let mut i: u8 = 0;
        while (i as usize) < CSP_CONN_MAX
            invariant
                i <= CSP_CONN_MAX,
                ret_val.arr_conn@.len() == i,
                forall|j: int|
                    0 <= j < i ==> {
                        let c = #[trigger] ret_val.arr_conn@[j];
                        &&& c.state == ConnState::ConnClosed
                        &&& c.conn_type == ConnType::ConnClient
                        &&& c.idin == Id::spec_new()
                        &&& c.idout == Id::spec_new()
                        &&& c.sport_out == CSP_CONN_SPORT_FIRST + j
                        &&& c.rx_queue@ == Seq::<CspFIFO>::empty()
                        &&& c.rx_queue.spec_capacity() == CSP_QUEUE_LENGTH
                    },
            decreases CSP_CONN_MAX - i,
        {
            let mut a = ConnStatus::new();
            a.sport_out = CSP_CONN_SPORT_FIRST + i;
            ret_val.arr_conn.push(a);
            i = i + 1;
        }
        ret_val
    }

    /// A slot for a conversation of the given type and identifiers, open
    /// and with an empty queue.
    pub fn get(self, idin: Id, idout: Id, typ: ConnType) -> (r: ConnStatus)
        ensures
            r.conn_type == typ,
            r.state == ConnState::ConnOpen,
            r.idin == idin,
            r.idout == idout,
            r.sport_out == 0 && r.timestamp == 0 && r.opts == 0,
            r.rx_queue@ == Seq::<CspFIFO>::empty(),
            r.rx_queue.spec_capacity() == CSP_QUEUE_LENGTH,
            r.rx_queue.wf(),
    {
        let mut cspconn = ConnStatus::new();
        cspconn.conn_type = typ;
        cspconn.state = ConnState::ConnOpen;
        cspconn.idin = idin;
        cspconn.idout = idout;
        cspconn
    }
}

} // verus!
