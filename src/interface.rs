//! The interface abstraction: a link's record and the capability to send
//! a packet out of it.
use vstd::prelude::*;
use crate::types::{Error, Packet};

verus! {

/// The largest transmission unit a new interface is given.
pub const CSP_DEFAULT_MTU: u16 = 255;

/// The record every link keeps: its address, name and counters.
#[derive(Clone, Debug)]
pub struct CspIface {
    pub addr: u16,
    pub netmask: u16,
    pub name: String,
    pub mtu: u16,
    pub split_horizon_off: u8,
    pub tx: u32,
    pub rx: u32,
    pub tx_error: u32,
    pub rx_error: u32,
    pub drop: u32,
    pub autherr: u32,
    pub frame: u32,
    pub txbytes: u32,
    pub rxbytes: u32,
    pub irq: u32,
}

/// A link that can carry a packet toward its next hop.
pub trait NextHop {
    /// What a link may do when asked to send `before` toward `via`: leave
    /// the packet as `after` and report `r`. A link that states nothing of
    /// itself allows any outcome.
    open spec fn hop_outcome(
        &self,
        via: u16,
        before: Packet,
        from_me: bool,
        after: Packet,
        r: Result<(), Error>,
    ) -> bool {
        true
    }

    /// Sends `packet` out of this link toward `via`; `from_me` tells
    /// whether the packet was made on this node.
    fn next_hop(&self, via: u16, packet: &mut Packet, from_me: bool) -> (r: Result<(), Error>)
        ensures
            self.hop_outcome(via, *old(packet), from_me, *final(packet), r),
    ;
}

impl CspIface {
    /// A record with the given address, netmask and name, the default MTU,
    /// split horizon on, and every counter at zero.
    pub fn new(addr: u16, netmask: u16, name: String) -> (r: CspIface)
        ensures
            r.addr == addr,
            r.netmask == netmask,
            r.name@ == name@,
            r.mtu == CSP_DEFAULT_MTU,
            r.split_horizon_off == 0,
            r.tx == 0 && r.rx == 0 && r.tx_error == 0 && r.rx_error == 0 && r.drop == 0,
            r.autherr == 0 && r.frame == 0 && r.txbytes == 0 && r.rxbytes == 0 && r.irq == 0,
    {
        Self {
            addr,
            netmask,
            name,
            mtu: CSP_DEFAULT_MTU,
            split_horizon_off: 0,
            tx: 0,
            rx: 0,
            tx_error: 0,
            rx_error: 0,
            drop: 0,
            autherr: 0,
            frame: 0,
            txbytes: 0,
            rxbytes: 0,
            irq: 0,
        }
    }
}

} // verus!
