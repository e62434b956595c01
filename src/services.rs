//! Built-in services.
use vstd::prelude::*;
use crate::csp::CSP;
use crate::interface::NextHop;
use crate::csp::CSP_DIRECT_VIA;
use crate::io::{connect_idout, csp_connect};
use crate::types::{Error, Packet, Priorities, Services};

verus! {

impl<I: NextHop> CSP<I> {
    /// Sends a ping to `node`: an empty packet, at normal priority, to the
    /// ping service port. Fails when there is no interface to send it on;
    /// otherwise returns what the interface reports.
    pub fn csp_ping(&self, node: u16, timeout: u32, conn_options: u8) -> (r: Result<(), Error>)
        ensures
            self.interfaces().len() == 0 ==> r == Err::<(), Error>(Error::CspInterfaceUnavailable),
            self.interfaces().len() > 0 ==> exists|before: Packet, after: Packet|
                before.id == connect_idout(Priorities::PrioNormal, node, Services::Ping.spec_port())
                    && before.data@.len() == 0 && #[trigger] self.interfaces()[0].hop_outcome(
                    CSP_DIRECT_VIA,
                    before,
                    true,
                    after,
                    r,
                ),
    {
        let mut conn = match csp_connect(
            Priorities::PrioNormal,
            node,
            Services::Ping.port(),
            timeout,
            conn_options,
        ) {
            Ok(c) => c,
            Err(e) => {
                return Err(e);
            },
        };
        let mut packet = Packet::new().id(conn.idout);
        let ghost before = packet;
        let r = self.csp_send(&mut conn, &mut packet);
        proof {
            if self.interfaces().len() > 0 {
                assert(self.interfaces()[0].hop_outcome(CSP_DIRECT_VIA, before, true, packet, r));
            }
        }
        r
    }
}

} // verus!
