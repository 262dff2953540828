//! A scripted transport for tests.
use vstd::prelude::*;
use super::transport::{Transport, TransportError};

verus! {

/// A scripted link for tests: it records what is sent and plays back queued packets.
pub struct MockTransport {
    /// Every packet sent, oldest first.
    pub sent_data: Vec<Vec<u8>>,
    /// Packets returned by `receive`, in FIFO order.
    pub received_data: Vec<Vec<u8>>,
    /// A failure that the next `receive` reports instead of a packet.
    pub receive_error: Option<TransportError>,
}

impl MockTransport {
    /// The sent packets, each taken by its bytes.
    pub open spec fn sent_packets(&self) -> Seq<Seq<u8>> {
        self.sent_data@.map_values(|p: Vec<u8>| p@)
    }

    /// The queued packets, each taken by its bytes.
    pub open spec fn queued_packets(&self) -> Seq<Seq<u8>> {
        self.received_data@.map_values(|p: Vec<u8>| p@)
    }

    pub fn new() -> (t: Self)
        ensures
            t.sent_data@.len() == 0,
            t.received_data@.len() == 0,
            t.receive_error is None,
    {
        MockTransport { sent_data: Vec::new(), received_data: Vec::new(), receive_error: None }
    }

    /// Queues a packet for a later `receive`.
    pub fn queue_received(&mut self, data: Vec<u8>)
        ensures
            final(self).received_data@ == old(self).received_data@.push(data),
            final(self).sent_data == old(self).sent_data,
            final(self).receive_error == old(self).receive_error,
    {
        self.received_data.push(data);
    }

    /// Makes the next `receive` fail with `error`.
    pub fn fail_receive(&mut self, error: TransportError)
        ensures
            final(self).receive_error == Some(error),
            final(self).sent_data == old(self).sent_data,
            final(self).received_data == old(self).received_data,
    {
        self.receive_error = Some(error);
    }
}

impl Transport for MockTransport {
    fn send(&mut self, data: &[u8]) -> (res: Result<(), TransportError>)
        ensures
            res is Ok,
            final(self).sent_data@.len() == old(self).sent_data@.len() + 1,
            final(self).sent_data@.drop_last() == old(self).sent_data@,
            final(self).sent_data@.last()@ == data@,
            final(self).sent_packets() == old(self).sent_packets().push(data@),
            final(self).received_data == old(self).received_data,
            final(self).receive_error == old(self).receive_error,
    {
        let ghost before = self.sent_data@;
        self.sent_data.push(vstd::slice::slice_to_vec(data));
        assert(self.sent_data@.drop_last() =~= before);
        assert(self.sent_packets() =~= before.map_values(|p: Vec<u8>| p@).push(data@));
        Ok(())
    }

    fn receive(&mut self) -> (res: Result<Vec<u8>, TransportError>)
        ensures
            old(self).receive_error matches Some(e) ==> {
                &&& res == Err::<Vec<u8>, TransportError>(e)
                &&& final(self).receive_error is None
                &&& final(self).received_data == old(self).received_data
            },
            old(self).receive_error is None && old(self).received_data@.len() == 0 ==> {
                &&& res matches Ok(p) && p@.len() == 0
                &&& final(self).received_data == old(self).received_data
                &&& final(self).receive_error is None
            },
            old(self).receive_error is None && old(self).received_data@.len() > 0 ==> {
                &&& res == Ok::<Vec<u8>, TransportError>(old(self).received_data@[0])
                &&& final(self).received_data@ == old(self).received_data@.remove(0)
                &&& final(self).receive_error is None
            },
            final(self).sent_data == old(self).sent_data,
    {
        if let Some(error) = self.receive_error.take() {
            return Err(error);
        }
        let packet = if self.received_data.is_empty() {
            Vec::new()
        } else {
            self.received_data.remove(0)
        };
        Ok(packet)
    }
}

} // verus!
