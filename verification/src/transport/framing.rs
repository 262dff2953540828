//! Receiving one PTP container over a link that delivers it in pieces: the 12-byte header
//! first, which declares the container's length, then the rest in chunks.
use vstd::prelude::*;
use super::transport::TransportError;
use crate::ptp::bytes;

verus! {

/// The length of a container header.
pub const HEADER_LEN: usize = 12;

/// The largest container that a link accepts (1 MiB).
pub const MAX_CONTAINER: usize = 1024 * 1024;

/// The container length that a header declares, when the header is complete and the
/// length is one that a link accepts.
pub open spec fn declared_length(header: Seq<u8>) -> Option<nat> {
    if header.len() < 12 {
        None
    } else {
        let length = bytes::u32_at(header, 0) as nat;
        if 12 <= length <= MAX_CONTAINER {
            Some(length)
        } else {
            None
        }
    }
}

/// `s` cut or padded with zeros to `n` bytes.
pub open spec fn resized(s: Seq<u8>, n: nat) -> Seq<u8> {
    Seq::new(n, |i: int| if i < s.len() { s[i] } else { 0u8 })
}

/// A container being received: its declared length, the bytes so far (zero beyond them),
/// and how many bytes have arrived.
pub struct IncomingPacket {
    packet: Vec<u8>,
    length: usize,
    offset: usize,
}

impl IncomingPacket {
    pub closed spec fn bytes(&self) -> Seq<u8> {
        self.packet@
    }

    pub closed spec fn length(&self) -> nat {
        self.length as nat
    }

    pub closed spec fn received(&self) -> nat {
        self.offset as nat
    }

    pub closed spec fn wf(&self) -> bool {
        &&& self.packet@.len() == self.length
        &&& 12 <= self.offset <= self.length <= MAX_CONTAINER
    }

    /// Starts a container from its header.
    pub fn start(header: &[u8]) -> (res: Result<Self, TransportError>)
        ensures
            match declared_length(header@) {
                None => res == Err::<Self, TransportError>(TransportError::ReceiveError),
                Some(n) => res matches Ok(p) && p.wf() && p.length() == n && p.received() == 12
                    && p.bytes() == resized(header@, n),
            },
    {
        if header.len() < HEADER_LEN {
            return Err(TransportError::ReceiveError);
        }
        let length = bytes::read_u32_le(header, 0) as usize;
        if !(12 <= length && length <= MAX_CONTAINER) {
            return Err(TransportError::ReceiveError);
        }
        let mut packet: Vec<u8> = Vec::new();
        let mut i: usize = 0;
        while i < length
            invariant
                length <= MAX_CONTAINER,
                0 <= i <= length,
                packet@ == resized(header@, length as nat).take(i as int),
            decreases length - i,
        {
            let b = if i < header.len() { header[i] } else { 0 };
            packet.push(b);
            assert(packet@ =~= resized(header@, length as nat).take(i + 1));
            i = i + 1;
        }
        assert(packet@ =~= resized(header@, length as nat));
        Ok(IncomingPacket { packet, length, offset: HEADER_LEN })
    }

    /// How many bytes are still to come.
    pub fn remaining(&self) -> (n: usize)
        requires
            self.wf(),
        ensures
            n == self.length() - self.received(),
    {
        self.length - self.offset
    }

    pub fn is_complete(&self) -> (b: bool)
        requires
            self.wf(),
        ensures
            b == (self.received() == self.length()),
    {
        self.offset == self.length
    }

    /// Takes the next chunk of the container. An empty chunk means the link stopped
    /// delivering.
    pub fn add_chunk(&mut self, chunk: &[u8]) -> (res: Result<(), TransportError>)
        requires
            old(self).wf(),
            chunk@.len() <= old(self).length() - old(self).received(),
        ensures
            final(self).wf(),
            final(self).length() == old(self).length(),
            chunk@.len() == 0 ==> res == Err::<(), TransportError>(TransportError::ReceiveError)
                && *final(self) == *old(self),
            chunk@.len() > 0 ==> res is Ok && final(self).received() == old(self).received()
                + chunk@.len() && final(self).bytes() == old(self).bytes().take(
                old(self).received() as int,
            ) + chunk@ + old(self).bytes().skip(final(self).received() as int),
    {
        if chunk.len() == 0 {
            return Err(TransportError::ReceiveError);
        }
        let ghost before = self.packet@;
        let start = self.offset;
        let mut i: usize = 0;
        while i < chunk.len()
            invariant
                start == old(self).offset,
                before == old(self).packet@,
                self.length == old(self).length,
                self.offset == start,
                start + chunk@.len() <= self.length,
                self.packet@.len() == self.length,
                0 <= i <= chunk@.len(),
                before.len() == self.length,
                forall|k: int|
                    0 <= k < self.length ==> #[trigger] self.packet@[k] == if start <= k < start
                        + i {
                        chunk@[k - start]
                    } else {
                        before[k]
                    },
            decreases chunk@.len() - i,
        {
            self.packet.set(start + i, chunk[i]);
            i = i + 1;
        }
        assert(self.packet@ =~= before.take(start as int) + chunk@ + before.skip(
            start + chunk@.len(),
        ));
        self.offset = start + chunk.len();
        Ok(())
    }

    /// The received container.
    pub fn finish(self) -> (packet: Vec<u8>)
        requires
            self.wf(),
        ensures
            packet@ == self.bytes(),
            packet@.len() == self.length(),
    {
        self.packet
    }
}

/// A container header is 12 bytes, and a link takes containers of 12 bytes up to 1 MiB: the
/// declared length is the header's first four bytes, least significant first, when it lies
/// in that range.
pub proof fn law_container_limits(header: Seq<u8>)
    ensures
        HEADER_LEN == 12,
        MAX_CONTAINER == 1048576,
        header.len() < 12 ==> declared_length(header) is None,
        header.len() >= 12 ==> {
            let n = header[0] + 256 * header[1] + 65536 * header[2] + 16777216 * header[3];
            &&& (12 <= n <= 1048576) ==> declared_length(header) == Some(n as nat)
            &&& !(12 <= n <= 1048576) ==> declared_length(header) is None
        },
{
}

} // verus!
