//! PTP transactions over a transport: building and checking containers, numbering
//! transactions, and the record of what each transaction sent, received and completed.
use vstd::prelude::*;
use crate::transport::{Transport, TransportError};
use super::bytes::{self, write_u16_le, write_u32_le, read_u16_le, read_u32_le};

verus! {

pub const CONTAINER_COMMAND: u16 = 1;
pub const CONTAINER_DATA: u16 = 2;
pub const CONTAINER_RESPONSE: u16 = 3;
pub const RESPONSE_OK: u16 = 0x2001;

pub const OPEN_SESSION: u16 = 0x1002;
pub const CLOSE_SESSION: u16 = 0x1003;
pub const GET_DEVICE_PROP_VALUE: u16 = 0x1015;
pub const SET_DEVICE_PROP_VALUE: u16 = 0x1016;

/// A container that the camera sent and the session could not accept.
#[derive(Debug, Clone, Copy, PartialEq, Eq, Structural)]
pub enum PtpProtocolError {
    MalformedContainer,
    UnexpectedContainerType(u16),
    UnexpectedOperation(u16),
    TransactionMismatch { expected: u32, received: u32 },
    Response(u16),
}

#[derive(Debug)]
pub enum PtpSessionError {
    Transport(TransportError),
    Protocol(PtpProtocolError),
}

/// A transaction that the session completed, as recorded in its history.
pub enum PtpOp {
    OpenSession { session_id: u32 },
    CloseSession,
    /// A property value read from the camera.
    GetProperty { property: u16, value: Seq<u8> },
    /// A property value handed to the camera.
    SetProperty { property: u16, value: Seq<u8> },
}

/// How a transaction ended: completed (with what it obtained), refused because of what
/// the camera answered, or lost on the link.
pub enum Outcome<V> {
    Done(V),
    Refused(PtpProtocolError),
    Lost,
}

pub open spec fn unit_outcome(r: Result<(), PtpSessionError>) -> Outcome<()> {
    match r {
        Ok(()) => Outcome::Done(()),
        Err(PtpSessionError::Protocol(e)) => Outcome::Refused(e),
        Err(PtpSessionError::Transport(_)) => Outcome::Lost,
    }
}

pub open spec fn bytes_outcome(r: Result<Vec<u8>, PtpSessionError>) -> Outcome<Seq<u8>> {
    match r {
        Ok(p) => Outcome::Done(p@),
        Err(PtpSessionError::Protocol(e)) => Outcome::Refused(e),
        Err(PtpSessionError::Transport(_)) => Outcome::Lost,
    }
}

/// A command container with one parameter.
pub open spec fn command_packet(operation: u16, tx: u32, parameter1: u32) -> Seq<u8> {
    bytes::le32(16) + bytes::le16(CONTAINER_COMMAND) + bytes::le16(operation) + bytes::le32(tx) + bytes::le32(parameter1)
}

/// A command container without parameters.
pub open spec fn command_packet_no_params(operation: u16, tx: u32) -> Seq<u8> {
    bytes::le32(12) + bytes::le16(CONTAINER_COMMAND) + bytes::le16(operation) + bytes::le32(tx)
}

/// The length field of a data container: twelve header bytes and the payload, in `u32`.
pub open spec fn data_length(len: nat) -> u32 {
    (12 + (len as u32)) as u32
}

/// A data container carrying `value`.
pub open spec fn data_packet(operation: u16, tx: u32, value: Seq<u8>) -> Seq<u8> {
    bytes::le32(data_length(value.len())) + bytes::le16(CONTAINER_DATA) + bytes::le16(operation) + bytes::le32(tx) + value
}

/// What `parse_container` answers for `packet`: the payload of a well-formed container of
/// kind `expected` for `operation` in transaction `tx`, or the first check that fails.
pub open spec fn container_result(packet: Seq<u8>, expected: u16, operation: u16, tx: u32)
    -> Result<Seq<u8>, PtpProtocolError>
{
    if packet.len() < 12 {
        Err(PtpProtocolError::MalformedContainer)
    } else {
        let length = bytes::u32_at(packet, 0) as int;
        let kind = bytes::u16_at(packet, 4);
        let op = bytes::u16_at(packet, 6);
        let received = bytes::u32_at(packet, 8);
        if length < 12 || length > packet.len() {
            Err(PtpProtocolError::MalformedContainer)
        } else if kind != expected {
            Err(PtpProtocolError::UnexpectedContainerType(kind))
        } else if op != operation {
            Err(PtpProtocolError::UnexpectedOperation(op))
        } else if received != tx {
            Err(PtpProtocolError::TransactionMismatch { expected: tx, received })
        } else {
            Ok(packet.subrange(12, length))
        }
    }
}

/// What `parse_response` answers for `packet` in transaction `tx`.
pub open spec fn response_result(packet: Seq<u8>, tx: u32) -> Result<(), PtpProtocolError> {
    if packet.len() < 12 {
        Err(PtpProtocolError::MalformedContainer)
    } else {
        let length = bytes::u32_at(packet, 0) as int;
        let kind = bytes::u16_at(packet, 4);
        let code = bytes::u16_at(packet, 6);
        let received = bytes::u32_at(packet, 8);
        if length < 12 || length > packet.len() || kind != CONTAINER_RESPONSE {
            Err(PtpProtocolError::MalformedContainer)
        } else if received != tx {
            Err(PtpProtocolError::TransactionMismatch { expected: tx, received })
        } else if code != RESPONSE_OK {
            Err(PtpProtocolError::Response(code))
        } else {
            Ok(())
        }
    }
}

/// A PTP session over a transport: numbers transactions and frames containers.
pub struct PtpSession<T: Transport> {
    transport: T,
    transaction_id: u32,
    history: Ghost<Seq<PtpOp>>,
    sent_log: Ghost<Seq<Seq<u8>>>,
    received_log: Ghost<Seq<Seq<u8>>>,
    failure_log: Ghost<Seq<TransportError>>,
}

/// The failure of the link that a session result reports, if it reports one.
pub open spec fn link_failure<V>(r: Result<V, PtpSessionError>) -> Option<TransportError> {
    match r {
        Err(PtpSessionError::Transport(e)) => Some(e),
        _ => None,
    }
}

/// The failure of the link that a send result reports, if it reports one.
pub open spec fn send_failure(r: Result<(), TransportError>) -> Option<TransportError> {
    match r {
        Ok(()) => None,
        Err(e) => Some(e),
    }
}

/// The record of link failures went from `f0` to `f1` by adding `e`, or stayed when there
/// is none.
pub open spec fn failures_after(
    f0: Seq<TransportError>,
    f1: Seq<TransportError>,
    e: Option<TransportError>,
) -> bool {
    match e {
        Some(e) => f1 == f0.push(e),
        None => f1 == f0,
    }
}

/// `s1` extends `s0` by exactly one packet, which it returns.
pub open spec fn one_more(s0: Seq<Seq<u8>>, s1: Seq<Seq<u8>>) -> bool {
    s1.len() == s0.len() + 1 && s1.drop_last() == s0
}

/// The effect of a transaction that sends `cmd` and reads one response: what was sent and
/// received, and what the history records, for each way it can end.
pub open spec fn commanded<T: Transport>(
    s0: PtpSession<T>,
    s1: PtpSession<T>,
    cmd: Seq<u8>,
    op: PtpOp,
    out: Outcome<()>,
) -> bool {
    let tx = s1.tx();
    let sent0 = s0.sent();
    let sent1 = s1.sent();
    let recv0 = s0.received();
    let recv1 = s1.received();
    &&& s1.tx() == s0.tx() + 1
    &&& match out {
        Outcome::Done(_) => {
            &&& sent1 == sent0.push(cmd)
            &&& one_more(recv0, recv1)
            &&& response_result(recv1.last(), tx) == Ok::<(), PtpProtocolError>(())
            &&& s1.log() == s0.log().push(op)
        },
        Outcome::Refused(e) => {
            &&& sent1 == sent0.push(cmd)
            &&& one_more(recv0, recv1)
            &&& response_result(recv1.last(), tx) == Err::<(), PtpProtocolError>(e)
            &&& s1.log() == s0.log()
        },
        Outcome::Lost => {
            &&& sent1 == sent0 || sent1 == sent0.push(cmd)
            &&& recv1 == recv0
            &&& s1.log() == s0.log()
        },
    }
}

/// The effect of reading `property`: a command, a data container and a response.
pub open spec fn fetched<T: Transport>(
    s0: PtpSession<T>,
    s1: PtpSession<T>,
    property: u16,
    out: Outcome<Seq<u8>>,
) -> bool {
    let tx = s1.tx();
    let cmd = command_packet(GET_DEVICE_PROP_VALUE, tx, property as u32);
    let sent0 = s0.sent();
    let sent1 = s1.sent();
    let recv0 = s0.received();
    let recv1 = s1.received();
    let n = recv0.len() as int;
    &&& s1.tx() == s0.tx() + 1
    &&& recv1.len() >= n && recv1.take(n) == recv0
    &&& match out {
        Outcome::Done(p) => {
            &&& sent1 == sent0.push(cmd)
            &&& recv1.len() == n + 2
            &&& container_result(recv1[n], CONTAINER_DATA, GET_DEVICE_PROP_VALUE, tx)
                == Ok::<Seq<u8>, PtpProtocolError>(p)
            &&& response_result(recv1[n + 1], tx) == Ok::<(), PtpProtocolError>(())
            &&& s1.log() == s0.log().push(PtpOp::GetProperty { property, value: p })
        },
        Outcome::Refused(e) => {
            &&& sent1 == sent0.push(cmd)
            &&& s1.log() == s0.log()
            &&& {
                ||| recv1.len() == n + 1 && container_result(
                    recv1[n],
                    CONTAINER_DATA,
                    GET_DEVICE_PROP_VALUE,
                    tx,
                ) == Err::<Seq<u8>, PtpProtocolError>(e)
                ||| recv1.len() == n + 2 && container_result(
                    recv1[n],
                    CONTAINER_DATA,
                    GET_DEVICE_PROP_VALUE,
                    tx,
                ) is Ok && response_result(recv1[n + 1], tx) == Err::<(), PtpProtocolError>(e)
            }
        },
        Outcome::Lost => {
            &&& s1.log() == s0.log()
            &&& {
                ||| sent1 == sent0 && recv1.len() == n
                ||| sent1 == sent0.push(cmd) && recv1.len() == n
                ||| sent1 == sent0.push(cmd) && recv1.len() == n + 1 && container_result(
                    recv1[n],
                    CONTAINER_DATA,
                    GET_DEVICE_PROP_VALUE,
                    tx,
                ) is Ok
            }
        },
    }
}

/// The effect of handing `value` for `property` to the camera without waiting for an answer.
pub open spec fn posted<T: Transport>(
    s0: PtpSession<T>,
    s1: PtpSession<T>,
    property: u16,
    value: Seq<u8>,
    res: Result<(), TransportError>,
) -> bool {
    let tx = s1.tx();
    let cmd = command_packet(SET_DEVICE_PROP_VALUE, tx, property as u32);
    let data = data_packet(SET_DEVICE_PROP_VALUE, tx, value);
    let sent0 = s0.sent();
    let sent1 = s1.sent();
    &&& s1.tx() == s0.tx() + 1
    &&& s1.received() == s0.received()
    &&& match res {
        Ok(()) => {
            &&& sent1 == sent0.push(cmd).push(data)
            &&& s1.log() == s0.log().push(PtpOp::SetProperty { property, value })
        },
        Err(_) => {
            &&& sent1 == sent0 || sent1 == sent0.push(cmd)
            &&& s1.log() == s0.log()
        },
    }
}

/// The effect of setting `property` and reading the camera's answer. An empty answer is
/// taken as acceptance.
pub open spec fn stored<T: Transport>(
    s0: PtpSession<T>,
    s1: PtpSession<T>,
    property: u16,
    value: Seq<u8>,
    out: Outcome<()>,
) -> bool {
    let tx = s1.tx();
    let cmd = command_packet(SET_DEVICE_PROP_VALUE, tx, property as u32);
    let data = data_packet(SET_DEVICE_PROP_VALUE, tx, value);
    let sent0 = s0.sent();
    let sent1 = s1.sent();
    let recv0 = s0.received();
    let recv1 = s1.received();
    let set = PtpOp::SetProperty { property, value };
    &&& s1.tx() == s0.tx() + 1
    &&& match out {
        Outcome::Done(_) => {
            &&& sent1 == sent0.push(cmd).push(data)
            &&& one_more(recv0, recv1)
            &&& (recv1.last().len() == 0 || response_result(recv1.last(), tx) == Ok::<
                (),
                PtpProtocolError,
            >(()))
            &&& s1.log() == s0.log().push(set)
        },
        Outcome::Refused(e) => {
            &&& sent1 == sent0.push(cmd).push(data)
            &&& one_more(recv0, recv1)
            &&& recv1.last().len() > 0
            &&& response_result(recv1.last(), tx) == Err::<(), PtpProtocolError>(e)
            &&& s1.log() == s0.log().push(set)
        },
        Outcome::Lost => {
            &&& recv1 == recv0
            &&& {
                ||| sent1 == sent0 && s1.log() == s0.log()
                ||| sent1 == sent0.push(cmd) && s1.log() == s0.log()
                ||| sent1 == sent0.push(cmd).push(data) && s1.log() == s0.log().push(set)
            }
        },
    }
}

impl<T: Transport> PtpSession<T> {
    /// The number of the last transaction (0 before the first).
    pub closed spec fn tx(&self) -> u32 {
        self.transaction_id
    }

    /// The transport the session runs over.
    pub closed spec fn io(&self) -> T {
        self.transport
    }

    /// Every transaction completed so far, oldest first.
    pub closed spec fn log(&self) -> Seq<PtpOp> {
        self.history@
    }

    /// Every packet that the transport accepted, oldest first.
    pub closed spec fn sent(&self) -> Seq<Seq<u8>> {
        self.sent_log@
    }

    /// Every packet that the transport delivered, oldest first.
    pub closed spec fn received(&self) -> Seq<Seq<u8>> {
        self.received_log@
    }

    /// Every failure that the transport reported, oldest first.
    pub closed spec fn failures(&self) -> Seq<TransportError> {
        self.failure_log@
    }

    pub fn new(transport: T) -> (s: Self)
        ensures
            s.io() == transport,
            s.tx() == 0,
            s.log() == Seq::<PtpOp>::empty(),
            s.sent() == Seq::<Seq<u8>>::empty(),
            s.received() == Seq::<Seq<u8>>::empty(),
            s.failures() == Seq::<TransportError>::empty(),
    {
        PtpSession {
            transport,
            transaction_id: 0,
            history: Ghost(Seq::empty()),
            sent_log: Ghost(Seq::empty()),
            received_log: Ghost(Seq::empty()),
            failure_log: Ghost(Seq::empty()),
        }
    }

    /// Advances the transaction counter and returns the new transaction number.
    pub fn next_transaction_id(&mut self) -> (tx: u32)
        requires
            old(self).tx() < u32::MAX,
        ensures
            tx == old(self).tx() + 1,
            final(self).tx() == tx,
            final(self).io() == old(self).io(),
            final(self).log() == old(self).log(),
            final(self).sent() == old(self).sent(),
            final(self).received() == old(self).received(),
            final(self).failures() == old(self).failures(),
    {
        self.transaction_id = self.transaction_id + 1;
        self.transaction_id
    }

    pub fn build_command(operation: u16, tx: u32, parameter1: u32) -> (p: Vec<u8>)
        ensures
            p@ == command_packet(operation, tx, parameter1),
    {
        let mut p = Vec::new();
        write_u32_le(&mut p, 16);
        write_u16_le(&mut p, CONTAINER_COMMAND);
        write_u16_le(&mut p, operation);
        write_u32_le(&mut p, tx);
        write_u32_le(&mut p, parameter1);
        assert(p@ =~= command_packet(operation, tx, parameter1));
        p
    }

    pub fn build_command_no_params(operation: u16, tx: u32) -> (p: Vec<u8>)
        ensures
            p@ == command_packet_no_params(operation, tx),
    {
        let mut p = Vec::new();
        write_u32_le(&mut p, 12);
        write_u16_le(&mut p, CONTAINER_COMMAND);
        write_u16_le(&mut p, operation);
        write_u32_le(&mut p, tx);
        assert(p@ =~= command_packet_no_params(operation, tx));
        p
    }

    pub fn build_data(operation: u16, tx: u32, value: &[u8]) -> (p: Vec<u8>)
        requires
            (value@.len() as u32) <= u32::MAX - 12,
        ensures
            p@ == data_packet(operation, tx, value@),
    {
        let mut p = Vec::new();
        write_u32_le(&mut p, 12 + value.len() as u32);
        write_u16_le(&mut p, CONTAINER_DATA);
        write_u16_le(&mut p, operation);
        write_u32_le(&mut p, tx);
        p.extend_from_slice(value);
        assert(p@ =~= data_packet(operation, tx, value@));
        p
    }

    /// Hands one packet to the transport and returns its answer. Whether the packet goes
    /// out is the transport's to decide (its implementation belongs to the platform); the
    /// session records the packet when the transport accepts it.
    pub fn send(&mut self, data: &[u8]) -> (res: Result<(), TransportError>)
        ensures
            final(self).tx() == old(self).tx(),
            final(self).log() == old(self).log(),
            final(self).received() == old(self).received(),
            res is Ok ==> final(self).sent() == old(self).sent().push(data@),
            res is Err ==> final(self).sent() == old(self).sent(),
            failures_after(old(self).failures(), final(self).failures(), send_failure(res)),
    {
        let res = self.transport.send(data);
        match &res {
            Ok(()) => {
                proof {
                    self.sent_log@ = self.sent_log@.push(data@);
                }
            },
            Err(e) => {
                proof {
                    self.failure_log@ = self.failure_log@.push(*e);
                }
            },
        }
        res
    }

    /// Takes one packet from the transport and returns its answer. What arrives, if
    /// anything, is the transport's to decide; the session records each packet delivered.
    pub fn receive(&mut self) -> (res: Result<Vec<u8>, TransportError>)
        ensures
            final(self).tx() == old(self).tx(),
            final(self).log() == old(self).log(),
            final(self).sent() == old(self).sent(),
            res matches Ok(p) ==> final(self).received() == old(self).received().push(
                p@,
            ),
            res is Err ==> final(self).received() == old(self).received(),
            failures_after(
                old(self).failures(),
                final(self).failures(),
                match res {
                    Ok(_) => None,
                    Err(e) => Some(e),
                },
            ),
    {
        let res = self.transport.receive();
        match &res {
            Ok(p) => {
                proof {
                    self.received_log@ = self.received_log@.push(p@);
                }
            },
            Err(e) => {
                proof {
                    self.failure_log@ = self.failure_log@.push(*e);
                }
            },
        }
        res
    }

    /// The number of the last transaction.
    pub fn transaction_id(&self) -> (tx: u32)
        ensures
            tx == self.tx(),
    {
        self.transaction_id
    }

    pub fn transport(&self) -> (t: &T)
        ensures
            *t == self.io(),
    {
        &self.transport
    }

    /// Reads one device property: GetDevicePropValue, its data container and the response.
    #[verifier::spinoff_prover]
    #[verifier::rlimit(30)]
    pub fn get_device_prop_value(&mut self, property: u16) -> (res: Result<Vec<u8>, PtpSessionError>)
        requires
            old(self).tx() < u32::MAX,
        ensures
            fetched(*old(self), *final(self), property, bytes_outcome(res)),
            failures_after(old(self).failures(), final(self).failures(), link_failure(res)),
    {
        let tx = self.next_transaction_id();
        let ghost recv0 = self.received();
        let ghost n = recv0.len() as int;
        let cmd = Self::build_command(GET_DEVICE_PROP_VALUE, tx, property as u32);
        match self.send(&cmd) {
            Ok(()) => {},
            Err(e) => {
                assert(self.received().take(n) =~= recv0);
                return Err(PtpSessionError::Transport(e));
            },
        }
        let data = match self.receive() {
            Ok(d) => d,
            Err(e) => {
                assert(self.received().take(n) =~= recv0);
                return Err(PtpSessionError::Transport(e));
            },
        };
        let ghost recv1 = self.received();
        assert(recv1[n] == data@);
        assert(recv1.take(n) =~= recv0);
        let payload = match Self::parse_container(&data, CONTAINER_DATA, GET_DEVICE_PROP_VALUE, tx) {
            Ok(p) => p,
            Err(e) => {
                return Err(PtpSessionError::Protocol(e));
            },
        };
        let response = match self.receive() {
            Ok(r) => r,
            Err(e) => {
                return Err(PtpSessionError::Transport(e));
            },
        };
        let ghost recv2 = self.received();
        assert(recv2.take(n) =~= recv0);
        assert(recv2[n] == data@);
        assert(recv2[n + 1] == response@);
        match Self::parse_response(&response, tx) {
            Ok(()) => {},
            Err(e) => {
                return Err(PtpSessionError::Protocol(e));
            },
        }
        proof {
            self.history@ = self.history@.push(PtpOp::GetProperty { property, value: payload@ });
        }
        Ok(payload)
    }

    /// Checks a received container and returns its payload.
    pub fn parse_container(packet: &[u8], expected: u16, operation: u16, tx: u32) -> (res: Result<
        Vec<u8>,
        PtpProtocolError,
    >)
        ensures
            match res {
                Ok(p) => container_result(packet@, expected, operation, tx) == Ok::<
                    Seq<u8>,
                    PtpProtocolError,
                >(p@),
                Err(e) => container_result(packet@, expected, operation, tx) == Err::<
                    Seq<u8>,
                    PtpProtocolError,
                >(e),
            },
    {
        if packet.len() < 12 {
            return Err(PtpProtocolError::MalformedContainer);
        }
        let length = read_u32_le(packet, 0) as usize;
        let kind = read_u16_le(packet, 4);
        let op = read_u16_le(packet, 6);
        let received_tx = read_u32_le(packet, 8);
        if length < 12 || length > packet.len() {
            return Err(PtpProtocolError::MalformedContainer);
        }
        if kind != expected {
            return Err(PtpProtocolError::UnexpectedContainerType(kind));
        }
        if op != operation {
            return Err(PtpProtocolError::UnexpectedOperation(op));
        }
        if received_tx != tx {
            return Err(PtpProtocolError::TransactionMismatch { expected: tx, received: received_tx });
        }
        let payload = vstd::slice::slice_to_vec(vstd::slice::slice_subrange(packet, 12, length));
        Ok(payload)
    }

    /// Checks a received response container.
    pub fn parse_response(packet: &[u8], tx: u32) -> (res: Result<(), PtpProtocolError>)
        ensures
            res == response_result(packet@, tx),
    {
        if packet.len() < 12 {
            return Err(PtpProtocolError::MalformedContainer);
        }
        let length = read_u32_le(packet, 0) as usize;
        let kind = read_u16_le(packet, 4);
        let code = read_u16_le(packet, 6);
        let received_tx = read_u32_le(packet, 8);
        if length < 12 || length > packet.len() || kind != CONTAINER_RESPONSE {
            return Err(PtpProtocolError::MalformedContainer);
        }
        if received_tx != tx {
            return Err(PtpProtocolError::TransactionMismatch { expected: tx, received: received_tx });
        }
        if code != RESPONSE_OK {
            return Err(PtpProtocolError::Response(code));
        }
        Ok(())
    }

    /// Sends SetDevicePropValue and its data container; does not wait for the answer.
    pub fn set_device_prop_value(&mut self, property: u16, value: &[u8]) -> (res: Result<
        (),
        TransportError,
    >)
        requires
            old(self).tx() < u32::MAX,
            (value@.len() as u32) <= u32::MAX - 12,
        ensures
            posted(*old(self), *final(self), property, value@, res),
            failures_after(old(self).failures(), final(self).failures(), send_failure(res)),
    {
        let tx = self.next_transaction_id();
        let cmd = Self::build_command(SET_DEVICE_PROP_VALUE, tx, property as u32);
        self.send(&cmd)?;
        let data = Self::build_data(SET_DEVICE_PROP_VALUE, tx, value);
        self.send(&data)?;
        proof {
            self.history@ = self.history@.push(PtpOp::SetProperty { property, value: value@ });
        }
        Ok(())
    }

    /// SET followed by the camera response. An empty response is accepted as well: it is
    /// what a test link answers when nothing is queued.
    pub fn set_device_prop_value_wait(&mut self, property: u16, value: &[u8]) -> (res: Result<
        (),
        PtpSessionError,
    >)
        requires
            old(self).tx() < u32::MAX,
            (value@.len() as u32) <= u32::MAX - 12,
        ensures
            stored(*old(self), *final(self), property, value@, unit_outcome(res)),
            failures_after(old(self).failures(), final(self).failures(), link_failure(res)),
    {
        match self.set_device_prop_value(property, value) {
            Ok(()) => {},
            Err(e) => {
                return Err(PtpSessionError::Transport(e));
            },
        }
        let ghost recv0 = self.received();
        let response = match self.receive() {
            Ok(r) => r,
            Err(e) => {
                return Err(PtpSessionError::Transport(e));
            },
        };
        assert(self.received().drop_last() =~= recv0);
        if response.len() == 0 {
            return Ok(());
        }
        match Self::parse_response(&response, self.transaction_id) {
            Ok(()) => Ok(()),
            Err(e) => Err(PtpSessionError::Protocol(e)),
        }
    }

    pub fn open_session(&mut self, session_id: u32) -> (res: Result<(), PtpSessionError>)
        requires
            old(self).tx() < u32::MAX,
        ensures
            commanded(
                *old(self),
                *final(self),
                command_packet(OPEN_SESSION, final(self).tx(), session_id),
                PtpOp::OpenSession { session_id },
                unit_outcome(res),
            ),
            failures_after(old(self).failures(), final(self).failures(), link_failure(res)),
    {
        let tx = self.next_transaction_id();
        let cmd = Self::build_command(OPEN_SESSION, tx, session_id);
        let ghost recv0 = self.received();
        match self.send(&cmd) {
            Ok(()) => {},
            Err(e) => {
                return Err(PtpSessionError::Transport(e));
            },
        }
        let response = match self.receive() {
            Ok(r) => r,
            Err(e) => {
                return Err(PtpSessionError::Transport(e));
            },
        };
        assert(self.received().drop_last() =~= recv0);
        match Self::parse_response(&response, tx) {
            Ok(()) => {},
            Err(e) => {
                return Err(PtpSessionError::Protocol(e));
            },
        }
        proof {
            self.history@ = self.history@.push(PtpOp::OpenSession { session_id });
        }
        Ok(())
    }

    pub fn close_session(&mut self) -> (res: Result<(), PtpSessionError>)
        requires
            old(self).tx() < u32::MAX,
        ensures
            commanded(
                *old(self),
                *final(self),
                command_packet_no_params(CLOSE_SESSION, final(self).tx()),
                PtpOp::CloseSession,
                unit_outcome(res),
            ),
            failures_after(old(self).failures(), final(self).failures(), link_failure(res)),
    {
        let tx = self.next_transaction_id();
        let cmd = Self::build_command_no_params(CLOSE_SESSION, tx);
        let ghost recv0 = self.received();
        match self.send(&cmd) {
            Ok(()) => {},
            Err(e) => {
                return Err(PtpSessionError::Transport(e));
            },
        }
        let response = match self.receive() {
            Ok(r) => r,
            Err(e) => {
                return Err(PtpSessionError::Transport(e));
            },
        };
        assert(self.received().drop_last() =~= recv0);
        match Self::parse_response(&response, tx) {
            Ok(()) => {},
            Err(e) => {
                return Err(PtpSessionError::Protocol(e));
            },
        }
        proof {
            self.history@ = self.history@.push(PtpOp::CloseSession);
        }
        Ok(())
    }
}

} // verus!
