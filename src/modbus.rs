//! The register client: connection lifecycle, address dispatch and the
//! classification of request outcomes.
//!
//! The transport itself is driven by the caller. `open` takes the outcome of
//! connecting, `read` and `write` say which request to send, and
//! `read_result` / `write_result` turn what came back into the client's result.
use vstd::prelude::*;

use crate::address::{classify_read, classify_write, is_readable, is_writable, read_location,
    RegisterLocation, RegisterSpace};
use crate::transport::{is_selected, select_transport, IpAddress, ModbusClientType};

verus! {

/// Unit address of the single device reached over a serial line.
pub const SLAVE_ADDRESS: u8 = 1;

/// Deadline for one read or write request, in milliseconds.
pub const REQUEST_TIMEOUT_MS: u64 = 250;

/// Why an operation of the client failed.
#[derive(Clone, Debug, PartialEq, Eq)]
pub enum ClientError {
    /// Opening the serial line or connecting to the server failed.
    ConnectionError(String),
    /// The client holds no connection.
    NotConnected,
    /// The register number lies outside the range the operation accepts.
    InvalidAddress,
    /// The transport did not answer within the request deadline.
    Timeout,
    /// The device answered with a Modbus exception code.
    ProtocolError(u8),
    /// The transport failed in another way.
    TransportError(String),
}

/// What the transport made of one request.
#[derive(Clone, Debug, PartialEq, Eq)]
pub enum RequestOutcome<T> {
    /// The device answered.
    Done(T),
    /// The deadline passed first.
    TimedOut,
    /// The device answered with an exception code.
    Exception(u8),
    /// The transport failed otherwise.
    Failed(String),
}

/// A read to send: `count` registers of `location.space` from `location.offset`.
#[derive(Clone, Copy, Debug, PartialEq, Eq, Structural)]
pub struct ReadRequest {
    pub location: RegisterLocation,
    pub count: u16,
}

/// A write of `values` to holding registers starting at `offset`.
#[derive(Clone, Debug, PartialEq, Eq)]
pub struct WriteRequest {
    pub offset: u16,
    pub values: Vec<u16>,
}

/// The client's result for a request outcome.
pub open spec fn outcome_result<T>(outcome: RequestOutcome<T>) -> Result<T, ClientError> {
    match outcome {
        RequestOutcome::Done(v) => Ok(v),
        RequestOutcome::TimedOut => Err(ClientError::Timeout),
        RequestOutcome::Exception(code) => Err(ClientError::ProtocolError(code)),
        RequestOutcome::Failed(m) => Err(ClientError::TransportError(m)),
    }
}

fn classify_outcome<T>(outcome: RequestOutcome<T>) -> (r: Result<T, ClientError>)
    ensures
        r == outcome_result(outcome),
{
    match outcome {
        RequestOutcome::Done(v) => Ok(v),
        RequestOutcome::TimedOut => Err(ClientError::Timeout),
        RequestOutcome::Exception(code) => Err(ClientError::ProtocolError(code)),
        RequestOutcome::Failed(m) => Err(ClientError::TransportError(m)),
    }
}

/// A Modbus client over one transport, holding a connection handle of type
/// `H` while connected.
pub struct Client<H> {
    client_type: ModbusClientType,
    context: Option<H>,
    timeout_ms: u64,
}

impl<H> Client<H> {
    /// The transport descriptor, fixed at construction.
    pub closed spec fn spec_client_type(&self) -> ModbusClientType {
        self.client_type
    }

    /// The connection handle, present while connected.
    pub closed spec fn spec_context(&self) -> Option<H> {
        self.context
    }

    /// The request deadline in milliseconds.
    pub closed spec fn spec_timeout_ms(&self) -> u64 {
        self.timeout_ms
    }

    pub open spec fn is_connected(&self) -> bool {
        self.spec_context() is Some
    }

    /// `other` has the same transport and deadline as `self`.
    pub open spec fn same_settings(&self, other: &Client<H>) -> bool {
        other.spec_client_type() == self.spec_client_type()
            && other.spec_timeout_ms() == self.spec_timeout_ms()
    }

    /// A disconnected client for the transport that `select_transport`
    /// chooses, with the default request deadline.
    pub fn new(com_port: &String, baudrate: u32, ip: Option<IpAddress>) -> (r: Client<H>)
        ensures
            is_selected(com_port@, baudrate, ip, r.spec_client_type()),
            !r.is_connected(),
            r.spec_timeout_ms() == REQUEST_TIMEOUT_MS,
    {
        Client {
            client_type: select_transport(com_port, baudrate, ip),
            context: None,
            timeout_ms: REQUEST_TIMEOUT_MS,
        }
    }

    /// The transport that `open` must connect.
    pub fn client_type(&self) -> (r: &ModbusClientType)
        ensures
            *r == self.spec_client_type(),
    {
        &self.client_type
    }

    /// The deadline for one request, in milliseconds.
    pub fn timeout_ms(&self) -> (r: u64)
        ensures
            r == self.spec_timeout_ms(),
    {
        self.timeout_ms
    }

    /// Replaces the request deadline.
    pub fn set_timeout_ms(&mut self, timeout_ms: u64)
        ensures
            final(self).spec_timeout_ms() == timeout_ms,
            final(self).spec_client_type() == old(self).spec_client_type(),
            final(self).spec_context() == old(self).spec_context(),
    {
        self.timeout_ms = timeout_ms;
    }

    pub fn is_open(&self) -> (r: bool)
        ensures
            r == self.is_connected(),
    {
        self.context.is_some()
    }

    /// Completes an open with the outcome of connecting the transport: a
    /// handle is stored and the client is connected; an error leaves the
    /// client as it was and comes back as `ConnectionError`.
    pub fn open(&mut self, outcome: Result<H, String>) -> (r: Result<(), ClientError>)
        ensures
            match outcome {
                Ok(h) => r is Ok && final(self).spec_context() == Some(h)
                    && old(self).same_settings(&*final(self)),
                Err(m) => r == Err::<(), ClientError>(ClientError::ConnectionError(m))
                    && *final(self) == *old(self),
            },
    {
        match outcome {
            Ok(h) => {
                self.context = Some(h);
                Ok(())
            },
            Err(m) => Err(ClientError::ConnectionError(m)),
        }
    }

    /// Drops the handle, if any. Never fails.
    pub fn close(&mut self)
        ensures
            !final(self).is_connected(),
            old(self).same_settings(&*final(self)),
    {
        self.context = None;
    }

    /// The handle to send a request on, while connected.
    pub fn context_mut(&mut self) -> (r: Option<&mut H>)
        ensures
            r is Some == old(self).is_connected(),
            r is Some ==> *r->0 == old(self).spec_context()->0,
            old(self).same_settings(&*final(self)),
            final(self).is_connected() == old(self).is_connected(),
    {
        self.context.as_mut()
    }

    /// The request that reads `count` registers from `register`:
    /// `NotConnected` without a handle, else `InvalidAddress` outside
    /// `[30000, 50000)`, else the space and offset of `register`.
    pub fn read(&self, register: u16, count: u16) -> (r: Result<ReadRequest, ClientError>)
        ensures
            !self.is_connected() ==> r == Err::<ReadRequest, ClientError>(
                ClientError::NotConnected,
            ),
            self.is_connected() && !is_readable(register as int) ==> r == Err::<
                ReadRequest,
                ClientError,
            >(ClientError::InvalidAddress),
            self.is_connected() && is_readable(register as int) ==> r == Ok::<
                ReadRequest,
                ClientError,
            >(ReadRequest { location: read_location(register as int), count }),
    {
        if self.context.is_none() {
            return Err(ClientError::NotConnected);
        }
        match classify_read(register) {
            Some(location) => Ok(ReadRequest { location, count }),
            None => Err(ClientError::InvalidAddress),
        }
    }

    /// The request that writes `data` from `register`: `NotConnected`
    /// without a handle, else `InvalidAddress` unless
    /// `40001 < register < 50000`, else offset `register - 40001`.
    pub fn write(&self, register: u16, data: Vec<u16>) -> (r: Result<WriteRequest, ClientError>)
        ensures
            !self.is_connected() ==> r == Err::<WriteRequest, ClientError>(
                ClientError::NotConnected,
            ),
            self.is_connected() && !is_writable(register as int) ==> r == Err::<
                WriteRequest,
                ClientError,
            >(ClientError::InvalidAddress),
            self.is_connected() && is_writable(register as int) ==> r == Ok::<
                WriteRequest,
                ClientError,
            >(WriteRequest { offset: (register - 40001) as u16, values: data }),
    {
        if self.context.is_none() {
            return Err(ClientError::NotConnected);
        }
        match classify_write(register) {
            Some(offset) => Ok(WriteRequest { offset, values: data }),
            None => Err(ClientError::InvalidAddress),
        }
    }

    /// The result of a read from what the transport did: the values exactly
    /// as they came, or `Timeout`, `ProtocolError` or `TransportError`.
    pub fn read_result(&self, outcome: RequestOutcome<Vec<u16>>) -> (r: Result<
        Vec<u16>,
        ClientError,
    >)
        ensures
            r == outcome_result(outcome),
    {
        classify_outcome(outcome)
    }

    /// The result of a write from what the transport did: unit on an
    /// answer, whatever it held, or `Timeout`, `ProtocolError` or
    /// `TransportError`.
    pub fn write_result<T>(&self, outcome: RequestOutcome<T>) -> (r: Result<(), ClientError>)
        ensures
            r == (match outcome_result(outcome) {
                Ok(_) => Ok::<(), ClientError>(()),
                Err(e) => Err(e),
            }),
    {
        match classify_outcome(outcome) {
            Ok(_) => Ok(()),
            Err(e) => Err(e),
        }
    }
}

/// Closing twice in a row leaves the client disconnected with its settings
/// kept: `first` and `second` are the states after each `close`, as its
/// `ensures` describes them.
pub proof fn close_twice_law<H>(start: Client<H>, first: Client<H>, second: Client<H>)
    requires
        !first.is_connected(),
        start.same_settings(&first),
        !second.is_connected(),
        first.same_settings(&second),
    ensures
        !second.is_connected(),
        start.same_settings(&second),
        second.spec_context() == first.spec_context(),
{
}

} // verus!
