//! The Modbus TCP transport and the outside items this library calls through it.
use vstd::prelude::*;

use crate::error::ClientError;

verus! {

#[verifier::external_type_specification]
#[verifier::external_body]
pub struct ExTransport(modbus::tcp::Transport);

#[verifier::external_type_specification]
#[verifier::external_body]
pub struct ExModbusError(modbus::Error);

#[verifier::external_type_specification]
#[verifier::external_body]
pub struct ExIoError(std::io::Error);

#[verifier::external_type_specification]
#[verifier::external_body]
pub struct ExMdnsError(mdns_sd::Error);

/// Calls `modbus::Client::read_holding_registers` on the transport.
/// The crate's source returns `Ok` only when the requested count is between 1 and 260
/// and the reply carried exactly that many registers; which values come back depends
/// on the device and is left unsaid.
#[verifier::external_body]
fn modbus_read_holding_registers(transport: &mut modbus::tcp::Transport, addr: u16, count: u16) -> (r: Result<Vec<u16>, modbus::Error>)
    ensures
        r matches Ok(regs) ==> regs@.len() == count && 1 <= count <= 260,
{
    modbus::Client::read_holding_registers(transport, addr, count)
}

/// What kind of failure a `modbus::Error` reports.  `Io` failures are split by
/// whether the socket timed out (`std::io::ErrorKind::WouldBlock`).
#[derive(Clone, Copy, Debug, PartialEq, Eq, Structural)]
pub enum ModbusErrorKind {
    Exception,
    IoWouldBlock,
    IoOther,
    InvalidResponse,
    InvalidData,
    InvalidFunction,
    ParseCoilError,
    ParseInfoError,
}

/// The kind of a `modbus::Error`: its variant, and for `modbus::Error::Io` whether
/// `std::io::Error::kind` is `WouldBlock`.  It depends on the error value alone.
pub uninterp spec fn error_kind_of(e: modbus::Error) -> ModbusErrorKind;

/// Tells the variants of `modbus::Error` apart, and for `modbus::Error::Io` whether
/// `std::io::Error::kind` is `WouldBlock`.  The contract claims only that the result is
/// [`error_kind_of`] the error: the error is opaque here.
#[verifier::external_body]
fn modbus_error_kind(e: &modbus::Error) -> (r: ModbusErrorKind)
    ensures
        r == error_kind_of(*e),
{
    match e {
        modbus::Error::Exception(_) => ModbusErrorKind::Exception,
        modbus::Error::Io(io) if io.kind() == std::io::ErrorKind::WouldBlock => ModbusErrorKind::IoWouldBlock,
        modbus::Error::Io(_) => ModbusErrorKind::IoOther,
        modbus::Error::InvalidResponse => ModbusErrorKind::InvalidResponse,
        modbus::Error::InvalidData(_) => ModbusErrorKind::InvalidData,
        modbus::Error::InvalidFunction => ModbusErrorKind::InvalidFunction,
        modbus::Error::ParseCoilError => ModbusErrorKind::ParseCoilError,
        modbus::Error::ParseInfoError => ModbusErrorKind::ParseInfoError,
    }
}

/// Calls `modbus::tcp::Transport::new_with_cfg`, which connects a TCP socket to
/// `address:port` and sets the read timeout, with Modbus unit id `modbus_uid` and the
/// crate's defaults otherwise.  Whether it connects depends on the network: nothing
/// is stated of the result.
#[verifier::external_body]
fn open_transport(address: &str, port: u16, modbus_uid: u8, read_timeout_secs: u64)
    -> Result<modbus::tcp::Transport, std::io::Error>
{
    let cfg = modbus::tcp::Config {
        tcp_port: port,
        modbus_uid,
        tcp_read_timeout: Some(std::time::Duration::from_secs(read_timeout_secs)),
        ..Default::default()
    };
    modbus::tcp::Transport::new_with_cfg(address, cfg)
}

/// One request sent over a [`Connection`]: `count` holding registers from `addr`, and
/// what came back (the registers, or the failure).
pub struct ReadRecord {
    pub addr: u16,
    pub count: u16,
    pub outcome: Result<Seq<u16>, ReadError>,
}

/// A failed read: the Modbus error and its kind.
#[derive(Debug)]
pub struct ReadError {
    pub kind: ModbusErrorKind,
    pub error: modbus::Error,
}

/// What a connection was opened with.
pub struct ConnectParams {
    pub address: Seq<char>,
    pub port: u16,
    pub modbus_uid: u8,
    pub read_timeout_secs: u64,
}

/// A Modbus TCP transport together with the record of every read made over it.
pub struct Connection {
    transport: modbus::tcp::Transport,
    log: Ghost<Seq<ReadRecord>>,
    params: Ghost<Option<ConnectParams>>,
}

/// `after` is `before` with one more request: `count` registers from `addr`.
pub open spec fn one_read(before: Seq<ReadRecord>, after: Seq<ReadRecord>, addr: int, count: int) -> bool {
    &&& after.len() == before.len() + 1
    &&& after.drop_last() == before
    &&& after.last().addr == addr
    &&& after.last().count == count
}

/// `r` is the failure of the last read in `h`, reported as [`ClientError::Modbus`].
pub open spec fn fails_with_last_error<T>(h: Seq<ReadRecord>, r: Result<T, ClientError>) -> bool {
    h.last().outcome matches Err(e) && r == Err::<T, ClientError>(ClientError::Modbus(e.error))
}

/// The registers of the last reply in `h`, if that read succeeded.
pub open spec fn last_words(h: Seq<ReadRecord>) -> Option<Seq<u16>> {
    match h.last().outcome {
        Ok(w) => Some(w),
        Err(_) => None,
    }
}

impl Connection {
    /// Every read made over this connection, oldest first.
    pub closed spec fn history(self) -> Seq<ReadRecord> {
        self.log@
    }

    /// The transport this connection reads over.
    pub closed spec fn spec_transport(self) -> modbus::tcp::Transport {
        self.transport
    }

    /// The parameters the connection was opened with by [`Connection::open`]; `None` for a
    /// transport opened elsewhere.
    pub closed spec fn opened_with(self) -> Option<ConnectParams> {
        self.params@
    }

    /// Wraps an open transport; nothing has been read over it yet.
    pub fn new(transport: modbus::tcp::Transport) -> (r: Connection)
        ensures
            r.history() == Seq::<ReadRecord>::empty(),
            r.opened_with() is None,
            r.spec_transport() == transport,
    {
        Connection { transport, log: Ghost(Seq::empty()), params: Ghost(None) }
    }

    /// Opens a connection to `address:port` for Modbus unit `modbus_uid`, with a read
    /// timeout of `read_timeout_secs` seconds.
    pub fn open(address: &str, port: u16, modbus_uid: u8, read_timeout_secs: u64) -> (r: Result<
        Connection,
        std::io::Error,
    >)
        ensures
            r matches Ok(c) ==> c.history() == Seq::<ReadRecord>::empty() && c.opened_with() == Some(
                ConnectParams { address: address@, port, modbus_uid, read_timeout_secs },
            ),
    {
        match open_transport(address, port, modbus_uid, read_timeout_secs) {
            Ok(transport) => Ok(
                Connection {
                    transport,
                    log: Ghost(Seq::empty()),
                    params: Ghost(Some(ConnectParams { address: address@, port, modbus_uid, read_timeout_secs })),
                },
            ),
            Err(e) => Err(e),
        }
    }

    /// The underlying transport.
    pub fn into_transport(self) -> (r: modbus::tcp::Transport)
        ensures
            r == self.spec_transport(),
    {
        self.transport
    }

    /// Reads `count` holding registers from `addr` and records the request and its
    /// outcome.  On success exactly `count` registers come back, and `count` is between
    /// 1 and 260; a failure is returned with its kind.
    pub fn read_holding_registers(&mut self, addr: u16, count: u16) -> (r: Result<Vec<u16>, ReadError>)
        ensures
            one_read(old(self).history(), final(self).history(), addr as int, count as int),
            final(self).opened_with() == old(self).opened_with(),
            match r {
                Ok(regs) => final(self).history().last().outcome == Ok::<Seq<u16>, ReadError>(regs@)
                    && regs@.len() == count && 1 <= count <= 260,
                Err(e) => final(self).history().last().outcome == Err::<Seq<u16>, ReadError>(e)
                    && e.kind == error_kind_of(e.error),
            },
    {
        match modbus_read_holding_registers(&mut self.transport, addr, count) {
            Ok(regs) => {
                proof {
                    self.log@ = self.log@.push(ReadRecord { addr, count, outcome: Ok(regs@) });
                    assert(self.log@.drop_last() =~= old(self).log@);
                }
                Ok(regs)
            },
            Err(error) => {
                let kind = modbus_error_kind(&error);
                let e = ReadError { kind, error };
                proof {
                    self.log@ = self.log@.push(ReadRecord { addr, count, outcome: Err(e) });
                    assert(self.log@.drop_last() =~= old(self).log@);
                }
                Err(e)
            },
        }
    }
}

} // verus!
