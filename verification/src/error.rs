//! The library's error type.
use vstd::prelude::*;

verus! {

/// Everything that can go wrong when talking to an inverter.
#[derive(Debug)]
pub enum ClientError {
    /// The phase-count register held a value other than 101, 102 or 103.
    InvalidPhaseCountValue(u16),
    /// The Modbus layer failed (I/O, exception reply, malformed reply).
    Modbus(modbus::Error),
    /// Opening the TCP connection failed.
    Io(std::io::Error),
    /// mDNS discovery failed.
    Mdns(mdns_sd::Error),
}

impl From<modbus::Error> for ClientError {
    fn from(e: modbus::Error) -> (r: Self) {
        ClientError::Modbus(e)
    }
}

impl vstd::std_specs::convert::FromSpecImpl<modbus::Error> for ClientError {
    open spec fn obeys_from_spec() -> bool {
        true
    }

    open spec fn from_spec(e: modbus::Error) -> Self {
        ClientError::Modbus(e)
    }
}

impl From<std::io::Error> for ClientError {
    fn from(e: std::io::Error) -> (r: Self) {
        ClientError::Io(e)
    }
}

impl vstd::std_specs::convert::FromSpecImpl<std::io::Error> for ClientError {
    open spec fn obeys_from_spec() -> bool {
        true
    }

    open spec fn from_spec(e: std::io::Error) -> Self {
        ClientError::Io(e)
    }
}

impl From<mdns_sd::Error> for ClientError {
    fn from(e: mdns_sd::Error) -> (r: Self) {
        ClientError::Mdns(e)
    }
}

impl vstd::std_specs::convert::FromSpecImpl<mdns_sd::Error> for ClientError {
    open spec fn obeys_from_spec() -> bool {
        true
    }

    open spec fn from_spec(e: mdns_sd::Error) -> Self {
        ClientError::Mdns(e)
    }
}

} // verus!
