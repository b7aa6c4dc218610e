//! Typed access to SolarEdge inverters over Modbus TCP (SunSpec register maps).
pub mod decode;
pub mod der_ac;
pub mod discover;
pub mod error;
pub mod meter;
pub mod reading;
pub mod slot;
pub mod tcp_client;
pub mod transport;

pub use error::ClientError;
pub use discover::SolaredgeHostInfo;
pub use der_ac::DerAcClient;
pub use meter::MeterClient;
pub use slot::{Slot, SlotNumber};
pub use tcp_client::TcpClient;
