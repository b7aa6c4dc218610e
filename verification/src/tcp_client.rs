//! Client for the inverter's own SunSpec register map (common block and inverter model).
use vstd::prelude::*;

use crate::decode::{regs_i16, regs_string, regs_u16, regs_u32, scaled_i16, scaled_u16, scaled_u32, ReadingKind, ScaledValue};
use crate::discover::SolaredgeHostInfo;
use crate::error::ClientError;
use crate::reading::{read_scaled, reads_scaled, reads_string, reads_u16, reads_u32, scaled_reads, scaled_words};
use crate::slot::{READ_TIMEOUT_SECS, SLOT1_BASE};
use crate::transport::{fails_with_last_error, last_words, one_read, ConnectParams, Connection, ReadError, ReadRecord};

verus! {

/// A Modbus TCP connection to an inverter.
pub struct TcpClient {
    client: Connection,
}

/// Registers of the inverter's SunSpec map, by absolute address.
#[derive(Debug, Clone, Copy, PartialEq, Eq, Structural)]
#[allow(non_camel_case_types)]
pub enum SunspecRegister {
    /// Value = "SunS" (0x53756e53). Uniquely identifies this as a SunSpec MODBUS Map
    C_SunSpec_ID,
    /// Value = 0x0001. Uniquely identifies this as a SunSpec Common Model Block
    C_SunSpec_DID,
    /// Value Registered with SunSpec = "SolarEdge "
    C_Manufacturer,
    /// SolarEdge Specific Value
    C_Model,
    /// SolarEdge Specific Value
    C_Version,
    /// SolarEdge Unique Value
    C_SerialNumber,
    /// MODBUS Unit ID
    C_DeviceAddress,
    /// 101 = single phase, 102 = split phase, 103 = three phase
    I_PhaseCount,
    /// Amps AC Total Current value
    I_AC_Current,
    /// Amps AC Phase A Current value
    I_AC_CurrentA,
    /// Amps AC Phase B Current value
    I_AC_CurrentB,
    /// Amps AC Phase C Current value
    I_AC_CurrentC,
    /// AC Current scale factor
    I_AC_Current_SF,
    /// Volts AC Voltage Phase AB value
    I_AC_VoltageAB,
    /// Volts AC Voltage Phase BC value
    I_AC_VoltageBC,
    /// Volts AC Voltage Phase CA value
    I_AC_VoltageCA,
    /// Volts AC Voltage Phase A to N value
    I_AC_VoltageAN,
    /// Volts AC Voltage Phase B to N value
    I_AC_VoltageBN,
    /// Volts AC Voltage Phase C to N value
    I_AC_VoltageCN,
    /// AC Voltage scale factor
    I_AC_Voltage_SF,
    /// Watts AC Power value
    I_AC_Power,
    /// AC Power scale factor
    I_AC_Power_SF,
    /// Hertz AC Frequency value
    I_AC_Frequency,
    /// Scale factor
    I_AC_Frequency_SF,
    /// VA Apparent Power
    I_AC_VA,
    /// Scale factor
    I_AC_VA_SF,
    /// VAR Reactive Power
    I_AC_VAR2,
    /// Scale factor
    I_AC_VAR_SF2,
    /// Power Factor
    I_AC_PF1,
    /// Scale factor
    I_AC_PF_SF1,
    /// WattHours AC Lifetime Energy production
    I_AC_Energy_WH,
    /// Scale factor
    I_AC_Energy_WH_SF,
    /// Amps DC Current value
    I_DC_Current,
    /// Scale factor
    I_DC_Current_SF,
    /// Volts DC Voltage value
    I_DC_Voltage,
    /// Scale factor
    I_DC_Voltage_SF,
    /// Watts DC Power value
    I_DC_Power,
    /// Scale factor
    I_DC_Power_SF,
    /// Degrees C Heat Sink Temperature
    I_Temp_Sink,
    /// Scale factor
    I_Temp_SF,
    /// Operating State
    I_Status,
    /// Vendor-defined operating state and error codes
    I_Status_Vendor,
    /// Vendor-defined operating state and error codes, 16 MSB controller type, 16 LSB error code
    I_Status_Vendor4,
}

impl SunspecRegister {
    /// Address of the register's first word.
    pub open spec fn spec_address(self) -> int {
        match self {
            SunspecRegister::C_SunSpec_ID => 40000,
            SunspecRegister::C_SunSpec_DID => 40002,
            SunspecRegister::C_Manufacturer => 40004,
            SunspecRegister::C_Model => 40020,
            SunspecRegister::C_Version => 40044,
            SunspecRegister::C_SerialNumber => 40052,
            SunspecRegister::C_DeviceAddress => 40068,
            SunspecRegister::I_PhaseCount => 40069,
            SunspecRegister::I_AC_Current => 40071,
            SunspecRegister::I_AC_CurrentA => 40072,
            SunspecRegister::I_AC_CurrentB => 40073,
            SunspecRegister::I_AC_CurrentC => 40074,
            SunspecRegister::I_AC_Current_SF => 40075,
            SunspecRegister::I_AC_VoltageAB => 40076,
            SunspecRegister::I_AC_VoltageBC => 40077,
            SunspecRegister::I_AC_VoltageCA => 40078,
            SunspecRegister::I_AC_VoltageAN => 40079,
            SunspecRegister::I_AC_VoltageBN => 40080,
            SunspecRegister::I_AC_VoltageCN => 40081,
            SunspecRegister::I_AC_Voltage_SF => 40082,
            SunspecRegister::I_AC_Power => 40083,
            SunspecRegister::I_AC_Power_SF => 40084,
            SunspecRegister::I_AC_Frequency => 40085,
            SunspecRegister::I_AC_Frequency_SF => 40086,
            SunspecRegister::I_AC_VA => 40087,
            SunspecRegister::I_AC_VA_SF => 40088,
            SunspecRegister::I_AC_VAR2 => 40089,
            SunspecRegister::I_AC_VAR_SF2 => 40090,
            SunspecRegister::I_AC_PF1 => 40091,
            SunspecRegister::I_AC_PF_SF1 => 40092,
            SunspecRegister::I_AC_Energy_WH => 40093,
            SunspecRegister::I_AC_Energy_WH_SF => 40095,
            SunspecRegister::I_DC_Current => 40096,
            SunspecRegister::I_DC_Current_SF => 40097,
            SunspecRegister::I_DC_Voltage => 40098,
            SunspecRegister::I_DC_Voltage_SF => 40099,
            SunspecRegister::I_DC_Power => 40100,
            SunspecRegister::I_DC_Power_SF => 40101,
            SunspecRegister::I_Temp_Sink => 40103,
            SunspecRegister::I_Temp_SF => 40106,
            SunspecRegister::I_Status => 40107,
            SunspecRegister::I_Status_Vendor => 40108,
            SunspecRegister::I_Status_Vendor4 => 40119,
        }
    }

    /// Number of words the register spans.
    pub open spec fn spec_size(self) -> int {
        match self {
            SunspecRegister::C_SunSpec_ID => 2,
            SunspecRegister::C_Manufacturer => 16,
            SunspecRegister::C_Model => 16,
            SunspecRegister::C_Version => 8,
            SunspecRegister::C_SerialNumber => 16,
            SunspecRegister::I_AC_Energy_WH => 2,
            SunspecRegister::I_Status_Vendor4 => 2,
            _ => 1,
        }
    }

    /// The register that follows this one in the SunSpec model's point order (among the
    /// registers this library reads); `None` for the last one.
    pub open spec fn point_after(self) -> Option<SunspecRegister> {
        match self {
            SunspecRegister::C_SunSpec_ID => Some(SunspecRegister::C_SunSpec_DID),
            SunspecRegister::C_SunSpec_DID => Some(SunspecRegister::C_Manufacturer),
            SunspecRegister::C_Manufacturer => Some(SunspecRegister::C_Model),
            SunspecRegister::C_Model => Some(SunspecRegister::C_Version),
            SunspecRegister::C_Version => Some(SunspecRegister::C_SerialNumber),
            SunspecRegister::C_SerialNumber => Some(SunspecRegister::C_DeviceAddress),
            SunspecRegister::C_DeviceAddress => Some(SunspecRegister::I_PhaseCount),
            SunspecRegister::I_PhaseCount => Some(SunspecRegister::I_AC_Current),
            SunspecRegister::I_AC_Current => Some(SunspecRegister::I_AC_CurrentA),
            SunspecRegister::I_AC_CurrentA => Some(SunspecRegister::I_AC_CurrentB),
            SunspecRegister::I_AC_CurrentB => Some(SunspecRegister::I_AC_CurrentC),
            SunspecRegister::I_AC_CurrentC => Some(SunspecRegister::I_AC_Current_SF),
            SunspecRegister::I_AC_Current_SF => Some(SunspecRegister::I_AC_VoltageAB),
            SunspecRegister::I_AC_VoltageAB => Some(SunspecRegister::I_AC_VoltageBC),
            SunspecRegister::I_AC_VoltageBC => Some(SunspecRegister::I_AC_VoltageCA),
            SunspecRegister::I_AC_VoltageCA => Some(SunspecRegister::I_AC_VoltageAN),
            SunspecRegister::I_AC_VoltageAN => Some(SunspecRegister::I_AC_VoltageBN),
            SunspecRegister::I_AC_VoltageBN => Some(SunspecRegister::I_AC_VoltageCN),
            SunspecRegister::I_AC_VoltageCN => Some(SunspecRegister::I_AC_Voltage_SF),
            SunspecRegister::I_AC_Voltage_SF => Some(SunspecRegister::I_AC_Power),
            SunspecRegister::I_AC_Power => Some(SunspecRegister::I_AC_Power_SF),
            SunspecRegister::I_AC_Power_SF => Some(SunspecRegister::I_AC_Frequency),
            SunspecRegister::I_AC_Frequency => Some(SunspecRegister::I_AC_Frequency_SF),
            SunspecRegister::I_AC_Frequency_SF => Some(SunspecRegister::I_AC_VA),
            SunspecRegister::I_AC_VA => Some(SunspecRegister::I_AC_VA_SF),
            SunspecRegister::I_AC_VA_SF => Some(SunspecRegister::I_AC_VAR2),
            SunspecRegister::I_AC_VAR2 => Some(SunspecRegister::I_AC_VAR_SF2),
            SunspecRegister::I_AC_VAR_SF2 => Some(SunspecRegister::I_AC_PF1),
            SunspecRegister::I_AC_PF1 => Some(SunspecRegister::I_AC_PF_SF1),
            SunspecRegister::I_AC_PF_SF1 => Some(SunspecRegister::I_AC_Energy_WH),
            SunspecRegister::I_AC_Energy_WH => Some(SunspecRegister::I_AC_Energy_WH_SF),
            SunspecRegister::I_AC_Energy_WH_SF => Some(SunspecRegister::I_DC_Current),
            SunspecRegister::I_DC_Current => Some(SunspecRegister::I_DC_Current_SF),
            SunspecRegister::I_DC_Current_SF => Some(SunspecRegister::I_DC_Voltage),
            SunspecRegister::I_DC_Voltage => Some(SunspecRegister::I_DC_Voltage_SF),
            SunspecRegister::I_DC_Voltage_SF => Some(SunspecRegister::I_DC_Power),
            SunspecRegister::I_DC_Power => Some(SunspecRegister::I_DC_Power_SF),
            SunspecRegister::I_DC_Power_SF => Some(SunspecRegister::I_Temp_Sink),
            SunspecRegister::I_Temp_Sink => Some(SunspecRegister::I_Temp_SF),
            SunspecRegister::I_Temp_SF => Some(SunspecRegister::I_Status),
            SunspecRegister::I_Status => Some(SunspecRegister::I_Status_Vendor),
            SunspecRegister::I_Status_Vendor => Some(SunspecRegister::I_Status_Vendor4),
            SunspecRegister::I_Status_Vendor4 => None,
        }
    }

    /// How many words of SunSpec points that this library does not read lie between this
    /// register and the next: the common block's length and options, the inverter model's
    /// length, three of its temperatures, and its event words.
    pub open spec fn words_skipped_after(self) -> int {
        match self {
            SunspecRegister::C_SunSpec_DID => 1,
            SunspecRegister::C_Model => 8,
            SunspecRegister::I_PhaseCount => 1,
            SunspecRegister::I_DC_Power_SF => 1,
            SunspecRegister::I_Temp_Sink => 2,
            SunspecRegister::I_Status_Vendor => 10,
            _ => 0,
        }
    }

    /// Address of the register's first word.
    pub fn address(&self) -> (r: u16)
        ensures
            r as int == self.spec_address(),
    {
        match self {
            SunspecRegister::C_SunSpec_ID => 40000,
            SunspecRegister::C_SunSpec_DID => 40002,
            SunspecRegister::C_Manufacturer => 40004,
            SunspecRegister::C_Model => 40020,
            SunspecRegister::C_Version => 40044,
            SunspecRegister::C_SerialNumber => 40052,
            SunspecRegister::C_DeviceAddress => 40068,
            SunspecRegister::I_PhaseCount => 40069,
            SunspecRegister::I_AC_Current => 40071,
            SunspecRegister::I_AC_CurrentA => 40072,
            SunspecRegister::I_AC_CurrentB => 40073,
            SunspecRegister::I_AC_CurrentC => 40074,
            SunspecRegister::I_AC_Current_SF => 40075,
            SunspecRegister::I_AC_VoltageAB => 40076,
            SunspecRegister::I_AC_VoltageBC => 40077,
            SunspecRegister::I_AC_VoltageCA => 40078,
            SunspecRegister::I_AC_VoltageAN => 40079,
            SunspecRegister::I_AC_VoltageBN => 40080,
            SunspecRegister::I_AC_VoltageCN => 40081,
            SunspecRegister::I_AC_Voltage_SF => 40082,
            SunspecRegister::I_AC_Power => 40083,
            SunspecRegister::I_AC_Power_SF => 40084,
            SunspecRegister::I_AC_Frequency => 40085,
            SunspecRegister::I_AC_Frequency_SF => 40086,
            SunspecRegister::I_AC_VA => 40087,
            SunspecRegister::I_AC_VA_SF => 40088,
            SunspecRegister::I_AC_VAR2 => 40089,
            SunspecRegister::I_AC_VAR_SF2 => 40090,
            SunspecRegister::I_AC_PF1 => 40091,
            SunspecRegister::I_AC_PF_SF1 => 40092,
            SunspecRegister::I_AC_Energy_WH => 40093,
            SunspecRegister::I_AC_Energy_WH_SF => 40095,
            SunspecRegister::I_DC_Current => 40096,
            SunspecRegister::I_DC_Current_SF => 40097,
            SunspecRegister::I_DC_Voltage => 40098,
            SunspecRegister::I_DC_Voltage_SF => 40099,
            SunspecRegister::I_DC_Power => 40100,
            SunspecRegister::I_DC_Power_SF => 40101,
            SunspecRegister::I_Temp_Sink => 40103,
            SunspecRegister::I_Temp_SF => 40106,
            SunspecRegister::I_Status => 40107,
            SunspecRegister::I_Status_Vendor => 40108,
            SunspecRegister::I_Status_Vendor4 => 40119,
        }
    }

    /// Number of words the register spans.
    pub fn size(&self) -> (r: u16)
        ensures
            r as int == self.spec_size(),
    {
        match self {
            SunspecRegister::C_SunSpec_ID => 2,
            SunspecRegister::C_Manufacturer => 16,
            SunspecRegister::C_Model => 16,
            SunspecRegister::C_Version => 8,
            SunspecRegister::C_SerialNumber => 16,
            SunspecRegister::I_AC_Energy_WH => 2,
            SunspecRegister::I_Status_Vendor4 => 2,
            _ => 1,
        }
    }
}

/// The inverter map is the SunSpec layout of the common block followed by an inverter model
/// (101 to 103): the registers follow each other in point order, with only the words of
/// points this library does not read between them ([`SunspecRegister::words_skipped_after`]),
/// from `C_SunSpec_ID` at 40000 to `I_Status_Vendor4`, which ends where the first meter
/// slot begins.  So AC power `I_AC_Power` is at 40083 with its scale factor right after it
/// at 40084, and the operating state `I_Status` is at 40107, before `I_Status_Vendor` at
/// 40108.
pub proof fn lemma_inverter_layout(reg: SunspecRegister)
    ensures
        reg.point_after() matches Some(next) ==> reg.spec_address() + reg.spec_size()
            + reg.words_skipped_after() == next.spec_address(),
        reg.point_after() is None <==> reg == SunspecRegister::I_Status_Vendor4,
        reg.point_after() != Some(SunspecRegister::C_SunSpec_ID),
        0 <= reg.words_skipped_after() <= 10,
        SunspecRegister::C_SunSpec_ID.spec_address() == 40000,
        SunspecRegister::I_Status_Vendor4.spec_address() + SunspecRegister::I_Status_Vendor4.spec_size()
            == SLOT1_BASE,
        SunspecRegister::I_AC_Power.spec_address() == 40083,
        SunspecRegister::I_AC_Power_SF.spec_address() == 40084,
        SunspecRegister::I_Status.spec_address() == 40107,
        SunspecRegister::I_Status_Vendor.spec_address() == 40108,
{
}

/// Distinct registers of the inverter map occupy disjoint word ranges: no value register
/// shares a word with a scale factor or with any other register.
pub proof fn lemma_inverter_registers_disjoint(a: SunspecRegister, b: SunspecRegister)
    requires
        a != b,
    ensures
        a.spec_address() + a.spec_size() <= b.spec_address() || b.spec_address() + b.spec_size()
            <= a.spec_address(),
{
}


impl TcpClient {
    /// Every read this client has made, oldest first.
    pub closed spec fn history(self) -> Seq<ReadRecord> {
        self.client.history()
    }

    /// The transport of the client's connection.
    pub closed spec fn spec_transport(self) -> modbus::tcp::Transport {
        self.client.spec_transport()
    }

    /// What the client's connection was opened with.
    pub closed spec fn opened_with(self) -> Option<ConnectParams> {
        self.client.opened_with()
    }

    /// Connects to the inverter at `address` on `port`, addressing Modbus unit `device_id`,
    /// with a read timeout of [`READ_TIMEOUT_SECS`] seconds.
    pub fn new(address: &str, port: u16, device_id: u8) -> (r: Result<Self, ClientError>)
        ensures
            r matches Ok(c) ==> c.history() == Seq::<ReadRecord>::empty() && c.opened_with() == Some(
                ConnectParams { address: address@, port, modbus_uid: device_id, read_timeout_secs: READ_TIMEOUT_SECS },
            ),
            r matches Err(e) ==> e is Io,
    {
        match Connection::open(address, port, device_id, READ_TIMEOUT_SECS) {
            Ok(client) => Ok(TcpClient { client }),
            Err(e) => Err(ClientError::Io(e)),
        }
    }

    /// Connects to a discovered inverter, at its first address (or its hostname when it
    /// announced none), on its port and Modbus unit id.
    pub fn new_from_host_info(host_info: &SolaredgeHostInfo) -> (r: Result<Self, ClientError>)
        ensures
            r matches Ok(c) ==> c.history() == Seq::<ReadRecord>::empty() && c.opened_with() == Some(
                ConnectParams {
                    address: host_info.spec_address(),
                    port: host_info.port,
                    modbus_uid: host_info.modbus_id,
                    read_timeout_secs: READ_TIMEOUT_SECS,
                },
            ),
            r matches Err(e) ==> e is Io,
    {
        let address = host_info.address();
        Self::new(address.as_str(), host_info.port, host_info.modbus_id)
    }

    /// Consume this client and return the underlying transport.
    ///
    /// Use this to pass the existing TCP session to [`crate::slot::Slot::open_on_transport`],
    /// avoiding the close/reopen cycle that causes SolarEdge inverters to fail due to their
    /// single-session limitation.
    pub fn into_transport(self) -> (r: modbus::tcp::Transport)
        ensures
            r == self.spec_transport(),
    {
        self.client.into_transport()
    }

    /// Value = "SunS" (0x53756e53). Uniquely identifies this as a SunSpec MODBUS Map
    pub fn spec_id(&mut self) -> (r: Result<String, ClientError>)
        ensures
            reads_string(
                old(self).history(),
                final(self).history(),
                SunspecRegister::C_SunSpec_ID.spec_address(),
                SunspecRegister::C_SunSpec_ID.spec_size(),
                r,
            ),
    {
        match self.read_register(SunspecRegister::C_SunSpec_ID) {
            Ok(regs) => Ok(regs_string(&regs)),
            Err(e) => Err(ClientError::Modbus(e.error)),
        }
    }

    /// Value = 0x0001. Uniquely identifies this as a SunSpec Common Model Block
    pub fn model_id(&mut self) -> (r: Result<u16, ClientError>)
        ensures
            reads_u16(
                old(self).history(),
                final(self).history(),
                SunspecRegister::C_SunSpec_DID.spec_address(),
                SunspecRegister::C_SunSpec_DID.spec_size(),
                r,
            ),
    {
        match self.read_register(SunspecRegister::C_SunSpec_DID) {
            Ok(regs) => Ok(regs_u16(&regs)),
            Err(e) => Err(ClientError::Modbus(e.error)),
        }
    }

    /// Value Registered with SunSpec = "SolarEdge "
    pub fn manufacturer(&mut self) -> (r: Result<String, ClientError>)
        ensures
            reads_string(
                old(self).history(),
                final(self).history(),
                SunspecRegister::C_Manufacturer.spec_address(),
                SunspecRegister::C_Manufacturer.spec_size(),
                r,
            ),
    {
        match self.read_register(SunspecRegister::C_Manufacturer) {
            Ok(regs) => Ok(regs_string(&regs)),
            Err(e) => Err(ClientError::Modbus(e.error)),
        }
    }

    /// SolarEdge Specific Value
    pub fn model(&mut self) -> (r: Result<String, ClientError>)
        ensures
            reads_string(
                old(self).history(),
                final(self).history(),
                SunspecRegister::C_Model.spec_address(),
                SunspecRegister::C_Model.spec_size(),
                r,
            ),
    {
        match self.read_register(SunspecRegister::C_Model) {
            Ok(regs) => Ok(regs_string(&regs)),
            Err(e) => Err(ClientError::Modbus(e.error)),
        }
    }

    /// SolarEdge Specific Value
    pub fn version(&mut self) -> (r: Result<String, ClientError>)
        ensures
            reads_string(
                old(self).history(),
                final(self).history(),
                SunspecRegister::C_Version.spec_address(),
                SunspecRegister::C_Version.spec_size(),
                r,
            ),
    {
        match self.read_register(SunspecRegister::C_Version) {
            Ok(regs) => Ok(regs_string(&regs)),
            Err(e) => Err(ClientError::Modbus(e.error)),
        }
    }

    /// SolarEdge Unique Value
    pub fn serial_number(&mut self) -> (r: Result<String, ClientError>)
        ensures
            reads_string(
                old(self).history(),
                final(self).history(),
                SunspecRegister::C_SerialNumber.spec_address(),
                SunspecRegister::C_SerialNumber.spec_size(),
                r,
            ),
    {
        match self.read_register(SunspecRegister::C_SerialNumber) {
            Ok(regs) => Ok(regs_string(&regs)),
            Err(e) => Err(ClientError::Modbus(e.error)),
        }
    }

    /// MODBUS Unit ID
    pub fn device_address(&mut self) -> (r: Result<u16, ClientError>)
        ensures
            reads_u16(
                old(self).history(),
                final(self).history(),
                SunspecRegister::C_DeviceAddress.spec_address(),
                SunspecRegister::C_DeviceAddress.spec_size(),
                r,
            ),
    {
        match self.read_register(SunspecRegister::C_DeviceAddress) {
            Ok(regs) => Ok(regs_u16(&regs)),
            Err(e) => Err(ClientError::Modbus(e.error)),
        }
    }

    /// The number of AC phases.  A value other than 101, 102 or 103 is reported as
    /// [`ClientError::InvalidPhaseCountValue`].
    pub fn phase_count(&mut self) -> (r: Result<PhaseCount, ClientError>)
        ensures
            one_read(
                old(self).history(),
                final(self).history(),
                SunspecRegister::I_PhaseCount.spec_address(),
                SunspecRegister::I_PhaseCount.spec_size(),
            ),
            match last_words(final(self).history()) {
                Some(w) => r == PhaseCount::spec_from_register(w[0]),
                None => fails_with_last_error(final(self).history(), r),
            },
    {
        match self.read_register(SunspecRegister::I_PhaseCount) {
            Ok(regs) => PhaseCount::from_register(regs_u16(&regs)),
            Err(e) => Err(ClientError::Modbus(e.error)),
        }
    }

    /// Amps AC Total Current value
    pub fn ac_current(&mut self) -> (r: Result<ScaledValue, ClientError>)
        ensures
            reads_scaled(
                old(self).history(), final(self).history(),
                SunspecRegister::I_AC_Current.spec_address(),
                SunspecRegister::I_AC_Current.spec_size(),
                SunspecRegister::I_AC_Current_SF.spec_address(),
                SunspecRegister::I_AC_Current_SF.spec_size(),
                ReadingKind::U16,
                r,
            ),
    {
        match self.read_register_with_scale(SunspecRegister::I_AC_Current, SunspecRegister::I_AC_Current_SF) {
            Ok((val, scale)) => Ok(scaled_u16(regs_u16(&val), scale)),
            Err(e) => Err(ClientError::Modbus(e.error)),
        }
    }

    /// Amps AC Phase A Current value
    pub fn ac_current_a(&mut self) -> (r: Result<ScaledValue, ClientError>)
        ensures
            reads_scaled(
                old(self).history(), final(self).history(),
                SunspecRegister::I_AC_CurrentA.spec_address(),
                SunspecRegister::I_AC_CurrentA.spec_size(),
                SunspecRegister::I_AC_Current_SF.spec_address(),
                SunspecRegister::I_AC_Current_SF.spec_size(),
                ReadingKind::U16,
                r,
            ),
    {
        match self.read_register_with_scale(SunspecRegister::I_AC_CurrentA, SunspecRegister::I_AC_Current_SF) {
            Ok((val, scale)) => Ok(scaled_u16(regs_u16(&val), scale)),
            Err(e) => Err(ClientError::Modbus(e.error)),
        }
    }

    /// Amps AC Phase B Current value
    pub fn ac_current_b(&mut self) -> (r: Result<ScaledValue, ClientError>)
        ensures
            reads_scaled(
                old(self).history(), final(self).history(),
                SunspecRegister::I_AC_CurrentB.spec_address(),
                SunspecRegister::I_AC_CurrentB.spec_size(),
                SunspecRegister::I_AC_Current_SF.spec_address(),
                SunspecRegister::I_AC_Current_SF.spec_size(),
                ReadingKind::U16,
                r,
            ),
    {
        match self.read_register_with_scale(SunspecRegister::I_AC_CurrentB, SunspecRegister::I_AC_Current_SF) {
            Ok((val, scale)) => Ok(scaled_u16(regs_u16(&val), scale)),
            Err(e) => Err(ClientError::Modbus(e.error)),
        }
    }

    /// Amps AC Phase C Current value
    pub fn ac_current_c(&mut self) -> (r: Result<ScaledValue, ClientError>)
        ensures
            reads_scaled(
                old(self).history(), final(self).history(),
                SunspecRegister::I_AC_CurrentC.spec_address(),
                SunspecRegister::I_AC_CurrentC.spec_size(),
                SunspecRegister::I_AC_Current_SF.spec_address(),
                SunspecRegister::I_AC_Current_SF.spec_size(),
                ReadingKind::U16,
                r,
            ),
    {
        match self.read_register_with_scale(SunspecRegister::I_AC_CurrentC, SunspecRegister::I_AC_Current_SF) {
            Ok((val, scale)) => Ok(scaled_u16(regs_u16(&val), scale)),
            Err(e) => Err(ClientError::Modbus(e.error)),
        }
    }

    /// Volts AC Voltage Phase AB value
    pub fn ac_voltage_ab(&mut self) -> (r: Result<ScaledValue, ClientError>)
        ensures
            reads_scaled(
                old(self).history(), final(self).history(),
                SunspecRegister::I_AC_VoltageAB.spec_address(),
                SunspecRegister::I_AC_VoltageAB.spec_size(),
                SunspecRegister::I_AC_Voltage_SF.spec_address(),
                SunspecRegister::I_AC_Voltage_SF.spec_size(),
                ReadingKind::U16,
                r,
            ),
    {
        match self.read_register_with_scale(SunspecRegister::I_AC_VoltageAB, SunspecRegister::I_AC_Voltage_SF) {
            Ok((val, scale)) => Ok(scaled_u16(regs_u16(&val), scale)),
            Err(e) => Err(ClientError::Modbus(e.error)),
        }
    }

    /// Volts AC Voltage Phase BC value
    pub fn ac_voltage_bc(&mut self) -> (r: Result<ScaledValue, ClientError>)
        ensures
            reads_scaled(
                old(self).history(), final(self).history(),
                SunspecRegister::I_AC_VoltageBC.spec_address(),
                SunspecRegister::I_AC_VoltageBC.spec_size(),
                SunspecRegister::I_AC_Voltage_SF.spec_address(),
                SunspecRegister::I_AC_Voltage_SF.spec_size(),
                ReadingKind::U16,
                r,
            ),
    {
        match self.read_register_with_scale(SunspecRegister::I_AC_VoltageBC, SunspecRegister::I_AC_Voltage_SF) {
            Ok((val, scale)) => Ok(scaled_u16(regs_u16(&val), scale)),
            Err(e) => Err(ClientError::Modbus(e.error)),
        }
    }

    /// Volts AC Voltage Phase CA value
    pub fn ac_voltage_ca(&mut self) -> (r: Result<ScaledValue, ClientError>)
        ensures
            reads_scaled(
                old(self).history(), final(self).history(),
                SunspecRegister::I_AC_VoltageCA.spec_address(),
                SunspecRegister::I_AC_VoltageCA.spec_size(),
                SunspecRegister::I_AC_Voltage_SF.spec_address(),
                SunspecRegister::I_AC_Voltage_SF.spec_size(),
                ReadingKind::U16,
                r,
            ),
    {
        match self.read_register_with_scale(SunspecRegister::I_AC_VoltageCA, SunspecRegister::I_AC_Voltage_SF) {
            Ok((val, scale)) => Ok(scaled_u16(regs_u16(&val), scale)),
            Err(e) => Err(ClientError::Modbus(e.error)),
        }
    }

    /// Volts AC Voltage Phase A to N value
    pub fn ac_voltage_an(&mut self) -> (r: Result<ScaledValue, ClientError>)
        ensures
            reads_scaled(
                old(self).history(), final(self).history(),
                SunspecRegister::I_AC_VoltageAN.spec_address(),
                SunspecRegister::I_AC_VoltageAN.spec_size(),
                SunspecRegister::I_AC_Voltage_SF.spec_address(),
                SunspecRegister::I_AC_Voltage_SF.spec_size(),
                ReadingKind::U16,
                r,
            ),
    {
        match self.read_register_with_scale(SunspecRegister::I_AC_VoltageAN, SunspecRegister::I_AC_Voltage_SF) {
            Ok((val, scale)) => Ok(scaled_u16(regs_u16(&val), scale)),
            Err(e) => Err(ClientError::Modbus(e.error)),
        }
    }

    /// Volts AC Voltage Phase B to N value
    pub fn ac_voltage_bn(&mut self) -> (r: Result<ScaledValue, ClientError>)
        ensures
            reads_scaled(
                old(self).history(), final(self).history(),
                SunspecRegister::I_AC_VoltageBN.spec_address(),
                SunspecRegister::I_AC_VoltageBN.spec_size(),
                SunspecRegister::I_AC_Voltage_SF.spec_address(),
                SunspecRegister::I_AC_Voltage_SF.spec_size(),
                ReadingKind::U16,
                r,
            ),
    {
        match self.read_register_with_scale(SunspecRegister::I_AC_VoltageBN, SunspecRegister::I_AC_Voltage_SF) {
            Ok((val, scale)) => Ok(scaled_u16(regs_u16(&val), scale)),
            Err(e) => Err(ClientError::Modbus(e.error)),
        }
    }

    /// Volts AC Voltage Phase C to N value
    pub fn ac_voltage_cn(&mut self) -> (r: Result<ScaledValue, ClientError>)
        ensures
            reads_scaled(
                old(self).history(), final(self).history(),
                SunspecRegister::I_AC_VoltageCN.spec_address(),
                SunspecRegister::I_AC_VoltageCN.spec_size(),
                SunspecRegister::I_AC_Voltage_SF.spec_address(),
                SunspecRegister::I_AC_Voltage_SF.spec_size(),
                ReadingKind::U16,
                r,
            ),
    {
        match self.read_register_with_scale(SunspecRegister::I_AC_VoltageCN, SunspecRegister::I_AC_Voltage_SF) {
            Ok((val, scale)) => Ok(scaled_u16(regs_u16(&val), scale)),
            Err(e) => Err(ClientError::Modbus(e.error)),
        }
    }

    /// Watts AC Power value
    pub fn ac_power(&mut self) -> (r: Result<ScaledValue, ClientError>)
        ensures
            reads_scaled(
                old(self).history(), final(self).history(),
                SunspecRegister::I_AC_Power.spec_address(),
                SunspecRegister::I_AC_Power.spec_size(),
                SunspecRegister::I_AC_Power_SF.spec_address(),
                SunspecRegister::I_AC_Power_SF.spec_size(),
                ReadingKind::I16,
                r,
            ),
    {
        match self.read_register_with_scale(SunspecRegister::I_AC_Power, SunspecRegister::I_AC_Power_SF) {
            Ok((val, scale)) => Ok(scaled_i16(regs_i16(&val), scale)),
            Err(e) => Err(ClientError::Modbus(e.error)),
        }
    }

    /// Hertz AC Frequency value
    pub fn ac_frequency(&mut self) -> (r: Result<ScaledValue, ClientError>)
        ensures
            reads_scaled(
                old(self).history(), final(self).history(),
                SunspecRegister::I_AC_Frequency.spec_address(),
                SunspecRegister::I_AC_Frequency.spec_size(),
                SunspecRegister::I_AC_Frequency_SF.spec_address(),
                SunspecRegister::I_AC_Frequency_SF.spec_size(),
                ReadingKind::U16,
                r,
            ),
    {
        match self.read_register_with_scale(SunspecRegister::I_AC_Frequency, SunspecRegister::I_AC_Frequency_SF) {
            Ok((val, scale)) => Ok(scaled_u16(regs_u16(&val), scale)),
            Err(e) => Err(ClientError::Modbus(e.error)),
        }
    }

    /// VA Apparent Power
    pub fn ac_va(&mut self) -> (r: Result<ScaledValue, ClientError>)
        ensures
            reads_scaled(
                old(self).history(), final(self).history(),
                SunspecRegister::I_AC_VA.spec_address(),
                SunspecRegister::I_AC_VA.spec_size(),
                SunspecRegister::I_AC_VA_SF.spec_address(),
                SunspecRegister::I_AC_VA_SF.spec_size(),
                ReadingKind::I16,
                r,
            ),
    {
        match self.read_register_with_scale(SunspecRegister::I_AC_VA, SunspecRegister::I_AC_VA_SF) {
            Ok((val, scale)) => Ok(scaled_i16(regs_i16(&val), scale)),
            Err(e) => Err(ClientError::Modbus(e.error)),
        }
    }

    /// VAR Reactive Power
    pub fn ac_var(&mut self) -> (r: Result<ScaledValue, ClientError>)
        ensures
            reads_scaled(
                old(self).history(), final(self).history(),
                SunspecRegister::I_AC_VAR2.spec_address(),
                SunspecRegister::I_AC_VAR2.spec_size(),
                SunspecRegister::I_AC_VAR_SF2.spec_address(),
                SunspecRegister::I_AC_VAR_SF2.spec_size(),
                ReadingKind::I16,
                r,
            ),
    {
        match self.read_register_with_scale(SunspecRegister::I_AC_VAR2, SunspecRegister::I_AC_VAR_SF2) {
            Ok((val, scale)) => Ok(scaled_i16(regs_i16(&val), scale)),
            Err(e) => Err(ClientError::Modbus(e.error)),
        }
    }

    /// Power Factor
    pub fn power_factor(&mut self) -> (r: Result<ScaledValue, ClientError>)
        ensures
            reads_scaled(
                old(self).history(), final(self).history(),
                SunspecRegister::I_AC_PF1.spec_address(),
                SunspecRegister::I_AC_PF1.spec_size(),
                SunspecRegister::I_AC_PF_SF1.spec_address(),
                SunspecRegister::I_AC_PF_SF1.spec_size(),
                ReadingKind::I16,
                r,
            ),
    {
        match self.read_register_with_scale(SunspecRegister::I_AC_PF1, SunspecRegister::I_AC_PF_SF1) {
            Ok((val, scale)) => Ok(scaled_i16(regs_i16(&val), scale)),
            Err(e) => Err(ClientError::Modbus(e.error)),
        }
    }

    /// WattHours AC Lifetime Energy production
    pub fn energy_wh(&mut self) -> (r: Result<ScaledValue, ClientError>)
        ensures
            reads_scaled(
                old(self).history(), final(self).history(),
                SunspecRegister::I_AC_Energy_WH.spec_address(),
                SunspecRegister::I_AC_Energy_WH.spec_size(),
                SunspecRegister::I_AC_Energy_WH_SF.spec_address(),
                SunspecRegister::I_AC_Energy_WH_SF.spec_size(),
                ReadingKind::U32,
                r,
            ),
    {
        match self.read_register_with_scale(SunspecRegister::I_AC_Energy_WH, SunspecRegister::I_AC_Energy_WH_SF) {
            Ok((val, scale)) => Ok(scaled_u32(regs_u32(&val), scale)),
            Err(e) => Err(ClientError::Modbus(e.error)),
        }
    }

    /// Amps DC Current value
    pub fn dc_current(&mut self) -> (r: Result<ScaledValue, ClientError>)
        ensures
            reads_scaled(
                old(self).history(), final(self).history(),
                SunspecRegister::I_DC_Current.spec_address(),
                SunspecRegister::I_DC_Current.spec_size(),
                SunspecRegister::I_DC_Current_SF.spec_address(),
                SunspecRegister::I_DC_Current_SF.spec_size(),
                ReadingKind::U16,
                r,
            ),
    {
        match self.read_register_with_scale(SunspecRegister::I_DC_Current, SunspecRegister::I_DC_Current_SF) {
            Ok((val, scale)) => Ok(scaled_u16(regs_u16(&val), scale)),
            Err(e) => Err(ClientError::Modbus(e.error)),
        }
    }

    /// Volts DC Voltage value
    pub fn dc_voltage(&mut self) -> (r: Result<ScaledValue, ClientError>)
        ensures
            reads_scaled(
                old(self).history(), final(self).history(),
                SunspecRegister::I_DC_Voltage.spec_address(),
                SunspecRegister::I_DC_Voltage.spec_size(),
                SunspecRegister::I_DC_Voltage_SF.spec_address(),
                SunspecRegister::I_DC_Voltage_SF.spec_size(),
                ReadingKind::U16,
                r,
            ),
    {
        match self.read_register_with_scale(SunspecRegister::I_DC_Voltage, SunspecRegister::I_DC_Voltage_SF) {
            Ok((val, scale)) => Ok(scaled_u16(regs_u16(&val), scale)),
            Err(e) => Err(ClientError::Modbus(e.error)),
        }
    }

    /// Watts DC Power value
    pub fn dc_power(&mut self) -> (r: Result<ScaledValue, ClientError>)
        ensures
            reads_scaled(
                old(self).history(), final(self).history(),
                SunspecRegister::I_DC_Power.spec_address(),
                SunspecRegister::I_DC_Power.spec_size(),
                SunspecRegister::I_DC_Power_SF.spec_address(),
                SunspecRegister::I_DC_Power_SF.spec_size(),
                ReadingKind::I16,
                r,
            ),
    {
        match self.read_register_with_scale(SunspecRegister::I_DC_Power, SunspecRegister::I_DC_Power_SF) {
            Ok((val, scale)) => Ok(scaled_i16(regs_i16(&val), scale)),
            Err(e) => Err(ClientError::Modbus(e.error)),
        }
    }

    /// Degrees C Heat Sink Temperature
    pub fn temp_sink(&mut self) -> (r: Result<ScaledValue, ClientError>)
        ensures
            reads_scaled(
                old(self).history(), final(self).history(),
                SunspecRegister::I_Temp_Sink.spec_address(),
                SunspecRegister::I_Temp_Sink.spec_size(),
                SunspecRegister::I_Temp_SF.spec_address(),
                SunspecRegister::I_Temp_SF.spec_size(),
                ReadingKind::I16,
                r,
            ),
    {
        match self.read_register_with_scale(SunspecRegister::I_Temp_Sink, SunspecRegister::I_Temp_SF) {
            Ok((val, scale)) => Ok(scaled_i16(regs_i16(&val), scale)),
            Err(e) => Err(ClientError::Modbus(e.error)),
        }
    }

    /// Operating State
    pub fn status(&mut self) -> (r: Result<InverterStatus, ClientError>)
        ensures
            one_read(
                old(self).history(),
                final(self).history(),
                SunspecRegister::I_Status.spec_address(),
                SunspecRegister::I_Status.spec_size(),
            ),
            match last_words(final(self).history()) {
                Some(w) => r == Ok::<InverterStatus, ClientError>(InverterStatus::spec_from_u16(w[0])),
                None => fails_with_last_error(final(self).history(), r),
            },
    {
        match self.read_register(SunspecRegister::I_Status) {
            Ok(regs) => Ok(InverterStatus::from_u16(regs_u16(&regs))),
            Err(e) => Err(ClientError::Modbus(e.error)),
        }
    }

    /// Vendor-defined operating state and error codes. For error description, meaning, and troubleshooting, refer to the SolarEdge
    /// Installation Guide.
    pub fn status_vendor(&mut self) -> (r: Result<u16, ClientError>)
        ensures
            reads_u16(
                old(self).history(),
                final(self).history(),
                SunspecRegister::I_Status_Vendor.spec_address(),
                SunspecRegister::I_Status_Vendor.spec_size(),
                r,
            ),
    {
        match self.read_register(SunspecRegister::I_Status_Vendor) {
            Ok(regs) => Ok(regs_u16(&regs)),
            Err(e) => Err(ClientError::Modbus(e.error)),
        }
    }

    /// Vendor-defined operating state and error codes. For error description, meaning, and troubleshooting, refer to the SolarEdge
    /// Installation Guide, 16MSB for controller type (3x, 8x, 18x) and 16 LSB for error code.
    pub fn status_vendor4(&mut self) -> (r: Result<u32, ClientError>)
        ensures
            reads_u32(
                old(self).history(),
                final(self).history(),
                SunspecRegister::I_Status_Vendor4.spec_address(),
                SunspecRegister::I_Status_Vendor4.spec_size(),
                r,
            ),
    {
        match self.read_register(SunspecRegister::I_Status_Vendor4) {
            Ok(regs) => Ok(regs_u32(&regs)),
            Err(e) => Err(ClientError::Modbus(e.error)),
        }
    }
    /// Reads all words of `register`.
    fn read_register(&mut self, register: SunspecRegister) -> (r: Result<Vec<u16>, ReadError>)
        ensures
            one_read(
                old(self).history(),
                final(self).history(),
                register.spec_address(),
                register.spec_size(),
            ),
            match r {
                Ok(regs) => last_words(final(self).history()) == Some(regs@) && regs@.len() == register.spec_size(),
                Err(e) => final(self).history().last().outcome == Err::<Seq<u16>, ReadError>(e),
            },
    {
        self.client.read_holding_registers(register.address(), register.size())
    }

    /// Reads `register` and its scale factor, in one request when they are adjacent.
    fn read_register_with_scale(&mut self, register: SunspecRegister, scale_register: SunspecRegister)
        -> (r: Result<(Vec<u16>, i16), ReadError>)
        requires
            scale_register.spec_size() == 1,
        ensures
            scaled_reads(
                old(self).history(),
                final(self).history(),
                register.spec_address(),
                register.spec_size(),
                scale_register.spec_address(),
                scale_register.spec_size(),
            ),
            match scaled_words(
                old(self).history(),
                final(self).history(),
                register.spec_address(),
                register.spec_size(),
                scale_register.spec_address(),
                scale_register.spec_size(),
            ) {
                Some((w, k)) => (r matches Ok((v, sf)) && v@ == w && sf == k),
                None => (r matches Err(e) && final(self).history().last().outcome == Err::<Seq<u16>, ReadError>(e)),
            },
            r matches Ok((regs, _)) ==> regs@.len() == register.spec_size(),
    {
        read_scaled(
            &mut self.client,
            register.address(),
            register.size(),
            scale_register.address(),
            scale_register.size(),
        )
    }
}

/// The number of AC phases of an inverter.
#[derive(Debug, Clone, Copy, PartialEq, Eq, Structural)]
pub enum PhaseCount {
    SinglePhase,
    SplitPhase,
    ThreePhase,
}

impl PhaseCount {
    /// 101, 102 and 103 stand for single, split and three phases.
    pub open spec fn spec_from_u16(value: u16) -> Option<PhaseCount> {
        if value == 101 {
            Some(PhaseCount::SinglePhase)
        } else if value == 102 {
            Some(PhaseCount::SplitPhase)
        } else if value == 103 {
            Some(PhaseCount::ThreePhase)
        } else {
            None
        }
    }

    /// The phase count that a register value stands for, if any.
    pub fn from_u16(value: u16) -> (r: Option<Self>)
        ensures
            r == Self::spec_from_u16(value),
    {
        match value {
            101 => Some(PhaseCount::SinglePhase),
            102 => Some(PhaseCount::SplitPhase),
            103 => Some(PhaseCount::ThreePhase),
            _ => None,
        }
    }

    /// The phase count that a register value stands for, or
    /// [`ClientError::InvalidPhaseCountValue`] with the value.
    pub open spec fn spec_from_register(value: u16) -> Result<PhaseCount, ClientError> {
        match Self::spec_from_u16(value) {
            Some(p) => Ok(p),
            None => Err(ClientError::InvalidPhaseCountValue(value)),
        }
    }

    /// The phase count that a register value stands for, or
    /// [`ClientError::InvalidPhaseCountValue`] with the value.
    pub fn from_register(value: u16) -> (r: Result<Self, ClientError>)
        ensures
            r == Self::spec_from_register(value),
    {
        match PhaseCount::from_u16(value) {
            Some(p) => Ok(p),
            None => Err(ClientError::InvalidPhaseCountValue(value)),
        }
    }
}

/// Operating state of an inverter.
#[derive(Debug, Clone, Copy, PartialEq, Eq, Structural)]
pub enum InverterStatus {
    Off,
    /// Sleeping (auto-shutdown) – Night mode
    Sleeping,
    /// Grid Monitoring/wake-up
    Starting,
    /// Inverter is ON and producing power
    Mppt,
    /// Production (curtailed)
    Throttled,
    ShuttingDown,
    Fault,
    /// Maintenance/setup
    Standby,
    /// Vendor-specific status, refer to SolarEdge Installation Guide
    Vendor(u16),
}

impl InverterStatus {
    /// Codes 1 to 8 name the SunSpec states; any other code is vendor-specific.
    pub open spec fn spec_from_u16(value: u16) -> InverterStatus {
        if value == 1 {
            InverterStatus::Off
        } else if value == 2 {
            InverterStatus::Sleeping
        } else if value == 3 {
            InverterStatus::Starting
        } else if value == 4 {
            InverterStatus::Mppt
        } else if value == 5 {
            InverterStatus::Throttled
        } else if value == 6 {
            InverterStatus::ShuttingDown
        } else if value == 7 {
            InverterStatus::Fault
        } else if value == 8 {
            InverterStatus::Standby
        } else {
            InverterStatus::Vendor(value)
        }
    }

    /// The state that a status register value stands for.
    pub fn from_u16(value: u16) -> (r: Self)
        ensures
            r == Self::spec_from_u16(value),
    {
        match value {
            1 => InverterStatus::Off,
            2 => InverterStatus::Sleeping,
            3 => InverterStatus::Starting,
            4 => InverterStatus::Mppt,
            5 => InverterStatus::Throttled,
            6 => InverterStatus::ShuttingDown,
            7 => InverterStatus::Fault,
            8 => InverterStatus::Standby,
            v => InverterStatus::Vendor(v),
        }
    }
}

/// Distinct status codes give distinct states: no information is lost in decoding.
pub proof fn lemma_inverter_status_injective(a: u16, b: u16)
    requires
        a != b,
    ensures
        InverterStatus::spec_from_u16(a) != InverterStatus::spec_from_u16(b),
{
}

} // verus!
