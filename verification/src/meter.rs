//! Client for a SunSpec AC meter (models 201 to 204) in a meter slot of an inverter.
use vstd::prelude::*;

use crate::decode::{
    is_i16_reading, regs_i16, regs_string, regs_u16, regs_u32, scaled, scaled_i16, scaled_u32,
    word_as_i16, word_to_i16, ReadingKind, ScaledValue,
};
use crate::error::ClientError;
use crate::reading::{read_scaled, reads_scaled, reads_string, reads_u16, reads_u32, scaled_reads, scaled_words};
use crate::slot::{is_slot_base, SlotBase, SlotNumber, READ_TIMEOUT_SECS, SLOT_SPACING};
use crate::transport::{fails_with_last_error, last_words, one_read, ConnectParams, Connection, ReadError, ReadRecord};

verus! {

/// Client for a SunSpec AC meter slot in a SolarEdge inverter (models 201–204).
///
/// Register layout: SunSpec model 203.  SolarEdge-specific implementation details:
/// SunSpec Implementation Technical Note.
pub struct MeterClient {
    client: Connection,
    base: SlotBase,
}

/// Registers of a meter slot, by offset from the slot's base address.  Offsets 67-68 are
/// the SunSpec model block header (DID=203, Length=105); data starts at 69.
#[derive(Debug, Clone, Copy, PartialEq, Eq, Structural)]
#[allow(non_camel_case_types)]
pub enum MeterReg {
    C_Manufacturer,
    C_Model,
    C_Option,
    C_Version,
    C_SerialNumber,
    C_DeviceAddress,
    M_AC_Current,
    M_AC_Current_A,
    M_AC_Current_B,
    M_AC_Current_C,
    M_AC_Current_SF,
    M_AC_Voltage_LN,
    M_AC_Voltage_AN,
    M_AC_Voltage_BN,
    M_AC_Voltage_CN,
    M_AC_Voltage_LL,
    M_AC_Voltage_AB,
    M_AC_Voltage_BC,
    M_AC_Voltage_CA,
    M_AC_Voltage_SF,
    M_AC_Freq,
    M_AC_Freq_SF,
    M_AC_Power,
    M_AC_Power_A,
    M_AC_Power_B,
    M_AC_Power_C,
    M_AC_Power_SF,
    M_AC_VA,
    M_AC_VA_A,
    M_AC_VA_B,
    M_AC_VA_C,
    M_AC_VA_SF,
    M_AC_VAR,
    M_AC_VAR_A,
    M_AC_VAR_B,
    M_AC_VAR_C,
    M_AC_VAR_SF,
    M_AC_PF,
    M_AC_PF_A,
    M_AC_PF_B,
    M_AC_PF_C,
    M_AC_PF_SF,
    M_Exported,
    M_Exported_A,
    M_Exported_B,
    M_Exported_C,
    M_Imported,
    M_Imported_A,
    M_Imported_B,
    M_Imported_C,
    M_Energy_W_SF,
    M_Exported_VA,
    M_Exported_VA_A,
    M_Exported_VA_B,
    M_Exported_VA_C,
    M_Imported_VA,
    M_Imported_VA_A,
    M_Imported_VA_B,
    M_Imported_VA_C,
    M_Energy_VA_SF,
    M_Import_VARh_Q1,
    M_Import_VARh_Q1A,
    M_Import_VARh_Q1B,
    M_Import_VARh_Q1C,
    M_Import_VARh_Q2,
    M_Import_VARh_Q2A,
    M_Import_VARh_Q2B,
    M_Import_VARh_Q2C,
    M_Export_VARh_Q3,
    M_Export_VARh_Q3A,
    M_Export_VARh_Q3B,
    M_Export_VARh_Q3C,
    M_Export_VARh_Q4,
    M_Export_VARh_Q4A,
    M_Export_VARh_Q4B,
    M_Export_VARh_Q4C,
    M_Energy_VAR_SF,
    M_Events,
}

impl MeterReg {
    /// Offset of the register from the slot's base address.
    pub open spec fn spec_offset(self) -> int {
        match self {
            MeterReg::C_Manufacturer => 2,
            MeterReg::C_Model => 18,
            MeterReg::C_Option => 34,
            MeterReg::C_Version => 42,
            MeterReg::C_SerialNumber => 50,
            MeterReg::C_DeviceAddress => 66,
            MeterReg::M_AC_Current => 69,
            MeterReg::M_AC_Current_A => 70,
            MeterReg::M_AC_Current_B => 71,
            MeterReg::M_AC_Current_C => 72,
            MeterReg::M_AC_Current_SF => 73,
            MeterReg::M_AC_Voltage_LN => 74,
            MeterReg::M_AC_Voltage_AN => 75,
            MeterReg::M_AC_Voltage_BN => 76,
            MeterReg::M_AC_Voltage_CN => 77,
            MeterReg::M_AC_Voltage_LL => 78,
            MeterReg::M_AC_Voltage_AB => 79,
            MeterReg::M_AC_Voltage_BC => 80,
            MeterReg::M_AC_Voltage_CA => 81,
            MeterReg::M_AC_Voltage_SF => 82,
            MeterReg::M_AC_Freq => 83,
            MeterReg::M_AC_Freq_SF => 84,
            MeterReg::M_AC_Power => 85,
            MeterReg::M_AC_Power_A => 86,
            MeterReg::M_AC_Power_B => 87,
            MeterReg::M_AC_Power_C => 88,
            MeterReg::M_AC_Power_SF => 89,
            MeterReg::M_AC_VA => 90,
            MeterReg::M_AC_VA_A => 91,
            MeterReg::M_AC_VA_B => 92,
            MeterReg::M_AC_VA_C => 93,
            MeterReg::M_AC_VA_SF => 94,
            MeterReg::M_AC_VAR => 95,
            MeterReg::M_AC_VAR_A => 96,
            MeterReg::M_AC_VAR_B => 97,
            MeterReg::M_AC_VAR_C => 98,
            MeterReg::M_AC_VAR_SF => 99,
            MeterReg::M_AC_PF => 100,
            MeterReg::M_AC_PF_A => 101,
            MeterReg::M_AC_PF_B => 102,
            MeterReg::M_AC_PF_C => 103,
            MeterReg::M_AC_PF_SF => 104,
            MeterReg::M_Exported => 105,
            MeterReg::M_Exported_A => 107,
            MeterReg::M_Exported_B => 109,
            MeterReg::M_Exported_C => 111,
            MeterReg::M_Imported => 113,
            MeterReg::M_Imported_A => 115,
            MeterReg::M_Imported_B => 117,
            MeterReg::M_Imported_C => 119,
            MeterReg::M_Energy_W_SF => 121,
            MeterReg::M_Exported_VA => 122,
            MeterReg::M_Exported_VA_A => 124,
            MeterReg::M_Exported_VA_B => 126,
            MeterReg::M_Exported_VA_C => 128,
            MeterReg::M_Imported_VA => 130,
            MeterReg::M_Imported_VA_A => 132,
            MeterReg::M_Imported_VA_B => 134,
            MeterReg::M_Imported_VA_C => 136,
            MeterReg::M_Energy_VA_SF => 138,
            MeterReg::M_Import_VARh_Q1 => 139,
            MeterReg::M_Import_VARh_Q1A => 141,
            MeterReg::M_Import_VARh_Q1B => 143,
            MeterReg::M_Import_VARh_Q1C => 145,
            MeterReg::M_Import_VARh_Q2 => 147,
            MeterReg::M_Import_VARh_Q2A => 149,
            MeterReg::M_Import_VARh_Q2B => 151,
            MeterReg::M_Import_VARh_Q2C => 153,
            MeterReg::M_Export_VARh_Q3 => 155,
            MeterReg::M_Export_VARh_Q3A => 157,
            MeterReg::M_Export_VARh_Q3B => 159,
            MeterReg::M_Export_VARh_Q3C => 161,
            MeterReg::M_Export_VARh_Q4 => 163,
            MeterReg::M_Export_VARh_Q4A => 165,
            MeterReg::M_Export_VARh_Q4B => 167,
            MeterReg::M_Export_VARh_Q4C => 169,
            MeterReg::M_Energy_VAR_SF => 171,
            MeterReg::M_Events => 172,
        }
    }

    /// Number of words the register spans.
    pub open spec fn spec_size(self) -> int {
        match self {
            MeterReg::C_Manufacturer => 16,
            MeterReg::C_Model => 16,
            MeterReg::C_Option => 8,
            MeterReg::C_Version => 8,
            MeterReg::C_SerialNumber => 16,
            MeterReg::M_Exported
            | MeterReg::M_Exported_A
            | MeterReg::M_Exported_B
            | MeterReg::M_Exported_C
            | MeterReg::M_Imported
            | MeterReg::M_Imported_A
            | MeterReg::M_Imported_B
            | MeterReg::M_Imported_C
            | MeterReg::M_Exported_VA
            | MeterReg::M_Exported_VA_A
            | MeterReg::M_Exported_VA_B
            | MeterReg::M_Exported_VA_C
            | MeterReg::M_Imported_VA
            | MeterReg::M_Imported_VA_A
            | MeterReg::M_Imported_VA_B
            | MeterReg::M_Imported_VA_C
            | MeterReg::M_Import_VARh_Q1
            | MeterReg::M_Import_VARh_Q1A
            | MeterReg::M_Import_VARh_Q1B
            | MeterReg::M_Import_VARh_Q1C
            | MeterReg::M_Import_VARh_Q2
            | MeterReg::M_Import_VARh_Q2A
            | MeterReg::M_Import_VARh_Q2B
            | MeterReg::M_Import_VARh_Q2C
            | MeterReg::M_Export_VARh_Q3
            | MeterReg::M_Export_VARh_Q3A
            | MeterReg::M_Export_VARh_Q3B
            | MeterReg::M_Export_VARh_Q3C
            | MeterReg::M_Export_VARh_Q4
            | MeterReg::M_Export_VARh_Q4A
            | MeterReg::M_Export_VARh_Q4B
            | MeterReg::M_Export_VARh_Q4C
            | MeterReg::M_Events => 2,
            _ => 1,
        }
    }

    /// The register that follows this one in the SunSpec model's point order (among the
    /// registers this library reads); `None` for the last one.
    pub open spec fn point_after(self) -> Option<MeterReg> {
        match self {
            MeterReg::C_Manufacturer => Some(MeterReg::C_Model),
            MeterReg::C_Model => Some(MeterReg::C_Option),
            MeterReg::C_Option => Some(MeterReg::C_Version),
            MeterReg::C_Version => Some(MeterReg::C_SerialNumber),
            MeterReg::C_SerialNumber => Some(MeterReg::C_DeviceAddress),
            MeterReg::C_DeviceAddress => Some(MeterReg::M_AC_Current),
            MeterReg::M_AC_Current => Some(MeterReg::M_AC_Current_A),
            MeterReg::M_AC_Current_A => Some(MeterReg::M_AC_Current_B),
            MeterReg::M_AC_Current_B => Some(MeterReg::M_AC_Current_C),
            MeterReg::M_AC_Current_C => Some(MeterReg::M_AC_Current_SF),
            MeterReg::M_AC_Current_SF => Some(MeterReg::M_AC_Voltage_LN),
            MeterReg::M_AC_Voltage_LN => Some(MeterReg::M_AC_Voltage_AN),
            MeterReg::M_AC_Voltage_AN => Some(MeterReg::M_AC_Voltage_BN),
            MeterReg::M_AC_Voltage_BN => Some(MeterReg::M_AC_Voltage_CN),
            MeterReg::M_AC_Voltage_CN => Some(MeterReg::M_AC_Voltage_LL),
            MeterReg::M_AC_Voltage_LL => Some(MeterReg::M_AC_Voltage_AB),
            MeterReg::M_AC_Voltage_AB => Some(MeterReg::M_AC_Voltage_BC),
            MeterReg::M_AC_Voltage_BC => Some(MeterReg::M_AC_Voltage_CA),
            MeterReg::M_AC_Voltage_CA => Some(MeterReg::M_AC_Voltage_SF),
            MeterReg::M_AC_Voltage_SF => Some(MeterReg::M_AC_Freq),
            MeterReg::M_AC_Freq => Some(MeterReg::M_AC_Freq_SF),
            MeterReg::M_AC_Freq_SF => Some(MeterReg::M_AC_Power),
            MeterReg::M_AC_Power => Some(MeterReg::M_AC_Power_A),
            MeterReg::M_AC_Power_A => Some(MeterReg::M_AC_Power_B),
            MeterReg::M_AC_Power_B => Some(MeterReg::M_AC_Power_C),
            MeterReg::M_AC_Power_C => Some(MeterReg::M_AC_Power_SF),
            MeterReg::M_AC_Power_SF => Some(MeterReg::M_AC_VA),
            MeterReg::M_AC_VA => Some(MeterReg::M_AC_VA_A),
            MeterReg::M_AC_VA_A => Some(MeterReg::M_AC_VA_B),
            MeterReg::M_AC_VA_B => Some(MeterReg::M_AC_VA_C),
            MeterReg::M_AC_VA_C => Some(MeterReg::M_AC_VA_SF),
            MeterReg::M_AC_VA_SF => Some(MeterReg::M_AC_VAR),
            MeterReg::M_AC_VAR => Some(MeterReg::M_AC_VAR_A),
            MeterReg::M_AC_VAR_A => Some(MeterReg::M_AC_VAR_B),
            MeterReg::M_AC_VAR_B => Some(MeterReg::M_AC_VAR_C),
            MeterReg::M_AC_VAR_C => Some(MeterReg::M_AC_VAR_SF),
            MeterReg::M_AC_VAR_SF => Some(MeterReg::M_AC_PF),
            MeterReg::M_AC_PF => Some(MeterReg::M_AC_PF_A),
            MeterReg::M_AC_PF_A => Some(MeterReg::M_AC_PF_B),
            MeterReg::M_AC_PF_B => Some(MeterReg::M_AC_PF_C),
            MeterReg::M_AC_PF_C => Some(MeterReg::M_AC_PF_SF),
            MeterReg::M_AC_PF_SF => Some(MeterReg::M_Exported),
            MeterReg::M_Exported => Some(MeterReg::M_Exported_A),
            MeterReg::M_Exported_A => Some(MeterReg::M_Exported_B),
            MeterReg::M_Exported_B => Some(MeterReg::M_Exported_C),
            MeterReg::M_Exported_C => Some(MeterReg::M_Imported),
            MeterReg::M_Imported => Some(MeterReg::M_Imported_A),
            MeterReg::M_Imported_A => Some(MeterReg::M_Imported_B),
            MeterReg::M_Imported_B => Some(MeterReg::M_Imported_C),
            MeterReg::M_Imported_C => Some(MeterReg::M_Energy_W_SF),
            MeterReg::M_Energy_W_SF => Some(MeterReg::M_Exported_VA),
            MeterReg::M_Exported_VA => Some(MeterReg::M_Exported_VA_A),
            MeterReg::M_Exported_VA_A => Some(MeterReg::M_Exported_VA_B),
            MeterReg::M_Exported_VA_B => Some(MeterReg::M_Exported_VA_C),
            MeterReg::M_Exported_VA_C => Some(MeterReg::M_Imported_VA),
            MeterReg::M_Imported_VA => Some(MeterReg::M_Imported_VA_A),
            MeterReg::M_Imported_VA_A => Some(MeterReg::M_Imported_VA_B),
            MeterReg::M_Imported_VA_B => Some(MeterReg::M_Imported_VA_C),
            MeterReg::M_Imported_VA_C => Some(MeterReg::M_Energy_VA_SF),
            MeterReg::M_Energy_VA_SF => Some(MeterReg::M_Import_VARh_Q1),
            MeterReg::M_Import_VARh_Q1 => Some(MeterReg::M_Import_VARh_Q1A),
            MeterReg::M_Import_VARh_Q1A => Some(MeterReg::M_Import_VARh_Q1B),
            MeterReg::M_Import_VARh_Q1B => Some(MeterReg::M_Import_VARh_Q1C),
            MeterReg::M_Import_VARh_Q1C => Some(MeterReg::M_Import_VARh_Q2),
            MeterReg::M_Import_VARh_Q2 => Some(MeterReg::M_Import_VARh_Q2A),
            MeterReg::M_Import_VARh_Q2A => Some(MeterReg::M_Import_VARh_Q2B),
            MeterReg::M_Import_VARh_Q2B => Some(MeterReg::M_Import_VARh_Q2C),
            MeterReg::M_Import_VARh_Q2C => Some(MeterReg::M_Export_VARh_Q3),
            MeterReg::M_Export_VARh_Q3 => Some(MeterReg::M_Export_VARh_Q3A),
            MeterReg::M_Export_VARh_Q3A => Some(MeterReg::M_Export_VARh_Q3B),
            MeterReg::M_Export_VARh_Q3B => Some(MeterReg::M_Export_VARh_Q3C),
            MeterReg::M_Export_VARh_Q3C => Some(MeterReg::M_Export_VARh_Q4),
            MeterReg::M_Export_VARh_Q4 => Some(MeterReg::M_Export_VARh_Q4A),
            MeterReg::M_Export_VARh_Q4A => Some(MeterReg::M_Export_VARh_Q4B),
            MeterReg::M_Export_VARh_Q4B => Some(MeterReg::M_Export_VARh_Q4C),
            MeterReg::M_Export_VARh_Q4C => Some(MeterReg::M_Energy_VAR_SF),
            MeterReg::M_Energy_VAR_SF => Some(MeterReg::M_Events),
            MeterReg::M_Events => None,
        }
    }

    /// How many words lie between this register and the next: the model 203 header
    /// (its id and length, at offsets 67 and 68) after the common block.
    pub open spec fn words_skipped_after(self) -> int {
        match self {
            MeterReg::C_DeviceAddress => 2,
            _ => 0,
        }
    }

    /// Offset of the register from the slot's base address.
    pub fn offset(self) -> (r: u16)
        ensures
            r as int == self.spec_offset(),
    {
        match self {
            MeterReg::C_Manufacturer => 2,
            MeterReg::C_Model => 18,
            MeterReg::C_Option => 34,
            MeterReg::C_Version => 42,
            MeterReg::C_SerialNumber => 50,
            MeterReg::C_DeviceAddress => 66,
            MeterReg::M_AC_Current => 69,
            MeterReg::M_AC_Current_A => 70,
            MeterReg::M_AC_Current_B => 71,
            MeterReg::M_AC_Current_C => 72,
            MeterReg::M_AC_Current_SF => 73,
            MeterReg::M_AC_Voltage_LN => 74,
            MeterReg::M_AC_Voltage_AN => 75,
            MeterReg::M_AC_Voltage_BN => 76,
            MeterReg::M_AC_Voltage_CN => 77,
            MeterReg::M_AC_Voltage_LL => 78,
            MeterReg::M_AC_Voltage_AB => 79,
            MeterReg::M_AC_Voltage_BC => 80,
            MeterReg::M_AC_Voltage_CA => 81,
            MeterReg::M_AC_Voltage_SF => 82,
            MeterReg::M_AC_Freq => 83,
            MeterReg::M_AC_Freq_SF => 84,
            MeterReg::M_AC_Power => 85,
            MeterReg::M_AC_Power_A => 86,
            MeterReg::M_AC_Power_B => 87,
            MeterReg::M_AC_Power_C => 88,
            MeterReg::M_AC_Power_SF => 89,
            MeterReg::M_AC_VA => 90,
            MeterReg::M_AC_VA_A => 91,
            MeterReg::M_AC_VA_B => 92,
            MeterReg::M_AC_VA_C => 93,
            MeterReg::M_AC_VA_SF => 94,
            MeterReg::M_AC_VAR => 95,
            MeterReg::M_AC_VAR_A => 96,
            MeterReg::M_AC_VAR_B => 97,
            MeterReg::M_AC_VAR_C => 98,
            MeterReg::M_AC_VAR_SF => 99,
            MeterReg::M_AC_PF => 100,
            MeterReg::M_AC_PF_A => 101,
            MeterReg::M_AC_PF_B => 102,
            MeterReg::M_AC_PF_C => 103,
            MeterReg::M_AC_PF_SF => 104,
            MeterReg::M_Exported => 105,
            MeterReg::M_Exported_A => 107,
            MeterReg::M_Exported_B => 109,
            MeterReg::M_Exported_C => 111,
            MeterReg::M_Imported => 113,
            MeterReg::M_Imported_A => 115,
            MeterReg::M_Imported_B => 117,
            MeterReg::M_Imported_C => 119,
            MeterReg::M_Energy_W_SF => 121,
            MeterReg::M_Exported_VA => 122,
            MeterReg::M_Exported_VA_A => 124,
            MeterReg::M_Exported_VA_B => 126,
            MeterReg::M_Exported_VA_C => 128,
            MeterReg::M_Imported_VA => 130,
            MeterReg::M_Imported_VA_A => 132,
            MeterReg::M_Imported_VA_B => 134,
            MeterReg::M_Imported_VA_C => 136,
            MeterReg::M_Energy_VA_SF => 138,
            MeterReg::M_Import_VARh_Q1 => 139,
            MeterReg::M_Import_VARh_Q1A => 141,
            MeterReg::M_Import_VARh_Q1B => 143,
            MeterReg::M_Import_VARh_Q1C => 145,
            MeterReg::M_Import_VARh_Q2 => 147,
            MeterReg::M_Import_VARh_Q2A => 149,
            MeterReg::M_Import_VARh_Q2B => 151,
            MeterReg::M_Import_VARh_Q2C => 153,
            MeterReg::M_Export_VARh_Q3 => 155,
            MeterReg::M_Export_VARh_Q3A => 157,
            MeterReg::M_Export_VARh_Q3B => 159,
            MeterReg::M_Export_VARh_Q3C => 161,
            MeterReg::M_Export_VARh_Q4 => 163,
            MeterReg::M_Export_VARh_Q4A => 165,
            MeterReg::M_Export_VARh_Q4B => 167,
            MeterReg::M_Export_VARh_Q4C => 169,
            MeterReg::M_Energy_VAR_SF => 171,
            MeterReg::M_Events => 172,
        }
    }

    /// Number of words the register spans.
    pub fn size(self) -> (r: u16)
        ensures
            r as int == self.spec_size(),
    {
        match self {
            MeterReg::C_Manufacturer => 16,
            MeterReg::C_Model => 16,
            MeterReg::C_Option => 8,
            MeterReg::C_Version => 8,
            MeterReg::C_SerialNumber => 16,
            MeterReg::M_Exported
            | MeterReg::M_Exported_A
            | MeterReg::M_Exported_B
            | MeterReg::M_Exported_C
            | MeterReg::M_Imported
            | MeterReg::M_Imported_A
            | MeterReg::M_Imported_B
            | MeterReg::M_Imported_C
            | MeterReg::M_Exported_VA
            | MeterReg::M_Exported_VA_A
            | MeterReg::M_Exported_VA_B
            | MeterReg::M_Exported_VA_C
            | MeterReg::M_Imported_VA
            | MeterReg::M_Imported_VA_A
            | MeterReg::M_Imported_VA_B
            | MeterReg::M_Imported_VA_C
            | MeterReg::M_Import_VARh_Q1
            | MeterReg::M_Import_VARh_Q1A
            | MeterReg::M_Import_VARh_Q1B
            | MeterReg::M_Import_VARh_Q1C
            | MeterReg::M_Import_VARh_Q2
            | MeterReg::M_Import_VARh_Q2A
            | MeterReg::M_Import_VARh_Q2B
            | MeterReg::M_Import_VARh_Q2C
            | MeterReg::M_Export_VARh_Q3
            | MeterReg::M_Export_VARh_Q3A
            | MeterReg::M_Export_VARh_Q3B
            | MeterReg::M_Export_VARh_Q3C
            | MeterReg::M_Export_VARh_Q4
            | MeterReg::M_Export_VARh_Q4A
            | MeterReg::M_Export_VARh_Q4B
            | MeterReg::M_Export_VARh_Q4C
            | MeterReg::M_Events => 2,
            _ => 1,
        }
    }
}

/// The meter map is the SunSpec layout of a common block followed by a meter model block
/// (models 201 to 204 share it): the registers follow each other in point order with no
/// word between them, from `C_Manufacturer` at offset 2 (after the SunSpec id at 0 and the
/// common block's length at 1), except for the meter model's header (id at 67, length at
/// 68) after `C_DeviceAddress`; the model's 105 data words run from 69 to `M_Events`, which
/// ends at the slot spacing.  So exported energy `M_Exported` is at 105, imported energy
/// `M_Imported` at 113, and their scale factor `M_Energy_W_SF` at 121.
pub proof fn lemma_meter_layout(reg: MeterReg)
    ensures
        reg.point_after() matches Some(next) ==> reg.spec_offset() + reg.spec_size()
            + reg.words_skipped_after() == next.spec_offset(),
        reg.point_after() is None <==> reg == MeterReg::M_Events,
        reg.point_after() != Some(MeterReg::C_Manufacturer),
        reg.words_skipped_after() != 0 ==> reg == MeterReg::C_DeviceAddress && reg.words_skipped_after() == 2,
        MeterReg::C_Manufacturer.spec_offset() == 2,
        MeterReg::M_AC_Current.spec_offset() == 69,
        MeterReg::M_Events.spec_offset() + MeterReg::M_Events.spec_size() == 69 + 105,
        69 + 105 == SLOT_SPACING,
        MeterReg::M_Exported.spec_offset() == 105,
        MeterReg::M_Imported.spec_offset() == 113,
        MeterReg::M_Energy_W_SF.spec_offset() == 121,
{
}

/// Distinct meter registers occupy disjoint word ranges: no read of one register returns
/// a word of another.
pub proof fn lemma_meter_registers_disjoint(a: MeterReg, b: MeterReg)
    requires
        a != b,
    ensures
        a.spec_offset() + a.spec_size() <= b.spec_offset() || b.spec_offset() + b.spec_size() <= a.spec_offset(),
{
}

/// Every meter register ends within the slot: the model block (header at 67 and 68, 105
/// data words from 69) fills the slot's 174 registers, so no meter read reaches the next slot.
pub proof fn lemma_meter_registers_bounded(reg: MeterReg)
    ensures
        1 <= reg.spec_size() <= 16,
        2 <= reg.spec_offset(),
        reg.spec_offset() + reg.spec_size() <= SLOT_SPACING,
{
}

impl MeterClient {
    /// The connection the client reads over.
    pub closed spec fn connection(self) -> Connection {
        self.client
    }

    /// Every read this client has made, oldest first.
    pub open spec fn history(self) -> Seq<ReadRecord> {
        self.connection().history()
    }

    /// What the client's connection was opened with.
    pub open spec fn opened_with(self) -> Option<ConnectParams> {
        self.connection().opened_with()
    }

    /// Address of the slot's first register.
    pub closed spec fn spec_base(self) -> u16 {
        self.base.spec_value()
    }

    /// Address of the slot's first register.
    pub fn base_address(&self) -> (r: u16)
        ensures
            r == self.spec_base(),
            is_slot_base(r as int),
    {
        self.base.value()
    }

    /// Create a [`MeterClient`] with a new connection.  Connects to the meter in `slot` of the
    /// inverter at `address` on `port` and with ID `device_id`.
    pub fn new(address: &str, port: u16, device_id: u8, slot: SlotNumber) -> (r: Result<Self, ClientError>)
        ensures
            r matches Ok(c) ==> c.opened_with() == Some(
                ConnectParams { address: address@, port, modbus_uid: device_id, read_timeout_secs: READ_TIMEOUT_SECS },
            ),
            r matches Ok(c) ==> c.spec_base() == slot.spec_base() && c.history() == Seq::<
                ReadRecord,
            >::empty(),
            r matches Err(e) ==> e is Io,
    {
        match Connection::open(address, port, device_id, READ_TIMEOUT_SECS) {
            Ok(client) => Ok(Self::from_transport(client, slot.base())),
            Err(e) => Err(ClientError::Io(e)),
        }
    }

    /// A client for the meter whose slot starts at `base`, on an open connection.
    pub(crate) fn from_transport(client: Connection, base: u16) -> (r: Self)
        requires
            is_slot_base(base as int),
        ensures
            r.spec_base() == base,
            r.connection() == client,
    {
        MeterClient { client, base: SlotBase::new(base) }
    }

    /// Reads `count` raw registers from `offset` past the slot's base address.
    pub fn dump_raw(&mut self, offset: u16, count: u16) -> (r: Result<Vec<u16>, ClientError>)
        requires
            old(self).spec_base() + offset <= u16::MAX,
        ensures
            final(self).spec_base() == old(self).spec_base(),
            one_read(
                old(self).history(),
                final(self).history(),
                old(self).spec_base() + offset,
                count as int,
            ),
            match last_words(final(self).history()) {
                Some(w) => (r matches Ok(regs) && regs@ == w),
                None => fails_with_last_error(final(self).history(), r),
            },
    {
        let base = self.base.value();
        match self.client.read_holding_registers(base + offset, count) {
            Ok(regs) => Ok(regs),
            Err(e) => Err(ClientError::Modbus(e.error)),
        }
    }

    pub fn manufacturer(&mut self) -> (r: Result<String, ClientError>)
        ensures
            final(self).spec_base() == old(self).spec_base(),
            reads_string(
                old(self).history(),
                final(self).history(),
                old(self).spec_base() + MeterReg::C_Manufacturer.spec_offset(),
                MeterReg::C_Manufacturer.spec_size(),
                r,
            ),
    {
        match self.read(MeterReg::C_Manufacturer) {
            Ok(regs) => Ok(regs_string(&regs)),
            Err(e) => Err(ClientError::Modbus(e.error)),
        }
    }

    pub fn model(&mut self) -> (r: Result<String, ClientError>)
        ensures
            final(self).spec_base() == old(self).spec_base(),
            reads_string(
                old(self).history(),
                final(self).history(),
                old(self).spec_base() + MeterReg::C_Model.spec_offset(),
                MeterReg::C_Model.spec_size(),
                r,
            ),
    {
        match self.read(MeterReg::C_Model) {
            Ok(regs) => Ok(regs_string(&regs)),
            Err(e) => Err(ClientError::Modbus(e.error)),
        }
    }

    pub fn option(&mut self) -> (r: Result<String, ClientError>)
        ensures
            final(self).spec_base() == old(self).spec_base(),
            reads_string(
                old(self).history(),
                final(self).history(),
                old(self).spec_base() + MeterReg::C_Option.spec_offset(),
                MeterReg::C_Option.spec_size(),
                r,
            ),
    {
        match self.read(MeterReg::C_Option) {
            Ok(regs) => Ok(regs_string(&regs)),
            Err(e) => Err(ClientError::Modbus(e.error)),
        }
    }

    pub fn version(&mut self) -> (r: Result<String, ClientError>)
        ensures
            final(self).spec_base() == old(self).spec_base(),
            reads_string(
                old(self).history(),
                final(self).history(),
                old(self).spec_base() + MeterReg::C_Version.spec_offset(),
                MeterReg::C_Version.spec_size(),
                r,
            ),
    {
        match self.read(MeterReg::C_Version) {
            Ok(regs) => Ok(regs_string(&regs)),
            Err(e) => Err(ClientError::Modbus(e.error)),
        }
    }

    pub fn serial_number(&mut self) -> (r: Result<String, ClientError>)
        ensures
            final(self).spec_base() == old(self).spec_base(),
            reads_string(
                old(self).history(),
                final(self).history(),
                old(self).spec_base() + MeterReg::C_SerialNumber.spec_offset(),
                MeterReg::C_SerialNumber.spec_size(),
                r,
            ),
    {
        match self.read(MeterReg::C_SerialNumber) {
            Ok(regs) => Ok(regs_string(&regs)),
            Err(e) => Err(ClientError::Modbus(e.error)),
        }
    }

    pub fn device_address(&mut self) -> (r: Result<u16, ClientError>)
        ensures
            final(self).spec_base() == old(self).spec_base(),
            reads_u16(
                old(self).history(),
                final(self).history(),
                old(self).spec_base() + MeterReg::C_DeviceAddress.spec_offset(),
                MeterReg::C_DeviceAddress.spec_size(),
                r,
            ),
    {
        match self.read(MeterReg::C_DeviceAddress) {
            Ok(regs) => Ok(regs_u16(&regs)),
            Err(e) => Err(ClientError::Modbus(e.error)),
        }
    }

    pub fn ac_current(&mut self) -> (r: Result<ScaledValue, ClientError>)
        ensures
            final(self).spec_base() == old(self).spec_base(),
            reads_scaled(
                old(self).history(),
                final(self).history(),
                old(self).spec_base() + MeterReg::M_AC_Current.spec_offset(),
                MeterReg::M_AC_Current.spec_size(),
                old(self).spec_base() + MeterReg::M_AC_Current_SF.spec_offset(),
                MeterReg::M_AC_Current_SF.spec_size(),
                ReadingKind::I16,
                r,
            ),
    {
        match self.read_register_with_scale(MeterReg::M_AC_Current, MeterReg::M_AC_Current_SF) {
            Ok((v, sf)) => Ok(scaled_i16(regs_i16(&v), sf)),
            Err(e) => Err(ClientError::Modbus(e.error)),
        }
    }

    pub fn ac_current_a(&mut self) -> (r: Result<ScaledValue, ClientError>)
        ensures
            final(self).spec_base() == old(self).spec_base(),
            reads_scaled(
                old(self).history(),
                final(self).history(),
                old(self).spec_base() + MeterReg::M_AC_Current_A.spec_offset(),
                MeterReg::M_AC_Current_A.spec_size(),
                old(self).spec_base() + MeterReg::M_AC_Current_SF.spec_offset(),
                MeterReg::M_AC_Current_SF.spec_size(),
                ReadingKind::I16,
                r,
            ),
    {
        match self.read_register_with_scale(MeterReg::M_AC_Current_A, MeterReg::M_AC_Current_SF) {
            Ok((v, sf)) => Ok(scaled_i16(regs_i16(&v), sf)),
            Err(e) => Err(ClientError::Modbus(e.error)),
        }
    }

    pub fn ac_current_b(&mut self) -> (r: Result<ScaledValue, ClientError>)
        ensures
            final(self).spec_base() == old(self).spec_base(),
            reads_scaled(
                old(self).history(),
                final(self).history(),
                old(self).spec_base() + MeterReg::M_AC_Current_B.spec_offset(),
                MeterReg::M_AC_Current_B.spec_size(),
                old(self).spec_base() + MeterReg::M_AC_Current_SF.spec_offset(),
                MeterReg::M_AC_Current_SF.spec_size(),
                ReadingKind::I16,
                r,
            ),
    {
        match self.read_register_with_scale(MeterReg::M_AC_Current_B, MeterReg::M_AC_Current_SF) {
            Ok((v, sf)) => Ok(scaled_i16(regs_i16(&v), sf)),
            Err(e) => Err(ClientError::Modbus(e.error)),
        }
    }

    pub fn ac_current_c(&mut self) -> (r: Result<ScaledValue, ClientError>)
        ensures
            final(self).spec_base() == old(self).spec_base(),
            reads_scaled(
                old(self).history(),
                final(self).history(),
                old(self).spec_base() + MeterReg::M_AC_Current_C.spec_offset(),
                MeterReg::M_AC_Current_C.spec_size(),
                old(self).spec_base() + MeterReg::M_AC_Current_SF.spec_offset(),
                MeterReg::M_AC_Current_SF.spec_size(),
                ReadingKind::I16,
                r,
            ),
    {
        match self.read_register_with_scale(MeterReg::M_AC_Current_C, MeterReg::M_AC_Current_SF) {
            Ok((v, sf)) => Ok(scaled_i16(regs_i16(&v), sf)),
            Err(e) => Err(ClientError::Modbus(e.error)),
        }
    }

    pub fn ac_voltage_ln(&mut self) -> (r: Result<ScaledValue, ClientError>)
        ensures
            final(self).spec_base() == old(self).spec_base(),
            reads_scaled(
                old(self).history(),
                final(self).history(),
                old(self).spec_base() + MeterReg::M_AC_Voltage_LN.spec_offset(),
                MeterReg::M_AC_Voltage_LN.spec_size(),
                old(self).spec_base() + MeterReg::M_AC_Voltage_SF.spec_offset(),
                MeterReg::M_AC_Voltage_SF.spec_size(),
                ReadingKind::I16,
                r,
            ),
    {
        match self.read_register_with_scale(MeterReg::M_AC_Voltage_LN, MeterReg::M_AC_Voltage_SF) {
            Ok((v, sf)) => Ok(scaled_i16(regs_i16(&v), sf)),
            Err(e) => Err(ClientError::Modbus(e.error)),
        }
    }

    pub fn ac_voltage_an(&mut self) -> (r: Result<ScaledValue, ClientError>)
        ensures
            final(self).spec_base() == old(self).spec_base(),
            reads_scaled(
                old(self).history(),
                final(self).history(),
                old(self).spec_base() + MeterReg::M_AC_Voltage_AN.spec_offset(),
                MeterReg::M_AC_Voltage_AN.spec_size(),
                old(self).spec_base() + MeterReg::M_AC_Voltage_SF.spec_offset(),
                MeterReg::M_AC_Voltage_SF.spec_size(),
                ReadingKind::I16,
                r,
            ),
    {
        match self.read_register_with_scale(MeterReg::M_AC_Voltage_AN, MeterReg::M_AC_Voltage_SF) {
            Ok((v, sf)) => Ok(scaled_i16(regs_i16(&v), sf)),
            Err(e) => Err(ClientError::Modbus(e.error)),
        }
    }

    pub fn ac_voltage_bn(&mut self) -> (r: Result<ScaledValue, ClientError>)
        ensures
            final(self).spec_base() == old(self).spec_base(),
            reads_scaled(
                old(self).history(),
                final(self).history(),
                old(self).spec_base() + MeterReg::M_AC_Voltage_BN.spec_offset(),
                MeterReg::M_AC_Voltage_BN.spec_size(),
                old(self).spec_base() + MeterReg::M_AC_Voltage_SF.spec_offset(),
                MeterReg::M_AC_Voltage_SF.spec_size(),
                ReadingKind::I16,
                r,
            ),
    {
        match self.read_register_with_scale(MeterReg::M_AC_Voltage_BN, MeterReg::M_AC_Voltage_SF) {
            Ok((v, sf)) => Ok(scaled_i16(regs_i16(&v), sf)),
            Err(e) => Err(ClientError::Modbus(e.error)),
        }
    }

    pub fn ac_voltage_cn(&mut self) -> (r: Result<ScaledValue, ClientError>)
        ensures
            final(self).spec_base() == old(self).spec_base(),
            reads_scaled(
                old(self).history(),
                final(self).history(),
                old(self).spec_base() + MeterReg::M_AC_Voltage_CN.spec_offset(),
                MeterReg::M_AC_Voltage_CN.spec_size(),
                old(self).spec_base() + MeterReg::M_AC_Voltage_SF.spec_offset(),
                MeterReg::M_AC_Voltage_SF.spec_size(),
                ReadingKind::I16,
                r,
            ),
    {
        match self.read_register_with_scale(MeterReg::M_AC_Voltage_CN, MeterReg::M_AC_Voltage_SF) {
            Ok((v, sf)) => Ok(scaled_i16(regs_i16(&v), sf)),
            Err(e) => Err(ClientError::Modbus(e.error)),
        }
    }

    pub fn ac_voltage_ll(&mut self) -> (r: Result<ScaledValue, ClientError>)
        ensures
            final(self).spec_base() == old(self).spec_base(),
            reads_scaled(
                old(self).history(),
                final(self).history(),
                old(self).spec_base() + MeterReg::M_AC_Voltage_LL.spec_offset(),
                MeterReg::M_AC_Voltage_LL.spec_size(),
                old(self).spec_base() + MeterReg::M_AC_Voltage_SF.spec_offset(),
                MeterReg::M_AC_Voltage_SF.spec_size(),
                ReadingKind::I16,
                r,
            ),
    {
        match self.read_register_with_scale(MeterReg::M_AC_Voltage_LL, MeterReg::M_AC_Voltage_SF) {
            Ok((v, sf)) => Ok(scaled_i16(regs_i16(&v), sf)),
            Err(e) => Err(ClientError::Modbus(e.error)),
        }
    }

    pub fn ac_voltage_ab(&mut self) -> (r: Result<ScaledValue, ClientError>)
        ensures
            final(self).spec_base() == old(self).spec_base(),
            reads_scaled(
                old(self).history(),
                final(self).history(),
                old(self).spec_base() + MeterReg::M_AC_Voltage_AB.spec_offset(),
                MeterReg::M_AC_Voltage_AB.spec_size(),
                old(self).spec_base() + MeterReg::M_AC_Voltage_SF.spec_offset(),
                MeterReg::M_AC_Voltage_SF.spec_size(),
                ReadingKind::I16,
                r,
            ),
    {
        match self.read_register_with_scale(MeterReg::M_AC_Voltage_AB, MeterReg::M_AC_Voltage_SF) {
            Ok((v, sf)) => Ok(scaled_i16(regs_i16(&v), sf)),
            Err(e) => Err(ClientError::Modbus(e.error)),
        }
    }

    pub fn ac_voltage_bc(&mut self) -> (r: Result<ScaledValue, ClientError>)
        ensures
            final(self).spec_base() == old(self).spec_base(),
            reads_scaled(
                old(self).history(),
                final(self).history(),
                old(self).spec_base() + MeterReg::M_AC_Voltage_BC.spec_offset(),
                MeterReg::M_AC_Voltage_BC.spec_size(),
                old(self).spec_base() + MeterReg::M_AC_Voltage_SF.spec_offset(),
                MeterReg::M_AC_Voltage_SF.spec_size(),
                ReadingKind::I16,
                r,
            ),
    {
        match self.read_register_with_scale(MeterReg::M_AC_Voltage_BC, MeterReg::M_AC_Voltage_SF) {
            Ok((v, sf)) => Ok(scaled_i16(regs_i16(&v), sf)),
            Err(e) => Err(ClientError::Modbus(e.error)),
        }
    }

    pub fn ac_voltage_ca(&mut self) -> (r: Result<ScaledValue, ClientError>)
        ensures
            final(self).spec_base() == old(self).spec_base(),
            reads_scaled(
                old(self).history(),
                final(self).history(),
                old(self).spec_base() + MeterReg::M_AC_Voltage_CA.spec_offset(),
                MeterReg::M_AC_Voltage_CA.spec_size(),
                old(self).spec_base() + MeterReg::M_AC_Voltage_SF.spec_offset(),
                MeterReg::M_AC_Voltage_SF.spec_size(),
                ReadingKind::I16,
                r,
            ),
    {
        match self.read_register_with_scale(MeterReg::M_AC_Voltage_CA, MeterReg::M_AC_Voltage_SF) {
            Ok((v, sf)) => Ok(scaled_i16(regs_i16(&v), sf)),
            Err(e) => Err(ClientError::Modbus(e.error)),
        }
    }

    pub fn ac_frequency(&mut self) -> (r: Result<ScaledValue, ClientError>)
        ensures
            final(self).spec_base() == old(self).spec_base(),
            reads_scaled(
                old(self).history(),
                final(self).history(),
                old(self).spec_base() + MeterReg::M_AC_Freq.spec_offset(),
                MeterReg::M_AC_Freq.spec_size(),
                old(self).spec_base() + MeterReg::M_AC_Freq_SF.spec_offset(),
                MeterReg::M_AC_Freq_SF.spec_size(),
                ReadingKind::I16,
                r,
            ),
    {
        match self.read_register_with_scale(MeterReg::M_AC_Freq, MeterReg::M_AC_Freq_SF) {
            Ok((v, sf)) => Ok(scaled_i16(regs_i16(&v), sf)),
            Err(e) => Err(ClientError::Modbus(e.error)),
        }
    }

    pub fn ac_power(&mut self) -> (r: Result<ScaledValue, ClientError>)
        ensures
            final(self).spec_base() == old(self).spec_base(),
            reads_scaled(
                old(self).history(),
                final(self).history(),
                old(self).spec_base() + MeterReg::M_AC_Power.spec_offset(),
                MeterReg::M_AC_Power.spec_size(),
                old(self).spec_base() + MeterReg::M_AC_Power_SF.spec_offset(),
                MeterReg::M_AC_Power_SF.spec_size(),
                ReadingKind::I16,
                r,
            ),
    {
        match self.read_register_with_scale(MeterReg::M_AC_Power, MeterReg::M_AC_Power_SF) {
            Ok((v, sf)) => Ok(scaled_i16(regs_i16(&v), sf)),
            Err(e) => Err(ClientError::Modbus(e.error)),
        }
    }

    pub fn ac_power_a(&mut self) -> (r: Result<ScaledValue, ClientError>)
        ensures
            final(self).spec_base() == old(self).spec_base(),
            reads_scaled(
                old(self).history(),
                final(self).history(),
                old(self).spec_base() + MeterReg::M_AC_Power_A.spec_offset(),
                MeterReg::M_AC_Power_A.spec_size(),
                old(self).spec_base() + MeterReg::M_AC_Power_SF.spec_offset(),
                MeterReg::M_AC_Power_SF.spec_size(),
                ReadingKind::I16,
                r,
            ),
    {
        match self.read_register_with_scale(MeterReg::M_AC_Power_A, MeterReg::M_AC_Power_SF) {
            Ok((v, sf)) => Ok(scaled_i16(regs_i16(&v), sf)),
            Err(e) => Err(ClientError::Modbus(e.error)),
        }
    }

    pub fn ac_power_b(&mut self) -> (r: Result<ScaledValue, ClientError>)
        ensures
            final(self).spec_base() == old(self).spec_base(),
            reads_scaled(
                old(self).history(),
                final(self).history(),
                old(self).spec_base() + MeterReg::M_AC_Power_B.spec_offset(),
                MeterReg::M_AC_Power_B.spec_size(),
                old(self).spec_base() + MeterReg::M_AC_Power_SF.spec_offset(),
                MeterReg::M_AC_Power_SF.spec_size(),
                ReadingKind::I16,
                r,
            ),
    {
        match self.read_register_with_scale(MeterReg::M_AC_Power_B, MeterReg::M_AC_Power_SF) {
            Ok((v, sf)) => Ok(scaled_i16(regs_i16(&v), sf)),
            Err(e) => Err(ClientError::Modbus(e.error)),
        }
    }

    pub fn ac_power_c(&mut self) -> (r: Result<ScaledValue, ClientError>)
        ensures
            final(self).spec_base() == old(self).spec_base(),
            reads_scaled(
                old(self).history(),
                final(self).history(),
                old(self).spec_base() + MeterReg::M_AC_Power_C.spec_offset(),
                MeterReg::M_AC_Power_C.spec_size(),
                old(self).spec_base() + MeterReg::M_AC_Power_SF.spec_offset(),
                MeterReg::M_AC_Power_SF.spec_size(),
                ReadingKind::I16,
                r,
            ),
    {
        match self.read_register_with_scale(MeterReg::M_AC_Power_C, MeterReg::M_AC_Power_SF) {
            Ok((v, sf)) => Ok(scaled_i16(regs_i16(&v), sf)),
            Err(e) => Err(ClientError::Modbus(e.error)),
        }
    }

    pub fn ac_va(&mut self) -> (r: Result<ScaledValue, ClientError>)
        ensures
            final(self).spec_base() == old(self).spec_base(),
            reads_scaled(
                old(self).history(),
                final(self).history(),
                old(self).spec_base() + MeterReg::M_AC_VA.spec_offset(),
                MeterReg::M_AC_VA.spec_size(),
                old(self).spec_base() + MeterReg::M_AC_VA_SF.spec_offset(),
                MeterReg::M_AC_VA_SF.spec_size(),
                ReadingKind::I16,
                r,
            ),
    {
        match self.read_register_with_scale(MeterReg::M_AC_VA, MeterReg::M_AC_VA_SF) {
            Ok((v, sf)) => Ok(scaled_i16(regs_i16(&v), sf)),
            Err(e) => Err(ClientError::Modbus(e.error)),
        }
    }

    pub fn ac_va_a(&mut self) -> (r: Result<ScaledValue, ClientError>)
        ensures
            final(self).spec_base() == old(self).spec_base(),
            reads_scaled(
                old(self).history(),
                final(self).history(),
                old(self).spec_base() + MeterReg::M_AC_VA_A.spec_offset(),
                MeterReg::M_AC_VA_A.spec_size(),
                old(self).spec_base() + MeterReg::M_AC_VA_SF.spec_offset(),
                MeterReg::M_AC_VA_SF.spec_size(),
                ReadingKind::I16,
                r,
            ),
    {
        match self.read_register_with_scale(MeterReg::M_AC_VA_A, MeterReg::M_AC_VA_SF) {
            Ok((v, sf)) => Ok(scaled_i16(regs_i16(&v), sf)),
            Err(e) => Err(ClientError::Modbus(e.error)),
        }
    }

    pub fn ac_va_b(&mut self) -> (r: Result<ScaledValue, ClientError>)
        ensures
            final(self).spec_base() == old(self).spec_base(),
            reads_scaled(
                old(self).history(),
                final(self).history(),
                old(self).spec_base() + MeterReg::M_AC_VA_B.spec_offset(),
                MeterReg::M_AC_VA_B.spec_size(),
                old(self).spec_base() + MeterReg::M_AC_VA_SF.spec_offset(),
                MeterReg::M_AC_VA_SF.spec_size(),
                ReadingKind::I16,
                r,
            ),
    {
        match self.read_register_with_scale(MeterReg::M_AC_VA_B, MeterReg::M_AC_VA_SF) {
            Ok((v, sf)) => Ok(scaled_i16(regs_i16(&v), sf)),
            Err(e) => Err(ClientError::Modbus(e.error)),
        }
    }

    pub fn ac_va_c(&mut self) -> (r: Result<ScaledValue, ClientError>)
        ensures
            final(self).spec_base() == old(self).spec_base(),
            reads_scaled(
                old(self).history(),
                final(self).history(),
                old(self).spec_base() + MeterReg::M_AC_VA_C.spec_offset(),
                MeterReg::M_AC_VA_C.spec_size(),
                old(self).spec_base() + MeterReg::M_AC_VA_SF.spec_offset(),
                MeterReg::M_AC_VA_SF.spec_size(),
                ReadingKind::I16,
                r,
            ),
    {
        match self.read_register_with_scale(MeterReg::M_AC_VA_C, MeterReg::M_AC_VA_SF) {
            Ok((v, sf)) => Ok(scaled_i16(regs_i16(&v), sf)),
            Err(e) => Err(ClientError::Modbus(e.error)),
        }
    }

    pub fn ac_var(&mut self) -> (r: Result<ScaledValue, ClientError>)
        ensures
            final(self).spec_base() == old(self).spec_base(),
            reads_scaled(
                old(self).history(),
                final(self).history(),
                old(self).spec_base() + MeterReg::M_AC_VAR.spec_offset(),
                MeterReg::M_AC_VAR.spec_size(),
                old(self).spec_base() + MeterReg::M_AC_VAR_SF.spec_offset(),
                MeterReg::M_AC_VAR_SF.spec_size(),
                ReadingKind::I16,
                r,
            ),
    {
        match self.read_register_with_scale(MeterReg::M_AC_VAR, MeterReg::M_AC_VAR_SF) {
            Ok((v, sf)) => Ok(scaled_i16(regs_i16(&v), sf)),
            Err(e) => Err(ClientError::Modbus(e.error)),
        }
    }

    pub fn ac_var_a(&mut self) -> (r: Result<ScaledValue, ClientError>)
        ensures
            final(self).spec_base() == old(self).spec_base(),
            reads_scaled(
                old(self).history(),
                final(self).history(),
                old(self).spec_base() + MeterReg::M_AC_VAR_A.spec_offset(),
                MeterReg::M_AC_VAR_A.spec_size(),
                old(self).spec_base() + MeterReg::M_AC_VAR_SF.spec_offset(),
                MeterReg::M_AC_VAR_SF.spec_size(),
                ReadingKind::I16,
                r,
            ),
    {
        match self.read_register_with_scale(MeterReg::M_AC_VAR_A, MeterReg::M_AC_VAR_SF) {
            Ok((v, sf)) => Ok(scaled_i16(regs_i16(&v), sf)),
            Err(e) => Err(ClientError::Modbus(e.error)),
        }
    }

    pub fn ac_var_b(&mut self) -> (r: Result<ScaledValue, ClientError>)
        ensures
            final(self).spec_base() == old(self).spec_base(),
            reads_scaled(
                old(self).history(),
                final(self).history(),
                old(self).spec_base() + MeterReg::M_AC_VAR_B.spec_offset(),
                MeterReg::M_AC_VAR_B.spec_size(),
                old(self).spec_base() + MeterReg::M_AC_VAR_SF.spec_offset(),
                MeterReg::M_AC_VAR_SF.spec_size(),
                ReadingKind::I16,
                r,
            ),
    {
        match self.read_register_with_scale(MeterReg::M_AC_VAR_B, MeterReg::M_AC_VAR_SF) {
            Ok((v, sf)) => Ok(scaled_i16(regs_i16(&v), sf)),
            Err(e) => Err(ClientError::Modbus(e.error)),
        }
    }

    pub fn ac_var_c(&mut self) -> (r: Result<ScaledValue, ClientError>)
        ensures
            final(self).spec_base() == old(self).spec_base(),
            reads_scaled(
                old(self).history(),
                final(self).history(),
                old(self).spec_base() + MeterReg::M_AC_VAR_C.spec_offset(),
                MeterReg::M_AC_VAR_C.spec_size(),
                old(self).spec_base() + MeterReg::M_AC_VAR_SF.spec_offset(),
                MeterReg::M_AC_VAR_SF.spec_size(),
                ReadingKind::I16,
                r,
            ),
    {
        match self.read_register_with_scale(MeterReg::M_AC_VAR_C, MeterReg::M_AC_VAR_SF) {
            Ok((v, sf)) => Ok(scaled_i16(regs_i16(&v), sf)),
            Err(e) => Err(ClientError::Modbus(e.error)),
        }
    }

    pub fn power_factor(&mut self) -> (r: Result<ScaledValue, ClientError>)
        ensures
            final(self).spec_base() == old(self).spec_base(),
            reads_scaled(
                old(self).history(),
                final(self).history(),
                old(self).spec_base() + MeterReg::M_AC_PF.spec_offset(),
                MeterReg::M_AC_PF.spec_size(),
                old(self).spec_base() + MeterReg::M_AC_PF_SF.spec_offset(),
                MeterReg::M_AC_PF_SF.spec_size(),
                ReadingKind::I16,
                r,
            ),
    {
        match self.read_register_with_scale(MeterReg::M_AC_PF, MeterReg::M_AC_PF_SF) {
            Ok((v, sf)) => Ok(scaled_i16(regs_i16(&v), sf)),
            Err(e) => Err(ClientError::Modbus(e.error)),
        }
    }

    pub fn power_factor_a(&mut self) -> (r: Result<ScaledValue, ClientError>)
        ensures
            final(self).spec_base() == old(self).spec_base(),
            reads_scaled(
                old(self).history(),
                final(self).history(),
                old(self).spec_base() + MeterReg::M_AC_PF_A.spec_offset(),
                MeterReg::M_AC_PF_A.spec_size(),
                old(self).spec_base() + MeterReg::M_AC_PF_SF.spec_offset(),
                MeterReg::M_AC_PF_SF.spec_size(),
                ReadingKind::I16,
                r,
            ),
    {
        match self.read_register_with_scale(MeterReg::M_AC_PF_A, MeterReg::M_AC_PF_SF) {
            Ok((v, sf)) => Ok(scaled_i16(regs_i16(&v), sf)),
            Err(e) => Err(ClientError::Modbus(e.error)),
        }
    }

    pub fn power_factor_b(&mut self) -> (r: Result<ScaledValue, ClientError>)
        ensures
            final(self).spec_base() == old(self).spec_base(),
            reads_scaled(
                old(self).history(),
                final(self).history(),
                old(self).spec_base() + MeterReg::M_AC_PF_B.spec_offset(),
                MeterReg::M_AC_PF_B.spec_size(),
                old(self).spec_base() + MeterReg::M_AC_PF_SF.spec_offset(),
                MeterReg::M_AC_PF_SF.spec_size(),
                ReadingKind::I16,
                r,
            ),
    {
        match self.read_register_with_scale(MeterReg::M_AC_PF_B, MeterReg::M_AC_PF_SF) {
            Ok((v, sf)) => Ok(scaled_i16(regs_i16(&v), sf)),
            Err(e) => Err(ClientError::Modbus(e.error)),
        }
    }

    pub fn power_factor_c(&mut self) -> (r: Result<ScaledValue, ClientError>)
        ensures
            final(self).spec_base() == old(self).spec_base(),
            reads_scaled(
                old(self).history(),
                final(self).history(),
                old(self).spec_base() + MeterReg::M_AC_PF_C.spec_offset(),
                MeterReg::M_AC_PF_C.spec_size(),
                old(self).spec_base() + MeterReg::M_AC_PF_SF.spec_offset(),
                MeterReg::M_AC_PF_SF.spec_size(),
                ReadingKind::I16,
                r,
            ),
    {
        match self.read_register_with_scale(MeterReg::M_AC_PF_C, MeterReg::M_AC_PF_SF) {
            Ok((v, sf)) => Ok(scaled_i16(regs_i16(&v), sf)),
            Err(e) => Err(ClientError::Modbus(e.error)),
        }
    }

    pub fn exported_wh(&mut self) -> (r: Result<ScaledValue, ClientError>)
        ensures
            final(self).spec_base() == old(self).spec_base(),
            reads_scaled(
                old(self).history(),
                final(self).history(),
                old(self).spec_base() + MeterReg::M_Exported.spec_offset(),
                MeterReg::M_Exported.spec_size(),
                old(self).spec_base() + MeterReg::M_Energy_W_SF.spec_offset(),
                MeterReg::M_Energy_W_SF.spec_size(),
                ReadingKind::U32,
                r,
            ),
    {
        match self.read_register_with_scale(MeterReg::M_Exported, MeterReg::M_Energy_W_SF) {
            Ok((v, sf)) => Ok(scaled_u32(regs_u32(&v), sf)),
            Err(e) => Err(ClientError::Modbus(e.error)),
        }
    }

    pub fn exported_wh_a(&mut self) -> (r: Result<ScaledValue, ClientError>)
        ensures
            final(self).spec_base() == old(self).spec_base(),
            reads_scaled(
                old(self).history(),
                final(self).history(),
                old(self).spec_base() + MeterReg::M_Exported_A.spec_offset(),
                MeterReg::M_Exported_A.spec_size(),
                old(self).spec_base() + MeterReg::M_Energy_W_SF.spec_offset(),
                MeterReg::M_Energy_W_SF.spec_size(),
                ReadingKind::U32,
                r,
            ),
    {
        match self.read_register_with_scale(MeterReg::M_Exported_A, MeterReg::M_Energy_W_SF) {
            Ok((v, sf)) => Ok(scaled_u32(regs_u32(&v), sf)),
            Err(e) => Err(ClientError::Modbus(e.error)),
        }
    }

    pub fn exported_wh_b(&mut self) -> (r: Result<ScaledValue, ClientError>)
        ensures
            final(self).spec_base() == old(self).spec_base(),
            reads_scaled(
                old(self).history(),
                final(self).history(),
                old(self).spec_base() + MeterReg::M_Exported_B.spec_offset(),
                MeterReg::M_Exported_B.spec_size(),
                old(self).spec_base() + MeterReg::M_Energy_W_SF.spec_offset(),
                MeterReg::M_Energy_W_SF.spec_size(),
                ReadingKind::U32,
                r,
            ),
    {
        match self.read_register_with_scale(MeterReg::M_Exported_B, MeterReg::M_Energy_W_SF) {
            Ok((v, sf)) => Ok(scaled_u32(regs_u32(&v), sf)),
            Err(e) => Err(ClientError::Modbus(e.error)),
        }
    }

    pub fn exported_wh_c(&mut self) -> (r: Result<ScaledValue, ClientError>)
        ensures
            final(self).spec_base() == old(self).spec_base(),
            reads_scaled(
                old(self).history(),
                final(self).history(),
                old(self).spec_base() + MeterReg::M_Exported_C.spec_offset(),
                MeterReg::M_Exported_C.spec_size(),
                old(self).spec_base() + MeterReg::M_Energy_W_SF.spec_offset(),
                MeterReg::M_Energy_W_SF.spec_size(),
                ReadingKind::U32,
                r,
            ),
    {
        match self.read_register_with_scale(MeterReg::M_Exported_C, MeterReg::M_Energy_W_SF) {
            Ok((v, sf)) => Ok(scaled_u32(regs_u32(&v), sf)),
            Err(e) => Err(ClientError::Modbus(e.error)),
        }
    }

    pub fn imported_wh(&mut self) -> (r: Result<ScaledValue, ClientError>)
        ensures
            final(self).spec_base() == old(self).spec_base(),
            reads_scaled(
                old(self).history(),
                final(self).history(),
                old(self).spec_base() + MeterReg::M_Imported.spec_offset(),
                MeterReg::M_Imported.spec_size(),
                old(self).spec_base() + MeterReg::M_Energy_W_SF.spec_offset(),
                MeterReg::M_Energy_W_SF.spec_size(),
                ReadingKind::U32,
                r,
            ),
    {
        match self.read_register_with_scale(MeterReg::M_Imported, MeterReg::M_Energy_W_SF) {
            Ok((v, sf)) => Ok(scaled_u32(regs_u32(&v), sf)),
            Err(e) => Err(ClientError::Modbus(e.error)),
        }
    }

    pub fn imported_wh_a(&mut self) -> (r: Result<ScaledValue, ClientError>)
        ensures
            final(self).spec_base() == old(self).spec_base(),
            reads_scaled(
                old(self).history(),
                final(self).history(),
                old(self).spec_base() + MeterReg::M_Imported_A.spec_offset(),
                MeterReg::M_Imported_A.spec_size(),
                old(self).spec_base() + MeterReg::M_Energy_W_SF.spec_offset(),
                MeterReg::M_Energy_W_SF.spec_size(),
                ReadingKind::U32,
                r,
            ),
    {
        match self.read_register_with_scale(MeterReg::M_Imported_A, MeterReg::M_Energy_W_SF) {
            Ok((v, sf)) => Ok(scaled_u32(regs_u32(&v), sf)),
            Err(e) => Err(ClientError::Modbus(e.error)),
        }
    }

    pub fn imported_wh_b(&mut self) -> (r: Result<ScaledValue, ClientError>)
        ensures
            final(self).spec_base() == old(self).spec_base(),
            reads_scaled(
                old(self).history(),
                final(self).history(),
                old(self).spec_base() + MeterReg::M_Imported_B.spec_offset(),
                MeterReg::M_Imported_B.spec_size(),
                old(self).spec_base() + MeterReg::M_Energy_W_SF.spec_offset(),
                MeterReg::M_Energy_W_SF.spec_size(),
                ReadingKind::U32,
                r,
            ),
    {
        match self.read_register_with_scale(MeterReg::M_Imported_B, MeterReg::M_Energy_W_SF) {
            Ok((v, sf)) => Ok(scaled_u32(regs_u32(&v), sf)),
            Err(e) => Err(ClientError::Modbus(e.error)),
        }
    }

    pub fn imported_wh_c(&mut self) -> (r: Result<ScaledValue, ClientError>)
        ensures
            final(self).spec_base() == old(self).spec_base(),
            reads_scaled(
                old(self).history(),
                final(self).history(),
                old(self).spec_base() + MeterReg::M_Imported_C.spec_offset(),
                MeterReg::M_Imported_C.spec_size(),
                old(self).spec_base() + MeterReg::M_Energy_W_SF.spec_offset(),
                MeterReg::M_Energy_W_SF.spec_size(),
                ReadingKind::U32,
                r,
            ),
    {
        match self.read_register_with_scale(MeterReg::M_Imported_C, MeterReg::M_Energy_W_SF) {
            Ok((v, sf)) => Ok(scaled_u32(regs_u32(&v), sf)),
            Err(e) => Err(ClientError::Modbus(e.error)),
        }
    }

    pub fn exported_vah(&mut self) -> (r: Result<ScaledValue, ClientError>)
        ensures
            final(self).spec_base() == old(self).spec_base(),
            reads_scaled(
                old(self).history(),
                final(self).history(),
                old(self).spec_base() + MeterReg::M_Exported_VA.spec_offset(),
                MeterReg::M_Exported_VA.spec_size(),
                old(self).spec_base() + MeterReg::M_Energy_VA_SF.spec_offset(),
                MeterReg::M_Energy_VA_SF.spec_size(),
                ReadingKind::U32,
                r,
            ),
    {
        match self.read_register_with_scale(MeterReg::M_Exported_VA, MeterReg::M_Energy_VA_SF) {
            Ok((v, sf)) => Ok(scaled_u32(regs_u32(&v), sf)),
            Err(e) => Err(ClientError::Modbus(e.error)),
        }
    }

    pub fn exported_vah_a(&mut self) -> (r: Result<ScaledValue, ClientError>)
        ensures
            final(self).spec_base() == old(self).spec_base(),
            reads_scaled(
                old(self).history(),
                final(self).history(),
                old(self).spec_base() + MeterReg::M_Exported_VA_A.spec_offset(),
                MeterReg::M_Exported_VA_A.spec_size(),
                old(self).spec_base() + MeterReg::M_Energy_VA_SF.spec_offset(),
                MeterReg::M_Energy_VA_SF.spec_size(),
                ReadingKind::U32,
                r,
            ),
    {
        match self.read_register_with_scale(MeterReg::M_Exported_VA_A, MeterReg::M_Energy_VA_SF) {
            Ok((v, sf)) => Ok(scaled_u32(regs_u32(&v), sf)),
            Err(e) => Err(ClientError::Modbus(e.error)),
        }
    }

    pub fn exported_vah_b(&mut self) -> (r: Result<ScaledValue, ClientError>)
        ensures
            final(self).spec_base() == old(self).spec_base(),
            reads_scaled(
                old(self).history(),
                final(self).history(),
                old(self).spec_base() + MeterReg::M_Exported_VA_B.spec_offset(),
                MeterReg::M_Exported_VA_B.spec_size(),
                old(self).spec_base() + MeterReg::M_Energy_VA_SF.spec_offset(),
                MeterReg::M_Energy_VA_SF.spec_size(),
                ReadingKind::U32,
                r,
            ),
    {
        match self.read_register_with_scale(MeterReg::M_Exported_VA_B, MeterReg::M_Energy_VA_SF) {
            Ok((v, sf)) => Ok(scaled_u32(regs_u32(&v), sf)),
            Err(e) => Err(ClientError::Modbus(e.error)),
        }
    }

    pub fn exported_vah_c(&mut self) -> (r: Result<ScaledValue, ClientError>)
        ensures
            final(self).spec_base() == old(self).spec_base(),
            reads_scaled(
                old(self).history(),
                final(self).history(),
                old(self).spec_base() + MeterReg::M_Exported_VA_C.spec_offset(),
                MeterReg::M_Exported_VA_C.spec_size(),
                old(self).spec_base() + MeterReg::M_Energy_VA_SF.spec_offset(),
                MeterReg::M_Energy_VA_SF.spec_size(),
                ReadingKind::U32,
                r,
            ),
    {
        match self.read_register_with_scale(MeterReg::M_Exported_VA_C, MeterReg::M_Energy_VA_SF) {
            Ok((v, sf)) => Ok(scaled_u32(regs_u32(&v), sf)),
            Err(e) => Err(ClientError::Modbus(e.error)),
        }
    }

    pub fn imported_vah(&mut self) -> (r: Result<ScaledValue, ClientError>)
        ensures
            final(self).spec_base() == old(self).spec_base(),
            reads_scaled(
                old(self).history(),
                final(self).history(),
                old(self).spec_base() + MeterReg::M_Imported_VA.spec_offset(),
                MeterReg::M_Imported_VA.spec_size(),
                old(self).spec_base() + MeterReg::M_Energy_VA_SF.spec_offset(),
                MeterReg::M_Energy_VA_SF.spec_size(),
                ReadingKind::U32,
                r,
            ),
    {
        match self.read_register_with_scale(MeterReg::M_Imported_VA, MeterReg::M_Energy_VA_SF) {
            Ok((v, sf)) => Ok(scaled_u32(regs_u32(&v), sf)),
            Err(e) => Err(ClientError::Modbus(e.error)),
        }
    }

    pub fn imported_vah_a(&mut self) -> (r: Result<ScaledValue, ClientError>)
        ensures
            final(self).spec_base() == old(self).spec_base(),
            reads_scaled(
                old(self).history(),
                final(self).history(),
                old(self).spec_base() + MeterReg::M_Imported_VA_A.spec_offset(),
                MeterReg::M_Imported_VA_A.spec_size(),
                old(self).spec_base() + MeterReg::M_Energy_VA_SF.spec_offset(),
                MeterReg::M_Energy_VA_SF.spec_size(),
                ReadingKind::U32,
                r,
            ),
    {
        match self.read_register_with_scale(MeterReg::M_Imported_VA_A, MeterReg::M_Energy_VA_SF) {
            Ok((v, sf)) => Ok(scaled_u32(regs_u32(&v), sf)),
            Err(e) => Err(ClientError::Modbus(e.error)),
        }
    }

    pub fn imported_vah_b(&mut self) -> (r: Result<ScaledValue, ClientError>)
        ensures
            final(self).spec_base() == old(self).spec_base(),
            reads_scaled(
                old(self).history(),
                final(self).history(),
                old(self).spec_base() + MeterReg::M_Imported_VA_B.spec_offset(),
                MeterReg::M_Imported_VA_B.spec_size(),
                old(self).spec_base() + MeterReg::M_Energy_VA_SF.spec_offset(),
                MeterReg::M_Energy_VA_SF.spec_size(),
                ReadingKind::U32,
                r,
            ),
    {
        match self.read_register_with_scale(MeterReg::M_Imported_VA_B, MeterReg::M_Energy_VA_SF) {
            Ok((v, sf)) => Ok(scaled_u32(regs_u32(&v), sf)),
            Err(e) => Err(ClientError::Modbus(e.error)),
        }
    }

    pub fn imported_vah_c(&mut self) -> (r: Result<ScaledValue, ClientError>)
        ensures
            final(self).spec_base() == old(self).spec_base(),
            reads_scaled(
                old(self).history(),
                final(self).history(),
                old(self).spec_base() + MeterReg::M_Imported_VA_C.spec_offset(),
                MeterReg::M_Imported_VA_C.spec_size(),
                old(self).spec_base() + MeterReg::M_Energy_VA_SF.spec_offset(),
                MeterReg::M_Energy_VA_SF.spec_size(),
                ReadingKind::U32,
                r,
            ),
    {
        match self.read_register_with_scale(MeterReg::M_Imported_VA_C, MeterReg::M_Energy_VA_SF) {
            Ok((v, sf)) => Ok(scaled_u32(regs_u32(&v), sf)),
            Err(e) => Err(ClientError::Modbus(e.error)),
        }
    }

    pub fn imported_varh_q1(&mut self) -> (r: Result<ScaledValue, ClientError>)
        ensures
            final(self).spec_base() == old(self).spec_base(),
            reads_scaled(
                old(self).history(),
                final(self).history(),
                old(self).spec_base() + MeterReg::M_Import_VARh_Q1.spec_offset(),
                MeterReg::M_Import_VARh_Q1.spec_size(),
                old(self).spec_base() + MeterReg::M_Energy_VAR_SF.spec_offset(),
                MeterReg::M_Energy_VAR_SF.spec_size(),
                ReadingKind::U32,
                r,
            ),
    {
        match self.read_register_with_scale(MeterReg::M_Import_VARh_Q1, MeterReg::M_Energy_VAR_SF) {
            Ok((v, sf)) => Ok(scaled_u32(regs_u32(&v), sf)),
            Err(e) => Err(ClientError::Modbus(e.error)),
        }
    }

    pub fn imported_varh_q1_a(&mut self) -> (r: Result<ScaledValue, ClientError>)
        ensures
            final(self).spec_base() == old(self).spec_base(),
            reads_scaled(
                old(self).history(),
                final(self).history(),
                old(self).spec_base() + MeterReg::M_Import_VARh_Q1A.spec_offset(),
                MeterReg::M_Import_VARh_Q1A.spec_size(),
                old(self).spec_base() + MeterReg::M_Energy_VAR_SF.spec_offset(),
                MeterReg::M_Energy_VAR_SF.spec_size(),
                ReadingKind::U32,
                r,
            ),
    {
        match self.read_register_with_scale(MeterReg::M_Import_VARh_Q1A, MeterReg::M_Energy_VAR_SF) {
            Ok((v, sf)) => Ok(scaled_u32(regs_u32(&v), sf)),
            Err(e) => Err(ClientError::Modbus(e.error)),
        }
    }

    pub fn imported_varh_q1_b(&mut self) -> (r: Result<ScaledValue, ClientError>)
        ensures
            final(self).spec_base() == old(self).spec_base(),
            reads_scaled(
                old(self).history(),
                final(self).history(),
                old(self).spec_base() + MeterReg::M_Import_VARh_Q1B.spec_offset(),
                MeterReg::M_Import_VARh_Q1B.spec_size(),
                old(self).spec_base() + MeterReg::M_Energy_VAR_SF.spec_offset(),
                MeterReg::M_Energy_VAR_SF.spec_size(),
                ReadingKind::U32,
                r,
            ),
    {
        match self.read_register_with_scale(MeterReg::M_Import_VARh_Q1B, MeterReg::M_Energy_VAR_SF) {
            Ok((v, sf)) => Ok(scaled_u32(regs_u32(&v), sf)),
            Err(e) => Err(ClientError::Modbus(e.error)),
        }
    }

    pub fn imported_varh_q1_c(&mut self) -> (r: Result<ScaledValue, ClientError>)
        ensures
            final(self).spec_base() == old(self).spec_base(),
            reads_scaled(
                old(self).history(),
                final(self).history(),
                old(self).spec_base() + MeterReg::M_Import_VARh_Q1C.spec_offset(),
                MeterReg::M_Import_VARh_Q1C.spec_size(),
                old(self).spec_base() + MeterReg::M_Energy_VAR_SF.spec_offset(),
                MeterReg::M_Energy_VAR_SF.spec_size(),
                ReadingKind::U32,
                r,
            ),
    {
        match self.read_register_with_scale(MeterReg::M_Import_VARh_Q1C, MeterReg::M_Energy_VAR_SF) {
            Ok((v, sf)) => Ok(scaled_u32(regs_u32(&v), sf)),
            Err(e) => Err(ClientError::Modbus(e.error)),
        }
    }

    pub fn imported_varh_q2(&mut self) -> (r: Result<ScaledValue, ClientError>)
        ensures
            final(self).spec_base() == old(self).spec_base(),
            reads_scaled(
                old(self).history(),
                final(self).history(),
                old(self).spec_base() + MeterReg::M_Import_VARh_Q2.spec_offset(),
                MeterReg::M_Import_VARh_Q2.spec_size(),
                old(self).spec_base() + MeterReg::M_Energy_VAR_SF.spec_offset(),
                MeterReg::M_Energy_VAR_SF.spec_size(),
                ReadingKind::U32,
                r,
            ),
    {
        match self.read_register_with_scale(MeterReg::M_Import_VARh_Q2, MeterReg::M_Energy_VAR_SF) {
            Ok((v, sf)) => Ok(scaled_u32(regs_u32(&v), sf)),
            Err(e) => Err(ClientError::Modbus(e.error)),
        }
    }

    pub fn imported_varh_q2_a(&mut self) -> (r: Result<ScaledValue, ClientError>)
        ensures
            final(self).spec_base() == old(self).spec_base(),
            reads_scaled(
                old(self).history(),
                final(self).history(),
                old(self).spec_base() + MeterReg::M_Import_VARh_Q2A.spec_offset(),
                MeterReg::M_Import_VARh_Q2A.spec_size(),
                old(self).spec_base() + MeterReg::M_Energy_VAR_SF.spec_offset(),
                MeterReg::M_Energy_VAR_SF.spec_size(),
                ReadingKind::U32,
                r,
            ),
    {
        match self.read_register_with_scale(MeterReg::M_Import_VARh_Q2A, MeterReg::M_Energy_VAR_SF) {
            Ok((v, sf)) => Ok(scaled_u32(regs_u32(&v), sf)),
            Err(e) => Err(ClientError::Modbus(e.error)),
        }
    }

    pub fn imported_varh_q2_b(&mut self) -> (r: Result<ScaledValue, ClientError>)
        ensures
            final(self).spec_base() == old(self).spec_base(),
            reads_scaled(
                old(self).history(),
                final(self).history(),
                old(self).spec_base() + MeterReg::M_Import_VARh_Q2B.spec_offset(),
                MeterReg::M_Import_VARh_Q2B.spec_size(),
                old(self).spec_base() + MeterReg::M_Energy_VAR_SF.spec_offset(),
                MeterReg::M_Energy_VAR_SF.spec_size(),
                ReadingKind::U32,
                r,
            ),
    {
        match self.read_register_with_scale(MeterReg::M_Import_VARh_Q2B, MeterReg::M_Energy_VAR_SF) {
            Ok((v, sf)) => Ok(scaled_u32(regs_u32(&v), sf)),
            Err(e) => Err(ClientError::Modbus(e.error)),
        }
    }

    pub fn imported_varh_q2_c(&mut self) -> (r: Result<ScaledValue, ClientError>)
        ensures
            final(self).spec_base() == old(self).spec_base(),
            reads_scaled(
                old(self).history(),
                final(self).history(),
                old(self).spec_base() + MeterReg::M_Import_VARh_Q2C.spec_offset(),
                MeterReg::M_Import_VARh_Q2C.spec_size(),
                old(self).spec_base() + MeterReg::M_Energy_VAR_SF.spec_offset(),
                MeterReg::M_Energy_VAR_SF.spec_size(),
                ReadingKind::U32,
                r,
            ),
    {
        match self.read_register_with_scale(MeterReg::M_Import_VARh_Q2C, MeterReg::M_Energy_VAR_SF) {
            Ok((v, sf)) => Ok(scaled_u32(regs_u32(&v), sf)),
            Err(e) => Err(ClientError::Modbus(e.error)),
        }
    }

    pub fn exported_varh_q3(&mut self) -> (r: Result<ScaledValue, ClientError>)
        ensures
            final(self).spec_base() == old(self).spec_base(),
            reads_scaled(
                old(self).history(),
                final(self).history(),
                old(self).spec_base() + MeterReg::M_Export_VARh_Q3.spec_offset(),
                MeterReg::M_Export_VARh_Q3.spec_size(),
                old(self).spec_base() + MeterReg::M_Energy_VAR_SF.spec_offset(),
                MeterReg::M_Energy_VAR_SF.spec_size(),
                ReadingKind::U32,
                r,
            ),
    {
        match self.read_register_with_scale(MeterReg::M_Export_VARh_Q3, MeterReg::M_Energy_VAR_SF) {
            Ok((v, sf)) => Ok(scaled_u32(regs_u32(&v), sf)),
            Err(e) => Err(ClientError::Modbus(e.error)),
        }
    }

    pub fn exported_varh_q3_a(&mut self) -> (r: Result<ScaledValue, ClientError>)
        ensures
            final(self).spec_base() == old(self).spec_base(),
            reads_scaled(
                old(self).history(),
                final(self).history(),
                old(self).spec_base() + MeterReg::M_Export_VARh_Q3A.spec_offset(),
                MeterReg::M_Export_VARh_Q3A.spec_size(),
                old(self).spec_base() + MeterReg::M_Energy_VAR_SF.spec_offset(),
                MeterReg::M_Energy_VAR_SF.spec_size(),
                ReadingKind::U32,
                r,
            ),
    {
        match self.read_register_with_scale(MeterReg::M_Export_VARh_Q3A, MeterReg::M_Energy_VAR_SF) {
            Ok((v, sf)) => Ok(scaled_u32(regs_u32(&v), sf)),
            Err(e) => Err(ClientError::Modbus(e.error)),
        }
    }

    pub fn exported_varh_q3_b(&mut self) -> (r: Result<ScaledValue, ClientError>)
        ensures
            final(self).spec_base() == old(self).spec_base(),
            reads_scaled(
                old(self).history(),
                final(self).history(),
                old(self).spec_base() + MeterReg::M_Export_VARh_Q3B.spec_offset(),
                MeterReg::M_Export_VARh_Q3B.spec_size(),
                old(self).spec_base() + MeterReg::M_Energy_VAR_SF.spec_offset(),
                MeterReg::M_Energy_VAR_SF.spec_size(),
                ReadingKind::U32,
                r,
            ),
    {
        match self.read_register_with_scale(MeterReg::M_Export_VARh_Q3B, MeterReg::M_Energy_VAR_SF) {
            Ok((v, sf)) => Ok(scaled_u32(regs_u32(&v), sf)),
            Err(e) => Err(ClientError::Modbus(e.error)),
        }
    }

    pub fn exported_varh_q3_c(&mut self) -> (r: Result<ScaledValue, ClientError>)
        ensures
            final(self).spec_base() == old(self).spec_base(),
            reads_scaled(
                old(self).history(),
                final(self).history(),
                old(self).spec_base() + MeterReg::M_Export_VARh_Q3C.spec_offset(),
                MeterReg::M_Export_VARh_Q3C.spec_size(),
                old(self).spec_base() + MeterReg::M_Energy_VAR_SF.spec_offset(),
                MeterReg::M_Energy_VAR_SF.spec_size(),
                ReadingKind::U32,
                r,
            ),
    {
        match self.read_register_with_scale(MeterReg::M_Export_VARh_Q3C, MeterReg::M_Energy_VAR_SF) {
            Ok((v, sf)) => Ok(scaled_u32(regs_u32(&v), sf)),
            Err(e) => Err(ClientError::Modbus(e.error)),
        }
    }

    pub fn exported_varh_q4(&mut self) -> (r: Result<ScaledValue, ClientError>)
        ensures
            final(self).spec_base() == old(self).spec_base(),
            reads_scaled(
                old(self).history(),
                final(self).history(),
                old(self).spec_base() + MeterReg::M_Export_VARh_Q4.spec_offset(),
                MeterReg::M_Export_VARh_Q4.spec_size(),
                old(self).spec_base() + MeterReg::M_Energy_VAR_SF.spec_offset(),
                MeterReg::M_Energy_VAR_SF.spec_size(),
                ReadingKind::U32,
                r,
            ),
    {
        match self.read_register_with_scale(MeterReg::M_Export_VARh_Q4, MeterReg::M_Energy_VAR_SF) {
            Ok((v, sf)) => Ok(scaled_u32(regs_u32(&v), sf)),
            Err(e) => Err(ClientError::Modbus(e.error)),
        }
    }

    pub fn exported_varh_q4_a(&mut self) -> (r: Result<ScaledValue, ClientError>)
        ensures
            final(self).spec_base() == old(self).spec_base(),
            reads_scaled(
                old(self).history(),
                final(self).history(),
                old(self).spec_base() + MeterReg::M_Export_VARh_Q4A.spec_offset(),
                MeterReg::M_Export_VARh_Q4A.spec_size(),
                old(self).spec_base() + MeterReg::M_Energy_VAR_SF.spec_offset(),
                MeterReg::M_Energy_VAR_SF.spec_size(),
                ReadingKind::U32,
                r,
            ),
    {
        match self.read_register_with_scale(MeterReg::M_Export_VARh_Q4A, MeterReg::M_Energy_VAR_SF) {
            Ok((v, sf)) => Ok(scaled_u32(regs_u32(&v), sf)),
            Err(e) => Err(ClientError::Modbus(e.error)),
        }
    }

    pub fn exported_varh_q4_b(&mut self) -> (r: Result<ScaledValue, ClientError>)
        ensures
            final(self).spec_base() == old(self).spec_base(),
            reads_scaled(
                old(self).history(),
                final(self).history(),
                old(self).spec_base() + MeterReg::M_Export_VARh_Q4B.spec_offset(),
                MeterReg::M_Export_VARh_Q4B.spec_size(),
                old(self).spec_base() + MeterReg::M_Energy_VAR_SF.spec_offset(),
                MeterReg::M_Energy_VAR_SF.spec_size(),
                ReadingKind::U32,
                r,
            ),
    {
        match self.read_register_with_scale(MeterReg::M_Export_VARh_Q4B, MeterReg::M_Energy_VAR_SF) {
            Ok((v, sf)) => Ok(scaled_u32(regs_u32(&v), sf)),
            Err(e) => Err(ClientError::Modbus(e.error)),
        }
    }

    pub fn exported_varh_q4_c(&mut self) -> (r: Result<ScaledValue, ClientError>)
        ensures
            final(self).spec_base() == old(self).spec_base(),
            reads_scaled(
                old(self).history(),
                final(self).history(),
                old(self).spec_base() + MeterReg::M_Export_VARh_Q4C.spec_offset(),
                MeterReg::M_Export_VARh_Q4C.spec_size(),
                old(self).spec_base() + MeterReg::M_Energy_VAR_SF.spec_offset(),
                MeterReg::M_Energy_VAR_SF.spec_size(),
                ReadingKind::U32,
                r,
            ),
    {
        match self.read_register_with_scale(MeterReg::M_Export_VARh_Q4C, MeterReg::M_Energy_VAR_SF) {
            Ok((v, sf)) => Ok(scaled_u32(regs_u32(&v), sf)),
            Err(e) => Err(ClientError::Modbus(e.error)),
        }
    }

    pub fn events(&mut self) -> (r: Result<u32, ClientError>)
        ensures
            final(self).spec_base() == old(self).spec_base(),
            reads_u32(
                old(self).history(),
                final(self).history(),
                old(self).spec_base() + MeterReg::M_Events.spec_offset(),
                MeterReg::M_Events.spec_size(),
                r,
            ),
    {
        match self.read(MeterReg::M_Events) {
            Ok(regs) => Ok(regs_u32(&regs)),
            Err(e) => Err(ClientError::Modbus(e.error)),
        }
    }

    /// Read grid real power (W) and line-to-line voltage (V) in a single Modbus request.
    ///
    /// Returns `(power, voltage)` where power is negative when exporting to the grid.
    pub fn grid_power_and_voltage(&mut self) -> (r: Result<(ScaledValue, ScaledValue), ClientError>)
        ensures
            final(self).spec_base() == old(self).spec_base(),
            one_read(
                old(self).history(),
                final(self).history(),
                old(self).spec_base() + MeterReg::M_AC_Voltage_AB.spec_offset(),
                11,
            ),
            match last_words(final(self).history()) {
                Some(w) => r == Ok::<(ScaledValue, ScaledValue), ClientError>(
                    (
                        scaled(word_to_i16(w[6]), word_to_i16(w[10]) as i16),
                        scaled(word_to_i16(w[0]), word_to_i16(w[3]) as i16),
                    ),
                ),
                None => fails_with_last_error(final(self).history(), r),
            },
    {
        let base = self.base.value();
        // Read M_AC_Voltage_AB through M_AC_Power_SF contiguously (offsets 79–89, 11 registers).
        let addr = base + MeterReg::M_AC_Voltage_AB.offset();
        match self.client.read_holding_registers(addr, 11) {
            Ok(regs) => Ok(grid_power_and_voltage_from_regs(&regs)),
            Err(e) => Err(ClientError::Modbus(e.error)),
        }
    }

    fn read_register_with_scale(&mut self, reg: MeterReg, sf_reg: MeterReg) -> (r: Result<
        (Vec<u16>, i16),
        ReadError,
    >)
        requires
            sf_reg.spec_size() == 1,
        ensures
            final(self).spec_base() == old(self).spec_base(),
            scaled_reads(
                old(self).history(),
                final(self).history(),
                old(self).spec_base() + reg.spec_offset(),
                reg.spec_size(),
                old(self).spec_base() + sf_reg.spec_offset(),
                sf_reg.spec_size(),
            ),
            match scaled_words(
                old(self).history(),
                final(self).history(),
                old(self).spec_base() + reg.spec_offset(),
                reg.spec_size(),
                old(self).spec_base() + sf_reg.spec_offset(),
                sf_reg.spec_size(),
            ) {
                Some((w, k)) => (r matches Ok((v, sf)) && v@ == w && sf == k),
                None => (r matches Err(e) && final(self).history().last().outcome == Err::<Seq<u16>, ReadError>(e)),
            },
            r matches Ok((regs, _)) ==> regs@.len() == reg.spec_size(),
    {
        let base = self.base.value();
        read_scaled(
            &mut self.client,
            base + reg.offset(),
            reg.size(),
            base + sf_reg.offset(),
            sf_reg.size(),
        )
    }

    fn read(&mut self, reg: MeterReg) -> (r: Result<Vec<u16>, ReadError>)
        ensures
            final(self).spec_base() == old(self).spec_base(),
            one_read(
                old(self).history(),
                final(self).history(),
                old(self).spec_base() + reg.spec_offset(),
                reg.spec_size(),
            ),
            match r {
                Ok(regs) => last_words(final(self).history()) == Some(regs@) && regs@.len() == reg.spec_size(),
                Err(e) => final(self).history().last().outcome == Err::<Seq<u16>, ReadError>(e),
            },
    {
        let base = self.base.value();
        self.client.read_holding_registers(base + reg.offset(), reg.size())
    }
}

/// Power and line-to-line voltage from the eleven registers that start at
/// `M_AC_Voltage_AB`: the voltage at index 0 with its scale factor at index 3, the power
/// at index 6 with its scale factor at index 10, all signed.
pub fn grid_power_and_voltage_from_regs(regs: &Vec<u16>) -> (r: (ScaledValue, ScaledValue))
    requires
        regs@.len() >= 11,
    ensures
        r.0 == scaled(word_to_i16(regs@[6]), word_to_i16(regs@[10]) as i16),
        r.1 == scaled(word_to_i16(regs@[0]), word_to_i16(regs@[3]) as i16),
        is_i16_reading(r.0),
        is_i16_reading(r.1),
{
    let voltage_sf = word_as_i16(regs[3]);
    let power_sf = word_as_i16(regs[10]);
    let power = scaled_i16(word_as_i16(regs[6]), power_sf);
    let voltage = scaled_i16(word_as_i16(regs[0]), voltage_sf);
    (power, voltage)
}

/// The eleven registers from `M_AC_Voltage_AB` hold the line-to-line voltage at index 0,
/// its scale factor at index 3, the total real power at index 6 and its scale factor at
/// index 10.
pub proof fn lemma_grid_window_layout()
    ensures
        MeterReg::M_AC_Voltage_SF.spec_offset() == MeterReg::M_AC_Voltage_AB.spec_offset() + 3,
        MeterReg::M_AC_Power.spec_offset() == MeterReg::M_AC_Voltage_AB.spec_offset() + 6,
        MeterReg::M_AC_Power_SF.spec_offset() == MeterReg::M_AC_Voltage_AB.spec_offset() + 10,
        MeterReg::M_AC_Voltage_AB.spec_size() == 1,
        MeterReg::M_AC_Power.spec_size() == 1,
{
}

} // verus!
