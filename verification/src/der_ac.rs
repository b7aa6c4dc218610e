//! Client for a SunSpec DER AC measurement block (model 701) in a meter slot of an inverter.
use vstd::prelude::*;

use crate::decode::{
    optional_scaled_i16, optional_scaled_u16, optional_scaled_u32, optional_scaled_u64,
    optional_u16, optional_u32, regs_i16, regs_string, regs_u16, regs_u32, regs_u64, word_to_i16,
    ReadingKind, ScaledValue,
};
use crate::error::ClientError;
use crate::reading::{
    optional_reading, reads_optional_u16, reads_optional_u32, reads_string, reads_u16, reads_u32,
};
use crate::slot::{is_slot_base, SlotBase, SlotNumber, READ_TIMEOUT_SECS};
use crate::transport::{fails_with_last_error, last_words, one_read, ConnectParams, Connection, ReadError, ReadRecord};

verus! {

/// Client for SunSpec model 701 (DER AC Measurement) slot in a SolarEdge inverter.
///
/// Register layout: SunSpec model 701.  SolarEdge-specific implementation details:
/// SunSpec Implementation Technical Note.  Scale factors are read once per client and
/// then served from its cache.
pub struct DerAcClient {
    client: Connection,
    base: SlotBase,
    cache: ScaleFactorCache,
}

/// Registers of a DER AC block, by offset from the slot's base address.
/// DID=701 is at offset 0, Length=153 at offset 1, data begins at offset 2.
#[derive(Debug, Clone, Copy, PartialEq, Eq, Structural)]
#[allow(non_camel_case_types)]
pub enum DerAcReg {
    St,
    InvSt,
    ConnSt,
    Alrm,
    DERMode,
    W,
    VA,
    Var,
    PF,
    A,
    Llv,
    Lnv,
    Hz,
    TotWhInj,
    TotWhAbs,
    TotVarhInj,
    TotVarhAbs,
    TmpAmb,
    TmpCab,
    TmpSnk,
    TmpTrns,
    TmpSw,
    TmpOt,
    WL1,
    VAL1,
    VarL1,
    PFL1,
    AL1,
    VL1N,
    VL1L2,
    TotWhInjL1,
    TotWhAbsL1,
    TotVarhInjL1,
    TotVarhAbsL1,
    WL2,
    VAL2,
    VarL2,
    PFL2,
    AL2,
    VL2N,
    VL2L3,
    TotWhInjL2,
    TotWhAbsL2,
    TotVarhInjL2,
    TotVarhAbsL2,
    WL3,
    VAL3,
    VarL3,
    PFL3,
    AL3,
    VL3N,
    VL3L1,
    TotWhInjL3,
    TotWhAbsL3,
    TotVarhInjL3,
    TotVarhAbsL3,
    ThrotPct,
    ThrotSrc,
    A_SF,
    V_SF,
    Hz_SF,
    W_SF,
    PF_SF,
    VA_SF,
    Var_SF,
    TotWh_SF,
    TotVarh_SF,
    Tmp_SF,
    MnAlrmInfo,
}

impl DerAcReg {
    /// Offset of the register from the slot's base address.
    pub open spec fn spec_offset(self) -> int {
        match self {
            DerAcReg::St => 3,
            DerAcReg::InvSt => 4,
            DerAcReg::ConnSt => 5,
            DerAcReg::Alrm => 6,
            DerAcReg::DERMode => 8,
            DerAcReg::W => 10,
            DerAcReg::VA => 11,
            DerAcReg::Var => 12,
            DerAcReg::PF => 13,
            DerAcReg::A => 14,
            DerAcReg::Llv => 15,
            DerAcReg::Lnv => 16,
            DerAcReg::Hz => 17,
            DerAcReg::TotWhInj => 19,
            DerAcReg::TotWhAbs => 23,
            DerAcReg::TotVarhInj => 27,
            DerAcReg::TotVarhAbs => 31,
            DerAcReg::TmpAmb => 35,
            DerAcReg::TmpCab => 36,
            DerAcReg::TmpSnk => 37,
            DerAcReg::TmpTrns => 38,
            DerAcReg::TmpSw => 39,
            DerAcReg::TmpOt => 40,
            DerAcReg::WL1 => 41,
            DerAcReg::VAL1 => 42,
            DerAcReg::VarL1 => 43,
            DerAcReg::PFL1 => 44,
            DerAcReg::AL1 => 45,
            DerAcReg::VL1N => 46,
            DerAcReg::VL1L2 => 47,
            DerAcReg::TotWhInjL1 => 48,
            DerAcReg::TotWhAbsL1 => 52,
            DerAcReg::TotVarhInjL1 => 56,
            DerAcReg::TotVarhAbsL1 => 60,
            DerAcReg::WL2 => 64,
            DerAcReg::VAL2 => 65,
            DerAcReg::VarL2 => 66,
            DerAcReg::PFL2 => 67,
            DerAcReg::AL2 => 68,
            DerAcReg::VL2N => 69,
            DerAcReg::VL2L3 => 70,
            DerAcReg::TotWhInjL2 => 71,
            DerAcReg::TotWhAbsL2 => 75,
            DerAcReg::TotVarhInjL2 => 79,
            DerAcReg::TotVarhAbsL2 => 83,
            DerAcReg::WL3 => 87,
            DerAcReg::VAL3 => 88,
            DerAcReg::VarL3 => 89,
            DerAcReg::PFL3 => 90,
            DerAcReg::AL3 => 91,
            DerAcReg::VL3N => 92,
            DerAcReg::VL3L1 => 93,
            DerAcReg::TotWhInjL3 => 94,
            DerAcReg::TotWhAbsL3 => 98,
            DerAcReg::TotVarhInjL3 => 102,
            DerAcReg::TotVarhAbsL3 => 106,
            DerAcReg::ThrotPct => 110,
            DerAcReg::ThrotSrc => 111,
            DerAcReg::A_SF => 113,
            DerAcReg::V_SF => 114,
            DerAcReg::Hz_SF => 115,
            DerAcReg::W_SF => 116,
            DerAcReg::PF_SF => 117,
            DerAcReg::VA_SF => 118,
            DerAcReg::Var_SF => 119,
            DerAcReg::TotWh_SF => 120,
            DerAcReg::TotVarh_SF => 121,
            DerAcReg::Tmp_SF => 122,
            DerAcReg::MnAlrmInfo => 123,
        }
    }

    /// Number of words the register spans.
    pub open spec fn spec_size(self) -> int {
        match self {
            DerAcReg::Alrm | DerAcReg::DERMode | DerAcReg::Hz | DerAcReg::ThrotSrc => 2,
            DerAcReg::TotWhInj
            | DerAcReg::TotWhAbs
            | DerAcReg::TotVarhInj
            | DerAcReg::TotVarhAbs
            | DerAcReg::TotWhInjL1
            | DerAcReg::TotWhAbsL1
            | DerAcReg::TotVarhInjL1
            | DerAcReg::TotVarhAbsL1
            | DerAcReg::TotWhInjL2
            | DerAcReg::TotWhAbsL2
            | DerAcReg::TotVarhInjL2
            | DerAcReg::TotVarhAbsL2
            | DerAcReg::TotWhInjL3
            | DerAcReg::TotWhAbsL3
            | DerAcReg::TotVarhInjL3
            | DerAcReg::TotVarhAbsL3 => 4,
            DerAcReg::MnAlrmInfo => 32,
            _ => 1,
        }
    }

    /// The register that follows this one in the SunSpec model's point order (among the
    /// registers this library reads); `None` for the last one.
    pub open spec fn point_after(self) -> Option<DerAcReg> {
        match self {
            DerAcReg::St => Some(DerAcReg::InvSt),
            DerAcReg::InvSt => Some(DerAcReg::ConnSt),
            DerAcReg::ConnSt => Some(DerAcReg::Alrm),
            DerAcReg::Alrm => Some(DerAcReg::DERMode),
            DerAcReg::DERMode => Some(DerAcReg::W),
            DerAcReg::W => Some(DerAcReg::VA),
            DerAcReg::VA => Some(DerAcReg::Var),
            DerAcReg::Var => Some(DerAcReg::PF),
            DerAcReg::PF => Some(DerAcReg::A),
            DerAcReg::A => Some(DerAcReg::Llv),
            DerAcReg::Llv => Some(DerAcReg::Lnv),
            DerAcReg::Lnv => Some(DerAcReg::Hz),
            DerAcReg::Hz => Some(DerAcReg::TotWhInj),
            DerAcReg::TotWhInj => Some(DerAcReg::TotWhAbs),
            DerAcReg::TotWhAbs => Some(DerAcReg::TotVarhInj),
            DerAcReg::TotVarhInj => Some(DerAcReg::TotVarhAbs),
            DerAcReg::TotVarhAbs => Some(DerAcReg::TmpAmb),
            DerAcReg::TmpAmb => Some(DerAcReg::TmpCab),
            DerAcReg::TmpCab => Some(DerAcReg::TmpSnk),
            DerAcReg::TmpSnk => Some(DerAcReg::TmpTrns),
            DerAcReg::TmpTrns => Some(DerAcReg::TmpSw),
            DerAcReg::TmpSw => Some(DerAcReg::TmpOt),
            DerAcReg::TmpOt => Some(DerAcReg::WL1),
            DerAcReg::WL1 => Some(DerAcReg::VAL1),
            DerAcReg::VAL1 => Some(DerAcReg::VarL1),
            DerAcReg::VarL1 => Some(DerAcReg::PFL1),
            DerAcReg::PFL1 => Some(DerAcReg::AL1),
            DerAcReg::AL1 => Some(DerAcReg::VL1N),
            DerAcReg::VL1N => Some(DerAcReg::VL1L2),
            DerAcReg::VL1L2 => Some(DerAcReg::TotWhInjL1),
            DerAcReg::TotWhInjL1 => Some(DerAcReg::TotWhAbsL1),
            DerAcReg::TotWhAbsL1 => Some(DerAcReg::TotVarhInjL1),
            DerAcReg::TotVarhInjL1 => Some(DerAcReg::TotVarhAbsL1),
            DerAcReg::TotVarhAbsL1 => Some(DerAcReg::WL2),
            DerAcReg::WL2 => Some(DerAcReg::VAL2),
            DerAcReg::VAL2 => Some(DerAcReg::VarL2),
            DerAcReg::VarL2 => Some(DerAcReg::PFL2),
            DerAcReg::PFL2 => Some(DerAcReg::AL2),
            DerAcReg::AL2 => Some(DerAcReg::VL2N),
            DerAcReg::VL2N => Some(DerAcReg::VL2L3),
            DerAcReg::VL2L3 => Some(DerAcReg::TotWhInjL2),
            DerAcReg::TotWhInjL2 => Some(DerAcReg::TotWhAbsL2),
            DerAcReg::TotWhAbsL2 => Some(DerAcReg::TotVarhInjL2),
            DerAcReg::TotVarhInjL2 => Some(DerAcReg::TotVarhAbsL2),
            DerAcReg::TotVarhAbsL2 => Some(DerAcReg::WL3),
            DerAcReg::WL3 => Some(DerAcReg::VAL3),
            DerAcReg::VAL3 => Some(DerAcReg::VarL3),
            DerAcReg::VarL3 => Some(DerAcReg::PFL3),
            DerAcReg::PFL3 => Some(DerAcReg::AL3),
            DerAcReg::AL3 => Some(DerAcReg::VL3N),
            DerAcReg::VL3N => Some(DerAcReg::VL3L1),
            DerAcReg::VL3L1 => Some(DerAcReg::TotWhInjL3),
            DerAcReg::TotWhInjL3 => Some(DerAcReg::TotWhAbsL3),
            DerAcReg::TotWhAbsL3 => Some(DerAcReg::TotVarhInjL3),
            DerAcReg::TotVarhInjL3 => Some(DerAcReg::TotVarhAbsL3),
            DerAcReg::TotVarhAbsL3 => Some(DerAcReg::ThrotPct),
            DerAcReg::ThrotPct => Some(DerAcReg::ThrotSrc),
            DerAcReg::ThrotSrc => Some(DerAcReg::A_SF),
            DerAcReg::A_SF => Some(DerAcReg::V_SF),
            DerAcReg::V_SF => Some(DerAcReg::Hz_SF),
            DerAcReg::Hz_SF => Some(DerAcReg::W_SF),
            DerAcReg::W_SF => Some(DerAcReg::PF_SF),
            DerAcReg::PF_SF => Some(DerAcReg::VA_SF),
            DerAcReg::VA_SF => Some(DerAcReg::Var_SF),
            DerAcReg::Var_SF => Some(DerAcReg::TotWh_SF),
            DerAcReg::TotWh_SF => Some(DerAcReg::TotVarh_SF),
            DerAcReg::TotVarh_SF => Some(DerAcReg::Tmp_SF),
            DerAcReg::Tmp_SF => Some(DerAcReg::MnAlrmInfo),
            DerAcReg::MnAlrmInfo => None,
        }
    }

    /// Whether the register is one of the scale factors.
    pub open spec fn is_scale_factor(self) -> bool {
        self == DerAcReg::W_SF
            || self == DerAcReg::A_SF
            || self == DerAcReg::V_SF
            || self == DerAcReg::Hz_SF
            || self == DerAcReg::PF_SF
            || self == DerAcReg::VA_SF
            || self == DerAcReg::Var_SF
            || self == DerAcReg::TotWh_SF
            || self == DerAcReg::TotVarh_SF
            || self == DerAcReg::Tmp_SF
    }

    /// Offset of the register from the slot's base address.
    pub fn offset(self) -> (r: u16)
        ensures
            r as int == self.spec_offset(),
    {
        match self {
            DerAcReg::St => 3,
            DerAcReg::InvSt => 4,
            DerAcReg::ConnSt => 5,
            DerAcReg::Alrm => 6,
            DerAcReg::DERMode => 8,
            DerAcReg::W => 10,
            DerAcReg::VA => 11,
            DerAcReg::Var => 12,
            DerAcReg::PF => 13,
            DerAcReg::A => 14,
            DerAcReg::Llv => 15,
            DerAcReg::Lnv => 16,
            DerAcReg::Hz => 17,
            DerAcReg::TotWhInj => 19,
            DerAcReg::TotWhAbs => 23,
            DerAcReg::TotVarhInj => 27,
            DerAcReg::TotVarhAbs => 31,
            DerAcReg::TmpAmb => 35,
            DerAcReg::TmpCab => 36,
            DerAcReg::TmpSnk => 37,
            DerAcReg::TmpTrns => 38,
            DerAcReg::TmpSw => 39,
            DerAcReg::TmpOt => 40,
            DerAcReg::WL1 => 41,
            DerAcReg::VAL1 => 42,
            DerAcReg::VarL1 => 43,
            DerAcReg::PFL1 => 44,
            DerAcReg::AL1 => 45,
            DerAcReg::VL1N => 46,
            DerAcReg::VL1L2 => 47,
            DerAcReg::TotWhInjL1 => 48,
            DerAcReg::TotWhAbsL1 => 52,
            DerAcReg::TotVarhInjL1 => 56,
            DerAcReg::TotVarhAbsL1 => 60,
            DerAcReg::WL2 => 64,
            DerAcReg::VAL2 => 65,
            DerAcReg::VarL2 => 66,
            DerAcReg::PFL2 => 67,
            DerAcReg::AL2 => 68,
            DerAcReg::VL2N => 69,
            DerAcReg::VL2L3 => 70,
            DerAcReg::TotWhInjL2 => 71,
            DerAcReg::TotWhAbsL2 => 75,
            DerAcReg::TotVarhInjL2 => 79,
            DerAcReg::TotVarhAbsL2 => 83,
            DerAcReg::WL3 => 87,
            DerAcReg::VAL3 => 88,
            DerAcReg::VarL3 => 89,
            DerAcReg::PFL3 => 90,
            DerAcReg::AL3 => 91,
            DerAcReg::VL3N => 92,
            DerAcReg::VL3L1 => 93,
            DerAcReg::TotWhInjL3 => 94,
            DerAcReg::TotWhAbsL3 => 98,
            DerAcReg::TotVarhInjL3 => 102,
            DerAcReg::TotVarhAbsL3 => 106,
            DerAcReg::ThrotPct => 110,
            DerAcReg::ThrotSrc => 111,
            DerAcReg::A_SF => 113,
            DerAcReg::V_SF => 114,
            DerAcReg::Hz_SF => 115,
            DerAcReg::W_SF => 116,
            DerAcReg::PF_SF => 117,
            DerAcReg::VA_SF => 118,
            DerAcReg::Var_SF => 119,
            DerAcReg::TotWh_SF => 120,
            DerAcReg::TotVarh_SF => 121,
            DerAcReg::Tmp_SF => 122,
            DerAcReg::MnAlrmInfo => 123,
        }
    }

    /// Number of words the register spans.
    pub fn size(self) -> (r: u16)
        ensures
            r as int == self.spec_size(),
    {
        match self {
            DerAcReg::Alrm | DerAcReg::DERMode | DerAcReg::Hz | DerAcReg::ThrotSrc => 2,
            DerAcReg::TotWhInj
            | DerAcReg::TotWhAbs
            | DerAcReg::TotVarhInj
            | DerAcReg::TotVarhAbs
            | DerAcReg::TotWhInjL1
            | DerAcReg::TotWhAbsL1
            | DerAcReg::TotVarhInjL1
            | DerAcReg::TotVarhAbsL1
            | DerAcReg::TotWhInjL2
            | DerAcReg::TotWhAbsL2
            | DerAcReg::TotVarhInjL2
            | DerAcReg::TotVarhAbsL2
            | DerAcReg::TotWhInjL3
            | DerAcReg::TotWhAbsL3
            | DerAcReg::TotVarhInjL3
            | DerAcReg::TotVarhAbsL3 => 4,
            DerAcReg::MnAlrmInfo => 32,
            _ => 1,
        }
    }
}

/// Every register of the block lies within the 155 words of the block (header included),
/// and every scale factor is a single word.
pub proof fn lemma_der_ac_registers_bounded(reg: DerAcReg)
    ensures
        1 <= reg.spec_size() <= 32,
        3 <= reg.spec_offset(),
        reg.spec_offset() + reg.spec_size() <= 155,
        reg.is_scale_factor() ==> reg.spec_size() == 1,
{
}

/// The scale factors of a DER AC block that have been read so far.
#[derive(Clone, Copy, Debug)]
pub struct ScaleFactorCache {
    sf_w: Option<i16>,
    sf_a: Option<i16>,
    sf_v: Option<i16>,
    sf_hz: Option<i16>,
    sf_pf: Option<i16>,
    sf_va: Option<i16>,
    sf_var: Option<i16>,
    sf_tot_wh: Option<i16>,
    sf_tot_varh: Option<i16>,
    sf_tmp: Option<i16>,
}

impl ScaleFactorCache {
    /// The cached value of a scale-factor register (`None` for any other register).
    pub closed spec fn cached(self, reg: DerAcReg) -> Option<i16> {
        match reg {
            DerAcReg::W_SF => self.sf_w,
            DerAcReg::A_SF => self.sf_a,
            DerAcReg::V_SF => self.sf_v,
            DerAcReg::Hz_SF => self.sf_hz,
            DerAcReg::PF_SF => self.sf_pf,
            DerAcReg::VA_SF => self.sf_va,
            DerAcReg::Var_SF => self.sf_var,
            DerAcReg::TotWh_SF => self.sf_tot_wh,
            DerAcReg::TotVarh_SF => self.sf_tot_varh,
            DerAcReg::Tmp_SF => self.sf_tmp,
            _ => None,
        }
    }

    /// The cache with the scale factor `reg` set to `sf` (unchanged for any other register).
    pub closed spec fn written(self, reg: DerAcReg, sf: i16) -> ScaleFactorCache {
        match reg {
            DerAcReg::W_SF => ScaleFactorCache { sf_w: Some(sf), ..self },
            DerAcReg::A_SF => ScaleFactorCache { sf_a: Some(sf), ..self },
            DerAcReg::V_SF => ScaleFactorCache { sf_v: Some(sf), ..self },
            DerAcReg::Hz_SF => ScaleFactorCache { sf_hz: Some(sf), ..self },
            DerAcReg::PF_SF => ScaleFactorCache { sf_pf: Some(sf), ..self },
            DerAcReg::VA_SF => ScaleFactorCache { sf_va: Some(sf), ..self },
            DerAcReg::Var_SF => ScaleFactorCache { sf_var: Some(sf), ..self },
            DerAcReg::TotWh_SF => ScaleFactorCache { sf_tot_wh: Some(sf), ..self },
            DerAcReg::TotVarh_SF => ScaleFactorCache { sf_tot_varh: Some(sf), ..self },
            DerAcReg::Tmp_SF => ScaleFactorCache { sf_tmp: Some(sf), ..self },
            _ => self,
        }
    }

    /// An empty cache.
    pub fn new() -> (r: ScaleFactorCache)
        ensures
            forall|reg: DerAcReg| #[trigger] r.cached(reg) is None,
    {
        ScaleFactorCache {
            sf_w: None,
            sf_a: None,
            sf_v: None,
            sf_hz: None,
            sf_pf: None,
            sf_va: None,
            sf_var: None,
            sf_tot_wh: None,
            sf_tot_varh: None,
            sf_tmp: None,
        }
    }

    /// The cached value of a scale factor.
    pub fn read(&self, sf_reg: DerAcReg) -> (r: Option<i16>)
        requires
            sf_reg.is_scale_factor(),
        ensures
            r == self.cached(sf_reg),
    {
        match sf_reg {
            DerAcReg::W_SF => self.sf_w,
            DerAcReg::A_SF => self.sf_a,
            DerAcReg::V_SF => self.sf_v,
            DerAcReg::Hz_SF => self.sf_hz,
            DerAcReg::PF_SF => self.sf_pf,
            DerAcReg::VA_SF => self.sf_va,
            DerAcReg::Var_SF => self.sf_var,
            DerAcReg::TotWh_SF => self.sf_tot_wh,
            DerAcReg::TotVarh_SF => self.sf_tot_varh,
            DerAcReg::Tmp_SF => self.sf_tmp,
            _ => None,
        }
    }

    /// Caches the value of a scale factor.
    pub fn write(&mut self, sf_reg: DerAcReg, sf: i16)
        requires
            sf_reg.is_scale_factor(),
        ensures
            *final(self) == old(self).written(sf_reg, sf),
    {
        match sf_reg {
            DerAcReg::W_SF => self.sf_w = Some(sf),
            DerAcReg::A_SF => self.sf_a = Some(sf),
            DerAcReg::V_SF => self.sf_v = Some(sf),
            DerAcReg::Hz_SF => self.sf_hz = Some(sf),
            DerAcReg::PF_SF => self.sf_pf = Some(sf),
            DerAcReg::VA_SF => self.sf_va = Some(sf),
            DerAcReg::Var_SF => self.sf_var = Some(sf),
            DerAcReg::TotWh_SF => self.sf_tot_wh = Some(sf),
            DerAcReg::TotVarh_SF => self.sf_tot_varh = Some(sf),
            DerAcReg::Tmp_SF => self.sf_tmp = Some(sf),
            _ => {},
        }
    }
}

/// What a cache read gives back of a write: the value written, for the register written,
/// and the earlier value for every other register.
pub proof fn lemma_cache_read_after_write(c: ScaleFactorCache, reg: DerAcReg, sf: i16, other: DerAcReg)
    requires
        reg.is_scale_factor(),
    ensures
        c.written(reg, sf).cached(reg) == Some(sf),
        other != reg ==> c.written(reg, sf).cached(other) == c.cached(other),
{
}

/// Writing a value that is already cached leaves the cache as it is.
pub proof fn lemma_cache_rewrite_same(c: ScaleFactorCache, reg: DerAcReg, sf: i16)
    requires
        reg.is_scale_factor(),
        c.cached(reg) == Some(sf),
    ensures
        c.written(reg, sf) == c,
{
}

/// The requests that fetch value register `reg` and scale factor `sf_reg` of the block
/// at `base`, with the cache `before_c`: the value alone when the scale factor is cached;
/// otherwise the scale factor (one word) first and, if that succeeded, the value.  A scale
/// factor read from the device is cached.
pub open spec fn der_scaled_reads(
    before_h: Seq<ReadRecord>,
    after_h: Seq<ReadRecord>,
    before_c: ScaleFactorCache,
    after_c: ScaleFactorCache,
    base: int,
    reg: DerAcReg,
    sf_reg: DerAcReg,
) -> bool {
    match before_c.cached(sf_reg) {
        Some(k) => after_c == before_c && one_read(
            before_h,
            after_h,
            base + reg.spec_offset(),
            reg.spec_size(),
        ),
        None => {
            let sf_h = after_h.take(before_h.len() + 1int);
            &&& one_read(before_h, sf_h, base + sf_reg.spec_offset(), 1)
            &&& match last_words(sf_h) {
                None => after_h == sf_h && after_c == before_c,
                Some(sw) => after_c == before_c.written(sf_reg, word_to_i16(sw[0]) as i16)
                    && one_read(sf_h, after_h, base + reg.spec_offset(), reg.spec_size()),
            }
        },
    }
}

/// The value words and the scale factor that those requests gave, if they succeeded.
pub open spec fn der_scaled_words(
    before_h: Seq<ReadRecord>,
    after_h: Seq<ReadRecord>,
    before_c: ScaleFactorCache,
    sf_reg: DerAcReg,
) -> Option<(Seq<u16>, i16)> {
    let k = match before_c.cached(sf_reg) {
        Some(k) => Some(k),
        None => match last_words(after_h.take(before_h.len() + 1int)) {
            Some(sw) => Some(word_to_i16(sw[0]) as i16),
            None => None,
        },
    };
    match k {
        Some(k) => match last_words(after_h) {
            Some(w) => Some((w, k)),
            None => None,
        },
        None => None,
    }
}

/// A DER AC getter of a scaled value: it makes the [`der_scaled_reads`] and returns the
/// value read as `kind` with the scale factor, or `None` for the "not implemented" marker.
pub open spec fn der_reads_scaled(
    before_h: Seq<ReadRecord>,
    after_h: Seq<ReadRecord>,
    before_c: ScaleFactorCache,
    after_c: ScaleFactorCache,
    base: int,
    reg: DerAcReg,
    sf_reg: DerAcReg,
    kind: ReadingKind,
    r: Result<Option<ScaledValue>, ClientError>,
) -> bool {
    &&& der_scaled_reads(before_h, after_h, before_c, after_c, base, reg, sf_reg)
    &&& match der_scaled_words(before_h, after_h, before_c, sf_reg) {
        Some((w, k)) => r == Ok::<Option<ScaledValue>, ClientError>(optional_reading(kind, w, k)),
        None => fails_with_last_error(after_h, r),
    }
}

/// Scale factors are read from the device once per client: once a getter has obtained the
/// scale factor `sf_reg`, the next getter that uses it leaves the cache as it is, sends only
/// the request for its own value register, and returns the same scale factor.
pub proof fn lemma_scale_factor_read_once(
    h0: Seq<ReadRecord>,
    h1: Seq<ReadRecord>,
    h2: Seq<ReadRecord>,
    c0: ScaleFactorCache,
    c1: ScaleFactorCache,
    c2: ScaleFactorCache,
    base: int,
    reg1: DerAcReg,
    reg2: DerAcReg,
    sf_reg: DerAcReg,
)
    requires
        sf_reg.is_scale_factor(),
        der_scaled_reads(h0, h1, c0, c1, base, reg1, sf_reg),
        der_scaled_words(h0, h1, c0, sf_reg) is Some,
        der_scaled_reads(h1, h2, c1, c2, base, reg2, sf_reg),
    ensures
        c2 == c1,
        one_read(h1, h2, base + reg2.spec_offset(), reg2.spec_size()),
        match (der_scaled_words(h0, h1, c0, sf_reg), der_scaled_words(h1, h2, c1, sf_reg)) {
            (Some((_, k1)), Some((_, k2))) => k2 == k1,
            _ => true,
        },
{
    let k1 = der_scaled_words(h0, h1, c0, sf_reg).unwrap().1;
    if c0.cached(sf_reg) is None {
        lemma_cache_read_after_write(c0, sf_reg, k1, sf_reg);
    }
    assert(c1.cached(sf_reg) == Some(k1));
}

/// The DER AC map is the SunSpec model 701 layout: the registers follow each other in the
/// model's point order with no word between them, from `St` at offset 3 (after the model
/// header at 0 and 1 and `ACType` at 2) to `MnAlrmInfo`, which ends the block's 153 data
/// words at offset 155.  So real power `W` is at 10, apparent power `VA` at 11, and the
/// power scale factor `W_SF` at 116.
pub proof fn lemma_der_ac_layout(reg: DerAcReg)
    ensures
        reg.point_after() matches Some(next) ==> reg.spec_offset() + reg.spec_size() == next.spec_offset(),
        reg.point_after() is None <==> reg == DerAcReg::MnAlrmInfo,
        reg.point_after() != Some(DerAcReg::St),
        DerAcReg::St.spec_offset() == 3,
        DerAcReg::MnAlrmInfo.spec_offset() + DerAcReg::MnAlrmInfo.spec_size() == 2 + 153,
        DerAcReg::W.spec_offset() == 10,
        DerAcReg::VA.spec_offset() == 11,
        DerAcReg::W_SF.spec_offset() == 116,
{
}

/// Distinct DER AC registers occupy disjoint word ranges: no read of one register returns
/// a word of another.
pub proof fn lemma_der_ac_registers_disjoint(a: DerAcReg, b: DerAcReg)
    requires
        a != b,
    ensures
        a.spec_offset() + a.spec_size() <= b.spec_offset() || b.spec_offset() + b.spec_size() <= a.spec_offset(),
{
}

/// The scale factors are the registers at offsets 113 to 122, one each; every other
/// register lies wholly below or above them.
pub proof fn lemma_scale_factor_layout(reg: DerAcReg, sf: DerAcReg)
    requires
        sf.is_scale_factor(),
    ensures
        113 <= sf.spec_offset() <= 122,
        sf.spec_size() == 1,
        reg.is_scale_factor() ==> (reg.spec_offset() == sf.spec_offset() <==> reg == sf),
        !reg.is_scale_factor() ==> reg.spec_offset() + reg.spec_size() <= 113 || reg.spec_offset() >= 123,
{
}

/// Scale factors are read from the device at most once per client: once the scale factor
/// `sf` is cached, a getter of any value register, with any scale factor, keeps `sf` cached
/// with the same value and sends no request that covers its register.
pub proof fn lemma_cached_scale_factor_kept(
    h0: Seq<ReadRecord>,
    h1: Seq<ReadRecord>,
    c0: ScaleFactorCache,
    c1: ScaleFactorCache,
    base: int,
    reg: DerAcReg,
    sf_reg: DerAcReg,
    sf: DerAcReg,
)
    requires
        !reg.is_scale_factor(),
        sf_reg.is_scale_factor(),
        sf.is_scale_factor(),
        c0.cached(sf) is Some,
        der_scaled_reads(h0, h1, c0, c1, base, reg, sf_reg),
    ensures
        c1.cached(sf) == c0.cached(sf),
        h0.len() < h1.len(),
        h1.subrange(0, h0.len() as int) == h0,
        forall|i: int|
            #![trigger h1[i]]
            h0.len() <= i < h1.len() ==> !(h1[i].addr <= base + sf.spec_offset() < h1[i].addr
                + h1[i].count),
{
    lemma_scale_factor_layout(reg, sf);
    lemma_scale_factor_layout(sf_reg, sf);
    if c0.cached(sf_reg) is None {
        let sf_h = h1.take(h0.len() + 1int);
        assert(sf_reg != sf);
        assert(sf_h.drop_last() == h0);
        assert(h0 =~= sf_h.subrange(0, h0.len() as int));
        if let Some(sw) = last_words(sf_h) {
            lemma_cache_read_after_write(c0, sf_reg, word_to_i16(sw[0]) as i16, sf);
            assert(h1.drop_last() == sf_h);
            assert(h0 =~= h1.subrange(0, h0.len() as int));
            assert forall|i: int|
                #![trigger h1[i]]
                h0.len() <= i < h1.len() implies !(h1[i].addr <= base + sf.spec_offset() < h1[i].addr
                + h1[i].count) by {
                if i == h0.len() {
                    assert(h1[i] == sf_h[i]);
                    assert(sf_h[i] == sf_h.last());
                } else {
                    assert(h1[i] == h1.last());
                }
            }
        } else {
            assert forall|i: int|
                #![trigger h1[i]]
                h0.len() <= i < h1.len() implies !(h1[i].addr <= base + sf.spec_offset() < h1[i].addr
                + h1[i].count) by {
                assert(h1[i] == h1.last());
            }
        }
    } else {
        assert(h0 =~= h1.subrange(0, h0.len() as int));
        assert forall|i: int|
            #![trigger h1[i]]
            h0.len() <= i < h1.len() implies !(h1[i].addr <= base + sf.spec_offset() < h1[i].addr
            + h1[i].count) by {
            assert(h1[i] == h1.last());
        }
    }
}

/// What reading the scale factor `sf_reg` of the block at `base` does, with the cache
/// `before_c`: a cached factor is returned with no request; otherwise one request for its
/// one word, whose value is returned and cached on success, and whose error is returned
/// (with nothing cached) on failure.
pub open spec fn reads_sf(
    before_h: Seq<ReadRecord>,
    after_h: Seq<ReadRecord>,
    before_c: ScaleFactorCache,
    after_c: ScaleFactorCache,
    base: int,
    sf_reg: DerAcReg,
    r: Result<i16, ReadError>,
) -> bool {
    match before_c.cached(sf_reg) {
        Some(k) => r == Ok::<i16, ReadError>(k) && after_h == before_h && after_c == before_c,
        None => {
            &&& one_read(before_h, after_h, base + sf_reg.spec_offset(), 1)
            &&& match last_words(after_h) {
                Some(sw) => r == Ok::<i16, ReadError>(word_to_i16(sw[0]) as i16) && after_c
                    == before_c.written(sf_reg, word_to_i16(sw[0]) as i16),
                None => (r matches Err(e) && after_h.last().outcome == Err::<Seq<u16>, ReadError>(e))
                    && after_c == before_c,
            }
        },
    }
}

/// Each scale factor is read from the device at most once per client: once a read of the
/// scale factor `sf` has returned `s`, the factor stays cached as `s`, and a later read of
/// it (after anything that kept it cached, see [`lemma_cached_scale_factor_kept`]) returns
/// `s` again without sending any request, whatever the device holds by then.
pub proof fn lemma_read_sf_once(
    h0: Seq<ReadRecord>,
    h1: Seq<ReadRecord>,
    h2: Seq<ReadRecord>,
    h3: Seq<ReadRecord>,
    c0: ScaleFactorCache,
    c1: ScaleFactorCache,
    c2: ScaleFactorCache,
    c3: ScaleFactorCache,
    base: int,
    sf: DerAcReg,
    s: i16,
    r: Result<i16, ReadError>,
)
    requires
        sf.is_scale_factor(),
        reads_sf(h0, h1, c0, c1, base, sf, Ok(s)),
        c2.cached(sf) == c1.cached(sf),
        reads_sf(h2, h3, c2, c3, base, sf, r),
    ensures
        c1.cached(sf) == Some(s),
        r == Ok::<i16, ReadError>(s),
        h3 == h2,
        c3 == c2,
{
    if c0.cached(sf) is None {
        let sw = last_words(h1).unwrap();
        lemma_cache_read_after_write(c0, sf, word_to_i16(sw[0]) as i16, sf);
    }
}

impl DerAcClient {
    /// Address of the slot's first register.
    pub closed spec fn spec_base(self) -> u16 {
        self.base.spec_value()
    }

    /// The connection the client reads over.
    pub closed spec fn connection(self) -> Connection {
        self.client
    }

    /// Every read this client has made, oldest first.
    pub open spec fn history(self) -> Seq<ReadRecord> {
        self.connection().history()
    }

    /// What the client's connection was opened with.
    pub open spec fn opened_with(self) -> Option<ConnectParams> {
        self.connection().opened_with()
    }

    /// The scale factors this client has read so far.
    pub closed spec fn spec_cache(self) -> ScaleFactorCache {
        self.cache
    }

    /// Address of the slot's first register.
    pub fn base_address(&self) -> (r: u16)
        ensures
            r == self.spec_base(),
            is_slot_base(r as int),
    {
        self.base.value()
    }

    /// Create a [`DerAcClient`] with a new connection.  Connects to the meter in `slot` of the
    /// inverter at `address` on `port` and with ID `device_id`.
    pub fn new(address: &str, port: u16, device_id: u8, slot: SlotNumber) -> (r: Result<Self, ClientError>)
        ensures
            r matches Ok(c) ==> c.opened_with() == Some(
                ConnectParams { address: address@, port, modbus_uid: device_id, read_timeout_secs: READ_TIMEOUT_SECS },
            ),
            r matches Ok(c) ==> c.spec_base() == slot.spec_base() && c.history() == Seq::<
                ReadRecord,
            >::empty() && forall|reg: DerAcReg| #[trigger] c.spec_cache().cached(reg) is None,
            r matches Err(e) ==> e is Io,
    {
        match Connection::open(address, port, device_id, READ_TIMEOUT_SECS) {
            Ok(client) => Ok(Self::from_transport(client, slot.base())),
            Err(e) => Err(ClientError::Io(e)),
        }
    }

    /// A client for the block whose slot starts at `base`, on an open connection, with no
    /// scale factor read yet.
    pub(crate) fn from_transport(client: Connection, base: u16) -> (r: Self)
        requires
            is_slot_base(base as int),
        ensures
            r.spec_base() == base,
            r.connection() == client,
            forall|reg: DerAcReg| #[trigger] r.spec_cache().cached(reg) is None,
    {
        DerAcClient { client, base: SlotBase::new(base), cache: ScaleFactorCache::new() }
    }

    /// Reads `count` raw registers from `offset` past the slot's base address.
    pub fn dump_raw(&mut self, offset: u16, count: u16) -> (r: Result<Vec<u16>, ClientError>)
        requires
            old(self).spec_base() + offset <= u16::MAX,
        ensures
            final(self).spec_base() == old(self).spec_base(),
            final(self).spec_cache() == old(self).spec_cache(),
            one_read(
                old(self).history(),
                final(self).history(),
                old(self).spec_base() + offset,
                count as int,
            ),
            match last_words(final(self).history()) {
                Some(w) => (r matches Ok(regs) && regs@ == w),
                None => fails_with_last_error(final(self).history(), r),
            },
    {
        let base = self.base.value();
        match self.client.read_holding_registers(base + offset, count) {
            Ok(regs) => Ok(regs),
            Err(e) => Err(ClientError::Modbus(e.error)),
        }
    }

    // --- Status ---

    pub fn state(&mut self) -> (r: Result<u16, ClientError>)
        ensures
            final(self).spec_base() == old(self).spec_base(),
            final(self).spec_cache() == old(self).spec_cache(),
            reads_u16(
                old(self).history(),
                final(self).history(),
                old(self).spec_base() + DerAcReg::St.spec_offset(),
                DerAcReg::St.spec_size(),
                r,
            ),
    {
        match self.read(DerAcReg::St) {
            Ok(regs) => Ok(regs_u16(&regs)),
            Err(e) => Err(ClientError::Modbus(e.error)),
        }
    }

    pub fn inverter_state(&mut self) -> (r: Result<Option<u16>, ClientError>)
        ensures
            final(self).spec_base() == old(self).spec_base(),
            final(self).spec_cache() == old(self).spec_cache(),
            reads_optional_u16(
                old(self).history(),
                final(self).history(),
                old(self).spec_base() + DerAcReg::InvSt.spec_offset(),
                DerAcReg::InvSt.spec_size(),
                r,
            ),
    {
        match self.read(DerAcReg::InvSt) {
            Ok(regs) => Ok(optional_u16(regs_u16(&regs))),
            Err(e) => Err(ClientError::Modbus(e.error)),
        }
    }

    pub fn connection_status(&mut self) -> (r: Result<u16, ClientError>)
        ensures
            final(self).spec_base() == old(self).spec_base(),
            final(self).spec_cache() == old(self).spec_cache(),
            reads_u16(
                old(self).history(),
                final(self).history(),
                old(self).spec_base() + DerAcReg::ConnSt.spec_offset(),
                DerAcReg::ConnSt.spec_size(),
                r,
            ),
    {
        match self.read(DerAcReg::ConnSt) {
            Ok(regs) => Ok(regs_u16(&regs)),
            Err(e) => Err(ClientError::Modbus(e.error)),
        }
    }

    pub fn alarms(&mut self) -> (r: Result<u32, ClientError>)
        ensures
            final(self).spec_base() == old(self).spec_base(),
            final(self).spec_cache() == old(self).spec_cache(),
            reads_u32(
                old(self).history(),
                final(self).history(),
                old(self).spec_base() + DerAcReg::Alrm.spec_offset(),
                DerAcReg::Alrm.spec_size(),
                r,
            ),
    {
        match self.read(DerAcReg::Alrm) {
            Ok(regs) => Ok(regs_u32(&regs)),
            Err(e) => Err(ClientError::Modbus(e.error)),
        }
    }

    pub fn der_mode(&mut self) -> (r: Result<Option<u32>, ClientError>)
        ensures
            final(self).spec_base() == old(self).spec_base(),
            final(self).spec_cache() == old(self).spec_cache(),
            reads_optional_u32(
                old(self).history(),
                final(self).history(),
                old(self).spec_base() + DerAcReg::DERMode.spec_offset(),
                DerAcReg::DERMode.spec_size(),
                r,
            ),
    {
        match self.read(DerAcReg::DERMode) {
            Ok(regs) => Ok(optional_u32(regs_u32(&regs))),
            Err(e) => Err(ClientError::Modbus(e.error)),
        }
    }

    pub fn throttle_pct(&mut self) -> (r: Result<Option<u16>, ClientError>)
        ensures
            final(self).spec_base() == old(self).spec_base(),
            final(self).spec_cache() == old(self).spec_cache(),
            reads_optional_u16(
                old(self).history(),
                final(self).history(),
                old(self).spec_base() + DerAcReg::ThrotPct.spec_offset(),
                DerAcReg::ThrotPct.spec_size(),
                r,
            ),
    {
        match self.read(DerAcReg::ThrotPct) {
            Ok(regs) => Ok(optional_u16(regs_u16(&regs))),
            Err(e) => Err(ClientError::Modbus(e.error)),
        }
    }

    pub fn throttle_source(&mut self) -> (r: Result<Option<u32>, ClientError>)
        ensures
            final(self).spec_base() == old(self).spec_base(),
            final(self).spec_cache() == old(self).spec_cache(),
            reads_optional_u32(
                old(self).history(),
                final(self).history(),
                old(self).spec_base() + DerAcReg::ThrotSrc.spec_offset(),
                DerAcReg::ThrotSrc.spec_size(),
                r,
            ),
    {
        match self.read(DerAcReg::ThrotSrc) {
            Ok(regs) => Ok(optional_u32(regs_u32(&regs))),
            Err(e) => Err(ClientError::Modbus(e.error)),
        }
    }

    pub fn alarm_info(&mut self) -> (r: Result<String, ClientError>)
        ensures
            final(self).spec_base() == old(self).spec_base(),
            final(self).spec_cache() == old(self).spec_cache(),
            reads_string(
                old(self).history(),
                final(self).history(),
                old(self).spec_base() + DerAcReg::MnAlrmInfo.spec_offset(),
                DerAcReg::MnAlrmInfo.spec_size(),
                r,
            ),
    {
        match self.read(DerAcReg::MnAlrmInfo) {
            Ok(regs) => Ok(regs_string(&regs)),
            Err(e) => Err(ClientError::Modbus(e.error)),
        }
    }

    pub fn ac_power(&mut self) -> (r: Result<Option<ScaledValue>, ClientError>)
        ensures
            final(self).spec_base() == old(self).spec_base(),
            der_reads_scaled(
                old(self).history(),
                final(self).history(),
                old(self).spec_cache(),
                final(self).spec_cache(),
                old(self).spec_base() as int,
                DerAcReg::W,
                DerAcReg::W_SF,
                ReadingKind::I16,
                r,
            ),
    {
        match self.read_register_with_scale(DerAcReg::W, DerAcReg::W_SF) {
            Ok((v, sf)) => Ok(optional_scaled_i16(regs_i16(&v), sf)),
            Err(e) => Err(ClientError::Modbus(e.error)),
        }
    }

    pub fn ac_va(&mut self) -> (r: Result<Option<ScaledValue>, ClientError>)
        ensures
            final(self).spec_base() == old(self).spec_base(),
            der_reads_scaled(
                old(self).history(),
                final(self).history(),
                old(self).spec_cache(),
                final(self).spec_cache(),
                old(self).spec_base() as int,
                DerAcReg::VA,
                DerAcReg::VA_SF,
                ReadingKind::I16,
                r,
            ),
    {
        match self.read_register_with_scale(DerAcReg::VA, DerAcReg::VA_SF) {
            Ok((v, sf)) => Ok(optional_scaled_i16(regs_i16(&v), sf)),
            Err(e) => Err(ClientError::Modbus(e.error)),
        }
    }

    pub fn ac_var(&mut self) -> (r: Result<Option<ScaledValue>, ClientError>)
        ensures
            final(self).spec_base() == old(self).spec_base(),
            der_reads_scaled(
                old(self).history(),
                final(self).history(),
                old(self).spec_cache(),
                final(self).spec_cache(),
                old(self).spec_base() as int,
                DerAcReg::Var,
                DerAcReg::Var_SF,
                ReadingKind::I16,
                r,
            ),
    {
        match self.read_register_with_scale(DerAcReg::Var, DerAcReg::Var_SF) {
            Ok((v, sf)) => Ok(optional_scaled_i16(regs_i16(&v), sf)),
            Err(e) => Err(ClientError::Modbus(e.error)),
        }
    }

    pub fn ac_power_factor(&mut self) -> (r: Result<Option<ScaledValue>, ClientError>)
        ensures
            final(self).spec_base() == old(self).spec_base(),
            der_reads_scaled(
                old(self).history(),
                final(self).history(),
                old(self).spec_cache(),
                final(self).spec_cache(),
                old(self).spec_base() as int,
                DerAcReg::PF,
                DerAcReg::PF_SF,
                ReadingKind::I16,
                r,
            ),
    {
        match self.read_register_with_scale(DerAcReg::PF, DerAcReg::PF_SF) {
            Ok((v, sf)) => Ok(optional_scaled_i16(regs_i16(&v), sf)),
            Err(e) => Err(ClientError::Modbus(e.error)),
        }
    }

    pub fn ac_current(&mut self) -> (r: Result<Option<ScaledValue>, ClientError>)
        ensures
            final(self).spec_base() == old(self).spec_base(),
            der_reads_scaled(
                old(self).history(),
                final(self).history(),
                old(self).spec_cache(),
                final(self).spec_cache(),
                old(self).spec_base() as int,
                DerAcReg::A,
                DerAcReg::A_SF,
                ReadingKind::I16,
                r,
            ),
    {
        match self.read_register_with_scale(DerAcReg::A, DerAcReg::A_SF) {
            Ok((v, sf)) => Ok(optional_scaled_i16(regs_i16(&v), sf)),
            Err(e) => Err(ClientError::Modbus(e.error)),
        }
    }

    pub fn ac_voltage_ll(&mut self) -> (r: Result<Option<ScaledValue>, ClientError>)
        ensures
            final(self).spec_base() == old(self).spec_base(),
            der_reads_scaled(
                old(self).history(),
                final(self).history(),
                old(self).spec_cache(),
                final(self).spec_cache(),
                old(self).spec_base() as int,
                DerAcReg::Llv,
                DerAcReg::V_SF,
                ReadingKind::U16,
                r,
            ),
    {
        match self.read_register_with_scale(DerAcReg::Llv, DerAcReg::V_SF) {
            Ok((v, sf)) => Ok(optional_scaled_u16(regs_u16(&v), sf)),
            Err(e) => Err(ClientError::Modbus(e.error)),
        }
    }

    pub fn ac_voltage_ln(&mut self) -> (r: Result<Option<ScaledValue>, ClientError>)
        ensures
            final(self).spec_base() == old(self).spec_base(),
            der_reads_scaled(
                old(self).history(),
                final(self).history(),
                old(self).spec_cache(),
                final(self).spec_cache(),
                old(self).spec_base() as int,
                DerAcReg::Lnv,
                DerAcReg::V_SF,
                ReadingKind::U16,
                r,
            ),
    {
        match self.read_register_with_scale(DerAcReg::Lnv, DerAcReg::V_SF) {
            Ok((v, sf)) => Ok(optional_scaled_u16(regs_u16(&v), sf)),
            Err(e) => Err(ClientError::Modbus(e.error)),
        }
    }

    pub fn ac_frequency(&mut self) -> (r: Result<Option<ScaledValue>, ClientError>)
        ensures
            final(self).spec_base() == old(self).spec_base(),
            der_reads_scaled(
                old(self).history(),
                final(self).history(),
                old(self).spec_cache(),
                final(self).spec_cache(),
                old(self).spec_base() as int,
                DerAcReg::Hz,
                DerAcReg::Hz_SF,
                ReadingKind::U32,
                r,
            ),
    {
        match self.read_register_with_scale(DerAcReg::Hz, DerAcReg::Hz_SF) {
            Ok((v, sf)) => Ok(optional_scaled_u32(regs_u32(&v), sf)),
            Err(e) => Err(ClientError::Modbus(e.error)),
        }
    }

    pub fn total_wh_injected(&mut self) -> (r: Result<Option<ScaledValue>, ClientError>)
        ensures
            final(self).spec_base() == old(self).spec_base(),
            der_reads_scaled(
                old(self).history(),
                final(self).history(),
                old(self).spec_cache(),
                final(self).spec_cache(),
                old(self).spec_base() as int,
                DerAcReg::TotWhInj,
                DerAcReg::TotWh_SF,
                ReadingKind::U64,
                r,
            ),
    {
        match self.read_register_with_scale(DerAcReg::TotWhInj, DerAcReg::TotWh_SF) {
            Ok((v, sf)) => Ok(optional_scaled_u64(regs_u64(&v), sf)),
            Err(e) => Err(ClientError::Modbus(e.error)),
        }
    }

    pub fn total_wh_absorbed(&mut self) -> (r: Result<Option<ScaledValue>, ClientError>)
        ensures
            final(self).spec_base() == old(self).spec_base(),
            der_reads_scaled(
                old(self).history(),
                final(self).history(),
                old(self).spec_cache(),
                final(self).spec_cache(),
                old(self).spec_base() as int,
                DerAcReg::TotWhAbs,
                DerAcReg::TotWh_SF,
                ReadingKind::U64,
                r,
            ),
    {
        match self.read_register_with_scale(DerAcReg::TotWhAbs, DerAcReg::TotWh_SF) {
            Ok((v, sf)) => Ok(optional_scaled_u64(regs_u64(&v), sf)),
            Err(e) => Err(ClientError::Modbus(e.error)),
        }
    }

    pub fn total_varh_injected(&mut self) -> (r: Result<Option<ScaledValue>, ClientError>)
        ensures
            final(self).spec_base() == old(self).spec_base(),
            der_reads_scaled(
                old(self).history(),
                final(self).history(),
                old(self).spec_cache(),
                final(self).spec_cache(),
                old(self).spec_base() as int,
                DerAcReg::TotVarhInj,
                DerAcReg::TotVarh_SF,
                ReadingKind::U64,
                r,
            ),
    {
        match self.read_register_with_scale(DerAcReg::TotVarhInj, DerAcReg::TotVarh_SF) {
            Ok((v, sf)) => Ok(optional_scaled_u64(regs_u64(&v), sf)),
            Err(e) => Err(ClientError::Modbus(e.error)),
        }
    }

    pub fn total_varh_absorbed(&mut self) -> (r: Result<Option<ScaledValue>, ClientError>)
        ensures
            final(self).spec_base() == old(self).spec_base(),
            der_reads_scaled(
                old(self).history(),
                final(self).history(),
                old(self).spec_cache(),
                final(self).spec_cache(),
                old(self).spec_base() as int,
                DerAcReg::TotVarhAbs,
                DerAcReg::TotVarh_SF,
                ReadingKind::U64,
                r,
            ),
    {
        match self.read_register_with_scale(DerAcReg::TotVarhAbs, DerAcReg::TotVarh_SF) {
            Ok((v, sf)) => Ok(optional_scaled_u64(regs_u64(&v), sf)),
            Err(e) => Err(ClientError::Modbus(e.error)),
        }
    }

    pub fn temp_ambient(&mut self) -> (r: Result<Option<ScaledValue>, ClientError>)
        ensures
            final(self).spec_base() == old(self).spec_base(),
            der_reads_scaled(
                old(self).history(),
                final(self).history(),
                old(self).spec_cache(),
                final(self).spec_cache(),
                old(self).spec_base() as int,
                DerAcReg::TmpAmb,
                DerAcReg::Tmp_SF,
                ReadingKind::I16,
                r,
            ),
    {
        match self.read_register_with_scale(DerAcReg::TmpAmb, DerAcReg::Tmp_SF) {
            Ok((v, sf)) => Ok(optional_scaled_i16(regs_i16(&v), sf)),
            Err(e) => Err(ClientError::Modbus(e.error)),
        }
    }

    pub fn temp_cabinet(&mut self) -> (r: Result<Option<ScaledValue>, ClientError>)
        ensures
            final(self).spec_base() == old(self).spec_base(),
            der_reads_scaled(
                old(self).history(),
                final(self).history(),
                old(self).spec_cache(),
                final(self).spec_cache(),
                old(self).spec_base() as int,
                DerAcReg::TmpCab,
                DerAcReg::Tmp_SF,
                ReadingKind::I16,
                r,
            ),
    {
        match self.read_register_with_scale(DerAcReg::TmpCab, DerAcReg::Tmp_SF) {
            Ok((v, sf)) => Ok(optional_scaled_i16(regs_i16(&v), sf)),
            Err(e) => Err(ClientError::Modbus(e.error)),
        }
    }

    pub fn temp_heatsink(&mut self) -> (r: Result<Option<ScaledValue>, ClientError>)
        ensures
            final(self).spec_base() == old(self).spec_base(),
            der_reads_scaled(
                old(self).history(),
                final(self).history(),
                old(self).spec_cache(),
                final(self).spec_cache(),
                old(self).spec_base() as int,
                DerAcReg::TmpSnk,
                DerAcReg::Tmp_SF,
                ReadingKind::I16,
                r,
            ),
    {
        match self.read_register_with_scale(DerAcReg::TmpSnk, DerAcReg::Tmp_SF) {
            Ok((v, sf)) => Ok(optional_scaled_i16(regs_i16(&v), sf)),
            Err(e) => Err(ClientError::Modbus(e.error)),
        }
    }

    pub fn temp_transformer(&mut self) -> (r: Result<Option<ScaledValue>, ClientError>)
        ensures
            final(self).spec_base() == old(self).spec_base(),
            der_reads_scaled(
                old(self).history(),
                final(self).history(),
                old(self).spec_cache(),
                final(self).spec_cache(),
                old(self).spec_base() as int,
                DerAcReg::TmpTrns,
                DerAcReg::Tmp_SF,
                ReadingKind::I16,
                r,
            ),
    {
        match self.read_register_with_scale(DerAcReg::TmpTrns, DerAcReg::Tmp_SF) {
            Ok((v, sf)) => Ok(optional_scaled_i16(regs_i16(&v), sf)),
            Err(e) => Err(ClientError::Modbus(e.error)),
        }
    }

    pub fn temp_switch(&mut self) -> (r: Result<Option<ScaledValue>, ClientError>)
        ensures
            final(self).spec_base() == old(self).spec_base(),
            der_reads_scaled(
                old(self).history(),
                final(self).history(),
                old(self).spec_cache(),
                final(self).spec_cache(),
                old(self).spec_base() as int,
                DerAcReg::TmpSw,
                DerAcReg::Tmp_SF,
                ReadingKind::I16,
                r,
            ),
    {
        match self.read_register_with_scale(DerAcReg::TmpSw, DerAcReg::Tmp_SF) {
            Ok((v, sf)) => Ok(optional_scaled_i16(regs_i16(&v), sf)),
            Err(e) => Err(ClientError::Modbus(e.error)),
        }
    }

    pub fn temp_other(&mut self) -> (r: Result<Option<ScaledValue>, ClientError>)
        ensures
            final(self).spec_base() == old(self).spec_base(),
            der_reads_scaled(
                old(self).history(),
                final(self).history(),
                old(self).spec_cache(),
                final(self).spec_cache(),
                old(self).spec_base() as int,
                DerAcReg::TmpOt,
                DerAcReg::Tmp_SF,
                ReadingKind::I16,
                r,
            ),
    {
        match self.read_register_with_scale(DerAcReg::TmpOt, DerAcReg::Tmp_SF) {
            Ok((v, sf)) => Ok(optional_scaled_i16(regs_i16(&v), sf)),
            Err(e) => Err(ClientError::Modbus(e.error)),
        }
    }

    pub fn ac_power_l1(&mut self) -> (r: Result<Option<ScaledValue>, ClientError>)
        ensures
            final(self).spec_base() == old(self).spec_base(),
            der_reads_scaled(
                old(self).history(),
                final(self).history(),
                old(self).spec_cache(),
                final(self).spec_cache(),
                old(self).spec_base() as int,
                DerAcReg::WL1,
                DerAcReg::W_SF,
                ReadingKind::I16,
                r,
            ),
    {
        match self.read_register_with_scale(DerAcReg::WL1, DerAcReg::W_SF) {
            Ok((v, sf)) => Ok(optional_scaled_i16(regs_i16(&v), sf)),
            Err(e) => Err(ClientError::Modbus(e.error)),
        }
    }

    pub fn ac_va_l1(&mut self) -> (r: Result<Option<ScaledValue>, ClientError>)
        ensures
            final(self).spec_base() == old(self).spec_base(),
            der_reads_scaled(
                old(self).history(),
                final(self).history(),
                old(self).spec_cache(),
                final(self).spec_cache(),
                old(self).spec_base() as int,
                DerAcReg::VAL1,
                DerAcReg::VA_SF,
                ReadingKind::I16,
                r,
            ),
    {
        match self.read_register_with_scale(DerAcReg::VAL1, DerAcReg::VA_SF) {
            Ok((v, sf)) => Ok(optional_scaled_i16(regs_i16(&v), sf)),
            Err(e) => Err(ClientError::Modbus(e.error)),
        }
    }

    pub fn ac_var_l1(&mut self) -> (r: Result<Option<ScaledValue>, ClientError>)
        ensures
            final(self).spec_base() == old(self).spec_base(),
            der_reads_scaled(
                old(self).history(),
                final(self).history(),
                old(self).spec_cache(),
                final(self).spec_cache(),
                old(self).spec_base() as int,
                DerAcReg::VarL1,
                DerAcReg::Var_SF,
                ReadingKind::I16,
                r,
            ),
    {
        match self.read_register_with_scale(DerAcReg::VarL1, DerAcReg::Var_SF) {
            Ok((v, sf)) => Ok(optional_scaled_i16(regs_i16(&v), sf)),
            Err(e) => Err(ClientError::Modbus(e.error)),
        }
    }

    pub fn ac_power_factor_l1(&mut self) -> (r: Result<Option<ScaledValue>, ClientError>)
        ensures
            final(self).spec_base() == old(self).spec_base(),
            der_reads_scaled(
                old(self).history(),
                final(self).history(),
                old(self).spec_cache(),
                final(self).spec_cache(),
                old(self).spec_base() as int,
                DerAcReg::PFL1,
                DerAcReg::PF_SF,
                ReadingKind::U16,
                r,
            ),
    {
        match self.read_register_with_scale(DerAcReg::PFL1, DerAcReg::PF_SF) {
            Ok((v, sf)) => Ok(optional_scaled_u16(regs_u16(&v), sf)),
            Err(e) => Err(ClientError::Modbus(e.error)),
        }
    }

    pub fn ac_current_l1(&mut self) -> (r: Result<Option<ScaledValue>, ClientError>)
        ensures
            final(self).spec_base() == old(self).spec_base(),
            der_reads_scaled(
                old(self).history(),
                final(self).history(),
                old(self).spec_cache(),
                final(self).spec_cache(),
                old(self).spec_base() as int,
                DerAcReg::AL1,
                DerAcReg::A_SF,
                ReadingKind::U16,
                r,
            ),
    {
        match self.read_register_with_scale(DerAcReg::AL1, DerAcReg::A_SF) {
            Ok((v, sf)) => Ok(optional_scaled_u16(regs_u16(&v), sf)),
            Err(e) => Err(ClientError::Modbus(e.error)),
        }
    }

    pub fn ac_voltage_l1_l2(&mut self) -> (r: Result<Option<ScaledValue>, ClientError>)
        ensures
            final(self).spec_base() == old(self).spec_base(),
            der_reads_scaled(
                old(self).history(),
                final(self).history(),
                old(self).spec_cache(),
                final(self).spec_cache(),
                old(self).spec_base() as int,
                DerAcReg::VL1L2,
                DerAcReg::V_SF,
                ReadingKind::U16,
                r,
            ),
    {
        match self.read_register_with_scale(DerAcReg::VL1L2, DerAcReg::V_SF) {
            Ok((v, sf)) => Ok(optional_scaled_u16(regs_u16(&v), sf)),
            Err(e) => Err(ClientError::Modbus(e.error)),
        }
    }

    pub fn ac_voltage_l1(&mut self) -> (r: Result<Option<ScaledValue>, ClientError>)
        ensures
            final(self).spec_base() == old(self).spec_base(),
            der_reads_scaled(
                old(self).history(),
                final(self).history(),
                old(self).spec_cache(),
                final(self).spec_cache(),
                old(self).spec_base() as int,
                DerAcReg::VL1N,
                DerAcReg::V_SF,
                ReadingKind::U16,
                r,
            ),
    {
        match self.read_register_with_scale(DerAcReg::VL1N, DerAcReg::V_SF) {
            Ok((v, sf)) => Ok(optional_scaled_u16(regs_u16(&v), sf)),
            Err(e) => Err(ClientError::Modbus(e.error)),
        }
    }

    pub fn total_wh_injected_l1(&mut self) -> (r: Result<Option<ScaledValue>, ClientError>)
        ensures
            final(self).spec_base() == old(self).spec_base(),
            der_reads_scaled(
                old(self).history(),
                final(self).history(),
                old(self).spec_cache(),
                final(self).spec_cache(),
                old(self).spec_base() as int,
                DerAcReg::TotWhInjL1,
                DerAcReg::TotWh_SF,
                ReadingKind::U64,
                r,
            ),
    {
        match self.read_register_with_scale(DerAcReg::TotWhInjL1, DerAcReg::TotWh_SF) {
            Ok((v, sf)) => Ok(optional_scaled_u64(regs_u64(&v), sf)),
            Err(e) => Err(ClientError::Modbus(e.error)),
        }
    }

    pub fn total_wh_absorbed_l1(&mut self) -> (r: Result<Option<ScaledValue>, ClientError>)
        ensures
            final(self).spec_base() == old(self).spec_base(),
            der_reads_scaled(
                old(self).history(),
                final(self).history(),
                old(self).spec_cache(),
                final(self).spec_cache(),
                old(self).spec_base() as int,
                DerAcReg::TotWhAbsL1,
                DerAcReg::TotWh_SF,
                ReadingKind::U64,
                r,
            ),
    {
        match self.read_register_with_scale(DerAcReg::TotWhAbsL1, DerAcReg::TotWh_SF) {
            Ok((v, sf)) => Ok(optional_scaled_u64(regs_u64(&v), sf)),
            Err(e) => Err(ClientError::Modbus(e.error)),
        }
    }

    pub fn total_varh_injected_l1(&mut self) -> (r: Result<Option<ScaledValue>, ClientError>)
        ensures
            final(self).spec_base() == old(self).spec_base(),
            der_reads_scaled(
                old(self).history(),
                final(self).history(),
                old(self).spec_cache(),
                final(self).spec_cache(),
                old(self).spec_base() as int,
                DerAcReg::TotVarhInjL1,
                DerAcReg::TotVarh_SF,
                ReadingKind::U64,
                r,
            ),
    {
        match self.read_register_with_scale(DerAcReg::TotVarhInjL1, DerAcReg::TotVarh_SF) {
            Ok((v, sf)) => Ok(optional_scaled_u64(regs_u64(&v), sf)),
            Err(e) => Err(ClientError::Modbus(e.error)),
        }
    }

    pub fn total_varh_absorbed_l1(&mut self) -> (r: Result<Option<ScaledValue>, ClientError>)
        ensures
            final(self).spec_base() == old(self).spec_base(),
            der_reads_scaled(
                old(self).history(),
                final(self).history(),
                old(self).spec_cache(),
                final(self).spec_cache(),
                old(self).spec_base() as int,
                DerAcReg::TotVarhAbsL1,
                DerAcReg::TotVarh_SF,
                ReadingKind::U64,
                r,
            ),
    {
        match self.read_register_with_scale(DerAcReg::TotVarhAbsL1, DerAcReg::TotVarh_SF) {
            Ok((v, sf)) => Ok(optional_scaled_u64(regs_u64(&v), sf)),
            Err(e) => Err(ClientError::Modbus(e.error)),
        }
    }

    pub fn ac_power_l2(&mut self) -> (r: Result<Option<ScaledValue>, ClientError>)
        ensures
            final(self).spec_base() == old(self).spec_base(),
            der_reads_scaled(
                old(self).history(),
                final(self).history(),
                old(self).spec_cache(),
                final(self).spec_cache(),
                old(self).spec_base() as int,
                DerAcReg::WL2,
                DerAcReg::W_SF,
                ReadingKind::I16,
                r,
            ),
    {
        match self.read_register_with_scale(DerAcReg::WL2, DerAcReg::W_SF) {
            Ok((v, sf)) => Ok(optional_scaled_i16(regs_i16(&v), sf)),
            Err(e) => Err(ClientError::Modbus(e.error)),
        }
    }

    pub fn ac_va_l2(&mut self) -> (r: Result<Option<ScaledValue>, ClientError>)
        ensures
            final(self).spec_base() == old(self).spec_base(),
            der_reads_scaled(
                old(self).history(),
                final(self).history(),
                old(self).spec_cache(),
                final(self).spec_cache(),
                old(self).spec_base() as int,
                DerAcReg::VAL2,
                DerAcReg::VA_SF,
                ReadingKind::I16,
                r,
            ),
    {
        match self.read_register_with_scale(DerAcReg::VAL2, DerAcReg::VA_SF) {
            Ok((v, sf)) => Ok(optional_scaled_i16(regs_i16(&v), sf)),
            Err(e) => Err(ClientError::Modbus(e.error)),
        }
    }

    pub fn ac_var_l2(&mut self) -> (r: Result<Option<ScaledValue>, ClientError>)
        ensures
            final(self).spec_base() == old(self).spec_base(),
            der_reads_scaled(
                old(self).history(),
                final(self).history(),
                old(self).spec_cache(),
                final(self).spec_cache(),
                old(self).spec_base() as int,
                DerAcReg::VarL2,
                DerAcReg::Var_SF,
                ReadingKind::I16,
                r,
            ),
    {
        match self.read_register_with_scale(DerAcReg::VarL2, DerAcReg::Var_SF) {
            Ok((v, sf)) => Ok(optional_scaled_i16(regs_i16(&v), sf)),
            Err(e) => Err(ClientError::Modbus(e.error)),
        }
    }

    pub fn ac_power_factor_l2(&mut self) -> (r: Result<Option<ScaledValue>, ClientError>)
        ensures
            final(self).spec_base() == old(self).spec_base(),
            der_reads_scaled(
                old(self).history(),
                final(self).history(),
                old(self).spec_cache(),
                final(self).spec_cache(),
                old(self).spec_base() as int,
                DerAcReg::PFL2,
                DerAcReg::PF_SF,
                ReadingKind::U16,
                r,
            ),
    {
        match self.read_register_with_scale(DerAcReg::PFL2, DerAcReg::PF_SF) {
            Ok((v, sf)) => Ok(optional_scaled_u16(regs_u16(&v), sf)),
            Err(e) => Err(ClientError::Modbus(e.error)),
        }
    }

    pub fn ac_current_l2(&mut self) -> (r: Result<Option<ScaledValue>, ClientError>)
        ensures
            final(self).spec_base() == old(self).spec_base(),
            der_reads_scaled(
                old(self).history(),
                final(self).history(),
                old(self).spec_cache(),
                final(self).spec_cache(),
                old(self).spec_base() as int,
                DerAcReg::AL2,
                DerAcReg::A_SF,
                ReadingKind::U16,
                r,
            ),
    {
        match self.read_register_with_scale(DerAcReg::AL2, DerAcReg::A_SF) {
            Ok((v, sf)) => Ok(optional_scaled_u16(regs_u16(&v), sf)),
            Err(e) => Err(ClientError::Modbus(e.error)),
        }
    }

    pub fn ac_voltage_l2_l3(&mut self) -> (r: Result<Option<ScaledValue>, ClientError>)
        ensures
            final(self).spec_base() == old(self).spec_base(),
            der_reads_scaled(
                old(self).history(),
                final(self).history(),
                old(self).spec_cache(),
                final(self).spec_cache(),
                old(self).spec_base() as int,
                DerAcReg::VL2L3,
                DerAcReg::V_SF,
                ReadingKind::U16,
                r,
            ),
    {
        match self.read_register_with_scale(DerAcReg::VL2L3, DerAcReg::V_SF) {
            Ok((v, sf)) => Ok(optional_scaled_u16(regs_u16(&v), sf)),
            Err(e) => Err(ClientError::Modbus(e.error)),
        }
    }

    pub fn ac_voltage_l2(&mut self) -> (r: Result<Option<ScaledValue>, ClientError>)
        ensures
            final(self).spec_base() == old(self).spec_base(),
            der_reads_scaled(
                old(self).history(),
                final(self).history(),
                old(self).spec_cache(),
                final(self).spec_cache(),
                old(self).spec_base() as int,
                DerAcReg::VL2N,
                DerAcReg::V_SF,
                ReadingKind::U16,
                r,
            ),
    {
        match self.read_register_with_scale(DerAcReg::VL2N, DerAcReg::V_SF) {
            Ok((v, sf)) => Ok(optional_scaled_u16(regs_u16(&v), sf)),
            Err(e) => Err(ClientError::Modbus(e.error)),
        }
    }

    pub fn total_wh_injected_l2(&mut self) -> (r: Result<Option<ScaledValue>, ClientError>)
        ensures
            final(self).spec_base() == old(self).spec_base(),
            der_reads_scaled(
                old(self).history(),
                final(self).history(),
                old(self).spec_cache(),
                final(self).spec_cache(),
                old(self).spec_base() as int,
                DerAcReg::TotWhInjL2,
                DerAcReg::TotWh_SF,
                ReadingKind::U64,
                r,
            ),
    {
        match self.read_register_with_scale(DerAcReg::TotWhInjL2, DerAcReg::TotWh_SF) {
            Ok((v, sf)) => Ok(optional_scaled_u64(regs_u64(&v), sf)),
            Err(e) => Err(ClientError::Modbus(e.error)),
        }
    }

    pub fn total_wh_absorbed_l2(&mut self) -> (r: Result<Option<ScaledValue>, ClientError>)
        ensures
            final(self).spec_base() == old(self).spec_base(),
            der_reads_scaled(
                old(self).history(),
                final(self).history(),
                old(self).spec_cache(),
                final(self).spec_cache(),
                old(self).spec_base() as int,
                DerAcReg::TotWhAbsL2,
                DerAcReg::TotWh_SF,
                ReadingKind::U64,
                r,
            ),
    {
        match self.read_register_with_scale(DerAcReg::TotWhAbsL2, DerAcReg::TotWh_SF) {
            Ok((v, sf)) => Ok(optional_scaled_u64(regs_u64(&v), sf)),
            Err(e) => Err(ClientError::Modbus(e.error)),
        }
    }

    pub fn total_varh_injected_l2(&mut self) -> (r: Result<Option<ScaledValue>, ClientError>)
        ensures
            final(self).spec_base() == old(self).spec_base(),
            der_reads_scaled(
                old(self).history(),
                final(self).history(),
                old(self).spec_cache(),
                final(self).spec_cache(),
                old(self).spec_base() as int,
                DerAcReg::TotVarhInjL2,
                DerAcReg::TotVarh_SF,
                ReadingKind::U64,
                r,
            ),
    {
        match self.read_register_with_scale(DerAcReg::TotVarhInjL2, DerAcReg::TotVarh_SF) {
            Ok((v, sf)) => Ok(optional_scaled_u64(regs_u64(&v), sf)),
            Err(e) => Err(ClientError::Modbus(e.error)),
        }
    }

    pub fn total_varh_absorbed_l2(&mut self) -> (r: Result<Option<ScaledValue>, ClientError>)
        ensures
            final(self).spec_base() == old(self).spec_base(),
            der_reads_scaled(
                old(self).history(),
                final(self).history(),
                old(self).spec_cache(),
                final(self).spec_cache(),
                old(self).spec_base() as int,
                DerAcReg::TotVarhAbsL2,
                DerAcReg::TotVarh_SF,
                ReadingKind::U64,
                r,
            ),
    {
        match self.read_register_with_scale(DerAcReg::TotVarhAbsL2, DerAcReg::TotVarh_SF) {
            Ok((v, sf)) => Ok(optional_scaled_u64(regs_u64(&v), sf)),
            Err(e) => Err(ClientError::Modbus(e.error)),
        }
    }

    pub fn ac_power_l3(&mut self) -> (r: Result<Option<ScaledValue>, ClientError>)
        ensures
            final(self).spec_base() == old(self).spec_base(),
            der_reads_scaled(
                old(self).history(),
                final(self).history(),
                old(self).spec_cache(),
                final(self).spec_cache(),
                old(self).spec_base() as int,
                DerAcReg::WL3,
                DerAcReg::W_SF,
                ReadingKind::I16,
                r,
            ),
    {
        match self.read_register_with_scale(DerAcReg::WL3, DerAcReg::W_SF) {
            Ok((v, sf)) => Ok(optional_scaled_i16(regs_i16(&v), sf)),
            Err(e) => Err(ClientError::Modbus(e.error)),
        }
    }

    pub fn ac_va_l3(&mut self) -> (r: Result<Option<ScaledValue>, ClientError>)
        ensures
            final(self).spec_base() == old(self).spec_base(),
            der_reads_scaled(
                old(self).history(),
                final(self).history(),
                old(self).spec_cache(),
                final(self).spec_cache(),
                old(self).spec_base() as int,
                DerAcReg::VAL3,
                DerAcReg::VA_SF,
                ReadingKind::I16,
                r,
            ),
    {
        match self.read_register_with_scale(DerAcReg::VAL3, DerAcReg::VA_SF) {
            Ok((v, sf)) => Ok(optional_scaled_i16(regs_i16(&v), sf)),
            Err(e) => Err(ClientError::Modbus(e.error)),
        }
    }

    pub fn ac_var_l3(&mut self) -> (r: Result<Option<ScaledValue>, ClientError>)
        ensures
            final(self).spec_base() == old(self).spec_base(),
            der_reads_scaled(
                old(self).history(),
                final(self).history(),
                old(self).spec_cache(),
                final(self).spec_cache(),
                old(self).spec_base() as int,
                DerAcReg::VarL3,
                DerAcReg::Var_SF,
                ReadingKind::I16,
                r,
            ),
    {
        match self.read_register_with_scale(DerAcReg::VarL3, DerAcReg::Var_SF) {
            Ok((v, sf)) => Ok(optional_scaled_i16(regs_i16(&v), sf)),
            Err(e) => Err(ClientError::Modbus(e.error)),
        }
    }

    pub fn ac_power_factor_l3(&mut self) -> (r: Result<Option<ScaledValue>, ClientError>)
        ensures
            final(self).spec_base() == old(self).spec_base(),
            der_reads_scaled(
                old(self).history(),
                final(self).history(),
                old(self).spec_cache(),
                final(self).spec_cache(),
                old(self).spec_base() as int,
                DerAcReg::PFL3,
                DerAcReg::PF_SF,
                ReadingKind::U16,
                r,
            ),
    {
        match self.read_register_with_scale(DerAcReg::PFL3, DerAcReg::PF_SF) {
            Ok((v, sf)) => Ok(optional_scaled_u16(regs_u16(&v), sf)),
            Err(e) => Err(ClientError::Modbus(e.error)),
        }
    }

    pub fn ac_current_l3(&mut self) -> (r: Result<Option<ScaledValue>, ClientError>)
        ensures
            final(self).spec_base() == old(self).spec_base(),
            der_reads_scaled(
                old(self).history(),
                final(self).history(),
                old(self).spec_cache(),
                final(self).spec_cache(),
                old(self).spec_base() as int,
                DerAcReg::AL3,
                DerAcReg::A_SF,
                ReadingKind::U16,
                r,
            ),
    {
        match self.read_register_with_scale(DerAcReg::AL3, DerAcReg::A_SF) {
            Ok((v, sf)) => Ok(optional_scaled_u16(regs_u16(&v), sf)),
            Err(e) => Err(ClientError::Modbus(e.error)),
        }
    }

    pub fn ac_voltage_l3_l1(&mut self) -> (r: Result<Option<ScaledValue>, ClientError>)
        ensures
            final(self).spec_base() == old(self).spec_base(),
            der_reads_scaled(
                old(self).history(),
                final(self).history(),
                old(self).spec_cache(),
                final(self).spec_cache(),
                old(self).spec_base() as int,
                DerAcReg::VL3L1,
                DerAcReg::V_SF,
                ReadingKind::U16,
                r,
            ),
    {
        match self.read_register_with_scale(DerAcReg::VL3L1, DerAcReg::V_SF) {
            Ok((v, sf)) => Ok(optional_scaled_u16(regs_u16(&v), sf)),
            Err(e) => Err(ClientError::Modbus(e.error)),
        }
    }

    pub fn ac_voltage_l3(&mut self) -> (r: Result<Option<ScaledValue>, ClientError>)
        ensures
            final(self).spec_base() == old(self).spec_base(),
            der_reads_scaled(
                old(self).history(),
                final(self).history(),
                old(self).spec_cache(),
                final(self).spec_cache(),
                old(self).spec_base() as int,
                DerAcReg::VL3N,
                DerAcReg::V_SF,
                ReadingKind::U16,
                r,
            ),
    {
        match self.read_register_with_scale(DerAcReg::VL3N, DerAcReg::V_SF) {
            Ok((v, sf)) => Ok(optional_scaled_u16(regs_u16(&v), sf)),
            Err(e) => Err(ClientError::Modbus(e.error)),
        }
    }

    pub fn total_wh_injected_l3(&mut self) -> (r: Result<Option<ScaledValue>, ClientError>)
        ensures
            final(self).spec_base() == old(self).spec_base(),
            der_reads_scaled(
                old(self).history(),
                final(self).history(),
                old(self).spec_cache(),
                final(self).spec_cache(),
                old(self).spec_base() as int,
                DerAcReg::TotWhInjL3,
                DerAcReg::TotWh_SF,
                ReadingKind::U64,
                r,
            ),
    {
        match self.read_register_with_scale(DerAcReg::TotWhInjL3, DerAcReg::TotWh_SF) {
            Ok((v, sf)) => Ok(optional_scaled_u64(regs_u64(&v), sf)),
            Err(e) => Err(ClientError::Modbus(e.error)),
        }
    }

    pub fn total_wh_absorbed_l3(&mut self) -> (r: Result<Option<ScaledValue>, ClientError>)
        ensures
            final(self).spec_base() == old(self).spec_base(),
            der_reads_scaled(
                old(self).history(),
                final(self).history(),
                old(self).spec_cache(),
                final(self).spec_cache(),
                old(self).spec_base() as int,
                DerAcReg::TotWhAbsL3,
                DerAcReg::TotWh_SF,
                ReadingKind::U64,
                r,
            ),
    {
        match self.read_register_with_scale(DerAcReg::TotWhAbsL3, DerAcReg::TotWh_SF) {
            Ok((v, sf)) => Ok(optional_scaled_u64(regs_u64(&v), sf)),
            Err(e) => Err(ClientError::Modbus(e.error)),
        }
    }

    pub fn total_varh_injected_l3(&mut self) -> (r: Result<Option<ScaledValue>, ClientError>)
        ensures
            final(self).spec_base() == old(self).spec_base(),
            der_reads_scaled(
                old(self).history(),
                final(self).history(),
                old(self).spec_cache(),
                final(self).spec_cache(),
                old(self).spec_base() as int,
                DerAcReg::TotVarhInjL3,
                DerAcReg::TotVarh_SF,
                ReadingKind::U64,
                r,
            ),
    {
        match self.read_register_with_scale(DerAcReg::TotVarhInjL3, DerAcReg::TotVarh_SF) {
            Ok((v, sf)) => Ok(optional_scaled_u64(regs_u64(&v), sf)),
            Err(e) => Err(ClientError::Modbus(e.error)),
        }
    }

    pub fn total_varh_absorbed_l3(&mut self) -> (r: Result<Option<ScaledValue>, ClientError>)
        ensures
            final(self).spec_base() == old(self).spec_base(),
            der_reads_scaled(
                old(self).history(),
                final(self).history(),
                old(self).spec_cache(),
                final(self).spec_cache(),
                old(self).spec_base() as int,
                DerAcReg::TotVarhAbsL3,
                DerAcReg::TotVarh_SF,
                ReadingKind::U64,
                r,
            ),
    {
        match self.read_register_with_scale(DerAcReg::TotVarhAbsL3, DerAcReg::TotVarh_SF) {
            Ok((v, sf)) => Ok(optional_scaled_u64(regs_u64(&v), sf)),
            Err(e) => Err(ClientError::Modbus(e.error)),
        }
    }

    fn read(&mut self, reg: DerAcReg) -> (r: Result<Vec<u16>, ReadError>)
        ensures
            final(self).spec_base() == old(self).spec_base(),
            final(self).spec_cache() == old(self).spec_cache(),
            one_read(
                old(self).history(),
                final(self).history(),
                old(self).spec_base() + reg.spec_offset(),
                reg.spec_size(),
            ),
            match r {
                Ok(regs) => last_words(final(self).history()) == Some(regs@) && regs@.len() == reg.spec_size(),
                Err(e) => final(self).history().last().outcome == Err::<Seq<u16>, ReadError>(e),
            },
    {
        let base = self.base.value();
        self.client.read_holding_registers(base + reg.offset(), reg.size())
    }

    /// Reads the scale factor first (through the cache), then the value register.
    fn read_register_with_scale(&mut self, reg: DerAcReg, sf_reg: DerAcReg) -> (r: Result<
        (Vec<u16>, i16),
        ReadError,
    >)
        requires
            sf_reg.is_scale_factor(),
        ensures
            final(self).spec_base() == old(self).spec_base(),
            der_scaled_reads(
                old(self).history(),
                final(self).history(),
                old(self).spec_cache(),
                final(self).spec_cache(),
                old(self).spec_base() as int,
                reg,
                sf_reg,
            ),
            match der_scaled_words(old(self).history(), final(self).history(), old(self).spec_cache(), sf_reg) {
                Some((w, k)) => (r matches Ok((v, sf)) && v@ == w && sf == k),
                None => (r matches Err(e) && final(self).history().last().outcome == Err::<Seq<u16>, ReadError>(e)),
            },
            r matches Ok((v, _)) ==> v@.len() == reg.spec_size(),
    {
        let ghost h0 = self.history();
        let ghost c0 = self.spec_cache();
        let sf = match self.read_sf(sf_reg) {
            Ok(sf) => sf,
            Err(e) => {
                assert(self.history().take(h0.len() + 1int) =~= self.history());
                return Err(e);
            },
        };
        let ghost h1 = self.history();
        let regs = match self.read(reg) {
            Ok(regs) => regs,
            Err(e) => {
                proof {
                    if c0.cached(sf_reg) is None {
                        assert(self.history().take(h0.len() + 1int) =~= h1.take(h0.len() + 1int));
                        assert(h1.take(h0.len() + 1int) =~= h1);
                    }
                }
                return Err(e);
            },
        };
        proof {
            if c0.cached(sf_reg) is None {
                assert(self.history().take(h0.len() + 1int) =~= h1.take(h0.len() + 1int));
                assert(h1.take(h0.len() + 1int) =~= h1);
            }
        }
        Ok((regs, sf))
    }

    /// A scale factor: from the cache when it has been read before, otherwise read from
    /// the device (one register) and cached.
    fn read_sf(&mut self, sf_reg: DerAcReg) -> (r: Result<i16, ReadError>)
        requires
            sf_reg.is_scale_factor(),
        ensures
            final(self).spec_base() == old(self).spec_base(),
            reads_sf(
                old(self).history(),
                final(self).history(),
                old(self).spec_cache(),
                final(self).spec_cache(),
                old(self).spec_base() as int,
                sf_reg,
                r,
            ),
    {
        if let Some(sf) = self.cache.read(sf_reg) {
            return Ok(sf);
        }
        let base = self.base.value();
        let regs = match self.client.read_holding_registers(base + sf_reg.offset(), 1) {
            Ok(regs) => regs,
            Err(e) => return Err(e),
        };
        let sf = regs_i16(&regs);
        self.cache.write(sf_reg, sf);
        Ok(sf)
    }
}

} // verus!
