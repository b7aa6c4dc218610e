use solaredge_modbus::der_ac::{DerAcClient, DerAcReg, ScaleFactorCache};
use solaredge_modbus::meter::{grid_power_and_voltage_from_regs, MeterClient, MeterReg};
use solaredge_modbus::slot::{
    is_empty_slot_error, probe_step, ProbeReply, ProbeStage, ProbeStep, Slot, SlotKind,
    SLOT1_BASE, SLOT_SPACING,
};
use solaredge_modbus::transport::ModbusErrorKind;
use solaredge_modbus::{ClientError, SlotNumber};

#[test]
fn slot_bases() {
    assert_eq!(SlotNumber::One.base(), 40121);
    assert_eq!(SlotNumber::Two.base(), 40295);
    assert_eq!(SlotNumber::Three.base(), 40469);
    assert_eq!(SlotNumber::Two.base() - SlotNumber::One.base(), SLOT_SPACING);
    assert_eq!(SlotNumber::One.base(), SLOT1_BASE);
    assert_eq!(SlotNumber::ALL, [SlotNumber::One, SlotNumber::Two, SlotNumber::Three]);
    assert_eq!(SlotNumber::Three.number(), 3);
}

fn run(replies: [ProbeReply; 3]) -> Option<SlotKind> {
    let mut stage = ProbeStage::CommonHeader;
    for _ in 0..3 {
        let reply = match stage {
            ProbeStage::CommonHeader => replies[0],
            ProbeStage::MeterHeader => replies[1],
            ProbeStage::MeterData => replies[2],
        };
        match probe_step(stage, reply) {
            ProbeStep::Next(next) => stage = next,
            ProbeStep::Found(kind) => return Some(kind),
            ProbeStep::Abort => return None,
        }
    }
    panic!("probe did not finish within three reads");
}

#[test]
fn probe_finds_meter() {
    assert_eq!(run([ProbeReply::Value(1), ProbeReply::Value(203), ProbeReply::Value(0x536f)]), Some(SlotKind::Meter));
    assert_eq!(run([ProbeReply::Value(1), ProbeReply::Value(201), ProbeReply::Value(0)]), Some(SlotKind::Meter));
    assert_eq!(run([ProbeReply::Value(1), ProbeReply::Value(204), ProbeReply::Value(0)]), Some(SlotKind::Meter));
}

#[test]
fn probe_finds_der_ac() {
    assert_eq!(run([ProbeReply::Value(701), ProbeReply::Failed, ProbeReply::Failed]), Some(SlotKind::DerAc));
}

#[test]
fn probe_finds_empty_slots() {
    assert_eq!(run([ProbeReply::Value(0), ProbeReply::Failed, ProbeReply::Failed]), Some(SlotKind::Empty));
    assert_eq!(run([ProbeReply::EmptySlot, ProbeReply::Failed, ProbeReply::Failed]), Some(SlotKind::Empty));
    assert_eq!(run([ProbeReply::Value(1), ProbeReply::Value(200), ProbeReply::Failed]), Some(SlotKind::Empty));
    assert_eq!(run([ProbeReply::Value(1), ProbeReply::Value(205), ProbeReply::Failed]), Some(SlotKind::Empty));
    assert_eq!(run([ProbeReply::Value(1), ProbeReply::EmptySlot, ProbeReply::Failed]), Some(SlotKind::Empty));
    assert_eq!(run([ProbeReply::Value(1), ProbeReply::Value(203), ProbeReply::EmptySlot]), Some(SlotKind::Empty));
}

#[test]
fn probe_aborts_on_other_failures() {
    assert_eq!(run([ProbeReply::Failed, ProbeReply::Value(1), ProbeReply::Value(1)]), None);
    assert_eq!(run([ProbeReply::Value(1), ProbeReply::Failed, ProbeReply::Value(1)]), None);
    assert_eq!(run([ProbeReply::Value(1), ProbeReply::Value(202), ProbeReply::Failed]), None);
}

#[test]
fn probe_register_offsets() {
    assert_eq!(ProbeStage::CommonHeader.offset(), 0);
    assert_eq!(ProbeStage::MeterHeader.offset(), 67);
    assert_eq!(ProbeStage::MeterData.offset(), 2);
}

#[test]
fn empty_slot_errors() {
    assert!(is_empty_slot_error(ModbusErrorKind::Exception));
    assert!(is_empty_slot_error(ModbusErrorKind::IoWouldBlock));
    assert!(!is_empty_slot_error(ModbusErrorKind::IoOther));
    assert!(!is_empty_slot_error(ModbusErrorKind::InvalidResponse));
    assert!(!is_empty_slot_error(ModbusErrorKind::InvalidData));
}

#[test]
fn meter_register_map() {
    assert_eq!(MeterReg::C_Manufacturer.offset(), 2);
    assert_eq!(MeterReg::C_Manufacturer.size(), 16);
    assert_eq!(MeterReg::C_Option.size(), 8);
    assert_eq!(MeterReg::M_AC_Current.offset(), 69);
    assert_eq!(MeterReg::M_AC_Current.size(), 1);
    assert_eq!(MeterReg::M_Exported.offset(), 105);
    assert_eq!(MeterReg::M_Exported.size(), 2);
    assert_eq!(MeterReg::M_Energy_VAR_SF.offset(), 171);
    assert_eq!(MeterReg::M_Energy_VAR_SF.size(), 1);
    assert_eq!(MeterReg::M_Events.offset(), 172);
    assert_eq!(MeterReg::M_Events.size(), 2);
    // The last point ends where the next slot begins.
    assert_eq!(MeterReg::M_Events.offset() + MeterReg::M_Events.size(), SLOT_SPACING);
}

#[test]
fn grid_window_decoding() {
    // voltage AB = 2400 (sf -1), power = -1500 (sf 0)
    let regs: Vec<u16> = vec![2400, 0, 0, 0xffff, 0, 0, (-1500i16) as u16, 0, 0, 0, 0];
    let (power, voltage) = grid_power_and_voltage_from_regs(&regs);
    assert_eq!((power.value, power.scale), (-1500, 0));
    assert_eq!((voltage.value, voltage.scale), (2400, -1));
}

#[test]
fn der_ac_register_map() {
    assert_eq!(DerAcReg::St.offset(), 3);
    assert_eq!(DerAcReg::Alrm.size(), 2);
    assert_eq!(DerAcReg::Hz.offset(), 17);
    assert_eq!(DerAcReg::Hz.size(), 2);
    assert_eq!(DerAcReg::TotWhInjL3.offset(), 94);
    assert_eq!(DerAcReg::TotWhInjL3.size(), 4);
    assert_eq!(DerAcReg::Tmp_SF.offset(), 122);
    assert_eq!(DerAcReg::MnAlrmInfo.offset(), 123);
    assert_eq!(DerAcReg::MnAlrmInfo.size(), 32);
}

#[test]
fn scale_factors_lie_apart_from_value_registers() {
    let sfs = [DerAcReg::A_SF, DerAcReg::V_SF, DerAcReg::Hz_SF, DerAcReg::W_SF, DerAcReg::PF_SF,
        DerAcReg::VA_SF, DerAcReg::Var_SF, DerAcReg::TotWh_SF, DerAcReg::TotVarh_SF, DerAcReg::Tmp_SF];
    for (i, sf) in sfs.iter().enumerate() {
        assert_eq!(sf.offset(), 113 + i as u16);
        assert_eq!(sf.size(), 1);
    }
    assert_eq!(DerAcReg::ThrotSrc.offset() + DerAcReg::ThrotSrc.size(), 113);
    assert_eq!(DerAcReg::MnAlrmInfo.offset(), 123);
}

#[test]
fn cached_scale_factor_survives_other_writes() {
    let mut cache = ScaleFactorCache::new();
    cache.write(DerAcReg::Hz_SF, -2);
    cache.write(DerAcReg::W_SF, 1);
    cache.write(DerAcReg::Tmp_SF, 0);
    assert_eq!(cache.read(DerAcReg::Hz_SF), Some(-2));
}

#[test]
fn scale_factor_cache_read_after_write() {
    let mut cache = ScaleFactorCache::new();
    assert_eq!(cache.read(DerAcReg::W_SF), None);
    assert_eq!(cache.read(DerAcReg::Tmp_SF), None);
    cache.write(DerAcReg::W_SF, -2);
    assert_eq!(cache.read(DerAcReg::W_SF), Some(-2));
    assert_eq!(cache.read(DerAcReg::V_SF), None);
    cache.write(DerAcReg::V_SF, 1);
    cache.write(DerAcReg::W_SF, 3);
    assert_eq!(cache.read(DerAcReg::W_SF), Some(3));
    assert_eq!(cache.read(DerAcReg::V_SF), Some(1));
    for reg in [DerAcReg::A_SF, DerAcReg::Hz_SF, DerAcReg::PF_SF, DerAcReg::VA_SF, DerAcReg::Var_SF,
        DerAcReg::TotWh_SF, DerAcReg::TotVarh_SF, DerAcReg::Tmp_SF] {
        assert_eq!(cache.read(reg), None);
    }
}

#[test]
fn opening_a_slot_on_a_closed_port_is_an_io_error() {
    assert!(matches!(Slot::open("127.0.0.1", 1, 1, SlotNumber::One), Err(ClientError::Io(_))));
    assert!(matches!(MeterClient::new("127.0.0.1", 1, 1, SlotNumber::Two), Err(ClientError::Io(_))));
    assert!(matches!(DerAcClient::new("127.0.0.1", 1, 1, SlotNumber::Three), Err(ClientError::Io(_))));
}
