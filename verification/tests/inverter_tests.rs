use solaredge_modbus::reading::{plan_scaled_read, split_scaled_reply, ScaledReadPlan};
use solaredge_modbus::tcp_client::{InverterStatus, PhaseCount, SunspecRegister};
use solaredge_modbus::{ClientError, TcpClient};

#[test]
fn inverter_status_codes() {
    assert_eq!(InverterStatus::from_u16(1), InverterStatus::Off);
    assert_eq!(InverterStatus::from_u16(2), InverterStatus::Sleeping);
    assert_eq!(InverterStatus::from_u16(3), InverterStatus::Starting);
    assert_eq!(InverterStatus::from_u16(4), InverterStatus::Mppt);
    assert_eq!(InverterStatus::from_u16(5), InverterStatus::Throttled);
    assert_eq!(InverterStatus::from_u16(6), InverterStatus::ShuttingDown);
    assert_eq!(InverterStatus::from_u16(7), InverterStatus::Fault);
    assert_eq!(InverterStatus::from_u16(8), InverterStatus::Standby);
    assert_eq!(InverterStatus::from_u16(0), InverterStatus::Vendor(0));
    assert_eq!(InverterStatus::from_u16(9), InverterStatus::Vendor(9));
    assert_eq!(InverterStatus::from_u16(u16::MAX), InverterStatus::Vendor(u16::MAX));
}

#[test]
fn phase_count_codes() {
    assert_eq!(PhaseCount::from_u16(101), Some(PhaseCount::SinglePhase));
    assert_eq!(PhaseCount::from_u16(102), Some(PhaseCount::SplitPhase));
    assert_eq!(PhaseCount::from_u16(103), Some(PhaseCount::ThreePhase));
    assert_eq!(PhaseCount::from_u16(100), None);
    assert_eq!(PhaseCount::from_u16(104), None);
    assert_eq!(PhaseCount::from_u16(0), None);
}

#[test]
fn phase_count_register_error_carries_value() {
    assert!(matches!(PhaseCount::from_register(103), Ok(PhaseCount::ThreePhase)));
    assert!(matches!(PhaseCount::from_register(7), Err(ClientError::InvalidPhaseCountValue(7))));
}

#[test]
fn sunspec_register_map() {
    assert_eq!(SunspecRegister::C_SunSpec_ID.address(), 40000);
    assert_eq!(SunspecRegister::C_SunSpec_ID.size(), 2);
    assert_eq!(SunspecRegister::C_Manufacturer.address(), 40004);
    assert_eq!(SunspecRegister::C_Manufacturer.size(), 16);
    assert_eq!(SunspecRegister::C_Version.size(), 8);
    assert_eq!(SunspecRegister::I_PhaseCount.address(), 40069);
    assert_eq!(SunspecRegister::I_AC_Energy_WH.address(), 40093);
    assert_eq!(SunspecRegister::I_AC_Energy_WH.size(), 2);
    assert_eq!(SunspecRegister::I_Temp_SF.address(), 40106);
    assert_eq!(SunspecRegister::I_Status_Vendor4.address(), 40119);
    assert_eq!(SunspecRegister::I_Status_Vendor4.size(), 2);
}

#[test]
fn adjacent_scale_factor_is_read_with_the_value() {
    let v = SunspecRegister::I_AC_CurrentC;
    let sf = SunspecRegister::I_AC_Current_SF;
    assert_eq!(
        plan_scaled_read(v.address(), v.size(), sf.address(), sf.size()),
        ScaledReadPlan::ValueThenScale { start: 40074, count: 2 }
    );
    let e = SunspecRegister::I_AC_Energy_WH;
    let esf = SunspecRegister::I_AC_Energy_WH_SF;
    assert_eq!(
        plan_scaled_read(e.address(), e.size(), esf.address(), esf.size()),
        ScaledReadPlan::ValueThenScale { start: 40093, count: 3 }
    );
}

#[test]
fn distant_scale_factor_is_read_separately() {
    let v = SunspecRegister::I_AC_Current;
    let sf = SunspecRegister::I_AC_Current_SF;
    assert_eq!(plan_scaled_read(v.address(), v.size(), sf.address(), sf.size()), ScaledReadPlan::Separate);
    let t = SunspecRegister::I_Temp_Sink;
    let tsf = SunspecRegister::I_Temp_SF;
    assert_eq!(plan_scaled_read(t.address(), t.size(), tsf.address(), tsf.size()), ScaledReadPlan::Separate);
}

#[test]
fn preceding_scale_factor_is_read_first() {
    assert_eq!(plan_scaled_read(100, 2, 99, 1), ScaledReadPlan::ScaleThenValue { start: 99, count: 3 });
}

#[test]
fn combined_reply_is_split_at_the_scale_factor() {
    let (value, scale) =
        split_scaled_reply(ScaledReadPlan::ValueThenScale { start: 40093, count: 3 }, vec![1, 2, 0xfffe]);
    assert_eq!(value, vec![1, 2]);
    assert_eq!(scale, -2);
    let (value, scale) =
        split_scaled_reply(ScaledReadPlan::ScaleThenValue { start: 99, count: 3 }, vec![3, 7, 8]);
    assert_eq!(value, vec![7, 8]);
    assert_eq!(scale, 3);
}

#[test]
fn connecting_to_a_closed_port_is_an_io_error() {
    assert!(matches!(TcpClient::new("127.0.0.1", 1, 1), Err(ClientError::Io(_))));
}

#[test]
fn modbus_errors_convert() {
    assert!(matches!(ClientError::from(modbus::Error::InvalidResponse), ClientError::Modbus(_)));
    let io = std::io::Error::new(std::io::ErrorKind::Other, "x");
    assert!(matches!(ClientError::from(io), ClientError::Io(_)));
}
