use solaredge_modbus::decode::{
    optional_scaled_i16, optional_scaled_u16, optional_scaled_u32, optional_scaled_u64, optional_u16,
    optional_u32, regs_i16, regs_string, regs_u16, regs_u32, regs_u64, scaled_i16, scaled_u16,
    scaled_u32, scaled_u64, word_as_i16, ScaledValue,
};

fn sv(value: i128, scale: i16) -> (i128, i16) {
    (value, scale)
}

fn pair(v: ScaledValue) -> (i128, i16) {
    (v.value, v.scale)
}

#[test]
fn first_register_as_unsigned_and_signed() {
    assert_eq!(regs_u16(&vec![0xfffe, 7]), 0xfffe);
    assert_eq!(regs_i16(&vec![0xfffe, 7]), -2);
    assert_eq!(regs_i16(&vec![0x7fff]), 32767);
    assert_eq!(regs_i16(&vec![0x8000]), -32768);
    assert_eq!(word_as_i16(0xffff), -1);
    assert_eq!(word_as_i16(0), 0);
}

#[test]
fn multi_register_numbers_are_big_endian() {
    assert_eq!(regs_u32(&vec![0x0001, 0x0002]), 0x0001_0002);
    assert_eq!(regs_u32(&vec![0x5375, 0x6e53]), 0x5375_6e53);
    assert_eq!(regs_u32(&vec![0xffff, 0xffff, 9]), u32::MAX);
    assert_eq!(regs_u64(&vec![0x0102, 0x0304, 0x0506, 0x0708]), 0x0102_0304_0506_0708);
    assert_eq!(regs_u64(&vec![0, 0, 0, 1]), 1);
}

#[test]
fn string_stops_at_first_nul() {
    assert_eq!(regs_string(&vec![0x5375, 0x6e53]), "SunS");
    // "SolarEdge " followed by padding
    let regs = vec![0x536f, 0x6c61, 0x7245, 0x6467, 0x6520, 0x0000, 0x4142, 0x4344];
    assert_eq!(regs_string(&regs), "SolarEdge ");
    // NUL in the low byte of a register
    assert_eq!(regs_string(&vec![0x4142, 0x4300, 0x4445]), "ABC");
    assert_eq!(regs_string(&vec![0x0041]), "");
    assert_eq!(regs_string(&vec![]), "");
}

#[test]
fn string_bytes_are_latin1_characters() {
    assert_eq!(regs_string(&vec![0xe9ff]), "\u{e9}\u{ff}");
}

#[test]
fn scaled_values_keep_value_and_scale() {
    assert_eq!(pair(scaled_u16(2345, -2)), sv(2345, -2));
    assert_eq!(pair(scaled_i16(-5, 1)), sv(-5, 1));
    assert_eq!(pair(scaled_u32(4_000_000_000, 0)), sv(4_000_000_000, 0));
    assert_eq!(pair(scaled_u64(u64::MAX - 1, 3)), sv(u64::MAX as i128 - 1, 3));
}

#[test]
fn not_implemented_markers_give_none() {
    assert!(optional_scaled_i16(i16::MIN, 0).is_none());
    assert_eq!(optional_scaled_i16(-32767, -1).map(pair), Some(sv(-32767, -1)));
    assert!(optional_scaled_u16(u16::MAX, 0).is_none());
    assert_eq!(optional_scaled_u16(230, 0).map(pair), Some(sv(230, 0)));
    assert!(optional_scaled_u32(u32::MAX, 0).is_none());
    assert_eq!(optional_scaled_u32(50_000, -3).map(pair), Some(sv(50_000, -3)));
    assert!(optional_scaled_u64(u64::MAX, 0).is_none());
    assert_eq!(optional_scaled_u64(12, 2).map(pair), Some(sv(12, 2)));
    assert_eq!(optional_u16(u16::MAX), None);
    assert_eq!(optional_u16(42), Some(42));
    assert_eq!(optional_u32(u32::MAX), None);
    assert_eq!(optional_u32(0), Some(0));
}
