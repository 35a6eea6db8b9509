use dbcapi::coordinator::SubscriptionState;
use dbcapi::signal::{
    ByteOrder, CodecError, EnumVariant, Signal, SignalDef, SignalValue, ValueKind, Variant,
};
use dbcapi::types::{BcmOpCode, CanFrame, DataStatus};

fn def(name: &str, start: usize, width: usize, kind: ValueKind) -> SignalDef {
    SignalDef {
        name: name.to_string(),
        start,
        width,
        order: ByteOrder::LittleEndian,
        kind,
        factor: 1,
        offset: 0,
        scale: 1,
        min: None,
        max: None,
        variants: Vec::new(),
    }
}

/// Pedal position: 8 bits from bit 32, factor 0.4, in tenths of a percent.
fn pedal() -> SignalDef {
    SignalDef { factor: 4, scale: 10, min: Some(0), max: Some(1000), ..def("DiAccelPedalPos", 32, 8, ValueKind::Unsigned) }
}

/// Rear power: signed 11 bits from bit 0, factor 0.5, in tenths of a kW.
fn rear_power() -> SignalDef {
    SignalDef { factor: 5, scale: 10, min: Some(-5000), max: Some(5000), ..def("RearPower266", 0, 11, ValueKind::Signed) }
}

fn brake() -> SignalDef {
    let v = |name: &str, raw: u64, settable: bool| EnumVariant { name: name.to_string(), raw, settable };
    SignalDef {
        variants: vec![v("Off", 0, true), v("On", 1, true), v("Invalid", 2, true), v("Sna", 3, false)],
        ..def("DiBrakePedalState", 19, 2, ValueKind::Enumerated)
    }
}

fn frame(opcode: BcmOpCode, stamp: u64, data: Vec<u8>) -> CanFrame {
    CanFrame::new(0x118, stamp, opcode, data)
}

#[test]
fn layouts_are_valid() {
    assert!(pedal().is_valid());
    assert!(rear_power().is_valid());
    assert!(brake().is_valid());
    assert!(!def("wide", 0, 65, ValueKind::Unsigned).is_valid());
    assert!(!def("empty", 0, 0, ValueKind::Unsigned).is_valid());
    assert!(!SignalDef { factor: 0, ..pedal() }.is_valid());
    let mut dup = brake();
    dup.variants[1].raw = 0;
    assert!(!dup.is_valid());
    let mut big = brake();
    big.variants[3].raw = 4;
    assert!(!big.is_valid());
}

#[test]
fn decode_scaled_unsigned() {
    let d = pedal();
    let data = vec![0, 0, 0, 0, 25, 0, 0, 0];
    assert_eq!(d.decode(&data), SignalValue::Number(100));
}

#[test]
fn encode_scaled_unsigned_round_trip() {
    let d = pedal();
    let mut data = vec![0xFFu8, 0, 0, 0, 0, 0, 0, 0x11];
    assert_eq!(d.encode(SignalValue::Number(100), &mut data), Ok(()));
    assert_eq!(data, vec![0xFF, 0, 0, 0, 25, 0, 0, 0x11]);
    assert_eq!(d.decode(&data), SignalValue::Number(100));
    // 10.1 % is not a multiple of 0.4: the raw value is truncated
    assert_eq!(d.encode(SignalValue::Number(101), &mut data), Ok(()));
    assert_eq!(d.decode(&data), SignalValue::Number(100));
}

#[test]
fn encode_refuses_out_of_bounds() {
    let d = pedal();
    let mut data = vec![0u8; 8];
    assert_eq!(d.encode(SignalValue::Number(1001), &mut data), Err(CodecError::OutOfRange));
    assert_eq!(d.encode(SignalValue::Number(-1), &mut data), Err(CodecError::OutOfRange));
    assert_eq!(data, vec![0u8; 8]);
    // within no declared bound, but beyond 8 bits
    let open = SignalDef { min: None, max: None, ..pedal() };
    assert_eq!(open.encode(SignalValue::Number(1024), &mut data), Err(CodecError::OutOfRange));
    assert_eq!(open.encode(SignalValue::Number(1020), &mut data), Ok(()));
    assert_eq!(data[4], 255);
}

#[test]
fn encode_refuses_wrong_kind() {
    let mut data = vec![0u8; 8];
    assert_eq!(pedal().encode(SignalValue::Flag(true), &mut data), Err(CodecError::WrongType));
    assert_eq!(brake().encode(SignalValue::Number(1), &mut data), Err(CodecError::WrongType));
    assert_eq!(data, vec![0u8; 8]);
}

#[test]
fn signed_field_sign_extends() {
    let d = rear_power();
    let mut data = vec![0u8; 8];
    assert_eq!(d.encode(SignalValue::Number(-500), &mut data), Ok(()));
    // -100 in 11 bits is 0x79C
    assert_eq!(data[0], 0x9C);
    assert_eq!(data[1], 0x07);
    assert_eq!(d.decode(&data), SignalValue::Number(-500));
    assert_eq!(d.encode(SignalValue::Number(5000), &mut data), Ok(()));
    assert_eq!(d.decode(&data), SignalValue::Number(5000));
    let raw_max = SignalDef { min: None, max: None, ..rear_power() };
    // 1024 raw steps do not fit a signed 11-bit field
    assert_eq!(raw_max.encode(SignalValue::Number(5120), &mut data), Err(CodecError::OutOfRange));
    assert_eq!(raw_max.encode(SignalValue::Number(-5120), &mut data), Ok(()));
    assert_eq!(raw_max.decode(&data), SignalValue::Number(-5120));
}

#[test]
fn offset_applies_both_ways() {
    let d = SignalDef { factor: 2, offset: -40, ..def("temp", 8, 8, ValueKind::Unsigned) };
    let mut data = vec![0u8; 2];
    assert_eq!(d.encode(SignalValue::Number(0), &mut data), Ok(()));
    assert_eq!(data, vec![0, 20]);
    assert_eq!(d.decode(&data), SignalValue::Number(0));
    assert_eq!(d.decode(&[0, 0]), SignalValue::Number(-40));
}

#[test]
fn big_endian_reverses_bytes() {
    let d = SignalDef { order: ByteOrder::BigEndian, ..def("be", 0, 12, ValueKind::Unsigned) };
    let mut data = vec![0u8; 3];
    assert_eq!(d.encode(SignalValue::Number(0xABC), &mut data), Ok(()));
    assert_eq!(data, vec![0, 0x0A, 0xBC]);
    assert_eq!(d.decode(&data), SignalValue::Number(0xABC));
}

#[test]
fn boolean_field() {
    let d = def("flag", 7, 1, ValueKind::Boolean);
    let mut data = vec![0u8; 1];
    assert_eq!(d.encode(SignalValue::Flag(true), &mut data), Ok(()));
    assert_eq!(data, vec![0x80]);
    assert_eq!(d.decode(&data), SignalValue::Flag(true));
    assert_eq!(d.encode(SignalValue::Flag(false), &mut data), Ok(()));
    assert_eq!(data, vec![0]);
}

#[test]
fn full_width_field() {
    let d = def("all", 0, 64, ValueKind::Unsigned);
    let mut data = vec![0u8; 8];
    assert_eq!(d.encode(SignalValue::Number(u64::MAX as i128), &mut data), Ok(()));
    assert_eq!(data, vec![0xFF; 8]);
    assert_eq!(d.decode(&data), SignalValue::Number(u64::MAX as i128));
    let s = def("all", 0, 64, ValueKind::Signed);
    assert_eq!(s.decode(&data), SignalValue::Number(-1));
}

#[test]
fn enumerated_variants() {
    let d = brake();
    let sig = Signal::new(d.clone());
    let mut data = vec![0u8; 8];
    assert_eq!(sig.set_variant(Variant::Named(2), &mut data), Ok(()));
    assert_eq!(data[2], 2 << 3);
    assert_eq!(d.decode(&data), SignalValue::Enumerated(2));
    assert_eq!(d.variant(2), Variant::Named(2));
    // a reserved code cannot be written, but reads back under its name
    assert_eq!(sig.set_variant(Variant::Named(3), &mut data), Err(CodecError::OutOfRange));
    assert_eq!(sig.set_variant(Variant::Named(9), &mut data), Err(CodecError::OutOfRange));
    assert_eq!(sig.set_value(SignalValue::Enumerated(3), &mut data), Ok(()));
    assert_eq!(d.variant(3), Variant::Named(3));
    assert_eq!(sig.set_variant(Variant::Other(4), &mut data), Err(CodecError::OutOfRange));
    let mut s = Signal::new(d.clone());
    s.update(&frame(BcmOpCode::RxChanged, 1, data.clone()));
    assert_eq!(s.get_variant(), Some(Variant::Named(3)));
    let wide = SignalDef { width: 4, ..brake() };
    assert_eq!(wide.variant(9), Variant::Other(9));
}

#[test]
fn change_detection_updated_then_unchanged() {
    let mut s = Signal::new(pedal());
    let data = vec![0, 0, 0, 0, 25, 0, 0, 0];
    assert_eq!(s.update(&frame(BcmOpCode::RxChanged, 10, data.clone())), 0);
    assert_eq!(s.get_status(), DataStatus::Updated);
    assert_eq!(s.get_value(), SignalValue::Number(100));
    assert_eq!(s.get_stamp(), 10);
    s.update(&frame(BcmOpCode::RxChanged, 20, data));
    assert_eq!(s.get_status(), DataStatus::Unchanged);
    assert_eq!(s.get_stamp(), 10);
}

#[test]
fn first_frame_equal_to_zero_is_unchanged() {
    let mut s = Signal::new(pedal());
    s.update(&frame(BcmOpCode::RxChanged, 10, vec![0u8; 8]));
    assert_eq!(s.get_status(), DataStatus::Unchanged);
}

#[test]
fn timeout_and_other_opcodes() {
    let mut s = Signal::new(pedal());
    s.update(&frame(BcmOpCode::RxChanged, 10, vec![0, 0, 0, 0, 5, 0, 0, 0]));
    s.update(&frame(BcmOpCode::RxTimeout, 99, vec![]));
    assert_eq!(s.get_status(), DataStatus::Timeout);
    assert_eq!(s.get_value(), SignalValue::Number(20));
    assert_eq!(s.get_stamp(), 10);
    s.update(&frame(BcmOpCode::TxSend, 100, vec![0u8; 8]));
    assert_eq!(s.get_status(), DataStatus::Error);
    // a frame too short for the field
    s.update(&frame(BcmOpCode::RxChanged, 101, vec![0u8; 4]));
    assert_eq!(s.get_status(), DataStatus::Error);
    assert_eq!(s.get_value(), SignalValue::Number(20));
}

#[test]
fn reset_twice_is_reset_once() {
    let mut s = Signal::new(brake());
    s.update(&frame(BcmOpCode::RxChanged, 42, vec![0, 0, 0x08, 0, 0, 0, 0, 0]));
    assert_eq!(s.get_value(), SignalValue::Enumerated(1));
    s.reset();
    assert_eq!(s.get_status(), DataStatus::Unset);
    assert_eq!(s.get_value(), SignalValue::Enumerated(0));
    assert_eq!(s.get_stamp(), 0);
    s.reset();
    assert_eq!(s.get_status(), DataStatus::Unset);
    assert_eq!(s.get_value(), SignalValue::Enumerated(0));
    assert_eq!(s.get_stamp(), 0);
}

#[test]
fn listener_gate_and_publication() {
    let mut s = Signal::new(pedal());
    assert_eq!(s.get_name(), "DiAccelPedalPos");
    s.set_callback(SubscriptionState::new());
    let data = vec![0, 0, 0, 0, 25, 0, 0, 0];
    // within the rate of 500 * 1000 since stamp 0: no publication
    assert_eq!(s.update(&frame(BcmOpCode::RxChanged, 400_000, data.clone())), 0);
    assert!(!s.publish_due);
    let data2 = vec![0, 0, 0, 0, 26, 0, 0, 0];
    s.update(&frame(BcmOpCode::RxChanged, 500_001, data2));
    assert!(s.publish_due);
    assert_eq!(s.listener.unwrap().stamp, 500_001);
    s.record_publication(3);
    assert!(!s.publish_due);
    assert_eq!(s.update(&frame(BcmOpCode::RxChanged, 500_002, data)), 3);
    assert!(!s.publish_due);
    let snap = s.snapshot();
    assert_eq!(snap.name, "DiAccelPedalPos");
    assert_eq!(snap.value, SignalValue::Number(100));
    assert_eq!(snap.status, DataStatus::Updated);
}
