use esp_bt::bt::status::{BtStatus, TryFromPrimitiveError};
use esp_bt::bt::{
    BdAddr, Ble, BtClassic, BtDual, BtMode, BtUuid, ControllerMode, EspBdAddr, EspBtMode,
    EspBtUuid,
};
use esp_bt::esp_error::{esp_result, EspError, ESP_ERR_INVALID_ARG, ESP_ERR_INVALID_STATE};
use esp_bt::text::decimal_string;

#[test]
fn bd_addr_bytes_roundtrip() {
    let bytes = [0x01, 0x23, 0x45, 0x67, 0x89, 0xab];
    let addr = BdAddr::from_bytes(bytes);
    assert_eq!(addr.addr(), bytes);
    assert_eq!(*addr.raw(), bytes);
    let raw: EspBdAddr = addr.into();
    assert_eq!(raw, bytes);
    let back: BdAddr = BdAddr::from(raw);
    assert_eq!(back, addr);
}

#[test]
fn bd_addr_text_is_upper_hex_with_colons() {
    let addr = BdAddr::from_bytes([0x01, 0x23, 0x45, 0x67, 0x89, 0xab]);
    assert_eq!(addr.to_string(), "01:23:45:67:89:AB");
    let zero = BdAddr::from_bytes([0, 0, 0, 0, 0, 0]);
    assert_eq!(zero.to_string(), "00:00:00:00:00:00");
    let ones = BdAddr::from_bytes([0xff, 0xfe, 0x0a, 0xa0, 0x10, 0x09]);
    assert_eq!(ones.to_string(), "FF:FE:0A:A0:10:09");
}

#[test]
fn uuid16_is_two_little_endian_bytes() {
    let uuid = BtUuid::uuid16(0x180d);
    assert_eq!(uuid.raw().len, 2);
    assert_eq!(uuid.as_bytes(), &[0x0d, 0x18]);
}

#[test]
fn uuid32_is_four_little_endian_bytes() {
    let uuid = BtUuid::uuid32(0x1234_5678);
    assert_eq!(uuid.raw().len, 4);
    assert_eq!(uuid.as_bytes(), &[0x78, 0x56, 0x34, 0x12]);
}

#[test]
fn uuid128_is_sixteen_little_endian_bytes() {
    let value: u128 = 0x0011_2233_4455_6677_8899_aabb_ccdd_eeff;
    let uuid = BtUuid::uuid128(value);
    assert_eq!(uuid.raw().len, 16);
    assert_eq!(uuid.as_bytes(), &value.to_le_bytes());
    let raw = uuid.into_raw();
    assert_eq!(raw.uuid, value.to_le_bytes());
}

#[test]
fn uuid_equality_compares_bytes() {
    assert!(BtUuid::uuid16(0x180d).eq_bytes(&BtUuid::uuid16(0x180d)));
    assert!(!BtUuid::uuid16(0x180d).eq_bytes(&BtUuid::uuid16(0x180e)));
    assert!(!BtUuid::uuid16(0x180d).eq_bytes(&BtUuid::uuid32(0x180d)));
    assert!(!BtUuid::uuid32(7).eq_bytes(&BtUuid::uuid128(7)));
    assert!(BtUuid::uuid128(42).eq_bytes(&BtUuid::uuid128(42)));
}

#[test]
fn uuid_from_raw_keeps_the_raw_value() {
    let raw = EspBtUuid { len: 2, uuid: [0x0d, 0x18, 9, 9, 9, 9, 9, 9, 9, 9, 9, 9, 9, 9, 9, 9] };
    let uuid = BtUuid::from(raw);
    assert_eq!(uuid.as_bytes(), &[0x0d, 0x18]);
    assert!(uuid.eq_bytes(&BtUuid::uuid16(0x180d)));
    let back: EspBtUuid = uuid.into();
    assert_eq!(back.uuid, raw.uuid);
}

#[test]
fn uuid_debug_text() {
    assert_eq!(BtUuid::uuid16(0x180d).debug_string(), "BtUuid {[13, 24]}");
    assert_eq!(BtUuid::uuid32(0xff00_0102).debug_string(), "BtUuid {[2, 1, 0, 255]}");
}

#[test]
fn status_codes_roundtrip() {
    assert_eq!(BtStatus::try_from_primitive(0), Ok(BtStatus::Success));
    assert_eq!(BtStatus::try_from_primitive(5), Ok(BtStatus::Done));
    assert_eq!(BtStatus::try_from_primitive(21), Ok(BtStatus::EirTooLarge));
    assert_eq!(BtStatus::try_from_primitive(0x100), Ok(BtStatus::HciSuccess));
    assert_eq!(BtStatus::try_from_primitive(0x12b), Ok(BtStatus::HciUndefined0x2b));
    assert_eq!(BtStatus::try_from_primitive(0x13f), Ok(BtStatus::HciMacConnectionFailed));
    assert_eq!(BtStatus::HciMacConnectionFailed.code(), 0x13f);
    assert_eq!(BtStatus::AuthRejected.code(), 11);
    assert_eq!(BtStatus::HciInsufficientSecurity.code(), 0x12f);
}

#[test]
fn status_try_from_u32() {
    assert_eq!(BtStatus::try_from(0x105u32), Ok(BtStatus::HciAuthFailure));
    assert_eq!(BtStatus::try_from(13u32), Ok(BtStatus::Pending));
    assert_eq!(BtStatus::try_from(500u32), Err(TryFromPrimitiveError { number: 500 }));
    for code in (0u32..=21).chain(0x100..=0x13f) {
        assert_eq!(BtStatus::try_from(code).unwrap().code(), code);
    }
}

#[test]
fn status_unknown_codes_are_refused() {
    assert_eq!(BtStatus::try_from_primitive(22), Err(TryFromPrimitiveError { number: 22 }));
    assert_eq!(BtStatus::try_from_primitive(0xff), Err(TryFromPrimitiveError { number: 0xff }));
    assert_eq!(BtStatus::try_from_primitive(0x140), Err(TryFromPrimitiveError { number: 0x140 }));
}

#[test]
fn mode_codes() {
    assert_eq!(EspBtMode::Idle.code(), 0);
    assert_eq!(EspBtMode::Ble.code(), 1);
    assert_eq!(EspBtMode::ClassicBt.code(), 2);
    assert_eq!(EspBtMode::Btdm.code(), 3);
}

#[test]
fn mode_types_follow_the_controller_configuration() {
    assert_eq!(Ble::mode(ControllerMode::BleOnly), EspBtMode::Ble);
    assert_eq!(Ble::mode(ControllerMode::Btdm), EspBtMode::Btdm);
    assert_eq!(BtClassic::mode(ControllerMode::BrEdrOnly), EspBtMode::ClassicBt);
    assert_eq!(BtClassic::mode(ControllerMode::Btdm), EspBtMode::Btdm);
    assert_eq!(BtDual::mode(ControllerMode::Btdm), EspBtMode::Btdm);
}

#[test]
fn esp_result_maps_codes() {
    assert_eq!(esp_result(0), Ok(()));
    let e = esp_result(ESP_ERR_INVALID_STATE).unwrap_err();
    assert_eq!(e.code(), ESP_ERR_INVALID_STATE);
    assert_eq!(esp_result(-1).unwrap_err().code(), -1);
    assert_eq!(EspError::from_code(0), None);
    assert_eq!(EspError::invalid_arg().code(), ESP_ERR_INVALID_ARG);
    assert_eq!(EspError::invalid_state().code(), ESP_ERR_INVALID_STATE);
}

#[test]
fn decimal_text() {
    assert_eq!(decimal_string(0), "0");
    assert_eq!(decimal_string(7), "7");
    assert_eq!(decimal_string(10), "10");
    assert_eq!(decimal_string(65535), "65535");
    assert_eq!(decimal_string(usize::MAX), usize::MAX.to_string());
}

#[test]
fn uuid_copy_keeps_the_raw_value() {
    let uuid = BtUuid::uuid32(0x1234_5678);
    let copy = uuid;
    let cloned = uuid.clone();
    assert_eq!(copy.into_raw().len, 4);
    assert_eq!(cloned.as_bytes(), &[0x78, 0x56, 0x34, 0x12]);
    assert!(cloned.eq_bytes(&uuid));
}
