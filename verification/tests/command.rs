use dmm_lib::protocol::ut61eplus::command::Command;

#[test]
fn encode_get_measurement() {
    // 0x5E + 379 = 94 + 379 = 473 = 0x01D9
    assert_eq!(
        Command::GetMeasurement.encode(),
        [0xAB, 0xCD, 0x03, 0x5E, 0x01, 0xD9]
    );
}

#[test]
fn encode_hold() {
    // 0x4A + 379 = 74 + 379 = 453 = 0x01C5
    assert_eq!(Command::Hold.encode(), [0xAB, 0xCD, 0x03, 0x4A, 0x01, 0xC5]);
}

#[test]
fn encode_light() {
    // 0x4B + 379 = 75 + 379 = 454 = 0x01C6
    assert_eq!(
        Command::Light.encode(),
        [0xAB, 0xCD, 0x03, 0x4B, 0x01, 0xC6]
    );
}
