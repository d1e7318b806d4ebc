use pibq::data_flags;
use pibq::message_type;
use pibq::packet::Packet;

/// The raw wire word a temperature value is stored as.
fn temp_to_raw(value: f64) -> u32 {
    ((value + 300.0) * 100000.0).round() as u32
}

/// The temperature a raw wire word decodes to.
fn raw_to_temp(raw: u32) -> f64 {
    (raw as f64) / 100000.0 - 300.0
}

#[test]
fn test_command_id() {
    let mut p = Packet::new();
    p.set_command_id(message_type::retrieve_info());
    assert_eq!(message_type::retrieve_info(), p.get_command_id());
}

#[test]
fn test_data_flags() {
    let mut p = Packet::new();
    p.set_data_flags(data_flags::sensor_1_temperature().union(data_flags::sensor_2_temperature()));
    assert_eq!(
        data_flags::sensor_1_temperature().union(data_flags::sensor_2_temperature()),
        p.get_data_flags()
    );
}

#[test]
fn test_serial_number() {
    let mut p = Packet::new();
    p.set_serial_number("abcdefc");
    assert_eq!("abcdefc", p.get_serial_number());
}

#[test]
fn test_temperatures() {
    let mut p = Packet::new();
    p.set_sensor1_reading(Some(temp_to_raw(32.0f64)));
    p.set_sensor2_reading(Some(temp_to_raw(100.5f64)));

    assert_eq!(Some(32.0f64), p.get_sensor1_reading().map(raw_to_temp));
    assert_eq!(Some(100.5f64), p.get_sensor2_reading().map(raw_to_temp));

    p.set_sensor1_reading(None);
    assert_eq!(None, p.get_sensor1_reading());
}

#[test]
fn test_example_packet_crc() {
    let mut data = [0u8; 128];
    data[0] = 1;
    data[1] = 1;
    data[2] = 0xFF;
    data[3] = 0xFF;
    data[126] = 0xA5;
    data[127] = 0x88;
    let p = Packet::from_bytes(&data);
    assert!(p.is_checksum_valid());
}
