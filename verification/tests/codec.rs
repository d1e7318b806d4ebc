use pibq::crc;
use pibq::data_flags::DataFlags;
use pibq::message_type::{self, MessageType};
use pibq::packet::Packet;

#[test]
fn checksum_known_good_frame() {
    let mut data = [0u8; 128];
    data[0] = 1;
    data[1] = 1;
    data[2] = 0xFF;
    data[3] = 0xFF;
    let p = Packet::from_bytes(&data);
    assert_eq!(0x88A5, p.calculate_checksum());
}

#[test]
fn checksum_rejects_every_single_byte_mutation() {
    let mut data = [0u8; 128];
    data[0] = 1;
    data[1] = 1;
    data[2] = 0xFF;
    data[3] = 0xFF;
    data[126] = 0xA5;
    data[127] = 0x88;
    for i in 0..126 {
        for delta in 1..=255u8 {
            let mut mutated = data;
            mutated[i] = mutated[i].wrapping_add(delta);
            let p = Packet::from_bytes(&mutated);
            assert!(!p.is_checksum_valid(), "mutation at {} went undetected", i);
        }
    }
}

#[test]
fn checksum_of_empty_slice_is_complement_of_zero() {
    assert_eq!(0xFFFF, crc::compute_checksum(&[]));
}

#[test]
fn apply_checksum_makes_frame_valid() {
    let mut p = Packet::new();
    p.set_serial_number("probe-1");
    assert!(!p.is_checksum_valid());
    p.apply_checksum();
    assert!(p.is_checksum_valid());
    assert_eq!(p.calculate_checksum(), p.get_checksum());
}

#[test]
fn command_id_round_trips_for_every_defined_id() {
    let ids = [
        message_type::nothing(),
        message_type::retrieve_info(),
        message_type::set_info(),
        message_type::button_press(),
        message_type::reserved(),
        message_type::shutdown(),
    ];
    for id in ids {
        let mut p = Packet::new();
        p.set_command_id(id);
        assert_eq!(id, p.get_command_id());
    }
}

#[test]
fn undefined_command_byte_reads_as_nothing() {
    let mut data = [0u8; 128];
    data[0] = 12;
    let p = Packet::from_bytes(&data);
    assert_eq!(message_type::nothing(), p.get_command_id());
    assert_eq!(None, MessageType::from_bits(12));
    assert_eq!(Some(message_type::button_press()), MessageType::from_bits(3));
}

#[test]
fn data_flags_round_trip_edge_words() {
    for bits in [0u16, 1, 1095, 0x8000, 0xFFFF] {
        let flags = DataFlags::from_bits(bits).unwrap();
        let mut p = Packet::new();
        p.set_data_flags(flags);
        assert_eq!(flags, p.get_data_flags());
        assert_eq!(bits, p.get_data_flags().raw_bits());
    }
}

#[test]
fn serial_number_empty_and_full_width() {
    let mut p = Packet::new();
    p.set_serial_number("");
    assert_eq!("", p.get_serial_number());
    p.set_serial_number("0123456789");
    assert_eq!("0123456789", p.get_serial_number());
}

#[test]
fn serial_number_truncates_to_ten_bytes() {
    let mut p = Packet::new();
    p.set_serial_number("0123456789abcdef");
    assert_eq!("0123456789", p.get_serial_number());
}

#[test]
fn temperature_sentinel_range_reads_as_no_reading() {
    for raw in [0xFFFFFFFDu32, 0xFFFFFFFE, 0xFFFFFFFF] {
        let mut data = [0u8; 128];
        data[54..58].copy_from_slice(&raw.to_le_bytes());
        let p = Packet::from_bytes(&data);
        assert_eq!(None, p.get_sensor1_reading());
    }
    let mut data = [0u8; 128];
    data[54..58].copy_from_slice(&0xFFFFFFFCu32.to_le_bytes());
    let p = Packet::from_bytes(&data);
    assert_eq!(Some(0xFFFFFFFC), p.get_sensor1_reading());
}

#[test]
fn temperature_raw_zero_is_exactly_minus_three_hundred() {
    let mut p = Packet::new();
    p.set_sensor1_reading(Some(0));
    let raw = p.get_sensor1_reading().unwrap();
    assert_eq!(0, raw);
    assert_eq!(-300.0f64, (raw as f64) / 100000.0 - 300.0);
}

#[test]
fn battery_volts_round_trip() {
    for millivolts in [0u16, 1, 3300, 65535] {
        let mut p = Packet::new();
        p.set_battery_volts(millivolts);
        assert_eq!(millivolts, p.get_battery_volts());
    }
    let mut p = Packet::new();
    p.set_battery_volts(1500);
    assert_eq!(1.5f32, (p.get_battery_volts() as f32) / 1000.0);
}

#[test]
fn version_round_trip() {
    let mut p = Packet::new();
    p.set_version(7);
    assert_eq!(7, p.get_version());
}

#[test]
fn fields_do_not_disturb_each_other() {
    let mut p = Packet::new();
    p.set_command_id(message_type::retrieve_info());
    p.set_version(1);
    p.set_data_flags(DataFlags::from_bits(1095).unwrap());
    p.set_serial_number("abc");
    p.set_sensor1_reading(Some(33200000));
    p.set_sensor2_reading(None);
    p.set_battery_volts(2900);
    p.apply_checksum();
    assert_eq!(message_type::retrieve_info(), p.get_command_id());
    assert_eq!(1, p.get_version());
    assert_eq!(1095, p.get_data_flags().raw_bits());
    assert_eq!("abc", p.get_serial_number());
    assert_eq!(Some(33200000), p.get_sensor1_reading());
    assert_eq!(None, p.get_sensor2_reading());
    assert_eq!(2900, p.get_battery_volts());
    assert!(p.is_checksum_valid());
}

#[test]
fn temp_packet_is_a_valid_temperature_poll() {
    let p = Packet::temp_packet();
    assert_eq!(message_type::retrieve_info(), p.get_command_id());
    assert_eq!(1, p.get_version());
    assert_eq!(68, p.get_data_flags().raw_bits());
    assert!(p.is_checksum_valid());
}

#[test]
fn default_packet_asks_for_default_selection() {
    let p = Packet::default();
    assert_eq!(message_type::retrieve_info(), p.get_command_id());
    assert_eq!(1, p.get_version());
    assert_eq!(1095, p.get_data_flags().raw_bits());
    assert!(p.is_checksum_valid());
}

#[test]
fn new_packet_is_all_zeros() {
    let p = Packet::new();
    assert!(p.data.iter().all(|b| *b == 0));
}

#[test]
fn from_bytes_pads_and_truncates() {
    let p = Packet::from_bytes(&[7u8; 5]);
    assert_eq!([7u8; 5], p.data[0..5]);
    assert!(p.data[5..].iter().all(|b| *b == 0));
    let long = [9u8; 200];
    let q = Packet::from_bytes(&long);
    assert!(q.data.iter().all(|b| *b == 9));
}
