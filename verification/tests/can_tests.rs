use heapless::Vec;
use joint_firmware::firmware::drivers::can::{
    CanCommand, CanFrame, DEFAULT_NODE_ID, MAX_DATA_LEN,
};
use joint_firmware::firmware::tasks::can_comm::{process_command, CommandResponse};

#[test]
fn can_command_conversion() {
    assert_eq!(CanCommand::try_from(0x01), Ok(CanCommand::SetPosition));
    assert_eq!(CanCommand::try_from(0xFF), Ok(CanCommand::EmergencyStop));
    assert_eq!(CanCommand::try_from(0x99), Err(()));
}

#[test]
fn can_frame_parse_command() {
    let frame = CanFrame::new(0x01).with_data(&[0x01, 0x00, 0x00, 0x00]);
    assert_eq!(frame.parse_command(), Ok(CanCommand::SetPosition));
}

#[test]
fn can_frame_get_i32() {
    let mut data = Vec::<u8, MAX_DATA_LEN>::new();
    data.push(0x01).ok(); // Command
    data.extend_from_slice(&12345i32.to_le_bytes()).ok();

    let frame = CanFrame { id: 0x01, data };
    assert_eq!(frame.get_i32(1), Some(12345));
}

#[test]
fn node_id_default() {
    assert_eq!(DEFAULT_NODE_ID, 0x01);
}

#[test]
fn process_set_position() {
    let mut data = Vec::new();
    data.push(CanCommand::SetPosition.id()).ok();
    data.extend_from_slice(&1000i32.to_le_bytes()).ok();

    let frame = CanFrame { id: 0x01, data };
    let response = process_command(&frame);

    assert_eq!(response, Ok(CommandResponse::Ack));
}

#[test]
fn process_get_status() {
    let frame = CanFrame::new(0x01).with_data(&[CanCommand::GetStatus.id()]);
    let response = process_command(&frame);

    assert!(matches!(response, Ok(CommandResponse::Status { .. })));
}

#[test]
fn process_emergency_stop() {
    let frame = CanFrame::new(0x01).with_data(&[CanCommand::EmergencyStop.id()]);
    let response = process_command(&frame);

    assert_eq!(response, Ok(CommandResponse::Ack));
}

#[test]
fn process_invalid_command() {
    let frame = CanFrame::new(0x01).with_data(&[0x99]);
    let response = process_command(&frame);

    assert_eq!(response, Err(()));
}

#[test]
fn every_command_has_its_byte() {
    let table = [
        (CanCommand::SetPosition, 0x01u8),
        (CanCommand::SetVelocity, 0x02),
        (CanCommand::SetTorque, 0x03),
        (CanCommand::GetStatus, 0x10),
        (CanCommand::GetTelemetry, 0x11),
        (CanCommand::Calibrate, 0x20),
        (CanCommand::EmergencyStop, 0xFF),
    ];
    for (command, byte) in table {
        assert_eq!(command.id(), byte);
        assert_eq!(CanCommand::try_from(byte), Ok(command));
    }
    let known = (0..=255u8).filter(|b| CanCommand::try_from(*b).is_ok()).count();
    assert_eq!(known, 7);
}

#[test]
fn a_new_frame_is_empty() {
    let frame = CanFrame::new(0x42);
    assert_eq!(frame.id, 0x42);
    assert_eq!(frame.data.len(), 0);
    assert_eq!(frame.parse_command(), Err(()));
    assert_eq!(frame.get_i32(0), None);
}

#[test]
fn data_is_appended_in_order() {
    let frame = CanFrame::new(7).with_data(&[0x10, 1, 2]).with_data(&[3, 4]);
    assert_eq!(frame.id, 7);
    assert_eq!(frame.data.as_slice(), &[0x10, 1, 2, 3, 4]);
    assert_eq!(frame.parse_command(), Ok(CanCommand::GetStatus));
}

#[test]
fn data_that_does_not_fit_is_left_out_whole() {
    let full = [0x03u8; 64];
    let frame = CanFrame::new(1).with_data(&full);
    assert_eq!(frame.data.len(), 64);
    let same = frame.with_data(&[9]);
    assert_eq!(same.data.len(), 64);
    assert_eq!(same.data[63], 0x03);
    let partly = CanFrame::new(1).with_data(&[1, 2, 3]).with_data(&[0u8; 62]);
    assert_eq!(partly.data.as_slice(), &[1, 2, 3]);
}

#[test]
fn parameters_are_little_endian_and_signed() {
    let frame = CanFrame::new(1).with_data(&[0x02, 0xFE, 0xFF, 0xFF, 0xFF, 0x00, 0x00, 0x00, 0x80]);
    assert_eq!(frame.get_i32(1), Some(-2));
    assert_eq!(frame.get_i32(5), Some(i32::MIN));
    assert_eq!(frame.get_i32(0), Some(i32::from_le_bytes([0x02, 0xFE, 0xFF, 0xFF])));
    assert_eq!(frame.get_i32(2), Some(i32::from_le_bytes([0xFF, 0xFF, 0xFF, 0x00])));
    let top = CanFrame::new(1).with_data(&[0xFF, 0xFF, 0xFF, 0x7F]);
    assert_eq!(top.get_i32(0), Some(i32::MAX));
}

#[test]
fn a_parameter_needs_four_bytes() {
    let frame = CanFrame::new(1).with_data(&[0x01, 1, 2, 3]);
    assert_eq!(frame.get_i32(0), Some(0x0302_0101));
    assert_eq!(frame.get_i32(1), None);
    assert_eq!(frame.get_i32(4), None);
    assert_eq!(frame.get_i32(usize::MAX), None);
    assert_eq!(frame.get_i32(usize::MAX - 3), None);
}

#[test]
fn a_target_without_its_parameter_is_refused() {
    for command in [CanCommand::SetPosition, CanCommand::SetVelocity, CanCommand::SetTorque] {
        let short = CanFrame::new(1).with_data(&[command.id(), 1, 2, 3]);
        assert_eq!(process_command(&short), Err(()));
        let whole = CanFrame::new(1).with_data(&[command.id(), 1, 2, 3, 4]);
        assert_eq!(process_command(&whole), Ok(CommandResponse::Ack));
    }
    assert_eq!(process_command(&CanFrame::new(1)), Err(()));
}

#[test]
fn requests_are_answered_with_fixed_values() {
    let status = CanFrame::new(1).with_data(&[0x10]);
    assert_eq!(process_command(&status), Ok(CommandResponse::Status { state: 1, error: 0 }));
    let telemetry = CanFrame::new(1).with_data(&[0x11]);
    assert_eq!(
        process_command(&telemetry),
        Ok(CommandResponse::Telemetry { position: 0, velocity: 0, current: 0, voltage: 0 })
    );
    let calibrate = CanFrame::new(1).with_data(&[0x20]);
    assert_eq!(process_command(&calibrate), Ok(CommandResponse::Ack));
}

#[test]
fn a_status_frame_carries_state_and_error() {
    let frame = CanFrame::status_frame(0x21, 3, 9);
    assert_eq!(frame.id, 0x21);
    assert_eq!(frame.data.as_slice(), &[0x10, 3, 9]);
    assert_eq!(frame.parse_command(), Ok(CanCommand::GetStatus));
}

#[test]
fn a_telemetry_frame_reads_back_what_it_was_made_of() {
    let frame = CanFrame::telemetry_frame(0x21, -123_456, i32::MAX, -2, 48_000);
    assert_eq!(frame.id, 0x21);
    assert_eq!(frame.data.len(), 13);
    assert_eq!(frame.parse_command(), Ok(CanCommand::GetTelemetry));
    assert_eq!(frame.get_i32(1), Some(-123_456));
    assert_eq!(frame.get_i32(5), Some(i32::MAX));
    let mut expected: std::vec::Vec<u8> = vec![0x11];
    expected.extend_from_slice(&(-123_456i32).to_le_bytes());
    expected.extend_from_slice(&i32::MAX.to_le_bytes());
    expected.extend_from_slice(&(-2i16).to_le_bytes());
    expected.extend_from_slice(&48_000u16.to_le_bytes());
    assert_eq!(frame.data.as_slice(), expected.as_slice());
    let low = CanFrame::telemetry_frame(1, i32::MIN, -1, i16::MIN, u16::MAX);
    assert_eq!(low.get_i32(1), Some(i32::MIN));
    assert_eq!(low.get_i32(5), Some(-1));
    assert_eq!(&low.data[9..13], &[0x00, 0x80, 0xFF, 0xFF]);
}
