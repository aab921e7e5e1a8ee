//! Payload codecs: exact wire images, parse/serialize round-trips, length
//! rejection, size-polymorphic dispatch and the dispatcher's error echo.

use e_drone::communication::handler;
use e_drone::protocol::control::{Position, Position16, Quad8, Quad8AndRequestData};
use e_drone::protocol::display::{DrawString, Font, Pixel};
use e_drone::protocol::monitor::{Monitor0, Monitor8};
use e_drone::protocol::{Data, DataType, Header, Information, Ping, Request, Update};
use e_drone::system::{DeviceType, ModeUpdate, ModelNumber, Version};

fn header(data_type: DataType, length: u8) -> Header {
    Header {
        data_type,
        length,
        from: DeviceType::Base,
        to: DeviceType::Drone,
    }
}

#[test]
fn ping_roundtrip() {
    let ping = Ping {
        system_time: 0x0102030405060708,
    };
    let bytes = ping.to_vec();
    assert_eq!(bytes, vec![0x08, 0x07, 0x06, 0x05, 0x04, 0x03, 0x02, 0x01]);
    let parsed = Ping::parse(&bytes).unwrap();
    assert_eq!(parsed.system_time, ping.system_time);
    assert!(Ping::parse(&bytes[..7]).is_err());
}

#[test]
fn quad8_wire_image() {
    let quad = Quad8 {
        roll: 10,
        pitch: -5,
        yaw: 0,
        throttle: 100,
    };
    assert_eq!(quad.to_vec(), vec![0x0A, 0xFB, 0x00, 0x64]);
    let parsed = Quad8::parse(&[0x0A, 0xFB, 0x00, 0x64]).unwrap();
    assert_eq!(parsed, quad);
}

#[test]
fn control_size_polymorphism() {
    // Length 4 decodes to Quad8
    let d4 = handler::check(&header(DataType::Control, 4), &vec![0x0A, 0xFB, 0x00, 0x64]);
    assert!(matches!(d4, Data::Quad8(_)));
    // Length 5 decodes to Quad8AndRequestData
    let d5 = handler::check(
        &header(DataType::Control, 5),
        &vec![0x0A, 0xFB, 0x00, 0x64, 0x41],
    );
    match d5 {
        Data::Quad8AndRequestData(v) => assert!(matches!(v.data_type, DataType::Attitude)),
        _ => panic!("expected quad8-and-request"),
    }
    // Length 12 decodes to Position16
    let d12 = handler::check(&header(DataType::Control, 12), &vec![0; 12]);
    assert!(matches!(d12, Data::ControlPosition16(_)));
    // Length 20 decodes to Position
    let d20 = handler::check(&header(DataType::Control, 20), &vec![0; 20]);
    assert!(matches!(d20, Data::ControlPosition(_)));
    // Length 7 matches nothing and comes back as the error echo
    let d7 = handler::check(&header(DataType::Control, 7), &vec![0; 7]);
    assert!(matches!(d7, Data::ErrorMessage(_)));
}

#[test]
fn position16_roundtrip() {
    let p = Position16 {
        position_x: -1000,
        position_y: 2000,
        position_z: -3,
        velocity: 150,
        heading: 359,
        rotational_velocity: -90,
    };
    let parsed = Position16::parse(&p.to_vec()).unwrap();
    assert_eq!(parsed, p);
}

#[test]
fn position_float_bits_roundtrip() {
    let p = Position {
        x: 1.5f32.to_bits(),
        y: (-2.25f32).to_bits(),
        z: 0.0f32.to_bits(),
        velocity: 2.0f32.to_bits(),
        heading: 180,
        rotational_velocity: -45,
    };
    let bytes = p.to_vec();
    assert_eq!(bytes.len(), 20);
    assert_eq!(&bytes[0..4], &1.5f32.to_le_bytes());
    let parsed = Position::parse(&bytes).unwrap();
    assert_eq!(parsed, p);
    assert_eq!(f32::from_bits(parsed.x), 1.5);
}

#[test]
fn size_mismatch_is_error_echo() {
    // header claims length 3 for the control kind, with a 3-byte payload:
    // no control shape is 3 bytes long
    let d = handler::check(&header(DataType::Control, 3), &vec![0x00, 0x00, 0x00]);
    match d {
        Data::ErrorMessage(e) => {
            assert!(matches!(e.data_type, DataType::Control));
            assert_eq!(e.length, 3);
            assert_eq!(e.vec_data, vec![0x00, 0x00, 0x00]);
        },
        _ => panic!("expected the error echo"),
    }
    // header length that contradicts the payload length is also the echo
    let d2 = handler::check(&header(DataType::Ping, 8), &vec![0x00; 4]);
    assert!(matches!(d2, Data::ErrorMessage(_)));
}

#[test]
fn information_exact_payload() {
    let payload: Vec<u8> = vec![
        0x01, 0x01, 0x10, 0x03, 0x00, 0x01, 0x00, 0x01, 0x15, 0xE5, 0x07, 0x03, 0x05,
    ];
    let info = Information::parse(&payload).unwrap();
    assert!(matches!(info.mode_update, ModeUpdate::Ready));
    assert!(matches!(info.model_number, ModelNumber::Drone3DroneP1));
    assert_eq!(info.version.major, 21);
    assert_eq!(info.version.minor, 1);
    assert_eq!(info.version.build, 1);
    assert_eq!(info.year, 2021);
    assert_eq!(info.month, 3);
    assert_eq!(info.day, 5);
    assert_eq!(info.to_vec(), payload);
    let d = handler::check(&header(DataType::Information, 13), &payload);
    assert!(matches!(d, Data::Information(_)));
}

#[test]
fn drawstring_exact_payload() {
    let payload: Vec<u8> = vec![0x01, 0x00, 0x02, 0x00, 0x00, 0x01, 0x48, 0x69];
    let d = handler::check(&header(DataType::DisplayDrawString, 8), &payload);
    match d {
        Data::DisplayDrawString(v) => {
            assert_eq!(v.x, 1);
            assert_eq!(v.y, 2);
            assert!(matches!(v.font, Font::LM5x8));
            assert!(matches!(v.pixel, Pixel::White));
            assert_eq!(v.string, b"Hi".to_vec());
        },
        _ => panic!("expected a draw-string"),
    }
    let value = DrawString {
        x: 1,
        y: 2,
        font: Font::LM5x8,
        pixel: Pixel::White,
        string: b"Hi".to_vec(),
    };
    assert_eq!(value.to_vec(), payload);
    assert_eq!(value.get_length(), 8);
    // a draw-string needs at least one text byte
    assert!(DrawString::parse(&payload[..6]).is_err());
}

#[test]
fn update_roundtrip() {
    let update = Update {
        index_block_next: 0x0203,
        vec_data: vec![0xAA; 16],
    };
    let bytes = update.to_vec();
    assert_eq!(bytes.len(), 18);
    assert_eq!(&bytes[0..2], &[0x03, 0x02]);
    let parsed = Update::parse(&bytes).unwrap();
    assert_eq!(parsed.index_block_next, 0x0203);
    assert_eq!(parsed.vec_data, vec![0xAA; 16]);
    assert_eq!(parsed.get_length(), 18);
    // exactly the two index bytes is not enough: a block must follow
    assert!(Update::parse(&bytes[..2]).is_err());
}

#[test]
fn request_both_sizes() {
    let r1 = Request {
        data_type: DataType::State,
    };
    assert_eq!(r1.to_vec(), vec![0x40]);
    let d1 = handler::check(&header(DataType::Request, 1), &vec![0x40]);
    assert!(matches!(d1, Data::Request(_)));
    let d5 = handler::check(
        &header(DataType::Request, 5),
        &vec![0x40, 0x01, 0x00, 0x00, 0x00],
    );
    assert!(matches!(d5, Data::RequestOption(_)));
}

#[test]
fn monitor_parse_and_roundtrip() {
    // sub-header byte 0x00 picks Monitor0; payload: kind U16, page 7, values
    // 0x0201 and 0x0403
    let payload: Vec<u8> = vec![0x00, 0x02, 0x07, 0x01, 0x02, 0x03, 0x04];
    let d = handler::check(&header(DataType::Monitor, 7), &payload);
    match d {
        Data::Monitor0(m) => {
            assert_eq!(m.index, 7);
            assert_eq!(m.vec_value, vec![0x0201, 0x0403]);
            assert_eq!(m.get_length(), 6);
            assert_eq!(m.to_vec(), payload[1..].to_vec());
        },
        _ => panic!("expected a monitor record"),
    }
    // a trailing partial value is dropped, not spun on
    let ragged = Monitor0::parse(&[0x02, 0x07, 0x01, 0x02, 0x03]).unwrap();
    assert_eq!(ragged.vec_value, vec![0x0201]);
    // the 64-bit variant carries its timestamp in front
    let m8 = Monitor8 {
        system_time: 0x1122334455667788,
        data_type: e_drone::protocol::monitor::DataType::F64,
        index: 1,
        vec_value: vec![2.5f64.to_bits()],
    };
    let bytes = m8.to_vec();
    assert_eq!(bytes.len(), 18);
    let parsed = Monitor8::parse(&bytes).unwrap();
    assert_eq!(parsed.system_time, m8.system_time);
    assert_eq!(parsed.vec_value, m8.vec_value);
    assert_eq!(f64::from_bits(parsed.vec_value[0]), 2.5);
}

#[test]
fn quad8_and_request_roundtrip() {
    let v = Quad8AndRequestData {
        roll: -128,
        pitch: 127,
        yaw: 1,
        throttle: -1,
        data_type: DataType::Motion,
    };
    let parsed = Quad8AndRequestData::parse(&v.to_vec()).unwrap();
    assert_eq!(parsed, v);
}

#[test]
fn version_packing() {
    let v = Version {
        build: 1,
        minor: 1,
        major: 21,
    };
    assert_eq!(v.to_u32(), 0x15010001);
    let back = Version::from_u32(0x15010001);
    assert_eq!(back, v);
    assert_eq!(v.to_vec(), vec![0x01, 0x00, 0x01, 0x15]);
    let from_bytes = Version::from_slice(&[0x01, 0x00, 0x01, 0x15]);
    assert_eq!(from_bytes, v);
    assert_eq!(
        Version::from_slice(&[1, 2]),
        Version {
            build: 1,
            minor: 1,
            major: 21
        }
    );
}
