//! Totality of the enum conversions, the builders' exact frames, and the
//! firmware-image container.

use e_drone::communication::crc16;
use e_drone::communication::transfer;
use e_drone::file::{EncryptedBinary, EncryptedBinaryHeader};
use e_drone::protocol::command::CommandType;
use e_drone::protocol::display::Pixel;
use e_drone::protocol::{buzzer, light, DataType};
use e_drone::protocol::card::{Classify, ListCard, Raw};
use e_drone::system::{DeviceType, FlightEvent, Headless, ModeUpdate, ModelNumber};

#[test]
fn enum_decode_is_total() {
    // every undefined u8 maps to the fallback variant, and no conversion
    // panics anywhere in the byte range
    for b in 0u16..=255 {
        let b = b as u8;
        let dt = DataType::from_u8(b);
        if dt.to_u8() != b {
            assert!(matches!(dt, DataType::Nil));
        }
        let dev = DeviceType::from_u8(b);
        if dev.to_u8() != b {
            assert!(matches!(dev, DeviceType::Nil));
        }
        let md = ModeUpdate::from_u8(b);
        if md.to_u8() != b {
            assert!(matches!(md, ModeUpdate::Nil));
        }
        let fe = FlightEvent::from_u8(b);
        if fe.to_u8() != b {
            assert!(matches!(fe, FlightEvent::Nil));
        }
        let pixel = Pixel::from_u8(b);
        if pixel.to_u8() != b {
            assert!(matches!(pixel, Pixel::Black));
        }
        let mode = buzzer::Mode::from_u8(b);
        if mode.to_u8() != b {
            assert!(matches!(mode, buzzer::Mode::Stop));
        }
    }
    // a u32-backed example, around and beyond the defined set
    assert!(matches!(
        ModelNumber::from_u32(0x00031001),
        ModelNumber::Drone3DroneP1
    ));
    assert!(matches!(
        ModelNumber::from_u32(0xDEADBEEF),
        ModelNumber::Nil
    ));
    assert!(matches!(
        buzzer::Scale::from_u16(0x1234),
        buzzer::Scale::Mute
    ));
    assert!(matches!(buzzer::Scale::from_u16(12), buzzer::Scale::C2));
}

#[test]
fn defined_codes_roundtrip() {
    assert_eq!(DataType::from_u8(0x86).to_u8(), 0x86);
    assert!(matches!(
        DataType::from_u8(0x86),
        DataType::DisplayDrawString
    ));
    assert_eq!(DeviceType::from_u8(0xFF).to_u8(), 0xFF);
    assert!(matches!(DeviceType::from_u8(0xFF), DeviceType::Broadcasting));
    assert!(matches!(DeviceType::from_u8(0xFE), DeviceType::Whispering));
    let model = ModelNumber::Drone4ControllerP3;
    assert!(matches!(model.get_device_type(), DeviceType::Controller));
}

#[test]
fn builders_emit_valid_frames() {
    let frame = transfer::takeoff();
    // start marker, header, 2-byte payload, CRC
    assert_eq!(frame.len(), 10);
    assert_eq!(&frame[..2], &[0x0A, 0x55]);
    assert_eq!(&frame[2..6], &[0x11, 0x02, 0x70, 0x10]);
    assert_eq!(&frame[6..8], &[0x07, 0x11]);
    let crc = crc16::calc_array(0, &frame[2..8]);
    assert_eq!(&frame[8..], &[(crc & 0xFF) as u8, (crc >> 8) as u8]);

    let control = transfer::control(10, -5, 0, 100);
    assert_eq!(&control[2..6], &[0x10, 0x04, 0x70, 0x10]);
    assert_eq!(&control[6..10], &[0x0A, 0xFB, 0x00, 0x64]);

    let light = transfer::light_manual(DeviceType::Drone, 0x00FF, 128);
    assert_eq!(&light[2..6], &[0x20, 0x03, 0x70, 0x10]);
    assert_eq!(&light[6..9], &[0xFF, 0x00, 0x80]);

    let buzz = transfer::buzzer_hz(DeviceType::Controller, 440, 1000);
    assert_eq!(&buzz[2..6], &[0x62, 0x05, 0x70, 0x20]);
    assert_eq!(&buzz[6..11], &[0x05, 0xB8, 0x01, 0xE8, 0x03]);

    let headless = transfer::headless(Headless::Headless);
    assert_eq!(&headless[6..8], &[0x03, 0x01]);

    let cmd = transfer::command(DeviceType::Drone, CommandType::ClearBias, 0);
    assert_eq!(&cmd[6..8], &[0x05, 0x00]);

    let text = transfer::draw_string(1, 2,
        e_drone::protocol::display::Font::LM5x8, Pixel::White, b"Hi".to_vec());
    assert_eq!(&text[2..6], &[0x86, 0x08, 0x70, 0x20]);
    assert_eq!(&text[6..14], &[0x01, 0x00, 0x02, 0x00, 0x00, 0x01, 0x48, 0x69]);

    let colored = transfer::light_mode_color(DeviceType::Drone, 0x21, 5, 1, 2, 3);
    assert_eq!(&colored[6..12], &[0x21, 0x05, 0x00, 0x01, 0x02, 0x03]);
}

#[test]
fn light_payloads_roundtrip() {
    let ec = light::EventColor {
        event: light::Event {
            event: 0x22,
            interval: 500,
            repeat: 3,
        },
        color: light::Color { r: 1, g: 2, b: 3 },
    };
    let bytes = ec.to_vec();
    assert_eq!(bytes.len(), 7);
    let parsed = light::EventColor::parse(&bytes).unwrap();
    assert_eq!(parsed, ec);
}

#[test]
fn firmware_container_blocks() {
    let mut image: Vec<u8> = Vec::new();
    let header = EncryptedBinaryHeader {
        model_number: ModelNumber::Drone8DroneP1,
        version: e_drone::system::Version {
            build: 7,
            minor: 2,
            major: 1,
        },
        length: 48,
        year: 2021,
        month: 6,
        day: 15,
    };
    image.extend_from_slice(&header.to_vec());
    for i in 0..48 {
        image.push(i as u8);
    }
    let mut binary = EncryptedBinary::new();
    assert!(binary.load(image.clone()));
    assert!(binary.flag_open);
    assert!(matches!(
        binary.header.model_number,
        ModelNumber::Drone8DroneP1
    ));
    assert_eq!(binary.header.length, 48);
    assert_eq!(binary.get_length(), 64);
    // block 1 is the first body block: bytes 16..32 of the file
    let block = binary.get_data_block(1, 1).unwrap();
    assert_eq!(block, image[16..32].to_vec());
    // a two-block read runs to the end of the file
    let rest = binary.get_data_block(3, 2).unwrap();
    assert_eq!(rest, image[48..].to_vec());
    // a block past the end is refused
    assert!(binary.get_data_block(4, 1).is_none());
    // a header-only image (exactly 16 bytes, empty body) still opens
    let mut header_only = EncryptedBinary::new();
    assert!(header_only.load(image[..16].to_vec()));
    assert!(header_only.flag_open);
    assert_eq!(header_only.get_length(), 16);
    assert!(header_only.get_data_block(1, 1).is_none());
    // anything shorter than a header does not open
    let mut short = EncryptedBinary::new();
    assert!(!short.load(vec![0; 15]));
    assert!(!short.flag_open);
}

#[test]
fn card_payloads_roundtrip() {
    let classify = Classify {
        index: 2,
        cc: (0..36).map(|i| i as i8 - 18).collect(),
        l: vec![-3, 3],
    };
    let bytes = classify.to_vec();
    assert_eq!(bytes.len(), 39);
    let parsed = Classify::parse(&bytes).unwrap();
    assert_eq!(parsed.len(), 1);
    assert_eq!(parsed[0].index, 2);
    assert_eq!(parsed[0].cc, classify.cc);
    assert_eq!(parsed[0].l, classify.l);
    // two records back to back
    let mut twice = bytes.clone();
    twice.extend_from_slice(&bytes);
    assert_eq!(Classify::parse(&twice).unwrap().len(), 2);
    // a ragged length is refused
    assert!(Classify::parse(&bytes[..38]).is_err());

    let raw = Raw {
        raw: vec![-1, 2, -3, 4, -5, 6],
        rgb: vec![10, 20, 30, 40, 50, 60],
        hsvl: vec![1, 2, 3, 4, 5, 6, 7, 8],
        color: vec![1, 2],
        card: 9,
    };
    let raw_bytes = raw.to_vec();
    assert_eq!(raw_bytes.len(), 37);
    let raw_parsed = Raw::parse(&raw_bytes).unwrap();
    assert_eq!(raw_parsed.raw, raw.raw);
    assert_eq!(raw_parsed.card, 9);

    let list = ListCard {
        index_run: 1,
        total_size: 2,
        index: 0,
        card: vec![5, 6, 7],
    };
    let list_bytes = list.to_vec();
    assert_eq!(list.get_length(), 6);
    let list_parsed = ListCard::parse(&list_bytes).unwrap();
    assert_eq!(list_parsed.card, vec![5, 6, 7]);
}
