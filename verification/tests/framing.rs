//! End-to-end framing behaviour: CRC values, frame acceptance and rejection,
//! resynchronisation after garbage, the inter-byte stall, and the dispatch of
//! whole frames.

use e_drone::communication::crc16;
use e_drone::communication::handler;
use e_drone::communication::messaging::State;
use e_drone::communication::receiver::Receiver;
use e_drone::communication::transfer;
use e_drone::protocol::{Data, DataType};
use e_drone::system::DeviceType;

const PING_FRAME: [u8; 16] = [
    0x0A, 0x55, 0x01, 0x08, 0x70, 0x10, 0x08, 0x07, 0x06, 0x05, 0x04, 0x03, 0x02, 0x01, 0x4E,
    0x61,
];

#[test]
fn it_works() {
    assert_eq!(2 + 2, 4);
}

#[test]
fn crc16_known_values() {
    assert_eq!(crc16::calc_byte(0, 0xA5), 0xE54F);
    let header_and_payload = &PING_FRAME[2..14];
    assert_eq!(crc16::calc_array(0, header_and_payload), 0x614E);
    assert_eq!(crc16::calc_array(0, &[]), 0);
}

#[test]
fn build_ping_frame_bytes() {
    let payload: Vec<u8> = vec![0x08, 0x07, 0x06, 0x05, 0x04, 0x03, 0x02, 0x01];
    let frame = transfer::transfer(
        DataType::Ping,
        DeviceType::Base,
        DeviceType::Drone,
        &payload,
    );
    assert_eq!(frame, PING_FRAME.to_vec());
}

#[test]
fn receive_ping_frame() {
    let mut receiver = Receiver::new();
    receiver.push_slice(&PING_FRAME);
    let state = receiver.check(0);
    assert!(matches!(state, State::Loaded));
    let header = receiver.get_header();
    assert!(matches!(header.data_type, DataType::Ping));
    assert_eq!(header.length, 8);
    assert!(matches!(header.from, DeviceType::Base));
    assert!(matches!(header.to, DeviceType::Drone));
    assert_eq!(
        receiver.get_data().clone(),
        vec![0x08, 0x07, 0x06, 0x05, 0x04, 0x03, 0x02, 0x01]
    );
    assert_eq!(receiver.get_data_all().clone(), PING_FRAME.to_vec());
    assert!(receiver.is_connected());
    let data = handler::check(&header, receiver.get_data());
    match data {
        Data::Ping(p) => assert_eq!(p.system_time, 0x0102030405060708),
        _ => panic!("expected a ping"),
    }
    receiver.clear();
    assert!(matches!(receiver.get_state(), State::Ready));
}

#[test]
fn crc_corruption_never_loads() {
    // flip the low bit of the low CRC byte of the ping frame
    let mut corrupted = PING_FRAME.to_vec();
    corrupted[14] ^= 0x01;
    let mut receiver = Receiver::new();
    receiver.push_slice(&corrupted);
    let state = receiver.check(0);
    assert!(!matches!(state, State::Loaded));
    assert!(matches!(state, State::Ready));
    assert!(!receiver.is_connected());
}

#[test]
fn payload_bit_flip_never_loads() {
    for i in 6..14 {
        for bit in 0..8 {
            let mut corrupted = PING_FRAME.to_vec();
            corrupted[i] ^= 1 << bit;
            let mut receiver = Receiver::new();
            receiver.push_slice(&corrupted);
            assert!(!matches!(receiver.check(0), State::Loaded));
        }
    }
}

#[test]
fn header_byte_corruption_never_loads() {
    // 0x01 (ping) flipped to 0x00 still names a defined kind, but the CRC no
    // longer matches
    let mut corrupted = PING_FRAME.to_vec();
    corrupted[2] = 0x00;
    let mut receiver = Receiver::new();
    receiver.push_slice(&corrupted);
    assert!(!matches!(receiver.check(0), State::Loaded));
    // the sender byte flipped to another defined device is caught the same way
    let mut corrupted2 = PING_FRAME.to_vec();
    corrupted2[4] = 0x20;
    receiver.clear_all();
    receiver.push_slice(&corrupted2);
    assert!(!matches!(receiver.check(0), State::Loaded));
}

#[test]
fn resync_after_garbage() {
    let mut stream: Vec<u8> = vec![0x17, 0x00, 0xFF, 0x55, 0x99];
    stream.extend_from_slice(&PING_FRAME);
    let mut receiver = Receiver::new();
    receiver.push_slice(&stream);
    let state = receiver.check(0);
    assert!(matches!(state, State::Loaded));
    assert_eq!(
        receiver.get_data().clone(),
        vec![0x08, 0x07, 0x06, 0x05, 0x04, 0x03, 0x02, 0x01]
    );
    assert!(receiver.is_buffer_cleared());
}

#[test]
fn stall_discards_partial_frame() {
    let mut receiver = Receiver::new();
    // half a frame at t = 0
    receiver.push_slice(&PING_FRAME[..7]);
    assert!(matches!(receiver.check(0), State::Receiving));
    // the rest arrives 31 ms later: the partial frame is discarded and the
    // late bytes cannot form a frame of their own
    receiver.push_slice(&PING_FRAME[7..]);
    assert!(!matches!(receiver.check(31), State::Loaded));
    // the same frame sent promptly afterwards still loads
    receiver.push_slice(&PING_FRAME);
    assert!(matches!(receiver.check(31), State::Loaded));
}

#[test]
fn gap_within_bound_keeps_partial_frame() {
    let mut receiver = Receiver::new();
    receiver.push_slice(&PING_FRAME[..7]);
    assert!(matches!(receiver.check(0), State::Receiving));
    receiver.push_slice(&PING_FRAME[7..]);
    assert!(matches!(receiver.check(30), State::Loaded));
}

#[test]
fn liveness_flag_drops_after_quiet_period() {
    let mut receiver = Receiver::new();
    receiver.push_slice(&PING_FRAME);
    assert!(matches!(receiver.check(5), State::Loaded));
    assert!(receiver.is_connected());
    receiver.clear();
    // 1200 ms after the frame start the link still counts as alive
    assert!(matches!(receiver.check(1205), State::Ready));
    assert!(receiver.is_connected());
    // beyond 1200 ms it does not
    assert!(matches!(receiver.check(1206), State::Ready));
    assert!(!receiver.is_connected());
}

#[test]
fn unknown_header_bytes_reject_frame() {
    // 0x05 is a defined kind (Message) but 0x99 is not a defined DataType
    let mut frame: Vec<u8> = vec![0x0A, 0x55, 0x99, 0x00, 0x70, 0x10];
    let crc = crc16::calc_array(0, &frame[2..]);
    frame.push((crc & 0xFF) as u8);
    frame.push((crc >> 8) as u8);
    let mut receiver = Receiver::new();
    receiver.push_slice(&frame);
    assert!(!matches!(receiver.check(0), State::Loaded));
}

#[test]
fn quad8_frame_dispatch() {
    let frame: Vec<u8> = vec![
        0x0A, 0x55, 0x10, 0x04, 0x70, 0x10, 0x0A, 0xFB, 0x00, 0x64, 0x9E, 0xEA,
    ];
    let mut receiver = Receiver::new();
    receiver.push_slice(&frame);
    assert!(matches!(receiver.check(0), State::Loaded));
    let header = receiver.get_header();
    let data = handler::check(&header, receiver.get_data());
    match data {
        Data::Quad8(q) => {
            assert_eq!(q.roll, 10);
            assert_eq!(q.pitch, -5);
            assert_eq!(q.yaw, 0);
            assert_eq!(q.throttle, 100);
        },
        _ => panic!("expected a quad8"),
    }
}

#[test]
fn two_frames_back_to_back() {
    let mut receiver = Receiver::new();
    receiver.push_slice(&PING_FRAME);
    receiver.push_slice(&PING_FRAME);
    assert!(matches!(receiver.check(0), State::Loaded));
    // the second frame waits in the queue until the first is cleared
    assert!(!receiver.is_buffer_cleared());
    receiver.clear();
    assert!(matches!(receiver.check(0), State::Loaded));
    assert!(receiver.is_buffer_cleared());
}

#[test]
fn clear_all_resets_everything() {
    let mut receiver = Receiver::new();
    receiver.push_slice(&PING_FRAME);
    assert!(matches!(receiver.check(0), State::Loaded));
    receiver.clear_all();
    assert!(matches!(receiver.get_state(), State::Ready));
    assert!(receiver.is_buffer_cleared());
    assert!(!receiver.is_connected());
    assert_eq!(receiver.get_data().len(), 0);
    assert_eq!(receiver.get_data_all().len(), 0);
}
