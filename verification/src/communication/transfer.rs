//! The outbound frame builder: start marker, header, payload and CRC16, plus
//! one convenience builder per common outbound message.

use crate::communication::crc16;
use crate::communication::serializer::{add_slice, add_u8};
use crate::protocol::battle;
use crate::protocol::buzzer;
use crate::protocol::command::{Command, CommandType};
use crate::protocol::communication;
use crate::protocol::control;
use crate::protocol::display::{Align, Clear, ClearAll, DrawCircle, DrawImage, DrawLine,
    DrawPoint, DrawRect, DrawString, DrawStringAlign, Font, Invert, Line, Pixel};
use crate::protocol::light;
use crate::protocol::sensor;
use crate::protocol::vibrator;
use crate::protocol::{DataType, Header, Request};
use crate::system::{DeviceType, FlightEvent, Headless};
use vstd::bytes::*;
use vstd::prelude::*;
use vstd::slice::slice_subrange;

verus! {

/// The header bytes a frame built from these arguments carries.
pub open spec fn spec_frame_header(
    data_type: DataType,
    from: DeviceType,
    to: DeviceType,
    data: Seq<u8>,
) -> Seq<u8> {
    seq![data_type.code(), data.len() as u8, from.code(), to.code()]
}

/// The full wire image of one outbound frame: start marker, header, payload,
/// CRC16 little-endian over header and payload.
pub open spec fn spec_frame(
    data_type: DataType,
    from: DeviceType,
    to: DeviceType,
    data: Seq<u8>,
) -> Seq<u8> {
    let body = spec_frame_header(data_type, from, to, data) + data;
    seq![0x0Au8, 0x55u8] + body + spec_u16_to_le_bytes(crc16::spec_crc16(0, body))
}

/// A fresh frame: just the two start-marker bytes.
pub fn start() -> (r: Vec<u8>)
    ensures
        r@ =~= seq![0x0Au8, 0x55u8],
{
    let mut vec_data: Vec<u8> = Vec::new();
    vec_data.push(0x0A);
    vec_data.push(0x55);
    vec_data
}

/// Appends the CRC16 of everything after the start marker, little-endian.
pub fn add_crc16(vec_data: &mut Vec<u8>)
    requires
        old(vec_data)@.len() >= 2,
    ensures
        final(vec_data)@ == old(vec_data)@ + spec_u16_to_le_bytes(
            crc16::spec_crc16(0, old(vec_data)@.subrange(2, old(vec_data)@.len() as int)),
        ),
{
    let body = slice_subrange(vec_data.as_slice(), 2, vec_data.len());
    let crc: u16 = crc16::calc_array(0, body);
    let mut crc_bytes = u16_to_le_bytes(crc);
    vec_data.append(&mut crc_bytes);
}

/// Builds the frame that carries `data` from `from` to `to` under `data_type`.
pub fn transfer(
    data_type: DataType,
    from: DeviceType,
    to: DeviceType,
    data: &Vec<u8>,
) -> (r: Vec<u8>)
    requires
        data@.len() <= 255,
    ensures
        r@ == spec_frame(data_type, from, to, data@),
        r@.len() == 8 + data@.len(),
{
    let mut vec_data = start();
    add_u8(&mut vec_data, data_type.to_u8());
    add_u8(&mut vec_data, data.len() as u8);
    add_u8(&mut vec_data, from.to_u8());
    add_u8(&mut vec_data, to.to_u8());
    add_slice(&mut vec_data, data.as_slice());
    proof {
        assert(vec_data@.subrange(2, vec_data@.len() as int) =~= spec_frame_header(
            data_type,
            from,
            to,
            data@,
        ) + data@);
    }
    add_crc16(&mut vec_data);
    proof {
        crate::wire::lemma_u16_le_bytes_roundtrip(
            crc16::spec_crc16(0, spec_frame_header(data_type, from, to, data@) + data@),
        );
        assert(vec_data@ =~= spec_frame(data_type, from, to, data@));
    }
    vec_data
}

/// Builds the frame for a caller already holding a header value; the header
/// goes out as given, its `length` field is trusted to match `data`.
pub fn transfer_header_data(header: &Header, data: &Vec<u8>) -> (r: Vec<u8>)
    ensures
        r@ == ({
            let body = header.wire() + data@;
            seq![0x0Au8, 0x55u8] + body + spec_u16_to_le_bytes(crc16::spec_crc16(0, body))
        }),
{
    let mut vec_data = start();
    let mut header_bytes = header.to_vec();
    vec_data.append(&mut header_bytes);
    add_slice(&mut vec_data, data.as_slice());
    proof {
        assert(vec_data@.subrange(2, vec_data@.len() as int) =~= header.wire() + data@);
    }
    add_crc16(&mut vec_data);
    proof {
        crate::wire::lemma_u16_le_bytes_roundtrip(
            crc16::spec_crc16(0, header.wire() + data@),
        );
        assert(vec_data@ =~= ({
            let body = header.wire() + data@;
            seq![0x0Au8, 0x55u8] + body + spec_u16_to_le_bytes(crc16::spec_crc16(0, body))
        }));
    }
    vec_data
}

// -- Convenience builders -------------------------------------------------------------------------

/// Asks `target` to send one payload kind.
pub fn request(target: DeviceType, data_type: DataType) -> (r: Vec<u8>)
    ensures
        r@ == spec_frame(DataType::Request, DeviceType::Base, target, (Request { data_type }).wire()),
{
    transfer(DataType::Request, DeviceType::Base, target, &(Request { data_type }).to_vec())
}

pub fn command(target: DeviceType, command_type: CommandType, option: u8) -> (r: Vec<u8>)
    ensures
        r@ == spec_frame(DataType::Command, DeviceType::Base, target, (Command { command_type, option }).wire()),
{
    transfer(DataType::Command, DeviceType::Base, target, &(Command { command_type, option }).to_vec())
}

pub fn flight_event(event: FlightEvent) -> (r: Vec<u8>)
    ensures
        r@ == spec_frame(DataType::Command, DeviceType::Base, DeviceType::Drone, (Command { command_type: CommandType::FlightEvent, option: event.code() }).wire()),
{
    transfer(DataType::Command, DeviceType::Base, DeviceType::Drone, &(Command { command_type: CommandType::FlightEvent, option: event.to_u8() }).to_vec())
}

pub fn takeoff() -> (r: Vec<u8>)
    ensures
        r@ == spec_frame(DataType::Command, DeviceType::Base, DeviceType::Drone, (Command { command_type: CommandType::FlightEvent, option: FlightEvent::Takeoff.code() }).wire()),
{
    transfer(DataType::Command, DeviceType::Base, DeviceType::Drone, &(Command { command_type: CommandType::FlightEvent, option: FlightEvent::Takeoff.to_u8() }).to_vec())
}

pub fn landing() -> (r: Vec<u8>)
    ensures
        r@ == spec_frame(DataType::Command, DeviceType::Base, DeviceType::Drone, (Command { command_type: CommandType::FlightEvent, option: FlightEvent::Landing.code() }).wire()),
{
    transfer(DataType::Command, DeviceType::Base, DeviceType::Drone, &(Command { command_type: CommandType::FlightEvent, option: FlightEvent::Landing.to_u8() }).to_vec())
}

pub fn stop() -> (r: Vec<u8>)
    ensures
        r@ == spec_frame(DataType::Command, DeviceType::Base, DeviceType::Drone, (Command { command_type: CommandType::FlightEvent, option: FlightEvent::Stop.code() }).wire()),
{
    transfer(DataType::Command, DeviceType::Base, DeviceType::Drone, &(Command { command_type: CommandType::FlightEvent, option: FlightEvent::Stop.to_u8() }).to_vec())
}

pub fn set_default() -> (r: Vec<u8>)
    ensures
        r@ == spec_frame(DataType::Command, DeviceType::Base, DeviceType::Drone, (Command { command_type: CommandType::SetDefault, option: 0 }).wire()),
{
    transfer(DataType::Command, DeviceType::Base, DeviceType::Drone, &(Command { command_type: CommandType::SetDefault, option: 0 }).to_vec())
}

pub fn set_mode_control_flight() -> (r: Vec<u8>)
    ensures
        r@ == spec_frame(DataType::Command, DeviceType::Base, DeviceType::Drone, (Command { command_type: CommandType::SetDefault, option: 0 }).wire()),
{
    transfer(DataType::Command, DeviceType::Base, DeviceType::Drone, &(Command { command_type: CommandType::SetDefault, option: 0 }).to_vec())
}

pub fn headless(headless_mode: Headless) -> (r: Vec<u8>)
    ensures
        r@ == spec_frame(DataType::Command, DeviceType::Base, DeviceType::Drone, (Command { command_type: CommandType::Headless, option: headless_mode.code() }).wire()),
{
    transfer(DataType::Command, DeviceType::Base, DeviceType::Drone, &(Command { command_type: CommandType::Headless, option: headless_mode.to_u8() }).to_vec())
}

pub fn clear_bias() -> (r: Vec<u8>)
    ensures
        r@ == spec_frame(DataType::Command, DeviceType::Base, DeviceType::Drone, (Command { command_type: CommandType::ClearBias, option: 0 }).wire()),
{
    transfer(DataType::Command, DeviceType::Base, DeviceType::Drone, &(Command { command_type: CommandType::ClearBias, option: 0 }).to_vec())
}

pub fn clear_trim() -> (r: Vec<u8>)
    ensures
        r@ == spec_frame(DataType::Command, DeviceType::Base, DeviceType::Drone, (Command { command_type: CommandType::ClearTrim, option: 0 }).wire()),
{
    transfer(DataType::Command, DeviceType::Base, DeviceType::Drone, &(Command { command_type: CommandType::ClearTrim, option: 0 }).to_vec())
}

pub fn trim(roll: i16, pitch: i16, yaw: i16, throttle: i16) -> (r: Vec<u8>)
    ensures
        r@ == spec_frame(DataType::Trim, DeviceType::Base, DeviceType::Drone, (sensor::Trim { roll, pitch, yaw, throttle }).wire()),
{
    transfer(DataType::Trim, DeviceType::Base, DeviceType::Drone, &(sensor::Trim { roll, pitch, yaw, throttle }).to_vec())
}

pub fn control(roll: i8, pitch: i8, yaw: i8, throttle: i8) -> (r: Vec<u8>)
    ensures
        r@ == spec_frame(DataType::Control, DeviceType::Base, DeviceType::Drone, (control::Quad8 { roll, pitch, yaw, throttle }).wire()),
{
    transfer(DataType::Control, DeviceType::Base, DeviceType::Drone, &(control::Quad8 { roll, pitch, yaw, throttle }).to_vec())
}

pub fn control_request(roll: i8, pitch: i8, yaw: i8, throttle: i8, data_type: DataType) -> (r: Vec<u8>)
    ensures
        r@ == spec_frame(DataType::Control, DeviceType::Base, DeviceType::Drone, (control::Quad8AndRequestData { roll, pitch, yaw, throttle, data_type }).wire()),
{
    transfer(DataType::Control, DeviceType::Base, DeviceType::Drone, &(control::Quad8AndRequestData { roll, pitch, yaw, throttle, data_type }).to_vec())
}

/// Position-mode control; x, y, z and velocity take IEEE-754 single-precision bit patterns.
pub fn control_position(x: u32, y: u32, z: u32, velocity: u32, heading: i16, rotational_velocity: i16) -> (r: Vec<u8>)
    ensures
        r@ == spec_frame(DataType::Control, DeviceType::Base, DeviceType::Drone, (control::Position { x, y, z, velocity, heading, rotational_velocity }).wire()),
{
    transfer(DataType::Control, DeviceType::Base, DeviceType::Drone, &(control::Position { x, y, z, velocity, heading, rotational_velocity }).to_vec())
}

pub fn battle_ir_message(ir_message: u8) -> (r: Vec<u8>)
    ensures
        r@ == spec_frame(DataType::Battle, DeviceType::Base, DeviceType::Drone, (battle::IrMessage { ir_message }).wire()),
{
    transfer(DataType::Battle, DeviceType::Base, DeviceType::Drone, &(battle::IrMessage { ir_message }).to_vec())
}

pub fn battle_light_event_command(target: DeviceType, event: u8, interval: u16, repeat: u8, r_value: u8, g: u8, b: u8, command_type: CommandType, option: u8) -> (r: Vec<u8>)
    ensures
        r@ == spec_frame(DataType::Battle, DeviceType::Base, target, (battle::LightEventCommand { event: light::Event { event, interval, repeat }, color: light::Color { r: r_value, g, b }, command: Command { command_type, option } }).wire()),
{
    transfer(DataType::Battle, DeviceType::Base, target, &(battle::LightEventCommand { event: light::Event { event, interval, repeat }, color: light::Color { r: r_value, g, b }, command: Command { command_type, option } }).to_vec())
}

pub fn battle_ir_message_light_event_command(target: DeviceType, ir_message: u8, event: u8, interval: u16, repeat: u8, r_value: u8, g: u8, b: u8, command_type: CommandType, option: u8) -> (r: Vec<u8>)
    ensures
        r@ == spec_frame(DataType::Battle, DeviceType::Base, target, (battle::IrMessageLightEventCommand { ir_message, event: light::Event { event, interval, repeat }, color: light::Color { r: r_value, g, b }, command: Command { command_type, option } }).wire()),
{
    transfer(DataType::Battle, DeviceType::Base, target, &(battle::IrMessageLightEventCommand { ir_message, event: light::Event { event, interval, repeat }, color: light::Color { r: r_value, g, b }, command: Command { command_type, option } }).to_vec())
}

pub fn light_manual(target: DeviceType, flags: u16, brightness: u8) -> (r: Vec<u8>)
    ensures
        r@ == spec_frame(DataType::LightManual, DeviceType::Base, target, (light::Manual { flags, brightness }).wire()),
{
    transfer(DataType::LightManual, DeviceType::Base, target, &(light::Manual { flags, brightness }).to_vec())
}

pub fn light_mode(target: DeviceType, mode: u8, interval: u16) -> (r: Vec<u8>)
    ensures
        r@ == spec_frame(DataType::LightMode, DeviceType::Base, target, (light::Mode { mode, interval }).wire()),
{
    transfer(DataType::LightMode, DeviceType::Base, target, &(light::Mode { mode, interval }).to_vec())
}

pub fn light_event(target: DeviceType, event: u8, interval: u16, repeat: u8) -> (r: Vec<u8>)
    ensures
        r@ == spec_frame(DataType::LightEvent, DeviceType::Base, target, (light::Event { event, interval, repeat }).wire()),
{
    transfer(DataType::LightEvent, DeviceType::Base, target, &(light::Event { event, interval, repeat }).to_vec())
}

pub fn light_mode_color(target: DeviceType, mode: u8, interval: u16, r_value: u8, g: u8, b: u8) -> (r: Vec<u8>)
    ensures
        r@ == spec_frame(DataType::LightMode, DeviceType::Base, target, (light::ModeColor { mode: light::Mode { mode, interval }, color: light::Color { r: r_value, g, b } }).wire()),
{
    transfer(DataType::LightMode, DeviceType::Base, target, &(light::ModeColor { mode: light::Mode { mode, interval }, color: light::Color { r: r_value, g, b } }).to_vec())
}

pub fn light_event_color(target: DeviceType, event: u8, interval: u16, repeat: u8, r_value: u8, g: u8, b: u8) -> (r: Vec<u8>)
    ensures
        r@ == spec_frame(DataType::LightEvent, DeviceType::Base, target, (light::EventColor { event: light::Event { event, interval, repeat }, color: light::Color { r: r_value, g, b } }).wire()),
{
    transfer(DataType::LightEvent, DeviceType::Base, target, &(light::EventColor { event: light::Event { event, interval, repeat }, color: light::Color { r: r_value, g, b } }).to_vec())
}

pub fn light_default(target: DeviceType, mode: u8, interval: u16, r_value: u8, g: u8, b: u8) -> (r: Vec<u8>)
    ensures
        r@ == spec_frame(DataType::LightDefault, DeviceType::Base, target, (light::ModeColor { mode: light::Mode { mode, interval }, color: light::Color { r: r_value, g, b } }).wire()),
{
    transfer(DataType::LightDefault, DeviceType::Base, target, &(light::ModeColor { mode: light::Mode { mode, interval }, color: light::Color { r: r_value, g, b } }).to_vec())
}

pub fn buzzer_stop(target: DeviceType) -> (r: Vec<u8>)
    ensures
        r@ == spec_frame(DataType::Buzzer, DeviceType::Base, target, (buzzer::BuzzerHz { mode: buzzer::Mode::Stop, hz: 0, time: 0 }).wire()),
{
    transfer(DataType::Buzzer, DeviceType::Base, target, &(buzzer::BuzzerHz { mode: buzzer::Mode::Stop, hz: 0, time: 0 }).to_vec())
}

pub fn buzzer_scale(target: DeviceType, scale: buzzer::Scale, time: u16) -> (r: Vec<u8>)
    ensures
        r@ == spec_frame(DataType::Buzzer, DeviceType::Base, target, (buzzer::BuzzerScale { mode: buzzer::Mode::ScaleInstantly, scale, time }).wire()),
{
    transfer(DataType::Buzzer, DeviceType::Base, target, &(buzzer::BuzzerScale { mode: buzzer::Mode::ScaleInstantly, scale, time }).to_vec())
}

pub fn buzzer_scale_reserve(target: DeviceType, scale: buzzer::Scale, time: u16) -> (r: Vec<u8>)
    ensures
        r@ == spec_frame(DataType::Buzzer, DeviceType::Base, target, (buzzer::BuzzerScale { mode: buzzer::Mode::ScaleContinually, scale, time }).wire()),
{
    transfer(DataType::Buzzer, DeviceType::Base, target, &(buzzer::BuzzerScale { mode: buzzer::Mode::ScaleContinually, scale, time }).to_vec())
}

pub fn buzzer_hz(target: DeviceType, hz: u16, time: u16) -> (r: Vec<u8>)
    ensures
        r@ == spec_frame(DataType::Buzzer, DeviceType::Base, target, (buzzer::BuzzerHz { mode: buzzer::Mode::HzInstantly, hz, time }).wire()),
{
    transfer(DataType::Buzzer, DeviceType::Base, target, &(buzzer::BuzzerHz { mode: buzzer::Mode::HzInstantly, hz, time }).to_vec())
}

pub fn buzzer_hz_reserve(target: DeviceType, hz: u16, time: u16) -> (r: Vec<u8>)
    ensures
        r@ == spec_frame(DataType::Buzzer, DeviceType::Base, target, (buzzer::BuzzerHz { mode: buzzer::Mode::HzContinually, hz, time }).wire()),
{
    transfer(DataType::Buzzer, DeviceType::Base, target, &(buzzer::BuzzerHz { mode: buzzer::Mode::HzContinually, hz, time }).to_vec())
}

pub fn buzzer_mute(target: DeviceType, time: u16) -> (r: Vec<u8>)
    ensures
        r@ == spec_frame(DataType::Buzzer, DeviceType::Base, target, (buzzer::BuzzerHz { mode: buzzer::Mode::MuteInstantly, hz: 0, time }).wire()),
{
    transfer(DataType::Buzzer, DeviceType::Base, target, &(buzzer::BuzzerHz { mode: buzzer::Mode::MuteInstantly, hz: 0, time }).to_vec())
}

pub fn buzzer_mute_reserve(target: DeviceType, time: u16) -> (r: Vec<u8>)
    ensures
        r@ == spec_frame(DataType::Buzzer, DeviceType::Base, target, (buzzer::BuzzerHz { mode: buzzer::Mode::MuteContinually, hz: 0, time }).wire()),
{
    transfer(DataType::Buzzer, DeviceType::Base, target, &(buzzer::BuzzerHz { mode: buzzer::Mode::MuteContinually, hz: 0, time }).to_vec())
}

pub fn vibrator(on: u16, off: u16, time: u16) -> (r: Vec<u8>)
    ensures
        r@ == spec_frame(DataType::Vibrator, DeviceType::Base, DeviceType::Controller, (vibrator::Vibrator { mode: vibrator::Mode::Instantly, on, off, time }).wire()),
{
    transfer(DataType::Vibrator, DeviceType::Base, DeviceType::Controller, &(vibrator::Vibrator { mode: vibrator::Mode::Instantly, on, off, time }).to_vec())
}

pub fn vibrator_reserve(on: u16, off: u16, time: u16) -> (r: Vec<u8>)
    ensures
        r@ == spec_frame(DataType::Vibrator, DeviceType::Base, DeviceType::Controller, (vibrator::Vibrator { mode: vibrator::Mode::Continually, on, off, time }).wire()),
{
    transfer(DataType::Vibrator, DeviceType::Base, DeviceType::Controller, &(vibrator::Vibrator { mode: vibrator::Mode::Continually, on, off, time }).to_vec())
}

pub fn draw_clear_all(pixel: Pixel) -> (r: Vec<u8>)
    ensures
        r@ == spec_frame(DataType::DisplayClear, DeviceType::Base, DeviceType::Controller, (ClearAll { pixel }).wire()),
{
    transfer(DataType::DisplayClear, DeviceType::Base, DeviceType::Controller, &(ClearAll { pixel }).to_vec())
}

pub fn draw_clear(x: i16, y: i16, width: i16, height: i16, pixel: Pixel) -> (r: Vec<u8>)
    ensures
        r@ == spec_frame(DataType::DisplayClear, DeviceType::Base, DeviceType::Controller, (Clear { x, y, width, height, pixel }).wire()),
{
    transfer(DataType::DisplayClear, DeviceType::Base, DeviceType::Controller, &(Clear { x, y, width, height, pixel }).to_vec())
}

pub fn draw_invert(x: i16, y: i16, width: i16, height: i16) -> (r: Vec<u8>)
    ensures
        r@ == spec_frame(DataType::DisplayInvert, DeviceType::Base, DeviceType::Controller, (Invert { x, y, width, height }).wire()),
{
    transfer(DataType::DisplayInvert, DeviceType::Base, DeviceType::Controller, &(Invert { x, y, width, height }).to_vec())
}

pub fn draw_point(x: i16, y: i16, pixel: Pixel) -> (r: Vec<u8>)
    ensures
        r@ == spec_frame(DataType::DisplayDrawPoint, DeviceType::Base, DeviceType::Controller, (DrawPoint { x, y, pixel }).wire()),
{
    transfer(DataType::DisplayDrawPoint, DeviceType::Base, DeviceType::Controller, &(DrawPoint { x, y, pixel }).to_vec())
}

pub fn draw_line(x1: i16, y1: i16, x2: i16, y2: i16, pixel: Pixel, line: Line) -> (r: Vec<u8>)
    ensures
        r@ == spec_frame(DataType::DisplayDrawLine, DeviceType::Base, DeviceType::Controller, (DrawLine { x1, y1, x2, y2, pixel, line }).wire()),
{
    transfer(DataType::DisplayDrawLine, DeviceType::Base, DeviceType::Controller, &(DrawLine { x1, y1, x2, y2, pixel, line }).to_vec())
}

pub fn draw_rect(x: i16, y: i16, width: i16, height: i16, pixel: Pixel, fill: bool, line: Line) -> (r: Vec<u8>)
    ensures
        r@ == spec_frame(DataType::DisplayDrawRect, DeviceType::Base, DeviceType::Controller, (DrawRect { x, y, width, height, pixel, fill, line }).wire()),
{
    transfer(DataType::DisplayDrawRect, DeviceType::Base, DeviceType::Controller, &(DrawRect { x, y, width, height, pixel, fill, line }).to_vec())
}

pub fn draw_circle(x: i16, y: i16, radius: i16, pixel: Pixel, fill: bool) -> (r: Vec<u8>)
    ensures
        r@ == spec_frame(DataType::DisplayDrawCircle, DeviceType::Base, DeviceType::Controller, (DrawCircle { x, y, radius, pixel, fill }).wire()),
{
    transfer(DataType::DisplayDrawCircle, DeviceType::Base, DeviceType::Controller, &(DrawCircle { x, y, radius, pixel, fill }).to_vec())
}

/// Draws UTF-8 text; `string` carries the raw bytes.
pub fn draw_string(x: i16, y: i16, font: Font, pixel: Pixel, string: Vec<u8>) -> (r: Vec<u8>)
    requires
        string@.len() <= 249,
    ensures
        r@ == spec_frame(DataType::DisplayDrawString, DeviceType::Base, DeviceType::Controller, (DrawString { x, y, font, pixel, string }).wire()),
{
    transfer(DataType::DisplayDrawString, DeviceType::Base, DeviceType::Controller, &(DrawString { x, y, font, pixel, string }).to_vec())
}

/// Draws aligned UTF-8 text; `string` carries the raw bytes.
pub fn draw_string_align(x_start: i16, x_end: i16, y: i16, align: Align, font: Font, pixel: Pixel, string: Vec<u8>) -> (r: Vec<u8>)
    requires
        string@.len() <= 246,
    ensures
        r@ == spec_frame(DataType::DisplayDrawStringAlign, DeviceType::Base, DeviceType::Controller, (DrawStringAlign { x_start, x_end, y, align, font, pixel, string }).wire()),
{
    transfer(DataType::DisplayDrawStringAlign, DeviceType::Base, DeviceType::Controller, &(DrawStringAlign { x_start, x_end, y, align, font, pixel, string }).to_vec())
}

pub fn draw_image(x: i16, y: i16, width: i16, height: i16, vec_image: Vec<u8>) -> (r: Vec<u8>)
    requires
        vec_image@.len() <= 247,
    ensures
        r@ == spec_frame(DataType::DisplayDrawImage, DeviceType::Base, DeviceType::Controller, (DrawImage { x, y, width, height, vec_image }).wire()),
{
    transfer(DataType::DisplayDrawImage, DeviceType::Base, DeviceType::Controller, &(DrawImage { x, y, width, height, vec_image }).to_vec())
}

} // verus!
