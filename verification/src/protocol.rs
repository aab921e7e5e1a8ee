//! The payload taxonomy: the frame header, the system payloads, one module
//! per payload family, and the `Data` union of everything a frame can carry.

pub mod battle;
pub mod button;
pub mod buzzer;
pub mod card;
pub mod command;
pub mod communication;
pub mod control;
pub mod display;
pub mod external;
pub mod joystick;
pub mod light;
pub mod monitor;
pub mod motor;
pub mod navigation;
pub mod sensor;
pub mod vibrator;

use crate::system::{DeviceType, Headless, ModeControlFlight, ModeFlight, ModeMovement,
    ModeSystem, ModeUpdate, ModelNumber, SensorOrientation, Version};

use crate::communication::extractor::Extractor;
use crate::communication::serializer::{add_slice, add_u16, add_u32, add_u64, add_u8};
use crate::wire::{lemma_u16_le_bytes_roundtrip, lemma_u32_le_bytes_roundtrip, 
    lemma_u64_le_bytes_roundtrip};
use vstd::bytes::*;
use vstd::prelude::*;
use vstd::slice::{slice_subrange, slice_to_vec};


verus! {

#[derive(Clone, Copy, Debug, PartialEq, Eq, Structural)]
pub enum DataType {
    Nil,
    Ping,
    Ack,
    Error,
    Request,
    Message,
    Address,
    Information,
    Update,
    UpdateLocation,
    Encrypt,
    SystemCount,
    SystemInformation,
    Registration,
    Administrator,
    Monitor,
    Control,
    Command,
    Pairing,
    Rssi,
    TimeSync,
    TransmissionPower,
    Configuration,
    Echo,
    Battle,
    LightManual,
    LightMode,
    LightEvent,
    LightDefault,
    RawMotion,
    RawFlow,
    State,
    Attitude,
    Position,
    Altitude,
    Motion,
    Range,
    Flow,
    Count,
    Bias,
    Trim,
    Weight,
    LostConnection,
    MagnetometerOffset,
    Motor,
    MotorSingle,
    Buzzer,
    Vibrator,
    Button,
    Joystick,
    DisplayClear,
    DisplayInvert,
    DisplayDrawPoint,
    DisplayDrawLine,
    DisplayDrawRect,
    DisplayDrawCircle,
    DisplayDrawString,
    DisplayDrawStringAlign,
    DisplayDrawImage,
    CardClassify,
    CardRange,
    CardRaw,
    CardColor,
    CardList,
    CardFunctionList,
    InformationAssembledForController,
    InformationAssembledForEntry,
    InformationAssembledForByBlocks,
    NavigationTarget,
    NavigationLocation,
    NavigationMonitor,
    NavigationHeading,
    NavigationCounter,
    NavigationSatellite,
    NavigationLocationAdjust,
    NavigationTargetEcef,
    NavigationLocationEcef,
    GpsRtkNavigationState,
    GpsRtkExtendedRawMeasurementData,
    UwbPosition,
    TagData,
    ExternalCameraState,
    ExternalCameraCommand,
}

impl DataType {
    /// The wire code of the variant.
    pub open spec fn code(self) -> u8 {
        match self {
            DataType::Nil => 0x00,
            DataType::Ping => 0x01,
            DataType::Ack => 0x02,
            DataType::Error => 0x03,
            DataType::Request => 0x04,
            DataType::Message => 0x05,
            DataType::Address => 0x06,
            DataType::Information => 0x07,
            DataType::Update => 0x08,
            DataType::UpdateLocation => 0x09,
            DataType::Encrypt => 0x0A,
            DataType::SystemCount => 0x0B,
            DataType::SystemInformation => 0x0C,
            DataType::Registration => 0x0D,
            DataType::Administrator => 0x0E,
            DataType::Monitor => 0x0F,
            DataType::Control => 0x10,
            DataType::Command => 0x11,
            DataType::Pairing => 0x12,
            DataType::Rssi => 0x13,
            DataType::TimeSync => 0x14,
            DataType::TransmissionPower => 0x15,
            DataType::Configuration => 0x16,
            DataType::Echo => 0x17,
            DataType::Battle => 0x1F,
            DataType::LightManual => 0x20,
            DataType::LightMode => 0x21,
            DataType::LightEvent => 0x22,
            DataType::LightDefault => 0x23,
            DataType::RawMotion => 0x30,
            DataType::RawFlow => 0x31,
            DataType::State => 0x40,
            DataType::Attitude => 0x41,
            DataType::Position => 0x42,
            DataType::Altitude => 0x43,
            DataType::Motion => 0x44,
            DataType::Range => 0x45,
            DataType::Flow => 0x46,
            DataType::Count => 0x50,
            DataType::Bias => 0x51,
            DataType::Trim => 0x52,
            DataType::Weight => 0x53,
            DataType::LostConnection => 0x54,
            DataType::MagnetometerOffset => 0x55,
            DataType::Motor => 0x60,
            DataType::MotorSingle => 0x61,
            DataType::Buzzer => 0x62,
            DataType::Vibrator => 0x63,
            DataType::Button => 0x70,
            DataType::Joystick => 0x71,
            DataType::DisplayClear => 0x80,
            DataType::DisplayInvert => 0x81,
            DataType::DisplayDrawPoint => 0x82,
            DataType::DisplayDrawLine => 0x83,
            DataType::DisplayDrawRect => 0x84,
            DataType::DisplayDrawCircle => 0x85,
            DataType::DisplayDrawString => 0x86,
            DataType::DisplayDrawStringAlign => 0x87,
            DataType::DisplayDrawImage => 0x88,
            DataType::CardClassify => 0x90,
            DataType::CardRange => 0x91,
            DataType::CardRaw => 0x92,
            DataType::CardColor => 0x93,
            DataType::CardList => 0x94,
            DataType::CardFunctionList => 0x95,
            DataType::InformationAssembledForController => 0xA0,
            DataType::InformationAssembledForEntry => 0xA1,
            DataType::InformationAssembledForByBlocks => 0xA2,
            DataType::NavigationTarget => 0xD0,
            DataType::NavigationLocation => 0xD1,
            DataType::NavigationMonitor => 0xD2,
            DataType::NavigationHeading => 0xD3,
            DataType::NavigationCounter => 0xD4,
            DataType::NavigationSatellite => 0xD5,
            DataType::NavigationLocationAdjust => 0xD6,
            DataType::NavigationTargetEcef => 0xD8,
            DataType::NavigationLocationEcef => 0xD9,
            DataType::GpsRtkNavigationState => 0xDA,
            DataType::GpsRtkExtendedRawMeasurementData => 0xDB,
            DataType::UwbPosition => 0xE0,
            DataType::TagData => 0xE1,
            DataType::ExternalCameraState => 0xE2,
            DataType::ExternalCameraCommand => 0xE3,
        }
    }

    /// Total decoding: an unknown code falls back to `DataType::Nil`.
    pub open spec fn spec_from_u8(code: u8) -> DataType {
        if code == 0x00 {
            DataType::Nil
        } else if code == 0x01 {
            DataType::Ping
        } else if code == 0x02 {
            DataType::Ack
        } else if code == 0x03 {
            DataType::Error
        } else if code == 0x04 {
            DataType::Request
        } else if code == 0x05 {
            DataType::Message
        } else if code == 0x06 {
            DataType::Address
        } else if code == 0x07 {
            DataType::Information
        } else if code == 0x08 {
            DataType::Update
        } else if code == 0x09 {
            DataType::UpdateLocation
        } else if code == 0x0A {
            DataType::Encrypt
        } else if code == 0x0B {
            DataType::SystemCount
        } else if code == 0x0C {
            DataType::SystemInformation
        } else if code == 0x0D {
            DataType::Registration
        } else if code == 0x0E {
            DataType::Administrator
        } else if code == 0x0F {
            DataType::Monitor
        } else if code == 0x10 {
            DataType::Control
        } else if code == 0x11 {
            DataType::Command
        } else if code == 0x12 {
            DataType::Pairing
        } else if code == 0x13 {
            DataType::Rssi
        } else if code == 0x14 {
            DataType::TimeSync
        } else if code == 0x15 {
            DataType::TransmissionPower
        } else if code == 0x16 {
            DataType::Configuration
        } else if code == 0x17 {
            DataType::Echo
        } else if code == 0x1F {
            DataType::Battle
        } else if code == 0x20 {
            DataType::LightManual
        } else if code == 0x21 {
            DataType::LightMode
        } else if code == 0x22 {
            DataType::LightEvent
        } else if code == 0x23 {
            DataType::LightDefault
        } else if code == 0x30 {
            DataType::RawMotion
        } else if code == 0x31 {
            DataType::RawFlow
        } else if code == 0x40 {
            DataType::State
        } else if code == 0x41 {
            DataType::Attitude
        } else if code == 0x42 {
            DataType::Position
        } else if code == 0x43 {
            DataType::Altitude
        } else if code == 0x44 {
            DataType::Motion
        } else if code == 0x45 {
            DataType::Range
        } else if code == 0x46 {
            DataType::Flow
        } else if code == 0x50 {
            DataType::Count
        } else if code == 0x51 {
            DataType::Bias
        } else if code == 0x52 {
            DataType::Trim
        } else if code == 0x53 {
            DataType::Weight
        } else if code == 0x54 {
            DataType::LostConnection
        } else if code == 0x55 {
            DataType::MagnetometerOffset
        } else if code == 0x60 {
            DataType::Motor
        } else if code == 0x61 {
            DataType::MotorSingle
        } else if code == 0x62 {
            DataType::Buzzer
        } else if code == 0x63 {
            DataType::Vibrator
        } else if code == 0x70 {
            DataType::Button
        } else if code == 0x71 {
            DataType::Joystick
        } else if code == 0x80 {
            DataType::DisplayClear
        } else if code == 0x81 {
            DataType::DisplayInvert
        } else if code == 0x82 {
            DataType::DisplayDrawPoint
        } else if code == 0x83 {
            DataType::DisplayDrawLine
        } else if code == 0x84 {
            DataType::DisplayDrawRect
        } else if code == 0x85 {
            DataType::DisplayDrawCircle
        } else if code == 0x86 {
            DataType::DisplayDrawString
        } else if code == 0x87 {
            DataType::DisplayDrawStringAlign
        } else if code == 0x88 {
            DataType::DisplayDrawImage
        } else if code == 0x90 {
            DataType::CardClassify
        } else if code == 0x91 {
            DataType::CardRange
        } else if code == 0x92 {
            DataType::CardRaw
        } else if code == 0x93 {
            DataType::CardColor
        } else if code == 0x94 {
            DataType::CardList
        } else if code == 0x95 {
            DataType::CardFunctionList
        } else if code == 0xA0 {
            DataType::InformationAssembledForController
        } else if code == 0xA1 {
            DataType::InformationAssembledForEntry
        } else if code == 0xA2 {
            DataType::InformationAssembledForByBlocks
        } else if code == 0xD0 {
            DataType::NavigationTarget
        } else if code == 0xD1 {
            DataType::NavigationLocation
        } else if code == 0xD2 {
            DataType::NavigationMonitor
        } else if code == 0xD3 {
            DataType::NavigationHeading
        } else if code == 0xD4 {
            DataType::NavigationCounter
        } else if code == 0xD5 {
            DataType::NavigationSatellite
        } else if code == 0xD6 {
            DataType::NavigationLocationAdjust
        } else if code == 0xD8 {
            DataType::NavigationTargetEcef
        } else if code == 0xD9 {
            DataType::NavigationLocationEcef
        } else if code == 0xDA {
            DataType::GpsRtkNavigationState
        } else if code == 0xDB {
            DataType::GpsRtkExtendedRawMeasurementData
        } else if code == 0xE0 {
            DataType::UwbPosition
        } else if code == 0xE1 {
            DataType::TagData
        } else if code == 0xE2 {
            DataType::ExternalCameraState
        } else if code == 0xE3 {
            DataType::ExternalCameraCommand
        } else {
            DataType::Nil
        }
    }

    /// Whether the code denotes a variant of its own.
    pub open spec fn spec_is_defined(code: u8) -> bool {
        DataType::spec_from_u8(code).code() == code
    }

    pub fn from_u8(data_u8: u8) -> (r: DataType)
        ensures
            r == DataType::spec_from_u8(data_u8),
    {
        if data_u8 == 0x00 {
            DataType::Nil
        } else if data_u8 == 0x01 {
            DataType::Ping
        } else if data_u8 == 0x02 {
            DataType::Ack
        } else if data_u8 == 0x03 {
            DataType::Error
        } else if data_u8 == 0x04 {
            DataType::Request
        } else if data_u8 == 0x05 {
            DataType::Message
        } else if data_u8 == 0x06 {
            DataType::Address
        } else if data_u8 == 0x07 {
            DataType::Information
        } else if data_u8 == 0x08 {
            DataType::Update
        } else if data_u8 == 0x09 {
            DataType::UpdateLocation
        } else if data_u8 == 0x0A {
            DataType::Encrypt
        } else if data_u8 == 0x0B {
            DataType::SystemCount
        } else if data_u8 == 0x0C {
            DataType::SystemInformation
        } else if data_u8 == 0x0D {
            DataType::Registration
        } else if data_u8 == 0x0E {
            DataType::Administrator
        } else if data_u8 == 0x0F {
            DataType::Monitor
        } else if data_u8 == 0x10 {
            DataType::Control
        } else if data_u8 == 0x11 {
            DataType::Command
        } else if data_u8 == 0x12 {
            DataType::Pairing
        } else if data_u8 == 0x13 {
            DataType::Rssi
        } else if data_u8 == 0x14 {
            DataType::TimeSync
        } else if data_u8 == 0x15 {
            DataType::TransmissionPower
        } else if data_u8 == 0x16 {
            DataType::Configuration
        } else if data_u8 == 0x17 {
            DataType::Echo
        } else if data_u8 == 0x1F {
            DataType::Battle
        } else if data_u8 == 0x20 {
            DataType::LightManual
        } else if data_u8 == 0x21 {
            DataType::LightMode
        } else if data_u8 == 0x22 {
            DataType::LightEvent
        } else if data_u8 == 0x23 {
            DataType::LightDefault
        } else if data_u8 == 0x30 {
            DataType::RawMotion
        } else if data_u8 == 0x31 {
            DataType::RawFlow
        } else if data_u8 == 0x40 {
            DataType::State
        } else if data_u8 == 0x41 {
            DataType::Attitude
        } else if data_u8 == 0x42 {
            DataType::Position
        } else if data_u8 == 0x43 {
            DataType::Altitude
        } else if data_u8 == 0x44 {
            DataType::Motion
        } else if data_u8 == 0x45 {
            DataType::Range
        } else if data_u8 == 0x46 {
            DataType::Flow
        } else if data_u8 == 0x50 {
            DataType::Count
        } else if data_u8 == 0x51 {
            DataType::Bias
        } else if data_u8 == 0x52 {
            DataType::Trim
        } else if data_u8 == 0x53 {
            DataType::Weight
        } else if data_u8 == 0x54 {
            DataType::LostConnection
        } else if data_u8 == 0x55 {
            DataType::MagnetometerOffset
        } else if data_u8 == 0x60 {
            DataType::Motor
        } else if data_u8 == 0x61 {
            DataType::MotorSingle
        } else if data_u8 == 0x62 {
            DataType::Buzzer
        } else if data_u8 == 0x63 {
            DataType::Vibrator
        } else if data_u8 == 0x70 {
            DataType::Button
        } else if data_u8 == 0x71 {
            DataType::Joystick
        } else if data_u8 == 0x80 {
            DataType::DisplayClear
        } else if data_u8 == 0x81 {
            DataType::DisplayInvert
        } else if data_u8 == 0x82 {
            DataType::DisplayDrawPoint
        } else if data_u8 == 0x83 {
            DataType::DisplayDrawLine
        } else if data_u8 == 0x84 {
            DataType::DisplayDrawRect
        } else if data_u8 == 0x85 {
            DataType::DisplayDrawCircle
        } else if data_u8 == 0x86 {
            DataType::DisplayDrawString
        } else if data_u8 == 0x87 {
            DataType::DisplayDrawStringAlign
        } else if data_u8 == 0x88 {
            DataType::DisplayDrawImage
        } else if data_u8 == 0x90 {
            DataType::CardClassify
        } else if data_u8 == 0x91 {
            DataType::CardRange
        } else if data_u8 == 0x92 {
            DataType::CardRaw
        } else if data_u8 == 0x93 {
            DataType::CardColor
        } else if data_u8 == 0x94 {
            DataType::CardList
        } else if data_u8 == 0x95 {
            DataType::CardFunctionList
        } else if data_u8 == 0xA0 {
            DataType::InformationAssembledForController
        } else if data_u8 == 0xA1 {
            DataType::InformationAssembledForEntry
        } else if data_u8 == 0xA2 {
            DataType::InformationAssembledForByBlocks
        } else if data_u8 == 0xD0 {
            DataType::NavigationTarget
        } else if data_u8 == 0xD1 {
            DataType::NavigationLocation
        } else if data_u8 == 0xD2 {
            DataType::NavigationMonitor
        } else if data_u8 == 0xD3 {
            DataType::NavigationHeading
        } else if data_u8 == 0xD4 {
            DataType::NavigationCounter
        } else if data_u8 == 0xD5 {
            DataType::NavigationSatellite
        } else if data_u8 == 0xD6 {
            DataType::NavigationLocationAdjust
        } else if data_u8 == 0xD8 {
            DataType::NavigationTargetEcef
        } else if data_u8 == 0xD9 {
            DataType::NavigationLocationEcef
        } else if data_u8 == 0xDA {
            DataType::GpsRtkNavigationState
        } else if data_u8 == 0xDB {
            DataType::GpsRtkExtendedRawMeasurementData
        } else if data_u8 == 0xE0 {
            DataType::UwbPosition
        } else if data_u8 == 0xE1 {
            DataType::TagData
        } else if data_u8 == 0xE2 {
            DataType::ExternalCameraState
        } else if data_u8 == 0xE3 {
            DataType::ExternalCameraCommand
        } else {
            DataType::Nil
        }
    }

    pub fn to_u8(self) -> (r: u8)
        ensures
            r == self.code(),
    {
        match self {
            DataType::Nil => 0x00,
            DataType::Ping => 0x01,
            DataType::Ack => 0x02,
            DataType::Error => 0x03,
            DataType::Request => 0x04,
            DataType::Message => 0x05,
            DataType::Address => 0x06,
            DataType::Information => 0x07,
            DataType::Update => 0x08,
            DataType::UpdateLocation => 0x09,
            DataType::Encrypt => 0x0A,
            DataType::SystemCount => 0x0B,
            DataType::SystemInformation => 0x0C,
            DataType::Registration => 0x0D,
            DataType::Administrator => 0x0E,
            DataType::Monitor => 0x0F,
            DataType::Control => 0x10,
            DataType::Command => 0x11,
            DataType::Pairing => 0x12,
            DataType::Rssi => 0x13,
            DataType::TimeSync => 0x14,
            DataType::TransmissionPower => 0x15,
            DataType::Configuration => 0x16,
            DataType::Echo => 0x17,
            DataType::Battle => 0x1F,
            DataType::LightManual => 0x20,
            DataType::LightMode => 0x21,
            DataType::LightEvent => 0x22,
            DataType::LightDefault => 0x23,
            DataType::RawMotion => 0x30,
            DataType::RawFlow => 0x31,
            DataType::State => 0x40,
            DataType::Attitude => 0x41,
            DataType::Position => 0x42,
            DataType::Altitude => 0x43,
            DataType::Motion => 0x44,
            DataType::Range => 0x45,
            DataType::Flow => 0x46,
            DataType::Count => 0x50,
            DataType::Bias => 0x51,
            DataType::Trim => 0x52,
            DataType::Weight => 0x53,
            DataType::LostConnection => 0x54,
            DataType::MagnetometerOffset => 0x55,
            DataType::Motor => 0x60,
            DataType::MotorSingle => 0x61,
            DataType::Buzzer => 0x62,
            DataType::Vibrator => 0x63,
            DataType::Button => 0x70,
            DataType::Joystick => 0x71,
            DataType::DisplayClear => 0x80,
            DataType::DisplayInvert => 0x81,
            DataType::DisplayDrawPoint => 0x82,
            DataType::DisplayDrawLine => 0x83,
            DataType::DisplayDrawRect => 0x84,
            DataType::DisplayDrawCircle => 0x85,
            DataType::DisplayDrawString => 0x86,
            DataType::DisplayDrawStringAlign => 0x87,
            DataType::DisplayDrawImage => 0x88,
            DataType::CardClassify => 0x90,
            DataType::CardRange => 0x91,
            DataType::CardRaw => 0x92,
            DataType::CardColor => 0x93,
            DataType::CardList => 0x94,
            DataType::CardFunctionList => 0x95,
            DataType::InformationAssembledForController => 0xA0,
            DataType::InformationAssembledForEntry => 0xA1,
            DataType::InformationAssembledForByBlocks => 0xA2,
            DataType::NavigationTarget => 0xD0,
            DataType::NavigationLocation => 0xD1,
            DataType::NavigationMonitor => 0xD2,
            DataType::NavigationHeading => 0xD3,
            DataType::NavigationCounter => 0xD4,
            DataType::NavigationSatellite => 0xD5,
            DataType::NavigationLocationAdjust => 0xD6,
            DataType::NavigationTargetEcef => 0xD8,
            DataType::NavigationLocationEcef => 0xD9,
            DataType::GpsRtkNavigationState => 0xDA,
            DataType::GpsRtkExtendedRawMeasurementData => 0xDB,
            DataType::UwbPosition => 0xE0,
            DataType::TagData => 0xE1,
            DataType::ExternalCameraState => 0xE2,
            DataType::ExternalCameraCommand => 0xE3,
        }
    }

    /// Encoding a variant and decoding the code gives the variant back.
    pub proof fn lemma_code_roundtrip(self)
        ensures
            DataType::spec_from_u8(self.code()) == self,
    {
    }
}

/// The four header bytes of every frame: payload kind, payload length,
/// sender and addressee.
#[derive(Clone, Copy, Debug, PartialEq, Eq, Structural)]
pub struct Header {
    pub data_type: DataType,
    pub length: u8,
    pub from: DeviceType,
    pub to: DeviceType,
}

impl Header {
    pub fn new() -> (r: Header)
        ensures
            r.data_type == DataType::Nil,
            r.length == 0,
            r.from == DeviceType::Nil,
            r.to == DeviceType::Nil,
    {
        Header {
            data_type: DataType::Nil,
            length: 0,
            from: DeviceType::Nil,
            to: DeviceType::Nil,
        }
    }

    /// Exact on-wire size of the payload.
    pub open spec fn spec_size() -> usize {
        4
    }

    pub fn size() -> (r: usize)
        ensures
            r == Header::spec_size(),
    {
        4
    }

    /// The bytes this value puts on the wire.
    pub open spec fn wire(self) -> Seq<u8> {
        seq![self.data_type.code()] + seq![self.length] + seq![self.from.code()] + seq![self.to.code()]
    }

    /// Whether `self` is exactly what the payload bytes `s` decode to.
    pub open spec fn decoded(self, s: Seq<u8>) -> bool {
        self == Header::decode(s)
    }

    /// The value a `spec_size()`-byte payload decodes to.
    pub open spec fn decode(s: Seq<u8>) -> Header {
        Header {
            data_type: DataType::spec_from_u8(s[0]),
            length: s[1],
            from: DeviceType::spec_from_u8(s[2]),
            to: DeviceType::spec_from_u8(s[3]),
        }
    }

    pub fn parse(slice_data: &[u8]) -> (r: Result<Header, &'static str>)
        ensures
            slice_data@.len() == Header::spec_size() ==> (r matches Ok(v) && v == Header::decode(
                slice_data@,
            )),
            slice_data@.len() != Header::spec_size() ==> (r matches Err(_)),
    {
        if slice_data.len() == Header::size() {
            let mut ext: Extractor = Extractor::from_slice(slice_data);
            let data_type = DataType::from_u8(ext.get_u8());
            let length = ext.get_u8();
            let from = DeviceType::from_u8(ext.get_u8());
            let to = DeviceType::from_u8(ext.get_u8());
            Ok(Header { data_type, length, from, to })
        } else {
            Err("Wrong length")
        }
    }

    /// Reads one value in place out of a longer payload.
    pub fn read(ext: &mut Extractor) -> (r: Header)
        requires
            old(ext).wf(),
            old(ext).pos() + Header::spec_size() <= old(ext).data().len(),
        ensures
            final(ext).wf(),
            final(ext).data() == old(ext).data(),
            final(ext).pos() == old(ext).pos() + Header::spec_size(),
            r == Header::decode(old(ext).data().subrange(
                old(ext).pos(),
                old(ext).pos() + Header::spec_size(),
            )),
    {
        let ghost base = ext.pos();
        let ghost whole = ext.data();
        let data_type = DataType::from_u8(ext.get_u8());
        let length = ext.get_u8();
        let from = DeviceType::from_u8(ext.get_u8());
        let to = DeviceType::from_u8(ext.get_u8());
        Header { data_type, length, from, to }
    }

}

impl Header {
    pub fn to_vec(&self) -> (r: Vec<u8>)
        ensures
            r@ == self.wire(),
            r@.len() == Header::spec_size(),
    {
        let mut vec_data: Vec<u8> = Vec::new();
        add_u8(&mut vec_data, self.data_type.to_u8());
        add_u8(&mut vec_data, self.length);
        add_u8(&mut vec_data, self.from.to_u8());
        add_u8(&mut vec_data, self.to.to_u8());
        proof {
            self.lemma_wire_len();
            assert(vec_data@ =~= self.wire());
        }
        vec_data
    }

    pub proof fn lemma_wire_len(self)
        ensures
            self.wire().len() == Header::spec_size(),
    {
    }

    /// Decoding the wire image of a value gives the value back.
    pub proof fn lemma_wire_roundtrip(self)
        ensures
            self.wire().len() == Header::spec_size(),
            Header::decode(self.wire()) == self,
    {
        self.data_type.lemma_code_roundtrip();
        self.from.lemma_code_roundtrip();
        self.to.lemma_code_roundtrip();
        assert(self.wire()[0] == seq![self.data_type.code()][0]);
        assert(self.wire()[1] == seq![self.length][0]);
        assert(self.wire()[2] == seq![self.from.code()][0]);
        assert(self.wire()[3] == seq![self.to.code()][0]);
    }
}

/// Link probe carrying the sender's millisecond clock.
#[derive(Clone, Copy, Debug, PartialEq, Eq, Structural)]
pub struct Ping {
    pub system_time: u64,
}

impl Ping {
    pub fn new() -> (r: Ping)
        ensures
            r.system_time == 0,
    {
        Ping {
            system_time: 0,
        }
    }

    /// Exact on-wire size of the payload.
    pub open spec fn spec_size() -> usize {
        8
    }

    pub fn size() -> (r: usize)
        ensures
            r == Ping::spec_size(),
    {
        8
    }

    /// The bytes this value puts on the wire.
    pub open spec fn wire(self) -> Seq<u8> {
        spec_u64_to_le_bytes(self.system_time)
    }

    /// Whether `self` is exactly what the payload bytes `s` decode to.
    pub open spec fn decoded(self, s: Seq<u8>) -> bool {
        self == Ping::decode(s)
    }

    /// The value a `spec_size()`-byte payload decodes to.
    pub open spec fn decode(s: Seq<u8>) -> Ping {
        Ping {
            system_time: spec_u64_from_le_bytes(s.subrange(0, 8)),
        }
    }

    pub fn parse(slice_data: &[u8]) -> (r: Result<Ping, &'static str>)
        ensures
            slice_data@.len() == Ping::spec_size() ==> (r matches Ok(v) && v == Ping::decode(
                slice_data@,
            )),
            slice_data@.len() != Ping::spec_size() ==> (r matches Err(_)),
    {
        if slice_data.len() == Ping::size() {
            let mut ext: Extractor = Extractor::from_slice(slice_data);
            let system_time = ext.get_u64();
            Ok(Ping { system_time })
        } else {
            Err("Wrong length")
        }
    }

}

impl Ping {
    pub fn to_vec(&self) -> (r: Vec<u8>)
        ensures
            r@ == self.wire(),
            r@.len() == Ping::spec_size(),
    {
        let mut vec_data: Vec<u8> = Vec::new();
        add_u64(&mut vec_data, self.system_time);
        proof {
            self.lemma_wire_len();
            assert(vec_data@ =~= self.wire());
        }
        vec_data
    }

    pub proof fn lemma_wire_len(self)
        ensures
            self.wire().len() == Ping::spec_size(),
    {
        lemma_u64_le_bytes_roundtrip(self.system_time);
    }

    /// Decoding the wire image of a value gives the value back.
    pub proof fn lemma_wire_roundtrip(self)
        ensures
            self.wire().len() == Ping::spec_size(),
            Ping::decode(self.wire()) == self,
    {
        lemma_u64_le_bytes_roundtrip(self.system_time);
        assert(self.wire().subrange(0, 8) =~= spec_u64_to_le_bytes(self.system_time));
    }
}

/// Receipt for one frame: when it arrived, what kind it was and its CRC.
#[derive(Clone, Copy, Debug, PartialEq, Eq, Structural)]
pub struct Ack {
    pub system_time: u64,
    pub data_type: DataType,
    pub crc16: u16,
}

impl Ack {
    pub fn new() -> (r: Ack)
        ensures
            r.system_time == 0,
            r.data_type == DataType::Nil,
            r.crc16 == 1,
    {
        Ack {
            system_time: 0,
            data_type: DataType::Nil,
            crc16: 1,
        }
    }

    /// Exact on-wire size of the payload.
    pub open spec fn spec_size() -> usize {
        11
    }

    pub fn size() -> (r: usize)
        ensures
            r == Ack::spec_size(),
    {
        11
    }

    /// The bytes this value puts on the wire.
    pub open spec fn wire(self) -> Seq<u8> {
        spec_u64_to_le_bytes(self.system_time) + seq![self.data_type.code()] + spec_u16_to_le_bytes(self.crc16)
    }

    /// Whether `self` is exactly what the payload bytes `s` decode to.
    pub open spec fn decoded(self, s: Seq<u8>) -> bool {
        self == Ack::decode(s)
    }

    /// The value a `spec_size()`-byte payload decodes to.
    pub open spec fn decode(s: Seq<u8>) -> Ack {
        Ack {
            system_time: spec_u64_from_le_bytes(s.subrange(0, 8)),
            data_type: DataType::spec_from_u8(s[8]),
            crc16: spec_u16_from_le_bytes(s.subrange(9, 11)),
        }
    }

    pub fn parse(slice_data: &[u8]) -> (r: Result<Ack, &'static str>)
        ensures
            slice_data@.len() == Ack::spec_size() ==> (r matches Ok(v) && v == Ack::decode(
                slice_data@,
            )),
            slice_data@.len() != Ack::spec_size() ==> (r matches Err(_)),
    {
        if slice_data.len() == Ack::size() {
            let mut ext: Extractor = Extractor::from_slice(slice_data);
            let system_time = ext.get_u64();
            let data_type = DataType::from_u8(ext.get_u8());
            let crc16 = ext.get_u16();
            Ok(Ack { system_time, data_type, crc16 })
        } else {
            Err("Wrong length")
        }
    }

}

impl Ack {
    pub fn to_vec(&self) -> (r: Vec<u8>)
        ensures
            r@ == self.wire(),
            r@.len() == Ack::spec_size(),
    {
        let mut vec_data: Vec<u8> = Vec::new();
        add_u64(&mut vec_data, self.system_time);
        add_u8(&mut vec_data, self.data_type.to_u8());
        add_u16(&mut vec_data, self.crc16);
        proof {
            self.lemma_wire_len();
            assert(vec_data@ =~= self.wire());
        }
        vec_data
    }

    pub proof fn lemma_wire_len(self)
        ensures
            self.wire().len() == Ack::spec_size(),
    {
        lemma_u64_le_bytes_roundtrip(self.system_time);
        lemma_u16_le_bytes_roundtrip(self.crc16);
    }

    /// Decoding the wire image of a value gives the value back.
    pub proof fn lemma_wire_roundtrip(self)
        ensures
            self.wire().len() == Ack::spec_size(),
            Ack::decode(self.wire()) == self,
    {
        lemma_u64_le_bytes_roundtrip(self.system_time);
        self.data_type.lemma_code_roundtrip();
        lemma_u16_le_bytes_roundtrip(self.crc16);
        assert(self.wire().subrange(0, 8) =~= spec_u64_to_le_bytes(self.system_time));
        assert(self.wire()[8] == seq![self.data_type.code()][0]);
        assert(self.wire().subrange(9, 11) =~= spec_u16_to_le_bytes(self.crc16));
    }
}

#[derive(Clone, Copy, Debug, PartialEq, Eq, Structural)]
pub struct Error {
    pub system_time: u64,
    pub error_flags_for_sensor: u32,
    pub error_flags_for_state: u32,
}

impl Error {
    pub fn new() -> (r: Error)
        ensures
            r.system_time == 0,
            r.error_flags_for_sensor == 0,
            r.error_flags_for_state == 0,
    {
        Error {
            system_time: 0,
            error_flags_for_sensor: 0,
            error_flags_for_state: 0,
        }
    }

    /// Exact on-wire size of the payload.
    pub open spec fn spec_size() -> usize {
        16
    }

    pub fn size() -> (r: usize)
        ensures
            r == Error::spec_size(),
    {
        16
    }

    /// The bytes this value puts on the wire.
    pub open spec fn wire(self) -> Seq<u8> {
        spec_u64_to_le_bytes(self.system_time) + spec_u32_to_le_bytes(self.error_flags_for_sensor) + spec_u32_to_le_bytes(self.error_flags_for_state)
    }

    /// Whether `self` is exactly what the payload bytes `s` decode to.
    pub open spec fn decoded(self, s: Seq<u8>) -> bool {
        self == Error::decode(s)
    }

    /// The value a `spec_size()`-byte payload decodes to.
    pub open spec fn decode(s: Seq<u8>) -> Error {
        Error {
            system_time: spec_u64_from_le_bytes(s.subrange(0, 8)),
            error_flags_for_sensor: spec_u32_from_le_bytes(s.subrange(8, 12)),
            error_flags_for_state: spec_u32_from_le_bytes(s.subrange(12, 16)),
        }
    }

    pub fn parse(slice_data: &[u8]) -> (r: Result<Error, &'static str>)
        ensures
            slice_data@.len() == Error::spec_size() ==> (r matches Ok(v) && v == Error::decode(
                slice_data@,
            )),
            slice_data@.len() != Error::spec_size() ==> (r matches Err(_)),
    {
        if slice_data.len() == Error::size() {
            let mut ext: Extractor = Extractor::from_slice(slice_data);
            let system_time = ext.get_u64();
            let error_flags_for_sensor = ext.get_u32();
            let error_flags_for_state = ext.get_u32();
            Ok(Error { system_time, error_flags_for_sensor, error_flags_for_state })
        } else {
            Err("Wrong length")
        }
    }

}

impl Error {
    pub fn to_vec(&self) -> (r: Vec<u8>)
        ensures
            r@ == self.wire(),
            r@.len() == Error::spec_size(),
    {
        let mut vec_data: Vec<u8> = Vec::new();
        add_u64(&mut vec_data, self.system_time);
        add_u32(&mut vec_data, self.error_flags_for_sensor);
        add_u32(&mut vec_data, self.error_flags_for_state);
        proof {
            self.lemma_wire_len();
            assert(vec_data@ =~= self.wire());
        }
        vec_data
    }

    pub proof fn lemma_wire_len(self)
        ensures
            self.wire().len() == Error::spec_size(),
    {
        lemma_u64_le_bytes_roundtrip(self.system_time);
        lemma_u32_le_bytes_roundtrip(self.error_flags_for_sensor);
        lemma_u32_le_bytes_roundtrip(self.error_flags_for_state);
    }

    /// Decoding the wire image of a value gives the value back.
    pub proof fn lemma_wire_roundtrip(self)
        ensures
            self.wire().len() == Error::spec_size(),
            Error::decode(self.wire()) == self,
    {
        lemma_u64_le_bytes_roundtrip(self.system_time);
        lemma_u32_le_bytes_roundtrip(self.error_flags_for_sensor);
        lemma_u32_le_bytes_roundtrip(self.error_flags_for_state);
        assert(self.wire().subrange(0, 8) =~= spec_u64_to_le_bytes(self.system_time));
        assert(self.wire().subrange(8, 12) =~= spec_u32_to_le_bytes(self.error_flags_for_sensor));
        assert(self.wire().subrange(12, 16) =~= spec_u32_to_le_bytes(self.error_flags_for_state));
    }
}

/// Asks the addressee to send one payload kind.
#[derive(Clone, Copy, Debug, PartialEq, Eq, Structural)]
pub struct Request {
    pub data_type: DataType,
}

impl Request {
    pub fn new() -> (r: Request)
        ensures
            r.data_type == DataType::Nil,
    {
        Request {
            data_type: DataType::Nil,
        }
    }

    /// Exact on-wire size of the payload.
    pub open spec fn spec_size() -> usize {
        1
    }

    pub fn size() -> (r: usize)
        ensures
            r == Request::spec_size(),
    {
        1
    }

    /// The bytes this value puts on the wire.
    pub open spec fn wire(self) -> Seq<u8> {
        seq![self.data_type.code()]
    }

    /// Whether `self` is exactly what the payload bytes `s` decode to.
    pub open spec fn decoded(self, s: Seq<u8>) -> bool {
        self == Request::decode(s)
    }

    /// The value a `spec_size()`-byte payload decodes to.
    pub open spec fn decode(s: Seq<u8>) -> Request {
        Request {
            data_type: DataType::spec_from_u8(s[0]),
        }
    }

    pub fn parse(slice_data: &[u8]) -> (r: Result<Request, &'static str>)
        ensures
            slice_data@.len() == Request::spec_size() ==> (r matches Ok(v) && v == Request::decode(
                slice_data@,
            )),
            slice_data@.len() != Request::spec_size() ==> (r matches Err(_)),
    {
        if slice_data.len() == Request::size() {
            let mut ext: Extractor = Extractor::from_slice(slice_data);
            let data_type = DataType::from_u8(ext.get_u8());
            Ok(Request { data_type })
        } else {
            Err("Wrong length")
        }
    }

}

impl Request {
    pub fn to_vec(&self) -> (r: Vec<u8>)
        ensures
            r@ == self.wire(),
            r@.len() == Request::spec_size(),
    {
        let mut vec_data: Vec<u8> = Vec::new();
        add_u8(&mut vec_data, self.data_type.to_u8());
        proof {
            self.lemma_wire_len();
            assert(vec_data@ =~= self.wire());
        }
        vec_data
    }

    pub proof fn lemma_wire_len(self)
        ensures
            self.wire().len() == Request::spec_size(),
    {
    }

    /// Decoding the wire image of a value gives the value back.
    pub proof fn lemma_wire_roundtrip(self)
        ensures
            self.wire().len() == Request::spec_size(),
            Request::decode(self.wire()) == self,
    {
        self.data_type.lemma_code_roundtrip();
        assert(self.wire()[0] == seq![self.data_type.code()][0]);
    }
}

#[derive(Clone, Copy, Debug, PartialEq, Eq, Structural)]
pub struct RequestOption {
    pub data_type: DataType,
    pub option: u32,
}

impl RequestOption {
    pub fn new() -> (r: RequestOption)
        ensures
            r.data_type == DataType::Nil,
            r.option == 0,
    {
        RequestOption {
            data_type: DataType::Nil,
            option: 0,
        }
    }

    /// Exact on-wire size of the payload.
    pub open spec fn spec_size() -> usize {
        5
    }

    pub fn size() -> (r: usize)
        ensures
            r == RequestOption::spec_size(),
    {
        5
    }

    /// The bytes this value puts on the wire.
    pub open spec fn wire(self) -> Seq<u8> {
        seq![self.data_type.code()] + spec_u32_to_le_bytes(self.option)
    }

    /// Whether `self` is exactly what the payload bytes `s` decode to.
    pub open spec fn decoded(self, s: Seq<u8>) -> bool {
        self == RequestOption::decode(s)
    }

    /// The value a `spec_size()`-byte payload decodes to.
    pub open spec fn decode(s: Seq<u8>) -> RequestOption {
        RequestOption {
            data_type: DataType::spec_from_u8(s[0]),
            option: spec_u32_from_le_bytes(s.subrange(1, 5)),
        }
    }

    pub fn parse(slice_data: &[u8]) -> (r: Result<RequestOption, &'static str>)
        ensures
            slice_data@.len() == RequestOption::spec_size() ==> (r matches Ok(v) && v == RequestOption::decode(
                slice_data@,
            )),
            slice_data@.len() != RequestOption::spec_size() ==> (r matches Err(_)),
    {
        if slice_data.len() == RequestOption::size() {
            let mut ext: Extractor = Extractor::from_slice(slice_data);
            let data_type = DataType::from_u8(ext.get_u8());
            let option = ext.get_u32();
            Ok(RequestOption { data_type, option })
        } else {
            Err("Wrong length")
        }
    }

}

impl RequestOption {
    pub fn to_vec(&self) -> (r: Vec<u8>)
        ensures
            r@ == self.wire(),
            r@.len() == RequestOption::spec_size(),
    {
        let mut vec_data: Vec<u8> = Vec::new();
        add_u8(&mut vec_data, self.data_type.to_u8());
        add_u32(&mut vec_data, self.option);
        proof {
            self.lemma_wire_len();
            assert(vec_data@ =~= self.wire());
        }
        vec_data
    }

    pub proof fn lemma_wire_len(self)
        ensures
            self.wire().len() == RequestOption::spec_size(),
    {
        lemma_u32_le_bytes_roundtrip(self.option);
    }

    /// Decoding the wire image of a value gives the value back.
    pub proof fn lemma_wire_roundtrip(self)
        ensures
            self.wire().len() == RequestOption::spec_size(),
            RequestOption::decode(self.wire()) == self,
    {
        self.data_type.lemma_code_roundtrip();
        lemma_u32_le_bytes_roundtrip(self.option);
        assert(self.wire()[0] == seq![self.data_type.code()][0]);
        assert(self.wire().subrange(1, 5) =~= spec_u32_to_le_bytes(self.option));
    }
}

#[derive(Clone, Copy, Debug, PartialEq, Eq, Structural)]
pub struct SystemInformation {
    pub crc32_bootloader: u32,
    pub crc32_application: u32,
}

impl SystemInformation {
    pub fn new() -> (r: SystemInformation)
        ensures
            r.crc32_bootloader == 0,
            r.crc32_application == 0,
    {
        SystemInformation {
            crc32_bootloader: 0,
            crc32_application: 0,
        }
    }

    /// Exact on-wire size of the payload.
    pub open spec fn spec_size() -> usize {
        8
    }

    pub fn size() -> (r: usize)
        ensures
            r == SystemInformation::spec_size(),
    {
        8
    }

    /// The bytes this value puts on the wire.
    pub open spec fn wire(self) -> Seq<u8> {
        spec_u32_to_le_bytes(self.crc32_bootloader) + spec_u32_to_le_bytes(self.crc32_application)
    }

    /// Whether `self` is exactly what the payload bytes `s` decode to.
    pub open spec fn decoded(self, s: Seq<u8>) -> bool {
        self == SystemInformation::decode(s)
    }

    /// The value a `spec_size()`-byte payload decodes to.
    pub open spec fn decode(s: Seq<u8>) -> SystemInformation {
        SystemInformation {
            crc32_bootloader: spec_u32_from_le_bytes(s.subrange(0, 4)),
            crc32_application: spec_u32_from_le_bytes(s.subrange(4, 8)),
        }
    }

    pub fn parse(slice_data: &[u8]) -> (r: Result<SystemInformation, &'static str>)
        ensures
            slice_data@.len() == SystemInformation::spec_size() ==> (r matches Ok(v) && v == SystemInformation::decode(
                slice_data@,
            )),
            slice_data@.len() != SystemInformation::spec_size() ==> (r matches Err(_)),
    {
        if slice_data.len() == SystemInformation::size() {
            let mut ext: Extractor = Extractor::from_slice(slice_data);
            let crc32_bootloader = ext.get_u32();
            let crc32_application = ext.get_u32();
            Ok(SystemInformation { crc32_bootloader, crc32_application })
        } else {
            Err("Wrong length")
        }
    }

}

impl SystemInformation {
    pub fn to_vec(&self) -> (r: Vec<u8>)
        ensures
            r@ == self.wire(),
            r@.len() == SystemInformation::spec_size(),
    {
        let mut vec_data: Vec<u8> = Vec::new();
        add_u32(&mut vec_data, self.crc32_bootloader);
        add_u32(&mut vec_data, self.crc32_application);
        proof {
            self.lemma_wire_len();
            assert(vec_data@ =~= self.wire());
        }
        vec_data
    }

    pub proof fn lemma_wire_len(self)
        ensures
            self.wire().len() == SystemInformation::spec_size(),
    {
        lemma_u32_le_bytes_roundtrip(self.crc32_bootloader);
        lemma_u32_le_bytes_roundtrip(self.crc32_application);
    }

    /// Decoding the wire image of a value gives the value back.
    pub proof fn lemma_wire_roundtrip(self)
        ensures
            self.wire().len() == SystemInformation::spec_size(),
            SystemInformation::decode(self.wire()) == self,
    {
        lemma_u32_le_bytes_roundtrip(self.crc32_bootloader);
        lemma_u32_le_bytes_roundtrip(self.crc32_application);
        assert(self.wire().subrange(0, 4) =~= spec_u32_to_le_bytes(self.crc32_bootloader));
        assert(self.wire().subrange(4, 8) =~= spec_u32_to_le_bytes(self.crc32_application));
    }
}

/// Firmware identity: update mode, hardware model, version and build date.
#[derive(Clone, Copy, Debug, PartialEq, Eq, Structural)]
pub struct Information {
    pub mode_update: ModeUpdate,
    pub model_number: ModelNumber,
    pub version: Version,
    pub year: u16,
    pub month: u8,
    pub day: u8,
}

impl Information {
    pub fn new() -> (r: Information)
        ensures
            r.mode_update == ModeUpdate::Nil,
            r.model_number == ModelNumber::Nil,
            r.version == (Version { build: 1, minor: 1, major: 21 }),
            r.year == 2021,
            r.month == 1,
            r.day == 1,
    {
        Information {
            mode_update: ModeUpdate::Nil,
            model_number: ModelNumber::Nil,
            version: Version { build: 1, minor: 1, major: 21 },
            year: 2021,
            month: 1,
            day: 1,
        }
    }

    /// Exact on-wire size of the payload.
    pub open spec fn spec_size() -> usize {
        13
    }

    pub fn size() -> (r: usize)
        ensures
            r == Information::spec_size(),
    {
        13
    }

    /// The bytes this value puts on the wire.
    pub open spec fn wire(self) -> Seq<u8> {
        seq![self.mode_update.code()] + spec_u32_to_le_bytes(self.model_number.code()) + spec_u32_to_le_bytes(self.version.spec_to_u32()) + spec_u16_to_le_bytes(self.year) + seq![self.month] + seq![self.day]
    }

    /// Whether `self` is exactly what the payload bytes `s` decode to.
    pub open spec fn decoded(self, s: Seq<u8>) -> bool {
        self == Information::decode(s)
    }

    /// The value a `spec_size()`-byte payload decodes to.
    pub open spec fn decode(s: Seq<u8>) -> Information {
        Information {
            mode_update: ModeUpdate::spec_from_u8(s[0]),
            model_number: ModelNumber::spec_from_u32(spec_u32_from_le_bytes(s.subrange(1, 5))),
            version: Version::spec_from_u32(spec_u32_from_le_bytes(s.subrange(5, 9))),
            year: spec_u16_from_le_bytes(s.subrange(9, 11)),
            month: s[11],
            day: s[12],
        }
    }

    pub fn parse(slice_data: &[u8]) -> (r: Result<Information, &'static str>)
        ensures
            slice_data@.len() == Information::spec_size() ==> (r matches Ok(v) && v == Information::decode(
                slice_data@,
            )),
            slice_data@.len() != Information::spec_size() ==> (r matches Err(_)),
    {
        if slice_data.len() == Information::size() {
            let mut ext: Extractor = Extractor::from_slice(slice_data);
            let mode_update = ModeUpdate::from_u8(ext.get_u8());
            let model_number = ModelNumber::from_u32(ext.get_u32());
            let version = Version::from_u32(ext.get_u32());
            let year = ext.get_u16();
            let month = ext.get_u8();
            let day = ext.get_u8();
            Ok(Information { mode_update, model_number, version, year, month, day })
        } else {
            Err("Wrong length")
        }
    }

}

impl Information {
    pub fn to_vec(&self) -> (r: Vec<u8>)
        ensures
            r@ == self.wire(),
            r@.len() == Information::spec_size(),
    {
        let mut vec_data: Vec<u8> = Vec::new();
        add_u8(&mut vec_data, self.mode_update.to_u8());
        add_u32(&mut vec_data, self.model_number.to_u32());
        add_u32(&mut vec_data, self.version.to_u32());
        add_u16(&mut vec_data, self.year);
        add_u8(&mut vec_data, self.month);
        add_u8(&mut vec_data, self.day);
        proof {
            self.lemma_wire_len();
            assert(vec_data@ =~= self.wire());
        }
        vec_data
    }

    pub proof fn lemma_wire_len(self)
        ensures
            self.wire().len() == Information::spec_size(),
    {
        lemma_u32_le_bytes_roundtrip(self.model_number.code());
        lemma_u32_le_bytes_roundtrip(self.version.spec_to_u32());
        lemma_u16_le_bytes_roundtrip(self.year);
    }

    /// Decoding the wire image of a value gives the value back.
    pub proof fn lemma_wire_roundtrip(self)
        ensures
            self.wire().len() == Information::spec_size(),
            Information::decode(self.wire()) == self,
    {
        self.mode_update.lemma_code_roundtrip();
        lemma_u32_le_bytes_roundtrip(self.model_number.code());
        self.model_number.lemma_code_roundtrip();
        lemma_u32_le_bytes_roundtrip(self.version.spec_to_u32());
        self.version.lemma_u32_roundtrip();
        lemma_u16_le_bytes_roundtrip(self.year);
        assert(self.wire()[0] == seq![self.mode_update.code()][0]);
        assert(self.wire().subrange(1, 5) =~= spec_u32_to_le_bytes(self.model_number.code()));
        assert(self.wire().subrange(5, 9) =~= spec_u32_to_le_bytes(self.version.spec_to_u32()));
        assert(self.wire().subrange(9, 11) =~= spec_u16_to_le_bytes(self.year));
        assert(self.wire()[11] == seq![self.month][0]);
        assert(self.wire()[12] == seq![self.day][0]);
    }
}

/// Where the updater should resume: the next 16-byte block index.
#[derive(Clone, Copy, Debug, PartialEq, Eq, Structural)]
pub struct UpdateLocation {
    pub index_block_next: u16,
}

impl UpdateLocation {
    pub fn new() -> (r: UpdateLocation)
        ensures
            r.index_block_next == 0,
    {
        UpdateLocation {
            index_block_next: 0,
        }
    }

    /// Exact on-wire size of the payload.
    pub open spec fn spec_size() -> usize {
        2
    }

    pub fn size() -> (r: usize)
        ensures
            r == UpdateLocation::spec_size(),
    {
        2
    }

    /// The bytes this value puts on the wire.
    pub open spec fn wire(self) -> Seq<u8> {
        spec_u16_to_le_bytes(self.index_block_next)
    }

    /// Whether `self` is exactly what the payload bytes `s` decode to.
    pub open spec fn decoded(self, s: Seq<u8>) -> bool {
        self == UpdateLocation::decode(s)
    }

    /// The value a `spec_size()`-byte payload decodes to.
    pub open spec fn decode(s: Seq<u8>) -> UpdateLocation {
        UpdateLocation {
            index_block_next: spec_u16_from_le_bytes(s.subrange(0, 2)),
        }
    }

    pub fn parse(slice_data: &[u8]) -> (r: Result<UpdateLocation, &'static str>)
        ensures
            slice_data@.len() == UpdateLocation::spec_size() ==> (r matches Ok(v) && v == UpdateLocation::decode(
                slice_data@,
            )),
            slice_data@.len() != UpdateLocation::spec_size() ==> (r matches Err(_)),
    {
        if slice_data.len() == UpdateLocation::size() {
            let mut ext: Extractor = Extractor::from_slice(slice_data);
            let index_block_next = ext.get_u16();
            Ok(UpdateLocation { index_block_next })
        } else {
            Err("Wrong length")
        }
    }

}

impl UpdateLocation {
    pub fn to_vec(&self) -> (r: Vec<u8>)
        ensures
            r@ == self.wire(),
            r@.len() == UpdateLocation::spec_size(),
    {
        let mut vec_data: Vec<u8> = Vec::new();
        add_u16(&mut vec_data, self.index_block_next);
        proof {
            self.lemma_wire_len();
            assert(vec_data@ =~= self.wire());
        }
        vec_data
    }

    pub proof fn lemma_wire_len(self)
        ensures
            self.wire().len() == UpdateLocation::spec_size(),
    {
        lemma_u16_le_bytes_roundtrip(self.index_block_next);
    }

    /// Decoding the wire image of a value gives the value back.
    pub proof fn lemma_wire_roundtrip(self)
        ensures
            self.wire().len() == UpdateLocation::spec_size(),
            UpdateLocation::decode(self.wire()) == self,
    {
        lemma_u16_le_bytes_roundtrip(self.index_block_next);
        assert(self.wire().subrange(0, 2) =~= spec_u16_to_le_bytes(self.index_block_next));
    }
}

/// One step of a firmware update: the block index and the block bytes.
#[derive(Clone, Debug)]
pub struct Update {
    pub index_block_next: u16,
    pub vec_data: Vec<u8>,
}

impl Update {
    pub fn new() -> (r: Update)
        ensures
            r.index_block_next == 0,
            r.vec_data@.len() == 0,
    {
        Update {
            index_block_next: 0,
            vec_data: Vec::new(),
        }
    }

    /// Size of the fixed leading part of the payload.
    pub open spec fn spec_size() -> usize {
        2
    }

    pub fn size() -> (r: usize)
        ensures
            r == Update::spec_size(),
    {
        2
    }

    /// The bytes this value puts on the wire.
    pub open spec fn wire(self) -> Seq<u8> {
        spec_u16_to_le_bytes(self.index_block_next) + self.vec_data@
    }

    /// Whether `self` is exactly what the payload bytes `s` decode to.
    pub open spec fn decoded(self, s: Seq<u8>) -> bool {
        &&& self.index_block_next == spec_u16_from_le_bytes(s.subrange(0, 2))
        &&& self.vec_data@ == s.subrange(2, s.len() as int)
    }

    pub fn parse(slice_data: &[u8]) -> (r: Result<Update, &'static str>)
        ensures
            slice_data@.len() > Update::spec_size() ==> (r matches Ok(v) && {
                &&& v.index_block_next == spec_u16_from_le_bytes(slice_data@.subrange(0, 2))
                &&& v.vec_data@ == slice_data@.subrange(2, slice_data@.len() as int)
            }),
            slice_data@.len() <= Update::spec_size() ==> (r matches Err(_)),
    {
        if slice_data.len() > Update::size() {
            let mut ext: Extractor = Extractor::from_slice(slice_data);
            let index_block_next = ext.get_u16();
            let vec_data: Vec<u8> = slice_to_vec(slice_subrange(
                slice_data,
                Update::size(),
                slice_data.len(),
            ));
            Ok(Update { index_block_next, vec_data })
        } else {
            Err("Wrong length")
        }
    }

    /// Total on-wire length of the payload.
    pub fn get_length(&self) -> (r: usize)
        requires
            Update::spec_size() + self.vec_data@.len() <= usize::MAX,
        ensures
            r == Update::spec_size() + self.vec_data@.len(),
    {
        Update::size() + self.vec_data.len()
    }

}

impl Update {
    pub fn to_vec(&self) -> (r: Vec<u8>)
        ensures
            r@ == self.wire(),
            r@.len() == Update::spec_size() + self.vec_data@.len(),
    {
        let mut vec_data: Vec<u8> = Vec::new();
        add_u16(&mut vec_data, self.index_block_next);
        add_slice(&mut vec_data, self.vec_data.as_slice());
        proof {
            self.lemma_wire_len();
            assert(vec_data@ =~= self.wire());
        }
        vec_data
    }

    pub proof fn lemma_wire_len(self)
        ensures
            self.wire().len() == Update::spec_size() + self.vec_data@.len(),
    {
        lemma_u16_le_bytes_roundtrip(self.index_block_next);
    }

    /// Decoding the wire image of a value gives the value back.
    pub proof fn lemma_wire_roundtrip(self)
        ensures
            self.wire().len() == Update::spec_size() + self.vec_data@.len(),
            spec_u16_from_le_bytes(self.wire().subrange(0, 2)) == self.index_block_next,
            self.wire().subrange(2, self.wire().len() as int) == self.vec_data@,
    {
        lemma_u16_le_bytes_roundtrip(self.index_block_next);
        assert(self.wire().subrange(0, 2) =~= spec_u16_to_le_bytes(self.index_block_next));
        assert(self.wire().subrange(2, self.wire().len() as int) =~= self.vec_data@);
    }
}

/// The device's 16-byte hardware address or unique id.
#[derive(Clone, Debug)]
pub struct Address {
    pub vec_address: Vec<u8>,
}

impl Address {
    pub fn new() -> (r: Address)
        ensures
            r.vec_address@.len() == 0,
    {
        Address {
            vec_address: Vec::new(),
        }
    }

    /// Exact on-wire size of the payload.
    pub open spec fn spec_size() -> usize {
        16
    }

    pub fn size() -> (r: usize)
        ensures
            r == Address::spec_size(),
    {
        16
    }

    /// The bytes this value puts on the wire.
    pub open spec fn wire(self) -> Seq<u8> {
        self.vec_address@
    }

    /// Whether `self` is exactly what the payload bytes `s` decode to.
    pub open spec fn decoded(self, s: Seq<u8>) -> bool {
        self.vec_address@ == s
    }

    pub fn parse(slice_data: &[u8]) -> (r: Result<Address, &'static str>)
        ensures
            slice_data@.len() == Address::spec_size() ==> (r matches Ok(v) && v.vec_address@ == slice_data@),
            slice_data@.len() != Address::spec_size() ==> (r matches Err(_)),
    {
        if slice_data.len() == Address::size() {
            Ok(Address { vec_address: slice_to_vec(slice_data) })
        } else {
            Err("Wrong length")
        }
    }

}

impl Address {
    pub fn to_vec(&self) -> (r: Vec<u8>)
        ensures
            r@ == self.wire(),
            r@.len() == self.vec_address@.len(),
    {
        let mut vec_data: Vec<u8> = Vec::new();
        add_slice(&mut vec_data, self.vec_address.as_slice());
        proof {
            self.lemma_wire_len();
            assert(vec_data@ =~= self.wire());
        }
        vec_data
    }

    pub proof fn lemma_wire_len(self)
        ensures
            self.wire().len() == self.vec_address@.len(),
    {
    }

    /// Decoding the wire image of a value gives the value back.
    pub proof fn lemma_wire_roundtrip(self)
        ensures
            self.wire() == self.vec_address@,
    {
    }
}

/// The 16-byte key that unlocks administrator commands.
#[derive(Clone, Debug)]
pub struct Administrator {
    pub vec_key: Vec<u8>,
}

impl Administrator {
    pub fn new() -> (r: Administrator)
        ensures
            r.vec_key@.len() == 0,
    {
        Administrator {
            vec_key: Vec::new(),
        }
    }

    /// Exact on-wire size of the payload.
    pub open spec fn spec_size() -> usize {
        16
    }

    pub fn size() -> (r: usize)
        ensures
            r == Administrator::spec_size(),
    {
        16
    }

    /// The bytes this value puts on the wire.
    pub open spec fn wire(self) -> Seq<u8> {
        self.vec_key@
    }

    /// Whether `self` is exactly what the payload bytes `s` decode to.
    pub open spec fn decoded(self, s: Seq<u8>) -> bool {
        self.vec_key@ == s
    }

    pub fn parse(slice_data: &[u8]) -> (r: Result<Administrator, &'static str>)
        ensures
            slice_data@.len() == Administrator::spec_size() ==> (r matches Ok(v) && v.vec_key@ == slice_data@),
            slice_data@.len() != Administrator::spec_size() ==> (r matches Err(_)),
    {
        if slice_data.len() == Administrator::size() {
            Ok(Administrator { vec_key: slice_to_vec(slice_data) })
        } else {
            Err("Wrong length")
        }
    }

}

impl Administrator {
    pub fn to_vec(&self) -> (r: Vec<u8>)
        ensures
            r@ == self.wire(),
            r@.len() == self.vec_key@.len(),
    {
        let mut vec_data: Vec<u8> = Vec::new();
        add_slice(&mut vec_data, self.vec_key.as_slice());
        proof {
            self.lemma_wire_len();
            assert(vec_data@ =~= self.wire());
        }
        vec_data
    }

    pub proof fn lemma_wire_len(self)
        ensures
            self.wire().len() == self.vec_key@.len(),
    {
    }

    /// Decoding the wire image of a value gives the value back.
    pub proof fn lemma_wire_roundtrip(self)
        ensures
            self.wire() == self.vec_key@,
    {
    }
}

#[derive(Clone, Copy, Debug, PartialEq, Eq, Structural)]
pub struct Count {
    pub time_system: u32,
    pub time_flight: u32,
    pub count_takeoff: u16,
    pub count_landing: u16,
    pub count_accident: u16,
}

impl Count {
    pub fn new() -> (r: Count)
        ensures
            r.time_system == 0,
            r.time_flight == 0,
            r.count_takeoff == 0,
            r.count_landing == 0,
            r.count_accident == 0,
    {
        Count {
            time_system: 0,
            time_flight: 0,
            count_takeoff: 0,
            count_landing: 0,
            count_accident: 0,
        }
    }

    /// Exact on-wire size of the payload.
    pub open spec fn spec_size() -> usize {
        14
    }

    pub fn size() -> (r: usize)
        ensures
            r == Count::spec_size(),
    {
        14
    }

    /// The bytes this value puts on the wire.
    pub open spec fn wire(self) -> Seq<u8> {
        spec_u32_to_le_bytes(self.time_system) + spec_u32_to_le_bytes(self.time_flight) + spec_u16_to_le_bytes(self.count_takeoff) + spec_u16_to_le_bytes(self.count_landing) + spec_u16_to_le_bytes(self.count_accident)
    }

    /// Whether `self` is exactly what the payload bytes `s` decode to.
    pub open spec fn decoded(self, s: Seq<u8>) -> bool {
        self == Count::decode(s)
    }

    /// The value a `spec_size()`-byte payload decodes to.
    pub open spec fn decode(s: Seq<u8>) -> Count {
        Count {
            time_system: spec_u32_from_le_bytes(s.subrange(0, 4)),
            time_flight: spec_u32_from_le_bytes(s.subrange(4, 8)),
            count_takeoff: spec_u16_from_le_bytes(s.subrange(8, 10)),
            count_landing: spec_u16_from_le_bytes(s.subrange(10, 12)),
            count_accident: spec_u16_from_le_bytes(s.subrange(12, 14)),
        }
    }

    pub fn parse(slice_data: &[u8]) -> (r: Result<Count, &'static str>)
        ensures
            slice_data@.len() == Count::spec_size() ==> (r matches Ok(v) && v == Count::decode(
                slice_data@,
            )),
            slice_data@.len() != Count::spec_size() ==> (r matches Err(_)),
    {
        if slice_data.len() == Count::size() {
            let mut ext: Extractor = Extractor::from_slice(slice_data);
            let time_system = ext.get_u32();
            let time_flight = ext.get_u32();
            let count_takeoff = ext.get_u16();
            let count_landing = ext.get_u16();
            let count_accident = ext.get_u16();
            Ok(Count { time_system, time_flight, count_takeoff, count_landing, count_accident })
        } else {
            Err("Wrong length")
        }
    }

}

impl Count {
    pub fn to_vec(&self) -> (r: Vec<u8>)
        ensures
            r@ == self.wire(),
            r@.len() == Count::spec_size(),
    {
        let mut vec_data: Vec<u8> = Vec::new();
        add_u32(&mut vec_data, self.time_system);
        add_u32(&mut vec_data, self.time_flight);
        add_u16(&mut vec_data, self.count_takeoff);
        add_u16(&mut vec_data, self.count_landing);
        add_u16(&mut vec_data, self.count_accident);
        proof {
            self.lemma_wire_len();
            assert(vec_data@ =~= self.wire());
        }
        vec_data
    }

    pub proof fn lemma_wire_len(self)
        ensures
            self.wire().len() == Count::spec_size(),
    {
        lemma_u32_le_bytes_roundtrip(self.time_system);
        lemma_u32_le_bytes_roundtrip(self.time_flight);
        lemma_u16_le_bytes_roundtrip(self.count_takeoff);
        lemma_u16_le_bytes_roundtrip(self.count_landing);
        lemma_u16_le_bytes_roundtrip(self.count_accident);
    }

    /// Decoding the wire image of a value gives the value back.
    pub proof fn lemma_wire_roundtrip(self)
        ensures
            self.wire().len() == Count::spec_size(),
            Count::decode(self.wire()) == self,
    {
        lemma_u32_le_bytes_roundtrip(self.time_system);
        lemma_u32_le_bytes_roundtrip(self.time_flight);
        lemma_u16_le_bytes_roundtrip(self.count_takeoff);
        lemma_u16_le_bytes_roundtrip(self.count_landing);
        lemma_u16_le_bytes_roundtrip(self.count_accident);
        assert(self.wire().subrange(0, 4) =~= spec_u32_to_le_bytes(self.time_system));
        assert(self.wire().subrange(4, 8) =~= spec_u32_to_le_bytes(self.time_flight));
        assert(self.wire().subrange(8, 10) =~= spec_u16_to_le_bytes(self.count_takeoff));
        assert(self.wire().subrange(10, 12) =~= spec_u16_to_le_bytes(self.count_landing));
        assert(self.wire().subrange(12, 14) =~= spec_u16_to_le_bytes(self.count_accident));
    }
}

/// The drone's headline state: modes, speed grade, orientation, battery.
#[derive(Clone, Copy, Debug, PartialEq, Eq, Structural)]
pub struct State {
    pub mode_system: ModeSystem,
    pub mode_flight: ModeFlight,
    pub mode_control_flight: ModeControlFlight,
    pub mode_movement: ModeMovement,
    pub headless: Headless,
    pub control_speed: u8,
    pub sensor_orientation: SensorOrientation,
    pub battery: u8,
}

impl State {
    pub fn new() -> (r: State)
        ensures
            r.mode_system == ModeSystem::Nil,
            r.mode_flight == ModeFlight::Nil,
            r.mode_control_flight == ModeControlFlight::Nil,
            r.mode_movement == ModeMovement::Nil,
            r.headless == Headless::Nil,
            r.control_speed == 0,
            r.sensor_orientation == SensorOrientation::Nil,
            r.battery == 0,
    {
        State {
            mode_system: ModeSystem::Nil,
            mode_flight: ModeFlight::Nil,
            mode_control_flight: ModeControlFlight::Nil,
            mode_movement: ModeMovement::Nil,
            headless: Headless::Nil,
            control_speed: 0,
            sensor_orientation: SensorOrientation::Nil,
            battery: 0,
        }
    }

    /// Exact on-wire size of the payload.
    pub open spec fn spec_size() -> usize {
        8
    }

    pub fn size() -> (r: usize)
        ensures
            r == State::spec_size(),
    {
        8
    }

    /// The bytes this value puts on the wire.
    pub open spec fn wire(self) -> Seq<u8> {
        seq![self.mode_system.code()] + seq![self.mode_flight.code()] + seq![self.mode_control_flight.code()] + seq![self.mode_movement.code()] + seq![self.headless.code()] + seq![self.control_speed] + seq![self.sensor_orientation.code()] + seq![self.battery]
    }

    /// Whether `self` is exactly what the payload bytes `s` decode to.
    pub open spec fn decoded(self, s: Seq<u8>) -> bool {
        self == State::decode(s)
    }

    /// The value a `spec_size()`-byte payload decodes to.
    pub open spec fn decode(s: Seq<u8>) -> State {
        State {
            mode_system: ModeSystem::spec_from_u8(s[0]),
            mode_flight: ModeFlight::spec_from_u8(s[1]),
            mode_control_flight: ModeControlFlight::spec_from_u8(s[2]),
            mode_movement: ModeMovement::spec_from_u8(s[3]),
            headless: Headless::spec_from_u8(s[4]),
            control_speed: s[5],
            sensor_orientation: SensorOrientation::spec_from_u8(s[6]),
            battery: s[7],
        }
    }

    pub fn parse(slice_data: &[u8]) -> (r: Result<State, &'static str>)
        ensures
            slice_data@.len() == State::spec_size() ==> (r matches Ok(v) && v == State::decode(
                slice_data@,
            )),
            slice_data@.len() != State::spec_size() ==> (r matches Err(_)),
    {
        if slice_data.len() == State::size() {
            let mut ext: Extractor = Extractor::from_slice(slice_data);
            let mode_system = ModeSystem::from_u8(ext.get_u8());
            let mode_flight = ModeFlight::from_u8(ext.get_u8());
            let mode_control_flight = ModeControlFlight::from_u8(ext.get_u8());
            let mode_movement = ModeMovement::from_u8(ext.get_u8());
            let headless = Headless::from_u8(ext.get_u8());
            let control_speed = ext.get_u8();
            let sensor_orientation = SensorOrientation::from_u8(ext.get_u8());
            let battery = ext.get_u8();
            Ok(State { mode_system, mode_flight, mode_control_flight, mode_movement, headless, control_speed, sensor_orientation, battery })
        } else {
            Err("Wrong length")
        }
    }

}

impl State {
    pub fn to_vec(&self) -> (r: Vec<u8>)
        ensures
            r@ == self.wire(),
            r@.len() == State::spec_size(),
    {
        let mut vec_data: Vec<u8> = Vec::new();
        add_u8(&mut vec_data, self.mode_system.to_u8());
        add_u8(&mut vec_data, self.mode_flight.to_u8());
        add_u8(&mut vec_data, self.mode_control_flight.to_u8());
        add_u8(&mut vec_data, self.mode_movement.to_u8());
        add_u8(&mut vec_data, self.headless.to_u8());
        add_u8(&mut vec_data, self.control_speed);
        add_u8(&mut vec_data, self.sensor_orientation.to_u8());
        add_u8(&mut vec_data, self.battery);
        proof {
            self.lemma_wire_len();
            assert(vec_data@ =~= self.wire());
        }
        vec_data
    }

    pub proof fn lemma_wire_len(self)
        ensures
            self.wire().len() == State::spec_size(),
    {
    }

    /// Decoding the wire image of a value gives the value back.
    pub proof fn lemma_wire_roundtrip(self)
        ensures
            self.wire().len() == State::spec_size(),
            State::decode(self.wire()) == self,
    {
        self.mode_system.lemma_code_roundtrip();
        self.mode_flight.lemma_code_roundtrip();
        self.mode_control_flight.lemma_code_roundtrip();
        self.mode_movement.lemma_code_roundtrip();
        self.headless.lemma_code_roundtrip();
        self.sensor_orientation.lemma_code_roundtrip();
        assert(self.wire()[0] == seq![self.mode_system.code()][0]);
        assert(self.wire()[1] == seq![self.mode_flight.code()][0]);
        assert(self.wire()[2] == seq![self.mode_control_flight.code()][0]);
        assert(self.wire()[3] == seq![self.mode_movement.code()][0]);
        assert(self.wire()[4] == seq![self.headless.code()][0]);
        assert(self.wire()[5] == seq![self.control_speed][0]);
        assert(self.wire()[6] == seq![self.sensor_orientation.code()][0]);
        assert(self.wire()[7] == seq![self.battery][0]);
    }
}


/// What the dispatcher hands back when a frame cannot be decoded: the header
/// fields it was decoded under and the offending payload bytes.
#[derive(Clone, Debug)]
pub struct ErrorMessage {
    pub data_type: DataType,
    pub length: u8,
    pub vec_data: Vec<u8>,
}

/// Every payload a validated frame can decode to.
#[derive(Clone, Debug)]
pub enum Data {
    Nil,
    ErrorMessage(ErrorMessage),
    Header(Header),
    Ping(Ping),
    Ack(Ack),
    Error(Error),
    Request(Request),
    RequestOption(RequestOption),
    Address(Address),
    Information(Information),
    Update(Update),
    UpdateLocation(UpdateLocation),
    SystemInformation(SystemInformation),
    Administrator(Administrator),
    Monitor0(monitor::Monitor0),
    Monitor4(monitor::Monitor4),
    Monitor8(monitor::Monitor8),
    Quad8(control::Quad8),
    Quad8AndRequestData(control::Quad8AndRequestData),
    ControlPosition16(control::Position16),
    ControlPosition(control::Position),
    Command(command::Command),
    CommandLightEvent(command::CommandLightEvent),
    CommandLightEventColor(command::CommandLightEventColor),
    Pairing(communication::Pairing),
    Rssi(communication::Rssi),
    BattleIrMessage(battle::IrMessage),
    BattleLightEventCommand(battle::LightEventCommand),
    BattleIrMessageLightEventCommand(battle::IrMessageLightEventCommand),
    LightManual(light::Manual),
    LightMode(light::Mode),
    LightEvent(light::Event),
    RawMotion(sensor::RawMotion),
    RawFlow(sensor::RawFlow),
    State(State),
    Attitude(sensor::Attitude),
    Position(sensor::Position),
    PositionVelocity(sensor::PositionVelocity),
    Motion(sensor::Motion),
    Range(sensor::Range),
    Count(Count),
    Bias(sensor::Bias),
    Trim(sensor::Trim),
    LostConnection(communication::LostConnection),
    MagnetometerOffset(sensor::MagnetometerOffset),
    MotorV(motor::MotorV),
    MotorRV(motor::MotorRV),
    MotorVA(motor::MotorVA),
    MotorRVA(motor::MotorRVA),
    MotorSingleV(motor::MotorSingleV),
    MotorSingleRV(motor::MotorSingleRV),
    Melody(buzzer::Melody),
    BuzzerScale(buzzer::BuzzerScale),
    BuzzerHz(buzzer::BuzzerHz),
    Button(button::Button),
    Joystick(joystick::Joystick),
    DisplayClearAll(display::ClearAll),
    DisplayClear(display::Clear),
    DisplayInvert(display::Invert),
    DisplayDrawPoint(display::DrawPoint),
    DisplayDrawLine(display::DrawLine),
    DisplayDrawRect(display::DrawRect),
    DisplayDrawCircle(display::DrawCircle),
    DisplayDrawString(display::DrawString),
    DisplayDrawStringAlign(display::DrawStringAlign),
    DisplayDrawImage(display::DrawImage),
    NavigationTarget(navigation::Target),
    NavigationTargetLight(navigation::TargetLight),
    NavigationLocation(navigation::Location),
    NavigationMonitor(navigation::Monitor),
    NavigationHeading(navigation::Heading),
    NavigationCounter(navigation::Counter),
    NavigationSatellite(navigation::Satellite),
    NavigationLocationAdjust(navigation::LocationAdjust),
    UwbPosition(external::uwb::Position),
    TagData(Vec<external::tag::TagData>),
    ExternalCameraState(external::camera::State),
    ExternalCameraCommand(external::camera::Command),
}

} // verus!
