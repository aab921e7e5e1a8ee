//! The dispatcher: from a validated frame's header and payload bytes to the
//! decoded `Data` value.
//!
//! A header whose `length` does not match the payload, a kind whose expected
//! sizes the length does not meet, and a kind the dispatcher does not know
//! all come back as `Data::ErrorMessage` carrying the offending header fields
//! and bytes; the dispatcher never fails and never panics.

use crate::protocol::{button, buzzer, command, communication, control, display, joystick, 
    light, monitor, motor, navigation, sensor};
use crate::protocol::{Ack, Address, Administrator, Count, Data, DataType, Error, ErrorMessage,
    Header, Information, Ping, Request, RequestOption, SystemInformation, Update, UpdateLocation};
use vstd::prelude::*;
use vstd::slice::slice_subrange;

verus! {

/// The dispatcher's rejection: the header fields and the payload handed back.
pub open spec fn spec_error_message(r: Data, header: Header, data: Seq<u8>) -> bool {
    &&& r matches Data::ErrorMessage(e)
    &&& e.data_type == header.data_type
    &&& e.length == header.length
    &&& e.vec_data@ == data
}

/// What `check` returns for every header and payload, by payload kind.
pub open spec fn spec_dispatch(r: Data, header: Header, s: Seq<u8>) -> bool {
    if header.length != s.len() {
        spec_error_message(r, header, s)
    } else {
        match header.data_type {
            DataType::Ping => {
                if s.len() == 8 {
                    (r matches Data::Ping(v) && v.decoded(s))
                } else {
                    spec_error_message(r, header, s)
                }
            },
            DataType::Ack => {
                if s.len() == 11 {
                    (r matches Data::Ack(v) && v.decoded(s))
                } else {
                    spec_error_message(r, header, s)
                }
            },
            DataType::Error => {
                if s.len() == 16 {
                    (r matches Data::Error(v) && v.decoded(s))
                } else {
                    spec_error_message(r, header, s)
                }
            },
            DataType::Request => {
                if s.len() == 1 {
                    (r matches Data::Request(v) && v.decoded(s))
                } else if s.len() == 5 {
                    (r matches Data::RequestOption(v) && v.decoded(s))
                } else {
                    spec_error_message(r, header, s)
                }
            },
            DataType::Address => {
                if s.len() == 16 {
                    (r matches Data::Address(v) && v.decoded(s))
                } else {
                    spec_error_message(r, header, s)
                }
            },
            DataType::Information => {
                if s.len() == 13 {
                    (r matches Data::Information(v) && v.decoded(s))
                } else {
                    spec_error_message(r, header, s)
                }
            },
            DataType::Update => {
                if s.len() > 2 {
                    (r matches Data::Update(v) && v.decoded(s))
                } else {
                    spec_error_message(r, header, s)
                }
            },
            DataType::UpdateLocation => {
                if s.len() == 2 {
                    (r matches Data::UpdateLocation(v) && v.decoded(s))
                } else {
                    spec_error_message(r, header, s)
                }
            },
            DataType::SystemInformation => {
                if s.len() == 8 {
                    (r matches Data::SystemInformation(v) && v.decoded(s))
                } else {
                    spec_error_message(r, header, s)
                }
            },
            DataType::Administrator => {
                if s.len() == 16 {
                    (r matches Data::Administrator(v) && v.decoded(s))
                } else {
                    spec_error_message(r, header, s)
                }
            },
            DataType::Control => {
                if s.len() == 4 {
                    (r matches Data::Quad8(v) && v.decoded(s))
                } else if s.len() == 5 {
                    (r matches Data::Quad8AndRequestData(v) && v.decoded(s))
                } else if s.len() == 12 {
                    (r matches Data::ControlPosition16(v) && v.decoded(s))
                } else if s.len() == 20 {
                    (r matches Data::ControlPosition(v) && v.decoded(s))
                } else {
                    spec_error_message(r, header, s)
                }
            },
            DataType::Command => {
                if s.len() == 2 {
                    (r matches Data::Command(v) && v.decoded(s))
                } else {
                    spec_error_message(r, header, s)
                }
            },
            DataType::Pairing => {
                if s.len() == 11 {
                    (r matches Data::Pairing(v) && v.decoded(s))
                } else {
                    spec_error_message(r, header, s)
                }
            },
            DataType::Rssi => {
                if s.len() == 1 {
                    (r matches Data::Rssi(v) && v.decoded(s))
                } else {
                    spec_error_message(r, header, s)
                }
            },
            DataType::LightManual => {
                if s.len() == 3 {
                    (r matches Data::LightManual(v) && v.decoded(s))
                } else {
                    spec_error_message(r, header, s)
                }
            },
            DataType::LightMode => {
                if s.len() == 3 {
                    (r matches Data::LightMode(v) && v.decoded(s))
                } else {
                    spec_error_message(r, header, s)
                }
            },
            DataType::LightEvent => {
                if s.len() == 4 {
                    (r matches Data::LightEvent(v) && v.decoded(s))
                } else {
                    spec_error_message(r, header, s)
                }
            },
            DataType::RawMotion => {
                if s.len() == 12 {
                    (r matches Data::RawMotion(v) && v.decoded(s))
                } else {
                    spec_error_message(r, header, s)
                }
            },
            DataType::RawFlow => {
                if s.len() == 8 {
                    (r matches Data::RawFlow(v) && v.decoded(s))
                } else {
                    spec_error_message(r, header, s)
                }
            },
            DataType::Attitude => {
                if s.len() == 6 {
                    (r matches Data::Attitude(v) && v.decoded(s))
                } else {
                    spec_error_message(r, header, s)
                }
            },
            DataType::Position => {
                if s.len() == 12 {
                    (r matches Data::Position(v) && v.decoded(s))
                } else if s.len() == 24 {
                    (r matches Data::PositionVelocity(v) && v.decoded(s))
                } else {
                    spec_error_message(r, header, s)
                }
            },
            DataType::Motion => {
                if s.len() == 18 {
                    (r matches Data::Motion(v) && v.decoded(s))
                } else {
                    spec_error_message(r, header, s)
                }
            },
            DataType::Range => {
                if s.len() == 12 {
                    (r matches Data::Range(v) && v.decoded(s))
                } else {
                    spec_error_message(r, header, s)
                }
            },
            DataType::Count => {
                if s.len() == 14 {
                    (r matches Data::Count(v) && v.decoded(s))
                } else {
                    spec_error_message(r, header, s)
                }
            },
            DataType::Bias => {
                if s.len() == 12 {
                    (r matches Data::Bias(v) && v.decoded(s))
                } else {
                    spec_error_message(r, header, s)
                }
            },
            DataType::Trim => {
                if s.len() == 8 {
                    (r matches Data::Trim(v) && v.decoded(s))
                } else {
                    spec_error_message(r, header, s)
                }
            },
            DataType::LostConnection => {
                if s.len() == 8 {
                    (r matches Data::LostConnection(v) && v.decoded(s))
                } else {
                    spec_error_message(r, header, s)
                }
            },
            DataType::MagnetometerOffset => {
                if s.len() == 2 {
                    (r matches Data::MagnetometerOffset(v) && v.decoded(s))
                } else {
                    spec_error_message(r, header, s)
                }
            },
            DataType::Motor => {
                if s.len() == 2 {
                    (r matches Data::MotorV(v) && v.decoded(s))
                } else if s.len() == 3 {
                    (r matches Data::MotorRV(v) && v.decoded(s))
                } else if s.len() == 4 {
                    (r matches Data::MotorVA(v) && v.decoded(s))
                } else if s.len() == 5 {
                    (r matches Data::MotorRVA(v) && v.decoded(s))
                } else {
                    spec_error_message(r, header, s)
                }
            },
            DataType::MotorSingle => {
                if s.len() == 3 {
                    (r matches Data::MotorSingleV(v) && v.decoded(s))
                } else if s.len() == 4 {
                    (r matches Data::MotorSingleRV(v) && v.decoded(s))
                } else {
                    spec_error_message(r, header, s)
                }
            },
            DataType::Buzzer => {
                if s.len() == 2 {
                    (r matches Data::Melody(v) && v.decoded(s))
                } else if s.len() == 5 {
                    (r matches Data::BuzzerScale(v) && v.decoded(s))
                } else {
                    spec_error_message(r, header, s)
                }
            },
            DataType::Button => {
                if s.len() == 3 {
                    (r matches Data::Button(v) && v.decoded(s))
                } else {
                    spec_error_message(r, header, s)
                }
            },
            DataType::Joystick => {
                if s.len() == 8 {
                    (r matches Data::Joystick(v) && v.decoded(s))
                } else {
                    spec_error_message(r, header, s)
                }
            },
            DataType::DisplayClear => {
                if s.len() == 1 {
                    (r matches Data::DisplayClearAll(v) && v.decoded(s))
                } else if s.len() == 9 {
                    (r matches Data::DisplayClear(v) && v.decoded(s))
                } else {
                    spec_error_message(r, header, s)
                }
            },
            DataType::DisplayInvert => {
                if s.len() == 8 {
                    (r matches Data::DisplayInvert(v) && v.decoded(s))
                } else {
                    spec_error_message(r, header, s)
                }
            },
            DataType::DisplayDrawPoint => {
                if s.len() == 5 {
                    (r matches Data::DisplayDrawPoint(v) && v.decoded(s))
                } else {
                    spec_error_message(r, header, s)
                }
            },
            DataType::DisplayDrawLine => {
                if s.len() == 10 {
                    (r matches Data::DisplayDrawLine(v) && v.decoded(s))
                } else {
                    spec_error_message(r, header, s)
                }
            },
            DataType::DisplayDrawRect => {
                if s.len() == 11 {
                    (r matches Data::DisplayDrawRect(v) && v.decoded(s))
                } else {
                    spec_error_message(r, header, s)
                }
            },
            DataType::DisplayDrawCircle => {
                if s.len() == 8 {
                    (r matches Data::DisplayDrawCircle(v) && v.decoded(s))
                } else {
                    spec_error_message(r, header, s)
                }
            },
            DataType::DisplayDrawString => {
                if s.len() > 6 {
                    (r matches Data::DisplayDrawString(v) && v.decoded(s))
                } else {
                    spec_error_message(r, header, s)
                }
            },
            DataType::DisplayDrawStringAlign => {
                if s.len() > 9 {
                    (r matches Data::DisplayDrawStringAlign(v) && v.decoded(s))
                } else {
                    spec_error_message(r, header, s)
                }
            },
            DataType::DisplayDrawImage => {
                if s.len() > 8 {
                    (r matches Data::DisplayDrawImage(v) && v.decoded(s))
                } else {
                    spec_error_message(r, header, s)
                }
            },
            DataType::NavigationTarget => {
                if s.len() == 48 {
                    (r matches Data::NavigationTarget(v) && v.decoded(s))
                } else if s.len() == 24 {
                    (r matches Data::NavigationTargetLight(v) && v.decoded(s))
                } else {
                    spec_error_message(r, header, s)
                }
            },
            DataType::NavigationLocation => {
                if s.len() == 22 {
                    (r matches Data::NavigationLocation(v) && v.decoded(s))
                } else {
                    spec_error_message(r, header, s)
                }
            },
            DataType::NavigationMonitor => {
                if s.len() == 20 {
                    (r matches Data::NavigationMonitor(v) && v.decoded(s))
                } else {
                    spec_error_message(r, header, s)
                }
            },
            DataType::NavigationHeading => {
                if s.len() == 16 {
                    (r matches Data::NavigationHeading(v) && v.decoded(s))
                } else {
                    spec_error_message(r, header, s)
                }
            },
            DataType::NavigationCounter => {
                if s.len() == 4 {
                    (r matches Data::NavigationCounter(v) && v.decoded(s))
                } else {
                    spec_error_message(r, header, s)
                }
            },
            DataType::NavigationSatellite => {
                if s.len() == 20 {
                    (r matches Data::NavigationSatellite(v) && v.decoded(s))
                } else {
                    spec_error_message(r, header, s)
                }
            },
            DataType::NavigationLocationAdjust => {
                if s.len() == 17 {
                    (r matches Data::NavigationLocationAdjust(v) && v.decoded(s))
                } else {
                    spec_error_message(r, header, s)
                }
            },
            DataType::Monitor => {
                if s.len() >= 1 {
                    match monitor::HeaderType::spec_from_u8(s[0]) {
                        monitor::HeaderType::Monitor0 => {
                            if s.len() - 1 >= 2 {
                                (r matches Data::Monitor0(v) && v.decoded(s.subrange(
                                    1,
                                    s.len() as int,
                                )))
                            } else {
                                spec_error_message(r, header, s)
                            }
                        },
                        monitor::HeaderType::Monitor4 => {
                            if s.len() - 1 >= 6 {
                                (r matches Data::Monitor4(v) && v.decoded(s.subrange(
                                    1,
                                    s.len() as int,
                                )))
                            } else {
                                spec_error_message(r, header, s)
                            }
                        },
                        monitor::HeaderType::Monitor8 => {
                            if s.len() - 1 >= 10 {
                                (r matches Data::Monitor8(v) && v.decoded(s.subrange(
                                    1,
                                    s.len() as int,
                                )))
                            } else {
                                spec_error_message(r, header, s)
                            }
                        },
                    }
                } else {
                    spec_error_message(r, header, s)
                }
            },
            _ => spec_error_message(r, header, s),
        }
    }
}

/// Decodes one validated frame.  The header's `length` must equal the payload
/// length and the kind's expected size, else the result is the
/// `Data::ErrorMessage` echo of the input.
pub fn check(header: &Header, vec_data: &Vec<u8>) -> (r: Data)
    ensures
        spec_dispatch(r, *header, vec_data@),
{
    if header.length as usize != vec_data.len() {
        return Data::ErrorMessage(ErrorMessage {
            data_type: header.data_type,
            length: header.length,
            vec_data: vec_data.clone(),
        });
    }
    let length: usize = header.length as usize;
    match header.data_type {
        DataType::Ping => {
            if length == Ping::size() {
                match Ping::parse(vec_data.as_slice()) {
                    Ok(v) => {
                        return Data::Ping(v);
                    },
                    _ => {},
                }
            }
        },
        DataType::Ack => {
            if length == Ack::size() {
                match Ack::parse(vec_data.as_slice()) {
                    Ok(v) => {
                        return Data::Ack(v);
                    },
                    _ => {},
                }
            }
        },
        DataType::Error => {
            if length == Error::size() {
                match Error::parse(vec_data.as_slice()) {
                    Ok(v) => {
                        return Data::Error(v);
                    },
                    _ => {},
                }
            }
        },
        DataType::Request => {
            if length == Request::size() {
                match Request::parse(vec_data.as_slice()) {
                    Ok(v) => {
                        return Data::Request(v);
                    },
                    _ => {},
                }
            } else if length == RequestOption::size() {
                match RequestOption::parse(vec_data.as_slice()) {
                    Ok(v) => {
                        return Data::RequestOption(v);
                    },
                    _ => {},
                }
            }
        },
        DataType::Address => {
            if length == Address::size() {
                match Address::parse(vec_data.as_slice()) {
                    Ok(v) => {
                        return Data::Address(v);
                    },
                    _ => {},
                }
            }
        },
        DataType::Information => {
            if length == Information::size() {
                match Information::parse(vec_data.as_slice()) {
                    Ok(v) => {
                        return Data::Information(v);
                    },
                    _ => {},
                }
            }
        },
        DataType::Update => {
            if length > Update::size() {
                match Update::parse(vec_data.as_slice()) {
                    Ok(v) => {
                        return Data::Update(v);
                    },
                    _ => {},
                }
            }
        },
        DataType::UpdateLocation => {
            if length == UpdateLocation::size() {
                match UpdateLocation::parse(vec_data.as_slice()) {
                    Ok(v) => {
                        return Data::UpdateLocation(v);
                    },
                    _ => {},
                }
            }
        },
        DataType::SystemInformation => {
            if length == SystemInformation::size() {
                match SystemInformation::parse(vec_data.as_slice()) {
                    Ok(v) => {
                        return Data::SystemInformation(v);
                    },
                    _ => {},
                }
            }
        },
        DataType::Administrator => {
            if length == Administrator::size() {
                match Administrator::parse(vec_data.as_slice()) {
                    Ok(v) => {
                        return Data::Administrator(v);
                    },
                    _ => {},
                }
            }
        },
        DataType::Control => {
            if length == control::Quad8::size() {
                match control::Quad8::parse(vec_data.as_slice()) {
                    Ok(v) => {
                        return Data::Quad8(v);
                    },
                    _ => {},
                }
            } else if length == control::Quad8AndRequestData::size() {
                match control::Quad8AndRequestData::parse(vec_data.as_slice()) {
                    Ok(v) => {
                        return Data::Quad8AndRequestData(v);
                    },
                    _ => {},
                }
            } else if length == control::Position16::size() {
                match control::Position16::parse(vec_data.as_slice()) {
                    Ok(v) => {
                        return Data::ControlPosition16(v);
                    },
                    _ => {},
                }
            } else if length == control::Position::size() {
                match control::Position::parse(vec_data.as_slice()) {
                    Ok(v) => {
                        return Data::ControlPosition(v);
                    },
                    _ => {},
                }
            }
        },
        DataType::Command => {
            if length == command::Command::size() {
                match command::Command::parse(vec_data.as_slice()) {
                    Ok(v) => {
                        return Data::Command(v);
                    },
                    _ => {},
                }
            }
        },
        DataType::Pairing => {
            if length == communication::Pairing::size() {
                match communication::Pairing::parse(vec_data.as_slice()) {
                    Ok(v) => {
                        return Data::Pairing(v);
                    },
                    _ => {},
                }
            }
        },
        DataType::Rssi => {
            if length == communication::Rssi::size() {
                match communication::Rssi::parse(vec_data.as_slice()) {
                    Ok(v) => {
                        return Data::Rssi(v);
                    },
                    _ => {},
                }
            }
        },
        DataType::LightManual => {
            if length == light::Manual::size() {
                match light::Manual::parse(vec_data.as_slice()) {
                    Ok(v) => {
                        return Data::LightManual(v);
                    },
                    _ => {},
                }
            }
        },
        DataType::LightMode => {
            if length == light::Mode::size() {
                match light::Mode::parse(vec_data.as_slice()) {
                    Ok(v) => {
                        return Data::LightMode(v);
                    },
                    _ => {},
                }
            }
        },
        DataType::LightEvent => {
            if length == light::Event::size() {
                match light::Event::parse(vec_data.as_slice()) {
                    Ok(v) => {
                        return Data::LightEvent(v);
                    },
                    _ => {},
                }
            }
        },
        DataType::RawMotion => {
            if length == sensor::RawMotion::size() {
                match sensor::RawMotion::parse(vec_data.as_slice()) {
                    Ok(v) => {
                        return Data::RawMotion(v);
                    },
                    _ => {},
                }
            }
        },
        DataType::RawFlow => {
            if length == sensor::RawFlow::size() {
                match sensor::RawFlow::parse(vec_data.as_slice()) {
                    Ok(v) => {
                        return Data::RawFlow(v);
                    },
                    _ => {},
                }
            }
        },
        DataType::Attitude => {
            if length == sensor::Attitude::size() {
                match sensor::Attitude::parse(vec_data.as_slice()) {
                    Ok(v) => {
                        return Data::Attitude(v);
                    },
                    _ => {},
                }
            }
        },
        DataType::Position => {
            if length == sensor::Position::size() {
                match sensor::Position::parse(vec_data.as_slice()) {
                    Ok(v) => {
                        return Data::Position(v);
                    },
                    _ => {},
                }
            } else if length == sensor::PositionVelocity::size() {
                match sensor::PositionVelocity::parse(vec_data.as_slice()) {
                    Ok(v) => {
                        return Data::PositionVelocity(v);
                    },
                    _ => {},
                }
            }
        },
        DataType::Motion => {
            if length == sensor::Motion::size() {
                match sensor::Motion::parse(vec_data.as_slice()) {
                    Ok(v) => {
                        return Data::Motion(v);
                    },
                    _ => {},
                }
            }
        },
        DataType::Range => {
            if length == sensor::Range::size() {
                match sensor::Range::parse(vec_data.as_slice()) {
                    Ok(v) => {
                        return Data::Range(v);
                    },
                    _ => {},
                }
            }
        },
        DataType::Count => {
            if length == Count::size() {
                match Count::parse(vec_data.as_slice()) {
                    Ok(v) => {
                        return Data::Count(v);
                    },
                    _ => {},
                }
            }
        },
        DataType::Bias => {
            if length == sensor::Bias::size() {
                match sensor::Bias::parse(vec_data.as_slice()) {
                    Ok(v) => {
                        return Data::Bias(v);
                    },
                    _ => {},
                }
            }
        },
        DataType::Trim => {
            if length == sensor::Trim::size() {
                match sensor::Trim::parse(vec_data.as_slice()) {
                    Ok(v) => {
                        return Data::Trim(v);
                    },
                    _ => {},
                }
            }
        },
        DataType::LostConnection => {
            if length == communication::LostConnection::size() {
                match communication::LostConnection::parse(vec_data.as_slice()) {
                    Ok(v) => {
                        return Data::LostConnection(v);
                    },
                    _ => {},
                }
            }
        },
        DataType::MagnetometerOffset => {
            if length == sensor::MagnetometerOffset::size() {
                match sensor::MagnetometerOffset::parse(vec_data.as_slice()) {
                    Ok(v) => {
                        return Data::MagnetometerOffset(v);
                    },
                    _ => {},
                }
            }
        },
        DataType::Motor => {
            if length == motor::MotorV::size() {
                match motor::MotorV::parse(vec_data.as_slice()) {
                    Ok(v) => {
                        return Data::MotorV(v);
                    },
                    _ => {},
                }
            } else if length == motor::MotorRV::size() {
                match motor::MotorRV::parse(vec_data.as_slice()) {
                    Ok(v) => {
                        return Data::MotorRV(v);
                    },
                    _ => {},
                }
            } else if length == motor::MotorVA::size() {
                match motor::MotorVA::parse(vec_data.as_slice()) {
                    Ok(v) => {
                        return Data::MotorVA(v);
                    },
                    _ => {},
                }
            } else if length == motor::MotorRVA::size() {
                match motor::MotorRVA::parse(vec_data.as_slice()) {
                    Ok(v) => {
                        return Data::MotorRVA(v);
                    },
                    _ => {},
                }
            }
        },
        DataType::MotorSingle => {
            if length == motor::MotorSingleV::size() {
                match motor::MotorSingleV::parse(vec_data.as_slice()) {
                    Ok(v) => {
                        return Data::MotorSingleV(v);
                    },
                    _ => {},
                }
            } else if length == motor::MotorSingleRV::size() {
                match motor::MotorSingleRV::parse(vec_data.as_slice()) {
                    Ok(v) => {
                        return Data::MotorSingleRV(v);
                    },
                    _ => {},
                }
            }
        },
        DataType::Buzzer => {
            if length == buzzer::Melody::size() {
                match buzzer::Melody::parse(vec_data.as_slice()) {
                    Ok(v) => {
                        return Data::Melody(v);
                    },
                    _ => {},
                }
            } else if length == buzzer::BuzzerScale::size() {
                match buzzer::BuzzerScale::parse(vec_data.as_slice()) {
                    Ok(v) => {
                        return Data::BuzzerScale(v);
                    },
                    _ => {},
                }
            }
        },
        DataType::Button => {
            if length == button::Button::size() {
                match button::Button::parse(vec_data.as_slice()) {
                    Ok(v) => {
                        return Data::Button(v);
                    },
                    _ => {},
                }
            }
        },
        DataType::Joystick => {
            if length == joystick::Joystick::size() {
                match joystick::Joystick::parse(vec_data.as_slice()) {
                    Ok(v) => {
                        return Data::Joystick(v);
                    },
                    _ => {},
                }
            }
        },
        DataType::DisplayClear => {
            if length == display::ClearAll::size() {
                match display::ClearAll::parse(vec_data.as_slice()) {
                    Ok(v) => {
                        return Data::DisplayClearAll(v);
                    },
                    _ => {},
                }
            } else if length == display::Clear::size() {
                match display::Clear::parse(vec_data.as_slice()) {
                    Ok(v) => {
                        return Data::DisplayClear(v);
                    },
                    _ => {},
                }
            }
        },
        DataType::DisplayInvert => {
            if length == display::Invert::size() {
                match display::Invert::parse(vec_data.as_slice()) {
                    Ok(v) => {
                        return Data::DisplayInvert(v);
                    },
                    _ => {},
                }
            }
        },
        DataType::DisplayDrawPoint => {
            if length == display::DrawPoint::size() {
                match display::DrawPoint::parse(vec_data.as_slice()) {
                    Ok(v) => {
                        return Data::DisplayDrawPoint(v);
                    },
                    _ => {},
                }
            }
        },
        DataType::DisplayDrawLine => {
            if length == display::DrawLine::size() {
                match display::DrawLine::parse(vec_data.as_slice()) {
                    Ok(v) => {
                        return Data::DisplayDrawLine(v);
                    },
                    _ => {},
                }
            }
        },
        DataType::DisplayDrawRect => {
            if length == display::DrawRect::size() {
                match display::DrawRect::parse(vec_data.as_slice()) {
                    Ok(v) => {
                        return Data::DisplayDrawRect(v);
                    },
                    _ => {},
                }
            }
        },
        DataType::DisplayDrawCircle => {
            if length == display::DrawCircle::size() {
                match display::DrawCircle::parse(vec_data.as_slice()) {
                    Ok(v) => {
                        return Data::DisplayDrawCircle(v);
                    },
                    _ => {},
                }
            }
        },
        DataType::DisplayDrawString => {
            if length > display::DrawString::size() {
                match display::DrawString::parse(vec_data.as_slice()) {
                    Ok(v) => {
                        return Data::DisplayDrawString(v);
                    },
                    _ => {},
                }
            }
        },
        DataType::DisplayDrawStringAlign => {
            if length > display::DrawStringAlign::size() {
                match display::DrawStringAlign::parse(vec_data.as_slice()) {
                    Ok(v) => {
                        return Data::DisplayDrawStringAlign(v);
                    },
                    _ => {},
                }
            }
        },
        DataType::DisplayDrawImage => {
            if length > display::DrawImage::size() {
                match display::DrawImage::parse(vec_data.as_slice()) {
                    Ok(v) => {
                        return Data::DisplayDrawImage(v);
                    },
                    _ => {},
                }
            }
        },
        DataType::NavigationTarget => {
            if length == navigation::Target::size() {
                match navigation::Target::parse(vec_data.as_slice()) {
                    Ok(v) => {
                        return Data::NavigationTarget(v);
                    },
                    _ => {},
                }
            } else if length == navigation::TargetLight::size() {
                match navigation::TargetLight::parse(vec_data.as_slice()) {
                    Ok(v) => {
                        return Data::NavigationTargetLight(v);
                    },
                    _ => {},
                }
            }
        },
        DataType::NavigationLocation => {
            if length == navigation::Location::size() {
                match navigation::Location::parse(vec_data.as_slice()) {
                    Ok(v) => {
                        return Data::NavigationLocation(v);
                    },
                    _ => {},
                }
            }
        },
        DataType::NavigationMonitor => {
            if length == navigation::Monitor::size() {
                match navigation::Monitor::parse(vec_data.as_slice()) {
                    Ok(v) => {
                        return Data::NavigationMonitor(v);
                    },
                    _ => {},
                }
            }
        },
        DataType::NavigationHeading => {
            if length == navigation::Heading::size() {
                match navigation::Heading::parse(vec_data.as_slice()) {
                    Ok(v) => {
                        return Data::NavigationHeading(v);
                    },
                    _ => {},
                }
            }
        },
        DataType::NavigationCounter => {
            if length == navigation::Counter::size() {
                match navigation::Counter::parse(vec_data.as_slice()) {
                    Ok(v) => {
                        return Data::NavigationCounter(v);
                    },
                    _ => {},
                }
            }
        },
        DataType::NavigationSatellite => {
            if length == navigation::Satellite::size() {
                match navigation::Satellite::parse(vec_data.as_slice()) {
                    Ok(v) => {
                        return Data::NavigationSatellite(v);
                    },
                    _ => {},
                }
            }
        },
        DataType::NavigationLocationAdjust => {
            if length == navigation::LocationAdjust::size() {
                match navigation::LocationAdjust::parse(vec_data.as_slice()) {
                    Ok(v) => {
                        return Data::NavigationLocationAdjust(v);
                    },
                    _ => {},
                }
            }
        },
        DataType::Monitor => {
            if vec_data.len() >= 1 {
                let rest = slice_subrange(vec_data.as_slice(), 1, vec_data.len());
                match monitor::HeaderType::from_u8(vec_data[0]) {
                    monitor::HeaderType::Monitor0 => {
                        match monitor::Monitor0::parse(rest) {
                            Ok(v) => {
                                return Data::Monitor0(v);
                            },
                            _ => {},
                        }
                    },
                    monitor::HeaderType::Monitor4 => {
                        match monitor::Monitor4::parse(rest) {
                            Ok(v) => {
                                return Data::Monitor4(v);
                            },
                            _ => {},
                        }
                    },
                    monitor::HeaderType::Monitor8 => {
                        match monitor::Monitor8::parse(rest) {
                            Ok(v) => {
                                return Data::Monitor8(v);
                            },
                            _ => {},
                        }
                    },
                }
            }
        },
        _ => {},
    }
    Data::ErrorMessage(ErrorMessage {
        data_type: header.data_type,
        length: header.length,
        vec_data: vec_data.clone(),
    })
}

} // verus!
