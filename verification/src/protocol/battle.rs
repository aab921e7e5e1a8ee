//! Battle payloads: infrared shots bundled with light and command effects.

use crate::communication::extractor::Extractor;
use crate::communication::serializer::{add_u8};
use vstd::bytes::*;
use vstd::prelude::*;

use crate::protocol::command::Command;
use crate::protocol::light::{Color, Event};


verus! {

#[derive(Clone, Copy, Debug, PartialEq, Eq, Structural)]
pub struct IrMessage {
    pub ir_message: u8,
}

impl IrMessage {
    pub fn new() -> (r: IrMessage)
        ensures
            r.ir_message == 0,
    {
        IrMessage {
            ir_message: 0,
        }
    }

    /// Exact on-wire size of the payload.
    pub open spec fn spec_size() -> usize {
        1
    }

    pub fn size() -> (r: usize)
        ensures
            r == IrMessage::spec_size(),
    {
        1
    }

    /// The bytes this value puts on the wire.
    pub open spec fn wire(self) -> Seq<u8> {
        seq![self.ir_message]
    }

    /// Whether `self` is exactly what the payload bytes `s` decode to.
    pub open spec fn decoded(self, s: Seq<u8>) -> bool {
        self == IrMessage::decode(s)
    }

    /// The value a `spec_size()`-byte payload decodes to.
    pub open spec fn decode(s: Seq<u8>) -> IrMessage {
        IrMessage {
            ir_message: s[0],
        }
    }

    pub fn parse(slice_data: &[u8]) -> (r: Result<IrMessage, &'static str>)
        ensures
            slice_data@.len() == IrMessage::spec_size() ==> (r matches Ok(v) && v == IrMessage::decode(
                slice_data@,
            )),
            slice_data@.len() != IrMessage::spec_size() ==> (r matches Err(_)),
    {
        if slice_data.len() == IrMessage::size() {
            let mut ext: Extractor = Extractor::from_slice(slice_data);
            let ir_message = ext.get_u8();
            Ok(IrMessage { ir_message })
        } else {
            Err("Wrong length")
        }
    }

}

impl IrMessage {
    pub fn to_vec(&self) -> (r: Vec<u8>)
        ensures
            r@ == self.wire(),
            r@.len() == IrMessage::spec_size(),
    {
        let mut vec_data: Vec<u8> = Vec::new();
        add_u8(&mut vec_data, self.ir_message);
        proof {
            self.lemma_wire_len();
            assert(vec_data@ =~= self.wire());
        }
        vec_data
    }

    pub proof fn lemma_wire_len(self)
        ensures
            self.wire().len() == IrMessage::spec_size(),
    {
    }

    /// Decoding the wire image of a value gives the value back.
    pub proof fn lemma_wire_roundtrip(self)
        ensures
            self.wire().len() == IrMessage::spec_size(),
            IrMessage::decode(self.wire()) == self,
    {
        assert(self.wire()[0] == seq![self.ir_message][0]);
    }
}

#[derive(Clone, Copy, Debug, PartialEq, Eq, Structural)]
pub struct LightEventCommand {
    pub event: Event,
    pub color: Color,
    pub command: Command,
}

impl LightEventCommand {
    pub fn new() -> (r: LightEventCommand)
        ensures
    {
        LightEventCommand {
            event: Event::new(),
            color: Color::new(),
            command: Command::new(),
        }
    }

    /// Exact on-wire size of the payload.
    pub open spec fn spec_size() -> usize {
        9
    }

    pub fn size() -> (r: usize)
        ensures
            r == LightEventCommand::spec_size(),
    {
        9
    }

    /// The bytes this value puts on the wire.
    pub open spec fn wire(self) -> Seq<u8> {
        self.event.wire() + self.color.wire() + self.command.wire()
    }

    /// Whether `self` is exactly what the payload bytes `s` decode to.
    pub open spec fn decoded(self, s: Seq<u8>) -> bool {
        self == LightEventCommand::decode(s)
    }

    /// The value a `spec_size()`-byte payload decodes to.
    pub open spec fn decode(s: Seq<u8>) -> LightEventCommand {
        LightEventCommand {
            event: Event::decode(s.subrange(0, 4)),
            color: Color::decode(s.subrange(4, 7)),
            command: Command::decode(s.subrange(7, 9)),
        }
    }

    pub fn parse(slice_data: &[u8]) -> (r: Result<LightEventCommand, &'static str>)
        ensures
            slice_data@.len() == LightEventCommand::spec_size() ==> (r matches Ok(v) && v == LightEventCommand::decode(
                slice_data@,
            )),
            slice_data@.len() != LightEventCommand::spec_size() ==> (r matches Err(_)),
    {
        if slice_data.len() == LightEventCommand::size() {
            let mut ext: Extractor = Extractor::from_slice(slice_data);
            let event = Event::read(&mut ext);
            let color = Color::read(&mut ext);
            let command = Command::read(&mut ext);
            Ok(LightEventCommand { event, color, command })
        } else {
            Err("Wrong length")
        }
    }

}

impl LightEventCommand {
    pub fn to_vec(&self) -> (r: Vec<u8>)
        ensures
            r@ == self.wire(),
            r@.len() == LightEventCommand::spec_size(),
    {
        let mut vec_data: Vec<u8> = Vec::new();
        let mut event_part = self.event.to_vec();
        vec_data.append(&mut event_part);
        let mut color_part = self.color.to_vec();
        vec_data.append(&mut color_part);
        let mut command_part = self.command.to_vec();
        vec_data.append(&mut command_part);
        proof {
            self.lemma_wire_len();
            assert(vec_data@ =~= self.wire());
        }
        vec_data
    }

    pub proof fn lemma_wire_len(self)
        ensures
            self.wire().len() == LightEventCommand::spec_size(),
    {
        self.event.lemma_wire_len();
        self.color.lemma_wire_len();
        self.command.lemma_wire_len();
    }

    /// Decoding the wire image of a value gives the value back.
    pub proof fn lemma_wire_roundtrip(self)
        ensures
            self.wire().len() == LightEventCommand::spec_size(),
            LightEventCommand::decode(self.wire()) == self,
    {
        self.event.lemma_wire_roundtrip();
        self.color.lemma_wire_roundtrip();
        self.command.lemma_wire_roundtrip();
        assert(self.wire().subrange(0, 4) =~= self.event.wire());
        assert(self.wire().subrange(4, 7) =~= self.color.wire());
        assert(self.wire().subrange(7, 9) =~= self.command.wire());
    }
}

#[derive(Clone, Copy, Debug, PartialEq, Eq, Structural)]
pub struct IrMessageLightEventCommand {
    pub ir_message: u8,
    pub event: Event,
    pub color: Color,
    pub command: Command,
}

impl IrMessageLightEventCommand {
    pub fn new() -> (r: IrMessageLightEventCommand)
        ensures
            r.ir_message == 0,
    {
        IrMessageLightEventCommand {
            ir_message: 0,
            event: Event::new(),
            color: Color::new(),
            command: Command::new(),
        }
    }

    /// Exact on-wire size of the payload.
    pub open spec fn spec_size() -> usize {
        10
    }

    pub fn size() -> (r: usize)
        ensures
            r == IrMessageLightEventCommand::spec_size(),
    {
        10
    }

    /// The bytes this value puts on the wire.
    pub open spec fn wire(self) -> Seq<u8> {
        seq![self.ir_message] + self.event.wire() + self.color.wire() + self.command.wire()
    }

    /// Whether `self` is exactly what the payload bytes `s` decode to.
    pub open spec fn decoded(self, s: Seq<u8>) -> bool {
        self == IrMessageLightEventCommand::decode(s)
    }

    /// The value a `spec_size()`-byte payload decodes to.
    pub open spec fn decode(s: Seq<u8>) -> IrMessageLightEventCommand {
        IrMessageLightEventCommand {
            ir_message: s[0],
            event: Event::decode(s.subrange(1, 5)),
            color: Color::decode(s.subrange(5, 8)),
            command: Command::decode(s.subrange(8, 10)),
        }
    }

    pub fn parse(slice_data: &[u8]) -> (r: Result<IrMessageLightEventCommand, &'static str>)
        ensures
            slice_data@.len() == IrMessageLightEventCommand::spec_size() ==> (r matches Ok(v) && v == IrMessageLightEventCommand::decode(
                slice_data@,
            )),
            slice_data@.len() != IrMessageLightEventCommand::spec_size() ==> (r matches Err(_)),
    {
        if slice_data.len() == IrMessageLightEventCommand::size() {
            let mut ext: Extractor = Extractor::from_slice(slice_data);
            let ir_message = ext.get_u8();
            let event = Event::read(&mut ext);
            let color = Color::read(&mut ext);
            let command = Command::read(&mut ext);
            Ok(IrMessageLightEventCommand { ir_message, event, color, command })
        } else {
            Err("Wrong length")
        }
    }

}

impl IrMessageLightEventCommand {
    pub fn to_vec(&self) -> (r: Vec<u8>)
        ensures
            r@ == self.wire(),
            r@.len() == IrMessageLightEventCommand::spec_size(),
    {
        let mut vec_data: Vec<u8> = Vec::new();
        add_u8(&mut vec_data, self.ir_message);
        let mut event_part = self.event.to_vec();
        vec_data.append(&mut event_part);
        let mut color_part = self.color.to_vec();
        vec_data.append(&mut color_part);
        let mut command_part = self.command.to_vec();
        vec_data.append(&mut command_part);
        proof {
            self.lemma_wire_len();
            assert(vec_data@ =~= self.wire());
        }
        vec_data
    }

    pub proof fn lemma_wire_len(self)
        ensures
            self.wire().len() == IrMessageLightEventCommand::spec_size(),
    {
        self.event.lemma_wire_len();
        self.color.lemma_wire_len();
        self.command.lemma_wire_len();
    }

    /// Decoding the wire image of a value gives the value back.
    pub proof fn lemma_wire_roundtrip(self)
        ensures
            self.wire().len() == IrMessageLightEventCommand::spec_size(),
            IrMessageLightEventCommand::decode(self.wire()) == self,
    {
        self.event.lemma_wire_roundtrip();
        self.color.lemma_wire_roundtrip();
        self.command.lemma_wire_roundtrip();
        assert(self.wire()[0] == seq![self.ir_message][0]);
        assert(self.wire().subrange(1, 5) =~= self.event.wire());
        assert(self.wire().subrange(5, 8) =~= self.color.wire());
        assert(self.wire().subrange(8, 10) =~= self.command.wire());
    }
}

} // verus!
