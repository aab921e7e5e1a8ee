//! The framing state machine.
//!
//! Bytes are enqueued with `push`/`push_slice` and consumed by `check`, which
//! steps the machine until the queue is empty or a complete, CRC-valid frame
//! is held (`State::Loaded`).  A failed byte resets the machine to `Ready`;
//! the stream is never poisoned, the next start marker opens a new frame.
//!
//! The machine itself is modelled by the ghost record [`RxState`] and the
//! spec function [`rx_step`]; `call` implements exactly one `rx_step`, and
//! `check` implements [`rx_drain`].  Because the receiver has no clock, every
//! stepping method takes the current time in milliseconds; the inter-byte
//! stall bound (30 ms) and the liveness window (1200 ms) are judged against
//! that argument.

use crate::communication::crc16;
use crate::communication::messaging::{Section, State};
use crate::communication::serializer::add_slice;
use crate::protocol::{DataType, Header};
use crate::system::DeviceType;
use vstd::bytes::*;
use vstd::prelude::*;

verus! {

/// Everything the framing machine remembers between two bytes.
pub ghost struct RxState {
    pub state: State,
    pub section: Section,
    pub section_old: Section,
    pub index: int,
    pub header: Header,
    pub time_receive_start: u64,
    pub crc16_calculated: u16,
    pub crc16: u16,
    pub vec_data: Seq<u8>,
    pub vec_data_all: Seq<u8>,
}

/// The bounds every reachable machine state satisfies.
pub open spec fn rx_wf(s: RxState) -> bool {
    &&& 0 <= s.index <= 256
    &&& (s.section == Section::Data ==> 1 <= s.header.length)
    &&& (s.state == State::Receiving && s.section == Section::Data && s.section_old
        == Section::Data ==> s.index < s.header.length)
}

/// The machine as it starts and as `clear_all` leaves it.
pub open spec fn rx_initial() -> RxState {
    RxState {
        state: State::Ready,
        section: Section::Start,
        section_old: Section::End,
        index: 0,
        header: Header {
            data_type: DataType::Nil,
            length: 0,
            from: DeviceType::Base,
            to: DeviceType::Drone,
        },
        time_receive_start: 0,
        crc16_calculated: 0,
        crc16: 0,
        vec_data: Seq::<u8>::empty(),
        vec_data_all: Seq::<u8>::empty(),
    }
}

/// One byte through the machine at time `now`: the exact transition `call`
/// performs.
pub open spec fn rx_step(s: RxState, b: u8, now: u64) -> RxState {
    if s.state == State::Loaded {
        s
    } else {
        let s1 = if s.state == State::Ready {
            RxState { section: Section::Start, index: 0, ..s }
        } else if s.state == State::Receiving && now > s.time_receive_start && now
            - s.time_receive_start > 30 {
            RxState { state: State::Ready, section: Section::Start, index: 0, ..s }
        } else {
            s
        };
        let s2 = if s1.section != s1.section_old {
            RxState { index: 0, section_old: s1.section, ..s1 }
        } else {
            s1
        };
        let s3 = match s2.section {
            Section::Start => {
                if s2.index == 0 {
                    if b == 0x0A {
                        RxState { time_receive_start: now, state: State::Receiving, ..s2 }
                    } else {
                        RxState { state: State::Failure, ..s2 }
                    }
                } else if s2.index == 1 {
                    if b == 0x55 {
                        RxState { section: Section::Header, ..s2 }
                    } else {
                        RxState { state: State::Failure, ..s2 }
                    }
                } else {
                    RxState { state: State::Failure, ..s2 }
                }
            },
            Section::Header => {
                if s2.index == 0 {
                    if DataType::spec_is_defined(b) {
                        RxState {
                            header: Header { data_type: DataType::spec_from_u8(b), ..s2.header },
                            crc16_calculated: crc16::spec_crc16_byte(0, b),
                            ..s2
                        }
                    } else {
                        RxState { state: State::Failure, ..s2 }
                    }
                } else if s2.index == 1 {
                    RxState {
                        header: Header { length: b, ..s2.header },
                        crc16_calculated: crc16::spec_crc16_byte(s2.crc16_calculated, b),
                        ..s2
                    }
                } else if s2.index == 2 {
                    if DeviceType::spec_is_defined(b) {
                        RxState {
                            header: Header { from: DeviceType::spec_from_u8(b), ..s2.header },
                            crc16_calculated: crc16::spec_crc16_byte(s2.crc16_calculated, b),
                            ..s2
                        }
                    } else {
                        RxState { state: State::Failure, ..s2 }
                    }
                } else if s2.index == 3 {
                    if DeviceType::spec_is_defined(b) {
                        RxState {
                            header: Header { to: DeviceType::spec_from_u8(b), ..s2.header },
                            crc16_calculated: crc16::spec_crc16_byte(s2.crc16_calculated, b),
                            vec_data: Seq::<u8>::empty(),
                            section: if s2.header.length == 0 {
                                Section::End
                            } else {
                                Section::Data
                            },
                            ..s2
                        }
                    } else {
                        RxState { state: State::Failure, ..s2 }
                    }
                } else {
                    RxState { state: State::Failure, ..s2 }
                }
            },
            Section::Data => {
                RxState {
                    vec_data: s2.vec_data.push(b),
                    crc16_calculated: crc16::spec_crc16_byte(s2.crc16_calculated, b),
                    section: if s2.index + 1 == s2.header.length {
                        Section::End
                    } else {
                        Section::Data
                    },
                    ..s2
                }
            },
            Section::End => {
                if s2.index == 0 {
                    RxState { crc16: b as u16, ..s2 }
                } else if s2.index == 1 {
                    let crc_received = spec_u16_from_le_bytes(seq![(s2.crc16 as u8), b]);
                    if crc_received == s2.crc16_calculated {
                        RxState {
                            crc16: crc_received,
                            state: State::Loaded,
                            vec_data_all: seq![0x0Au8, 0x55u8] + s2.header.wire() + s2.vec_data
                                + spec_u16_to_le_bytes(crc_received),
                            ..s2
                        }
                    } else {
                        RxState { crc16: crc_received, state: State::Failure, ..s2 }
                    }
                } else {
                    RxState { state: State::Failure, ..s2 }
                }
            },
        };
        if s3.state == State::Receiving {
            RxState { index: s3.index + 1, ..s3 }
        } else if s3.state == State::Failure {
            RxState { state: State::Ready, ..s3 }
        } else {
            s3
        }
    }
}

/// Steps the machine over queued bytes until the queue is empty or a frame is
/// loaded; yields the final machine and the bytes left in the queue.  This is
/// the exact behaviour of `check`.
pub open spec fn rx_drain(s: RxState, q: Seq<u8>, now: u64) -> (RxState, Seq<u8>)
    decreases q.len(),
{
    if s.state == State::Loaded || q.len() == 0 {
        (s, q)
    } else {
        rx_drain(rx_step(s, q[0], now), q.subrange(1, q.len() as int), now)
    }
}

pub struct Receiver {
    state: State,
    section_old: Section,
    section: Section,
    index: usize,
    header: Header,
    time_receive_start: u64,
    time_receive_complete: u64,
    crc16_calculated: u16,
    crc16: u16,
    queue_buffer: Vec<u8>,
    queue_head: usize,
    vec_data: Vec<u8>,
    vec_data_all: Vec<u8>,
    flag_connected: bool,
}

impl Receiver {
    /// The ghost machine this receiver is in.
    pub closed spec fn rx(self) -> RxState {
        RxState {
            state: self.state,
            section: self.section,
            section_old: self.section_old,
            index: self.index as int,
            header: self.header,
            time_receive_start: self.time_receive_start,
            crc16_calculated: self.crc16_calculated,
            crc16: self.crc16,
            vec_data: self.vec_data@,
            vec_data_all: self.vec_data_all@,
        }
    }

    /// The bytes pushed but not yet consumed, oldest first.
    pub closed spec fn queue(self) -> Seq<u8> {
        self.queue_buffer@.subrange(self.queue_head as int, self.queue_buffer@.len() as int)
    }

    /// The liveness flag: latched true by a loaded frame, dropped by `check`
    /// after 1200 ms without a frame start.
    pub closed spec fn connected(self) -> bool {
        self.flag_connected
    }

    pub open spec fn wf(self) -> bool {
        rx_wf(self.rx()) && self.queue_wf()
    }

    pub closed spec fn queue_wf(self) -> bool {
        self.queue_head <= self.queue_buffer@.len()
    }

    pub fn new() -> (r: Receiver)
        ensures
            r.wf(),
            r.rx() == rx_initial(),
            r.queue() == Seq::<u8>::empty(),
            r.connected() == false,
    {
        let r = Receiver {
            state: State::Ready,
            section_old: Section::End,
            section: Section::Start,
            index: 0,
            header: Header {
                data_type: DataType::Nil,
                length: 0,
                from: DeviceType::Base,
                to: DeviceType::Drone,
            },
            time_receive_start: 0,
            time_receive_complete: 0,
            crc16_calculated: 0,
            crc16: 0,
            queue_buffer: Vec::new(),
            queue_head: 0,
            vec_data: Vec::new(),
            vec_data_all: Vec::new(),
            flag_connected: false,
        };
        proof {
            assert(r.queue() =~= Seq::<u8>::empty());
        }
        r
    }

    pub fn is_buffer_cleared(&self) -> (r: bool)
        requires
            self.wf(),
        ensures
            r == (self.queue().len() == 0),
    {
        self.queue_buffer.len() - self.queue_head == 0
    }

    /// Releases a loaded frame: the machine is ready for the next one, the
    /// held header and payload stay readable until then.
    pub fn clear(&mut self)
        requires
            old(self).wf(),
        ensures
            final(self).wf(),
            final(self).rx() == (RxState { state: State::Ready, ..old(self).rx() }),
            final(self).queue() == old(self).queue(),
            final(self).connected() == old(self).connected(),
    {
        self.state = State::Ready;
    }

    pub fn clear_buffer(&mut self)
        requires
            old(self).wf(),
        ensures
            final(self).wf(),
            final(self).rx() == old(self).rx(),
            final(self).queue() == Seq::<u8>::empty(),
            final(self).connected() == old(self).connected(),
    {
        self.queue_buffer.clear();
        self.queue_head = 0;
        proof {
            assert(self.queue() =~= Seq::<u8>::empty());
        }
    }

    pub fn clear_all(&mut self)
        ensures
            final(self).wf(),
            final(self).rx() == rx_initial(),
            final(self).queue() == Seq::<u8>::empty(),
            final(self).connected() == false,
    {
        self.state = State::Ready;
        self.section_old = Section::End;
        self.section = Section::Start;
        self.index = 0;
        self.header = Header {
            data_type: DataType::Nil,
            length: 0,
            from: DeviceType::Base,
            to: DeviceType::Drone,
        };
        self.time_receive_start = 0;
        self.time_receive_complete = 0;
        self.crc16_calculated = 0;
        self.crc16 = 0;
        self.queue_buffer.clear();
        self.queue_head = 0;
        self.vec_data.clear();
        self.vec_data_all.clear();
        self.flag_connected = false;
        proof {
            assert(self.queue() =~= Seq::<u8>::empty());
        }
    }

    pub fn push(&mut self, b: u8)
        requires
            old(self).wf(),
        ensures
            final(self).wf(),
            final(self).rx() == old(self).rx(),
            final(self).queue() == old(self).queue().push(b),
            final(self).connected() == old(self).connected(),
    {
        self.queue_buffer.push(b);
        proof {
            assert(self.queue() =~= old(self).queue().push(b));
        }
    }

    pub fn push_slice(&mut self, slice_data: &[u8])
        requires
            old(self).wf(),
        ensures
            final(self).wf(),
            final(self).rx() == old(self).rx(),
            final(self).queue() == old(self).queue() + slice_data@,
            final(self).connected() == old(self).connected(),
    {
        add_slice(&mut self.queue_buffer, slice_data);
        proof {
            assert(self.queue() =~= old(self).queue() + slice_data@);
        }
    }

    /// One byte through the machine: exactly `rx_step`.
    #[verifier::rlimit(100)]
    #[verifier::spinoff_prover]
    pub fn call(&mut self, b: u8, now_ms: u64) -> (r: State)
        requires
            old(self).wf(),
        ensures
            final(self).wf(),
            final(self).rx() == rx_step(old(self).rx(), b, now_ms),
            final(self).queue() == old(self).queue(),
            final(self).connected() == old(self).connected(),
            r == final(self).rx().state,
    {
        if matches!(self.state, State::Loaded) {
            return self.state;
        }
        match self.state {
            State::Ready => {
                self.section = Section::Start;
                self.index = 0;
            },
            State::Receiving => {
                if now_ms > self.time_receive_start && now_ms - self.time_receive_start > 30 {
                    self.state = State::Ready;
                    self.section = Section::Start;
                    self.index = 0;
                }
            },
            _ => {},
        }
        if self.section != self.section_old {
            self.index = 0;
            self.section_old = self.section;
        }
        match self.section {
            Section::Start => {
                if self.index == 0 {
                    if b == 0x0A {
                        self.time_receive_start = now_ms;
                        self.state = State::Receiving;
                    } else {
                        self.state = State::Failure;
                    }
                } else if self.index == 1 {
                    if b == 0x55 {
                        self.section = Section::Header;
                    } else {
                        self.state = State::Failure;
                    }
                } else {
                    self.state = State::Failure;
                }
            },
            Section::Header => {
                if self.index == 0 {
                    let data_type = DataType::from_u8(b);
                    if data_type.to_u8() == b {
                        self.header.data_type = data_type;
                        self.crc16_calculated = crc16::calc_byte(0, b);
                    } else {
                        self.state = State::Failure;
                    }
                } else if self.index == 1 {
                    self.header.length = b;
                    self.crc16_calculated = crc16::calc_byte(self.crc16_calculated, b);
                } else if self.index == 2 {
                    let device_type = DeviceType::from_u8(b);
                    if device_type.to_u8() == b {
                        self.header.from = device_type;
                        self.crc16_calculated = crc16::calc_byte(self.crc16_calculated, b);
                    } else {
                        self.state = State::Failure;
                    }
                } else if self.index == 3 {
                    let device_type = DeviceType::from_u8(b);
                    if device_type.to_u8() == b {
                        self.header.to = device_type;
                        self.crc16_calculated = crc16::calc_byte(self.crc16_calculated, b);
                        self.vec_data.clear();
                        if self.header.length == 0 {
                            self.section = Section::End;
                        } else {
                            self.section = Section::Data;
                        }
                    } else {
                        self.state = State::Failure;
                    }
                } else {
                    self.state = State::Failure;
                }
            },
            Section::Data => {
                self.vec_data.push(b);
                self.crc16_calculated = crc16::calc_byte(self.crc16_calculated, b);
                if self.index + 1 == self.header.length as usize {
                    self.section = Section::End;
                }
            },
            Section::End => {
                if self.index == 0 {
                    self.crc16 = b as u16;
                } else if self.index == 1 {
                    let mut crc_pair: Vec<u8> = Vec::new();
                    crc_pair.push(self.crc16 as u8);
                    crc_pair.push(b);
                    let crc_received: u16 = u16_from_le_bytes(crc_pair.as_slice());
                    proof {
                        assert(crc_pair@ =~= seq![(self.crc16 as u8), b]);
                    }
                    self.crc16 = crc_received;
                    if crc_received == self.crc16_calculated {
                        self.time_receive_complete = now_ms;
                        self.state = State::Loaded;
                        self.vec_data_all.clear();
                        self.vec_data_all.push(0x0A);
                        self.vec_data_all.push(0x55);
                        let mut header_bytes = self.header.to_vec();
                        self.vec_data_all.append(&mut header_bytes);
                        add_slice(&mut self.vec_data_all, self.vec_data.as_slice());
                        let mut crc_bytes = u16_to_le_bytes(crc_received);
                        self.vec_data_all.append(&mut crc_bytes);
                        proof {
                            assert(self.vec_data_all@ =~= seq![0x0Au8, 0x55u8]
                                + self.header.wire() + self.vec_data@ + spec_u16_to_le_bytes(
                                crc_received,
                            ));
                        }
                    } else {
                        self.state = State::Failure;
                    }
                } else {
                    self.state = State::Failure;
                }
            },
        }
        match self.state {
            State::Receiving => {
                self.index = self.index + 1;
            },
            State::Failure => {
                self.state = State::Ready;
            },
            _ => {},
        }
        self.state
    }

    /// Drains the queue through the machine: exactly `rx_drain`, plus the
    /// liveness bookkeeping of `connected`.
    pub fn check(&mut self, now_ms: u64) -> (r: State)
        requires
            old(self).wf(),
        ensures
            final(self).wf(),
            ({
                let drained = rx_drain(old(self).rx(), old(self).queue(), now_ms);
                &&& final(self).rx() == drained.0
                &&& final(self).queue() == drained.1
                &&& final(self).connected() == (if old(self).rx().state != State::Loaded
                    && drained.0.state == State::Loaded {
                    true
                } else if now_ms > old(self).rx().time_receive_start + 1200 {
                    false
                } else {
                    old(self).connected()
                })
                &&& r == drained.0.state
            }),
    {
        if now_ms > self.time_receive_start && now_ms - self.time_receive_start > 1200 {
            self.flag_connected = false;
        }
        if matches!(self.state, State::Loaded) {
            return self.state;
        }
        loop
            invariant
                self.wf(),
                rx_drain(old(self).rx(), old(self).queue(), now_ms) == rx_drain(
                    self.rx(),
                    self.queue(),
                    now_ms,
                ),
                self.connected() == (if now_ms > old(self).rx().time_receive_start + 1200 {
                    false
                } else {
                    old(self).connected()
                }),
            ensures
                self.wf(),
                rx_drain(old(self).rx(), old(self).queue(), now_ms) == (self.rx(), self.queue()),
                self.connected() == (if now_ms > old(self).rx().time_receive_start + 1200 {
                    false
                } else {
                    old(self).connected()
                }),
            decreases self.queue().len() + (if self.rx().state == State::Loaded {
                0int
            } else {
                1int
            }),
        {
            if self.queue_buffer.len() - self.queue_head == 0 {
                break;
            }
            if matches!(self.state, State::Loaded) {
                break;
            }
            let ghost s_before = self.rx();
            let ghost q_before = self.queue();
            let b = self.queue_buffer[self.queue_head];
            proof {
                assert(q_before[0] == b);
            }
            self.queue_head = self.queue_head + 1;
            proof {
                assert(self.queue() =~= q_before.subrange(1, q_before.len() as int));
            }
            self.call(b, now_ms);
        }
        if self.queue_buffer.len() - self.queue_head == 0 {
            self.queue_buffer.clear();
            self.queue_head = 0;
            proof {
                assert(self.queue() =~= Seq::<u8>::empty());
                assert(rx_drain(self.rx(), self.queue(), now_ms).1 =~= self.queue());
            }
        }
        if matches!(self.state, State::Loaded) {
            self.flag_connected = true;
        }
        self.state
    }

    pub fn get_header(&self) -> (r: Header)
        ensures
            r == self.rx().header,
    {
        self.header
    }

    pub fn get_data(&self) -> (r: &Vec<u8>)
        ensures
            r@ == self.rx().vec_data,
    {
        &self.vec_data
    }

    pub fn get_data_all(&self) -> (r: &Vec<u8>)
        ensures
            r@ == self.rx().vec_data_all,
    {
        &self.vec_data_all
    }

    pub fn get_index(&self) -> (r: usize)
        ensures
            r == self.rx().index,
    {
        self.index
    }

    pub fn get_state(&self) -> (r: State)
        ensures
            r == self.rx().state,
    {
        self.state
    }

    pub fn is_connected(&self) -> (r: bool)
        ensures
            r == self.connected(),
    {
        self.flag_connected
    }
}

} // verus!
