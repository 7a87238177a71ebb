//! The serial protocol of the Linnea slider: taking framed packets out of a
//! stream of bytes, and the LED message that goes the other way.
//!
//! A packet from the slider is the byte `0xff`, a command, the number of payload
//! bytes, the payload and a checksum, which is not looked at. After the command,
//! `0xfd` says that the next byte stands for its successor.
use vstd::prelude::*;

use crate::buffer::Buffer;
use crate::leds::{byte_sum, checksum, lemma_byte_sum_push};
use crate::reports::{bit, bit_of};
use crate::state::{InputView, SliderInput};

verus! {

/// Starts a packet, wherever it appears.
pub const START: u8 = 0xff;

/// Says that the next byte stands for its successor.
pub const ESCAPE: u8 = 0xfd;

/// The command of a packet that reports the touched cells.
pub const AUTO_SCAN: u8 = 0x01;

/// Bytes that a [`PacketReader`] can hold.
pub const PACKET_SIZE: usize = 128;

/// A packet that is being received, byte by byte.
#[derive(Debug)]
pub struct PacketReader {
    pub buf: [u8; 128],
    pub len: usize,
    pub esc: bool,
    pub in_packet: bool,
}

/// What a [`PacketReader`] holds.
#[verifier::ext_equal]
pub struct PacketView {
    /// The bytes of the packet, then what earlier packets left.
    pub buf: Seq<u8>,
    /// How many bytes of the packet have come.
    pub len: nat,
    /// The byte before was an escape.
    pub esc: bool,
    /// A packet has started and has not ended.
    pub in_packet: bool,
}

impl PacketView {
    /// While a packet is being received it has its start byte and room for
    /// another byte. An escape is pending only inside a packet, after its command.
    pub open spec fn wf(self) -> bool {
        &&& self.buf.len() == PACKET_SIZE
        &&& self.len <= PACKET_SIZE
        &&& self.in_packet ==> 1 <= self.len < PACKET_SIZE && self.buf[0] == START
        &&& self.esc ==> self.in_packet && self.len >= 2
    }

    /// A reader that has seen nothing.
    pub open spec fn idle() -> PacketView {
        PacketView {
            buf: Seq::new(PACKET_SIZE as nat, |i: int| 0u8),
            len: 0,
            esc: false,
            in_packet: false,
        }
    }

    /// With one more byte of the packet. The packet ends with its checksum, or
    /// where the reader is full.
    pub open spec fn append(self, byte: u8) -> PacketView {
        let buf = self.buf.update(self.len as int, byte);
        let len = self.len + 1;
        PacketView { buf, len, esc: false, in_packet: len < PACKET_SIZE && len != buf[2] + 4 }
    }

    /// After one byte of the stream.
    pub open spec fn step(self, byte: u8) -> PacketView {
        if byte == START {
            PacketView { buf: self.buf.update(0, START), len: 1, esc: false, in_packet: true }
        } else if !self.in_packet {
            self
        } else if self.len == 1 {
            PacketView { buf: self.buf.update(1, byte), len: 2, ..self }
        } else if byte == ESCAPE {
            PacketView { esc: true, ..self }
        } else if self.esc {
            self.append(((byte + 1) % 256) as u8)
        } else {
            self.append(byte)
        }
    }

    /// Whether a byte of the stream completes a packet. One that fills the
    /// reader is dropped and completes nothing.
    pub open spec fn completes(self, byte: u8) -> bool {
        &&& byte != START
        &&& self.in_packet
        &&& !self.step(byte).in_packet
        &&& self.step(byte).len < PACKET_SIZE
    }

    /// The input after a complete packet. Only an `AUTO_SCAN` changes it: the
    /// ground cells come last cell first, and a payload of thirty-three bytes
    /// ends in the air sensors.
    pub open spec fn scanned(self, disable_air: bool, input: InputView) -> InputView {
        if self.buf[1] == AUTO_SCAN {
            InputView {
                ground: Seq::new(32, |i: int| self.buf[34 - i]),
                air: if self.buf[2] == 33 {
                    Seq::new(6, |i: int| bit(self.buf[35], i))
                } else {
                    input.air
                },
                extra: input.extra,
            }.air_masked(disable_air)
        } else {
            input
        }
    }

    /// The reader and the input after one byte of the stream.
    pub open spec fn received(self, disable_air: bool, input: InputView, byte: u8) -> (
        PacketView,
        InputView,
    ) {
        let next = self.step(byte);
        if self.completes(byte) {
            (next, next.scanned(disable_air, input))
        } else {
            (next, input)
        }
    }

    /// The reader and the input after some bytes of the stream.
    pub open spec fn fed(self, disable_air: bool, input: InputView, bytes: Seq<u8>) -> (
        PacketView,
        InputView,
    )
        decreases bytes.len(),
    {
        if bytes.len() == 0 {
            (self, input)
        } else {
            let (reader, before) = self.fed(disable_air, input, bytes.drop_last());
            reader.received(disable_air, before, bytes.last())
        }
    }
}

impl View for PacketReader {
    type V = PacketView;

    open spec fn view(&self) -> PacketView {
        PacketView {
            buf: self.buf@,
            len: self.len as nat,
            esc: self.esc,
            in_packet: self.in_packet,
        }
    }
}

impl PacketReader {
    /// See [`PacketView::wf`].
    pub open spec fn wf(&self) -> bool {
        self@.wf()
    }

    /// A reader that has seen nothing.
    pub fn new() -> (reader: PacketReader)
        ensures
            reader@ == PacketView::idle(),
            reader.wf(),
    {
        PacketReader { buf: [0; 128], len: 0, esc: false, in_packet: false }
    }

    /// Takes one byte of the stream, and says whether it completes a packet.
    pub fn push(&mut self, byte: u8) -> (complete: bool)
        requires
            old(self).wf(),
        ensures
            final(self).wf(),
            final(self)@ == old(self)@.step(byte),
            complete == old(self)@.completes(byte),
    {
        if byte == START {
            self.buf[0] = START;
            self.len = 1;
            self.esc = false;
            self.in_packet = true;
            return false;
        }
        if !self.in_packet {
            return false;
        }
        if self.len == 1 {
            self.buf[1] = byte;
            self.len = 2;
            return false;
        }
        if byte == ESCAPE {
            self.esc = true;
            return false;
        }
        if self.esc {
            self.buf[self.len] = byte.wrapping_add(1);
            self.esc = false;
        } else {
            self.buf[self.len] = byte;
        }
        self.len = self.len + 1;
        if self.len >= PACKET_SIZE {
            self.in_packet = false;
            return false;
        }
        let payload_size: usize = self.buf[2] as usize;
        if self.len == 3 + payload_size + 1 {
            self.in_packet = false;
            return true;
        }
        false
    }

    /// Brings the input up to date with a complete packet.
    pub fn scan(&self, disable_air: bool, input: &mut SliderInput)
        ensures
            final(input)@ == self@.scanned(disable_air, old(input)@),
    {
        if self.buf[1] != AUTO_SCAN {
            return;
        }
        for i in 0..32
            invariant
                input.air == old(input).air,
                input.extra == old(input).extra,
                forall|j: int| 0 <= j < i ==> #[trigger] input.ground@[j] == self.buf@[34 - j],
        {
            input.ground[i] = self.buf[34 - i];
        }
        if self.buf[2] == 33 {
            let air_byte: u8 = self.buf[35];
            for i in 0..6
                invariant
                    input.ground@ == Seq::new(32, |k: int| self.buf@[34 - k]),
                    input.extra == old(input).extra,
                    forall|j: int| 0 <= j < i ==> #[trigger] input.air@[j] == bit(air_byte, j),
            {
                input.air[i] = bit_of(air_byte, i);
            }
        }
        if disable_air {
            input.clear_air();
        }
    }

    /// Takes some bytes of the stream and brings the input up to date with every
    /// packet that they complete.
    pub fn feed(&mut self, bytes: &[u8], disable_air: bool, input: &mut SliderInput)
        requires
            old(self).wf(),
        ensures
            final(self).wf(),
            (final(self)@, final(input)@) == old(self)@.fed(disable_air, old(input)@, bytes@),
    {
        assert(bytes@.take(0) =~= Seq::<u8>::empty());
        for i in 0..bytes.len()
            invariant
                self.wf(),
                (self@, input@) == old(self)@.fed(
                    disable_air,
                    old(input)@,
                    bytes@.take(i as int),
                ),
        {
            let byte: u8 = bytes[i];
            if self.push(byte) {
                self.scan(disable_air, input);
            }
            assert(bytes@.take(i + 1).drop_last() =~= bytes@.take(i as int));
        }
        assert(bytes@.take(bytes@.len() as int) =~= bytes@);
    }
}

/// The ninety-six light bytes of the LED message, for the lights at `3..99` of a
/// packet: the last light comes first, and the first byte of each light last.
pub open spec fn wire_lights(data: Seq<u8>) -> Seq<u8> {
    Seq::new(96, |i: int| data[3 + 3 * (31 - i / 3) + (i % 3 + 1) % 3])
}

/// The LED message for a packet: the same head, the lights turned round, and the
/// checksum that fits them.
pub open spec fn wire_message(data: Seq<u8>) -> Seq<u8> {
    data.take(3) + wire_lights(data) + seq![
        checksum(0xff + 2 + 96 + byte_sum(wire_lights(data))),
    ]
}

/// A run of bytes, up to three places further, and its sum.
pub proof fn lemma_sum_three_more(bytes: Seq<u8>, n: int)
    requires
        0 <= n,
        n + 3 <= bytes.len(),
    ensures
        byte_sum(bytes.take(n + 3)) == byte_sum(bytes.take(n)) + bytes[n] + bytes[n + 1] + bytes[n
            + 2],
{
    lemma_byte_sum_push(bytes.take(n), bytes[n]);
    lemma_byte_sum_push(bytes.take(n + 1), bytes[n + 1]);
    lemma_byte_sum_push(bytes.take(n + 2), bytes[n + 2]);
    assert(bytes.take(n).push(bytes[n]) =~= bytes.take(n + 1));
    assert(bytes.take(n + 1).push(bytes[n + 1]) =~= bytes.take(n + 2));
    assert(bytes.take(n + 2).push(bytes[n + 2]) =~= bytes.take(n + 3));
}

/// Adding three bytes to a sum modulo 256.
proof fn lemma_wrapping_sum_of_three(total: int, sum: u8, r: u8, g: u8, b: u8)
    requires
        sum == total % 256,
    ensures
        sum.wrapping_add(r).wrapping_add(g).wrapping_add(b) == (total + r + g + b) % 256,
{
    let first = sum.wrapping_add(r);
    assert(first == (total + r) % 256);
    let second = first.wrapping_add(g);
    assert(second == (total + r + g) % 256);
}

/// The LED message that goes out for the packet in `led_buf`.
pub fn led_message(led_buf: &Buffer) -> (message: [u8; 100])
    ensures
        message@ == wire_message(led_buf.data@),
{
    let mut message: [u8; 100] = [0; 100];
    message[0] = led_buf.data[0];
    message[1] = led_buf.data[1];
    message[2] = led_buf.data[2];
    let mut sum: u8 = 0u8.wrapping_add(0xff).wrapping_add(0x02).wrapping_add(96);
    let ghost lights = wire_lights(led_buf.data@);
    assert(lights.take(0) =~= Seq::<u8>::empty());
    for i in 0..32
        invariant
            lights == wire_lights(led_buf.data@),
            sum == (0xff + 2 + 96 + byte_sum(lights.take(3 * i))) % 256,
            message@[0] == led_buf.data@[0],
            message@[1] == led_buf.data@[1],
            message@[2] == led_buf.data@[2],
            forall|j: int| 3 <= j < 3 + 3 * i ==> #[trigger] message@[j] == lights[j - 3],
    {
        let src: usize = 3 + (31 - i) * 3;
        let dst: usize = 3 + i * 3;
        let b: u8 = led_buf.data[src];
        let r: u8 = led_buf.data[src + 1];
        let g: u8 = led_buf.data[src + 2];
        assert(lights[3 * i] == r && lights[3 * i + 1] == g && lights[3 * i + 2] == b);
        message[dst] = r;
        message[dst + 1] = g;
        message[dst + 2] = b;
        let ghost before = sum;
        sum = sum.wrapping_add(r).wrapping_add(g).wrapping_add(b);
        proof {
            lemma_sum_three_more(lights, 3 * i);
            lemma_wrapping_sum_of_three(byte_sum(lights.take(3 * i)) + 0xff + 2 + 96, before, r, g, b);
        }
    }
    assert(lights.take(96) =~= lights);
    message[99] = 0u8.wrapping_sub(sum);
    assert(message@ =~= wire_message(led_buf.data@));
    message
}

} // verus!
