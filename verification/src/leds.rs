//! LED packets: how a [`SliderLights`] becomes the bytes that a device takes.
use vstd::prelude::*;

use crate::buffer::{Buffer, BufferView, BUFFER_SIZE};
use crate::state::{LightsView, SliderLights};

verus! {

/// How the LED packets of a device are laid out.
#[derive(Clone, Copy, Debug, PartialEq, Eq, Structural)]
pub enum LedFormat {
    /// A marker, the ground lights, and dark towers.
    TasollerOne,
    /// A marker, the ground lights, and eight copies of each tower light.
    TasollerTwo,
    /// A framed message with a checksum.
    Linnea,
    /// Sixteen bits for each ground light.
    Yuancon,
    /// Two numbered packets that share the ground lights.
    YuanconThree,
    /// Four bits for each color of the ground lights and of one tower light.
    Yubideck,
    /// Two numbered packets that share the ground lights; the second also
    /// carries one light of each tower.
    YubideckThree,
}

/// Byte `c` of light `k`.
pub open spec fn channel(lights: Seq<u8>, k: int, c: int) -> u8 {
    lights[3 * k + c]
}

/// The byte of a light that stands at place `c` where the first two are exchanged.
pub open spec fn exchanged(c: int) -> int {
    if c == 0 {
        1
    } else if c == 1 {
        0
    } else {
        2
    }
}

/// The tower light that the Tasoller shows in the tower segment `k` of six:
/// the left tower downwards, then the right tower upwards.
pub open spec fn tower_channel(lights: LightsView, k: int, c: int) -> u8 {
    if k < 3 {
        channel(lights.air_left, 2 - k, c)
    } else {
        channel(lights.air_right, k - 3, c)
    }
}

/// Byte `i` of a Tasoller packet up to the end of its ground lights: the marker
/// "BL" and a zero, then the ground lights from the last to the first.
pub open spec fn tasoller_head(lights: LightsView, i: int) -> u8 {
    if i == 0 {
        66u8
    } else if i == 1 {
        76u8
    } else if i == 2 {
        0u8
    } else {
        channel(lights.ground, 30 - (i - 3) / 3, exchanged((i - 3) % 3))
    }
}

/// The low byte of the sixteen bits that show a light on the Yuancon.
pub open spec fn packed_low(lights: Seq<u8>, k: int) -> u8 {
    ((channel(lights, k, 0) << 3) & 0xe0) | (channel(lights, k, 2) >> 3)
}

/// The high byte of the sixteen bits that show a light on the Yuancon.
pub open spec fn packed_high(lights: Seq<u8>, k: int) -> u8 {
    (channel(lights, k, 1) & 0xf8) | (channel(lights, k, 0) >> 5)
}

/// The four bits at place `i` of a Yubideck packet: the ground lights from the
/// last to the first, then the middle light of the left tower.
pub open spec fn nibble(lights: LightsView, i: int) -> u8 {
    if i < 93 {
        channel(lights.ground, 30 - i / 3, i % 3) >> 4
    } else {
        lights.air_left[i - 90] >> 4
    }
}

/// The sum of a run of bytes.
pub open spec fn byte_sum(bytes: Seq<u8>) -> int
    decreases bytes.len(),
{
    if bytes.len() == 0 {
        0
    } else {
        byte_sum(bytes.drop_last()) + bytes.last()
    }
}

/// The byte that makes a message whose other bytes sum to `sum` come to 0 modulo 256.
pub open spec fn checksum(sum: int) -> u8 {
    ((-sum) % 256) as u8
}

impl LedFormat {
    /// How many bytes of the first packet are in use.
    pub open spec fn first_len(self) -> nat {
        match self {
            LedFormat::TasollerOne => 240,
            LedFormat::TasollerTwo => 240,
            LedFormat::Linnea => 100,
            LedFormat::Yuancon => 62,
            LedFormat::YuanconThree => 61,
            LedFormat::Yubideck => 62,
            LedFormat::YubideckThree => 61,
        }
    }

    /// Whether the lights take a second packet.
    pub open spec fn has_second(self) -> bool {
        self == LedFormat::YuanconThree || self == LedFormat::YubideckThree
    }

    /// Byte `i` of the first packet, where `stale` is what the buffer held there.
    pub open spec fn first_byte(self, lights: LightsView, stale: u8, i: int) -> u8 {
        match self {
            LedFormat::TasollerOne => if i < 96 {
                tasoller_head(lights, i)
            } else if i < 240 {
                0u8
            } else {
                stale
            },
            LedFormat::TasollerTwo => if i < 96 {
                tasoller_head(lights, i)
            } else if i < 240 {
                tower_channel(lights, (i - 96) / 24, exchanged((i - 96) % 3))
            } else {
                stale
            },
            LedFormat::Linnea => if i == 0 {
                0xffu8
            } else if i == 1 {
                2u8
            } else if i == 2 {
                96u8
            } else if i < 96 {
                lights.ground[i - 3]
            } else if i == 99 {
                checksum(0xff + 2 + 96 + byte_sum(lights.ground))
            } else {
                stale
            },
            LedFormat::Yuancon => if i < 62 {
                if i % 2 == 0 {
                    packed_low(lights.ground, 30 - i / 2)
                } else {
                    packed_high(lights.ground, 30 - i / 2)
                }
            } else {
                stale
            },
            LedFormat::Yubideck => if i < 48 {
                nibble(lights, 2 * i) | (nibble(lights, 2 * i + 1) << 4)
            } else {
                stale
            },
            LedFormat::YuanconThree | LedFormat::YubideckThree => if i == 0 {
                0u8
            } else if i < 61 {
                channel(lights.ground, 30 - (i - 1) / 3, (i - 1) % 3)
            } else {
                stale
            },
        }
    }

    /// Byte `i` of the second packet of a format that has one, where `stale` is
    /// what the buffer held there.
    pub open spec fn second_byte(self, lights: LightsView, stale: u8, i: int) -> u8 {
        if i == 0 {
            1u8
        } else if i < 34 {
            channel(lights.ground, 10 - (i - 1) / 3, (i - 1) % 3)
        } else if self == LedFormat::YubideckThree && i < 37 {
            lights.air_left[i - 31]
        } else if self == LedFormat::YubideckThree && i < 40 {
            lights.air_right[i - 34]
        } else {
            stale
        }
    }

    /// The first packet, built over what its buffer held.
    pub open spec fn first_packet(self, lights: LightsView, buf: BufferView) -> BufferView {
        BufferView {
            data: Seq::new(
                BUFFER_SIZE as nat,
                |i: int| self.first_byte(lights, buf.data[i], i),
            ),
            len: self.first_len(),
        }
    }

    /// The second packet, built over what its buffer held: a format without one
    /// leaves that buffer as it is.
    pub open spec fn second_packet(self, lights: LightsView, buf: BufferView) -> BufferView {
        if self.has_second() {
            BufferView {
                data: Seq::new(
                    BUFFER_SIZE as nat,
                    |i: int| self.second_byte(lights, buf.data[i], i),
                ),
                len: 61,
            }
        } else {
            buf
        }
    }

    /// The bytes in use that no packet ever writes are zero.
    pub open spec fn padding_dark(self, buf: BufferView, buf_two: BufferView) -> bool {
        match self {
            LedFormat::Linnea => forall|i: int| 96 <= i < 99 ==> #[trigger] buf.data[i] == 0,
            LedFormat::Yubideck => forall|i: int| 48 <= i < 62 ==> #[trigger] buf.data[i] == 0,
            LedFormat::YuanconThree => forall|i: int|
                34 <= i < 61 ==> #[trigger] buf_two.data[i] == 0,
            LedFormat::YubideckThree => forall|i: int|
                40 <= i < 61 ==> #[trigger] buf_two.data[i] == 0,
            _ => true,
        }
    }

    /// Builds the LED packets that show `lights`.
    pub fn encode(self, lights: &SliderLights, buf: &mut Buffer, buf_two: &mut Buffer)
        ensures
            final(buf)@ == self.first_packet(lights@, old(buf)@),
            final(buf_two)@ == self.second_packet(lights@, old(buf_two)@),
    {
        match self {
            LedFormat::TasollerOne => encode_tasoller_one(lights, buf),
            LedFormat::TasollerTwo => encode_tasoller_two(lights, buf),
            LedFormat::Linnea => encode_linnea(lights, buf),
            LedFormat::Yuancon => encode_yuancon(lights, buf),
            LedFormat::YuanconThree => {
                encode_first_half(lights, buf);
                encode_second_half(lights, buf_two);
                assert(buf@ =~= self.first_packet(lights@, old(buf)@));
            },
            LedFormat::Yubideck => encode_yubideck(lights, buf),
            LedFormat::YubideckThree => {
                encode_first_half(lights, buf);
                encode_second_half(lights, buf_two);
                let ghost ground_only = buf_two.data@;
                for i in 0..3
                    invariant
                        buf_two.len == 61,
                        ground_only == LedFormat::YuanconThree.second_packet(
                            lights@,
                            old(buf_two)@,
                        ).data,
                        forall|j: int|
                            0 <= j < 256 ==> #[trigger] buf_two.data@[j] == if 34 <= j < 34 + i {
                                lights.air_left@[j - 31]
                            } else if 37 <= j < 37 + i {
                                lights.air_right@[j - 34]
                            } else {
                                ground_only[j]
                            },
                {
                    buf_two.data[34 + i] = lights.air_left[3 + i];
                    buf_two.data[37 + i] = lights.air_right[3 + i];
                }
                assert(buf@ =~= self.first_packet(lights@, old(buf)@));
                assert(buf_two@ =~= self.second_packet(lights@, old(buf_two)@));
            },
        }
    }
}

/// Writes the marker and the ground lights of a Tasoller packet.
fn encode_tasoller_head(lights: &SliderLights, buf: &mut Buffer)
    ensures
        final(buf).len == 240,
        forall|j: int|
            0 <= j < 256 ==> #[trigger] final(buf).data@[j] == if j < 96 {
                tasoller_head(lights@, j)
            } else {
                old(buf).data@[j]
            },
{
    buf.len = 240;
    buf.data[0] = 66;
    buf.data[1] = 76;
    buf.data[2] = 0;
    for k in 0..31
        invariant
            buf.len == 240,
            forall|j: int|
                0 <= j < 256 ==> #[trigger] buf.data@[j] == if j < 3 + 3 * k {
                    tasoller_head(lights@, j)
                } else {
                    old(buf).data@[j]
                },
    {
        buf.data[3 + 3 * k] = lights.ground[3 * (30 - k) + 1];
        buf.data[4 + 3 * k] = lights.ground[3 * (30 - k)];
        buf.data[5 + 3 * k] = lights.ground[3 * (30 - k) + 2];
    }
}

fn encode_tasoller_one(lights: &SliderLights, buf: &mut Buffer)
    ensures
        final(buf)@ == LedFormat::TasollerOne.first_packet(lights@, old(buf)@),
{
    encode_tasoller_head(lights, buf);
    for i in 96..240
        invariant
            buf.len == 240,
            forall|j: int|
                0 <= j < 256 ==> #[trigger] buf.data@[j] == if j < 96 {
                    tasoller_head(lights@, j)
                } else if j < i {
                    0u8
                } else {
                    old(buf).data@[j]
                },
    {
        buf.data[i] = 0;
    }
}

fn encode_tasoller_two(lights: &SliderLights, buf: &mut Buffer)
    ensures
        final(buf)@ == LedFormat::TasollerTwo.first_packet(lights@, old(buf)@),
{
    encode_tasoller_head(lights, buf);
    for k in 0..6
        invariant
            buf.len == 240,
            forall|j: int|
                0 <= j < 256 ==> #[trigger] buf.data@[j] == if j < 96 {
                    tasoller_head(lights@, j)
                } else if j < 96 + 24 * k {
                    tower_channel(lights@, (j - 96) / 24, exchanged((j - 96) % 3))
                } else {
                    old(buf).data@[j]
                },
    {
        let tower: &[u8; 9] = if k < 3 {
            &lights.air_left
        } else {
            &lights.air_right
        };
        let from: usize = if k < 3 {
            3 * (2 - k)
        } else {
            3 * (k - 3)
        };
        for n in 0..8
            invariant
                k < 6,
                tower@ == if k < 3 {
                    lights.air_left@
                } else {
                    lights.air_right@
                },
                from == if k < 3 {
                    3 * (2 - k)
                } else {
                    3 * (k - 3)
                },
                buf.len == 240,
                forall|j: int|
                    0 <= j < 256 ==> #[trigger] buf.data@[j] == if j < 96 {
                        tasoller_head(lights@, j)
                    } else if j < 96 + 24 * k + 3 * n {
                        tower_channel(lights@, (j - 96) / 24, exchanged((j - 96) % 3))
                    } else {
                        old(buf).data@[j]
                    },
        {
            let at: usize = 96 + 24 * k + 3 * n;
            buf.data[at] = tower[from + 1];
            buf.data[at + 1] = tower[from];
            buf.data[at + 2] = tower[from + 2];
        }
    }
}

fn encode_yuancon(lights: &SliderLights, buf: &mut Buffer)
    ensures
        final(buf)@ == LedFormat::Yuancon.first_packet(lights@, old(buf)@),
{
    buf.len = 62;
    for k in 0..31
        invariant
            buf.len == 62,
            forall|j: int|
                0 <= j < 256 ==> #[trigger] buf.data@[j] == if j < 2 * k {
                    LedFormat::Yuancon.first_byte(lights@, 0, j)
                } else {
                    old(buf).data@[j]
                },
    {
        let c0: u8 = lights.ground[3 * (30 - k)];
        let c1: u8 = lights.ground[3 * (30 - k) + 1];
        let c2: u8 = lights.ground[3 * (30 - k) + 2];
        buf.data[2 * k] = (c0 << 3 & 0xe0) | (c2 >> 3);
        buf.data[2 * k + 1] = (c1 & 0xf8) | (c0 >> 5);
    }
}

/// Writes the first of two packets: ground lights 30 down to 11.
fn encode_first_half(lights: &SliderLights, buf: &mut Buffer)
    ensures
        final(buf)@ == LedFormat::YuanconThree.first_packet(lights@, old(buf)@),
{
    buf.len = 61;
    buf.data[0] = 0;
    for k in 0..20
        invariant
            buf.len == 61,
            forall|j: int|
                0 <= j < 256 ==> #[trigger] buf.data@[j] == if j < 1 + 3 * k {
                    LedFormat::YuanconThree.first_byte(lights@, 0, j)
                } else {
                    old(buf).data@[j]
                },
    {
        buf.data[1 + 3 * k] = lights.ground[3 * (30 - k)];
        buf.data[2 + 3 * k] = lights.ground[3 * (30 - k) + 1];
        buf.data[3 + 3 * k] = lights.ground[3 * (30 - k) + 2];
    }
}

/// Writes the second of two packets: ground lights 10 down to 0.
fn encode_second_half(lights: &SliderLights, buf: &mut Buffer)
    ensures
        final(buf)@ == LedFormat::YuanconThree.second_packet(lights@, old(buf)@),
{
    buf.len = 61;
    buf.data[0] = 1;
    for k in 0..11
        invariant
            buf.len == 61,
            forall|j: int|
                0 <= j < 256 ==> #[trigger] buf.data@[j] == if j < 1 + 3 * k {
                    LedFormat::YuanconThree.second_byte(lights@, 0, j)
                } else {
                    old(buf).data@[j]
                },
    {
        buf.data[1 + 3 * k] = lights.ground[3 * (10 - k)];
        buf.data[2 + 3 * k] = lights.ground[3 * (10 - k) + 1];
        buf.data[3 + 3 * k] = lights.ground[3 * (10 - k) + 2];
    }
}

/// The four bits at place `i` of a Yubideck packet.
fn nibble_at(lights: &SliderLights, i: usize) -> (value: u8)
    requires
        i < 96,
    ensures
        value == nibble(lights@, i as int),
{
    if i < 93 {
        lights.ground[3 * (30 - i / 3) + i % 3] >> 4
    } else {
        lights.air_left[i - 90] >> 4
    }
}

fn encode_yubideck(lights: &SliderLights, buf: &mut Buffer)
    ensures
        final(buf)@ == LedFormat::Yubideck.first_packet(lights@, old(buf)@),
{
    buf.len = 62;
    for i in 0..48
        invariant
            buf.len == 62,
            forall|j: int|
                0 <= j < 256 ==> #[trigger] buf.data@[j] == if j < i {
                    LedFormat::Yubideck.first_byte(lights@, 0, j)
                } else {
                    old(buf).data@[j]
                },
    {
        buf.data[i] = nibble_at(lights, 2 * i) | (nibble_at(lights, 2 * i + 1) << 4);
    }
}

/// The sum of a run of bytes with one more byte at its end.
pub proof fn lemma_byte_sum_push(bytes: Seq<u8>, byte: u8)
    ensures
        byte_sum(bytes.push(byte)) == byte_sum(bytes) + byte,
{
    assert(bytes.push(byte).drop_last() =~= bytes);
}

fn encode_linnea(lights: &SliderLights, buf: &mut Buffer)
    ensures
        final(buf)@ == LedFormat::Linnea.first_packet(lights@, old(buf)@),
{
    buf.len = 100;
    buf.data[0] = 0xff;
    buf.data[1] = 0x02;
    buf.data[2] = 96;
    let mut sum: u8 = 0u8.wrapping_add(0xff).wrapping_add(0x02).wrapping_add(96);
    for i in 0..93
        invariant
            buf.len == 100,
            sum == (0xff + 2 + 96 + byte_sum(lights.ground@.take(i as int))) % 256,
            forall|j: int|
                0 <= j < 256 ==> #[trigger] buf.data@[j] == if j < 3 + i {
                    LedFormat::Linnea.first_byte(lights@, 0, j)
                } else {
                    old(buf).data@[j]
                },
    {
        let value: u8 = lights.ground[i];
        buf.data[3 + i] = value;
        sum = sum.wrapping_add(value);
        proof {
            lemma_byte_sum_push(lights.ground@.take(i as int), value);
            assert(lights.ground@.take(i as int).push(value) =~= lights.ground@.take(i + 1));
        }
    }
    assert(lights.ground@.take(93) =~= lights.ground@);
    buf.data[99] = 0u8.wrapping_sub(sum);
}

/// Packing leaves the padding dark.
pub proof fn law_padding_stays_dark(
    format: LedFormat,
    lights: LightsView,
    buf: BufferView,
    buf_two: BufferView,
)
    requires
        format.padding_dark(buf, buf_two),
    ensures
        format.padding_dark(
            format.first_packet(lights, buf),
            format.second_packet(lights, buf_two),
        ),
{
}

/// The bits of byte `c` of a ground light that a format keeps.
pub open spec fn kept_bits(format: LedFormat, c: int) -> u8 {
    match format {
        LedFormat::Yuancon => if c == 0 {
            0xfcu8
        } else {
            0xf8u8
        },
        LedFormat::Yubideck => 0xf0u8,
        _ => 0xffu8,
    }
}

/// The two bytes that show a light on the Yuancon determine the six high bits of
/// its first byte and the five high bits of the others.
proof fn lemma_packed_bits(a0: u8, a1: u8, a2: u8, b0: u8, b1: u8, b2: u8)
    requires
        ((a0 << 3) & 0xe0) | (a2 >> 3) == ((b0 << 3) & 0xe0) | (b2 >> 3),
        (a1 & 0xf8) | (a0 >> 5) == (b1 & 0xf8) | (b0 >> 5),
    ensures
        a0 & 0xfc == b0 & 0xfc,
        a1 & 0xf8 == b1 & 0xf8,
        a2 & 0xf8 == b2 & 0xf8,
{
    assert(a0 & 0xfc == b0 & 0xfc && a1 & 0xf8 == b1 & 0xf8 && a2 & 0xf8 == b2 & 0xf8)
        by (bit_vector)
        requires
            ((a0 << 3) & 0xe0) | (a2 >> 3) == ((b0 << 3) & 0xe0) | (b2 >> 3),
            (a1 & 0xf8) | (a0 >> 5) == (b1 & 0xf8) | (b0 >> 5),
    ;
}

/// A byte of two four-bit values determines both.
proof fn lemma_nibbles(a: u8, b: u8, c: u8, d: u8)
    requires
        (a >> 4) | ((b >> 4) << 4) == (c >> 4) | ((d >> 4) << 4),
    ensures
        a & 0xf0 == c & 0xf0,
        b & 0xf0 == d & 0xf0,
{
    assert(a & 0xf0 == c & 0xf0 && b & 0xf0 == d & 0xf0) by (bit_vector)
        requires
            (a >> 4) | ((b >> 4) << 4) == (c >> 4) | ((d >> 4) << 4),
    ;
}

/// The packets show every ground light: two sets of lights that pack alike agree
/// on each byte of each ground light, in the bits that the format keeps.
pub proof fn law_packets_show_every_ground_light(
    format: LedFormat,
    lights: LightsView,
    others: LightsView,
    buf: BufferView,
    buf_two: BufferView,
)
    requires
        lights.wf(),
        others.wf(),
        format.first_packet(lights, buf) == format.first_packet(others, buf),
        format.second_packet(lights, buf_two) == format.second_packet(others, buf_two),
    ensures
        forall|i: int|
            0 <= i < 93 ==> #[trigger] lights.ground[i] & kept_bits(format, i % 3)
                == others.ground[i] & kept_bits(format, i % 3),
{
    let first = format.first_packet(lights, buf).data;
    let second = format.second_packet(lights, buf_two).data;
    let first_other = format.first_packet(others, buf).data;
    let second_other = format.second_packet(others, buf_two).data;
    assert forall|i: int| 0 <= i < 93 implies #[trigger] lights.ground[i] & kept_bits(
        format,
        i % 3,
    ) == others.ground[i] & kept_bits(format, i % 3) by {
        let k = i / 3;
        let c = i % 3;
        match format {
            LedFormat::TasollerOne | LedFormat::TasollerTwo => {
                let at = 3 + 3 * (30 - k) + exchanged(c);
                assert(first[at] == first_other[at]);
                assert(first[at] == lights.ground[i]);
                assert(first_other[at] == others.ground[i]);
            },
            LedFormat::Linnea => {
                assert(first[3 + i] == first_other[3 + i]);
            },
            LedFormat::Yuancon => {
                let at = 2 * (30 - k);
                assert(first[at] == first_other[at]);
                assert(first[at + 1] == first_other[at + 1]);
                lemma_packed_bits(
                    channel(lights.ground, k, 0),
                    channel(lights.ground, k, 1),
                    channel(lights.ground, k, 2),
                    channel(others.ground, k, 0),
                    channel(others.ground, k, 1),
                    channel(others.ground, k, 2),
                );
            },
            LedFormat::Yubideck => {
                let place = 3 * (30 - k) + c;
                let at = place / 2;
                assert(first[at] == first_other[at]);
                let low = 2 * at;
                let high = low + 1;
                let light_of = |lights: LightsView, n: int|
                    if n < 93 {
                        channel(lights.ground, 30 - n / 3, n % 3)
                    } else {
                        lights.air_left[n - 90]
                    };
                assert(nibble(lights, low) == light_of(lights, low) >> 4);
                assert(nibble(lights, high) == light_of(lights, high) >> 4);
                assert(nibble(others, low) == light_of(others, low) >> 4);
                assert(nibble(others, high) == light_of(others, high) >> 4);
                lemma_nibbles(
                    light_of(lights, low),
                    light_of(lights, high),
                    light_of(others, low),
                    light_of(others, high),
                );
                assert(light_of(lights, place) == lights.ground[i]);
                assert(light_of(others, place) == others.ground[i]);
                assert(place == low || place == high);
            },
            LedFormat::YuanconThree | LedFormat::YubideckThree => {
                if k >= 11 {
                    let at = 1 + 3 * (30 - k) + c;
                    assert(first[at] == first_other[at]);
                    assert(first[at] == lights.ground[i]);
                    assert(first_other[at] == others.ground[i]);
                } else {
                    let at = 1 + 3 * (10 - k) + c;
                    assert(second[at] == second_other[at]);
                    assert(second[at] == lights.ground[i]);
                    assert(second_other[at] == others.ground[i]);
                }
            },
        }
    }
}

} // verus!
