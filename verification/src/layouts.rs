//! Where each byte and bit of a report or an LED packet goes.
//!
//! The laws speak of single bytes, by their place and value, for every device.
use vstd::prelude::*;

use crate::buffer::BufferView;
use crate::leds::{byte_sum, LedFormat};
use crate::reports::{bit, ReportFormat};
use crate::serial::wire_message;
use crate::state::{columns_flipped, InputView, LightsView};

verus! {

/// Bit `i` of a byte is its quotient by the `i`-th power of two, modulo two.
pub proof fn law_bits_are_binary_digits(byte: u8)
    ensures
        bit(byte, 0) == byte % 2,
        bit(byte, 1) == (byte / 2) % 2,
        bit(byte, 2) == (byte / 4) % 2,
        bit(byte, 3) == (byte / 8) % 2,
        bit(byte, 4) == (byte / 16) % 2,
        bit(byte, 5) == (byte / 32) % 2,
        bit(byte, 6) == (byte / 64) % 2,
        bit(byte, 7) == byte / 128,
{
    assert((byte >> 0u8) & 1 == byte % 2 && (byte >> 1u8) & 1 == (byte / 2) % 2 && (byte >> 2u8)
        & 1 == (byte / 4) % 2 && (byte >> 3u8) & 1 == (byte / 8) % 2 && (byte >> 4u8) & 1 == (byte
        / 16) % 2 && (byte >> 5u8) & 1 == (byte / 32) % 2 && (byte >> 6u8) & 1 == (byte / 64) % 2
        && (byte >> 7u8) & 1 == byte / 128) by (bit_vector);
}

/// Flipping exchanges the two cells of column `k` and moves no cell to another column.
pub proof fn law_flip_exchanges_within_columns(ground: Seq<u8>, k: int)
    requires
        0 <= k,
        2 * k + 1 < ground.len(),
    ensures
        columns_flipped(ground).len() == ground.len(),
        columns_flipped(ground)[2 * k] == ground[2 * k + 1],
        columns_flipped(ground)[2 * k + 1] == ground[2 * k],
{
}

/// Each format takes reports of its own lengths and ignores all others.
pub proof fn law_reports_of_other_lengths_are_ignored(report: BufferView, input: InputView)
    ensures
        ReportFormat::Silent.decoded(report, input) == input,
        report.len != 11 ==> ReportFormat::TasollerOne.decoded(report, input) == input,
        report.len != 36 ==> ReportFormat::TasollerTwo.decoded(report, input) == input,
        report.len != 34 && report.len != 35 ==> ReportFormat::Yuancon.decoded(report, input)
            == input,
        report.len != 46 ==> ReportFormat::YuanconThree.decoded(report, input) == input,
        report.len != 45 && report.len != 46 ==> ReportFormat::Yubideck.decoded(report, input)
            == input,
{
}

/// A report of the first Tasoller holds one bit for each cell, from bit 34 on,
/// upside down: the upper cell of column `k` is bit `35 + 2k`, the lower one bit
/// `34 + 2k`. A touched cell is 255, any other 0.
pub proof fn law_tasoller_one_cells(report: BufferView, input: InputView, k: int)
    requires
        report.wf(),
        report.len == 11,
        0 <= k < 16,
    ensures
        ({
            let shown = ReportFormat::TasollerOne.decoded(report, input);
            let upper = 35 + 2 * k;
            let lower = 34 + 2 * k;
            &&& shown.ground.len() == 32
            &&& shown.ground[2 * k] == 255 * ((report.data[upper / 8] >> ((upper % 8) as u8)) & 1)
            &&& shown.ground[2 * k + 1] == 255 * ((report.data[lower / 8] >> ((lower % 8) as u8))
                & 1)
        }),
{
    let upper = report.data[(35 + 2 * k) / 8];
    let lower = report.data[(34 + 2 * k) / 8];
    let high = ((35 + 2 * k) % 8) as u8;
    let low = ((34 + 2 * k) % 8) as u8;
    assert((upper >> high) & 1 == 0 || (upper >> high) & 1 == 1) by (bit_vector);
    assert((lower >> low) & 1 == 0 || (lower >> low) & 1 == 1) by (bit_vector);
}

/// A report of the first Tasoller shows two buttons in bits 26 and 27 and the air
/// sensors in bits 28 to 33; the third button stays as it was.
pub proof fn law_tasoller_one_switches(report: BufferView, input: InputView)
    requires
        report.wf(),
        report.len == 11,
    ensures
        ({
            let shown = ReportFormat::TasollerOne.decoded(report, input);
            let low = report.data[3];
            let high = report.data[4];
            &&& shown.extra.len() == 3
            &&& shown.extra[0] == (low / 4) % 2
            &&& shown.extra[1] == (low / 8) % 2
            &&& shown.extra[2] == input.extra[2]
            &&& shown.air.len() == 6
            &&& shown.air[0] == (low / 16) % 2
            &&& shown.air[1] == (low / 32) % 2
            &&& shown.air[2] == (low / 64) % 2
            &&& shown.air[3] == low / 128
            &&& shown.air[4] == high % 2
            &&& shown.air[5] == (high / 2) % 2
        }),
{
    law_bits_are_binary_digits(report.data[3]);
    law_bits_are_binary_digits(report.data[4]);
}

/// A report of the second Tasoller holds the cells upside down from byte 4 on,
/// and in byte 3 the six air sensors and then two buttons.
pub proof fn law_tasoller_two_report(report: BufferView, input: InputView, k: int)
    requires
        report.wf(),
        report.len == 36,
        0 <= k < 16,
    ensures
        ({
            let shown = ReportFormat::TasollerTwo.decoded(report, input);
            let bits = report.data[3];
            &&& shown.ground.len() == 32
            &&& shown.ground[2 * k] == report.data[2 * k + 5]
            &&& shown.ground[2 * k + 1] == report.data[2 * k + 4]
            &&& shown.air.len() == 6
            &&& shown.air[0] == bits % 2
            &&& shown.air[1] == (bits / 2) % 2
            &&& shown.air[2] == (bits / 4) % 2
            &&& shown.air[3] == (bits / 8) % 2
            &&& shown.air[4] == (bits / 16) % 2
            &&& shown.air[5] == (bits / 32) % 2
            &&& shown.extra.len() == 3
            &&& shown.extra[0] == (bits / 64) % 2
            &&& shown.extra[1] == bits / 128
            &&& shown.extra[2] == input.extra[2]
        }),
{
    law_bits_are_binary_digits(report.data[3]);
}

/// The reports of the Yuancon and Yubideck sliders hold the air sensors in byte
/// 0, each exchanged with its neighbour.
pub proof fn law_paired_air_sensors(format: ReportFormat, report: BufferView, input: InputView)
    requires
        report.wf(),
        ({
            ||| format == ReportFormat::Yuancon && (report.len == 34 || report.len == 35)
            ||| format == ReportFormat::YuanconThree && report.len == 46
            ||| format == ReportFormat::Yubideck && (report.len == 45 || report.len == 46)
        }),
    ensures
        ({
            let shown = format.decoded(report, input);
            let bits = report.data[0];
            &&& shown.air.len() == 6
            &&& shown.air[0] == (bits / 2) % 2
            &&& shown.air[1] == bits % 2
            &&& shown.air[2] == (bits / 8) % 2
            &&& shown.air[3] == (bits / 4) % 2
            &&& shown.air[4] == (bits / 32) % 2
            &&& shown.air[5] == (bits / 16) % 2
        }),
{
    law_bits_are_binary_digits(report.data[0]);
}

/// The Yuancon and Yubideck show three buttons in byte 1, the highest bit first;
/// the third Yuancon shows two in the high bits of byte 0 and leaves the last.
pub proof fn law_yuancon_and_yubideck_buttons(
    format: ReportFormat,
    report: BufferView,
    input: InputView,
)
    requires
        report.wf(),
    ensures
        ({
            ||| format == ReportFormat::Yuancon && (report.len == 34 || report.len == 35)
            ||| format == ReportFormat::Yubideck && (report.len == 45 || report.len == 46)
        }) ==> {
            let shown = format.decoded(report, input);
            let bits = report.data[1];
            &&& shown.extra.len() == 3
            &&& shown.extra[0] == (bits / 4) % 2
            &&& shown.extra[1] == (bits / 2) % 2
            &&& shown.extra[2] == bits % 2
        },
        format == ReportFormat::YuanconThree && report.len == 46 ==> {
            let shown = format.decoded(report, input);
            let bits = report.data[0];
            &&& shown.extra.len() == 3
            &&& shown.extra[0] == (bits / 64) % 2
            &&& shown.extra[1] == bits / 128
            &&& shown.extra[2] == input.extra[2]
        },
{
    law_bits_are_binary_digits(report.data[0]);
    law_bits_are_binary_digits(report.data[1]);
}

/// A Yuancon report holds the cells as they are, from byte 2 on.
pub proof fn law_yuancon_cells(report: BufferView, input: InputView, i: int)
    requires
        report.wf(),
        report.len == 34 || report.len == 35,
        0 <= i < 32,
    ensures
        ReportFormat::Yuancon.decoded(report, input).ground.len() == 32,
        ReportFormat::Yuancon.decoded(report, input).ground[i] == report.data[i + 2],
{
}

/// A report of the third Yuancon holds the cells upside down, from byte 2 on.
pub proof fn law_yuancon_three_cells(report: BufferView, input: InputView, k: int)
    requires
        report.wf(),
        report.len == 46,
        0 <= k < 16,
    ensures
        ReportFormat::YuanconThree.decoded(report, input).ground.len() == 32,
        ReportFormat::YuanconThree.decoded(report, input).ground[2 * k] == report.data[2 * k + 3],
        ReportFormat::YuanconThree.decoded(report, input).ground[2 * k + 1] == report.data[2 * k
            + 2],
{
}

/// A Yubideck report holds the cells upside down, from byte 2 on.
pub proof fn law_yubideck_cells(report: BufferView, input: InputView, k: int)
    requires
        report.wf(),
        report.len == 45 || report.len == 46,
        0 <= k < 16,
    ensures
        ReportFormat::Yubideck.decoded(report, input).ground.len() == 32,
        ReportFormat::Yubideck.decoded(report, input).ground[2 * k] == report.data[2 * k + 3],
        ReportFormat::Yubideck.decoded(report, input).ground[2 * k + 1] == report.data[2 * k + 2],
{
}

/// Both Tasoller packets are 240 bytes: the letters "BL", a zero, and the ground
/// lights from the last to the first, the first two bytes of each exchanged. What
/// lies behind them, and the second slot, stay as they were.
pub proof fn law_tasoller_ground_lights(
    format: LedFormat,
    lights: LightsView,
    buf: BufferView,
    buf_two: BufferView,
    k: int,
    i: int,
)
    requires
        format == LedFormat::TasollerOne || format == LedFormat::TasollerTwo,
        lights.wf(),
        buf.wf(),
        0 <= k < 31,
        240 <= i < 256,
    ensures
        ({
            let packet = format.first_packet(lights, buf);
            let at = 3 + 3 * (30 - k);
            &&& packet.len == 240
            &&& packet.data.len() == 256
            &&& packet.data[0] == 66
            &&& packet.data[1] == 76
            &&& packet.data[2] == 0
            &&& packet.data[at] == lights.ground[3 * k + 1]
            &&& packet.data[at + 1] == lights.ground[3 * k]
            &&& packet.data[at + 2] == lights.ground[3 * k + 2]
            &&& packet.data[i] == buf.data[i]
            &&& format.second_packet(lights, buf_two) == buf_two
        }),
{
}

/// The towers of the first Tasoller are dark.
pub proof fn law_tasoller_one_towers_are_dark(lights: LightsView, buf: BufferView, i: int)
    requires
        96 <= i < 240,
    ensures
        LedFormat::TasollerOne.first_packet(lights, buf).data[i] == 0,
{
}

/// Tower light `t` of the second Tasoller is sent eight times over, the first two
/// bytes of each copy exchanged: the left tower from its last light to its first,
/// then the right tower from its first light to its last.
pub proof fn law_tasoller_two_towers(lights: LightsView, buf: BufferView, t: int, copy: int)
    requires
        lights.wf(),
        0 <= t < 3,
        0 <= copy < 8,
    ensures
        ({
            let data = LedFormat::TasollerTwo.first_packet(lights, buf).data;
            let left = 96 + 24 * (2 - t) + 3 * copy;
            let right = 168 + 24 * t + 3 * copy;
            &&& data[left] == lights.air_left[3 * t + 1]
            &&& data[left + 1] == lights.air_left[3 * t]
            &&& data[left + 2] == lights.air_left[3 * t + 2]
            &&& data[right] == lights.air_right[3 * t + 1]
            &&& data[right + 1] == lights.air_right[3 * t]
            &&& data[right + 2] == lights.air_right[3 * t + 2]
        }),
{
}

/// The Linnea packet is 100 bytes: a head, the ground lights in their order, three
/// bytes that stay as they were, and a checksum. The rest of the buffer, and the
/// second slot, stay as they were.
pub proof fn law_linnea_packet(
    lights: LightsView,
    buf: BufferView,
    buf_two: BufferView,
    n: int,
    i: int,
)
    requires
        lights.wf(),
        buf.wf(),
        0 <= n < 93,
        96 <= i < 99 || 100 <= i < 256,
    ensures
        ({
            let packet = LedFormat::Linnea.first_packet(lights, buf);
            &&& packet.len == 100
            &&& packet.data.len() == 256
            &&& packet.data[0] == 0xff
            &&& packet.data[1] == 0x02
            &&& packet.data[2] == 96
            &&& packet.data[3 + n] == lights.ground[n]
            &&& packet.data[i] == buf.data[i]
            &&& (0xff + 0x02 + 96 + byte_sum(lights.ground) + packet.data[99]) % 256 == 0
            &&& LedFormat::Linnea.second_packet(lights, buf_two) == buf_two
        }),
{
}

/// The LED message for a packet has the packet's head; its light `k` is light
/// `31 - k` of the packet, the first byte moved behind the other two; and its
/// last byte makes the head and the lights sum to 0 modulo 256.
pub proof fn law_led_message_by_bytes(data: Seq<u8>, k: int)
    requires
        data.len() >= 99,
        0 <= k < 32,
    ensures
        ({
            let message = wire_message(data);
            let from = 3 + 3 * (31 - k);
            &&& message.len() == 100
            &&& message[0] == data[0]
            &&& message[1] == data[1]
            &&& message[2] == data[2]
            &&& message[3 + 3 * k] == data[from + 1]
            &&& message[4 + 3 * k] == data[from + 2]
            &&& message[5 + 3 * k] == data[from]
            &&& (0xff + 0x02 + 96 + byte_sum(message.subrange(3, 99)) + message[99]) % 256 == 0
        }),
{
    let message = wire_message(data);
    assert(message.subrange(3, 99) =~= crate::serial::wire_lights(data));
}

/// The sum of no bytes is 0, and each byte adds itself.
pub proof fn law_byte_sum_adds_each_byte(bytes: Seq<u8>, byte: u8)
    ensures
        byte_sum(Seq::<u8>::empty()) == 0,
        byte_sum(bytes.push(byte)) == byte_sum(bytes) + byte,
{
    assert(bytes.push(byte).drop_last() =~= bytes);
}

/// Ground light `k` takes sixteen bits of the Yuancon packet, the last light
/// first. From the highest bit down these are the five high bits of its second
/// byte, the six high bits of its first byte, the upper three of them in the
/// second byte of the packet, and the five high bits of its third byte.
pub proof fn law_yuancon_packet(
    lights: LightsView,
    buf: BufferView,
    buf_two: BufferView,
    k: int,
    i: int,
)
    requires
        lights.wf(),
        buf.wf(),
        0 <= k < 31,
        62 <= i < 256,
    ensures
        ({
            let packet = LedFormat::Yuancon.first_packet(lights, buf);
            let low = packet.data[2 * (30 - k)];
            let high = packet.data[2 * (30 - k) + 1];
            &&& packet.len == 62
            &&& packet.data.len() == 256
            &&& low % 32 == lights.ground[3 * k + 2] / 8
            &&& low / 32 == (lights.ground[3 * k] / 4) % 8
            &&& high % 8 == lights.ground[3 * k] / 32
            &&& high / 8 == lights.ground[3 * k + 1] / 8
            &&& packet.data[i] == buf.data[i]
            &&& LedFormat::Yuancon.second_packet(lights, buf_two) == buf_two
        }),
{
    let c0 = lights.ground[3 * k];
    let c1 = lights.ground[3 * k + 1];
    let c2 = lights.ground[3 * k + 2];
    let low = ((c0 << 3) & 0xe0) | (c2 >> 3);
    let high = (c1 & 0xf8) | (c0 >> 5);
    assert((((c0 << 3) & 0xe0) | (c2 >> 3)) % 32 == c2 / 8 && (((c0 << 3) & 0xe0) | (c2 >> 3)) / 32
        == (c0 / 4) % 8) by (bit_vector);
    assert(((c1 & 0xf8) | (c0 >> 5)) % 8 == c0 / 32 && ((c1 & 0xf8) | (c0 >> 5)) / 8 == c1 / 8)
        by (bit_vector);
    let packet = LedFormat::Yuancon.first_packet(lights, buf);
    assert(packet.data[2 * (30 - k)] == low);
    assert(packet.data[2 * (30 - k) + 1] == high);
}

/// A byte that holds two four-bit values, the first in its low half.
proof fn lemma_halves(a: u8, b: u8)
    ensures
        ((a >> 4) | ((b >> 4) << 4)) % 16 == a / 16,
        ((a >> 4) | ((b >> 4) << 4)) / 16 == b / 16,
{
    assert(((a >> 4) | ((b >> 4) << 4)) % 16 == a / 16 && ((a >> 4) | ((b >> 4) << 4)) / 16 == b
        / 16) by (bit_vector);
}

/// The Yubideck packet holds the high four bits of each color, two to a byte, the
/// low half first: color `c` of ground light `k` stands at place `3(30 - k) + c`,
/// and the three colors of the middle left tower light at the places from 93 on.
pub proof fn law_yubideck_packet(
    lights: LightsView,
    buf: BufferView,
    buf_two: BufferView,
    k: int,
    c: int,
    i: int,
)
    requires
        lights.wf(),
        buf.wf(),
        0 <= k < 31,
        0 <= c < 3,
        48 <= i < 256,
    ensures
        ({
            let packet = LedFormat::Yubideck.first_packet(lights, buf);
            let place = 3 * (30 - k) + c;
            let byte = packet.data[place / 2];
            &&& packet.len == 62
            &&& packet.data.len() == 256
            &&& place % 2 == 0 ==> byte % 16 == lights.ground[3 * k + c] / 16
            &&& place % 2 == 1 ==> byte / 16 == lights.ground[3 * k + c] / 16
            &&& packet.data[46] / 16 == lights.air_left[3] / 16
            &&& packet.data[47] % 16 == lights.air_left[4] / 16
            &&& packet.data[47] / 16 == lights.air_left[5] / 16
            &&& packet.data[i] == buf.data[i]
            &&& LedFormat::Yubideck.second_packet(lights, buf_two) == buf_two
        }),
{
    let packet = LedFormat::Yubideck.first_packet(lights, buf);
    let place = 3 * (30 - k) + c;
    let low = 2 * (place / 2);
    let at = |n: int|
        if n < 93 {
            lights.ground[3 * (30 - n / 3) + n % 3]
        } else {
            lights.air_left[n - 90]
        };
    lemma_halves(at(low), at(low + 1));
    lemma_halves(at(92), at(93));
    lemma_halves(at(94), at(95));
    assert(at(place) == lights.ground[3 * k + c]);
    assert(packet.data[place / 2] == (at(low) >> 4) | ((at(low + 1) >> 4) << 4));
    assert(packet.data[46] == (at(92) >> 4) | ((at(93) >> 4) << 4));
    assert(packet.data[47] == (at(94) >> 4) | ((at(95) >> 4) << 4));
}

/// The third Yuancon and the third Yubideck take two packets of 61 bytes, numbered
/// 0 and 1. The first holds the ground lights from 30 down to 11, the second those
/// from 10 down to 0, each with its bytes in their order.
pub proof fn law_two_packet_ground_lights(
    format: LedFormat,
    lights: LightsView,
    buf: BufferView,
    buf_two: BufferView,
    k: int,
    c: int,
    i: int,
)
    requires
        format == LedFormat::YuanconThree || format == LedFormat::YubideckThree,
        lights.wf(),
        buf.wf(),
        buf_two.wf(),
        0 <= k < 31,
        0 <= c < 3,
        61 <= i < 256,
    ensures
        ({
            let first = format.first_packet(lights, buf);
            let second = format.second_packet(lights, buf_two);
            &&& first.len == 61
            &&& first.data.len() == 256
            &&& first.data[0] == 0
            &&& second.len == 61
            &&& second.data.len() == 256
            &&& second.data[0] == 1
            &&& k >= 11 ==> first.data[1 + 3 * (30 - k) + c] == lights.ground[3 * k + c]
            &&& k < 11 ==> second.data[1 + 3 * (10 - k) + c] == lights.ground[3 * k + c]
            &&& first.data[i] == buf.data[i]
            &&& second.data[i] == buf_two.data[i]
        }),
{
}

/// Behind the ground lights the second packet of the third Yubideck holds the
/// middle light of each tower, the left one first. What lies behind, and all of
/// that in the second packet of the third Yuancon, stays as it was.
pub proof fn law_two_packet_tower_lights(
    lights: LightsView,
    buf_two: BufferView,
    c: int,
    i: int,
    j: int,
)
    requires
        lights.wf(),
        buf_two.wf(),
        0 <= c < 3,
        34 <= i < 61,
        40 <= j < 61,
    ensures
        LedFormat::YubideckThree.second_packet(lights, buf_two).data[34 + c] == lights.air_left[3
            + c],
        LedFormat::YubideckThree.second_packet(lights, buf_two).data[37 + c] == lights.air_right[3
            + c],
        LedFormat::YubideckThree.second_packet(lights, buf_two).data[j] == buf_two.data[j],
        LedFormat::YuanconThree.second_packet(lights, buf_two).data[i] == buf_two.data[i],
{
}

} // verus!
