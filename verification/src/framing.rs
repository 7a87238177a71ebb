//! What the serial protocol guarantees: which packets of a stream arrive, and
//! that LED messages carry a valid checksum.
use vstd::prelude::*;

use crate::buffer::BufferView;
use crate::layouts::law_bits_are_binary_digits;
use crate::leds::{byte_sum, channel, checksum, lemma_byte_sum_push, LedFormat};
use crate::reports::bit;
use crate::serial::{
    lemma_sum_three_more, wire_lights, wire_message, PacketView, AUTO_SCAN, ESCAPE, PACKET_SIZE, START,
};
use crate::state::{air_clear, InputView, LightsView};

verus! {

/// One byte of a packet as it is sent.
pub open spec fn escaped_byte(byte: u8) -> Seq<u8> {
    if byte == START || byte == ESCAPE {
        seq![ESCAPE, (byte - 1) as u8]
    } else {
        seq![byte]
    }
}

/// Some bytes of a packet as they are sent.
pub open spec fn escaped(bytes: Seq<u8>) -> Seq<u8>
    decreases bytes.len(),
{
    if bytes.len() == 0 {
        Seq::empty()
    } else {
        escaped(bytes.drop_last()) + escaped_byte(bytes.last())
    }
}

/// What follows the command of a packet: the payload's length, the payload and
/// a checksum.
pub open spec fn packet_body(payload: Seq<u8>, sum: u8) -> Seq<u8> {
    seq![payload.len() as u8] + payload + seq![sum]
}

/// What some sent bytes stand for, and whether an escape is pending behind them.
/// After an escape, or several, the next byte stands for its successor.
pub open spec fn unescaped(sent: Seq<u8>) -> (Seq<u8>, bool)
    decreases sent.len(),
{
    if sent.len() == 0 {
        (Seq::empty(), false)
    } else {
        let (bytes, pending) = unescaped(sent.drop_last());
        if sent.last() == ESCAPE {
            (bytes, true)
        } else if pending {
            (bytes.push(((sent.last() + 1) % 256) as u8), false)
        } else {
            (bytes.push(sent.last()), false)
        }
    }
}

/// Whether sending `sent` conveys `bytes`: it holds no start byte, leaves no
/// escape pending, and stands for them. Any byte may be escaped, but for 0x00
/// and 0xfe, whose predecessors are the two special bytes.
pub open spec fn conveys(sent: Seq<u8>, bytes: Seq<u8>) -> bool {
    !sent.contains(START) && unescaped(sent) == (bytes, false)
}

/// A packet as it is sent, where `sent` conveys what follows the command.
pub open spec fn sent_packet(command: u8, sent: Seq<u8>) -> Seq<u8> {
    seq![START, command] + sent
}

/// A start byte begins a packet, whatever came before: it becomes byte 0, no
/// escape is pending, and nothing else in the reader changes.
pub proof fn law_start_byte_begins_a_packet(reader: PacketView, i: int)
    requires
        reader.wf(),
        1 <= i < 128,
    ensures
        ({
            let next = reader.step(0xff);
            &&& next.in_packet && !next.esc && next.len == 1
            &&& next.buf.len() == 128 && next.buf[0] == 0xff && next.buf[i] == reader.buf[i]
            &&& !reader.completes(0xff)
        }),
{
}

/// Outside a packet, a byte other than the start byte is passed over.
pub proof fn law_byte_outside_a_packet_is_passed_over(reader: PacketView, byte: u8)
    requires
        !reader.in_packet,
        byte != 0xff,
    ensures
        reader.step(byte) == reader,
        !reader.completes(byte),
{
}

/// The byte behind the start byte is the command, taken as it is.
pub proof fn law_second_byte_is_the_command(reader: PacketView, byte: u8, i: int)
    requires
        reader.wf(),
        reader.in_packet,
        reader.len == 1,
        byte != 0xff,
        0 <= i < 128,
        i != 1,
    ensures
        ({
            let next = reader.step(byte);
            &&& next.in_packet && next.esc == reader.esc && next.len == 2
            &&& next.buf.len() == 128 && next.buf[1] == byte && next.buf[i] == reader.buf[i]
            &&& !reader.completes(byte)
        }),
{
}

/// Behind the command an escape byte is noted, and nothing else changes.
pub proof fn law_escape_byte_is_noted(reader: PacketView)
    requires
        reader.in_packet,
        reader.len >= 2,
    ensures
        reader.step(0xfd) == (PacketView { esc: true, ..reader }),
        !reader.completes(0xfd),
{
}

/// Behind the command any other byte is stored: as it is, or after an escape its
/// successor modulo 256. The packet is complete with the byte at place 3 plus the
/// value of byte 2, and is given up where it would take 128 bytes.
pub proof fn law_data_byte_is_stored(reader: PacketView, byte: u8, i: int)
    requires
        reader.wf(),
        reader.in_packet,
        reader.len >= 2,
        byte != 0xff,
        byte != 0xfd,
        0 <= i < 128,
        i != reader.len,
    ensures
        ({
            let next = reader.step(byte);
            let place = reader.len as int;
            &&& !next.esc
            &&& next.len == place + 1
            &&& next.buf.len() == 128
            &&& next.buf[i] == reader.buf[i]
            &&& !reader.esc ==> next.buf[place] == byte
            &&& reader.esc ==> next.buf[place] == (byte + 1) % 256
            &&& reader.completes(byte) <==> place < 127 && place == 3 + next.buf[2]
            &&& next.in_packet <==> place < 127 && place != 3 + next.buf[2]
        }),
{
}

/// A complete scan packet shows cell `i` as its byte `34 - i`; if its length byte
/// is 33, its byte 35 shows the air sensors, lowest bit first; the buttons stay.
pub proof fn law_scan_shows_the_packet(
    reader: PacketView,
    disable_air: bool,
    input: InputView,
    i: int,
    s: int,
)
    requires
        reader.wf(),
        input.wf(),
        reader.buf[1] == 0x01,
        0 <= i < 32,
        0 <= s < 6,
    ensures
        ({
            let shown = reader.scanned(disable_air, input);
            let bits = reader.buf[35];
            &&& shown.ground.len() == 32
            &&& shown.ground[i] == reader.buf[34 - i]
            &&& shown.extra == input.extra
            &&& shown.air.len() == 6
            &&& disable_air ==> shown.air[s] == 0
            &&& !disable_air && reader.buf[2] != 33 ==> shown.air == input.air
            &&& !disable_air && reader.buf[2] == 33 ==> {
                &&& shown.air[0] == bits % 2
                &&& shown.air[1] == (bits / 2) % 2
                &&& shown.air[2] == (bits / 4) % 2
                &&& shown.air[3] == (bits / 8) % 2
                &&& shown.air[4] == (bits / 16) % 2
                &&& shown.air[5] == (bits / 32) % 2
            }
        }),
{
    law_bits_are_binary_digits(reader.buf[35]);
}

/// A complete packet with another command shows nothing.
pub proof fn law_only_scans_are_shown(reader: PacketView, disable_air: bool, input: InputView)
    requires
        reader.buf[1] != 0x01,
    ensures
        reader.scanned(disable_air, input) == input,
{
}

/// No bytes change nothing, and one byte is one step, which shows the packet if it
/// completes one. What longer runs do follows from where they may be cut.
pub proof fn law_one_byte_is_one_step(
    reader: PacketView,
    disable_air: bool,
    input: InputView,
    byte: u8,
)
    ensures
        reader.fed(disable_air, input, Seq::<u8>::empty()) == (reader, input),
        reader.fed(disable_air, input, seq![byte]).0 == reader.step(byte),
        reader.completes(byte) ==> reader.fed(disable_air, input, seq![byte]).1 == reader.step(
            byte,
        ).scanned(disable_air, input),
        !reader.completes(byte) ==> reader.fed(disable_air, input, seq![byte]).1 == input,
{
    reveal_with_fuel(PacketView::fed, 2);
    assert(seq![byte].drop_last() =~= Seq::<u8>::empty());
}

/// How a stream is cut into reads makes no difference.
pub proof fn law_reads_may_split_anywhere(
    reader: PacketView,
    disable_air: bool,
    input: InputView,
    first: Seq<u8>,
    second: Seq<u8>,
)
    ensures
        ({
            let (between, shown) = reader.fed(disable_air, input, first);
            reader.fed(disable_air, input, first + second) == between.fed(
                disable_air,
                shown,
                second,
            )
        }),
    decreases second.len(),
{
    if second.len() == 0 {
        assert(first + second =~= first);
    } else {
        law_reads_may_split_anywhere(reader, disable_air, input, first, second.drop_last());
        assert((first + second).drop_last() =~= first + second.drop_last());
    }
}

/// A reader that is well formed stays so, whatever the stream holds.
pub proof fn law_reader_stays_well_formed(
    reader: PacketView,
    disable_air: bool,
    input: InputView,
    bytes: Seq<u8>,
)
    requires
        reader.wf(),
        input.wf(),
    ensures
        reader.fed(disable_air, input, bytes).0.wf(),
        reader.fed(disable_air, input, bytes).1.wf(),
    decreases bytes.len(),
{
    if bytes.len() > 0 {
        law_reader_stays_well_formed(reader, disable_air, input, bytes.drop_last());
    }
}

/// Outside a packet, bytes other than the start byte change nothing.
pub proof fn law_noise_between_packets_is_ignored(
    reader: PacketView,
    disable_air: bool,
    input: InputView,
    noise: Seq<u8>,
)
    requires
        !reader.in_packet,
        !noise.contains(START),
    ensures
        reader.fed(disable_air, input, noise) == (reader, input),
    decreases noise.len(),
{
    if noise.len() > 0 {
        assert forall|i: int| 0 <= i < noise.drop_last().len() implies noise.drop_last()[i]
            != START by {
            assert(noise.contains(noise[i]));
        }
        assert(noise.contains(noise.last()));
        law_noise_between_packets_is_ignored(reader, disable_air, input, noise.drop_last());
    }
}

/// With air disabled, a stream leaves the air sensors as they were or clears them.
pub proof fn law_disabled_air_stays_clear(reader: PacketView, input: InputView, bytes: Seq<u8>)
    ensures
        reader.fed(true, input, bytes).1.air == input.air || reader.fed(true, input, bytes).1.air
            == air_clear(),
    decreases bytes.len(),
{
    if bytes.len() > 0 {
        law_disabled_air_stays_clear(reader, input, bytes.drop_last());
    }
}

/// Appending to what is sent appends to what it stands for.
proof fn lemma_unescaped_add(first: Seq<u8>, second: Seq<u8>)
    requires
        !unescaped(first).1,
    ensures
        unescaped(first + second) == (
            unescaped(first).0 + unescaped(second).0,
            unescaped(second).1,
        ),
    decreases second.len(),
{
    if second.len() == 0 {
        assert(first + second =~= first);
        assert(unescaped(first).0 + Seq::<u8>::empty() =~= unescaped(first).0);
    } else {
        lemma_unescaped_add(first, second.drop_last());
        assert((first + second).drop_last() =~= first + second.drop_last());
        assert(unescaped(first + second).0 =~= unescaped(first).0 + unescaped(second).0);
    }
}

/// Escaping the two special bytes and no others conveys any bytes.
pub proof fn law_escaped_bytes_are_conveyed(bytes: Seq<u8>)
    ensures
        conveys(escaped(bytes), bytes),
    decreases bytes.len(),
{
    if bytes.len() == 0 {
        assert(bytes =~= Seq::<u8>::empty());
    } else {
        let before = bytes.drop_last();
        let last = escaped_byte(bytes.last());
        law_escaped_bytes_are_conveyed(before);
        reveal_with_fuel(unescaped, 3);
        if last.len() == 2 {
            assert(last.drop_last() =~= seq![ESCAPE]);
            assert(last.drop_last().drop_last() =~= Seq::<u8>::empty());
        } else {
            assert(last.drop_last() =~= Seq::<u8>::empty());
        }
        assert(unescaped(last).0 =~= seq![bytes.last()]);
        lemma_unescaped_add(escaped(before), last);
        assert(before + seq![bytes.last()] =~= bytes);
        assert forall|i: int| 0 <= i < escaped(bytes).len() implies escaped(bytes)[i] != START by {
            if i < escaped(before).len() {
                assert(escaped(before).contains(escaped(before)[i]));
            }
        }
    }
}

/// The reader after the start byte, the command and `body`.
spec fn partway(
    reader: PacketView,
    command: u8,
    body: Seq<u8>,
    esc: bool,
    in_packet: bool,
) -> PacketView {
    PacketView {
        buf: seq![START, command] + body + reader.buf.skip(2 + body.len() as int),
        len: 2 + body.len(),
        esc,
        in_packet,
    }
}

/// A run without a start byte has none in its part before the last byte.
proof fn lemma_no_start_before_last(sent: Seq<u8>)
    requires
        sent.len() > 0,
        !sent.contains(START),
    ensures
        !sent.drop_last().contains(START),
        sent.last() != START,
{
    assert(sent.contains(sent.last()));
    assert forall|i: int| 0 <= i < sent.drop_last().len() implies sent.drop_last()[i] != START by {
        assert(sent.contains(sent[i]));
    }
}

/// Feeding a packet as far as `sent`, where the body has not yet reached its end.
proof fn lemma_body_arrives(
    reader: PacketView,
    disable_air: bool,
    input: InputView,
    command: u8,
    sent: Seq<u8>,
)
    requires
        reader.wf(),
        command != START,
        !sent.contains(START),
        ({
            let body = unescaped(sent).0;
            body.len() < 126 && (body.len() > 0 ==> body.len() < body[0] + 2)
        }),
    ensures
        reader.fed(disable_air, input, sent_packet(command, sent)) == (
            partway(reader, command, unescaped(sent).0, unescaped(sent).1, true),
            input,
        ),
    decreases sent.len(),
{
    let head = seq![START, command];
    let (body, pending) = unescaped(sent);
    if sent.len() == 0 {
        reveal_with_fuel(PacketView::fed, 3);
        assert(head + sent =~= head);
        assert(head.drop_last() =~= seq![START]);
        assert(head.drop_last().drop_last() =~= Seq::<u8>::empty());
        assert(reader.fed(disable_air, input, head).0 =~= partway(
            reader,
            command,
            body,
            pending,
            true,
        ));
    } else {
        lemma_no_start_before_last(sent);
        let (before, escape) = unescaped(sent.drop_last());
        assert(before.len() > 0 ==> before[0] == body[0]);
        lemma_body_arrives(reader, disable_air, input, command, sent.drop_last());
        assert((head + sent).drop_last() =~= head + sent.drop_last());
        assert((head + sent).last() == sent.last());
        let so_far = partway(reader, command, before, escape, true);
        let next = partway(reader, command, body, pending, true);
        assert(so_far.step(sent.last()).buf =~= next.buf);
        assert(body.len() > 0 ==> next.buf[2] == body[0]);
    }
}

/// A packet arrives whole, whatever the reader held before, and however its
/// bytes were escaped: a packet of at most 123 payload bytes leaves the reader
/// holding its command, its payload and its checksum, and takes effect once.
pub proof fn law_sent_packet_arrives(
    reader: PacketView,
    disable_air: bool,
    input: InputView,
    command: u8,
    payload: Seq<u8>,
    sum: u8,
    sent: Seq<u8>,
)
    requires
        reader.wf(),
        command != START,
        payload.len() <= 123,
        conveys(sent, packet_body(payload, sum)),
    ensures
        ({
            let (after, shown) = reader.fed(disable_air, input, sent_packet(command, sent));
            &&& after == PacketView {
                buf: seq![START, command] + packet_body(payload, sum) + reader.buf.skip(
                    payload.len() as int + 4,
                ),
                len: payload.len() + 4,
                esc: false,
                in_packet: false,
            }
            &&& shown == after.scanned(disable_air, input)
        }),
{
    let head = seq![START, command];
    let body = packet_body(payload, sum);
    lemma_no_start_before_last(sent);
    let (before, escape) = unescaped(sent.drop_last());
    assert(before =~= body.drop_last());
    lemma_body_arrives(reader, disable_air, input, command, sent.drop_last());
    assert((head + sent).drop_last() =~= head + sent.drop_last());
    assert((head + sent).last() == sent.last());
    let so_far = partway(reader, command, before, escape, true);
    let after = partway(reader, command, body, false, false);
    assert(so_far.step(sent.last()).buf =~= after.buf);
    assert(after.buf[2] == body[0]);
}

/// A scan packet shows its payload: cell `i` is payload byte `31 - i`, and a
/// payload of thirty-three bytes ends in the air sensors.
pub proof fn law_scan_packet_shows_its_payload(
    reader: PacketView,
    disable_air: bool,
    input: InputView,
    payload: Seq<u8>,
    sum: u8,
    sent: Seq<u8>,
)
    requires
        reader.wf(),
        32 <= payload.len() <= 123,
        conveys(sent, packet_body(payload, sum)),
    ensures
        reader.fed(disable_air, input, sent_packet(AUTO_SCAN, sent)).1 == (InputView {
            ground: payload.take(32).reverse(),
            air: if disable_air {
                air_clear()
            } else if payload.len() == 33 {
                Seq::new(6, |i: int| bit(payload[32], i))
            } else {
                input.air
            },
            extra: input.extra,
        }),
{
    law_sent_packet_arrives(reader, disable_air, input, AUTO_SCAN, payload, sum, sent);
    let (after, shown) = reader.fed(disable_air, input, sent_packet(AUTO_SCAN, sent));
    assert forall|i: int| 0 <= i < payload.len() implies after.buf[3 + i] == payload[i] by {}
    assert(after.buf[2] == payload.len());
    assert(shown.ground =~= payload.take(32).reverse());
    if payload.len() == 33 {
        assert(after.buf[35] == payload[32]);
    }
}

/// A packet that carries another command leaves the input alone.
pub proof fn law_other_commands_show_nothing(
    reader: PacketView,
    disable_air: bool,
    input: InputView,
    command: u8,
    payload: Seq<u8>,
    sum: u8,
    sent: Seq<u8>,
)
    requires
        reader.wf(),
        command != START,
        command != AUTO_SCAN,
        payload.len() <= 123,
        conveys(sent, packet_body(payload, sum)),
    ensures
        reader.fed(disable_air, input, sent_packet(command, sent)).1 == input,
{
    law_sent_packet_arrives(reader, disable_air, input, command, payload, sum, sent);
}

/// Feeding a packet whose length byte is too large, once the reader is full.
proof fn lemma_overlong_body_is_dropped(
    reader: PacketView,
    disable_air: bool,
    input: InputView,
    command: u8,
    sent: Seq<u8>,
)
    requires
        reader.wf(),
        command != START,
        !sent.contains(START),
        unescaped(sent).0.len() >= 126,
        unescaped(sent).0[0] >= 124,
    ensures
        ({
            let (after, shown) = reader.fed(disable_air, input, sent_packet(command, sent));
            !after.in_packet && shown == input
        }),
    decreases sent.len(),
{
    let head = seq![START, command];
    let body = unescaped(sent).0;
    lemma_no_start_before_last(sent);
    let (before, escape) = unescaped(sent.drop_last());
    assert(before[0] == body[0]);
    assert((head + sent).drop_last() =~= head + sent.drop_last());
    assert((head + sent).last() == sent.last());
    if before.len() < 126 {
        lemma_body_arrives(reader, disable_air, input, command, sent.drop_last());
    } else {
        lemma_overlong_body_is_dropped(reader, disable_air, input, command, sent.drop_last());
    }
}

/// A packet of more than 123 payload bytes does not fit the reader: it is
/// dropped whole, and the input stays as it was.
pub proof fn law_overlong_packet_is_dropped(
    reader: PacketView,
    disable_air: bool,
    input: InputView,
    command: u8,
    payload: Seq<u8>,
    sum: u8,
    sent: Seq<u8>,
)
    requires
        reader.wf(),
        command != START,
        124 <= payload.len() <= 255,
        conveys(sent, packet_body(payload, sum)),
    ensures
        ({
            let (after, shown) = reader.fed(disable_air, input, sent_packet(command, sent));
            !after.in_packet && shown == input
        }),
{
    lemma_overlong_body_is_dropped(reader, disable_air, input, command, sent);
}

/// The sum of two runs of bytes.
proof fn lemma_byte_sum_add(first: Seq<u8>, second: Seq<u8>)
    ensures
        byte_sum(first + second) == byte_sum(first) + byte_sum(second),
    decreases second.len(),
{
    if second.len() == 0 {
        assert(first + second =~= first);
    } else {
        lemma_byte_sum_add(first, second.drop_last());
        assert((first + second).drop_last() =~= first + second.drop_last());
    }
}

/// The sum of the three bytes of a message's head.
proof fn lemma_head_sum(data: Seq<u8>)
    requires
        data.len() >= 3,
        data[0] == 0xff,
        data[1] == 2,
        data[2] == 96,
    ensures
        byte_sum(data.take(3)) == 0xff + 2 + 96,
{
    reveal_with_fuel(byte_sum, 4);
    assert(data.take(3).drop_last() =~= data.take(2));
    assert(data.take(2).drop_last() =~= data.take(1));
    assert(data.take(1).drop_last() =~= Seq::<u8>::empty());
}

/// The LED message for a packet with the right head sums to 0 modulo 256.
pub proof fn law_led_message_sums_to_zero(data: Seq<u8>)
    requires
        data.len() >= 99,
        data[0] == 0xff,
        data[1] == 2,
        data[2] == 96,
    ensures
        wire_message(data).len() == 100,
        byte_sum(wire_message(data)) % 256 == 0,
{
    let lights = wire_lights(data);
    let last = checksum(0xff + 2 + 96 + byte_sum(lights));
    lemma_head_sum(data);
    lemma_byte_sum_add(data.take(3), lights);
    lemma_byte_sum_push(data.take(3) + lights, last);
    assert(wire_message(data) =~= (data.take(3) + lights).push(last));
}

/// The first `k` lights of the LED message are the last `k` of the packet.
proof fn lemma_wire_lights_sum(data: Seq<u8>, k: int)
    requires
        data.len() >= 99,
        0 <= k <= 32,
    ensures
        byte_sum(wire_lights(data).take(3 * k)) + byte_sum(
            data.subrange(3, 99).take(96 - 3 * k),
        ) == byte_sum(data.subrange(3, 99)),
    decreases k,
{
    let lights = data.subrange(3, 99);
    if k == 0 {
        assert(lights.take(96) =~= lights);
        assert(wire_lights(data).take(0) =~= Seq::<u8>::empty());
    } else {
        lemma_wire_lights_sum(data, k - 1);
        lemma_sum_three_more(wire_lights(data), 3 * (k - 1));
        lemma_sum_three_more(lights, 96 - 3 * k);
    }
}

/// Turning the lights round leaves the checksum as it was: the LED message for a
/// Linnea packet whose padding is dark ends in the same byte as the packet.
pub proof fn law_turning_lights_round_keeps_the_checksum(lights: LightsView, buf: BufferView)
    requires
        lights.wf(),
        buf.wf(),
        LedFormat::Linnea.padding_dark(buf, buf),
    ensures
        ({
            let packet = LedFormat::Linnea.first_packet(lights, buf).data;
            wire_message(packet)[99] == packet[99]
        }),
{
    let packet = LedFormat::Linnea.first_packet(lights, buf).data;
    let padded = packet.subrange(3, 99);
    lemma_wire_lights_sum(packet, 32);
    assert(wire_lights(packet).take(96) =~= wire_lights(packet));
    lemma_sum_three_more(padded, 93);
    assert(padded.take(96) =~= padded);
    assert(padded.take(93) =~= lights.ground);
    assert(padded.take(0) =~= Seq::<u8>::empty());
    assert(buf.data[96] == 0 && buf.data[97] == 0 && buf.data[98] == 0);
}

/// The Linnea packet itself sums to 0 modulo 256 where the three bytes behind
/// the ground lights are zero.
pub proof fn law_linnea_packet_sums_to_zero(lights: LightsView, buf: BufferView)
    requires
        lights.wf(),
        buf.wf(),
        buf.data[96] == 0,
        buf.data[97] == 0,
        buf.data[98] == 0,
    ensures
        byte_sum(LedFormat::Linnea.first_packet(lights, buf).bytes()) % 256 == 0,
{
    let bytes = LedFormat::Linnea.first_packet(lights, buf).bytes();
    let last = bytes[99];
    lemma_head_sum(bytes);
    lemma_byte_sum_add(bytes.take(3), lights.ground);
    lemma_byte_sum_push(bytes.take(3) + lights.ground, 0);
    lemma_byte_sum_push((bytes.take(3) + lights.ground).push(0), 0);
    lemma_byte_sum_push((bytes.take(3) + lights.ground).push(0).push(0), 0);
    lemma_byte_sum_push((bytes.take(3) + lights.ground).push(0).push(0).push(0), last);
    assert(bytes =~= (bytes.take(3) + lights.ground).push(0).push(0).push(0).push(last));
}

/// Light `k` of the LED message is ground light `31 - k`, its first byte moved
/// behind the other two; there is no ground light 31, and light 0 shows what
/// stood behind the ground lights.
pub proof fn law_led_message_turns_lights_round(lights: LightsView, buf: BufferView)
    requires
        lights.wf(),
        buf.wf(),
    ensures
        ({
            let message = wire_message(LedFormat::Linnea.first_packet(lights, buf).data);
            &&& forall|k: int|
                1 <= k < 32 ==> {
                    &&& #[trigger] channel(message, k + 1, 0) == channel(lights.ground, 31 - k, 1)
                    &&& channel(message, k + 1, 1) == channel(lights.ground, 31 - k, 2)
                    &&& channel(message, k + 1, 2) == channel(lights.ground, 31 - k, 0)
                }
            &&& message[3] == buf.data[97]
            &&& message[4] == buf.data[98]
            &&& message[5] == buf.data[96]
        }),
{
}

} // verus!
