use slider_hid::serial::PacketReader;
use slider_hid::state::SliderInput;

fn untouched() -> SliderInput {
    SliderInput { ground: [0; 32], air: [7; 6], extra: [7; 3] }
}

/// A packet as it is sent, with a checksum of 0x55.
fn sent(command: u8, payload: &[u8]) -> Vec<u8> {
    let mut bytes = vec![0xff, command];
    let mut body = vec![payload.len() as u8];
    body.extend_from_slice(payload);
    body.push(0x55);
    for byte in body {
        if byte == 0xff || byte == 0xfd {
            bytes.push(0xfd);
            bytes.push(byte - 1);
        } else {
            bytes.push(byte);
        }
    }
    bytes
}

/// Thirty-two cells, the first two of which need an escape.
fn cells() -> Vec<u8> {
    let mut payload: Vec<u8> = vec![0xff, 0xfd];
    for i in 2..32 {
        payload.push(i);
    }
    payload
}

#[test]
fn scan_packet_shows_its_cells_in_reverse() {
    let mut reader = PacketReader::new();
    let mut input = untouched();
    reader.feed(&sent(0x01, &cells()), false, &mut input);
    assert_eq!(input.ground[31], 0xff);
    assert_eq!(input.ground[30], 0xfd);
    for i in 0..30 {
        assert_eq!(input.ground[i], (31 - i) as u8);
    }
    assert_eq!(input.air, [7; 6]);
    assert_eq!(input.extra, [7; 3]);
    assert!(!reader.in_packet);
    assert_eq!(reader.len, 36);
}

#[test]
fn thirty_third_byte_shows_the_air_sensors() {
    let mut payload = cells();
    payload.push(0b1110_0101);
    let mut reader = PacketReader::new();
    let mut input = untouched();
    reader.feed(&sent(0x01, &payload), false, &mut input);
    assert_eq!(input.air, [1, 0, 1, 0, 0, 1]);
    reader.feed(&sent(0x01, &payload), true, &mut input);
    assert_eq!(input.air, [0; 6]);
}

#[test]
fn disabled_air_is_cleared_by_a_short_scan_too() {
    let mut reader = PacketReader::new();
    let mut input = untouched();
    reader.feed(&sent(0x01, &cells()), true, &mut input);
    assert_eq!(input.air, [0; 6]);
}

#[test]
fn a_short_scan_shows_what_earlier_packets_left() {
    let mut reader = PacketReader::new();
    let mut input = untouched();
    reader.feed(&sent(0x01, &cells()), false, &mut input);
    reader.feed(&sent(0x01, &[]), false, &mut input);
    // Byte 3 of the packet is now the checksum.
    assert_eq!(input.ground[31], 0x55);
    assert_eq!(input.ground[30], 0xfd);
    assert_eq!(input.ground[0], 31);
}

#[test]
fn reads_may_split_a_packet() {
    let bytes = sent(0x01, &cells());
    for cut in 0..bytes.len() {
        let mut reader = PacketReader::new();
        let mut input = untouched();
        reader.feed(&bytes[..cut], false, &mut input);
        assert_eq!(input, untouched());
        reader.feed(&bytes[cut..], false, &mut input);
        assert_eq!(input.ground[31], 0xff);
    }
}

#[test]
fn a_start_byte_begins_anew() {
    let mut reader = PacketReader::new();
    let mut input = untouched();
    let mut bytes = vec![1, 2, 3, 0xff, 1, 32, 9, 9, 0xfd];
    bytes.extend_from_slice(&sent(0x01, &cells()));
    reader.feed(&bytes, false, &mut input);
    assert_eq!(input.ground[31], 0xff);
    assert_eq!(input.ground[0], 31);
}

#[test]
fn noise_outside_a_packet_is_ignored() {
    let mut reader = PacketReader::new();
    let mut input = untouched();
    reader.feed(&[1, 33, 0xfd, 0xfe, 5], false, &mut input);
    assert_eq!(input, untouched());
    assert_eq!(reader.len, 0);
    assert!(!reader.esc);
}

#[test]
fn other_commands_show_nothing() {
    let mut reader = PacketReader::new();
    let mut input = untouched();
    reader.feed(&sent(0x02, &cells()), false, &mut input);
    assert_eq!(input, untouched());
    assert_eq!(reader.buf[1], 0x02);
    // A command is taken as it is.
    reader.feed(&sent(0xfd, &cells()), false, &mut input);
    assert_eq!(input, untouched());
    assert_eq!(reader.buf[1], 0xfd);
}

#[test]
fn the_longest_packet_holds_123_bytes() {
    let mut payload = cells();
    payload.resize(123, 3);
    let mut reader = PacketReader::new();
    let mut input = untouched();
    reader.feed(&sent(0x01, &payload), false, &mut input);
    assert_eq!(input.ground[31], 0xff);
    assert_eq!(reader.len, 127);

    for len in [124, 200, 255] {
        payload.resize(len, 3);
        let mut reader = PacketReader::new();
        let mut input = untouched();
        reader.feed(&sent(0x01, &payload), false, &mut input);
        assert_eq!(input, untouched());
        assert_eq!(reader.len, 128);
        assert!(!reader.in_packet);
    }
}

#[test]
fn push_says_when_a_packet_is_complete() {
    let mut reader = PacketReader::new();
    let mut complete = Vec::new();
    for byte in [0xff, 0x01, 0x01, 0xfd, 0xfc, 0x09] {
        complete.push(reader.push(byte));
    }
    assert_eq!(complete, vec![false, false, false, false, false, true]);
    assert_eq!(&reader.buf[..5], &[0xff, 0x01, 0x01, 0xfd, 0x09]);
    assert!(!reader.push(0x09));
}

#[test]
fn repeated_escapes_count_once() {
    let mut reader = PacketReader::new();
    for byte in [0xff, 0x01, 0x05, 0xfd, 0xfd, 0x10] {
        reader.push(byte);
    }
    assert_eq!(reader.len, 4);
    assert_eq!(reader.buf[3], 0x11);
}

#[test]
fn a_start_byte_cancels_a_pending_escape() {
    let mut reader = PacketReader::new();
    for byte in [0xff, 0x01, 0x05, 0xfd] {
        reader.push(byte);
    }
    assert!(reader.esc);
    assert!(reader.in_packet);
    reader.push(0xff);
    assert!(!reader.esc);
    assert_eq!(reader.len, 1);
    assert_eq!(reader.buf[0], 0xff);
}

#[test]
fn any_byte_may_be_escaped() {
    let mut reader = PacketReader::new();
    let mut input = untouched();
    // The length, some cells and the checksum are escaped, one of them twice over.
    let mut bytes = vec![0xff, 0x01, 0xfd, 31, 0xfd, 0xfd, 4, 0xfd, 0xfe, 0xfd, 0xfc];
    for i in 3..32 {
        bytes.push(i);
    }
    bytes.push(0xfd);
    bytes.push(0x54);
    reader.feed(&bytes, false, &mut input);
    assert_eq!(&reader.buf[..7], &[0xff, 0x01, 32, 5, 0xff, 0xfd, 3]);
    assert_eq!(reader.buf[35], 0x55);
    assert_eq!(reader.len, 36);
    assert_eq!(&input.ground[28..], &[3, 0xfd, 0xff, 5]);
    assert_eq!(input.ground[0], 31);
}
