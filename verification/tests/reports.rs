use slider_hid::buffer::Buffer;
use slider_hid::reports::{bit_of, ReportFormat};
use slider_hid::state::SliderInput;

fn untouched() -> SliderInput {
    SliderInput { ground: [7; 32], air: [7; 6], extra: [7; 3] }
}

fn report(bytes: &[u8]) -> Buffer {
    let mut buffer = Buffer::new();
    buffer.data[..bytes.len()].copy_from_slice(bytes);
    buffer.len = bytes.len();
    buffer
}

/// A report of `len` bytes whose byte `i` is `i + 100`.
fn counting(len: usize) -> Buffer {
    let mut bytes: Vec<u8> = Vec::new();
    for i in 0..len {
        bytes.push((i + 100) as u8);
    }
    report(&bytes)
}

#[test]
fn bits_count_from_the_lowest() {
    assert_eq!(bit_of(0b1000_0001, 0), 1);
    assert_eq!(bit_of(0b1000_0001, 1), 0);
    assert_eq!(bit_of(0b1000_0001, 7), 1);
}

#[test]
fn flipping_exchanges_the_cells_of_each_column() {
    let mut input = untouched();
    for i in 0..32 {
        input.ground[i] = i as u8;
    }
    input.flip_vert();
    assert_eq!(&input.ground[..4], &[1, 0, 3, 2]);
    assert_eq!(&input.ground[30..], &[31, 30]);
    input.flip_vert();
    for i in 0..32 {
        assert_eq!(input.ground[i], i as u8);
    }
}

#[test]
fn tasoller_one_reads_single_bits() {
    // Bits 26 and 27 are buttons, 28 to 33 air, 34 to 65 cells.
    let mut bytes = [0u8; 11];
    bytes[3] = 0b0101_0100; // 26, 28 and 30
    bytes[4] = 0b0000_0110; // 33 and 34
    bytes[8] = 0b0000_0010; // 65
    let mut input = untouched();
    ReportFormat::TasollerOne.decode(&report(&bytes), &mut input);
    assert_eq!(input.extra, [1, 0, 7]);
    assert_eq!(input.air, [1, 0, 1, 0, 0, 1]);
    let mut ground = [0u8; 32];
    ground[1] = 255;
    ground[30] = 255;
    assert_eq!(input.ground, ground);
}

#[test]
fn tasoller_two_reads_bytes() {
    let mut buffer = counting(36);
    buffer.data[3] = 0b1010_1011;
    let mut input = untouched();
    ReportFormat::TasollerTwo.decode(&buffer, &mut input);
    assert_eq!(&input.ground[..4], &[105, 104, 107, 106]);
    assert_eq!(&input.ground[30..], &[135, 134]);
    assert_eq!(input.air, [1, 1, 0, 1, 0, 1]);
    assert_eq!(input.extra, [0, 1, 7]);
}

#[test]
fn yuancon_exchanges_air_sensors() {
    for len in [34, 35] {
        let mut buffer = counting(len);
        buffer.data[0] = 0b1100_1001;
        buffer.data[1] = 0b1111_1001;
        let mut input = untouched();
        ReportFormat::Yuancon.decode(&buffer, &mut input);
        assert_eq!(&input.ground[..4], &[102, 103, 104, 105]);
        assert_eq!(input.ground[31], 133);
        assert_eq!(input.air, [0, 1, 1, 0, 0, 0]);
        assert_eq!(input.extra, [0, 0, 1]);
    }
}

#[test]
fn yuancon_three_reads_buttons_from_the_air_byte() {
    let mut buffer = counting(46);
    buffer.data[0] = 0b1001_0001;
    let mut input = untouched();
    ReportFormat::YuanconThree.decode(&buffer, &mut input);
    assert_eq!(&input.ground[..4], &[103, 102, 105, 104]);
    assert_eq!(input.air, [0, 1, 0, 0, 0, 1]);
    assert_eq!(input.extra, [0, 1, 7]);
}

#[test]
fn yubideck_is_upside_down() {
    for len in [45, 46] {
        let mut buffer = counting(len);
        buffer.data[0] = 0b0000_0010;
        buffer.data[1] = 0b0000_0110;
        let mut input = untouched();
        ReportFormat::Yubideck.decode(&buffer, &mut input);
        assert_eq!(&input.ground[..4], &[103, 102, 105, 104]);
        assert_eq!(input.air, [1, 0, 0, 0, 0, 0]);
        assert_eq!(input.extra, [1, 1, 0]);
    }
}

#[test]
fn other_lengths_change_nothing() {
    let formats = [
        (ReportFormat::Silent, vec![0, 11, 34, 36, 46]),
        (ReportFormat::TasollerOne, vec![0, 10, 12]),
        (ReportFormat::TasollerTwo, vec![35, 37]),
        (ReportFormat::Yuancon, vec![33, 36]),
        (ReportFormat::YuanconThree, vec![45, 47]),
        (ReportFormat::Yubideck, vec![44, 47]),
    ];
    for (format, lengths) in formats {
        for len in lengths {
            let mut input = untouched();
            format.decode(&counting(len), &mut input);
            assert_eq!(input, untouched());
        }
    }
}

#[test]
fn bytes_behind_a_report_do_not_matter() {
    let mut first = counting(36);
    first.data[200] = 9;
    let mut shown = untouched();
    ReportFormat::TasollerTwo.decode(&first, &mut shown);
    let mut again = untouched();
    ReportFormat::TasollerTwo.decode(&counting(36), &mut again);
    assert_eq!(shown, again);
    ReportFormat::TasollerTwo.decode(&counting(36), &mut again);
    assert_eq!(shown, again);
}

#[test]
fn buffers_compare_by_their_bytes_in_use() {
    let mut first = counting(3);
    let second = counting(3);
    first.data[3] = 1;
    assert!(first.same_bytes(&second));
    assert_eq!(first.slice(), &[100, 101, 102]);
    first.data[2] = 1;
    assert!(!first.same_bytes(&second));
    assert!(!counting(2).same_bytes(&second));
    assert!(Buffer::new().slice().is_empty());
}
