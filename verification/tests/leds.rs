use slider_hid::buffer::Buffer;
use slider_hid::leds::LedFormat;
use slider_hid::serial::led_message;
use slider_hid::state::SliderLights;

/// Ground byte `i` is `i + 1`; the towers count on from 101 and 201.
fn lights() -> SliderLights {
    let mut lights =
        SliderLights { ground: [0; 93], air_left: [0; 9], air_right: [0; 9], dirty: true };
    for i in 0..93 {
        lights.ground[i] = (i + 1) as u8;
    }
    for i in 0..9 {
        lights.air_left[i] = (i + 101) as u8;
        lights.air_right[i] = (i + 201) as u8;
    }
    lights
}

/// A buffer that holds 9 everywhere.
fn stale() -> Buffer {
    let mut buffer = Buffer::new();
    buffer.data = [9; 256];
    buffer
}

fn packets(format: LedFormat) -> (Buffer, Buffer) {
    let mut first = stale();
    let mut second = stale();
    format.encode(&lights(), &mut first, &mut second);
    (first, second)
}

fn sum(bytes: &[u8]) -> u8 {
    let mut sum = 0u8;
    for byte in bytes {
        sum = sum.wrapping_add(*byte);
    }
    sum
}

#[test]
fn tasoller_one_leaves_the_towers_dark() {
    let (first, second) = packets(LedFormat::TasollerOne);
    assert_eq!(first.len, 240);
    assert_eq!(&first.data[..9], &[b'B', b'L', 0, 92, 91, 93, 89, 88, 90]);
    assert_eq!(&first.data[93..96], &[2, 1, 3]);
    assert!(first.data[96..240].iter().all(|byte| *byte == 0));
    assert_eq!(first.data[240], 9);
    assert_eq!(second.len, 0);
    assert_eq!(second.data, [9; 256]);
}

#[test]
fn tasoller_two_repeats_each_tower_light() {
    let (first, second) = packets(LedFormat::TasollerTwo);
    assert_eq!(first.len, 240);
    assert_eq!(&first.data[..6], &[b'B', b'L', 0, 92, 91, 93]);
    let segments = [
        [108, 107, 109],
        [105, 104, 106],
        [102, 101, 103],
        [202, 201, 203],
        [205, 204, 206],
        [208, 207, 209],
    ];
    for (k, segment) in segments.iter().enumerate() {
        for n in 0..8 {
            let at = 96 + 24 * k + 3 * n;
            assert_eq!(&first.data[at..at + 3], segment);
        }
    }
    assert_eq!(first.data[240], 9);
    assert_eq!(second.len, 0);
}

#[test]
fn yuancon_packs_sixteen_bits() {
    let mut lights = lights();
    lights.ground[90] = 0b1011_0110;
    lights.ground[91] = 0b1100_1111;
    lights.ground[92] = 0b0101_0111;
    let mut first = stale();
    let mut second = stale();
    LedFormat::Yuancon.encode(&lights, &mut first, &mut second);
    assert_eq!(first.len, 62);
    assert_eq!(first.data[0], 0b1010_1010);
    assert_eq!(first.data[1], 0b1100_1101);
    // Light 0 is 1, 2, 3.
    assert_eq!(&first.data[60..63], &[0, 0, 9]);
    assert_eq!(second.len, 0);
}

#[test]
fn yuancon_three_shares_the_lights_out() {
    let (first, second) = packets(LedFormat::YuanconThree);
    assert_eq!(first.len, 61);
    assert_eq!(&first.data[..4], &[0, 91, 92, 93]);
    assert_eq!(&first.data[58..62], &[34, 35, 36, 9]);
    assert_eq!(second.len, 61);
    assert_eq!(&second.data[..4], &[1, 31, 32, 33]);
    assert_eq!(&second.data[31..35], &[1, 2, 3, 9]);
}

#[test]
fn yubideck_packs_four_bits() {
    let (first, second) = packets(LedFormat::Yubideck);
    assert_eq!(first.len, 62);
    // 91, 92, 93, 88: the high four bits of each are 5.
    assert_eq!(&first.data[..2], &[0x55, 0x55]);
    // 3 and the three bytes of the middle tower light, 104, 105 and 106.
    assert_eq!(&first.data[46..49], &[0x60, 0x66, 9]);
    assert_eq!(second.len, 0);
}

#[test]
fn yubideck_three_adds_tower_lights() {
    let (first, second) = packets(LedFormat::YubideckThree);
    assert_eq!(first.len, 61);
    assert_eq!(&first.data[..4], &[0, 91, 92, 93]);
    assert_eq!(second.len, 61);
    assert_eq!(&second.data[31..41], &[1, 2, 3, 104, 105, 106, 204, 205, 206, 9]);
}

#[test]
fn linnea_packet_is_framed() {
    let mut first = Buffer::new();
    let mut second = Buffer::new();
    LedFormat::Linnea.encode(&lights(), &mut first, &mut second);
    assert_eq!(first.len, 100);
    assert_eq!(&first.data[..5], &[0xff, 0x02, 96, 1, 2]);
    assert_eq!(&first.data[94..99], &[92, 93, 0, 0, 0]);
    // 0xff + 2 + 96 + (1 + 2 + .. + 93) = 4724, and 4724 + 140 = 19 * 256.
    assert_eq!(first.data[99], 140);
    assert_eq!(sum(first.slice()), 0);
    assert_eq!(second.len, 0);
}

#[test]
fn linnea_packet_keeps_what_is_behind_the_lights() {
    let (first, _) = packets(LedFormat::Linnea);
    assert_eq!(&first.data[95..101], &[93, 9, 9, 9, 140, 9]);
}

#[test]
fn linnea_message_turns_the_lights_round() {
    let mut first = Buffer::new();
    let mut second = Buffer::new();
    LedFormat::Linnea.encode(&lights(), &mut first, &mut second);
    let message = led_message(&first);
    assert_eq!(&message[..9], &[0xff, 0x02, 96, 0, 0, 0, 92, 93, 91]);
    assert_eq!(&message[96..], &[2, 3, 1, 140]);
    assert_eq!(message[99], first.data[99]);
    assert_eq!(sum(&message), 0);
}

#[test]
fn packing_tells_lights_apart() {
    for format in [
        LedFormat::TasollerOne,
        LedFormat::TasollerTwo,
        LedFormat::Linnea,
        LedFormat::Yuancon,
        LedFormat::YuanconThree,
        LedFormat::Yubideck,
        LedFormat::YubideckThree,
    ] {
        let (first, second) = packets(format);
        for i in 0..93 {
            let mut changed = lights();
            changed.ground[i] ^= 0x80;
            let mut first_changed = stale();
            let mut second_changed = stale();
            format.encode(&changed, &mut first_changed, &mut second_changed);
            assert!(first.data != first_changed.data || second.data != second_changed.data);
        }
    }
}
