//! Input reports: how the bytes that a USB slider sends become a [`SliderInput`].
use vstd::prelude::*;

use crate::buffer::{Buffer, BufferView};
use crate::state::{columns_flipped, InputView, SliderInput};

verus! {

/// How the reports of a device are laid out.
#[derive(Clone, Copy, Debug, PartialEq, Eq, Structural)]
pub enum ReportFormat {
    /// The device sends no reports: nothing is decoded.
    Silent,
    /// Eleven bytes of touch bits.
    TasollerOne,
    /// Thirty-six bytes: a byte of bits, then one byte for each cell.
    TasollerTwo,
    /// Thirty-four or thirty-five bytes: two bytes of bits, then the cells.
    Yuancon,
    /// Forty-six bytes: a byte of bits, then the cells upside down.
    YuanconThree,
    /// Forty-five or forty-six bytes: two bytes of bits, then the cells upside down.
    Yubideck,
}

/// Bit `i` of a byte, counted from the lowest.
pub open spec fn bit(byte: u8, i: int) -> u8 {
    (byte >> (i as u8)) & 1
}

/// Bit `i` of a run of bytes, counted from the lowest bit of the first byte.
pub open spec fn bit_at(data: Seq<u8>, i: int) -> u8 {
    bit(data[i / 8], i % 8)
}

/// The neighbour that an air sensor is exchanged with: 0 with 1, 2 with 3, 4 with 5.
pub open spec fn paired(i: int) -> int {
    if i % 2 == 0 {
        i + 1
    } else {
        i - 1
    }
}

impl ReportFormat {
    /// The report lengths that the format accepts.
    pub open spec fn accepts(self, len: nat) -> bool {
        match self {
            ReportFormat::Silent => false,
            ReportFormat::TasollerOne => len == 11,
            ReportFormat::TasollerTwo => len == 36,
            ReportFormat::Yuancon => len == 34 || len == 35,
            ReportFormat::YuanconThree => len == 46,
            ReportFormat::Yubideck => len == 45 || len == 46,
        }
    }

    /// The ground cells that a report shows.
    pub open spec fn ground(self, data: Seq<u8>) -> Seq<u8> {
        match self {
            ReportFormat::Silent => Seq::empty(),
            ReportFormat::TasollerOne => columns_flipped(
                Seq::new(32, |i: int| if bit_at(data, 34 + i) == 1 { 255u8 } else { 0u8 }),
            ),
            ReportFormat::TasollerTwo => columns_flipped(data.subrange(4, 36)),
            ReportFormat::Yuancon => data.subrange(2, 34),
            ReportFormat::YuanconThree => columns_flipped(data.subrange(2, 34)),
            ReportFormat::Yubideck => columns_flipped(data.subrange(2, 34)),
        }
    }

    /// The air sensors that a report shows.
    pub open spec fn air(self, data: Seq<u8>) -> Seq<u8> {
        match self {
            ReportFormat::Silent => Seq::empty(),
            ReportFormat::TasollerOne => Seq::new(6, |i: int| bit_at(data, 28 + i)),
            ReportFormat::TasollerTwo => Seq::new(6, |i: int| bit(data[3], i)),
            _ => Seq::new(6, |i: int| bit(data[0], paired(i))),
        }
    }

    /// The extra buttons after a report, where `extra` is what they were before:
    /// three formats report only the first two.
    pub open spec fn extra(self, data: Seq<u8>, extra: Seq<u8>) -> Seq<u8> {
        match self {
            ReportFormat::Silent => extra,
            ReportFormat::TasollerOne => seq![bit_at(data, 26), bit_at(data, 27), extra[2]],
            ReportFormat::TasollerTwo => seq![bit(data[3], 6), bit(data[3], 7), extra[2]],
            ReportFormat::YuanconThree => seq![bit(data[0], 6), bit(data[0], 7), extra[2]],
            _ => seq![bit(data[1], 2), bit(data[1], 1), bit(data[1], 0)],
        }
    }

    /// The input after a report: a report of a length that the format does not
    /// accept changes nothing.
    pub open spec fn decoded(self, report: BufferView, input: InputView) -> InputView {
        if self.accepts(report.len) {
            InputView {
                ground: self.ground(report.data),
                air: self.air(report.data),
                extra: self.extra(report.data, input.extra),
            }
        } else {
            input
        }
    }

    /// Decodes a report into `input`.
    pub fn decode(self, report: &Buffer, input: &mut SliderInput)
        ensures
            final(input)@ == self.decoded(report@, old(input)@),
    {
        match self {
            ReportFormat::Silent => {},
            ReportFormat::TasollerOne => decode_tasoller_one(report, input),
            ReportFormat::TasollerTwo => decode_tasoller_two(report, input),
            ReportFormat::Yuancon => decode_yuancon(report, input),
            ReportFormat::YuanconThree => decode_yuancon_three(report, input),
            ReportFormat::Yubideck => decode_yubideck(report, input),
        }
    }
}

/// Bit `i` of a byte, counted from the lowest.
pub fn bit_of(byte: u8, i: usize) -> (value: u8)
    requires
        i < 8,
    ensures
        value == bit(byte, i as int),
        value == 0 || value == 1,
{
    let shift: u8 = i as u8;
    assert((byte >> shift) & 1 == 0 || (byte >> shift) & 1 == 1) by (bit_vector);
    (byte >> shift) & 1
}

/// Copies thirty-two cells out of a report, starting at `from`.
fn copy_ground(report: &Buffer, from: usize, input: &mut SliderInput)
    requires
        from + 32 <= 256,
    ensures
        final(input)@ == (InputView {
            ground: report.data@.subrange(from as int, from + 32),
            ..old(input)@
        }),
{
    for i in 0..32
        invariant
            from + 32 <= 256,
            input.air == old(input).air,
            input.extra == old(input).extra,
            forall|j: int| 0 <= j < i ==> #[trigger] input.ground@[j] == report.data@[from + j],
    {
        input.ground[i] = report.data[from + i];
    }
}

/// Sets the air sensors from the low bits of `bits`, neighbours exchanged.
fn set_paired_air(bits: u8, input: &mut SliderInput)
    ensures
        final(input)@ == (InputView {
            air: Seq::new(6, |i: int| bit(bits, paired(i))),
            ..old(input)@
        }),
{
    for i in 0..3
        invariant
            input.ground == old(input).ground,
            input.extra == old(input).extra,
            forall|j: int| 0 <= j < 2 * i ==> #[trigger] input.air@[j] == bit(bits, paired(j)),
    {
        input.air[2 * i] = bit_of(bits, 2 * i + 1);
        input.air[2 * i + 1] = bit_of(bits, 2 * i);
    }
}

fn decode_tasoller_one(report: &Buffer, input: &mut SliderInput)
    ensures
        final(input)@ == ReportFormat::TasollerOne.decoded(report@, old(input)@),
{
    if report.len != 11 {
        return;
    }
    let data = &report.data;
    for i in 0..32
        invariant
            data@ == report.data@,
            input.air == old(input).air,
            input.extra == old(input).extra,
            forall|j: int|
                0 <= j < i ==> #[trigger] input.ground@[j] == if bit_at(data@, 34 + j) == 1 {
                    255u8
                } else {
                    0u8
                },
    {
        input.ground[i] = bit_of(data[(34 + i) / 8], (34 + i) % 8) * 255;
    }
    input.flip_vert();
    for i in 0..6
        invariant
            data@ == report.data@,
            input.ground@ == ReportFormat::TasollerOne.ground(data@),
            input.extra == old(input).extra,
            forall|j: int| 0 <= j < i ==> #[trigger] input.air@[j] == bit_at(data@, 28 + j),
    {
        input.air[i] = bit_of(data[(28 + i) / 8], (28 + i) % 8);
    }
    input.extra[0] = bit_of(data[3], 2);
    input.extra[1] = bit_of(data[3], 3);
}

fn decode_tasoller_two(report: &Buffer, input: &mut SliderInput)
    ensures
        final(input)@ == ReportFormat::TasollerTwo.decoded(report@, old(input)@),
{
    if report.len != 36 {
        return;
    }
    copy_ground(report, 4, input);
    input.flip_vert();
    let bits: u8 = report.data[3];
    for i in 0..6
        invariant
            input.ground@ == ReportFormat::TasollerTwo.ground(report.data@),
            input.extra == old(input).extra,
            forall|j: int| 0 <= j < i ==> #[trigger] input.air@[j] == bit(bits, j),
    {
        input.air[i] = bit_of(bits, i);
    }
    input.extra[0] = bit_of(bits, 6);
    input.extra[1] = bit_of(bits, 7);
}

fn decode_yuancon(report: &Buffer, input: &mut SliderInput)
    ensures
        final(input)@ == ReportFormat::Yuancon.decoded(report@, old(input)@),
{
    if report.len != 34 && report.len != 35 {
        return;
    }
    copy_ground(report, 2, input);
    set_paired_air(report.data[0], input);
    set_reversed_extra(report.data[1], input);
}

fn decode_yuancon_three(report: &Buffer, input: &mut SliderInput)
    ensures
        final(input)@ == ReportFormat::YuanconThree.decoded(report@, old(input)@),
{
    if report.len != 46 {
        return;
    }
    copy_ground(report, 2, input);
    input.flip_vert();
    set_paired_air(report.data[0], input);
    input.extra[0] = bit_of(report.data[0], 6);
    input.extra[1] = bit_of(report.data[0], 7);
}

fn decode_yubideck(report: &Buffer, input: &mut SliderInput)
    ensures
        final(input)@ == ReportFormat::Yubideck.decoded(report@, old(input)@),
{
    if report.len != 45 && report.len != 46 {
        return;
    }
    copy_ground(report, 2, input);
    input.flip_vert();
    set_paired_air(report.data[0], input);
    set_reversed_extra(report.data[1], input);
}

/// Sets the three extra buttons from the low bits of `bits`, highest first.
fn set_reversed_extra(bits: u8, input: &mut SliderInput)
    ensures
        final(input)@ == (InputView {
            extra: seq![bit(bits, 2), bit(bits, 1), bit(bits, 0)],
            ..old(input)@
        }),
{
    for i in 0..3
        invariant
            input.ground == old(input).ground,
            input.air == old(input).air,
            forall|j: int| 3 - i <= j < 3 ==> #[trigger] input.extra@[j] == bit(bits, 2 - j),
    {
        input.extra[2 - i] = bit_of(bits, i);
    }
}

/// A report of a length that the format does not accept changes nothing.
pub proof fn law_unaccepted_length_changes_nothing(
    format: ReportFormat,
    report: BufferView,
    input: InputView,
)
    requires
        !format.accepts(report.len),
    ensures
        format.decoded(report, input) == input,
{
}

/// After an accepted report every air sensor, and every extra button that the
/// report shows, is either 0 or 1; the first Tasoller format shows each cell as
/// either 0 or 255.
pub proof fn law_decoded_switches_are_binary(
    format: ReportFormat,
    report: BufferView,
    input: InputView,
)
    requires
        format.accepts(report.len),
        report.wf(),
        input.wf(),
    ensures
        format.decoded(report, input).wf(),
        forall|i: int|
            0 <= i < 6 ==> 0 <= #[trigger] format.decoded(report, input).air[i] <= 1,
        forall|i: int|
            0 <= i < 2 ==> 0 <= #[trigger] format.decoded(report, input).extra[i] <= 1,
        format.decoded(report, input).extra[2] <= 1 || format.decoded(report, input).extra[2]
            == input.extra[2],
        format == ReportFormat::TasollerOne ==> forall|i: int|
            0 <= i < 32 ==> (#[trigger] format.decoded(report, input).ground[i] == 0
                || format.decoded(report, input).ground[i] == 255),
{
    assert forall|byte: u8, i: int| 0 <= #[trigger] bit(byte, i) <= 1 by {
        let shift = i as u8;
        assert((byte >> shift) & 1 <= 1) by (bit_vector);
    }
}

/// A report is decoded from its bytes in use alone, so two reports of the same
/// bytes show the same input.
pub proof fn law_same_bytes_decode_alike(
    format: ReportFormat,
    first: BufferView,
    second: BufferView,
    input: InputView,
)
    requires
        first.wf(),
        second.wf(),
        first.bytes() == second.bytes(),
    ensures
        format.decoded(first, input) == format.decoded(second, input),
{
    assert(first.bytes().len() == first.len && second.bytes().len() == second.len);
    if format.accepts(first.len) {
        assert forall|i: int| 0 <= i < first.len implies first.data[i] == second.data[i] by {
            assert(first.bytes()[i] == first.data[i]);
            assert(second.bytes()[i] == second.data[i]);
        }
        assert(format.ground(first.data) =~= format.ground(second.data));
        assert(format.air(first.data) =~= format.air(second.data));
    }
}

/// Decoding the same report a second time changes nothing, so that to skip a
/// repeated report loses nothing.
pub proof fn law_decoding_twice_is_decoding_once(
    format: ReportFormat,
    report: BufferView,
    input: InputView,
)
    requires
        input.wf(),
    ensures
        format.decoded(report, format.decoded(report, input)) == format.decoded(report, input),
{
    assert(format.decoded(report, format.decoded(report, input)) =~= format.decoded(report, input));
}

} // verus!
