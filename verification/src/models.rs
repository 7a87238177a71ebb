//! What sets the models apart, and what a new job holds.
use vstd::prelude::*;

use crate::buffer::{Buffer, BufferView};
use crate::config::{Device, HardwareSpec, WriteType};
use crate::hid::{HidJob, JobView};
use crate::leds::LedFormat;
use crate::reports::ReportFormat;
use crate::serial::{PacketReader, PacketView};
use crate::state::{InputView, LightsView, SliderInput, SliderLights};
use crate::ticks::GivenOutcomes;

verus! {

/// A model is found by its vendor and product, which the Tasollers share and the
/// Yuancon shares with both Yubidecks.
pub proof fn law_models_are_found_by_their_ids(spec: HardwareSpec, disable_air: bool)
    ensures
        ({
            let device = Device::of(spec, disable_air);
            &&& (device.vid == 0x1ccf && device.pid == 0x2333) <==> (spec
                == HardwareSpec::TasollerOne || spec == HardwareSpec::TasollerTwo)
            &&& (device.vid == 0xaff1 && device.pid == 0x52a4) <==> spec
                == HardwareSpec::LinneaLegacy
            &&& (device.vid == 0x1973 && device.pid == 0x2001) <==> (spec == HardwareSpec::Yuancon
                || spec == HardwareSpec::Yubideck || spec == HardwareSpec::YubideckThree)
            &&& (device.vid == 0x0518 && device.pid == 0x2022) <==> spec
                == HardwareSpec::YuanconThree
        }),
{
}

/// Models of the same vendor and product use the same endpoints and kind of
/// transfer; the numbers go with the product.
pub proof fn law_transfers_go_with_the_product(spec: HardwareSpec, disable_air: bool)
    ensures
        ({
            let device = Device::of(spec, disable_air);
            &&& device.pid == 0x2333 ==> device.read_endpoint == 0x84 && device.led_endpoint == 0x03
                && device.led_write_type == WriteType::Bulk
            &&& device.pid == 0x2001 ==> device.read_endpoint == 0x81 && device.led_endpoint == 0x02
                && device.led_write_type == WriteType::Interrupt
            &&& device.pid == 0x2022 ==> device.read_endpoint == 0x83 && device.led_endpoint == 0x03
                && device.led_write_type == WriteType::Interrupt
            &&& device.pid == 0x52a4 ==> device.read_endpoint == 0 && device.led_endpoint == 0
                && device.led_write_type == WriteType::Bulk
            &&& device.is_serial <==> device.pid == 0x52a4
            &&& device.disable_air == disable_air
        }),
{
}

/// A model takes reports of its own lengths and ignores all others; a report that
/// it takes is shown, whatever was shown before.
pub proof fn law_models_take_their_own_reports(
    spec: HardwareSpec,
    disable_air: bool,
    report: BufferView,
    input: InputView,
    other: InputView,
)
    ensures
        ({
            let format = Device::of(spec, disable_air).report_format;
            let taken = match spec {
                HardwareSpec::TasollerOne => report.len == 11,
                HardwareSpec::TasollerTwo => report.len == 36,
                HardwareSpec::LinneaLegacy => false,
                HardwareSpec::Yuancon => report.len == 34 || report.len == 35,
                HardwareSpec::YuanconThree => report.len == 46,
                HardwareSpec::Yubideck => report.len == 45 || report.len == 46,
                HardwareSpec::YubideckThree => report.len == 45 || report.len == 46,
            };
            &&& !taken ==> format.decoded(report, input) == input
            &&& taken ==> format.decoded(report, input).ground == format.decoded(
                report,
                other,
            ).ground
            &&& taken ==> format.decoded(report, input).air == format.decoded(report, other).air
        }),
{
}

/// The report format and the LED format of a model bear its name; a Yubideck of
/// either kind reports alike, and a Linnea sends no reports.
pub proof fn law_formats_bear_the_name_of_the_model(spec: HardwareSpec, disable_air: bool)
    ensures
        ({
            let device = Device::of(spec, disable_air);
            &&& (device.report_format == ReportFormat::TasollerOne) == (spec
                == HardwareSpec::TasollerOne)
            &&& (device.report_format == ReportFormat::TasollerTwo) == (spec
                == HardwareSpec::TasollerTwo)
            &&& (device.report_format == ReportFormat::Silent) == (spec
                == HardwareSpec::LinneaLegacy)
            &&& (device.report_format == ReportFormat::Yuancon) == (spec == HardwareSpec::Yuancon)
            &&& (device.report_format == ReportFormat::YuanconThree) == (spec
                == HardwareSpec::YuanconThree)
            &&& (device.report_format == ReportFormat::Yubideck) == (spec == HardwareSpec::Yubideck
                || spec == HardwareSpec::YubideckThree)
            &&& (device.led_format == LedFormat::TasollerOne) == (spec == HardwareSpec::TasollerOne)
            &&& (device.led_format == LedFormat::TasollerTwo) == (spec == HardwareSpec::TasollerTwo)
            &&& (device.led_format == LedFormat::Linnea) == (spec == HardwareSpec::LinneaLegacy)
            &&& (device.led_format == LedFormat::Yuancon) == (spec == HardwareSpec::Yuancon)
            &&& (device.led_format == LedFormat::YuanconThree) == (spec
                == HardwareSpec::YuanconThree)
            &&& (device.led_format == LedFormat::Yubideck) == (spec == HardwareSpec::Yubideck)
            &&& (device.led_format == LedFormat::YubideckThree) == (spec
                == HardwareSpec::YubideckThree)
        }),
{
}

/// No two models have the same LED format, and only the two Yubidecks have the
/// same report format.
pub proof fn law_formats_tell_models_apart(
    spec: HardwareSpec,
    other: HardwareSpec,
    disable_air: bool,
    other_air: bool,
)
    requires
        spec != other,
    ensures
        Device::of(spec, disable_air).led_format != Device::of(other, other_air).led_format,
        Device::of(spec, disable_air).report_format == Device::of(other, other_air).report_format
            ==> {
            &&& spec == HardwareSpec::Yubideck || spec == HardwareSpec::YubideckThree
            &&& other == HardwareSpec::Yubideck || other == HardwareSpec::YubideckThree
        },
{
}

/// A new job has read nothing, sends nothing and is in no packet, and all of its
/// buffers are zero.
pub proof fn law_new_job_is_blank(device: Device, i: int, j: int)
    requires
        0 <= i < 256,
        0 <= j < 128,
    ensures
        ({
            let job = JobView::idle(device);
            &&& job.device == device
            &&& job.read_buf.len == 0 && job.read_buf.data.len() == 256 && job.read_buf.data[i] == 0
            &&& job.last_read_buf.len == 0 && job.last_read_buf.data.len() == 256
                && job.last_read_buf.data[i] == 0
            &&& job.led_buf.len == 0 && job.led_buf.data.len() == 256 && job.led_buf.data[i] == 0
            &&& job.led_buf_two.len == 0 && job.led_buf_two.data.len() == 256
                && job.led_buf_two.data[i] == 0
            &&& job.packet.len == 0 && job.packet.buf.len() == 128 && job.packet.buf[j] == 0
            &&& !job.packet.esc && !job.packet.in_packet
        }),
{
}

/// The bytes in use of a buffer are its first `len` bytes.
pub proof fn law_bytes_in_use_come_first(buffer: BufferView, i: int)
    requires
        buffer.wf(),
        0 <= i < buffer.len,
    ensures
        buffer.bytes().len() == buffer.len,
        buffer.bytes()[i] == buffer.data[i],
{
}

/// The views show the fields as they are.
pub proof fn law_views_show_the_fields(
    buffer: Buffer,
    input: SliderInput,
    lights: SliderLights,
    reader: PacketReader,
    job: HidJob,
    outcomes: GivenOutcomes,
)
    ensures
        buffer@.data == buffer.data@ && buffer@.len == buffer.len,
        input@.ground == input.ground@ && input@.air == input.air@ && input@.extra == input.extra@,
        lights@.ground == lights.ground@ && lights@.air_left == lights.air_left@,
        lights@.air_right == lights.air_right@ && lights@.dirty == lights.dirty,
        reader@.buf == reader.buf@ && reader@.len == reader.len,
        reader@.esc == reader.esc && reader@.in_packet == reader.in_packet,
        job@.device == job.device && job@.packet == job.packet@,
        job@.read_buf == job.read_buf@ && job@.last_read_buf == job.last_read_buf@,
        job@.led_buf == job.led_buf@ && job@.led_buf_two == job.led_buf_two@,
        outcomes@.report == outcomes.report@ && outcomes@.received == outcomes.received@,
        outcomes@.connected == outcomes.connected && outcomes@.serial_ok == outcomes.serial_ok,
        outcomes@.sent_first == outcomes.sent_first && outcomes@.sent_second
            == outcomes.sent_second,
{
}

/// Masking clears all six air sensors, or leaves the input alone, and never
/// touches anything else.
pub proof fn law_masking_clears_the_air_sensors(input: InputView, disable_air: bool, i: int)
    requires
        0 <= i < 6,
    ensures
        input.air_masked(disable_air).ground == input.ground,
        input.air_masked(disable_air).extra == input.extra,
        disable_air ==> input.air_masked(disable_air).air.len() == 6 && input.air_masked(
            disable_air,
        ).air[i] == 0,
        !disable_air ==> input.air_masked(disable_air).air == input.air,
{
}

} // verus!
