//! Whole ticks: carrying one out with given outcomes, and what it comes to.
use vstd::prelude::*;

use crate::buffer::{Buffer, BufferView};
use crate::framing::{
    law_disabled_air_stays_clear, law_led_message_sums_to_zero, law_reader_stays_well_formed,
};
use crate::hid::{sent_off, HidJob, JobView, LedSlot, TickAction};
use crate::layouts::law_led_message_by_bytes;
use crate::leds::{byte_sum, law_padding_stays_dark};
use crate::reports::ReportFormat;
use crate::serial::wire_message;
use crate::state::{air_clear, InputView, LightsView, SliderInput, SliderLights};

verus! {

/// A job and what it shares with the rest of the program.
#[verifier::ext_equal]
pub struct Served {
    pub job: JobView,
    pub input: InputView,
    pub lights: LightsView,
}

/// How the outside work of a tick ends.
pub struct Outcomes {
    /// Whether the slider's port or device is open.
    pub connected: bool,
    /// What a read over USB leaves in the buffer, and how many bytes it brought.
    pub report: BufferView,
    /// What a read from the serial port brings.
    pub received: Seq<u8>,
    /// Whether a write over the serial port goes well.
    pub serial_ok: bool,
    /// How many bytes a write over USB takes of the first LED packet.
    pub sent_first: nat,
    /// How many bytes a write over USB takes of the second LED packet.
    pub sent_second: nat,
}

/// The outcomes of a tick, noted down beforehand.
#[derive(Debug)]
pub struct GivenOutcomes {
    pub connected: bool,
    pub report: Buffer,
    pub received: Vec<u8>,
    pub serial_ok: bool,
    pub sent_first: usize,
    pub sent_second: usize,
}

impl View for GivenOutcomes {
    type V = Outcomes;

    open spec fn view(&self) -> Outcomes {
        Outcomes {
            connected: self.connected,
            report: self.report@,
            received: self.received@,
            serial_ok: self.serial_ok,
            sent_first: self.sent_first as nat,
            sent_second: self.sent_second as nat,
        }
    }
}

impl Served {
    /// Every part is well formed.
    pub open spec fn wf(self) -> bool {
        &&& self.job.wf()
        &&& self.input.wf()
        &&& self.lights.wf()
    }

    /// The job of a USB slider in the middle of a tick: the report is read, and
    /// the lights have been looked at, but nothing is sent yet.
    pub open spec fn usb_lit(self, outcomes: Outcomes) -> JobView {
        let read = JobView { read_buf: outcomes.report, ..self.job };
        (if read.is_fresh() {
            read.turned()
        } else {
            read
        }).lit(self.lights)
    }

    /// The job of a serial slider in the middle of a tick: the received bytes are
    /// taken, and the lights have been looked at, but nothing is sent yet.
    pub open spec fn serial_lit(self, outcomes: Outcomes) -> JobView {
        let packet = self.job.packet.fed(
            self.job.device.disable_air,
            self.input,
            outcomes.received,
        ).0;
        JobView { packet, ..self.job }.lit(self.lights)
    }

    /// After one action, and the action that follows it.
    pub open spec fn after(self, action: TickAction, outcomes: Outcomes) -> (Served, TickAction) {
        match action {
            TickAction::ReadUsb { .. } => {
                let filled = JobView {
                    read_buf: BufferView { data: outcomes.report.data, ..self.job.read_buf },
                    ..self.job
                };
                let job = filled.read(outcomes.report.len);
                (Served { job, ..self }, job.action_after_read())
            },
            TickAction::ReadSerial => {
                let (packet, input) = self.job.packet.fed(
                    self.job.device.disable_air,
                    self.input,
                    outcomes.received,
                );
                let job = JobView { packet, ..self.job };
                (
                    Served { job, input, ..self },
                    TickAction::UpdateLights { work: outcomes.received.len() > 0 },
                )
            },
            TickAction::UpdateInput => (
                Served { job: self.job.turned(), input: self.job.shown(self.input), ..self },
                TickAction::UpdateLights { work: true },
            ),
            TickAction::UpdateLights { work } => {
                let job = self.job.lit(self.lights);
                let lights = LightsView { dirty: false, ..self.lights };
                (Served { job, lights, ..self }, job.action_after_lights(work))
            },
            TickAction::WriteSerial { work } => (
                Served { job: self.job.serial_sent(outcomes.serial_ok), ..self },
                TickAction::Done { work },
            ),
            TickAction::WriteUsb { slot, work, .. } => {
                let sent = match slot {
                    LedSlot::First => outcomes.sent_first,
                    LedSlot::Second => outcomes.sent_second,
                };
                let job = self.job.usb_sent(slot, sent);
                (Served { job, ..self }, job.action_after_usb(slot, work))
            },
            TickAction::Done { work } => (self, action),
        }
    }

    /// After all actions from `action` on, and whether the tick read anything new.
    pub open spec fn run(self, action: TickAction, outcomes: Outcomes) -> (Served, bool)
        decreases action.rank(),
    {
        if let TickAction::Done { work } = action {
            (self, work)
        } else {
            let (next, following) = self.after(action, outcomes);
            next.run(following, outcomes)
        }
    }

    /// After a tick, and whether it read anything new.
    pub open spec fn ticked(self, outcomes: Outcomes) -> (Served, bool) {
        self.run(self.job.first_action(outcomes.connected), outcomes)
    }
}

impl HidJob {
    /// Carries out one action of a tick, with given outcomes in place of a
    /// slider.
    pub fn rehearse_action(
        &mut self,
        action: TickAction,
        outcomes: &GivenOutcomes,
        input: &mut SliderInput,
        lights: &mut SliderLights,
    ) -> (following: TickAction)
        requires
            old(self).wf(),
            outcomes.report.wf(),
        ensures
            final(self).wf(),
            (
                Served { job: final(self)@, input: final(input)@, lights: final(lights)@ },
                following,
            ) == (Served { job: old(self)@, input: old(input)@, lights: old(lights)@ }).after(
                action,
                outcomes@,
            ),
    {
        match action {
            TickAction::ReadUsb { .. } => {
                self.read_buf.data = outcomes.report.data;
                self.on_usb_read(outcomes.report.len)
            },
            TickAction::ReadSerial => self.on_serial_read(outcomes.received.as_slice(), input),
            TickAction::UpdateInput => self.on_input(input),
            TickAction::UpdateLights { work } => self.on_lights(lights, work),
            TickAction::WriteSerial { work } => self.on_serial_written(outcomes.serial_ok, work),
            TickAction::WriteUsb { slot, work, .. } => {
                let sent: usize = match slot {
                    LedSlot::First => outcomes.sent_first,
                    LedSlot::Second => outcomes.sent_second,
                };
                self.on_usb_written(slot, sent, work)
            },
            TickAction::Done { .. } => action,
        }
    }

    /// Carries out a whole tick, with given outcomes in place of a slider, and
    /// says whether it read anything new.
    pub fn rehearse_tick(
        &mut self,
        outcomes: &GivenOutcomes,
        input: &mut SliderInput,
        lights: &mut SliderLights,
    ) -> (work: bool)
        requires
            old(self).wf(),
            outcomes.report.wf(),
            outcomes.connected || old(self).device.is_serial,
        ensures
            final(self).wf(),
            (Served { job: final(self)@, input: final(input)@, lights: final(lights)@ }, work) == (
            Served { job: old(self)@, input: old(input)@, lights: old(lights)@ }).ticked(outcomes@),
    {
        let mut action = self.begin_tick(outcomes.connected);
        loop
            invariant
                self.wf(),
                outcomes.report.wf(),
                (Served { job: self@, input: input@, lights: lights@ }).run(action, outcomes@) == (
                Served { job: old(self)@, input: old(input)@, lights: old(lights)@ }).ticked(
                    outcomes@,
                ),
            decreases action.rank(),
        {
            if let TickAction::Done { work } = action {
                return work;
            }
            action = self.rehearse_action(action, outcomes, input, lights);
        }
    }
}

/// Every action of a tick brings its end nearer, so that a tick carries out at
/// most five actions.
pub proof fn law_tick_ends(served: Served, action: TickAction, outcomes: Outcomes)
    requires
        !(action is Done),
    ensures
        served.after(action, outcomes).1.rank() < action.rank() <= 5,
{
}

/// What a tick of a USB slider comes to. A report that says something new is
/// shown and remembered. Changed lights are packed once. Each packet that waits
/// is sent, and waits on unless the write took one byte more than it holds.
pub proof fn law_usb_tick(served: Served, outcomes: Outcomes)
    requires
        !served.job.device.is_serial,
    ensures
        ({
            let read = JobView { read_buf: outcomes.report, ..served.job };
            let fresh = read.is_fresh();
            let lit = served.usb_lit(outcomes);
            served.ticked(outcomes) == (
                Served {
                    job: JobView {
                        led_buf: sent_off(lit.led_buf, outcomes.sent_first),
                        led_buf_two: sent_off(lit.led_buf_two, outcomes.sent_second),
                        ..lit
                    },
                    input: if fresh {
                        read.shown(served.input)
                    } else {
                        served.input
                    },
                    lights: LightsView { dirty: false, ..served.lights },
                },
                fresh,
            )
        }),
{
    reveal_with_fuel(Served::run, 6);
    let lit = served.usb_lit(outcomes);
    assert(lit.device == served.job.device);
    let first_gone = JobView { led_buf: sent_off(lit.led_buf, outcomes.sent_first), ..lit };
    let both_gone = JobView {
        led_buf_two: sent_off(lit.led_buf_two, outcomes.sent_second),
        ..first_gone
    };
    assert(lit.led_buf.len == 0 ==> first_gone == lit);
    assert(lit.led_buf_two.len == 0 ==> both_gone == first_gone);
}

/// What a tick of a connected serial slider comes to. Every packet that the
/// received bytes complete is shown. Changed lights are packed once. A message
/// that waits is sent, and waits on unless the write went well.
pub proof fn law_serial_tick(served: Served, outcomes: Outcomes)
    requires
        served.job.device.is_serial,
        outcomes.connected,
    ensures
        ({
            let input = served.job.packet.fed(
                served.job.device.disable_air,
                served.input,
                outcomes.received,
            ).1;
            served.ticked(outcomes) == (
                Served {
                    job: served.serial_lit(outcomes).serial_sent(outcomes.serial_ok),
                    input,
                    lights: LightsView { dirty: false, ..served.lights },
                },
                outcomes.received.len() > 0,
            )
        }),
{
    reveal_with_fuel(Served::run, 4);
    let lit = served.serial_lit(outcomes);
    assert(lit.device == served.job.device);
    assert(lit.led_buf.len == 0 ==> lit.serial_sent(true) == lit);
}

/// A tick of a serial slider without a port does nothing.
pub proof fn law_unconnected_serial_tick(served: Served, outcomes: Outcomes)
    requires
        served.job.device.is_serial,
        !outcomes.connected,
    ensures
        served.ticked(outcomes) == (served, false),
{
}

/// A tick keeps everything well formed.
pub proof fn law_tick_stays_well_formed(served: Served, outcomes: Outcomes)
    requires
        served.wf(),
        outcomes.report.wf(),
        outcomes.connected || served.job.device.is_serial,
    ensures
        served.ticked(outcomes).0.wf(),
{
    law_padding_stays_dark(
        served.job.device.led_format,
        served.lights,
        served.job.led_buf,
        served.job.led_buf_two,
    );
    if !served.job.device.is_serial {
        law_usb_tick(served, outcomes);
    } else if outcomes.connected {
        law_serial_tick(served, outcomes);
        law_reader_stays_well_formed(
            served.job.packet,
            served.job.device.disable_air,
            served.input,
            outcomes.received,
        );
    } else {
        law_unconnected_serial_tick(served, outcomes);
    }
}

/// A report that a USB slider sends twice is shown once: the second tick reads
/// nothing new and leaves the input alone, whatever happened to the input and
/// the lights in between.
pub proof fn law_repeated_report_is_shown_once(
    served: Served,
    outcomes: Outcomes,
    input: InputView,
    lights: LightsView,
    again: Outcomes,
)
    requires
        !served.job.device.is_serial,
        again.report.bytes() == outcomes.report.bytes(),
        outcomes.report.wf(),
        again.report.wf(),
        outcomes.report.len > 0,
    ensures
        ({
            let between = Served { job: served.ticked(outcomes).0.job, input, lights };
            let (after, work) = between.ticked(again);
            !work && after.input == input
        }),
{
    law_usb_tick(served, outcomes);
    let between = Served { job: served.ticked(outcomes).0.job, input, lights };
    assert(between.job.last_read_buf.bytes() == outcomes.report.bytes());
    law_usb_tick(between, again);
}

/// With air disabled, a tick leaves the air sensors as they were or clears them,
/// and clears them if a USB slider sent anything new.
pub proof fn law_disabled_air_is_never_shown(served: Served, outcomes: Outcomes)
    requires
        served.job.device.disable_air,
        outcomes.connected || served.job.device.is_serial,
    ensures
        served.ticked(outcomes).0.input.air == served.input.air || served.ticked(
            outcomes,
        ).0.input.air == air_clear(),
        !served.job.device.is_serial && served.ticked(outcomes).1 ==> served.ticked(
            outcomes,
        ).0.input.air == air_clear(),
{
    if !served.job.device.is_serial {
        law_usb_tick(served, outcomes);
    } else if outcomes.connected {
        law_serial_tick(served, outcomes);
        law_disabled_air_stays_clear(served.job.packet, served.input, outcomes.received);
    }
}

/// Lights that did not change are not packed again.
pub proof fn law_clean_lights_build_nothing(job: JobView, lights: LightsView)
    requires
        !lights.dirty,
    ensures
        job.lit(lights) == job,
{
}

/// A packet of a USB slider that a tick sends, whether it was built in that tick
/// or left over from an earlier one, is done with only by a write that takes one
/// byte more than it holds. After any other write, a failed one among them, the
/// packet waits as it is, in either slot, and is sent again in the next tick
/// unless the lights have changed.
pub proof fn law_usb_packet_is_sent_again(served: Served, outcomes: Outcomes, work: bool)
    requires
        !served.job.device.is_serial,
    ensures
        ({
            let lit = served.usb_lit(outcomes);
            let after = served.ticked(outcomes).0.job;
            &&& lit.led_buf.len != 0 && outcomes.sent_first != lit.led_buf.len + 1 ==> {
                &&& after.led_buf == lit.led_buf
                &&& after.action_after_lights(work) == TickAction::WriteUsb {
                    slot: LedSlot::First,
                    write_type: after.device.led_write_type,
                    endpoint: after.device.led_endpoint,
                    work,
                }
            }
            &&& lit.led_buf_two.len != 0 && outcomes.sent_second != lit.led_buf_two.len + 1 ==> {
                &&& after.led_buf_two == lit.led_buf_two
                &&& after.action_after_first(work) == TickAction::WriteUsb {
                    slot: LedSlot::Second,
                    write_type: after.device.led_write_type,
                    endpoint: after.device.led_endpoint,
                    work,
                }
            }
        }),
{
    law_usb_tick(served, outcomes);
}

/// Changed lights of a USB slider reach both packets within the tick, and a write
/// that takes no more bytes than a packet holds leaves that packet waiting.
pub proof fn law_changed_lights_wait_to_be_taken(served: Served, outcomes: Outcomes)
    requires
        !served.job.device.is_serial,
        served.lights.dirty,
    ensures
        ({
            let format = served.job.device.led_format;
            let first = format.first_packet(served.lights, served.job.led_buf);
            let second = format.second_packet(served.lights, served.job.led_buf_two);
            let after = served.ticked(outcomes).0.job;
            &&& outcomes.sent_first <= first.len ==> after.led_buf == first
            &&& outcomes.sent_second <= second.len ==> after.led_buf_two == second
        }),
{
    law_usb_tick(served, outcomes);
}

/// A serial slider's message waits after a failed write: the packet is as it was
/// when the write was tried, so that the next tick, unless the lights have
/// changed, sends the same message again.
pub proof fn law_serial_message_is_sent_again(served: Served, outcomes: Outcomes, work: bool)
    requires
        served.job.device.is_serial,
        outcomes.connected,
        !outcomes.serial_ok,
    ensures
        ({
            let lit = served.serial_lit(outcomes);
            let after = served.ticked(outcomes).0.job;
            &&& after.led_buf == lit.led_buf
            &&& wire_message(after.led_buf.data) == wire_message(lit.led_buf.data)
            &&& lit.led_buf.len != 0 ==> after.action_after_lights(work)
                == (TickAction::WriteSerial { work })
        }),
{
    law_serial_tick(served, outcomes);
}

/// What was taken is not sent again: after a tick in which every packet that
/// waited was taken, a tick with unchanged lights sends nothing.
pub proof fn law_taken_packets_are_not_sent_again(
    served: Served,
    outcomes: Outcomes,
    lights: LightsView,
    work: bool,
)
    requires
        !lights.dirty,
        served.job.device.is_serial ==> outcomes.connected && outcomes.serial_ok,
        !served.job.device.is_serial ==> {
            let lit = served.usb_lit(outcomes);
            &&& lit.led_buf.len == 0 || outcomes.sent_first == lit.led_buf.len + 1
            &&& lit.led_buf_two.len == 0 || outcomes.sent_second == lit.led_buf_two.len + 1
        },
    ensures
        served.ticked(outcomes).0.job.lit(lights).action_after_lights(work) == (TickAction::Done {
            work,
        }),
{
    if served.job.device.is_serial {
        law_serial_tick(served, outcomes);
    } else {
        law_usb_tick(served, outcomes);
    }
}

/// A slider that takes one LED packet is never sent a second one.
pub proof fn law_single_packet_sliders_get_one_write(job: JobView, work: bool)
    requires
        job.wf(),
        !job.device.led_format.has_second(),
    ensures
        job.action_after_first(work) == (TickAction::Done { work }),
{
}

/// A message that goes out over a serial port sums to 0 modulo 256, and its
/// first light is dark.
pub proof fn law_serial_message_is_valid(job: JobView)
    requires
        job.wf(),
        job.device.is_serial,
        job.led_buf.len != 0,
    ensures
        byte_sum(wire_message(job.led_buf.data)) % 256 == 0,
        wire_message(job.led_buf.data)[3] == 0,
        wire_message(job.led_buf.data)[4] == 0,
        wire_message(job.led_buf.data)[5] == 0,
{
    law_led_message_sums_to_zero(job.led_buf.data);
}

/// Two buffers hold the same bytes in use exactly where they agree in length and
/// at every place up to it.
proof fn lemma_same_bytes_by_places(first: BufferView, second: BufferView)
    requires
        first.wf(),
        second.wf(),
    ensures
        first.bytes() == second.bytes() <==> first.len == second.len && forall|i: int|
            0 <= i < first.len ==> #[trigger] first.data[i] == second.data[i],
{
    assert(first.bytes().len() == first.len && second.bytes().len() == second.len);
    if first.bytes() == second.bytes() {
        assert forall|i: int| 0 <= i < first.len implies #[trigger] first.data[i]
            == second.data[i] by {
            assert(first.bytes()[i] == first.data[i]);
            assert(second.bytes()[i] == second.data[i]);
        }
    }
    if first.len == second.len && (forall|i: int|
        0 <= i < first.len ==> #[trigger] first.data[i] == second.data[i]) {
        assert(first.bytes() =~= second.bytes());
    }
}

/// A tick of a USB slider reads something new exactly where the report is not
/// empty and differs from the last one in its length or in any byte in use. A new
/// report is decoded into the input, the air sensors cleared if they are disabled,
/// and remembered. Any other leaves the input and what is remembered alone.
pub proof fn law_usb_tick_shows_every_new_report(served: Served, outcomes: Outcomes, s: int)
    requires
        served.wf(),
        !served.job.device.is_serial,
        outcomes.report.wf(),
        0 <= s < 6,
    ensures
        ({
            let report = outcomes.report;
            let last = served.job.last_read_buf;
            let decoded = served.job.device.report_format.decoded(report, served.input);
            let (after, work) = served.ticked(outcomes);
            &&& work <==> report.len > 0 && (report.len != last.len || exists|i: int|
                0 <= i < report.len && #[trigger] report.data[i] != last.data[i])
            &&& work ==> {
                &&& after.input.ground == decoded.ground
                &&& after.input.extra == decoded.extra
                &&& after.input.air.len() == 6
                &&& served.job.device.disable_air ==> after.input.air[s] == 0
                &&& !served.job.device.disable_air ==> after.input.air == decoded.air
                &&& after.job.last_read_buf == report
                &&& after.job.read_buf == last
            }
            &&& !work ==> {
                &&& after.input == served.input
                &&& after.job.last_read_buf == last
                &&& after.job.read_buf == report
            }
            &&& after.job.device == served.job.device
            &&& after.job.packet == served.job.packet
        }),
{
    law_usb_tick(served, outcomes);
    lemma_same_bytes_by_places(outcomes.report, served.job.last_read_buf);
    lemma_decoded_is_well_formed(
        served.job.device.report_format,
        outcomes.report,
        served.input,
    );
}

/// A decoded input has all of its parts.
proof fn lemma_decoded_is_well_formed(format: ReportFormat, report: BufferView, input: InputView)
    requires
        report.wf(),
        input.wf(),
    ensures
        format.decoded(report, input).wf(),
{
}

/// A tick of a USB slider packs lights that changed into both packets, whatever
/// these held, and leaves the packets alone if they did not change. Then it sends
/// each packet that is not empty: the packet's length becomes 0 where the write
/// took one byte more than it holds, and stays otherwise. The bytes stay either
/// way, and the lights count as packed.
pub proof fn law_usb_tick_packs_and_sends(served: Served, outcomes: Outcomes)
    requires
        !served.job.device.is_serial,
    ensures
        ({
            let format = served.job.device.led_format;
            let job = served.job;
            let lights = served.lights;
            let after = served.ticked(outcomes).0;
            let first = format.first_packet(lights, job.led_buf);
            let second = format.second_packet(lights, job.led_buf_two);
            let first_len = if lights.dirty {
                first.len
            } else {
                job.led_buf.len
            };
            let second_len = if lights.dirty {
                second.len
            } else {
                job.led_buf_two.len
            };
            &&& lights.dirty ==> after.job.led_buf.data == first.data
                && after.job.led_buf_two.data == second.data
            &&& !lights.dirty ==> after.job.led_buf.data == job.led_buf.data
                && after.job.led_buf_two.data == job.led_buf_two.data
            &&& first_len > 0 && outcomes.sent_first == first_len + 1 ==> after.job.led_buf.len == 0
            &&& outcomes.sent_first != first_len + 1 ==> after.job.led_buf.len == first_len
            &&& second_len > 0 && outcomes.sent_second == second_len + 1
                ==> after.job.led_buf_two.len == 0
            &&& outcomes.sent_second != second_len + 1 ==> after.job.led_buf_two.len == second_len
            &&& !after.lights.dirty
            &&& after.lights.ground == lights.ground
            &&& after.lights.air_left == lights.air_left
            &&& after.lights.air_right == lights.air_right
        }),
{
    law_usb_tick(served, outcomes);
}

/// A tick of a connected serial slider takes the received bytes into the packet
/// and the input, says whether there were any, and leaves the buffers of USB alone.
pub proof fn law_serial_tick_takes_the_stream(served: Served, outcomes: Outcomes)
    requires
        served.job.device.is_serial,
        outcomes.connected,
    ensures
        ({
            let (after, work) = served.ticked(outcomes);
            &&& work <==> outcomes.received.len() > 0
            &&& (after.job.packet, after.input) == served.job.packet.fed(
                served.job.device.disable_air,
                served.input,
                outcomes.received,
            )
            &&& after.job.device == served.job.device
            &&& after.job.read_buf == served.job.read_buf
            &&& after.job.last_read_buf == served.job.last_read_buf
        }),
{
    law_serial_tick(served, outcomes);
}

/// A tick of a connected serial slider packs lights that changed, whatever the
/// packet held before: light `k` of the message, for `k` from 1 on, is ground light
/// `31 - k` as it is now, the first byte behind the other two. Lights that did not
/// change leave the message as it was.
pub proof fn law_serial_tick_sends_the_current_lights(served: Served, outcomes: Outcomes, k: int)
    requires
        served.wf(),
        served.job.device.is_serial,
        outcomes.connected,
        1 <= k < 32,
    ensures
        ({
            let ground = served.lights.ground;
            let after = served.ticked(outcomes).0;
            let message = wire_message(after.job.led_buf.data);
            &&& served.lights.dirty ==> {
                &&& message[0] == 0xff && message[1] == 0x02 && message[2] == 96
                &&& message[3 + 3 * k] == ground[3 * (31 - k) + 1]
                &&& message[4 + 3 * k] == ground[3 * (31 - k) + 2]
                &&& message[5 + 3 * k] == ground[3 * (31 - k)]
                &&& message[3] == 0 && message[4] == 0 && message[5] == 0
                &&& after.job.led_buf.len == if outcomes.serial_ok {
                    0nat
                } else {
                    100nat
                }
            }
            &&& !served.lights.dirty ==> {
                &&& after.job.led_buf.data == served.job.led_buf.data
                &&& after.job.led_buf.len == if outcomes.serial_ok {
                    0nat
                } else {
                    served.job.led_buf.len
                }
            }
            &&& after.job.led_buf_two == served.job.led_buf_two
            &&& !after.lights.dirty
            &&& after.lights.ground == ground
            &&& after.lights.air_left == served.lights.air_left
            &&& after.lights.air_right == served.lights.air_right
        }),
{
    law_serial_tick(served, outcomes);
    law_led_message_by_bytes(served.ticked(outcomes).0.job.led_buf.data, k);
    law_led_message_by_bytes(served.ticked(outcomes).0.job.led_buf.data, 0);
}

/// A read sets how many bytes of the read buffer are in use, and nothing else. The
/// report is new exactly where it is not empty and differs from the last one in its
/// length or in any byte in use; then the input comes next, and otherwise the
/// lights.
pub proof fn law_read_reports_are_compared_in_full(job: JobView, len: nat)
    requires
        job.wf(),
        len <= 256,
    ensures
        ({
            let read = job.read(len);
            let last = job.last_read_buf;
            let new = len > 0 && (len != last.len || exists|i: int|
                0 <= i < len && #[trigger] job.read_buf.data[i] != last.data[i]);
            &&& read.read_buf.data == job.read_buf.data
            &&& read.read_buf.len == len
            &&& read == JobView { read_buf: read.read_buf, ..job }
            &&& read.action_after_read() == if new {
                TickAction::UpdateInput
            } else {
                TickAction::UpdateLights { work: false }
            }
        }),
{
    lemma_same_bytes_by_places(job.read(len).read_buf, job.last_read_buf);
}

/// A new report is decoded with the device's format, with the air sensors cleared
/// if they are disabled; then it is the last report, and nothing else changes but
/// that the two report buffers have changed places.
pub proof fn law_new_report_is_shown_and_kept(job: JobView, input: InputView, s: int)
    requires
        0 <= s < 6,
    ensures
        ({
            let decoded = job.device.report_format.decoded(job.read_buf, input);
            let shown = job.shown(input);
            let turned = job.turned();
            &&& shown.ground == decoded.ground
            &&& shown.extra == decoded.extra
            &&& job.device.disable_air ==> shown.air.len() == 6 && shown.air[s] == 0
            &&& !job.device.disable_air ==> shown.air == decoded.air
            &&& turned.last_read_buf == job.read_buf
            &&& turned.read_buf == job.last_read_buf
            &&& turned.device == job.device
            &&& turned.led_buf == job.led_buf
            &&& turned.led_buf_two == job.led_buf_two
            &&& turned.packet == job.packet
        }),
{
}

/// Changed lights are packed with the device's format, whatever the packets held;
/// unchanged lights leave the packets alone; nothing else ever changes.
pub proof fn law_changed_lights_are_packed(job: JobView, lights: LightsView)
    ensures
        ({
            let lit = job.lit(lights);
            let format = job.device.led_format;
            &&& lights.dirty ==> lit.led_buf == format.first_packet(lights, job.led_buf)
            &&& lights.dirty ==> lit.led_buf_two == format.second_packet(lights, job.led_buf_two)
            &&& !lights.dirty ==> lit.led_buf == job.led_buf
            &&& !lights.dirty ==> lit.led_buf_two == job.led_buf_two
            &&& lit.device == job.device
            &&& lit.read_buf == job.read_buf
            &&& lit.last_read_buf == job.last_read_buf
            &&& lit.packet == job.packet
        }),
{
}

/// A packet is done with when a write over USB took one byte more than it holds, or
/// a write over a serial port went well: its length becomes 0. Nothing else about
/// the job changes, and any other write changes nothing at all.
pub proof fn law_written_packets_are_done_with(job: JobView, sent: nat, ok: bool)
    ensures
        ({
            let first = job.usb_sent(LedSlot::First, sent);
            &&& first.led_buf.data == job.led_buf.data
            &&& first == JobView { led_buf: first.led_buf, ..job }
            &&& sent == job.led_buf.len + 1 ==> first.led_buf.len == 0
            &&& sent != job.led_buf.len + 1 ==> first == job
        }),
        ({
            let second = job.usb_sent(LedSlot::Second, sent);
            &&& second.led_buf_two.data == job.led_buf_two.data
            &&& second == JobView { led_buf_two: second.led_buf_two, ..job }
            &&& sent == job.led_buf_two.len + 1 ==> second.led_buf_two.len == 0
            &&& sent != job.led_buf_two.len + 1 ==> second == job
        }),
        ({
            let serial = job.serial_sent(ok);
            &&& serial.led_buf.data == job.led_buf.data
            &&& serial == JobView { led_buf: serial.led_buf, ..job }
            &&& ok ==> serial.led_buf.len == 0
            &&& !ok ==> serial == job
        }),
{
}

/// A tick begins with a read: over USB from the device's read endpoint, from the
/// serial port if that is open, and not at all where it is not.
pub proof fn law_tick_begins_with_a_read(job: JobView, connected: bool)
    ensures
        !job.device.is_serial ==> job.first_action(connected) == (TickAction::ReadUsb {
            endpoint: job.device.read_endpoint,
        }),
        job.device.is_serial && connected ==> job.first_action(connected)
            == TickAction::ReadSerial,
        job.device.is_serial && !connected ==> job.first_action(connected) == (TickAction::Done {
            work: false,
        }),
{
}

/// After a read, and before anything is sent, a tick always looks at the lights,
/// and it looks at the input first where a report is new.
pub proof fn law_lights_are_looked_at_in_every_tick(
    served: Served,
    outcomes: Outcomes,
    endpoint: u8,
)
    ensures
        ({
            let read = served.after(TickAction::ReadUsb { endpoint }, outcomes).1;
            ||| read == (TickAction::UpdateLights { work: false })
            ||| read == TickAction::UpdateInput
        }),
        served.after(TickAction::UpdateInput, outcomes).1 == (TickAction::UpdateLights {
            work: true,
        }),
        served.after(TickAction::ReadSerial, outcomes).1 == (TickAction::UpdateLights {
            work: outcomes.received.len() > 0,
        }),
{
}

/// What is sent goes out as the device takes it: over USB to its LED endpoint, with
/// its kind of transfer, the first packet before the second, and each only if it is
/// not empty; over a serial port the one message, if there is one.
pub proof fn law_packets_go_out_in_order(job: JobView, work: bool)
    ensures
        job.device.is_serial && job.led_buf.len > 0 ==> job.action_after_lights(work) == (
        TickAction::WriteSerial { work }),
        job.device.is_serial && job.led_buf.len == 0 ==> job.action_after_lights(work) == (
        TickAction::Done { work }),
        !job.device.is_serial && job.led_buf.len > 0 ==> job.action_after_lights(work) == (
        TickAction::WriteUsb {
            slot: LedSlot::First,
            write_type: job.device.led_write_type,
            endpoint: job.device.led_endpoint,
            work,
        }),
        !job.device.is_serial && job.led_buf.len == 0 && job.led_buf_two.len > 0 ==> (
        job.action_after_lights(work) == TickAction::WriteUsb {
            slot: LedSlot::Second,
            write_type: job.device.led_write_type,
            endpoint: job.device.led_endpoint,
            work,
        }),
        !job.device.is_serial && job.led_buf_two.len > 0 ==> job.action_after_usb(
            LedSlot::First,
            work,
        ) == (TickAction::WriteUsb {
            slot: LedSlot::Second,
            write_type: job.device.led_write_type,
            endpoint: job.device.led_endpoint,
            work,
        }),
        !job.device.is_serial && job.led_buf.len == 0 && job.led_buf_two.len == 0 ==> (
        job.action_after_lights(work) == TickAction::Done { work }),
        job.led_buf_two.len == 0 ==> job.action_after_usb(LedSlot::First, work) == (
        TickAction::Done { work }),
        job.action_after_usb(LedSlot::Second, work) == (TickAction::Done { work }),
{
}

} // verus!
