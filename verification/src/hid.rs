//! The job that serves a slider: it keeps what was last read and what is to be
//! sent, and decides, one action at a time, what a tick does.
use vstd::prelude::*;

use crate::buffer::{Buffer, BufferView, BUFFER_SIZE};
use crate::config::{Device, HardwareSpec, WriteType};
use crate::leds::{law_padding_stays_dark, LedFormat};
use crate::reports::ReportFormat;
use crate::serial::{led_message, wire_message, PacketReader, PacketView};
use crate::state::{InputView, LightsView, SliderInput, SliderLights};

verus! {

/// How many milliseconds a USB transfer may take.
pub const USB_TIMEOUT_MILLIS: u64 = 20;

/// How many bytes a read from the serial port asks for.
pub const SERIAL_READ_SIZE: usize = 128;

/// One of the two LED packets of a job.
#[derive(Clone, Copy, Debug, PartialEq, Eq, Structural)]
pub enum LedSlot {
    First,
    Second,
}

/// What a tick does next. `work` says whether the tick has read anything new.
#[derive(Clone, Copy, Debug, PartialEq, Eq, Structural)]
pub enum TickAction {
    /// Read a report into `read_buf.data`, then call [`HidJob::on_usb_read`].
    ReadUsb { endpoint: u8 },
    /// Read from the serial port, then call [`HidJob::on_serial_read`].
    ReadSerial,
    /// Call [`HidJob::on_input`] with the shared input.
    UpdateInput,
    /// Call [`HidJob::on_lights`] with the shared lights.
    UpdateLights { work: bool },
    /// Send [`HidJob::serial_message`], then call [`HidJob::on_serial_written`].
    WriteSerial { work: bool },
    /// Send the packet in a slot, then call [`HidJob::on_usb_written`].
    WriteUsb { slot: LedSlot, write_type: WriteType, endpoint: u8, work: bool },
    /// The tick is over.
    Done { work: bool },
}

impl TickAction {
    /// How many actions can still follow.
    pub open spec fn rank(self) -> nat {
        match self {
            TickAction::ReadUsb { .. } => 5,
            TickAction::ReadSerial => 4,
            TickAction::UpdateInput => 4,
            TickAction::UpdateLights { .. } => 3,
            TickAction::WriteSerial { .. } => 1,
            TickAction::WriteUsb { slot: LedSlot::First, .. } => 2,
            TickAction::WriteUsb { slot: LedSlot::Second, .. } => 1,
            TickAction::Done { .. } => 0,
        }
    }
}

/// A job that serves one slider.
#[derive(Debug)]
pub struct HidJob {
    pub device: Device,
    /// The report that is being read.
    pub read_buf: Buffer,
    /// The report that the input was last brought up to date with.
    pub last_read_buf: Buffer,
    /// The first LED packet; its length is 0 when nothing is to be sent.
    pub led_buf: Buffer,
    /// The second LED packet; its length is 0 when nothing is to be sent.
    pub led_buf_two: Buffer,
    /// The packet that is being received over a serial port.
    pub packet: PacketReader,
}

/// What a [`HidJob`] holds.
#[verifier::ext_equal]
pub struct JobView {
    pub device: Device,
    pub read_buf: BufferView,
    pub last_read_buf: BufferView,
    pub led_buf: BufferView,
    pub led_buf_two: BufferView,
    pub packet: PacketView,
}

impl JobView {
    /// The parts are well formed; the padding of the LED packets is dark; a
    /// format of one packet leaves the second slot empty; and a message that
    /// waits to go out over a serial port has its head.
    pub open spec fn wf(self) -> bool {
        &&& self.device.wf()
        &&& self.read_buf.wf()
        &&& self.last_read_buf.wf()
        &&& self.led_buf.wf()
        &&& self.led_buf_two.wf()
        &&& self.packet.wf()
        &&& self.device.led_format.padding_dark(self.led_buf, self.led_buf_two)
        &&& !self.device.led_format.has_second() ==> self.led_buf_two.len == 0
        &&& self.device.led_format == LedFormat::Linnea && self.led_buf.len != 0 ==> {
            &&& self.led_buf.data[0] == 0xff
            &&& self.led_buf.data[1] == 2
            &&& self.led_buf.data[2] == 96
        }
    }

    /// A job that has done nothing yet.
    pub open spec fn idle(device: Device) -> JobView {
        JobView {
            device,
            read_buf: BufferView::empty(),
            last_read_buf: BufferView::empty(),
            led_buf: BufferView::empty(),
            led_buf_two: BufferView::empty(),
            packet: PacketView::idle(),
        }
    }

    /// The first action of a tick. A serial slider without a port has none.
    pub open spec fn first_action(self, connected: bool) -> TickAction {
        if !self.device.is_serial {
            TickAction::ReadUsb { endpoint: self.device.read_endpoint }
        } else if connected {
            TickAction::ReadSerial
        } else {
            TickAction::Done { work: false }
        }
    }

    /// After a read that brought `len` bytes.
    pub open spec fn read(self, len: nat) -> JobView {
        JobView { read_buf: BufferView { len, ..self.read_buf }, ..self }
    }

    /// Whether the report just read says anything new.
    pub open spec fn is_fresh(self) -> bool {
        self.read_buf.len != 0 && self.read_buf.bytes() != self.last_read_buf.bytes()
    }

    /// The action after a read.
    pub open spec fn action_after_read(self) -> TickAction {
        if self.is_fresh() {
            TickAction::UpdateInput
        } else {
            TickAction::UpdateLights { work: false }
        }
    }

    /// The input that the report just read shows.
    pub open spec fn shown(self, input: InputView) -> InputView {
        self.device.report_format.decoded(self.read_buf, input).air_masked(
            self.device.disable_air,
        )
    }

    /// After the input was brought up to date: the two report buffers change places.
    pub open spec fn turned(self) -> JobView {
        JobView { read_buf: self.last_read_buf, last_read_buf: self.read_buf, ..self }
    }

    /// After the lights were looked at: if they changed, the LED packets are
    /// built anew.
    pub open spec fn lit(self, lights: LightsView) -> JobView {
        if lights.dirty {
            JobView {
                led_buf: self.device.led_format.first_packet(lights, self.led_buf),
                led_buf_two: self.device.led_format.second_packet(lights, self.led_buf_two),
                ..self
            }
        } else {
            self
        }
    }

    /// The action after the lights were looked at.
    pub open spec fn action_after_lights(self, work: bool) -> TickAction {
        if self.led_buf.len == 0 {
            if self.device.is_serial {
                TickAction::Done { work }
            } else {
                self.action_after_first(work)
            }
        } else if self.device.is_serial {
            TickAction::WriteSerial { work }
        } else {
            TickAction::WriteUsb {
                slot: LedSlot::First,
                write_type: self.device.led_write_type,
                endpoint: self.device.led_endpoint,
                work,
            }
        }
    }

    /// The action after the first LED packet was dealt with.
    pub open spec fn action_after_first(self, work: bool) -> TickAction {
        if self.led_buf_two.len == 0 {
            TickAction::Done { work }
        } else {
            TickAction::WriteUsb {
                slot: LedSlot::Second,
                write_type: self.device.led_write_type,
                endpoint: self.device.led_endpoint,
                work,
            }
        }
    }

    /// After a write over USB that took `sent` bytes of the packet in a slot:
    /// the packet is done with where that is one more than its length, and
    /// waits to be sent again otherwise.
    pub open spec fn usb_sent(self, slot: LedSlot, sent: nat) -> JobView {
        match slot {
            LedSlot::First => JobView { led_buf: sent_off(self.led_buf, sent), ..self },
            LedSlot::Second => JobView { led_buf_two: sent_off(self.led_buf_two, sent), ..self },
        }
    }

    /// The action after a write over USB.
    pub open spec fn action_after_usb(self, slot: LedSlot, work: bool) -> TickAction {
        match slot {
            LedSlot::First => self.action_after_first(work),
            LedSlot::Second => TickAction::Done { work },
        }
    }

    /// After a write over a serial port: the packet is done with where the write
    /// went well, and waits to be sent again otherwise.
    pub open spec fn serial_sent(self, ok: bool) -> JobView {
        if ok {
            JobView { led_buf: BufferView { len: 0, ..self.led_buf }, ..self }
        } else {
            self
        }
    }
}

/// A packet of which `sent` bytes were taken.
pub open spec fn sent_off(packet: BufferView, sent: nat) -> BufferView {
    if sent == packet.len + 1 {
        BufferView { len: 0, ..packet }
    } else {
        packet
    }
}

impl View for HidJob {
    type V = JobView;

    open spec fn view(&self) -> JobView {
        JobView {
            device: self.device,
            read_buf: self.read_buf@,
            last_read_buf: self.last_read_buf@,
            led_buf: self.led_buf@,
            led_buf_two: self.led_buf_two@,
            packet: self.packet@,
        }
    }
}

impl HidJob {
    /// See [`JobView::wf`].
    pub open spec fn wf(&self) -> bool {
        self@.wf()
    }

    /// A job for a USB slider.
    fn new(
        vid: u16,
        pid: u16,
        read_endpoint: u8,
        led_endpoint: u8,
        disable_air: bool,
        report_format: ReportFormat,
        led_write_type: WriteType,
        led_format: LedFormat,
    ) -> (job: HidJob)
        ensures
            job@ == JobView::idle(
                Device {
                    vid,
                    pid,
                    read_endpoint,
                    led_endpoint,
                    disable_air,
                    report_format,
                    led_write_type,
                    led_format,
                    is_serial: false,
                },
            ),
    {
        HidJob {
            device: Device {
                vid,
                pid,
                read_endpoint,
                led_endpoint,
                disable_air,
                report_format,
                led_write_type,
                led_format,
                is_serial: false,
            },
            read_buf: Buffer::new(),
            last_read_buf: Buffer::new(),
            led_buf: Buffer::new(),
            led_buf_two: Buffer::new(),
            packet: PacketReader::new(),
        }
    }

    /// A job for a slider model.
    pub fn from_config(spec: &HardwareSpec, disable_air: &bool) -> (job: HidJob)
        ensures
            job@ == JobView::idle(Device::of(*spec, *disable_air)),
            job.wf(),
    {
        match *spec {
            HardwareSpec::TasollerOne => HidJob::new(
                0x1ccf,
                0x2333,
                0x84,
                0x03,
                *disable_air,
                ReportFormat::TasollerOne,
                WriteType::Bulk,
                LedFormat::TasollerOne,
            ),
            HardwareSpec::TasollerTwo => HidJob::new(
                0x1ccf,
                0x2333,
                0x84,
                0x03,
                *disable_air,
                ReportFormat::TasollerTwo,
                WriteType::Bulk,
                LedFormat::TasollerTwo,
            ),
            HardwareSpec::LinneaLegacy => {
                let mut job = HidJob::new(
                    0xaff1,
                    0x52a4,
                    0,
                    0,
                    *disable_air,
                    ReportFormat::Silent,
                    WriteType::Bulk,
                    LedFormat::Linnea,
                );
                job.device.is_serial = true;
                job
            },
            HardwareSpec::Yuancon => HidJob::new(
                0x1973,
                0x2001,
                0x81,
                0x02,
                *disable_air,
                ReportFormat::Yuancon,
                WriteType::Interrupt,
                LedFormat::Yuancon,
            ),
            HardwareSpec::YuanconThree => HidJob::new(
                0x0518,
                0x2022,
                0x83,
                0x03,
                *disable_air,
                ReportFormat::YuanconThree,
                WriteType::Interrupt,
                LedFormat::YuanconThree,
            ),
            HardwareSpec::Yubideck => HidJob::new(
                0x1973,
                0x2001,
                0x81,
                0x02,
                *disable_air,
                ReportFormat::Yubideck,
                WriteType::Interrupt,
                LedFormat::Yubideck,
            ),
            HardwareSpec::YubideckThree => HidJob::new(
                0x1973,
                0x2001,
                0x81,
                0x02,
                *disable_air,
                ReportFormat::Yubideck,
                WriteType::Interrupt,
                LedFormat::YubideckThree,
            ),
        }
    }

    /// The first action of a tick, where `connected` says whether the slider's
    /// port or device is open. A USB slider has to be connected.
    pub fn begin_tick(&self, connected: bool) -> (action: TickAction)
        requires
            connected || self.device.is_serial,
        ensures
            action == self@.first_action(connected),
    {
        if !self.device.is_serial {
            TickAction::ReadUsb { endpoint: self.device.read_endpoint }
        } else if connected {
            TickAction::ReadSerial
        } else {
            TickAction::Done { work: false }
        }
    }

    /// A read brought `len` bytes into `read_buf.data`, 0 where it failed.
    pub fn on_usb_read(&mut self, len: usize) -> (action: TickAction)
        requires
            old(self).wf(),
            len <= BUFFER_SIZE,
        ensures
            final(self).wf(),
            final(self)@ == old(self)@.read(len as nat),
            action == final(self)@.action_after_read(),
    {
        self.read_buf.len = len;
        if self.read_buf.len != 0 && !self.read_buf.same_bytes(&self.last_read_buf) {
            TickAction::UpdateInput
        } else {
            TickAction::UpdateLights { work: false }
        }
    }

    /// Brings the input up to date with the report just read.
    pub fn on_input(&mut self, input: &mut SliderInput) -> (action: TickAction)
        requires
            old(self).wf(),
        ensures
            final(self).wf(),
            final(self)@ == old(self)@.turned(),
            final(input)@ == old(self)@.shown(old(input)@),
            action == (TickAction::UpdateLights { work: true }),
    {
        self.device.report_format.decode(&self.read_buf, input);
        if self.device.disable_air {
            input.clear_air();
        }
        std::mem::swap(&mut self.read_buf, &mut self.last_read_buf);
        TickAction::UpdateLights { work: true }
    }

    /// A read from the serial port brought `bytes`, none where it failed.
    pub fn on_serial_read(&mut self, bytes: &[u8], input: &mut SliderInput) -> (action: TickAction)
        requires
            old(self).wf(),
        ensures
            final(self).wf(),
            ({
                let (packet, shown) = old(self)@.packet.fed(
                    old(self)@.device.disable_air,
                    old(input)@,
                    bytes@,
                );
                &&& final(self)@ == JobView { packet, ..old(self)@ }
                &&& final(input)@ == shown
            }),
            action == (TickAction::UpdateLights { work: bytes@.len() > 0 }),
    {
        self.packet.feed(bytes, self.device.disable_air, input);
        TickAction::UpdateLights { work: bytes.len() > 0 }
    }

    /// Looks at the lights: if they changed, builds the LED packets anew.
    pub fn on_lights(&mut self, lights: &mut SliderLights, work: bool) -> (action: TickAction)
        requires
            old(self).wf(),
        ensures
            final(self).wf(),
            final(self)@ == old(self)@.lit(old(lights)@),
            final(lights)@ == (LightsView { dirty: false, ..old(lights)@ }),
            action == final(self)@.action_after_lights(work),
    {
        if lights.dirty {
            let format: LedFormat = self.device.led_format;
            format.encode(lights, &mut self.led_buf, &mut self.led_buf_two);
            lights.dirty = false;
            proof {
                law_padding_stays_dark(
                    format,
                    old(lights)@,
                    old(self)@.led_buf,
                    old(self)@.led_buf_two,
                );
            }
        }
        if self.led_buf.len == 0 {
            if self.device.is_serial {
                TickAction::Done { work }
            } else {
                self.after_first_packet(work)
            }
        } else if self.device.is_serial {
            TickAction::WriteSerial { work }
        } else {
            TickAction::WriteUsb {
                slot: LedSlot::First,
                write_type: self.device.led_write_type,
                endpoint: self.device.led_endpoint,
                work,
            }
        }
    }

    /// The action after the first LED packet was dealt with.
    fn after_first_packet(&self, work: bool) -> (action: TickAction)
        ensures
            action == self@.action_after_first(work),
    {
        if self.led_buf_two.len == 0 {
            TickAction::Done { work }
        } else {
            TickAction::WriteUsb {
                slot: LedSlot::Second,
                write_type: self.device.led_write_type,
                endpoint: self.device.led_endpoint,
                work,
            }
        }
    }

    /// The message that goes out over the serial port.
    pub fn serial_message(&self) -> (message: [u8; 100])
        ensures
            message@ == wire_message(self@.led_buf.data),
    {
        led_message(&self.led_buf)
    }

    /// A write over the serial port ended, well or not.
    pub fn on_serial_written(&mut self, ok: bool, work: bool) -> (action: TickAction)
        requires
            old(self).wf(),
        ensures
            final(self).wf(),
            final(self)@ == old(self)@.serial_sent(ok),
            action == (TickAction::Done { work }),
    {
        if ok {
            self.led_buf.len = 0;
        }
        TickAction::Done { work }
    }

    /// The bytes of the LED packet in a slot.
    pub fn usb_packet(&self, slot: LedSlot) -> (bytes: &[u8])
        requires
            self.wf(),
        ensures
            bytes@ == match slot {
                LedSlot::First => self@.led_buf.bytes(),
                LedSlot::Second => self@.led_buf_two.bytes(),
            },
    {
        match slot {
            LedSlot::First => self.led_buf.slice(),
            LedSlot::Second => self.led_buf_two.slice(),
        }
    }

    /// A write over USB took `sent` bytes of the packet in a slot, 0 where it failed.
    pub fn on_usb_written(&mut self, slot: LedSlot, sent: usize, work: bool) -> (action: TickAction)
        requires
            old(self).wf(),
        ensures
            final(self).wf(),
            final(self)@ == old(self)@.usb_sent(slot, sent as nat),
            action == final(self)@.action_after_usb(slot, work),
    {
        match slot {
            LedSlot::First => {
                if sent == self.led_buf.len + 1 {
                    self.led_buf.len = 0;
                }
                self.after_first_packet(work)
            },
            LedSlot::Second => {
                if sent == self.led_buf_two.len + 1 {
                    self.led_buf_two.len = 0;
                }
                TickAction::Done { work }
            },
        }
    }
}

} // verus!
