use slider_hid::buffer::Buffer;
use slider_hid::config::{HardwareSpec, WriteType};
use slider_hid::connect::{
    first_activation, second_activation, LineParity, PortInfo, SetupStep, UsbId,
};
use slider_hid::hid::{HidJob, LedSlot, TickAction};
use slider_hid::leds::LedFormat;
use slider_hid::reports::ReportFormat;
use slider_hid::state::{SliderInput, SliderLights};
use slider_hid::ticks::GivenOutcomes;

fn untouched() -> SliderInput {
    SliderInput { ground: [0; 32], air: [7; 6], extra: [7; 3] }
}

fn lights(dirty: bool) -> SliderLights {
    SliderLights { ground: [40; 93], air_left: [50; 9], air_right: [60; 9], dirty }
}

fn port(name: &str, usb: Option<UsbId>) -> PortInfo {
    PortInfo { name: name.to_string(), usb }
}

/// Fills the read buffer as a read over USB does.
fn receive(job: &mut HidJob, bytes: &[u8]) -> TickAction {
    job.read_buf.data[..bytes.len()].copy_from_slice(bytes);
    job.on_usb_read(bytes.len())
}

/// The steps of connecting, where `fails` says which of them end badly.
fn steps(job: &HidJob, fails: &[SetupStep]) -> Vec<SetupStep> {
    let mut taken = Vec::new();
    let mut step = job.device.begin_setup();
    loop {
        taken.push(step);
        if step == SetupStep::Ready || step == SetupStep::Failed {
            return taken;
        }
        step = job.device.next_setup(step, !fails.contains(&step));
    }
}

#[test]
fn models_have_their_own_numbers() {
    let expected = [
        (HardwareSpec::TasollerOne, 0x1ccf, 0x2333, 0x84, 0x03, WriteType::Bulk),
        (HardwareSpec::TasollerTwo, 0x1ccf, 0x2333, 0x84, 0x03, WriteType::Bulk),
        (HardwareSpec::LinneaLegacy, 0xaff1, 0x52a4, 0, 0, WriteType::Bulk),
        (HardwareSpec::Yuancon, 0x1973, 0x2001, 0x81, 0x02, WriteType::Interrupt),
        (HardwareSpec::YuanconThree, 0x0518, 0x2022, 0x83, 0x03, WriteType::Interrupt),
        (HardwareSpec::Yubideck, 0x1973, 0x2001, 0x81, 0x02, WriteType::Interrupt),
        (HardwareSpec::YubideckThree, 0x1973, 0x2001, 0x81, 0x02, WriteType::Interrupt),
    ];
    for (spec, vid, pid, read_endpoint, led_endpoint, write_type) in expected {
        let job = HidJob::from_config(&spec, &true);
        assert_eq!(job.device.vid, vid);
        assert_eq!(job.device.pid, pid);
        assert_eq!(job.device.read_endpoint, read_endpoint);
        assert_eq!(job.device.led_endpoint, led_endpoint);
        assert_eq!(job.device.led_write_type, write_type);
        assert_eq!(job.device.is_serial, spec == HardwareSpec::LinneaLegacy);
        assert!(job.device.disable_air);
        assert!(!HidJob::from_config(&spec, &false).device.disable_air);
        assert_eq!(job.led_buf.len, 0);
        assert_eq!(job.led_buf_two.len, 0);
    }
}

#[test]
fn models_have_their_own_formats() {
    let three = HidJob::from_config(&HardwareSpec::YubideckThree, &false);
    assert_eq!(three.device.report_format, ReportFormat::Yubideck);
    assert_eq!(three.device.led_format, LedFormat::YubideckThree);
    let linnea = HidJob::from_config(&HardwareSpec::LinneaLegacy, &false);
    assert_eq!(linnea.device.report_format, ReportFormat::Silent);
    assert_eq!(linnea.device.led_format, LedFormat::Linnea);
}

#[test]
fn usb_setup_runs_step_by_step() {
    let job = HidJob::from_config(&HardwareSpec::YuanconThree, &false);
    let open = SetupStep::OpenUsb { vid: 0x0518, pid: 0x2022 };
    let query = SetupStep::QueryKernelDriver { interface: 0 };
    let detach = SetupStep::DetachKernelDriver { interface: 0 };
    let configure = SetupStep::SetConfiguration { configuration: 1 };
    let claim = SetupStep::ClaimInterface { interface: 3 };
    let ready = SetupStep::Ready;
    let failed = SetupStep::Failed;
    assert_eq!(steps(&job, &[]), vec![open, query, detach, configure, claim, ready]);
    assert_eq!(steps(&job, &[query]), vec![open, query, configure, claim, ready]);
    assert_eq!(steps(&job, &[open]), vec![open, failed]);
    assert_eq!(steps(&job, &[detach]), vec![open, query, detach, failed]);
    assert_eq!(steps(&job, &[configure]), vec![open, query, detach, configure, failed]);
    assert_eq!(steps(&job, &[claim]), vec![open, query, detach, configure, claim, failed]);
    let other = HidJob::from_config(&HardwareSpec::Yuancon, &false);
    assert!(steps(&other, &[]).contains(&SetupStep::ClaimInterface { interface: 0 }));
}

#[test]
fn serial_setup_fails_only_without_a_port() {
    let job = HidJob::from_config(&HardwareSpec::LinneaLegacy, &false);
    let all = vec![
        SetupStep::OpenSerial,
        SetupStep::RaiseTerminalReady,
        SetupStep::WaitForLine,
        SetupStep::SendFirstActivation,
        SetupStep::WaitForActivation,
        SetupStep::SendSecondActivation,
        SetupStep::Ready,
    ];
    assert_eq!(steps(&job, &[]), all);
    assert_eq!(steps(&job, &all[1..]), all);
    assert_eq!(steps(&job, &all[..1]), vec![SetupStep::OpenSerial, SetupStep::Failed]);
    assert_eq!(SetupStep::WaitForLine.millis(), Some(50));
    assert_eq!(SetupStep::WaitForActivation.millis(), Some(10));
    assert_eq!(SetupStep::Ready.millis(), None);
}

#[test]
fn each_activation_step_sends_its_own_message() {
    assert_eq!(SetupStep::SendFirstActivation.message(), Some([0xff, 0x06, 0x00, 0xfb]));
    assert_eq!(SetupStep::SendSecondActivation.message(), Some([0xff, 0x03, 0x00, 0xfe]));
    assert_eq!(SetupStep::OpenSerial.message(), None);
    assert_eq!(SetupStep::WaitForActivation.message(), None);
    assert_eq!(SetupStep::Ready.message(), None);
}

#[test]
fn activation_messages_sum_to_zero() {
    assert_eq!(first_activation(), [0xff, 0x06, 0x00, 0xfb]);
    assert_eq!(second_activation(), [0xff, 0x03, 0x00, 0xfe]);
    for message in [first_activation(), second_activation()] {
        assert_eq!(message.iter().fold(0u8, |sum, byte| sum.wrapping_add(*byte)), 0);
    }
}

#[test]
fn the_first_port_of_the_slider_is_taken() {
    let slider = UsbId { vid: 0xaff1, pid: 0x52a4 };
    let ports = vec![
        port("a", None),
        port("b", Some(UsbId { vid: 0xaff1, pid: 1 })),
        port("c", Some(slider)),
        port("d", Some(slider)),
    ];
    assert_eq!(HidJob::find_serial_port(&ports, 0xaff1, 0x52a4), Some("c".to_string()));
    assert_eq!(HidJob::find_serial_port(&ports, 1, 0x52a4), None);
    let job = HidJob::from_config(&HardwareSpec::LinneaLegacy, &false);
    let settings = job.device.serial_settings(&ports);
    assert_eq!(settings.path, "c");
    assert_eq!(settings.baud_rate, 115200);
    assert_eq!(settings.data_bits, 8);
    assert_eq!(settings.stop_bits, 1);
    assert_eq!(settings.parity, LineParity::Unchecked);
    assert_eq!(settings.timeout_millis, 5);
    assert_eq!(job.device.serial_settings(&Vec::new()).path, "COM3");
}

#[test]
fn only_an_open_usb_device_is_released() {
    let usb = HidJob::from_config(&HardwareSpec::YuanconThree, &false);
    assert_eq!(usb.device.interface_to_release(true), Some(0));
    assert_eq!(usb.device.interface_to_release(false), None);
    let serial = HidJob::from_config(&HardwareSpec::LinneaLegacy, &false);
    assert_eq!(serial.device.interface_to_release(true), None);
}

#[test]
fn a_new_report_is_shown_once() {
    let mut job = HidJob::from_config(&HardwareSpec::TasollerTwo, &false);
    let mut input = untouched();
    let mut bytes = [1u8; 36];
    bytes[3] = 0b0000_0001;
    assert_eq!(job.begin_tick(true), TickAction::ReadUsb { endpoint: 0x84 });
    assert_eq!(receive(&mut job, &bytes), TickAction::UpdateInput);
    assert_eq!(job.on_input(&mut input), TickAction::UpdateLights { work: true });
    assert_eq!(input.ground, [1; 32]);
    assert_eq!(input.air, [1, 0, 0, 0, 0, 0]);
    assert_eq!(job.last_read_buf.slice(), &bytes);
    assert_eq!(receive(&mut job, &bytes), TickAction::UpdateLights { work: false });
    assert_eq!(receive(&mut job, &[]), TickAction::UpdateLights { work: false });
    bytes[35] = 2;
    assert_eq!(receive(&mut job, &bytes), TickAction::UpdateInput);
}

#[test]
fn disabled_air_is_cleared_whatever_the_report() {
    let mut job = HidJob::from_config(&HardwareSpec::TasollerTwo, &true);
    let mut input = untouched();
    assert_eq!(receive(&mut job, &[5; 3]), TickAction::UpdateInput);
    job.on_input(&mut input);
    assert_eq!(input.air, [0; 6]);
    assert_eq!(input.ground, [0; 32]);
    assert_eq!(input.extra, [7; 3]);
}

#[test]
fn usb_packets_wait_until_they_are_taken() {
    let mut job = HidJob::from_config(&HardwareSpec::YubideckThree, &false);
    let mut shared = lights(true);
    let first = TickAction::WriteUsb {
        slot: LedSlot::First,
        write_type: WriteType::Interrupt,
        endpoint: 0x02,
        work: true,
    };
    let second = TickAction::WriteUsb {
        slot: LedSlot::Second,
        write_type: WriteType::Interrupt,
        endpoint: 0x02,
        work: true,
    };
    let done = TickAction::Done { work: true };
    assert_eq!(job.on_lights(&mut shared, true), first);
    assert!(!shared.dirty);
    assert_eq!(job.usb_packet(LedSlot::First).len(), 61);
    assert_eq!(job.usb_packet(LedSlot::First)[..2], [0, 40]);
    assert_eq!(job.usb_packet(LedSlot::Second)[..2], [1, 40]);
    assert_eq!(job.usb_packet(LedSlot::Second)[34..41], [50, 50, 50, 60, 60, 60, 0]);
    assert_eq!(job.on_usb_written(LedSlot::First, 61, true), second);
    assert_eq!(job.on_usb_written(LedSlot::Second, 62, true), done);
    assert_eq!(job.led_buf_two.len, 0);
    assert_eq!(job.on_lights(&mut shared, true), first);
    assert_eq!(job.on_usb_written(LedSlot::First, 62, true), done);
    assert_eq!(job.led_buf.len, 0);
    assert_eq!(job.on_lights(&mut shared, true), done);
}

#[test]
fn a_waiting_second_packet_goes_out_alone() {
    let mut job = HidJob::from_config(&HardwareSpec::YuanconThree, &false);
    let mut shared = lights(true);
    job.on_lights(&mut shared, false);
    job.on_usb_written(LedSlot::First, 62, false);
    let packet = job.usb_packet(LedSlot::Second).to_vec();
    job.on_usb_written(LedSlot::Second, 0, false);
    assert_eq!(job.usb_packet(LedSlot::Second), &packet[..]);
    assert_eq!(
        job.on_lights(&mut shared, false),
        TickAction::WriteUsb {
            slot: LedSlot::Second,
            write_type: WriteType::Interrupt,
            endpoint: 0x03,
            work: false,
        }
    );
}

#[test]
fn a_packet_left_over_is_sent_until_it_is_taken() {
    let mut job = HidJob::from_config(&HardwareSpec::TasollerOne, &false);
    let mut shared = lights(true);
    job.on_lights(&mut shared, false);
    let packet = job.usb_packet(LedSlot::First).to_vec();
    for sent in [0, 1, 239, 240, 242] {
        job.on_usb_written(LedSlot::First, sent, false);
        assert_eq!(job.usb_packet(LedSlot::First), &packet[..]);
        assert_eq!(
            job.on_lights(&mut shared, false),
            TickAction::WriteUsb {
                slot: LedSlot::First,
                write_type: WriteType::Bulk,
                endpoint: 0x03,
                work: false,
            }
        );
    }
    job.on_usb_written(LedSlot::First, 241, false);
    assert_eq!(job.on_lights(&mut shared, false), TickAction::Done { work: false });
}

#[test]
fn sliders_of_one_packet_get_one_write() {
    let mut job = HidJob::from_config(&HardwareSpec::Yuancon, &false);
    let mut shared = lights(true);
    job.on_lights(&mut shared, false);
    assert_eq!(job.on_usb_written(LedSlot::First, 0, false), TickAction::Done { work: false });
    assert_eq!(job.led_buf.len, 62);
}

#[test]
fn a_serial_tick_reads_shows_and_sends() {
    let mut job = HidJob::from_config(&HardwareSpec::LinneaLegacy, &false);
    let mut input = untouched();
    let mut shared = lights(true);
    assert_eq!(job.begin_tick(false), TickAction::Done { work: false });
    assert_eq!(job.begin_tick(true), TickAction::ReadSerial);
    assert_eq!(
        job.on_serial_read(&[], &mut input),
        TickAction::UpdateLights { work: false }
    );
    let mut bytes = vec![0xff, 0x01, 32];
    bytes.resize(36, 8);
    assert_eq!(
        job.on_serial_read(&bytes, &mut input),
        TickAction::UpdateLights { work: true }
    );
    assert_eq!(input.ground, [8; 32]);
    assert_eq!(job.on_lights(&mut shared, true), TickAction::WriteSerial { work: true });
    let message = job.serial_message();
    assert_eq!(&message[..7], &[0xff, 0x02, 96, 0, 0, 0, 40]);
    assert_eq!(message.iter().fold(0u8, |sum, byte| sum.wrapping_add(*byte)), 0);
    assert_eq!(job.on_serial_written(false, true), TickAction::Done { work: true });
    assert_eq!(job.serial_message(), message);
    assert_eq!(job.on_lights(&mut shared, false), TickAction::WriteSerial { work: false });
    assert_eq!(job.on_serial_written(true, false), TickAction::Done { work: false });
    assert_eq!(job.on_lights(&mut shared, false), TickAction::Done { work: false });
}

fn quiet(connected: bool) -> GivenOutcomes {
    GivenOutcomes {
        connected,
        report: Buffer::new(),
        received: Vec::new(),
        serial_ok: false,
        sent_first: 0,
        sent_second: 0,
    }
}

#[test]
fn a_whole_usb_tick_can_be_rehearsed() {
    let mut job = HidJob::from_config(&HardwareSpec::YuanconThree, &true);
    let mut input = untouched();
    let mut shared = lights(true);
    let mut outcomes = quiet(true);
    outcomes.report.data = [3; 256];
    outcomes.report.len = 46;
    outcomes.sent_second = 62;
    assert!(job.rehearse_tick(&outcomes, &mut input, &mut shared));
    assert_eq!(input.ground, [3; 32]);
    assert_eq!(input.air, [0; 6]);
    assert!(!shared.dirty);
    assert_eq!(job.last_read_buf.len, 46);
    assert_eq!(job.led_buf.len, 61);
    assert_eq!(job.led_buf_two.len, 0);
    input.ground = [9; 32];
    outcomes.sent_first = 62;
    assert!(!job.rehearse_tick(&outcomes, &mut input, &mut shared));
    assert_eq!(input.ground, [9; 32]);
    assert_eq!(job.led_buf.len, 0);
}

#[test]
fn a_whole_serial_tick_can_be_rehearsed() {
    let mut job = HidJob::from_config(&HardwareSpec::LinneaLegacy, &false);
    let mut input = untouched();
    let mut shared = lights(true);
    assert!(!job.rehearse_tick(&quiet(false), &mut input, &mut shared));
    assert!(shared.dirty);
    let mut outcomes = quiet(true);
    outcomes.received = vec![0xff, 0x01, 32];
    outcomes.received.resize(36, 8);
    assert!(job.rehearse_tick(&outcomes, &mut input, &mut shared));
    assert_eq!(input.ground, [8; 32]);
    assert_eq!(job.led_buf.len, 100);
    outcomes.received.clear();
    outcomes.serial_ok = true;
    assert!(!job.rehearse_tick(&outcomes, &mut input, &mut shared));
    assert_eq!(job.led_buf.len, 0);
}

#[test]
fn one_action_can_be_rehearsed() {
    let mut job = HidJob::from_config(&HardwareSpec::TasollerOne, &false);
    let mut input = untouched();
    let mut shared = lights(false);
    let following = job.rehearse_action(
        TickAction::ReadUsb { endpoint: 0x84 },
        &quiet(true),
        &mut input,
        &mut shared,
    );
    assert_eq!(following, TickAction::UpdateLights { work: false });
}
