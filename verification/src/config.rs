//! The sliders that can be driven, and what is fixed about each of them.
use vstd::prelude::*;

use crate::leds::LedFormat;
use crate::reports::ReportFormat;

verus! {

/// A slider model.
#[derive(Clone, Copy, Debug, PartialEq, Eq, Structural)]
pub enum HardwareSpec {
    TasollerOne,
    TasollerTwo,
    LinneaLegacy,
    Yuancon,
    YuanconThree,
    Yubideck,
    YubideckThree,
}

/// The kind of USB transfer that LED packets go out with.
#[derive(Clone, Copy, Debug, PartialEq, Eq, Structural)]
pub enum WriteType {
    Bulk,
    Interrupt,
}

/// What is fixed about a slider.
#[derive(Clone, Copy, Debug, PartialEq, Eq, Structural)]
pub struct Device {
    pub vid: u16,
    pub pid: u16,
    pub read_endpoint: u8,
    pub led_endpoint: u8,
    /// The air sensors are reported as clear.
    pub disable_air: bool,
    pub report_format: ReportFormat,
    pub led_write_type: WriteType,
    pub led_format: LedFormat,
    /// The slider is reached through a serial port.
    pub is_serial: bool,
}

impl Device {
    /// A serial slider takes framed LED messages.
    pub open spec fn wf(self) -> bool {
        self.is_serial ==> self.led_format == LedFormat::Linnea
    }

    /// What is fixed about a model.
    pub open spec fn of(spec: HardwareSpec, disable_air: bool) -> Device {
        match spec {
            HardwareSpec::TasollerOne => Device {
                vid: 0x1ccf,
                pid: 0x2333,
                read_endpoint: 0x84,
                led_endpoint: 0x03,
                disable_air,
                report_format: ReportFormat::TasollerOne,
                led_write_type: WriteType::Bulk,
                led_format: LedFormat::TasollerOne,
                is_serial: false,
            },
            HardwareSpec::TasollerTwo => Device {
                vid: 0x1ccf,
                pid: 0x2333,
                read_endpoint: 0x84,
                led_endpoint: 0x03,
                disable_air,
                report_format: ReportFormat::TasollerTwo,
                led_write_type: WriteType::Bulk,
                led_format: LedFormat::TasollerTwo,
                is_serial: false,
            },
            HardwareSpec::LinneaLegacy => Device {
                vid: 0xaff1,
                pid: 0x52a4,
                read_endpoint: 0,
                led_endpoint: 0,
                disable_air,
                report_format: ReportFormat::Silent,
                led_write_type: WriteType::Bulk,
                led_format: LedFormat::Linnea,
                is_serial: true,
            },
            HardwareSpec::Yuancon => Device {
                vid: 0x1973,
                pid: 0x2001,
                read_endpoint: 0x81,
                led_endpoint: 0x02,
                disable_air,
                report_format: ReportFormat::Yuancon,
                led_write_type: WriteType::Interrupt,
                led_format: LedFormat::Yuancon,
                is_serial: false,
            },
            HardwareSpec::YuanconThree => Device {
                vid: 0x0518,
                pid: 0x2022,
                read_endpoint: 0x83,
                led_endpoint: 0x03,
                disable_air,
                report_format: ReportFormat::YuanconThree,
                led_write_type: WriteType::Interrupt,
                led_format: LedFormat::YuanconThree,
                is_serial: false,
            },
            HardwareSpec::Yubideck => Device {
                vid: 0x1973,
                pid: 0x2001,
                read_endpoint: 0x81,
                led_endpoint: 0x02,
                disable_air,
                report_format: ReportFormat::Yubideck,
                led_write_type: WriteType::Interrupt,
                led_format: LedFormat::Yubideck,
                is_serial: false,
            },
            HardwareSpec::YubideckThree => Device {
                vid: 0x1973,
                pid: 0x2001,
                read_endpoint: 0x81,
                led_endpoint: 0x02,
                disable_air,
                report_format: ReportFormat::Yubideck,
                led_write_type: WriteType::Interrupt,
                led_format: LedFormat::YubideckThree,
                is_serial: false,
            },
        }
    }
}

} // verus!
