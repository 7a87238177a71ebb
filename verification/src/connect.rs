//! Connecting to a slider: which port or device to open, what to do with it
//! step by step, and what to let go of in the end.
use vstd::prelude::*;

use crate::config::{Device, HardwareSpec};
use crate::hid::HidJob;

verus! {

/// The vendor and product of a USB device.
#[derive(Clone, Copy, Debug, PartialEq, Eq, Structural)]
pub struct UsbId {
    pub vid: u16,
    pub pid: u16,
}

/// A serial port of the machine.
#[derive(Debug)]
pub struct PortInfo {
    pub name: String,
    /// What stands behind the port, if that is a USB device.
    pub usb: Option<UsbId>,
}

/// The check bit of a serial line.
#[derive(Clone, Copy, Debug, PartialEq, Eq, Structural)]
pub enum LineParity {
    Unchecked,
    Odd,
    Even,
}

/// How a serial port is opened.
#[derive(Debug)]
pub struct SerialSettings {
    pub path: String,
    pub baud_rate: u32,
    pub data_bits: u8,
    pub stop_bits: u8,
    pub parity: LineParity,
    pub timeout_millis: u64,
}

/// Whether a port leads to the USB device `vid`, `pid`.
pub open spec fn leads_to(port: PortInfo, vid: u16, pid: u16) -> bool {
    port.usb == Some(UsbId { vid, pid })
}

/// Whether `name` is that of the first port that leads to the USB device.
pub open spec fn is_first_port(ports: Seq<PortInfo>, vid: u16, pid: u16, name: Seq<char>) -> bool {
    exists|i: int|
        #![trigger ports[i]]
        {
            &&& 0 <= i < ports.len()
            &&& leads_to(ports[i], vid, pid)
            &&& ports[i].name@ == name
            &&& forall|j: int| 0 <= j < i ==> !leads_to(#[trigger] ports[j], vid, pid)
        }
}

/// Whether no port leads to the USB device.
pub open spec fn no_port(ports: Seq<PortInfo>, vid: u16, pid: u16) -> bool {
    forall|i: int| 0 <= i < ports.len() ==> !leads_to(#[trigger] ports[i], vid, pid)
}

impl HidJob {
    /// The name of the first port that leads to the USB device.
    pub fn find_serial_port(ports: &Vec<PortInfo>, target_vid: u16, target_pid: u16) -> (name:
        Option<String>)
        ensures
            match name {
                Some(name) => is_first_port(ports@, target_vid, target_pid, name@),
                None => no_port(ports@, target_vid, target_pid),
            },
    {
        for i in 0..ports.len()
            invariant
                forall|j: int|
                    0 <= j < i ==> !leads_to(#[trigger] ports@[j], target_vid, target_pid),
        {
            if let Some(usb) = ports[i].usb {
                if usb.vid == target_vid && usb.pid == target_pid {
                    assert(leads_to(ports@[i as int], target_vid, target_pid));
                    return Some(ports[i].name.clone());
                }
            }
            assert(!leads_to(ports@[i as int], target_vid, target_pid));
        }
        None
    }
}

/// What to do next while connecting. The outcome of each step decides on the
/// one after it.
#[derive(Clone, Copy, Debug, PartialEq, Eq, Structural)]
pub enum SetupStep {
    /// Open the serial port; the outcome is whether it opened.
    OpenSerial,
    /// Raise the line that says a terminal is ready; the outcome is ignored.
    RaiseTerminalReady,
    /// Wait for [`SetupStep::millis`]; the outcome is ignored.
    WaitForLine,
    /// Send [`SetupStep::message`]; the outcome is ignored.
    SendFirstActivation,
    /// Wait for [`SetupStep::millis`]; the outcome is ignored.
    WaitForActivation,
    /// Send [`SetupStep::message`]; the outcome is ignored.
    SendSecondActivation,
    /// Open the USB device; the outcome is whether there is one.
    OpenUsb { vid: u16, pid: u16 },
    /// Ask whether a kernel driver holds the interface; the outcome is the
    /// answer, and `false` where the question failed.
    QueryKernelDriver { interface: u8 },
    /// Detach the kernel driver; the outcome is whether that went well.
    DetachKernelDriver { interface: u8 },
    /// Select a configuration; the outcome is whether that went well.
    SetConfiguration { configuration: u8 },
    /// Claim an interface; the outcome is whether that went well.
    ClaimInterface { interface: u8 },
    /// The slider is connected: keep what was opened.
    Ready,
    /// There is no connection: drop what was opened.
    Failed,
}

impl SetupStep {
    /// How many milliseconds a step that waits takes.
    pub open spec fn wait_millis(self) -> Option<u64> {
        match self {
            SetupStep::WaitForLine => Some(50),
            SetupStep::WaitForActivation => Some(10),
            _ => None,
        }
    }

    /// How many milliseconds a step that waits takes.
    pub fn millis(self) -> (millis: Option<u64>)
        ensures
            millis == self.wait_millis(),
    {
        match self {
            SetupStep::WaitForLine => Some(50),
            SetupStep::WaitForActivation => Some(10),
            _ => None,
        }
    }

    /// The message that a step sends.
    pub open spec fn activation(self) -> Option<Seq<u8>> {
        match self {
            SetupStep::SendFirstActivation => Some(seq![0xffu8, 0x06u8, 0x00u8, 0xfbu8]),
            SetupStep::SendSecondActivation => Some(seq![0xffu8, 0x03u8, 0x00u8, 0xfeu8]),
            _ => None,
        }
    }

    /// The message that a step sends.
    pub fn message(self) -> (message: Option<[u8; 4]>)
        ensures
            match message {
                Some(bytes) => self.activation() == Some(bytes@),
                None => self.activation() is None,
            },
    {
        match self {
            SetupStep::SendFirstActivation => Some(first_activation()),
            SetupStep::SendSecondActivation => Some(second_activation()),
            _ => None,
        }
    }

    /// How many steps can still follow.
    pub open spec fn rank(self) -> nat {
        match self {
            SetupStep::OpenSerial => 6,
            SetupStep::RaiseTerminalReady => 5,
            SetupStep::WaitForLine => 4,
            SetupStep::SendFirstActivation => 3,
            SetupStep::WaitForActivation => 2,
            SetupStep::SendSecondActivation => 1,
            SetupStep::OpenUsb { .. } => 5,
            SetupStep::QueryKernelDriver { .. } => 4,
            SetupStep::DetachKernelDriver { .. } => 3,
            SetupStep::SetConfiguration { .. } => 2,
            SetupStep::ClaimInterface { .. } => 1,
            SetupStep::Ready | SetupStep::Failed => 0,
        }
    }
}

/// The first of the two messages that activate a serial slider.
pub fn first_activation() -> (message: [u8; 4])
    ensures
        message@ == seq![0xffu8, 0x06u8, 0x00u8, 0xfbu8],
{
    [0xff, 0x06, 0x00, 0xfb]
}

/// The second of the two messages that activate a serial slider.
pub fn second_activation() -> (message: [u8; 4])
    ensures
        message@ == seq![0xffu8, 0x03u8, 0x00u8, 0xfeu8],
{
    [0xff, 0x03, 0x00, 0xfe]
}

impl Device {
    /// The interface through which the slider is driven.
    pub open spec fn interface(self) -> u8 {
        if self.vid == 0x0518 && self.pid == 0x2022 {
            3
        } else {
            0
        }
    }

    /// The first step of connecting.
    pub open spec fn first_step(self) -> SetupStep {
        if self.is_serial {
            SetupStep::OpenSerial
        } else {
            SetupStep::OpenUsb { vid: self.vid, pid: self.pid }
        }
    }

    /// The step after `step`, which ended with `outcome`.
    pub open spec fn step_after(self, step: SetupStep, outcome: bool) -> SetupStep {
        match step {
            SetupStep::OpenSerial => if outcome {
                SetupStep::RaiseTerminalReady
            } else {
                SetupStep::Failed
            },
            SetupStep::RaiseTerminalReady => SetupStep::WaitForLine,
            SetupStep::WaitForLine => SetupStep::SendFirstActivation,
            SetupStep::SendFirstActivation => SetupStep::WaitForActivation,
            SetupStep::WaitForActivation => SetupStep::SendSecondActivation,
            SetupStep::SendSecondActivation => SetupStep::Ready,
            SetupStep::OpenUsb { .. } => if outcome {
                SetupStep::QueryKernelDriver { interface: 0 }
            } else {
                SetupStep::Failed
            },
            SetupStep::QueryKernelDriver { .. } => if outcome {
                SetupStep::DetachKernelDriver { interface: 0 }
            } else {
                SetupStep::SetConfiguration { configuration: 1 }
            },
            SetupStep::DetachKernelDriver { .. } => if outcome {
                SetupStep::SetConfiguration { configuration: 1 }
            } else {
                SetupStep::Failed
            },
            SetupStep::SetConfiguration { .. } => if outcome {
                SetupStep::ClaimInterface { interface: self.interface() }
            } else {
                SetupStep::Failed
            },
            SetupStep::ClaimInterface { .. } => if outcome {
                SetupStep::Ready
            } else {
                SetupStep::Failed
            },
            SetupStep::Ready => SetupStep::Ready,
            SetupStep::Failed => SetupStep::Failed,
        }
    }

    /// Whether connecting succeeds from `step` on, where `outcomes` says how
    /// each step ends.
    pub open spec fn connects(self, step: SetupStep, outcomes: spec_fn(SetupStep) -> bool) -> bool
        decreases step.rank(),
    {
        if step == SetupStep::Ready {
            true
        } else if step == SetupStep::Failed {
            false
        } else {
            self.connects(self.step_after(step, outcomes(step)), outcomes)
        }
    }

    /// The interface to release when the job ends.
    pub open spec fn held_interface(self, connected: bool) -> Option<u8> {
        if !self.is_serial && connected {
            Some(0u8)
        } else {
            None
        }
    }

    /// The steps that connecting takes from `step` on, where `outcomes` says how
    /// each step ends.
    pub open spec fn steps(self, step: SetupStep, outcomes: spec_fn(SetupStep) -> bool) -> Seq<
        SetupStep,
    >
        decreases step.rank(),
    {
        if step == SetupStep::Ready || step == SetupStep::Failed {
            seq![step]
        } else {
            seq![step] + self.steps(self.step_after(step, outcomes(step)), outcomes)
        }
    }

    /// The first step of connecting.
    pub fn begin_setup(&self) -> (step: SetupStep)
        ensures
            step == self.first_step(),
    {
        if self.is_serial {
            SetupStep::OpenSerial
        } else {
            SetupStep::OpenUsb { vid: self.vid, pid: self.pid }
        }
    }

    /// The step after `step`, which ended with `outcome`.
    pub fn next_setup(&self, step: SetupStep, outcome: bool) -> (next: SetupStep)
        ensures
            next == self.step_after(step, outcome),
    {
        match step {
            SetupStep::OpenSerial => if outcome {
                SetupStep::RaiseTerminalReady
            } else {
                SetupStep::Failed
            },
            SetupStep::RaiseTerminalReady => SetupStep::WaitForLine,
            SetupStep::WaitForLine => SetupStep::SendFirstActivation,
            SetupStep::SendFirstActivation => SetupStep::WaitForActivation,
            SetupStep::WaitForActivation => SetupStep::SendSecondActivation,
            SetupStep::SendSecondActivation => SetupStep::Ready,
            SetupStep::OpenUsb { .. } => if outcome {
                SetupStep::QueryKernelDriver { interface: 0 }
            } else {
                SetupStep::Failed
            },
            SetupStep::QueryKernelDriver { .. } => if outcome {
                SetupStep::DetachKernelDriver { interface: 0 }
            } else {
                SetupStep::SetConfiguration { configuration: 1 }
            },
            SetupStep::DetachKernelDriver { .. } => if outcome {
                SetupStep::SetConfiguration { configuration: 1 }
            } else {
                SetupStep::Failed
            },
            SetupStep::SetConfiguration { .. } => if outcome {
                let interface: u8 = if self.vid == 0x0518 && self.pid == 0x2022 {
                    3
                } else {
                    0
                };
                SetupStep::ClaimInterface { interface }
            } else {
                SetupStep::Failed
            },
            SetupStep::ClaimInterface { .. } => if outcome {
                SetupStep::Ready
            } else {
                SetupStep::Failed
            },
            SetupStep::Ready => SetupStep::Ready,
            SetupStep::Failed => SetupStep::Failed,
        }
    }

    /// How the serial port of the slider is opened, where `ports` are those of
    /// the machine: the first that leads to the slider, or else `COM3`.
    pub fn serial_settings(&self, ports: &Vec<PortInfo>) -> (settings: SerialSettings)
        ensures
            is_first_port(ports@, self.vid, self.pid, settings.path@) || (no_port(
                ports@,
                self.vid,
                self.pid,
            ) && settings.path@ == "COM3"@),
            settings.baud_rate == 115200,
            settings.data_bits == 8,
            settings.stop_bits == 1,
            settings.parity == LineParity::Unchecked,
            settings.timeout_millis == 5,
    {
        let path: String = match HidJob::find_serial_port(ports, self.vid, self.pid) {
            Some(name) => name,
            None => "COM3".to_string(),
        };
        SerialSettings {
            path,
            baud_rate: 115200,
            data_bits: 8,
            stop_bits: 1,
            parity: LineParity::Unchecked,
            timeout_millis: 5,
        }
    }

    /// The interface to release when the job ends, where `connected` says
    /// whether a USB device is open. A serial port needs nothing.
    pub fn interface_to_release(&self, connected: bool) -> (interface: Option<u8>)
        ensures
            interface == self.held_interface(connected),
            interface == if !self.is_serial && connected {
                Some(0u8)
            } else {
                None::<u8>
            },
    {
        if !self.is_serial && connected {
            Some(0)
        } else {
            None
        }
    }
}

/// Every step of connecting brings the end nearer.
pub proof fn law_setup_ends(device: Device, step: SetupStep, outcome: bool)
    requires
        step != SetupStep::Ready,
        step != SetupStep::Failed,
    ensures
        device.step_after(step, outcome).rank() < step.rank(),
{
}

/// A serial slider is connected if and only if its port opens: nothing that
/// happens later can fail the connection.
pub proof fn law_serial_setup_needs_the_port_only(
    device: Device,
    outcomes: spec_fn(SetupStep) -> bool,
)
    requires
        device.is_serial,
    ensures
        device.connects(device.first_step(), outcomes) == outcomes(SetupStep::OpenSerial),
{
    reveal_with_fuel(Device::connects, 7);
}

/// A USB slider is connected if and only if the device is there, a kernel driver
/// that holds it can be detached, and it can be configured and claimed.
pub proof fn law_usb_setup_needs_every_step(device: Device, outcomes: spec_fn(SetupStep) -> bool)
    requires
        !device.is_serial,
    ensures
        device.connects(device.first_step(), outcomes) == {
            &&& outcomes(SetupStep::OpenUsb { vid: device.vid, pid: device.pid })
            &&& outcomes(SetupStep::QueryKernelDriver { interface: 0 }) ==> outcomes(
                SetupStep::DetachKernelDriver { interface: 0 },
            )
            &&& outcomes(SetupStep::SetConfiguration { configuration: 1 })
            &&& outcomes(SetupStep::ClaimInterface { interface: device.interface() })
        },
{
    reveal_with_fuel(Device::connects, 6);
}

/// Among the models, only the third Yuancon is driven through interface 3, and
/// only the Linnea through a serial port.
pub proof fn law_models_differ_in_connection(spec: HardwareSpec, disable_air: bool)
    ensures
        Device::of(spec, disable_air).wf(),
        Device::of(spec, disable_air).interface() == if spec == HardwareSpec::YuanconThree {
            3u8
        } else {
            0u8
        },
        Device::of(spec, disable_air).is_serial == (spec == HardwareSpec::LinneaLegacy),
{
}

/// The steps that connect a serial slider come in a fixed order, and only a port
/// that does not open cuts them short.
pub proof fn law_serial_setup_steps(device: Device, outcomes: spec_fn(SetupStep) -> bool)
    requires
        device.is_serial,
    ensures
        device.steps(device.first_step(), outcomes) == if outcomes(SetupStep::OpenSerial) {
            seq![
                SetupStep::OpenSerial,
                SetupStep::RaiseTerminalReady,
                SetupStep::WaitForLine,
                SetupStep::SendFirstActivation,
                SetupStep::WaitForActivation,
                SetupStep::SendSecondActivation,
                SetupStep::Ready,
            ]
        } else {
            seq![SetupStep::OpenSerial, SetupStep::Failed]
        },
{
    reveal_with_fuel(Device::steps, 8);
}

/// The steps that connect a USB slider come in a fixed order: it is opened by its
/// own vendor and product, interface 0 is freed of a kernel driver if one holds
/// it, configuration 1 is selected, and an interface is claimed, which is 3 for
/// vendor 0x0518 and product 0x2022 and 0 for all others. The first step that
/// fails is the last.
pub proof fn law_usb_setup_steps(device: Device, outcomes: spec_fn(SetupStep) -> bool)
    requires
        !device.is_serial,
    ensures
        ({
            let open = SetupStep::OpenUsb { vid: device.vid, pid: device.pid };
            let query = SetupStep::QueryKernelDriver { interface: 0 };
            let detach = SetupStep::DetachKernelDriver { interface: 0 };
            let configure = SetupStep::SetConfiguration { configuration: 1 };
            let claim = if device.vid == 0x0518 && device.pid == 0x2022 {
                SetupStep::ClaimInterface { interface: 3 }
            } else {
                SetupStep::ClaimInterface { interface: 0 }
            };
            let freed = if outcomes(query) {
                seq![open, query, detach]
            } else {
                seq![open, query]
            };
            let steps = device.steps(device.first_step(), outcomes);
            if !outcomes(open) {
                steps == seq![open, SetupStep::Failed]
            } else if outcomes(query) && !outcomes(detach) {
                steps == freed + seq![SetupStep::Failed]
            } else if !outcomes(configure) {
                steps == freed + seq![configure, SetupStep::Failed]
            } else if !outcomes(claim) {
                steps == freed + seq![configure, claim, SetupStep::Failed]
            } else {
                steps == freed + seq![configure, claim, SetupStep::Ready]
            }
        }),
{
    reveal_with_fuel(Device::steps, 7);
}

/// Two steps wait, 50 milliseconds before the first message and 10 before the
/// second, and no other step does.
pub proof fn law_which_steps_wait(step: SetupStep)
    ensures
        step == SetupStep::WaitForLine ==> step.wait_millis() == Some(50u64),
        step == SetupStep::WaitForActivation ==> step.wait_millis() == Some(10u64),
        step.wait_millis() is Some ==> step == SetupStep::WaitForLine || step
            == SetupStep::WaitForActivation,
{
}

/// Two steps send a message, and no other step does. Each message is a start byte,
/// a command, 6 or 3, a payload length of 0, and the byte that makes it sum to 0
/// modulo 256.
pub proof fn law_which_steps_send(step: SetupStep)
    ensures
        step.activation() is Some <==> step == SetupStep::SendFirstActivation || step
            == SetupStep::SendSecondActivation,
        step.activation() matches Some(bytes) ==> {
            &&& bytes.len() == 4
            &&& bytes[0] == 0xff
            &&& bytes[1] == if step == SetupStep::SendFirstActivation {
                6u8
            } else {
                3u8
            }
            &&& bytes[2] == 0
            &&& (bytes[0] + bytes[1] + bytes[2] + bytes[3]) % 256 == 0
        },
{
}

/// Only an open USB device has an interface to release, and that is interface 0.
pub proof fn law_only_open_usb_devices_are_released(device: Device, connected: bool)
    ensures
        device.held_interface(connected) is Some <==> connected && !device.is_serial,
        device.held_interface(connected) matches Some(interface) ==> interface == 0,
{
}

/// A port that is found has exactly the vendor and product looked for, and no port
/// before it has both; where none is found, none has both.
pub proof fn law_port_has_both_ids(ports: Seq<PortInfo>, vid: u16, pid: u16, name: Seq<char>)
    ensures
        is_first_port(ports, vid, pid, name) <==> exists|i: int|
            #![trigger ports[i]]
            {
                &&& 0 <= i < ports.len()
                &&& ports[i].name@ == name
                &&& ports[i].usb is Some
                &&& ports[i].usb->0.vid == vid
                &&& ports[i].usb->0.pid == pid
                &&& forall|j: int|
                    #![trigger ports[j]]
                    0 <= j < i && ports[j].usb is Some ==> ports[j].usb->0.vid != vid
                        || ports[j].usb->0.pid != pid
            },
        no_port(ports, vid, pid) <==> forall|i: int|
            #![trigger ports[i]]
            0 <= i < ports.len() && ports[i].usb is Some ==> ports[i].usb->0.vid != vid
                || ports[i].usb->0.pid != pid,
{
    assert forall|i: int| 0 <= i < ports.len() implies (#[trigger] leads_to(ports[i], vid, pid) <==> (
    ports[i].usb is Some && ports[i].usb->0.vid == vid && ports[i].usb->0.pid == pid)) by {}
}

} // verus!
