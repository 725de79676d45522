//! Devices, the frames they send and the sessions that talk to them.

pub mod dec;
pub mod enc;
pub mod session;
pub mod switch;

use vstd::prelude::*;
use vstd::string::{StrSliceExecFns, StringExecFns};

verus! {

/// USB vendor ID under which Arduino boards report.
pub const ARDUINO_VID: u16 = 9025;

/// What the host knows of the USB side of a serial port.
#[derive(Clone, Debug, PartialEq, Eq)]
pub struct UsbPortInfo {
    /// Vendor ID.
    pub vid: u16,
    /// Product ID.
    pub pid: u16,
    /// Serial number of the device, where it reports one.
    pub serial_number: Option<String>,
    /// Manufacturer name, where the device reports one.
    pub manufacturer: Option<String>,
    /// Product name, where the device reports one.
    pub product: Option<String>,
}

/// A serial port device that is plugged in and can be opened.
#[derive(Clone, Debug, PartialEq, Eq)]
pub struct DeviceInfo {
    /// Name under which the port is opened.
    pub port_name: String,
    /// What the port reports of its USB side.
    pub usb_port_info: UsbPortInfo,
    /// Identifier made of the vendor ID, the product ID and the serial number.
    pub device_id: String,
}

/// How a serial port is attached to the host.
#[derive(Clone, Debug, PartialEq, Eq)]
pub enum SerialPortType {
    /// Over USB.
    UsbPort(UsbPortInfo),
    /// Over PCI: a permanent port.
    PciPort,
    /// Over Bluetooth.
    BluetoothPort,
    /// In a way that could not be found out.
    Unknown,
}

/// One serial port as the host lists it.
#[derive(Clone, Debug, PartialEq, Eq)]
pub struct SerialPortInfo {
    /// Name under which the port is opened.
    pub port_name: String,
    /// How the port is attached.
    pub port_type: SerialPortType,
}

/// The hexadecimal digit, in upper case, that stands for `value`.
pub open spec fn hex_digit(value: u16) -> char {
    "0123456789ABCDEF"@[value as int]
}

/// The four hexadecimal digits of `value`, in upper case, with leading
/// zeros.
pub open spec fn hex4(value: u16) -> Seq<char> {
    seq![
        hex_digit(value / 4096),
        hex_digit(value / 256 % 16),
        hex_digit(value / 16 % 16),
        hex_digit(value % 16),
    ]
}

/// The identifier of a USB device: the vendor ID and the product ID, four
/// hexadecimal digits each, and the serial number where the device has one,
/// joined by hyphens.
pub open spec fn device_id_text(port_info: UsbPortInfo) -> Seq<char> {
    let ids = hex4(port_info.vid) + seq!['-'] + hex4(port_info.pid);
    match port_info.serial_number {
        Some(serial_number) => ids + seq!['-'] + serial_number@,
        None => ids,
    }
}

/// Appends the four hexadecimal digits of `value` to `text`.
fn push_hex4(text: &mut String, value: u16)
    ensures
        final(text)@ == old(text)@ + hex4(value),
{
    let digits: &'static str = "0123456789ABCDEF";
    proof {
        reveal_strlit("0123456789ABCDEF");
    }
    let thousands: usize = (value / 4096) as usize;
    let hundreds: usize = (value / 256 % 16) as usize;
    let tens: usize = (value / 16 % 16) as usize;
    let units: usize = (value % 16) as usize;
    text.append(digits.substring_ascii(thousands, thousands + 1));
    text.append(digits.substring_ascii(hundreds, hundreds + 1));
    text.append(digits.substring_ascii(tens, tens + 1));
    text.append(digits.substring_ascii(units, units + 1));
    proof {
        assert(text@ =~= old(text)@ + hex4(value));
    }
}

/// Makes the identifier of a device from what its port reports.
pub fn make_device_id(port_info: &UsbPortInfo) -> (device_id: String)
    ensures
        device_id@ == device_id_text(*port_info),
{
    let mut device_id: String = String::new();
    proof {
        reveal_strlit("-");
    }
    push_hex4(&mut device_id, port_info.vid);
    device_id.append("-");
    push_hex4(&mut device_id, port_info.pid);
    match &port_info.serial_number {
        Some(serial_number) => {
            device_id.append("-");
            device_id.append(serial_number.as_str());
        },
        None => {},
    }
    proof {
        assert(device_id@ =~= device_id_text(*port_info));
    }
    device_id
}

/// The port is attached over USB.
pub open spec fn is_usb_port(port: SerialPortInfo) -> bool {
    port.port_type is UsbPort
}

/// `device` is the entry that the USB port `port` gets in the list of
/// devices: the name of the port, what it reports of its USB side, and the
/// identifier made of that.
pub open spec fn lists_port(device: DeviceInfo, port: SerialPortInfo) -> bool {
    &&& port.port_type matches SerialPortType::UsbPort(usb_port_info)
    &&& device.port_name == port.port_name
    &&& device.usb_port_info == usb_port_info
    &&& device.device_id@ == device_id_text(usb_port_info)
}

/// Lists the devices among the serial ports of the host.
///
/// The caller hands in the ports as the host enumerates them. The USB ports
/// among them come out as devices, in the order they came in; the other
/// ports are left out.
pub fn available_list(ports: Vec<SerialPortInfo>) -> (devices: Vec<DeviceInfo>)
    ensures
        devices@.len() == ports@.filter(|port: SerialPortInfo| is_usb_port(port)).len(),
        forall|i: int|
            0 <= i < devices@.len() ==> lists_port(
                #[trigger] devices@[i],
                ports@.filter(|port: SerialPortInfo| is_usb_port(port))[i],
            ),
{
    let ghost all = ports@;
    let ghost usb = |port: SerialPortInfo| is_usb_port(port);
    let mut devices: Vec<DeviceInfo> = Vec::new();
    for port in it: ports
        invariant
            it.seq() == all,
            usb == |port: SerialPortInfo| is_usb_port(port),
            devices@.len() == all.take(it.index() as int).filter(usb).len(),
            forall|i: int|
                0 <= i < devices@.len() ==> lists_port(
                    #[trigger] devices@[i],
                    all.take(it.index() as int).filter(usb)[i],
                ),
    {
        proof {
            assert(all.take(it.index() + 1).drop_last() =~= all.take(it.index() as int));
            reveal(Seq::filter);
        }
        match port.port_type {
            SerialPortType::UsbPort(usb_port_info) => {
                let device_id = make_device_id(&usb_port_info);
                devices.push(DeviceInfo { port_name: port.port_name, usb_port_info, device_id });
            },
            _ => {},
        }
    }
    proof {
        assert(all.take(all.len() as int) =~= all);
    }
    devices
}

/// Selections from a list of devices.
pub trait DeviceInfoList {
    /// The list as a sequence of devices.
    spec fn listed(&self) -> Seq<DeviceInfo>;

    /// Keeps the devices that report the vendor ID of Arduino, in the order
    /// they are listed.
    fn arduino_only(self) -> (devices: Vec<DeviceInfo>)
        ensures
            devices@ == self.listed().filter(
                |device: DeviceInfo| device.usb_port_info.vid == ARDUINO_VID,
            ),
    ;
}

impl DeviceInfoList for Vec<DeviceInfo> {
    open spec fn listed(&self) -> Seq<DeviceInfo> {
        self@
    }

    fn arduino_only(self) -> (devices: Vec<DeviceInfo>) {
        let ghost all = self@;
        let ghost arduino = |device: DeviceInfo| device.usb_port_info.vid == ARDUINO_VID;
        let mut devices: Vec<DeviceInfo> = Vec::new();
        for device in it: self
            invariant
                it.seq() == all,
                arduino == |device: DeviceInfo| device.usb_port_info.vid == ARDUINO_VID,
                devices@ == all.take(it.index() as int).filter(arduino),
        {
            proof {
                assert(all.take(it.index() + 1).drop_last() =~= all.take(it.index() as int));
                reveal(Seq::filter);
            }
            if device.usb_port_info.vid == ARDUINO_VID {
                devices.push(device);
            }
        }
        proof {
            assert(all.take(all.len() as int) =~= all);
        }
        devices
    }
}

} // verus!
