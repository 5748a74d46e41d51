//! The labels under which the serial ports of the machine are listed.

use crate::text::decimal;
use crate::text::render_decimal;
use vstd::prelude::*;
use vstd::string::StringExecFns;

verus! {

/// What is known of the USB device behind a serial port.
#[derive(Debug, PartialEq, Eq)]
pub struct UsbInfo {
    pub manufacturer: Option<String>,
    pub product: Option<String>,
    pub vid: u16,
    pub pid: u16,
}

/// A serial port as the operating system reports it.
#[derive(Debug, PartialEq, Eq)]
pub struct PortInfo {
    pub port_name: String,
    /// The USB device behind the port, for a port that is one.
    pub usb: Option<UsbInfo>,
}

/// A name if there is one, and the empty text otherwise.
pub open spec fn or_blank(name: Option<String>) -> Seq<char> {
    match name {
        Some(text) => text@,
        None => Seq::empty(),
    }
}

/// The label of a port: for a USB port
/// `<name> (USB: <manufacturer> <product> <vid>:<pid>)`, with the two
/// numbers in decimal, and for any other port its name.
pub open spec fn port_label(port: PortInfo) -> Seq<char> {
    match port.usb {
        Some(usb) => port.port_name@ + " (USB: "@ + or_blank(usb.manufacturer) + " "@ + or_blank(
            usb.product,
        ) + " "@ + decimal(usb.vid as nat) + ":"@ + decimal(usb.pid as nat) + ")"@,
        None => port.port_name@,
    }
}

/// Appends a name, if there is one.
fn append_or_blank(text: &mut String, name: &Option<String>)
    ensures
        final(text)@ == old(text)@ + or_blank(*name),
{
    match name {
        Some(n) => {
            text.append(n.as_str());
        },
        None => {
            assert(text@ + Seq::<char>::empty() =~= text@);
        },
    }
}

/// Formats the label of one port.
pub fn describe_port(port: &PortInfo) -> (label: String)
    ensures
        label@ == port_label(*port),
{
    let mut label = port.port_name.clone();
    match &port.usb {
        Some(usb) => {
            label.append(" (USB: ");
            append_or_blank(&mut label, &usb.manufacturer);
            label.append(" ");
            append_or_blank(&mut label, &usb.product);
            label.append(" ");
            let vid = render_decimal(usb.vid as u128);
            label.append(vid.as_str());
            label.append(":");
            let pid = render_decimal(usb.pid as u128);
            label.append(pid.as_str());
            label.append(")");
        },
        None => {},
    }
    label
}

/// The labels of the ports that the operating system reported, one per
/// port and in the same order.
pub fn list_ports(ports: Vec<PortInfo>) -> (labels: Vec<String>)
    ensures
        labels@.len() == ports@.len(),
        forall|i: int| 0 <= i < ports@.len() ==> (#[trigger] labels@[i])@ == port_label(ports@[i]),
{
    let mut labels: Vec<String> = Vec::new();
    let mut i: usize = 0;
    while i < ports.len()
        invariant
            i <= ports.len(),
            labels@.len() == i,
            forall|k: int| 0 <= k < i ==> (#[trigger] labels@[k])@ == port_label(ports@[k]),
        decreases ports.len() - i,
    {
        labels.push(describe_port(&ports[i]));
        i += 1;
    }
    labels
}

} // verus!
