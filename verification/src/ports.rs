//! The serial ports of the system, as the enumeration found them and as the
//! rest of the library describes them.

use vstd::prelude::*;
use vstd::string::*;

verus! {

/// How a port is attached, as the system reports it.
#[derive(Clone, Copy, Debug, PartialEq, Eq)]
pub enum SystemPortType {
    /// Attached over USB, with the identifiers of vendor and product.
    Usb { vid: u16, pid: u16 },
    /// Attached over PCI.
    Pci,
    /// Attached over Bluetooth.
    Bluetooth,
    /// Attached in a way that the system cannot tell.
    Unknown,
}

/// One port as the system reports it.
#[derive(Debug, PartialEq, Eq)]
pub struct SystemPort {
    pub port_name: String,
    pub port_type: SystemPortType,
}

/// The mathematical value of a `SystemPort`.
pub struct SystemPortView {
    pub port_name: Seq<char>,
    pub port_type: SystemPortType,
}

impl View for SystemPort {
    type V = SystemPortView;

    open spec fn view(&self) -> SystemPortView {
        SystemPortView { port_name: self.port_name@, port_type: self.port_type }
    }
}

/// The transport of a port: USB with its identifiers, or anything else.
#[derive(Clone, Copy, Debug, PartialEq, Eq)]
pub enum Transport {
    Usb { vendor_id: u16, product_id: u16 },
    Other,
}

/// A snapshot of one port.
#[derive(Debug, PartialEq, Eq)]
pub struct PortDescriptor {
    pub name: String,
    pub transport: Transport,
}

/// The mathematical value of a `PortDescriptor`.
pub struct PortDescriptorView {
    pub name: Seq<char>,
    pub transport: Transport,
}

impl View for PortDescriptor {
    type V = PortDescriptorView;

    open spec fn view(&self) -> PortDescriptorView {
        PortDescriptorView { name: self.name@, transport: self.transport }
    }
}

/// The query to the system for its ports failed.
#[derive(Debug, PartialEq, Eq)]
pub struct EnumerationError {
    pub message: String,
}

/// The mathematical value of an `EnumerationError`.
pub struct EnumerationErrorView {
    pub message: Seq<char>,
}

impl View for EnumerationError {
    type V = EnumerationErrorView;

    open spec fn view(&self) -> EnumerationErrorView {
        EnumerationErrorView { message: self.message@ }
    }
}

/// The sixteen digits of lower-case hexadecimal, in order.
pub open spec fn hex_digits() -> Seq<char> {
    "0123456789abcdef"@
}

/// A 16-bit value as four hexadecimal digits, padded with zeros on the left.
pub open spec fn hex4(value: u16) -> Seq<char> {
    seq![
        hex_digits()[value as int / 4096],
        hex_digits()[value as int / 256 % 16],
        hex_digits()[value as int / 16 % 16],
        hex_digits()[value as int % 16],
    ]
}

/// Formats a 16-bit value as four hexadecimal digits.
pub fn format_hex4(value: u16) -> (text: String)
    ensures
        text@ == hex4(value),
{
    let digits = "0123456789abcdef";
    proof {
        reveal_strlit("0123456789abcdef");
    }
    assert(digits.is_ascii());
    let first = (value / 4096) as usize;
    let second = (value / 256 % 16) as usize;
    let third = (value / 16 % 16) as usize;
    let fourth = (value % 16) as usize;
    let mut text = String::new();
    text.append(digits.substring_ascii(first, first + 1));
    text.append(digits.substring_ascii(second, second + 1));
    text.append(digits.substring_ascii(third, third + 1));
    text.append(digits.substring_ascii(fourth, fourth + 1));
    assert(text@ =~= hex4(value));
    text
}

/// The number that a lower-case hexadecimal digit stands for.
pub open spec fn hex_digit_value(digit: char) -> int {
    if '0' <= digit <= '9' {
        digit as int - '0' as int
    } else {
        digit as int - 'a' as int + 10
    }
}

/// `digit` is one of `0` to `9` and `a` to `f`.
pub open spec fn is_hex_digit(digit: char) -> bool {
    '0' <= digit <= '9' || 'a' <= digit <= 'f'
}

/// The four digits of a value are hexadecimal digits, and read as a number
/// in base sixteen they give the value back: the padding is zeros and no
/// digit is lost.
pub proof fn law_hex4_reads_back(value: u16)
    ensures
        hex4(value).len() == 4,
        forall|i: int| 0 <= i < 4 ==> is_hex_digit(#[trigger] hex4(value)[i]),
        4096 * hex_digit_value(hex4(value)[0]) + 256 * hex_digit_value(hex4(value)[1]) + 16
            * hex_digit_value(hex4(value)[2]) + hex_digit_value(hex4(value)[3]) == value,
{
    reveal_strlit("0123456789abcdef");
    let digits = hex_digits();
    assert forall|n: int| 0 <= n < 16 implies is_hex_digit(#[trigger] digits[n])
        && hex_digit_value(digits[n]) == n by {
        if n < 8 {
            if n < 4 {
                assert(n == 0 || n == 1 || n == 2 || n == 3);
            } else {
                assert(n == 4 || n == 5 || n == 6 || n == 7);
            }
        } else {
            if n < 12 {
                assert(n == 8 || n == 9 || n == 10 || n == 11);
            } else {
                assert(n == 12 || n == 13 || n == 14 || n == 15);
            }
        }
    }
    let v = value as int;
    assert(digits[v / 4096] == hex4(value)[0]);
    assert(digits[v / 256 % 16] == hex4(value)[1]);
    assert(digits[v / 16 % 16] == hex4(value)[2]);
    assert(digits[v % 16] == hex4(value)[3]);
}

/// The descriptor of a port that the system reported: a USB port keeps its
/// identifiers, every other kind of port is just another port.
pub open spec fn described(port: SystemPortView) -> PortDescriptorView {
    PortDescriptorView {
        name: port.port_name,
        transport: match port.port_type {
            SystemPortType::Usb { vid, pid } => Transport::Usb { vendor_id: vid, product_id: pid },
            _ => Transport::Other,
        },
    }
}

/// The label of a port: its name, and for a USB port the identifiers of
/// vendor and product behind it, four hexadecimal digits each.
pub open spec fn label_of(descriptor: PortDescriptorView) -> Seq<char> {
    match descriptor.transport {
        Transport::Usb { vendor_id, product_id } => descriptor.name + " (USB VID:"@ + hex4(
            vendor_id,
        ) + " PID:"@ + hex4(product_id) + ")"@,
        Transport::Other => descriptor.name,
    }
}

impl PortDescriptor {
    /// Describes a port that the system reported.
    pub fn describe(port: &SystemPort) -> (descriptor: PortDescriptor)
        ensures
            descriptor@ == described(port@),
    {
        PortDescriptor {
            name: port.port_name.clone(),
            transport: match port.port_type {
                SystemPortType::Usb { vid, pid } => Transport::Usb {
                    vendor_id: vid,
                    product_id: pid,
                },
                _ => Transport::Other,
            },
        }
    }

    /// The vendor identifier of a USB port, as four hexadecimal digits.
    pub fn vendor_hex(&self) -> (text: Option<String>)
        ensures
            match self.transport {
                Transport::Usb { vendor_id, product_id } => text matches Some(digits)
                    && digits@ == hex4(vendor_id),
                Transport::Other => text is None,
            },
    {
        match self.transport {
            Transport::Usb { vendor_id, product_id } => Some(format_hex4(vendor_id)),
            Transport::Other => None,
        }
    }

    /// The product identifier of a USB port, as four hexadecimal digits.
    pub fn product_hex(&self) -> (text: Option<String>)
        ensures
            match self.transport {
                Transport::Usb { vendor_id, product_id } => text matches Some(digits)
                    && digits@ == hex4(product_id),
                Transport::Other => text is None,
            },
    {
        match self.transport {
            Transport::Usb { vendor_id, product_id } => Some(format_hex4(product_id)),
            Transport::Other => None,
        }
    }

    /// The label of the port.
    pub fn label(&self) -> (text: String)
        ensures
            text@ == label_of(self@),
    {
        let mut text = self.name.clone();
        match self.transport {
            Transport::Usb { vendor_id, product_id } => {
                text.append(" (USB VID:");
                text.append(format_hex4(vendor_id).as_str());
                text.append(" PID:");
                text.append(format_hex4(product_id).as_str());
                text.append(")");
            },
            Transport::Other => {},
        }
        text
    }
}

/// The views of the ports that a scan found.
pub open spec fn ports_view(ports: Seq<SystemPort>) -> Seq<SystemPortView> {
    ports.map_values(|port: SystemPort| port@)
}

/// The views of a list of descriptors.
pub open spec fn descriptors_view(descriptors: Seq<PortDescriptor>) -> Seq<PortDescriptorView> {
    descriptors.map_values(|descriptor: PortDescriptor| descriptor@)
}

/// The mathematical value of what a scan of the system gave.
pub open spec fn scan_view(scan: Result<Vec<SystemPort>, String>) -> Result<
    Seq<SystemPortView>,
    Seq<char>,
> {
    match scan {
        Ok(ports) => Ok(ports_view(ports@)),
        Err(message) => Err(message@),
    }
}

/// The mathematical value of a listing.
pub open spec fn listing_view(listing: Result<Vec<PortDescriptor>, EnumerationError>) -> Result<
    Seq<PortDescriptorView>,
    EnumerationErrorView,
> {
    match listing {
        Ok(descriptors) => Ok(descriptors_view(descriptors@)),
        Err(error) => Err(error@),
    }
}

/// What precedes the system's own message in an enumeration error.
pub open spec fn enumeration_failure_prefix() -> Seq<char> {
    "Failed to list ports: "@
}

/// The listing that a scan stands for: one descriptor for each port that was
/// found, in the order of the scan, and an error only where the scan itself
/// failed. A scan that found no port is an empty listing, not an error.
pub open spec fn listed(scan: Result<Seq<SystemPortView>, Seq<char>>) -> Result<
    Seq<PortDescriptorView>,
    EnumerationErrorView,
> {
    match scan {
        Ok(ports) => Ok(ports.map_values(|port: SystemPortView| described(port))),
        Err(message) => Err(
            EnumerationErrorView { message: enumeration_failure_prefix() + message },
        ),
    }
}

/// Lists the serial ports that a scan of the system found.
pub fn list_available_serial_ports(scan: Result<Vec<SystemPort>, String>) -> (listing: Result<
    Vec<PortDescriptor>,
    EnumerationError,
>)
    ensures
        listing_view(listing) == listed(scan_view(scan)),
        scan matches Ok(ports) ==> listing matches Ok(descriptors) && descriptors.len()
            == ports.len(),
        scan is Err ==> listing is Err,
{
    match scan {
        Ok(ports) => {
            let mut descriptors: Vec<PortDescriptor> = Vec::new();
            let mut at: usize = 0;
            while at < ports.len()
                invariant
                    at <= ports.len(),
                    descriptors.len() == at,
                    forall|i: int|
                        0 <= i < at ==> (#[trigger] descriptors@[i])@ == described(ports@[i]@),
                decreases ports.len() - at,
            {
                descriptors.push(PortDescriptor::describe(&ports[at]));
                at += 1;
            }
            assert(descriptors_view(descriptors@) =~= ports_view(ports@).map_values(
                |port: SystemPortView| described(port),
            ));
            Ok(descriptors)
        },
        Err(message) => {
            let mut text = "Failed to list ports: ".to_owned();
            text.append(message.as_str());
            Err(EnumerationError { message: text })
        },
    }
}

/// A listing has as many descriptors as the scan found ports, and the
/// descriptor of a USB port carries the port's identifiers.
pub proof fn law_listing_describes_every_port(ports: Seq<SystemPortView>)
    ensures
        listed(Ok(ports)) matches Ok(descriptors) && descriptors.len() == ports.len()
            && forall|i: int|
            0 <= i < ports.len() ==> (#[trigger] descriptors[i]).name == ports[i].port_name && (
            ports[i].port_type matches SystemPortType::Usb { vid, pid } ==> descriptors[i].transport
                == Transport::Usb { vendor_id: vid, product_id: pid }),
{
}

/// To find no port is no failure: a scan that found nothing is listed as
/// nothing, and only a scan that failed is listed as an error.
pub proof fn law_no_port_is_no_error(message: Seq<char>)
    ensures
        listed(Ok(Seq::empty())) == Ok::<Seq<PortDescriptorView>, EnumerationErrorView>(
            Seq::empty(),
        ),
        listed(Err(message)) is Err,
{
    let ports = Seq::<SystemPortView>::empty();
    assert(ports.map_values(|port: SystemPortView| described(port)) =~= Seq::empty());
}

} // verus!
