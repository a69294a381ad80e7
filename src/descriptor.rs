use vstd::prelude::*;

use crate::endpoint::EndpointType;

verus! {

/// The common header of every USB descriptor.
#[derive(Clone, Copy, Debug, PartialEq, Eq, Structural)]
pub struct DescriptorHeader {
    pub b_length: u8,
    pub b_descriptor_type: u8,
}

/// The descriptor type byte.
#[derive(Clone, Copy, Debug, PartialEq, Eq, Structural)]
pub enum DescriptorType {
    Device,
    Configuration,
    Interface,
    Endpoint,
    HID,
    Unsupported(u8),
}

pub open spec fn descriptor_type_of(b: u8) -> DescriptorType {
    if b == 1 {
        DescriptorType::Device
    } else if b == 2 {
        DescriptorType::Configuration
    } else if b == 4 {
        DescriptorType::Interface
    } else if b == 5 {
        DescriptorType::Endpoint
    } else if b == 0x21 {
        DescriptorType::HID
    } else {
        DescriptorType::Unsupported(b)
    }
}

impl DescriptorType {
    pub open spec fn byte_spec(&self) -> u8 {
        match *self {
            DescriptorType::Device => 1,
            DescriptorType::Configuration => 2,
            DescriptorType::Interface => 4,
            DescriptorType::Endpoint => 5,
            DescriptorType::HID => 0x21,
            DescriptorType::Unsupported(b) => b,
        }
    }

    /// The type named by a descriptor type byte.
    pub fn from_byte(b: u8) -> (r: Self)
        ensures
            r == descriptor_type_of(b),
            r.byte_spec() == b,
    {
        if b == 1 {
            DescriptorType::Device
        } else if b == 2 {
            DescriptorType::Configuration
        } else if b == 4 {
            DescriptorType::Interface
        } else if b == 5 {
            DescriptorType::Endpoint
        } else if b == 0x21 {
            DescriptorType::HID
        } else {
            DescriptorType::Unsupported(b)
        }
    }

    /// The descriptor type byte.
    pub fn byte(&self) -> (r: u8)
        ensures
            r == self.byte_spec(),
    {
        match *self {
            DescriptorType::Device => 1,
            DescriptorType::Configuration => 2,
            DescriptorType::Interface => 4,
            DescriptorType::Endpoint => 5,
            DescriptorType::HID => 0x21,
            DescriptorType::Unsupported(b) => b,
        }
    }
}

/// Device descriptor body, excluding the header.
#[derive(Clone, Copy, Debug, PartialEq, Eq, Structural)]
pub struct DeviceDescriptorBody {
    pub bcd_usb: u16,
    pub b_device_class: u8,
    pub b_device_sub_class: u8,
    pub b_device_protocol: u8,
    pub b_max_packet_size_0: u8,
    pub id_vendor: u16,
    pub id_product: u16,
    pub bcd_device: u16,
    pub i_manufacturer: u8,
    pub i_product: u8,
    pub i_serial_number: u8,
    pub b_num_configurations: u8,
}

impl DeviceDescriptorBody {
    /// The all-zero body, which stands for "no descriptor received yet".
    pub open spec fn zero_spec() -> Self {
        DeviceDescriptorBody {
            bcd_usb: 0,
            b_device_class: 0,
            b_device_sub_class: 0,
            b_device_protocol: 0,
            b_max_packet_size_0: 0,
            id_vendor: 0,
            id_product: 0,
            bcd_device: 0,
            i_manufacturer: 0,
            i_product: 0,
            i_serial_number: 0,
            b_num_configurations: 0,
        }
    }

    pub fn zero() -> (r: Self)
        ensures
            r == Self::zero_spec(),
    {
        DeviceDescriptorBody {
            bcd_usb: 0,
            b_device_class: 0,
            b_device_sub_class: 0,
            b_device_protocol: 0,
            b_max_packet_size_0: 0,
            id_vendor: 0,
            id_product: 0,
            bcd_device: 0,
            i_manufacturer: 0,
            i_product: 0,
            i_serial_number: 0,
            b_num_configurations: 0,
        }
    }
}

/// Configuration descriptor body, excluding the header.
#[derive(Clone, Copy, Debug, PartialEq, Eq, Structural)]
pub struct ConfigurationDescriptorBody {
    pub w_total_length: u16,
    pub b_num_interfaces: u8,
    pub b_configuration_value: u8,
    pub i_configuration: u8,
    pub bm_attributes: u8,
    pub b_max_power: u8,
}

impl ConfigurationDescriptorBody {
    /// The Remote Wakeup bit (bit 5) of the attributes.
    pub fn remote_wakeup(&self) -> (r: bool)
        ensures
            r == (self.bm_attributes & 0x20 != 0),
    {
        self.bm_attributes & 0x20 != 0
    }

    /// The Self Powered bit (bit 6) of the attributes.
    pub fn self_powered(&self) -> (r: bool)
        ensures
            r == (self.bm_attributes & 0x40 != 0),
    {
        self.bm_attributes & 0x40 != 0
    }
}

/// Interface descriptor body, excluding the header.
#[derive(Clone, Copy, Debug, PartialEq, Eq, Structural)]
pub struct InterfaceDescriptorBody {
    pub b_interface_number: u8,
    pub b_alternate_setting: u8,
    pub b_num_endpoints: u8,
    pub b_interface_class: u8,
    pub b_interface_sub_class: u8,
    pub b_interface_protocol: u8,
    pub i_interface: u8,
}

/// Endpoint descriptor body, excluding the header.
#[derive(Clone, Copy, Debug, PartialEq, Eq, Structural)]
pub struct EndpointDescriptorBody {
    pub b_endpoint_address: u8,
    pub bm_attributes: u8,
    pub w_max_packet_size: u16,
    pub b_interval: u8,
}

impl EndpointDescriptorBody {
    /// The transfer type, bits 0..=1 of the attributes.
    pub fn transfer_type(&self) -> (r: EndpointType)
        ensures
            r == EndpointType::from_bits_spec(self.bm_attributes % 4),
    {
        EndpointType::from_bits(self.bm_attributes % 4)
    }

    /// The synchronisation type, bits 2..=3 of the attributes.
    pub fn sync_type(&self) -> (r: u8)
        ensures
            r == (self.bm_attributes / 4) % 4,
    {
        (self.bm_attributes / 4) % 4
    }

    /// The usage type, bits 4..=5 of the attributes.
    pub fn usage_type(&self) -> (r: u8)
        ensures
            r == (self.bm_attributes / 16) % 4,
    {
        (self.bm_attributes / 16) % 4
    }
}

/// A descriptor read from a byte buffer.
#[derive(Clone, Copy, Debug, PartialEq, Eq, Structural)]
pub enum Descriptor {
    Device(DeviceDescriptorBody),
    Configuration(ConfigurationDescriptorBody),
    Interface(InterfaceDescriptorBody),
    Endpoint(EndpointDescriptorBody),
    Unsupported,
}

/// A little-endian 16-bit value.
pub open spec fn le16(lo: u8, hi: u8) -> u16 {
    (lo + 256 * hi) as u16
}

pub open spec fn device_body_at(b: Seq<u8>, i: int) -> DeviceDescriptorBody {
    DeviceDescriptorBody {
        bcd_usb: le16(b[i], b[i + 1]),
        b_device_class: b[i + 2],
        b_device_sub_class: b[i + 3],
        b_device_protocol: b[i + 4],
        b_max_packet_size_0: b[i + 5],
        id_vendor: le16(b[i + 6], b[i + 7]),
        id_product: le16(b[i + 8], b[i + 9]),
        bcd_device: le16(b[i + 10], b[i + 11]),
        i_manufacturer: b[i + 12],
        i_product: b[i + 13],
        i_serial_number: b[i + 14],
        b_num_configurations: b[i + 15],
    }
}

pub open spec fn configuration_body_at(b: Seq<u8>, i: int) -> ConfigurationDescriptorBody {
    ConfigurationDescriptorBody {
        w_total_length: le16(b[i], b[i + 1]),
        b_num_interfaces: b[i + 2],
        b_configuration_value: b[i + 3],
        i_configuration: b[i + 4],
        bm_attributes: b[i + 5],
        b_max_power: b[i + 6],
    }
}

pub open spec fn interface_body_at(b: Seq<u8>, i: int) -> InterfaceDescriptorBody {
    InterfaceDescriptorBody {
        b_interface_number: b[i],
        b_alternate_setting: b[i + 1],
        b_num_endpoints: b[i + 2],
        b_interface_class: b[i + 3],
        b_interface_sub_class: b[i + 4],
        b_interface_protocol: b[i + 5],
        i_interface: b[i + 6],
    }
}

pub open spec fn endpoint_body_at(b: Seq<u8>, i: int) -> EndpointDescriptorBody {
    EndpointDescriptorBody {
        b_endpoint_address: b[i],
        bm_attributes: b[i + 1],
        w_max_packet_size: le16(b[i + 2], b[i + 3]),
        b_interval: b[i + 4],
    }
}

/// The descriptor whose header starts at `i`, given that its declared length `len` fits in `b`.
/// A known type whose declared length is too short for its body reads as unsupported.
pub open spec fn descriptor_at(b: Seq<u8>, i: int, len: int) -> Descriptor {
    let ty = descriptor_type_of(b[i + 1]);
    match ty {
        DescriptorType::Device => if len >= 18 { Descriptor::Device(device_body_at(b, i + 2)) } else { Descriptor::Unsupported },
        DescriptorType::Configuration => if len >= 9 { Descriptor::Configuration(configuration_body_at(b, i + 2)) } else { Descriptor::Unsupported },
        DescriptorType::Interface => if len >= 9 { Descriptor::Interface(interface_body_at(b, i + 2)) } else { Descriptor::Unsupported },
        DescriptorType::Endpoint => if len >= 7 { Descriptor::Endpoint(endpoint_body_at(b, i + 2)) } else { Descriptor::Unsupported },
        _ => Descriptor::Unsupported,
    }
}

/// One step of the walk over a descriptor buffer from position `i`: the descriptor found and
/// the position of the next one, or `None` at the end. A header that is cut off, declares a
/// length under 2, or runs past the buffer ends the walk.
pub open spec fn parse_step(b: Seq<u8>, i: int) -> Option<(Descriptor, int)> {
    if i < 0 || i + 2 > b.len() {
        None
    } else {
        let len = b[i] as int;
        if len < 2 || i + len > b.len() {
            None
        } else {
            Some((descriptor_at(b, i, len), i + len))
        }
    }
}

/// Walks the descriptors packed one after another in a byte buffer.
pub struct DescriptorIterator<'a> {
    pub buf: &'a [u8],
    pub idx: usize,
}

fn read_le16(b: &[u8], i: usize) -> (r: u16)
    requires
        i + 1 < b@.len(),
    ensures
        r == le16(b@[i as int], b@[i + 1]),
{
    (b[i] as u16) + 256 * (b[i + 1] as u16)
}

impl<'a> DescriptorIterator<'a> {
    pub fn from_buf(buf: &'a [u8]) -> (r: Self)
        ensures
            r.buf@ == buf@,
            r.idx == 0,
    {
        Self { buf, idx: 0 }
    }

    /// The next descriptor, or `None` once the walk has ended.
    pub fn next(&mut self) -> (r: Option<Descriptor>)
        ensures
            final(self).buf@ == old(self).buf@,
            match parse_step(old(self).buf@, old(self).idx as int) {
                None => r.is_none() && final(self).idx == old(self).buf@.len()
                    || r.is_none() && old(self).idx > old(self).buf@.len() && final(self).idx == old(self).idx,
                Some((d, n)) => r == Some(d) && final(self).idx == n,
            },
    {
        let b = self.buf;
        let n = b.len();
        if self.idx >= n || n - self.idx < 2 {
            if self.idx <= n {
                self.idx = n;
            }
            return None;
        }
        let i = self.idx;
        let len = b[i] as usize;
        if len < 2 || len > n - i {
            self.idx = n;
            return None;
        }
        let ty = DescriptorType::from_byte(b[i + 1]);
        let d = match ty {
            DescriptorType::Device => {
                if len >= 18 {
                    let j = i + 2;
                    Descriptor::Device(DeviceDescriptorBody {
                        bcd_usb: read_le16(b, j),
                        b_device_class: b[j + 2],
                        b_device_sub_class: b[j + 3],
                        b_device_protocol: b[j + 4],
                        b_max_packet_size_0: b[j + 5],
                        id_vendor: read_le16(b, j + 6),
                        id_product: read_le16(b, j + 8),
                        bcd_device: read_le16(b, j + 10),
                        i_manufacturer: b[j + 12],
                        i_product: b[j + 13],
                        i_serial_number: b[j + 14],
                        b_num_configurations: b[j + 15],
                    })
                } else {
                    Descriptor::Unsupported
                }
            },
            DescriptorType::Configuration => {
                if len >= 9 {
                    let j = i + 2;
                    Descriptor::Configuration(ConfigurationDescriptorBody {
                        w_total_length: read_le16(b, j),
                        b_num_interfaces: b[j + 2],
                        b_configuration_value: b[j + 3],
                        i_configuration: b[j + 4],
                        bm_attributes: b[j + 5],
                        b_max_power: b[j + 6],
                    })
                } else {
                    Descriptor::Unsupported
                }
            },
            DescriptorType::Interface => {
                if len >= 9 {
                    let j = i + 2;
                    Descriptor::Interface(InterfaceDescriptorBody {
                        b_interface_number: b[j],
                        b_alternate_setting: b[j + 1],
                        b_num_endpoints: b[j + 2],
                        b_interface_class: b[j + 3],
                        b_interface_sub_class: b[j + 4],
                        b_interface_protocol: b[j + 5],
                        i_interface: b[j + 6],
                    })
                } else {
                    Descriptor::Unsupported
                }
            },
            DescriptorType::Endpoint => {
                if len >= 7 {
                    let j = i + 2;
                    Descriptor::Endpoint(EndpointDescriptorBody {
                        b_endpoint_address: b[j],
                        bm_attributes: b[j + 1],
                        w_max_packet_size: read_le16(b, j + 2),
                        b_interval: b[j + 4],
                    })
                } else {
                    Descriptor::Unsupported
                }
            },
            _ => Descriptor::Unsupported,
        };
        self.idx = i + len;
        Some(d)
    }
}

} // verus!
