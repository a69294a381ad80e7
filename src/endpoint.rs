use vstd::prelude::*;

use crate::descriptor::EndpointDescriptorBody;

verus! {

/// An endpoint address: bit 7 is the direction (IN when set), bits 0..=3 the endpoint number.
#[derive(Clone, Copy, Debug, PartialEq, Eq, Structural)]
pub struct EndpointAddress(pub u8);

/// The endpoint number held in an address byte.
pub open spec fn ep_index_of(b: u8) -> u8 {
    b & 0x0f
}

/// Whether an address byte names an IN endpoint.
pub open spec fn ep_is_in_of(b: u8) -> bool {
    b & 0x80 != 0
}

/// The Device Context Index of an address byte: the byte rotated left by one bit.
pub open spec fn dci_of(b: u8) -> u8 {
    ((b << 1u8) | (b >> 7u8)) as u8
}

/// The address byte of a Device Context Index: the index rotated right by one bit.
pub open spec fn addr_of_dci(d: u8) -> u8 {
    ((d >> 1u8) | (d << 7u8)) as u8
}

impl EndpointAddress {
    /// The control endpoint address, `0x80`.
    pub fn control() -> (r: Self)
        ensures
            r.0 == 0x80,
            r.index_spec() == 0,
            r.is_in_spec(),
            dci_of(r.0) == 1,
    {
        let r = Self::from_parts(0, true);
        assert(0u8 | 0x80 == 0x80 && 0x80u8 & 0x0f == 0 && 0x80u8 & 0x80 != 0) by (bit_vector);
        assert((((0x80u8 << 1u8) | (0x80u8 >> 7u8)) as u8) == 1) by (bit_vector);
        r
    }

    pub open spec fn index_spec(&self) -> u8 {
        ep_index_of(self.0)
    }

    pub open spec fn is_in_spec(&self) -> bool {
        ep_is_in_of(self.0)
    }

    /// A well-formed address has its reserved bits 4..=6 clear.
    pub open spec fn wf(&self) -> bool {
        self.0 & 0x70 == 0
    }

    /// An address with the given endpoint number and direction.
    pub fn from_parts(index: usize, is_in: bool) -> (r: Self)
        requires
            index < 16,
        ensures
            r.0 == (if is_in { index as u8 | 0x80 } else { index as u8 }),
            r.index_spec() == index as u8,
            r.is_in_spec() == is_in,
            r.wf(),
    {
        let i = index as u8;
        assert(i < 16 ==> (i & 0x0f == i && (i | 0x80) & 0x0f == i && i & 0x80 == 0
            && (i | 0x80) & 0x80 != 0 && i & 0x70 == 0 && (i | 0x80) & 0x70 == 0)) by (bit_vector);
        Self(if is_in { i | 0x80 } else { i })
    }

    /// An address from its byte representation.
    pub fn from_byte(b: u8) -> (r: Self)
        ensures
            r.0 == b,
    {
        Self(b)
    }

    /// An address from its Device Context Index.
    pub fn from_dci(b: u8) -> (r: Self)
        ensures
            r.0 == addr_of_dci(b),
            b < 32 ==> r.index_spec() == b / 2 && r.is_in_spec() == (b % 2 == 1) && r.wf(),
    {
        assert(b < 32 ==> (((b >> 1u8) | (b << 7u8)) as u8 & 0x0f == b / 2
            && (((((b >> 1u8) | (b << 7u8)) as u8) & 0x80 != 0) == (b % 2 == 1))
            && ((b >> 1u8) | (b << 7u8)) as u8 & 0x70 == 0)) by (bit_vector);
        Self(((b >> 1u8) | (b << 7u8)) as u8)
    }

    /// Whether the direction is IN.
    pub fn is_in(&self) -> (r: bool)
        ensures
            r == self.is_in_spec(),
    {
        (self.0 & 0x80) != 0
    }

    /// The endpoint number.
    pub fn index(&self) -> (r: usize)
        ensures
            r == self.index_spec(),
            r < 16,
    {
        let b = self.0;
        assert(b & 0x0f < 16) by (bit_vector);
        (self.0 & 0x0f) as usize
    }

    /// The byte representation.
    pub fn byte(&self) -> (r: u8)
        ensures
            r == self.0,
    {
        self.0
    }

    /// The Device Context Index: `(number << 1) | direction` for a well-formed address.
    pub fn dci(&self) -> (r: usize)
        ensures
            r == dci_of(self.0),
            self.wf() ==> r == 2 * self.index_spec() + (if self.is_in_spec() { 1int } else { 0 }),
            self.wf() ==> r < 32,
    {
        let b = self.0;
        let d: u8 = ((b << 1u8) | (b >> 7u8)) as u8;
        assert(d == ((b << 1u8) | (b >> 7u8)) as u8 && b & 0x70 == 0 ==> (d == 2 * (b & 0x0f) + (if b & 0x80 != 0 { 1u8 } else { 0u8 })
            && d < 32)) by (bit_vector);
        ((b << 1u8) | (b >> 7u8)) as usize
    }
}

/// Turning an address into its Device Context Index and back gives the same address.
pub proof fn lemma_dci_round_trip(a: EndpointAddress)
    ensures
        addr_of_dci(dci_of(a.0)) == a.0,
{
    let b = a.0;
    assert((((((b << 1u8) | (b >> 7u8)) as u8) >> 1u8) | ((((b << 1u8) | (b >> 7u8)) as u8) << 7u8)) as u8 == b) by (bit_vector);
}

/// The transfer type of an endpoint.
#[derive(Clone, Copy, Debug, PartialEq, Eq, Structural)]
pub enum EndpointType {
    Control,
    Isochronous,
    Bulk,
    Interrupt,
}

impl EndpointType {
    pub open spec fn from_bits_spec(v: u8) -> Self {
        if v == 1 {
            EndpointType::Isochronous
        } else if v == 2 {
            EndpointType::Bulk
        } else if v == 3 {
            EndpointType::Interrupt
        } else {
            EndpointType::Control
        }
    }

    pub open spec fn bits_spec(&self) -> u8 {
        match *self {
            EndpointType::Control => 0,
            EndpointType::Isochronous => 1,
            EndpointType::Bulk => 2,
            EndpointType::Interrupt => 3,
        }
    }

    /// The type named by the two transfer-type bits; any other value reads as control.
    pub fn from_bits(v: u8) -> (r: Self)
        ensures
            r == Self::from_bits_spec(v),
    {
        if v == 1 {
            EndpointType::Isochronous
        } else if v == 2 {
            EndpointType::Bulk
        } else if v == 3 {
            EndpointType::Interrupt
        } else {
            EndpointType::Control
        }
    }

    pub fn bits(&self) -> (r: u8)
        ensures
            r == self.bits_spec(),
    {
        match *self {
            EndpointType::Control => 0,
            EndpointType::Isochronous => 1,
            EndpointType::Bulk => 2,
            EndpointType::Interrupt => 3,
        }
    }

    pub open spec fn with_dir_spec(&self, is_in: bool) -> EndpointDirectedType {
        match *self {
            EndpointType::Control => EndpointDirectedType::Control,
            EndpointType::Isochronous => if is_in { EndpointDirectedType::IsochIn } else { EndpointDirectedType::IsochOut },
            EndpointType::Bulk => if is_in { EndpointDirectedType::BulkIn } else { EndpointDirectedType::BulkOut },
            EndpointType::Interrupt => if is_in { EndpointDirectedType::InterruptIn } else { EndpointDirectedType::InterruptOut },
        }
    }

    /// The endpoint-context type code for this transfer type in the given direction.
    pub fn with_dir(&self, is_in: bool) -> (r: EndpointDirectedType)
        ensures
            r == self.with_dir_spec(is_in),
            *self != EndpointType::Control ==> r.code_spec() == self.bits_spec() + (if is_in { 4u8 } else { 0u8 }),
    {
        match *self {
            EndpointType::Control => EndpointDirectedType::Control,
            EndpointType::Isochronous => if is_in { EndpointDirectedType::IsochIn } else { EndpointDirectedType::IsochOut },
            EndpointType::Bulk => if is_in { EndpointDirectedType::BulkIn } else { EndpointDirectedType::BulkOut },
            EndpointType::Interrupt => if is_in { EndpointDirectedType::InterruptIn } else { EndpointDirectedType::InterruptOut },
        }
    }
}

/// The endpoint type field of an endpoint context, which folds in the direction.
#[derive(Clone, Copy, Debug, PartialEq, Eq, Structural)]
pub enum EndpointDirectedType {
    NotValid,
    IsochOut,
    BulkOut,
    InterruptOut,
    Control,
    IsochIn,
    BulkIn,
    InterruptIn,
}

impl EndpointDirectedType {
    pub open spec fn code_spec(&self) -> u8 {
        match *self {
            EndpointDirectedType::NotValid => 0,
            EndpointDirectedType::IsochOut => 1,
            EndpointDirectedType::BulkOut => 2,
            EndpointDirectedType::InterruptOut => 3,
            EndpointDirectedType::Control => 4,
            EndpointDirectedType::IsochIn => 5,
            EndpointDirectedType::BulkIn => 6,
            EndpointDirectedType::InterruptIn => 7,
        }
    }
}

/// The configuration of one endpoint, read from its endpoint descriptor.
#[derive(Clone, Copy, Debug, PartialEq, Eq, Structural)]
pub struct EndpointConfig {
    pub addr: EndpointAddress,
    pub ep_type: EndpointType,
    pub max_packet_size: u16,
    pub interval: u8,
}

impl EndpointConfig {
    pub fn from_ep_desc(ep_desc: EndpointDescriptorBody) -> (r: Self)
        ensures
            r.addr.0 == ep_desc.b_endpoint_address,
            r.ep_type == EndpointType::from_bits_spec(ep_desc.bm_attributes % 4),
            r.max_packet_size == ep_desc.w_max_packet_size,
            r.interval == ep_desc.b_interval,
    {
        Self {
            addr: EndpointAddress::from_byte(ep_desc.b_endpoint_address),
            ep_type: ep_desc.transfer_type(),
            max_packet_size: ep_desc.w_max_packet_size,
            interval: ep_desc.b_interval,
        }
    }

    pub fn ep_type(&self) -> (r: EndpointType)
        ensures
            r == self.ep_type,
    {
        self.ep_type
    }

    pub fn ep_type_with_dir(&self) -> (r: EndpointDirectedType)
        ensures
            r == self.ep_type.with_dir_spec(self.addr.is_in_spec()),
    {
        self.ep_type.with_dir(self.addr.is_in())
    }
}

} // verus!
