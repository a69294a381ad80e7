use vstd::prelude::*;

use crate::descriptor::DescriptorType;
use crate::trb::{SetupStage, TransferType};

verus! {

/// The type field of a request.
#[derive(Clone, Copy, Debug, PartialEq, Eq, Structural)]
pub enum RequestType {
    Standard,
    Class,
    Vendor,
    Reserved,
}

impl RequestType {
    pub open spec fn from_bits_spec(v: u8) -> Self {
        if v == 0 {
            RequestType::Standard
        } else if v == 1 {
            RequestType::Class
        } else if v == 2 {
            RequestType::Vendor
        } else {
            RequestType::Reserved
        }
    }

    pub open spec fn bits_spec(&self) -> u8 {
        match *self {
            RequestType::Standard => 0,
            RequestType::Class => 1,
            RequestType::Vendor => 2,
            RequestType::Reserved => 3,
        }
    }

    pub fn from_bits(v: u8) -> (r: Self)
        ensures
            r == Self::from_bits_spec(v),
    {
        if v == 0 {
            RequestType::Standard
        } else if v == 1 {
            RequestType::Class
        } else if v == 2 {
            RequestType::Vendor
        } else {
            RequestType::Reserved
        }
    }

    pub fn bits(&self) -> (r: u8)
        ensures
            r == self.bits_spec(),
            r < 4,
    {
        match *self {
            RequestType::Standard => 0,
            RequestType::Class => 1,
            RequestType::Vendor => 2,
            RequestType::Reserved => 3,
        }
    }
}

/// The recipient field of a request.
#[derive(Clone, Copy, Debug, PartialEq, Eq, Structural)]
pub enum Recipient {
    Device,
    Interface,
    Endpoint,
    Other,
    Reserved,
}

impl Recipient {
    pub open spec fn from_bits_spec(v: u8) -> Self {
        if v == 0 {
            Recipient::Device
        } else if v == 1 {
            Recipient::Interface
        } else if v == 2 {
            Recipient::Endpoint
        } else if v == 3 {
            Recipient::Other
        } else {
            Recipient::Reserved
        }
    }

    pub open spec fn bits_spec(&self) -> u8 {
        match *self {
            Recipient::Device => 0,
            Recipient::Interface => 1,
            Recipient::Endpoint => 2,
            Recipient::Other => 3,
            Recipient::Reserved => 4,
        }
    }

    pub fn from_bits(v: u8) -> (r: Self)
        ensures
            r == Self::from_bits_spec(v),
    {
        if v == 0 {
            Recipient::Device
        } else if v == 1 {
            Recipient::Interface
        } else if v == 2 {
            Recipient::Endpoint
        } else if v == 3 {
            Recipient::Other
        } else {
            Recipient::Reserved
        }
    }

    pub fn bits(&self) -> (r: u8)
        ensures
            r == self.bits_spec(),
            r < 5,
    {
        match *self {
            Recipient::Device => 0,
            Recipient::Interface => 1,
            Recipient::Endpoint => 2,
            Recipient::Other => 3,
            Recipient::Reserved => 4,
        }
    }
}

pub const GET_STATUS: u8 = 0;
pub const CLEAR_FEATURE: u8 = 1;
pub const SET_FEATURE: u8 = 3;
pub const SET_ADDRESS: u8 = 5;
pub const GET_DESCRIPTOR: u8 = 6;
pub const SET_DESCRIPTOR: u8 = 7;
pub const GET_CONFIGURATION: u8 = 8;
pub const SET_CONFIGURATION: u8 = 9;
pub const GET_INTERFACE: u8 = 10;
pub const SET_INTERFACE: u8 = 11;
/// HID class request codes.
pub const GET_REPORT: u8 = 1;
pub const SET_PROTOCOL: u8 = 11;

/// The 8-byte header of a USB control request.
#[derive(Clone, Copy, Debug, PartialEq, Eq, Structural)]
pub struct SetupRequest {
    pub request_type: u8,
    pub request: u8,
    pub value: u16,
    pub index: u16,
    pub length: u16,
}

/// The direction bit (bit 7) of a `bmRequestType` byte.
pub open spec fn rt_is_in(rt: u8) -> bool {
    rt & 0x80 != 0
}

/// The type bits (bits 5..=6) of a `bmRequestType` byte.
pub open spec fn rt_type_bits(rt: u8) -> u8 {
    (rt >> 5u8) & 3
}

/// The recipient bits (bits 0..=4) of a `bmRequestType` byte.
pub open spec fn rt_recipient_bits(rt: u8) -> u8 {
    rt & 0x1f
}

impl SetupRequest {
    pub open spec fn request_type_byte(&self) -> u8 {
        self.request_type
    }

    /// A request with the given direction, type, recipient, code, value, index and length.
    pub fn new(is_in: bool, req_ty: RequestType, recipient: Recipient, req_code: u8, value: u16, index: u16, length: u16) -> (r: Self)
        ensures
            rt_is_in(r.request_type_byte()) == is_in,
            rt_type_bits(r.request_type_byte()) == req_ty.bits_spec(),
            rt_recipient_bits(r.request_type_byte()) == recipient.bits_spec(),
            r.request == req_code,
            r.value == value,
            r.index == index,
            r.length == length,
    {
        let mut req = Self { request_type: 0, request: req_code, value, index, length };
        req.set_is_in(is_in);
        req.set_request_type(req_ty);
        req.set_recipient(recipient);
        req
    }

    /// A request from its `bmRequestType` byte and the other header fields.
    pub fn from_raw(request_type: u8, request: u8, value: u16, index: u16, length: u16) -> (r: Self)
        ensures
            r.request_type_byte() == request_type,
            r.request == request,
            r.value == value,
            r.index == index,
            r.length == length,
    {
        Self { request_type, request, value, index, length }
    }

    pub fn request_type_raw(&self) -> (r: u8)
        ensures
            r == self.request_type_byte(),
    {
        self.request_type
    }

    pub fn is_in(&self) -> (r: bool)
        ensures
            r == rt_is_in(self.request_type_byte()),
    {
        self.request_type & 0x80 != 0
    }

    pub fn set_is_in(&mut self, is_in: bool)
        ensures
            rt_is_in(final(self).request_type_byte()) == is_in,
            rt_type_bits(final(self).request_type_byte()) == rt_type_bits(old(self).request_type_byte()),
            rt_recipient_bits(final(self).request_type_byte()) == rt_recipient_bits(old(self).request_type_byte()),
            final(self).request == old(self).request,
            final(self).value == old(self).value,
            final(self).index == old(self).index,
            final(self).length == old(self).length,
    {
        let rt = self.request_type;
        let n: u8 = if is_in { rt | 0x80 } else { rt & 0x7f };
        assert(((rt | 0x80) & 0x80 != 0) && ((rt & 0x7f) & 0x80 == 0)
            && ((rt | 0x80) >> 5u8) & 3 == (rt >> 5u8) & 3 && ((rt & 0x7f) >> 5u8) & 3 == (rt >> 5u8) & 3
            && (rt | 0x80) & 0x1f == rt & 0x1f && (rt & 0x7f) & 0x1f == rt & 0x1f) by (bit_vector);
        self.request_type = n;
    }

    pub fn request_type(&self) -> (r: RequestType)
        ensures
            r == RequestType::from_bits_spec(rt_type_bits(self.request_type_byte())),
    {
        RequestType::from_bits((self.request_type >> 5u8) & 3)
    }

    pub fn set_request_type(&mut self, req_ty: RequestType)
        ensures
            rt_type_bits(final(self).request_type_byte()) == req_ty.bits_spec(),
            rt_is_in(final(self).request_type_byte()) == rt_is_in(old(self).request_type_byte()),
            rt_recipient_bits(final(self).request_type_byte()) == rt_recipient_bits(old(self).request_type_byte()),
            final(self).request == old(self).request,
            final(self).value == old(self).value,
            final(self).index == old(self).index,
            final(self).length == old(self).length,
    {
        let rt = self.request_type;
        let v = req_ty.bits();
        let n: u8 = (rt & 0x9f) | (v << 5u8);
        assert(v < 4 ==> ((((rt & 0x9f) | (v << 5u8)) >> 5u8) & 3 == v
            && (((rt & 0x9f) | (v << 5u8)) & 0x80 != 0) == (rt & 0x80 != 0)
            && ((rt & 0x9f) | (v << 5u8)) & 0x1f == rt & 0x1f)) by (bit_vector);
        self.request_type = n;
    }

    pub fn recipient(&self) -> (r: Recipient)
        ensures
            r == Recipient::from_bits_spec(rt_recipient_bits(self.request_type_byte())),
    {
        Recipient::from_bits(self.request_type & 0x1f)
    }

    pub fn set_recipient(&mut self, recipient: Recipient)
        ensures
            rt_recipient_bits(final(self).request_type_byte()) == recipient.bits_spec(),
            rt_is_in(final(self).request_type_byte()) == rt_is_in(old(self).request_type_byte()),
            rt_type_bits(final(self).request_type_byte()) == rt_type_bits(old(self).request_type_byte()),
            final(self).request == old(self).request,
            final(self).value == old(self).value,
            final(self).index == old(self).index,
            final(self).length == old(self).length,
    {
        let rt = self.request_type;
        let v = recipient.bits();
        let n: u8 = (rt & 0xe0) | v;
        assert(v < 5 ==> (((rt & 0xe0) | v) & 0x1f == v
            && (((rt & 0xe0) | v) & 0x80 != 0) == (rt & 0x80 != 0)
            && (((rt & 0xe0) | v) >> 5u8) & 3 == (rt >> 5u8) & 3)) by (bit_vector);
        self.request_type = n;
    }

    pub open spec fn into_setup_stage_spec(&self) -> SetupStage {
        SetupStage {
            request_type: self.request_type,
            request: self.request,
            value: self.value,
            index: self.index,
            length: self.length,
            transfer_type: TransferType::No,
        }
    }

    /// The request held in a Setup Stage record.
    pub fn from_setup_stage_trb(trb: SetupStage) -> (r: Self)
        ensures
            r.request_type_byte() == trb.request_type,
            r.request == trb.request,
            r.value == trb.value,
            r.index == trb.index,
            r.length == trb.length,
    {
        Self {
            request_type: trb.request_type,
            request: trb.request,
            value: trb.value,
            index: trb.index,
            length: trb.length,
        }
    }

    /// A Setup Stage record that carries this request; its transfer type is set by the caller.
    pub fn into_setup_stage_trb(&self) -> (r: SetupStage)
        ensures
            r == self.into_setup_stage_spec(),
    {
        SetupStage {
            request_type: self.request_type,
            request: self.request,
            value: self.value,
            index: self.index,
            length: self.length,
            transfer_type: TransferType::No,
        }
    }
}

/// Reading back the request from the Setup Stage record made of it gives the same request,
/// whatever transfer type the record was then given.
pub proof fn lemma_setup_stage_round_trip(req: SetupRequest, tt: TransferType)
    ensures
        ({
            let trb = SetupStage { transfer_type: tt, ..req.into_setup_stage_spec() };
            SetupRequest {
                request_type: trb.request_type,
                request: trb.request,
                value: trb.value,
                index: trb.index,
                length: trb.length,
            } == req
        }),
{
}

/// The `bmRequestType` byte is fixed by its direction, type and recipient bits.
proof fn lemma_rt_byte(rt: u8, is_in: bool, ty: u8, rc: u8)
    requires
        rt_is_in(rt) == is_in,
        rt_type_bits(rt) == ty,
        rt_recipient_bits(rt) == rc,
        ty < 4,
        rc < 32,
    ensures
        rt == (if is_in { 0x80u8 } else { 0u8 }) + ty * 32 + rc,
{
    let b: u8 = if is_in { 1 } else { 0 };
    assert((rt & 0x80 != 0) == (b == 1) && (rt >> 5u8) & 3 == ty && rt & 0x1f == rc && ty < 4 && rc < 32 && b < 2
        ==> rt == b * 0x80 + ty * 32 + rc) by (bit_vector);
}

pub open spec fn get_descriptor_spec(type_byte: u8, desc_index: u8, len: u16) -> SetupRequest {
    SetupRequest { request_type: 0x80, request: GET_DESCRIPTOR, value: (type_byte as int * 256 + desc_index) as u16, index: 0, length: len }
}

pub open spec fn set_configuration_spec(cfg_value: u16) -> SetupRequest {
    SetupRequest { request_type: 0, request: SET_CONFIGURATION, value: cfg_value, index: 0, length: 0 }
}

pub open spec fn set_protocol_spec(if_index: u16) -> SetupRequest {
    SetupRequest { request_type: 0x21, request: SET_PROTOCOL, value: 0, index: if_index, length: 0 }
}

/// `GET_DESCRIPTOR` for the given descriptor type and index, reading `len` bytes.
pub fn get_descriptor(desc_type: DescriptorType, desc_index: u8, len: u16) -> (r: SetupRequest)
    ensures
        r == get_descriptor_spec(desc_type.byte_spec(), desc_index, len),
        rt_is_in(r.request_type_byte()),
        rt_type_bits(r.request_type_byte()) == 0,
        rt_recipient_bits(r.request_type_byte()) == 0,
        r.request == GET_DESCRIPTOR,
        r.value == desc_type.byte_spec() as int * 256 + desc_index,
        r.index == 0,
        r.length == len,
{
    let t = desc_type.byte();
    let r = SetupRequest::new(true, RequestType::Standard, Recipient::Device, GET_DESCRIPTOR, (t as u16) * 256 + desc_index as u16, 0, len);
    proof {
        lemma_rt_byte(r.request_type, true, 0, 0);
    }
    r
}

/// `SET_CONFIGURATION` with the given configuration value.
pub fn set_configuration(cfg_value: u16) -> (r: SetupRequest)
    ensures
        r == set_configuration_spec(cfg_value),
        !rt_is_in(r.request_type_byte()),
        rt_type_bits(r.request_type_byte()) == 0,
        rt_recipient_bits(r.request_type_byte()) == 0,
        r.request == SET_CONFIGURATION,
        r.value == cfg_value,
        r.index == 0,
        r.length == 0,
{
    let r = SetupRequest::new(false, RequestType::Standard, Recipient::Device, SET_CONFIGURATION, cfg_value, 0, 0);
    proof {
        lemma_rt_byte(r.request_type, false, 0, 0);
    }
    r
}

/// The HID class request `SET_PROTOCOL` (boot protocol) for the given interface.
pub fn set_protocol(if_index: u16) -> (r: SetupRequest)
    ensures
        r == set_protocol_spec(if_index),
        !rt_is_in(r.request_type_byte()),
        rt_type_bits(r.request_type_byte()) == 1,
        rt_recipient_bits(r.request_type_byte()) == 1,
        r.request == SET_PROTOCOL,
        r.value == 0,
        r.index == if_index,
        r.length == 0,
{
    let r = SetupRequest::new(false, RequestType::Class, Recipient::Interface, SET_PROTOCOL, 0, if_index, 0);
    proof {
        lemma_rt_byte(r.request_type, false, 1, 1);
    }
    r
}

} // verus!
