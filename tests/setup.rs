use mikanos::descriptor::DescriptorType;
use mikanos::setup::{get_descriptor, set_configuration, set_protocol, Recipient, RequestType, SetupRequest, GET_DESCRIPTOR, SET_CONFIGURATION, SET_PROTOCOL};
use mikanos::trb::TransferType;

#[test]
fn setup_stage_round_trip() {
    let types = [RequestType::Standard, RequestType::Class, RequestType::Vendor, RequestType::Reserved];
    let recips = [Recipient::Device, Recipient::Interface, Recipient::Endpoint, Recipient::Other, Recipient::Reserved];
    for &is_in in &[false, true] {
        for &t in &types {
            for &rc in &recips {
                let req = SetupRequest::new(is_in, t, rc, 6, 0x0100, 7, 18);
                let mut trb = req.into_setup_stage_trb();
                assert_eq!(SetupRequest::from_setup_stage_trb(trb), req);
                trb.transfer_type = TransferType::In;
                assert_eq!(SetupRequest::from_setup_stage_trb(trb), req);
                assert_eq!(req.is_in(), is_in);
                assert_eq!(req.request_type(), t);
                assert_eq!(req.recipient(), rc);
            }
        }
    }
}

#[test]
fn setters_keep_other_fields() {
    let mut req = SetupRequest::from_raw(0xff, 1, 2, 3, 4);
    req.set_is_in(false);
    assert_eq!(req.request_type_raw(), 0x7f);
    req.set_recipient(Recipient::Interface);
    assert_eq!(req.request_type_raw(), 0x61);
    req.set_request_type(RequestType::Standard);
    assert_eq!(req.request_type_raw(), 0x01);
    assert_eq!((req.request, req.value, req.index, req.length), (1, 2, 3, 4));
    assert_eq!(SetupRequest::from_raw(0x1f, 0, 0, 0, 0).recipient(), Recipient::Reserved);
}

#[test]
fn predefined_requests() {
    let g = get_descriptor(DescriptorType::Configuration, 0, 256);
    assert_eq!(g.request_type_raw(), 0x80);
    assert_eq!(g.request, GET_DESCRIPTOR);
    assert_eq!(g.value, 0x0200);
    assert_eq!(g.length, 256);
    let c = set_configuration(1);
    assert_eq!(c.request_type_raw(), 0x00);
    assert_eq!(c.request, SET_CONFIGURATION);
    assert_eq!(c.value, 1);
    let p = set_protocol(2);
    assert_eq!(p.request_type_raw(), 0x21);
    assert_eq!(p.request, SET_PROTOCOL);
    assert_eq!(p.index, 2);
    assert_eq!(p.value, 0);
}
