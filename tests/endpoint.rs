use mikanos::descriptor::{Descriptor, DescriptorIterator};
use mikanos::endpoint::{EndpointAddress, EndpointConfig, EndpointDirectedType, EndpointType};

#[test]
fn dci_round_trip_every_address() {
    for b in 0..=255u8 {
        let a = EndpointAddress::from_byte(b);
        assert_eq!(EndpointAddress::from_dci(a.dci() as u8), a);
    }
}

#[test]
fn dci_values() {
    assert_eq!(EndpointAddress::control().byte(), 0x80);
    assert_eq!(EndpointAddress::control().dci(), 1);
    assert_eq!(EndpointAddress::from_parts(1, true).dci(), 3);
    assert_eq!(EndpointAddress::from_parts(2, false).dci(), 4);
    assert_eq!(EndpointAddress::from_parts(15, true).dci(), 31);
    let a = EndpointAddress::from_dci(5);
    assert_eq!(a.index(), 2);
    assert!(a.is_in());
    assert_eq!(a.byte(), 0x82);
}

#[test]
fn endpoint_type_with_direction() {
    assert_eq!(EndpointType::Interrupt.with_dir(true), EndpointDirectedType::InterruptIn);
    assert_eq!(EndpointType::Interrupt.with_dir(false), EndpointDirectedType::InterruptOut);
    assert_eq!(EndpointType::Bulk.with_dir(true), EndpointDirectedType::BulkIn);
    assert_eq!(EndpointType::Isochronous.with_dir(false), EndpointDirectedType::IsochOut);
    assert_eq!(EndpointType::Control.with_dir(true), EndpointDirectedType::Control);
    assert_eq!(EndpointType::from_bits(3), EndpointType::Interrupt);
    assert_eq!(EndpointType::from_bits(7), EndpointType::Control);
}

#[test]
fn endpoint_config_from_descriptor() {
    let bytes = [7u8, 5, 0x81, 0x03, 0x08, 0x00, 10];
    let mut it = DescriptorIterator::from_buf(&bytes);
    let ed = match it.next() {
        Some(Descriptor::Endpoint(ed)) => ed,
        other => panic!("unexpected {:?}", other),
    };
    assert_eq!(ed.transfer_type(), EndpointType::Interrupt);
    assert_eq!(ed.sync_type(), 0);
    assert_eq!(ed.usage_type(), 0);
    let cfg = EndpointConfig::from_ep_desc(ed);
    assert_eq!(cfg.addr, EndpointAddress::from_byte(0x81));
    assert_eq!(cfg.ep_type(), EndpointType::Interrupt);
    assert_eq!(cfg.max_packet_size, 8);
    assert_eq!(cfg.interval, 10);
    assert_eq!(cfg.ep_type_with_dir(), EndpointDirectedType::InterruptIn);
}
