use mikanos::descriptor::{Descriptor, DescriptorIterator, DescriptorType};

const DEVICE: [u8; 18] = [18, 1, 0x00, 0x02, 0, 0, 0, 64, 0x34, 0x12, 0x78, 0x56, 0x00, 0x01, 1, 2, 3, 1];

#[test]
fn device_descriptor_fields() {
    let mut it = DescriptorIterator::from_buf(&DEVICE);
    match it.next() {
        Some(Descriptor::Device(d)) => {
            assert_eq!(d.bcd_usb, 0x0200);
            assert_eq!(d.b_max_packet_size_0, 64);
            assert_eq!(d.id_vendor, 0x1234);
            assert_eq!(d.id_product, 0x5678);
            assert_eq!(d.bcd_device, 0x0100);
            assert_eq!(d.b_num_configurations, 1);
        },
        other => panic!("unexpected {:?}", other),
    }
    assert_eq!(it.next(), None);
}

#[test]
fn configuration_walk() {
    let buf = [
        9u8, 2, 34, 0, 1, 1, 0, 0xa0, 50, // configuration
        9, 4, 0, 0, 1, 3, 1, 1, 0, // interface: boot keyboard
        9, 0x21, 0x11, 0x01, 0, 1, 0x22, 63, 0, // HID
        7, 5, 0x81, 3, 8, 0, 10, // endpoint
    ];
    let mut it = DescriptorIterator::from_buf(&buf);
    match it.next() {
        Some(Descriptor::Configuration(c)) => {
            assert_eq!(c.w_total_length, 34);
            assert_eq!(c.b_configuration_value, 1);
            assert!(c.remote_wakeup());
            assert!(!c.self_powered());
        },
        other => panic!("unexpected {:?}", other),
    }
    match it.next() {
        Some(Descriptor::Interface(i)) => {
            assert_eq!((i.b_interface_class, i.b_interface_sub_class, i.b_interface_protocol), (3, 1, 1));
            assert_eq!(i.b_num_endpoints, 1);
        },
        other => panic!("unexpected {:?}", other),
    }
    assert_eq!(it.next(), Some(Descriptor::Unsupported));
    match it.next() {
        Some(Descriptor::Endpoint(e)) => assert_eq!(e.b_endpoint_address, 0x81),
        other => panic!("unexpected {:?}", other),
    }
    assert_eq!(it.next(), None);
}

#[test]
fn malformed_headers_end_the_walk() {
    let zero_len = [0u8, 1, 2, 3];
    assert_eq!(DescriptorIterator::from_buf(&zero_len).next(), None);
    let too_long = [10u8, 4, 0, 0];
    assert_eq!(DescriptorIterator::from_buf(&too_long).next(), None);
    let cut = [9u8];
    assert_eq!(DescriptorIterator::from_buf(&cut).next(), None);
    let short_device = [4u8, 1, 0, 2];
    assert_eq!(DescriptorIterator::from_buf(&short_device).next(), Some(Descriptor::Unsupported));
}

#[test]
fn descriptor_type_bytes() {
    assert_eq!(DescriptorType::from_byte(0x21), DescriptorType::HID);
    assert_eq!(DescriptorType::from_byte(9), DescriptorType::Unsupported(9));
    assert_eq!(DescriptorType::Endpoint.byte(), 5);
}
