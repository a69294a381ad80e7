use mikanos::bus::XHCIBus;
use mikanos::class::{new_class_from_interface, HidKind, KeyboardBitSet, KeyboardPacket, MousePacket, Report, USBHIDClass};
use mikanos::endpoint::{EndpointAddress, EndpointConfig, EndpointType};
use mikanos::setup::set_protocol;
use mikanos::trb::{Trb, TrbPos};

#[test]
fn keyboard_edge_detection() {
    let press = KeyboardPacket::from_bytes(&[0, 0, 4, 0, 0, 0, 0, 0]);
    let release = KeyboardPacket::from_bytes(&[0, 0, 0, 0, 0, 0, 0, 0]);
    let (r1, info1) = press.create_report(KeyboardBitSet::empty());
    let (r2, _info2) = release.create_report(info1);
    assert!(r1.cur_keys.get(4));
    assert!(!r1.prev_keys.get(4));
    assert!(!r2.cur_keys.get(4));
    assert!(r2.prev_keys.get(4));
    // Code 0 stands for "no key".
    assert!(!r1.cur_keys.get(0));
    assert!(!r1.cur_keys.get(5));
}

#[test]
fn keyboard_report_many_keys() {
    let p = KeyboardPacket::from_bytes(&[0x02, 0, 4, 200, 63, 64, 255, 0]);
    let (r, _) = p.create_report(KeyboardBitSet::empty());
    assert_eq!(r.modifier, 0x02);
    for k in [4u8, 200, 63, 64, 255] {
        assert!(r.cur_keys.get(k));
    }
    assert!(!r.cur_keys.get(65));
}

#[test]
fn bitset_set_and_clear() {
    let mut s = KeyboardBitSet::empty();
    s.set(130, true);
    s.set(131, true);
    s.set(130, false);
    assert!(!s.get(130));
    assert!(s.get(131));
}

#[test]
fn mouse_report_is_packet() {
    let p = MousePacket::from_bytes(&[1, 0xff, 3]);
    assert_eq!(p, MousePacket { buttons: 1, x: -1, y: 3 });
    assert_eq!(p.create_report(), p);
    assert_eq!(MousePacket::from_bytes(&[7]), MousePacket { buttons: 7, x: 0, y: 0 });
}

#[test]
fn class_from_interface() {
    assert_eq!(new_class_from_interface(3, 1, 1, 0).unwrap().kind, HidKind::Keyboard);
    assert_eq!(new_class_from_interface(3, 1, 2, 1).unwrap().kind, HidKind::Mouse);
    assert_eq!(new_class_from_interface(3, 1, 2, 1).unwrap().if_index, 1);
    assert!(new_class_from_interface(3, 0, 0, 0).is_none());
    assert!(new_class_from_interface(2, 1, 1, 0).is_none());
}

#[test]
fn hid_driver_arms_and_rearms_reads() {
    let mut bus = XHCIBus::new(false);
    let ctl = EndpointAddress::control();
    let ep = EndpointAddress::from_byte(0x81);
    bus.alloc_tr(ctl, 32).unwrap();
    bus.alloc_tr(ep, 32).unwrap();
    let mut c = USBHIDClass::new(HidKind::Keyboard, 0);
    let cfg = EndpointConfig { addr: ep, ep_type: EndpointType::Interrupt, max_packet_size: 8, interval: 10 };
    c.set_endpoint(&[cfg]);
    assert_eq!(c.ep_interrupt_in, ep);
    assert_eq!(c.on_endpoints_configured(&mut bus), Ok(()));
    assert_eq!(c.last_req, Some(set_protocol(0)));
    // Another request's completion is ignored.
    assert_eq!(c.on_control_completed(&mut bus, set_protocol(1)), Ok(()));
    assert_eq!(bus.trb_at(3, TrbPos { seg: 0, slot: 0 }), Some(Trb::Empty));
    assert_eq!(c.on_control_completed(&mut bus, set_protocol(0)), Ok(()));
    assert_eq!(c.last_req, None);
    assert_eq!(bus.trb_at(3, TrbPos { seg: 0, slot: 0 }), Some(Trb::Normal { length: 8, interrupt_on_short_packet: true, interrupt_on_completion: true, chain: false }));
    let mut reports = Vec::new();
    assert_eq!(c.on_normal_completed(&mut bus, ep, &[0, 0, 4, 0, 0, 0, 0, 0], &mut reports), Ok(()));
    assert_eq!(reports.len(), 1);
    match reports[0] {
        Report::Keyboard(r) => assert!(r.cur_keys.get(4)),
        Report::Mouse(_) => panic!("keyboard expected"),
    }
    assert!(bus.trb_at(3, TrbPos { seg: 0, slot: 1 }).is_some());
    // A packet on another endpoint is not this driver's.
    assert_eq!(c.on_normal_completed(&mut bus, EndpointAddress::from_byte(0x82), &[1], &mut reports), Ok(()));
    assert_eq!(reports.len(), 1);
}
