use mikanos::bus::{BusError, XHCIBus, SETUP_STAGE_MAP_CAPACITY};
use mikanos::context::{EndpointContext, SlotContext};
use mikanos::endpoint::{EndpointAddress, EndpointDirectedType};
use mikanos::setup::{get_descriptor, set_configuration};
use mikanos::descriptor::DescriptorType;
use mikanos::trb::{TransferType, Trb, TrbPos};

fn ready_bus() -> XHCIBus {
    let mut bus = XHCIBus::new(false);
    assert_eq!(bus.alloc_tr(EndpointAddress::control(), 32), Ok(TrbPos { seg: 0, slot: 0 }));
    bus
}

#[test]
fn control_in_without_data_pushes_setup_and_status() {
    let mut bus = ready_bus();
    let req = set_configuration(1);
    assert_eq!(bus.control_in(EndpointAddress::control(), req, 0), Ok(()));
    match bus.trb_at(1, TrbPos { seg: 0, slot: 0 }) {
        Some(Trb::Setup(s)) => assert_eq!(s.transfer_type, TransferType::No),
        other => panic!("unexpected {:?}", other),
    }
    assert_eq!(bus.trb_at(1, TrbPos { seg: 0, slot: 1 }), Some(Trb::Status { dir_in: true, interrupt_on_completion: true }));
    assert_eq!(bus.trb_at(1, TrbPos { seg: 0, slot: 2 }), Some(Trb::Empty));
    // The completion of the Status Stage leads back to the request, once.
    let s = bus.associated_setup_stage(1, TrbPos { seg: 0, slot: 1 }).unwrap();
    assert_eq!(mikanos::setup::SetupRequest::from_setup_stage_trb(s), req);
    assert_eq!(bus.associated_setup_stage(1, TrbPos { seg: 0, slot: 1 }), None);
}

#[test]
fn control_in_with_data_pushes_three_records() {
    let mut bus = ready_bus();
    let req = get_descriptor(DescriptorType::Device, 0, 18);
    assert_eq!(bus.control_in(EndpointAddress::control(), req, 18), Ok(()));
    match bus.trb_at(1, TrbPos { seg: 0, slot: 0 }) {
        Some(Trb::Setup(s)) => assert_eq!(s.transfer_type, TransferType::In),
        other => panic!("unexpected {:?}", other),
    }
    assert_eq!(bus.trb_at(1, TrbPos { seg: 0, slot: 1 }), Some(Trb::Data { length: 18, dir_in: true, interrupt_on_completion: true, chain: false }));
    assert_eq!(bus.trb_at(1, TrbPos { seg: 0, slot: 2 }), Some(Trb::Status { dir_in: false, interrupt_on_completion: false }));
    assert_eq!(bus.trb_at(1, TrbPos { seg: 0, slot: 3 }), Some(Trb::Empty));
    // Only the Data Stage is correlated.
    assert_eq!(bus.associated_setup_stage(1, TrbPos { seg: 0, slot: 2 }), None);
    assert!(bus.associated_setup_stage(1, TrbPos { seg: 0, slot: 1 }).is_some());
}

#[test]
fn control_out_with_data_reverses_status() {
    let mut bus = ready_bus();
    let req = set_configuration(2);
    assert_eq!(bus.control_out(EndpointAddress::control(), req, 4), Ok(()));
    assert_eq!(bus.trb_at(1, TrbPos { seg: 0, slot: 1 }), Some(Trb::Data { length: 4, dir_in: false, interrupt_on_completion: true, chain: false }));
    assert_eq!(bus.trb_at(1, TrbPos { seg: 0, slot: 2 }), Some(Trb::Status { dir_in: true, interrupt_on_completion: false }));
}

#[test]
fn submissions_are_refused_without_a_ring() {
    let mut bus = XHCIBus::new(true);
    let req = set_configuration(1);
    assert_eq!(bus.control_in(EndpointAddress::control(), req, 0), Err(BusError::RingNotInitialized));
    assert_eq!(bus.normal_in(EndpointAddress::from_byte(0x81), 8), Err(BusError::RingNotInitialized));
    // Address 0x00 has DCI 0, which is reserved.
    assert_eq!(bus.normal_out(EndpointAddress::from_byte(0x00), 8), Err(BusError::InvalidEndpoint));
    assert_eq!(bus.alloc_tr(EndpointAddress::from_byte(0x70), 8), Err(BusError::InvalidEndpoint));
}

#[test]
fn correlation_table_capacity() {
    let mut bus = XHCIBus::new(false);
    bus.alloc_tr(EndpointAddress::control(), 64).unwrap();
    let req = set_configuration(1);
    for _ in 0..SETUP_STAGE_MAP_CAPACITY {
        assert_eq!(bus.control_out(EndpointAddress::control(), req, 0), Ok(()));
    }
    assert_eq!(bus.control_out(EndpointAddress::control(), req, 0), Err(BusError::CorrelationTableFull));
    // Nothing was pushed by the refused submission.
    assert_eq!(bus.trb_at(1, TrbPos { seg: 0, slot: 32 }), Some(Trb::Empty));
    // Taking one completion frees a slot.
    assert!(bus.associated_setup_stage(1, TrbPos { seg: 0, slot: 1 }).is_some());
    assert_eq!(bus.control_out(EndpointAddress::control(), req, 0), Ok(()));
}

#[test]
fn normal_transfer_record() {
    let mut bus = ready_bus();
    let ep = EndpointAddress::from_byte(0x81);
    assert_eq!(bus.alloc_tr(ep, 8), Ok(TrbPos { seg: 0, slot: 0 }));
    assert_eq!(bus.normal_in(ep, 8), Ok(()));
    assert_eq!(bus.trb_at(3, TrbPos { seg: 0, slot: 0 }), Some(Trb::Normal { length: 8, interrupt_on_short_packet: true, interrupt_on_completion: true, chain: false }));
}

#[test]
fn input_context_updates() {
    let mut bus = ready_bus();
    let slot = SlotContext { route_string: 0, root_hub_port_number: 2, context_entries: 1, speed: 3 };
    bus.use_input_slot_ctx(slot);
    assert_eq!(bus.input_slot_ctx(), slot);
    bus.set_output_slot_ctx(SlotContext { route_string: 0, root_hub_port_number: 5, context_entries: 3, speed: 4 });
    assert_eq!(bus.port_id(), 5);
    bus.copy_slot_ctx();
    assert_eq!(bus.input_slot_ctx().root_hub_port_number, 5);
    let mut ctx = EndpointContext::zero();
    ctx.endpoint_type = EndpointDirectedType::InterruptIn;
    assert_eq!(bus.use_input_ep_ctx(EndpointAddress::from_byte(0x81), ctx), Ok(()));
    assert_eq!(bus.use_input_ep_ctx(EndpointAddress::from_byte(0x00), ctx), Err(BusError::InvalidEndpoint));
    bus.reset_input_ctx();
}
