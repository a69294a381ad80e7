use mikanos::class::Report;
use mikanos::controller::{convert_interval, Controller, ControllerError, PortConfigPhase, PortStatus};
use mikanos::endpoint::EndpointType;
use mikanos::trb::{EventBlock, EventTrb, Trb, TrbPos};

const DEVICE_DESC: [u8; 18] = [18, 1, 0x00, 0x02, 0, 0, 0, 64, 0x34, 0x12, 0x78, 0x56, 0x00, 0x01, 1, 2, 3, 1];
const CONFIG_DESC: [u8; 34] = [
    9, 2, 34, 0, 1, 1, 0, 0xa0, 50,
    9, 4, 0, 0, 1, 3, 1, 1, 0,
    9, 0x21, 0x11, 0x01, 0, 1, 0x22, 63, 0,
    7, 5, 0x81, 3, 8, 0, 10,
];

/// Stands for the hardware: writes `ev` at the dequeue pointer with the expected cycle bit
/// and has the controller take it.
fn deliver(c: &mut Controller, ev: EventTrb, data: &[u8]) -> Result<bool, ControllerError> {
    let (seg, slot) = c.event_ring().dequeue_pointer();
    c.write_event(seg, slot, EventBlock { trb: ev, cycle: true });
    c.process_events(data)
}

fn connected(speed: u8) -> PortStatus {
    PortStatus { connected: true, enabled: false, reset_changed: false, speed }
}

fn reset_done(speed: u8) -> PortStatus {
    PortStatus { connected: true, enabled: true, reset_changed: true, speed }
}

fn cmd(slot: usize) -> TrbPos {
    TrbPos { seg: 0, slot }
}

fn transfer(slot_id: u8, dci: u8, slot: usize) -> EventTrb {
    EventTrb::Transfer { slot_id, endpoint_id: dci, trb: TrbPos { seg: 0, slot }, completion_code: 1, residual: 0 }
}

#[test]
fn port_phases_in_order() {
    let mut c = Controller::new(4, false);
    let mut seen = vec![c.port_phase(1)];
    c.set_port_status(1, connected(3));
    assert_eq!(deliver(&mut c, EventTrb::PortStatusChange { port_id: 1 }, &[]), Ok(true));
    seen.push(c.port_phase(1));
    assert_eq!(c.port_resets(), &vec![1]);
    c.set_port_status(1, reset_done(3));
    assert_eq!(deliver(&mut c, EventTrb::PortStatusChange { port_id: 1 }, &[]), Ok(true));
    seen.push(c.port_phase(1));
    assert_eq!(c.command_at(cmd(0)), Some(Trb::EnableSlot));
    assert_eq!(deliver(&mut c, EventTrb::CommandCompletion { slot_id: 1, command: cmd(0), completion_code: 1 }, &[]), Ok(true));
    seen.push(c.port_phase(1));
    assert_eq!(c.command_at(cmd(1)), Some(Trb::AddressDevice { slot_id: 1 }));
    assert_eq!(deliver(&mut c, EventTrb::CommandCompletion { slot_id: 1, command: cmd(1), completion_code: 1 }, &[]), Ok(true));
    seen.push(c.port_phase(1));
    // Enumeration: device descriptor, configuration descriptor, set configuration.
    assert_eq!(deliver(&mut c, transfer(1, 1, 1), &DEVICE_DESC), Ok(true));
    assert_eq!(c.port_phase(1), PortConfigPhase::InitializingDevice);
    assert_eq!(deliver(&mut c, transfer(1, 1, 4), &CONFIG_DESC), Ok(true));
    assert_eq!(c.port_phase(1), PortConfigPhase::InitializingDevice);
    assert_eq!(deliver(&mut c, transfer(1, 1, 7), &[]), Ok(true));
    seen.push(c.port_phase(1));
    assert!(c.device_configured(1));
    assert_eq!(c.command_at(cmd(2)), Some(Trb::ConfigureEndpoint { slot_id: 1 }));
    assert_eq!(deliver(&mut c, EventTrb::CommandCompletion { slot_id: 1, command: cmd(2), completion_code: 1 }, &[]), Ok(true));
    seen.push(c.port_phase(1));
    assert_eq!(
        seen,
        vec![
            PortConfigPhase::NotConnected,
            PortConfigPhase::ResettingPort,
            PortConfigPhase::EnablingSlot,
            PortConfigPhase::AddressingDevice,
            PortConfigPhase::InitializingDevice,
            PortConfigPhase::ConfiguringEndpoints,
            PortConfigPhase::Configured,
        ]
    );
    assert_eq!(c.addressing_port(), 0);

    // The keyboard driver sent SET_PROTOCOL; its completion arms the interrupt-IN read.
    assert_eq!(deliver(&mut c, transfer(1, 1, 9), &[]), Ok(true));
    let e = c.entry_at(1).unwrap();
    assert_eq!(e.class_drivers.len(), 1);
    assert_eq!(e.ep_configs.len(), 1);
    assert!(matches!(e.bus.trb_at(3, TrbPos { seg: 0, slot: 0 }), Some(Trb::Normal { length: 8, .. })));
    // Key 4 pressed, then released.
    assert_eq!(deliver(&mut c, transfer(1, 3, 0), &[0, 0, 4, 0, 0, 0, 0, 0]), Ok(true));
    assert_eq!(deliver(&mut c, transfer(1, 3, 1), &[0, 0, 0, 0, 0, 0, 0, 0]), Ok(true));
    let reports = c.take_reports();
    assert_eq!(reports.len(), 2);
    match (reports[0], reports[1]) {
        (Report::Keyboard(a), Report::Keyboard(b)) => {
            assert!(a.cur_keys.get(4) && !a.prev_keys.get(4));
            assert!(!b.cur_keys.get(4) && b.prev_keys.get(4));
        },
        _ => panic!("keyboard reports expected"),
    }
    assert_eq!(c.process_events(&[]), Ok(false));
    assert!(c.event_ring_cycle());
}

#[test]
fn second_port_waits_for_addressing() {
    let mut c = Controller::new(4, false);
    c.set_port_status(1, connected(4));
    c.set_port_status(2, connected(4));
    assert_eq!(deliver(&mut c, EventTrb::PortStatusChange { port_id: 1 }, &[]), Ok(true));
    assert_eq!(c.port_phase(1), PortConfigPhase::ResettingPort);
    assert_eq!(deliver(&mut c, EventTrb::PortStatusChange { port_id: 2 }, &[]), Ok(true));
    assert_eq!(c.port_phase(2), PortConfigPhase::WaitingAddressed);
    c.set_port_status(1, reset_done(4));
    assert_eq!(deliver(&mut c, EventTrb::PortStatusChange { port_id: 1 }, &[]), Ok(true));
    assert_eq!(deliver(&mut c, EventTrb::CommandCompletion { slot_id: 1, command: cmd(0), completion_code: 1 }, &[]), Ok(true));
    assert_eq!(c.port_phase(1), PortConfigPhase::AddressingDevice);
    assert_eq!(c.port_phase(2), PortConfigPhase::WaitingAddressed);
    assert_eq!(c.port_resets(), &vec![1]);
    assert_eq!(deliver(&mut c, EventTrb::CommandCompletion { slot_id: 1, command: cmd(1), completion_code: 1 }, &[]), Ok(true));
    assert_eq!(c.port_phase(1), PortConfigPhase::InitializingDevice);
    assert_eq!(c.port_phase(2), PortConfigPhase::ResettingPort);
    assert_eq!(c.addressing_port(), 2);
    assert_eq!(c.port_resets(), &vec![1, 2]);
    // Port 1: reset (PR, CSC written 1), then the reset change acknowledged (PRC written 1).
    // Port 2 (connected, Super Speed): reset only now.
    let w = c.portsc_writes();
    assert_eq!(w.len(), 3);
    assert_eq!(w[0], (1, 0x0002_1011));
    assert_eq!(w[1], (1, 0x0020_1001));
    assert_eq!(w[2], (2, 0x0002_1011));
    assert!(!c.portsc_at(1).reset_changed);
    assert_eq!(c.portsc_at(1).speed, 4);
}

#[test]
fn phase_mismatches_are_refused() {
    let mut c = Controller::new(2, false);
    assert_eq!(deliver(&mut c, EventTrb::PortStatusChange { port_id: 3 }, &[]), Err(ControllerError::InvalidPort));
    c.set_port_status(1, connected(3));
    c.set_port_status(1, reset_done(3));
    assert_eq!(deliver(&mut c, EventTrb::PortStatusChange { port_id: 1 }, &[]), Ok(true));
    assert_eq!(deliver(&mut c, EventTrb::PortStatusChange { port_id: 1 }, &[]), Ok(true));
    assert_eq!(c.port_phase(1), PortConfigPhase::EnablingSlot);
    assert_eq!(deliver(&mut c, EventTrb::PortStatusChange { port_id: 1 }, &[]), Err(ControllerError::PhaseMismatch));
    // A Transfer event for a slot with no device, and a failed transfer.
    assert_eq!(deliver(&mut c, transfer(2, 1, 0), &[]), Err(ControllerError::NoDevice));
    let failed = EventTrb::Transfer { slot_id: 1, endpoint_id: 1, trb: TrbPos { seg: 0, slot: 0 }, completion_code: 4, residual: 0 };
    assert_eq!(deliver(&mut c, failed, &[]), Err(ControllerError::TransferFailed));
    assert_eq!(deliver(&mut c, EventTrb::Empty, &[]), Err(ControllerError::Unsupported));
    // Address Device completion for a slot with no device.
    assert_eq!(deliver(&mut c, EventTrb::CommandCompletion { slot_id: 1, command: cmd(5), completion_code: 1 }, &[]), Err(ControllerError::Unsupported));
}

#[test]
fn reconfigure_resets_connected_ports() {
    let mut c = Controller::new(3, true);
    c.set_port_status(2, connected(2));
    c.set_port_status(3, connected(2));
    assert_eq!(c.reconfigure_port(), Ok(()));
    assert_eq!(c.port_phase(1), PortConfigPhase::NotConnected);
    assert_eq!(c.port_phase(2), PortConfigPhase::ResettingPort);
    assert_eq!(c.port_phase(3), PortConfigPhase::WaitingAddressed);
    assert_eq!(c.num_ports(), 3);
}

#[test]
fn interval_conversion() {
    assert_eq!(convert_interval(3, EndpointType::Interrupt, 10), 6);
    assert_eq!(convert_interval(1, EndpointType::Interrupt, 1), 3);
    assert_eq!(convert_interval(2, EndpointType::Interrupt, 0), 3);
    assert_eq!(convert_interval(1, EndpointType::Isochronous, 4), 6);
    assert_eq!(convert_interval(4, EndpointType::Interrupt, 4), 3);
    assert_eq!(convert_interval(4, EndpointType::Interrupt, 0), 0);
}
