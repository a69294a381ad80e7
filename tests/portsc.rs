use mikanos::controller::PortStatus;
use mikanos::portsc::{port_status_from_portsc, portsc_clear_reset_change, portsc_port_reset, portsc_protect, portsc_reset_in_progress};

#[test]
fn protect_clears_write_one_to_clear_bits() {
    assert_eq!(portsc_protect(0xFFFF_FFFF), 0xFF01_FFFD);
    assert_eq!(portsc_protect(0x0000_0201), 0x0000_0201);
}

#[test]
fn port_reset_value() {
    // Connected, enabled, powered, with a pending connect change and link-state strobe.
    let v = 0x0003_0203;
    assert_eq!(portsc_port_reset(v), 0x0002_0211);
    assert!(portsc_reset_in_progress(portsc_port_reset(v)));
    assert!(!portsc_reset_in_progress(v));
}

#[test]
fn clear_reset_change_value() {
    let v = 0x0022_0E03;
    assert_eq!(portsc_clear_reset_change(v), 0x0020_0E01);
}

#[test]
fn decode_port_status() {
    assert_eq!(
        port_status_from_portsc(0x0020_1203),
        PortStatus { connected: true, enabled: true, reset_changed: true, speed: 4 }
    );
    assert_eq!(
        port_status_from_portsc(0x0000_0C00),
        PortStatus { connected: false, enabled: false, reset_changed: false, speed: 3 }
    );
}
