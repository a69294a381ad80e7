use vstd::prelude::*;

use crate::controller::PortStatus;

verus! {

/// Current Connect Status.
pub const PORTSC_CCS: u32 = 0x0000_0001;
/// Port Enabled/Disabled (write 1 to disable).
pub const PORTSC_PED: u32 = 0x0000_0002;
/// Port Reset.
pub const PORTSC_PR: u32 = 0x0000_0010;
/// Port Link State Write Strobe.
pub const PORTSC_LWS: u32 = 0x0001_0000;
/// Connect Status Change (write 1 to clear).
pub const PORTSC_CSC: u32 = 0x0002_0000;
/// Port Reset Change (write 1 to clear).
pub const PORTSC_PRC: u32 = 0x0020_0000;
/// The bits that a write of 1 clears or disables: PED and the change bits CSC, PEC, WRC, OCC,
/// PRC, PLC and CEC. A register update writes them as 0 unless it means to clear one.
pub const PORTSC_RW1C_MASK: u32 = 0x00FE_0002;

/// What the driver reads from a PORTSC value.
pub open spec fn status_of(v: u32) -> PortStatus {
    PortStatus {
        connected: v & PORTSC_CCS != 0,
        enabled: v & PORTSC_PED != 0,
        reset_changed: v & PORTSC_PRC != 0,
        speed: ((v >> 10u32) & 0xf) as u8,
    }
}

/// The value written to start a port reset.
pub open spec fn port_reset_value(v: u32) -> u32 {
    ((v & !PORTSC_RW1C_MASK) & !PORTSC_LWS) | PORTSC_PR | PORTSC_CSC
}

/// The value written to acknowledge a finished reset.
pub open spec fn clear_reset_change_value(v: u32) -> u32 {
    (v & !PORTSC_RW1C_MASK) | PORTSC_PRC
}

/// The PORTSC value that reads as `st`, with no other bit set.
pub open spec fn portsc_of(st: PortStatus) -> u32 {
    (if st.connected { PORTSC_CCS } else { 0 }) | (if st.enabled { PORTSC_PED } else { 0 })
        | (if st.reset_changed { PORTSC_PRC } else { 0 }) | ((st.speed as u32) << 10u32)
}

/// A register whose Port Reset Change the hardware cleared after a write of 1 reads as before,
/// with no reset change.
pub proof fn lemma_prc_cleared(v: u32)
    ensures
        status_of(v & !PORTSC_PRC) == (PortStatus { reset_changed: false, ..status_of(v) }),
{
    assert((v & !0x0020_0000u32) & 1u32 == v & 1u32 && (v & !0x0020_0000u32) & 2u32 == v & 2u32
        && (v & !0x0020_0000u32) & 0x0020_0000u32 == 0 && ((v & !0x0020_0000u32) >> 10u32) & 0xf == (v >> 10u32) & 0xf) by (bit_vector);
}

/// The value to write back so that no write-1-to-clear bit is cleared by accident: those bits
/// are 0, every other bit is as read.
pub fn portsc_protect(v: u32) -> (r: u32)
    ensures
        r == v & !PORTSC_RW1C_MASK,
        r & PORTSC_RW1C_MASK == 0,
        r & !PORTSC_RW1C_MASK == v & !PORTSC_RW1C_MASK,
{
    let r = v & !PORTSC_RW1C_MASK;
    assert((v & !0x00FE_0002u32) & 0x00FE_0002u32 == 0 && (v & !0x00FE_0002u32) & !0x00FE_0002u32 == v & !0x00FE_0002u32) by (bit_vector);
    r
}

/// The value that starts a port reset: Port Reset set, Connect Status Change acknowledged
/// (written 1), the link-state write strobe clear, the other write-1-to-clear bits 0, and every
/// other bit as read.
pub fn portsc_port_reset(v: u32) -> (r: u32)
    ensures
        r == port_reset_value(v),
        r & PORTSC_PR != 0,
        r & PORTSC_CSC != 0,
        r & PORTSC_LWS == 0,
        r & (PORTSC_RW1C_MASK & !PORTSC_CSC) == 0,
        r & !(PORTSC_RW1C_MASK | PORTSC_PR | PORTSC_LWS) == v & !(PORTSC_RW1C_MASK | PORTSC_PR | PORTSC_LWS),
{
    let p = portsc_protect(v);
    let r = (p & !PORTSC_LWS) | PORTSC_PR | PORTSC_CSC;
    assert(p & 0x00FE_0002u32 == 0 && p & !0x00FE_0002u32 == v & !0x00FE_0002u32 ==> {
        let r = (p & !0x0001_0000u32) | 0x10u32 | 0x0002_0000u32;
        &&& r & 0x10u32 != 0
        &&& r & 0x0002_0000u32 != 0
        &&& r & 0x0001_0000u32 == 0
        &&& r & (0x00FE_0002u32 & !0x0002_0000u32) == 0
        &&& r & !(0x00FE_0002u32 | 0x10u32 | 0x0001_0000u32) == v & !(0x00FE_0002u32 | 0x10u32 | 0x0001_0000u32)
    }) by (bit_vector);
    r
}

/// The value that acknowledges a finished reset: Port Reset Change written 1, the other
/// write-1-to-clear bits 0, every other bit as read.
pub fn portsc_clear_reset_change(v: u32) -> (r: u32)
    ensures
        r == clear_reset_change_value(v),
        r & PORTSC_PRC != 0,
        r & (PORTSC_RW1C_MASK & !PORTSC_PRC) == 0,
        r & !PORTSC_RW1C_MASK == v & !PORTSC_RW1C_MASK,
{
    let p = portsc_protect(v);
    let r = p | PORTSC_PRC;
    assert(p & 0x00FE_0002u32 == 0 && p & !0x00FE_0002u32 == v & !0x00FE_0002u32 ==> {
        let r = p | 0x0020_0000u32;
        &&& r & 0x0020_0000u32 != 0
        &&& r & (0x00FE_0002u32 & !0x0020_0000u32) == 0
        &&& r & !0x00FE_0002u32 == v & !0x00FE_0002u32
    }) by (bit_vector);
    r
}

/// Whether a port reset is still in progress (the hardware clears Port Reset when done).
pub fn portsc_reset_in_progress(v: u32) -> (r: bool)
    ensures
        r == (v & PORTSC_PR != 0),
{
    v & PORTSC_PR != 0
}

/// What the driver reads from a PORTSC value: connect status, enabled, reset change, and the
/// port speed (bits 10..=13).
pub fn port_status_from_portsc(v: u32) -> (r: PortStatus)
    ensures
        r == status_of(v),
        r.connected == (v & PORTSC_CCS != 0),
        r.enabled == (v & PORTSC_PED != 0),
        r.reset_changed == (v & PORTSC_PRC != 0),
        r.speed == (v >> 10u32) & 0xf,
{
    let sp = (v >> 10u32) & 0xf;
    assert((v >> 10u32) & 0xf <= 0xf) by (bit_vector);
    PortStatus {
        connected: v & PORTSC_CCS != 0,
        enabled: v & PORTSC_PED != 0,
        reset_changed: v & PORTSC_PRC != 0,
        speed: sp as u8,
    }
}

/// The PORTSC value that reads as `st` (the speed takes four bits).
pub fn portsc_from_status(st: PortStatus) -> (r: u32)
    requires
        st.speed < 16,
    ensures
        r == portsc_of(st),
        status_of(r) == st,
{
    let c: u32 = if st.connected { PORTSC_CCS } else { 0 };
    let e: u32 = if st.enabled { PORTSC_PED } else { 0 };
    let p: u32 = if st.reset_changed { PORTSC_PRC } else { 0 };
    let sp = st.speed as u32;
    let r = c | e | p | (sp << 10u32);
    assert((c == 0 || c == 1) && (e == 0 || e == 2) && (p == 0 || p == 0x0020_0000) && sp < 16 ==> {
        let r = c | e | p | (sp << 10u32);
        &&& (r & 1u32 != 0) == (c == 1)
        &&& (r & 2u32 != 0) == (e == 2)
        &&& (r & 0x0020_0000u32 != 0) == (p == 0x0020_0000)
        &&& (r >> 10u32) & 0xf == sp
    }) by (bit_vector);
    r
}

} // verus!
