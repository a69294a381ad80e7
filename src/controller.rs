use vstd::prelude::*;

use crate::bus::{control_outcome, setup_of, setup_taken, BusError, XHCIBus};
use crate::class::{Report, USBHIDClass};
use crate::context::{flag_is_set, EndpointContext, SlotContext};
use crate::device::{
    control_completed_outcome, endpoints_configured_outcome, normal_completed_outcome, Device,
    DeviceError, DeviceState, DEVICE_DESC_LEN,
};
use crate::portsc::{
    clear_reset_change_value, lemma_prc_cleared, port_reset_value, port_status_from_portsc,
    portsc_clear_reset_change, portsc_from_status, portsc_of, portsc_port_reset, status_of, PORTSC_PRC,
};
use crate::setup::get_descriptor_spec;
use crate::endpoint::{addr_of_dci, dci_of, EndpointAddress, EndpointConfig, EndpointDirectedType, EndpointType};
use crate::ring::{push_model, EventRing, Ring};
use crate::setup::SetupRequest;
use crate::trb::{EventTrb, SetupStage, Trb, TrbPos, COMPLETION_SHORT_PACKET, COMPLETION_SUCCESS};

verus! {

/// The number of device slots the controller is configured for.
pub const MAX_DEVICE_SLOTS: usize = 8;

/// The number of port phases kept, one per possible port id.
pub const MAX_PORTS: usize = 256;

/// The size, in records, of the Command ring, of the Event ring and of each Transfer ring.
pub const RING_SIZE: usize = 32;

/// Where a port stands in bringing up the device attached to it.
#[derive(Clone, Copy, Debug, PartialEq, Eq, Structural)]
pub enum PortConfigPhase {
    NotConnected,
    WaitingAddressed,
    ResettingPort,
    EnablingSlot,
    AddressingDevice,
    InitializingDevice,
    ConfiguringEndpoints,
    Configured,
}

/// What the Port Status and Control register of a port reports.
#[derive(Clone, Copy, Debug, PartialEq, Eq, Structural)]
pub struct PortStatus {
    pub connected: bool,
    pub enabled: bool,
    pub reset_changed: bool,
    pub speed: u8,
}

/// Why the controller could not take in an event.
#[derive(Clone, Copy, Debug, PartialEq, Eq, Structural)]
pub enum ControllerError {
    /// A port id outside `1..=num_ports`.
    InvalidPort,
    /// A slot id outside `1..=MAX_DEVICE_SLOTS`.
    InvalidSlot,
    /// A slot that already has a device.
    SlotInUse,
    /// A slot with no device.
    NoDevice,
    /// The event does not fit the phase the port is in.
    PhaseMismatch,
    /// A transfer completed with neither Success nor Short Packet.
    TransferFailed,
    /// A completed control transfer has no Setup Stage on record.
    NoSetupStage,
    /// An event or command record the driver does not handle.
    Unsupported,
    /// The device refused a completion.
    Device(DeviceError),
}

/// One attached device: its enumeration state, its bus, its class drivers and the
/// configurations of its endpoints, and the port it hangs on.
pub struct DeviceEntry {
    pub device: Device,
    pub bus: XHCIBus,
    pub class_drivers: Vec<USBHIDClass>,
    pub ep_configs: Vec<EndpointConfig>,
    pub port_id: usize,
}

impl DeviceEntry {
    /// A device on `port_id` that has not started enumeration.
    pub fn new(use_64byte: bool, port_id: usize) -> (r: Self)
        ensures
            r.bus.wf(),
            r.bus.uses_64byte() == use_64byte,
            r.class_drivers@.len() == 0,
            r.ep_configs@.len() == 0,
            r.port_id == port_id,
            !r.device.has_device_desc_spec(),
    {
        DeviceEntry {
            device: Device::new(),
            bus: XHCIBus::new(use_64byte),
            class_drivers: Vec::new(),
            ep_configs: Vec::new(),
            port_id,
        }
    }
}

/// The devices by slot id - 1, and the device context base address array: which slots have
/// their output context registered with the hardware.
pub struct XHCIDeviceManager {
    entries: Vec<Option<DeviceEntry>>,
    dcbaa: Vec<bool>,
}

impl XHCIDeviceManager {
    pub closed spec fn slots(&self) -> Seq<Option<DeviceEntry>> {
        self.entries@
    }

    /// Whether each slot's output context is registered, by slot id - 1.
    pub closed spec fn dcbaa_spec(&self) -> Seq<bool> {
        self.dcbaa@
    }

    pub open spec fn wf(&self) -> bool {
        &&& self.slots().len() == MAX_DEVICE_SLOTS
        &&& self.dcbaa_spec().len() == MAX_DEVICE_SLOTS
        &&& forall|i: int| 0 <= i < MAX_DEVICE_SLOTS ==> (#[trigger] self.slots()[i]).is_some() ==> self.slots()[i].unwrap().bus.wf()
    }

    /// A manager with every slot free.
    pub fn new() -> (r: Self)
        ensures
            r.wf(),
            forall|i: int| 0 <= i < MAX_DEVICE_SLOTS ==> (#[trigger] r.slots()[i]).is_none(),
            forall|i: int| 0 <= i < MAX_DEVICE_SLOTS ==> !(#[trigger] r.dcbaa_spec()[i]),
    {
        let mut entries: Vec<Option<DeviceEntry>> = Vec::new();
        let mut dcbaa: Vec<bool> = Vec::new();
        let mut i: usize = 0;
        while i < MAX_DEVICE_SLOTS
            invariant
                i <= MAX_DEVICE_SLOTS,
                entries@.len() == i,
                dcbaa@.len() == i,
                forall|j: int| 0 <= j < i ==> (#[trigger] entries@[j]).is_none(),
                forall|j: int| 0 <= j < i ==> !(#[trigger] dcbaa@[j]),
            decreases MAX_DEVICE_SLOTS - i,
        {
            entries.push(None);
            dcbaa.push(false);
            i = i + 1;
        }
        XHCIDeviceManager { entries, dcbaa }
    }

    /// Whether slot `slot_id` has a device.
    pub fn has_entry(&self, slot_id: usize) -> (r: bool)
        requires
            self.wf(),
        ensures
            r == (1 <= slot_id <= MAX_DEVICE_SLOTS && self.slots()[slot_id - 1].is_some()),
    {
        1 <= slot_id && slot_id <= MAX_DEVICE_SLOTS && self.entries[slot_id - 1].is_some()
    }

    /// Puts a new device for `port_id` in slot `slot_id`.
    pub fn alloc_entry(&mut self, slot_id: usize, use_64byte: bool, port_id: usize) -> (r: Result<(), ControllerError>)
        requires
            old(self).wf(),
        ensures
            final(self).wf(),
            !(1 <= slot_id <= MAX_DEVICE_SLOTS) ==> r == Err::<(), ControllerError>(ControllerError::InvalidSlot) && final(self).slots() == old(self).slots(),
            1 <= slot_id <= MAX_DEVICE_SLOTS && old(self).slots()[slot_id - 1].is_some() ==> r == Err::<(), ControllerError>(ControllerError::SlotInUse) && final(self).slots() == old(self).slots(),
            1 <= slot_id <= MAX_DEVICE_SLOTS && old(self).slots()[slot_id - 1].is_none() ==> {
                &&& r.is_ok()
                &&& final(self).slots()[slot_id - 1].is_some()
                &&& final(self).slots()[slot_id - 1].unwrap().port_id == port_id
                &&& final(self).slots()[slot_id - 1].unwrap().class_drivers@.len() == 0
                &&& forall|i: int| 0 <= i < MAX_DEVICE_SLOTS && i != slot_id - 1 ==> #[trigger] final(self).slots()[i] == old(self).slots()[i]
                &&& final(self).dcbaa_spec() == old(self).dcbaa_spec().update(slot_id - 1, true)
            },
    {
        if slot_id < 1 || slot_id > MAX_DEVICE_SLOTS {
            return Err(ControllerError::InvalidSlot);
        }
        if self.entries[slot_id - 1].is_some() {
            return Err(ControllerError::SlotInUse);
        }
        self.entries.set(slot_id - 1, Some(DeviceEntry::new(use_64byte, port_id)));
        self.dcbaa.set(slot_id - 1, true);
        Ok(())
    }

    /// Takes the device out of slot `slot_id`, leaving the slot free.
    fn take_entry(&mut self, slot_id: usize) -> (r: Option<DeviceEntry>)
        requires
            old(self).wf(),
            1 <= slot_id <= MAX_DEVICE_SLOTS,
        ensures
            final(self).wf(),
            r == old(self).slots()[slot_id - 1],
            final(self).slots() == old(self).slots().update(slot_id - 1, None),
            final(self).dcbaa_spec() == old(self).dcbaa_spec(),
    {
        let mut e: Option<DeviceEntry> = None;
        std::mem::swap(&mut e, &mut self.entries[slot_id - 1]);
        assert(self.slots() =~= old(self).slots().update(slot_id - 1, None));
        e
    }

    /// Puts a device back in slot `slot_id`.
    fn put_entry(&mut self, slot_id: usize, e: DeviceEntry)
        requires
            old(self).wf(),
            1 <= slot_id <= MAX_DEVICE_SLOTS,
            e.bus.wf(),
        ensures
            final(self).wf(),
            final(self).slots() == old(self).slots().update(slot_id - 1, Some(e)),
            final(self).dcbaa_spec() == old(self).dcbaa_spec(),
    {
        self.entries.set(slot_id - 1, Some(e));
    }
}

/// The max packet size of the default control endpoint for a port speed: Super Speed 512,
/// High Speed 64, otherwise 8.
pub open spec fn ep0_max_packet_size(speed: u8) -> u16 {
    if speed == 4 { 512 } else if speed == 3 { 64 } else { 8 }
}

/// The position of the highest set bit of `v` (0 for 0 and 1).
pub open spec fn msb(v: u8) -> u8 {
    if v >= 128 { 7 } else if v >= 64 { 6 } else if v >= 32 { 5 } else if v >= 16 { 4 } else if v >= 8 { 3 } else if v >= 4 { 2 } else if v >= 2 { 1 } else { 0 }
}

/// The endpoint-context interval for an endpoint's `bInterval` at a port speed. Full, Low and
/// High Speed take an exponent: `bInterval + 2` for isochronous endpoints, else the position of
/// the highest set bit plus 3. Other speeds take `bInterval - 1` (0 stays 0).
pub open spec fn interval_for(speed: u8, ep_type: EndpointType, interval: u8) -> u8 {
    if speed == 1 || speed == 2 || speed == 3 {
        if ep_type == EndpointType::Isochronous {
            if interval <= 253 { (interval + 2) as u8 } else { 255 }
        } else {
            (msb(interval) + 3) as u8
        }
    } else {
        if interval == 0 { 0 } else { (interval - 1) as u8 }
    }
}

fn msb_exec(v: u8) -> (r: u8)
    ensures
        r == msb(v),
{
    if v >= 128 { 7 } else if v >= 64 { 6 } else if v >= 32 { 5 } else if v >= 16 { 4 } else if v >= 8 { 3 } else if v >= 4 { 2 } else if v >= 2 { 1 } else { 0 }
}

/// The endpoint-context interval for an endpoint, as `interval_for` says.
pub fn convert_interval(speed: u8, ep_type: EndpointType, interval: u8) -> (r: u8)
    ensures
        r == interval_for(speed, ep_type, interval),
{
    if speed == 1 || speed == 2 || speed == 3 {
        if ep_type == EndpointType::Isochronous {
            if interval <= 253 { interval + 2 } else { 255 }
        } else {
            msb_exec(interval) + 3
        }
    } else {
        if interval == 0 { 0 } else { interval - 1 }
    }
}

/// The xHCI host controller: the port registers it reads, the phase of each port, the Command
/// and Event rings, the attached devices, and the reports waiting for their listeners.
pub struct Controller {
    ports: Vec<u32>,
    portsc_writes: Vec<(usize, u32)>,
    port_cfg_phase: Vec<PortConfigPhase>,
    addressing_port: usize,
    cmd_ring: Ring,
    ev_ring: EventRing,
    dev_mgr: XHCIDeviceManager,
    use_64byte_context: bool,
    cmd_doorbells: Vec<u8>,
    port_resets: Vec<usize>,
    reports: Vec<Report>,
    running: bool,
}

impl Controller {
    /// What each port's status register reports, by port id - 1.
    pub closed spec fn ports_spec(&self) -> Seq<PortStatus> {
        self.ports@.map_values(|v: u32| status_of(v))
    }

    /// The raw PORTSC value of each port, by port id - 1.
    pub closed spec fn portsc_spec(&self) -> Seq<u32> {
        self.ports@
    }

    /// The values written to PORTSC registers (port id and value), oldest first.
    pub closed spec fn portsc_writes_spec(&self) -> Seq<(usize, u32)> {
        self.portsc_writes@
    }

    /// The phase of each port, by port id - 1.
    pub closed spec fn phases(&self) -> Seq<PortConfigPhase> {
        self.port_cfg_phase@
    }

    /// The port that is being reset or addressed, or 0 for none.
    pub closed spec fn addressing(&self) -> int {
        self.addressing_port as int
    }

    pub closed spec fn cmd_ring_spec(&self) -> Ring {
        self.cmd_ring
    }

    pub closed spec fn ev_ring_spec(&self) -> EventRing {
        self.ev_ring
    }

    pub closed spec fn devices(&self) -> XHCIDeviceManager {
        self.dev_mgr
    }

    /// The port ids whose reset bit was set, oldest first.
    pub closed spec fn resets(&self) -> Seq<usize> {
        self.port_resets@
    }

    /// The number of times the command doorbell was rung.
    pub closed spec fn cmd_doorbell_count(&self) -> int {
        self.cmd_doorbells@.len() as int
    }

    pub closed spec fn reports_spec(&self) -> Seq<Report> {
        self.reports@
    }

    pub open spec fn num_ports_spec(&self) -> int {
        self.ports_spec().len() as int
    }

    pub open spec fn wf(&self) -> bool {
        &&& 1 <= self.num_ports_spec() < MAX_PORTS
        &&& self.phases().len() == MAX_PORTS
        &&& 0 <= self.addressing() <= self.num_ports_spec()
        &&& self.cmd_ring_spec().wf()
        &&& self.cmd_ring_spec().is_init_spec()
        &&& self.ev_ring_spec().wf()
        &&& self.ev_ring_spec()@.segs.len() > 0
        &&& self.devices().wf()
    }

    /// A controller brought up for `num_ports` ports: a Command ring and an Event ring of
    /// `RING_SIZE` records, the interrupter enabled, every port not connected, no device.
    pub fn new(num_ports: usize, use_64byte_context: bool) -> (r: Self)
        requires
            1 <= num_ports < MAX_PORTS,
        ensures
            r.wf(),
            r.num_ports_spec() == num_ports,
            forall|i: int| 0 <= i < num_ports ==> #[trigger] r.ports_spec()[i] == (PortStatus { connected: false, enabled: false, reset_changed: false, speed: 0 }),
            forall|i: int| 0 <= i < MAX_PORTS ==> #[trigger] r.phases()[i] == PortConfigPhase::NotConnected,
            r.addressing() == 0,
            r.cmd_ring_spec()@.segs.len() == 1,
            r.cmd_ring_spec()@.seg == 0 && r.cmd_ring_spec()@.slot == 0 && r.cmd_ring_spec()@.cycle,
            r.ev_ring_spec()@.segs.len() == 1,
            r.ev_ring_spec()@.segs[0].len() == RING_SIZE,
            r.ev_ring_spec()@.deq_seg == 0 && r.ev_ring_spec()@.deq_slot == 0 && r.ev_ring_spec()@.cycle,
            r.ev_ring_spec().interrupt_enabled_spec(),
            forall|i: int| 0 <= i < MAX_DEVICE_SLOTS ==> (#[trigger] r.devices().slots()[i]).is_none(),
            r.resets().len() == 0,
            r.portsc_writes_spec().len() == 0,
            r.reports_spec().len() == 0,
            !r.running_spec(),
    {
        let mut ports: Vec<u32> = Vec::new();
        let mut i: usize = 0;
        proof {
            assert(0u32 & 1u32 == 0 && 0u32 & 2u32 == 0 && 0u32 & 0x0020_0000u32 == 0 && (0u32 >> 10u32) & 0xf == 0) by (bit_vector);
        }
        while i < num_ports
            invariant
                i <= num_ports,
                ports@.len() == i,
                forall|j: int| 0 <= j < i ==> #[trigger] ports@[j] == 0u32,
            decreases num_ports - i,
        {
            ports.push(0u32);
            i = i + 1;
        }
        let mut phases: Vec<PortConfigPhase> = Vec::new();
        let mut j: usize = 0;
        while j < MAX_PORTS
            invariant
                j <= MAX_PORTS,
                phases@.len() == j,
                forall|k: int| 0 <= k < j ==> #[trigger] phases@[k] == PortConfigPhase::NotConnected,
            decreases MAX_PORTS - j,
        {
            phases.push(PortConfigPhase::NotConnected);
            j = j + 1;
        }
        let cmd_ring = Ring::new(RING_SIZE);
        let mut ev_ring = EventRing::new(RING_SIZE);
        ev_ring.enable_interrupt();
        Controller {
            ports,
            portsc_writes: Vec::new(),
            port_cfg_phase: phases,
            addressing_port: 0,
            cmd_ring,
            ev_ring,
            dev_mgr: XHCIDeviceManager::new(),
            use_64byte_context,
            cmd_doorbells: Vec::new(),
            port_resets: Vec::new(),
            reports: Vec::new(),
            running: false,
        }
    }

    pub closed spec fn running_spec(&self) -> bool {
        self.running
    }

    /// Sets run/stop: the controller starts processing its rings. The hardware leaves the
    /// halted state on its own; the caller waits for that.
    pub fn run(&mut self)
        requires
            old(self).wf(),
        ensures
            final(self).wf(),
            final(self).running_spec(),
            final(self).phases() == old(self).phases(),
            final(self).addressing() == old(self).addressing(),
            final(self).ports_spec() == old(self).ports_spec(),
            final(self).portsc_spec() == old(self).portsc_spec(),
            final(self).portsc_writes_spec() == old(self).portsc_writes_spec(),
            final(self).cmd_ring_spec() == old(self).cmd_ring_spec(),
            final(self).ev_ring_spec() == old(self).ev_ring_spec(),
            final(self).devices() == old(self).devices(),
    {
        self.running = true;
    }

    /// Whether run/stop is set.
    pub fn is_running(&self) -> (r: bool)
        ensures
            r == self.running_spec(),
    {
        self.running
    }

    /// The number of ports; valid port ids are `1..=num_ports`.
    pub fn num_ports(&self) -> (r: usize)
        ensures
            r == self.num_ports_spec(),
    {
        self.ports.len()
    }

    /// Stands for the hardware updating the status register of port `port_id`.
    pub fn set_port_status(&mut self, port_id: usize, status: PortStatus)
        requires
            old(self).wf(),
            1 <= port_id <= old(self).num_ports_spec(),
            status.speed < 16,
        ensures
            final(self).wf(),
            final(self).ports_spec() == old(self).ports_spec().update(port_id - 1, status),
            final(self).portsc_spec() == old(self).portsc_spec().update(port_id - 1, portsc_of(status)),
            final(self).portsc_writes_spec() == old(self).portsc_writes_spec(),
            final(self).phases() == old(self).phases(),
            final(self).addressing() == old(self).addressing(),
            final(self).cmd_ring_spec() == old(self).cmd_ring_spec(),
            final(self).ev_ring_spec() == old(self).ev_ring_spec(),
            final(self).devices() == old(self).devices(),
            final(self).resets() == old(self).resets(),
            final(self).reports_spec() == old(self).reports_spec(),
    {
        let v = portsc_from_status(status);
        self.set_portsc(port_id, v);
    }

    /// Stands for the hardware: the PORTSC register of port `port_id` now reads `v`.
    pub fn set_portsc(&mut self, port_id: usize, v: u32)
        requires
            old(self).wf(),
            1 <= port_id <= old(self).num_ports_spec(),
        ensures
            final(self).wf(),
            final(self).ports_spec() == old(self).ports_spec().update(port_id - 1, status_of(v)),
            final(self).portsc_spec() == old(self).portsc_spec().update(port_id - 1, v),
            final(self).portsc_writes_spec() == old(self).portsc_writes_spec(),
            final(self).phases() == old(self).phases(),
            final(self).addressing() == old(self).addressing(),
            final(self).cmd_ring_spec() == old(self).cmd_ring_spec(),
            final(self).ev_ring_spec() == old(self).ev_ring_spec(),
            final(self).devices() == old(self).devices(),
            final(self).resets() == old(self).resets(),
            final(self).reports_spec() == old(self).reports_spec(),
    {
        self.ports.set(port_id - 1, v);
        assert(self.ports_spec() =~= old(self).ports_spec().update(port_id - 1, status_of(v)));
    }

    /// What the status register of port `port_id` reports.
    pub fn portsc_at(&self, port_id: usize) -> (r: PortStatus)
        requires
            self.wf(),
            1 <= port_id <= self.num_ports_spec(),
        ensures
            r == self.ports_spec()[port_id - 1],
    {
        port_status_from_portsc(self.ports[port_id - 1])
    }

    /// The values written to PORTSC registers, oldest first.
    pub fn portsc_writes(&self) -> (r: &Vec<(usize, u32)>)
        ensures
            r@ == self.portsc_writes_spec(),
    {
        &self.portsc_writes
    }

    /// Stands for the hardware writing an event into the Event ring.
    pub fn write_event(&mut self, seg: usize, slot: usize, blk: crate::trb::EventBlock)
        requires
            old(self).wf(),
            seg < old(self).ev_ring_spec()@.segs.len(),
            slot < old(self).ev_ring_spec()@.segs[seg as int].len(),
        ensures
            final(self).wf(),
            same_state(*old(self), *final(self)),
            final(self).ev_ring_spec()@ == (crate::ring::EventRingModel {
                segs: old(self).ev_ring_spec()@.segs.update(seg as int, old(self).ev_ring_spec()@.segs[seg as int].update(slot as int, blk)),
                ..old(self).ev_ring_spec()@
            }),
    {
        self.ev_ring.write_slot(seg, slot, blk);
    }

    /// The phase of port `port_id`.
    pub fn port_phase(&self, port_id: usize) -> (r: PortConfigPhase)
        requires
            self.wf(),
            1 <= port_id <= MAX_PORTS,
        ensures
            r == self.phases()[port_id - 1],
    {
        self.port_cfg_phase[port_id - 1]
    }

    /// The Event ring.
    pub fn event_ring(&self) -> (r: &EventRing)
        ensures
            *r == self.ev_ring_spec(),
    {
        &self.ev_ring
    }

    /// The cycle bit the driver expects on the next event.
    pub fn event_ring_cycle(&self) -> (r: bool)
        ensures
            r == self.ev_ring_spec()@.cycle,
    {
        self.ev_ring.expected_cycle()
    }

    /// The device in slot `slot_id`, if any.
    pub fn entry_at(&self, slot_id: usize) -> (r: Option<&DeviceEntry>)
        requires
            self.wf(),
        ensures
            1 <= slot_id <= MAX_DEVICE_SLOTS ==> r == match self.devices().slots()[slot_id - 1] {
                Some(e) => Some(&e),
                None => None,
            },
            !(1 <= slot_id <= MAX_DEVICE_SLOTS) ==> r.is_none(),
    {
        if slot_id < 1 || slot_id > MAX_DEVICE_SLOTS {
            return None;
        }
        match &self.dev_mgr.entries[slot_id - 1] {
            Some(e) => Some(e),
            None => None,
        }
    }

    /// The port being reset or addressed, 0 for none.
    pub fn addressing_port(&self) -> (r: usize)
        ensures
            r == self.addressing(),
    {
        self.addressing_port
    }

    /// Hands over the reports queued for the listeners, oldest first.
    pub fn take_reports(&mut self) -> (r: Vec<Report>)
        requires
            old(self).wf(),
        ensures
            final(self).wf(),
            r@ == old(self).reports_spec(),
            final(self).reports_spec().len() == 0,
            final(self).phases() == old(self).phases(),
            final(self).addressing() == old(self).addressing(),
    {
        let mut r: Vec<Report> = Vec::new();
        std::mem::swap(&mut r, &mut self.reports);
        r
    }

    /// The port ids whose reset bit was set, oldest first.
    pub fn port_resets(&self) -> (r: &Vec<usize>)
        ensures
            r@ == self.resets(),
    {
        &self.port_resets
    }

    /// The record of the Command ring at `pos`.
    pub fn command_at(&self, pos: TrbPos) -> (r: Option<Trb>)
        ensures
            r == (match self.cmd_ring_spec().block_at_spec(pos) {
                Some(b) => Some(b.trb),
                None => None,
            }),
    {
        match self.cmd_ring.block_at(pos) {
            Some(b) => Some(b.trb),
            None => None,
        }
    }

    /// The slot `slot_id` of the device manager has a device whose state is Configured.
    pub fn device_configured(&self, slot_id: usize) -> (r: bool)
        requires
            self.wf(),
        ensures
            r == (1 <= slot_id <= MAX_DEVICE_SLOTS && self.devices().slots()[slot_id - 1].is_some()
                && self.devices().slots()[slot_id - 1].unwrap().device.state == DeviceState::Configured),
    {
        if slot_id < 1 || slot_id > MAX_DEVICE_SLOTS {
            return false;
        }
        match &self.dev_mgr.entries[slot_id - 1] {
            Some(e) => e.device.is_configured(),
            None => false,
        }
    }

    /// Pushes a command and rings the command doorbell; returns where the command went.
    fn push_cmd(&mut self, trb: Trb) -> (r: TrbPos)
        requires
            old(self).wf(),
        ensures
            final(self).wf(),
            final(self).cmd_ring_spec()@ == push_model(old(self).cmd_ring_spec()@, trb),
            r.seg == old(self).cmd_ring_spec()@.seg && r.slot == old(self).cmd_ring_spec()@.slot,
            final(self).cmd_doorbell_count() == old(self).cmd_doorbell_count() + 1,
            final(self).ports_spec() == old(self).ports_spec(),
            final(self).portsc_spec() == old(self).portsc_spec(),
            final(self).portsc_writes_spec() == old(self).portsc_writes_spec(),
            final(self).phases() == old(self).phases(),
            final(self).addressing() == old(self).addressing(),
            final(self).ev_ring_spec() == old(self).ev_ring_spec(),
            final(self).devices() == old(self).devices(),
            final(self).resets() == old(self).resets(),
            final(self).reports_spec() == old(self).reports_spec(),
            final(self).running_spec() == old(self).running_spec(),
    {
        let pos = self.cmd_ring.push(trb);
        self.cmd_doorbells.push(0);
        pos
    }

    /// Resets a connected port, unless another port is being addressed: then the port waits
    /// in `WaitingAddressed`. A port that is not connected is left as it is.
    fn reset_port(&mut self, port_id: usize) -> (r: Result<(), ControllerError>)
        requires
            old(self).wf(),
            1 <= port_id <= old(self).num_ports_spec(),
        ensures
            final(self).wf(),
            final(self).ports_spec() == old(self).ports_spec(),
            final(self).portsc_spec() == old(self).portsc_spec(),
            final(self).cmd_ring_spec() == old(self).cmd_ring_spec(),
            final(self).ev_ring_spec() == old(self).ev_ring_spec(),
            final(self).devices() == old(self).devices(),
            final(self).reports_spec() == old(self).reports_spec(),
            reset_port_outcome(*old(self), *final(self), port_id as int, r),
    {
        if !self.portsc_at(port_id).connected {
            return Ok(());
        }
        if self.addressing_port != 0 {
            self.port_cfg_phase.set(port_id - 1, PortConfigPhase::WaitingAddressed);
            Ok(())
        } else {
            let ph = self.port_cfg_phase[port_id - 1];
            if ph != PortConfigPhase::NotConnected && ph != PortConfigPhase::WaitingAddressed {
                return Err(ControllerError::PhaseMismatch);
            }
            self.addressing_port = port_id;
            self.port_cfg_phase.set(port_id - 1, PortConfigPhase::ResettingPort);
            let v = portsc_port_reset(self.ports[port_id - 1]);
            self.portsc_writes.push((port_id, v));
            self.port_resets.push(port_id);
            Ok(())
        }
    }

    /// Once port reset has finished (the port is enabled and reports a reset change),
    /// acknowledges the change and asks for a device slot; before that it does nothing.
    fn enable_slot(&mut self, port_id: usize)
        requires
            old(self).wf(),
            1 <= port_id <= old(self).num_ports_spec(),
        ensures
            final(self).wf(),
            final(self).addressing() == old(self).addressing(),
            final(self).ev_ring_spec() == old(self).ev_ring_spec(),
            final(self).devices() == old(self).devices(),
            final(self).resets() == old(self).resets(),
            final(self).reports_spec() == old(self).reports_spec(),
            enable_slot_outcome(*old(self), *final(self), port_id as int),
    {
        let st = self.portsc_at(port_id);
        if !st.enabled || !st.reset_changed {
            return;
        }
        let raw = self.ports[port_id - 1];
        let v = portsc_clear_reset_change(raw);
        self.portsc_writes.push((port_id, v));
        proof {
            lemma_prc_cleared(raw);
        }
        self.ports.set(port_id - 1, raw & !PORTSC_PRC);
        assert(self.ports_spec() =~= old(self).ports_spec().update(port_id - 1, PortStatus { reset_changed: false, ..st }));
        self.port_cfg_phase.set(port_id - 1, PortConfigPhase::EnablingSlot);
        let _ = self.push_cmd(Trb::EnableSlot);
    }

    /// A port's status changed: a port not connected before is reset; a port being reset
    /// goes on to ask for a slot. In any other phase the event does not fit.
    pub fn on_port_status_change(&mut self, port_id: usize) -> (r: Result<(), ControllerError>)
        requires
            old(self).wf(),
        ensures
            final(self).wf(),
            phases_step(old(self).phases(), final(self).phases()),
            final(self).ev_ring_spec() == old(self).ev_ring_spec(),
            port_status_change_outcome(*old(self), *final(self), port_id as int, r),
    {
        if port_id < 1 || port_id > self.ports.len() {
            return Err(ControllerError::InvalidPort);
        }
        let ph = self.port_cfg_phase[port_id - 1];
        if ph == PortConfigPhase::NotConnected {
            self.reset_port(port_id)
        } else if ph == PortConfigPhase::ResettingPort {
            self.enable_slot(port_id);
            Ok(())
        } else {
            Err(ControllerError::PhaseMismatch)
        }
    }

    /// Allocates the device of slot `slot_id` on port `port_id`, builds its input context (slot
    /// context with the port and its speed, default control endpoint with the max packet size
    /// for that speed and the start of its new Transfer ring) and sends Address Device.
    fn address_device(&mut self, port_id: usize, slot_id: usize) -> (r: Result<(), ControllerError>)
        requires
            old(self).wf(),
            1 <= port_id <= old(self).num_ports_spec(),
        ensures
            final(self).wf(),
            final(self).ev_ring_spec() == old(self).ev_ring_spec(),
            address_device_outcome(*old(self), *final(self), port_id as int, slot_id as int, r),
    {
        let speed = self.portsc_at(port_id).speed;
        let mps: u16 = if speed == 4 { 512 } else if speed == 3 { 64 } else { 8 };
        if slot_id < 1 || slot_id > MAX_DEVICE_SLOTS {
            return Err(ControllerError::InvalidSlot);
        }
        if self.dev_mgr.has_entry(slot_id) {
            return Err(ControllerError::SlotInUse);
        }
        let _ = self.dev_mgr.alloc_entry(slot_id, self.use_64byte_context, port_id);
        let mut e = match self.dev_mgr.take_entry(slot_id) {
            Some(e) => e,
            None => {
                return Err(ControllerError::NoDevice);
            },
        };
        let ctl = EndpointAddress::control();
        let tr = match e.bus.alloc_tr(ctl, RING_SIZE) {
            Ok(p) => p,
            Err(_) => TrbPos { seg: 0, slot: 0 },
        };
        e.bus.reset_input_ctx();
        proof {
            assert forall|j: u32| j < 32 implies !(#[trigger] crate::context::flag_is_set(0u32, j)) by {
                assert(j < 32 ==> (0u32 >> j) & 1 == 0) by (bit_vector);
            }
        }
        e.bus.use_input_slot_ctx(SlotContext { route_string: 0, root_hub_port_number: port_id as u8, context_entries: 1, speed });
        let ep0 = EndpointContext {
            endpoint_type: EndpointDirectedType::Control,
            max_packet_size: mps,
            max_burst_size: 0,
            interval: 0,
            average_trb_length: 0,
            tr_dequeue_pointer: tr,
            dequeue_cycle_state: true,
            max_primary_streams: 0,
            mult: 0,
            error_count: 3,
        };
        let _ = e.bus.use_input_ep_ctx(ctl, ep0);
        self.dev_mgr.put_entry(slot_id, e);
        self.port_cfg_phase.set(port_id - 1, PortConfigPhase::AddressingDevice);
        let _ = self.push_cmd(Trb::AddressDevice { slot_id: slot_id as u8 });
        Ok(())
    }

    pub open spec fn first_waiting(&self) -> int {
        first_waiting_from(self.phases(), self.num_ports_spec(), 1)
    }

    /// The first port waiting for the addressing slot, or 0.
    fn find_waiting(&self) -> (r: usize)
        requires
            self.wf(),
        ensures
            r == self.first_waiting(),
            r == 0 || (1 <= r <= self.num_ports_spec() && self.phases()[r - 1] == PortConfigPhase::WaitingAddressed),
    {
        let n = self.ports.len();
        let mut i: usize = 1;
        while i <= n
            invariant
                n == self.num_ports_spec(),
                self.wf(),
                1 <= i <= n + 1,
                first_waiting_from(self.phases(), n as int, 1) == first_waiting_from(self.phases(), n as int, i as int),
            decreases n + 1 - i,
        {
            if self.port_cfg_phase[i - 1] == PortConfigPhase::WaitingAddressed {
                return i;
            }
            i = i + 1;
        }
        0
    }

    /// Address Device completed for the device on `port_id`: the addressing slot is released
    /// (the first waiting port, if any, is reset at once) and enumeration of the device starts.
    fn on_address_device_complete(&mut self, port_id: usize, slot_id: usize) -> (r: Result<(), ControllerError>)
        requires
            old(self).wf(),
            1 <= port_id <= old(self).num_ports_spec(),
            1 <= slot_id <= MAX_DEVICE_SLOTS,
            old(self).devices().slots()[slot_id - 1].is_some(),
        ensures
            final(self).wf(),
            final(self).ev_ring_spec() == old(self).ev_ring_spec(),
            final(self).cmd_ring_spec() == old(self).cmd_ring_spec(),
            final(self).ports_spec() == old(self).ports_spec(),
            final(self).portsc_spec() == old(self).portsc_spec(),
            final(self).cmd_doorbell_count() == old(self).cmd_doorbell_count(),
            final(self).reports_spec() == old(self).reports_spec(),
            final(self).running_spec() == old(self).running_spec(),
            other_slots_same(*old(self), *final(self), slot_id as int),
            start_init_outcome(old(self).devices().slots()[slot_id - 1].unwrap(), final(self).devices().slots()[slot_id - 1].unwrap(), r),
            old(self).first_waiting() == 0 || (1 <= old(self).first_waiting() <= old(self).num_ports_spec()
                && old(self).phases()[old(self).first_waiting() - 1] == PortConfigPhase::WaitingAddressed),
            ({
                let w = old(self).first_waiting();
                let base = old(self).phases();
                if w != 0 && old(self).ports_spec()[w - 1].connected {
                    &&& final(self).addressing() == w
                    &&& final(self).phases() == base.update(w - 1, PortConfigPhase::ResettingPort).update(port_id - 1, PortConfigPhase::InitializingDevice)
                    &&& final(self).resets() == old(self).resets().push(w as usize)
                    &&& final(self).portsc_writes_spec() == old(self).portsc_writes_spec().push((w as usize, port_reset_value(old(self).portsc_spec()[w - 1])))
                } else {
                    &&& final(self).addressing() == 0
                    &&& final(self).phases() == base.update(port_id - 1, PortConfigPhase::InitializingDevice)
                    &&& final(self).resets() == old(self).resets()
                    &&& final(self).portsc_writes_spec() == old(self).portsc_writes_spec()
                }
            }),
    {
        self.addressing_port = 0;
        let w = self.find_waiting();
        if w != 0 {
            let _ = self.reset_port(w);
        }
        self.initialize_device(port_id, slot_id)
    }

    /// Starts enumeration of the device of slot `slot_id`; the port goes to `InitializingDevice`.
    fn initialize_device(&mut self, port_id: usize, slot_id: usize) -> (r: Result<(), ControllerError>)
        requires
            old(self).wf(),
            1 <= port_id <= old(self).num_ports_spec(),
            1 <= slot_id <= MAX_DEVICE_SLOTS,
            old(self).devices().slots()[slot_id - 1].is_some(),
        ensures
            final(self).wf(),
            final(self).phases() == old(self).phases().update(port_id - 1, PortConfigPhase::InitializingDevice),
            final(self).addressing() == old(self).addressing(),
            final(self).ports_spec() == old(self).ports_spec(),
            final(self).portsc_spec() == old(self).portsc_spec(),
            final(self).portsc_writes_spec() == old(self).portsc_writes_spec(),
            final(self).ev_ring_spec() == old(self).ev_ring_spec(),
            final(self).cmd_ring_spec() == old(self).cmd_ring_spec(),
            final(self).resets() == old(self).resets(),
            final(self).cmd_doorbell_count() == old(self).cmd_doorbell_count(),
            final(self).reports_spec() == old(self).reports_spec(),
            final(self).running_spec() == old(self).running_spec(),
            other_slots_same(*old(self), *final(self), slot_id as int),
            start_init_outcome(old(self).devices().slots()[slot_id - 1].unwrap(), final(self).devices().slots()[slot_id - 1].unwrap(), r),
    {
        let mut e = match self.dev_mgr.take_entry(slot_id) {
            Some(e) => e,
            None => {
                return Err(ControllerError::NoDevice);
            },
        };
        let res = e.device.start_init(&mut e.bus);
        self.dev_mgr.put_entry(slot_id, e);
        self.port_cfg_phase.set(port_id - 1, PortConfigPhase::InitializingDevice);
        match res {
            Ok(()) => Ok(()),
            Err(b) => Err(ControllerError::Device(DeviceError::Bus(b))),
        }
    }

    /// Configure Endpoint completed: the class drivers are told, and the port is `Configured`.
    fn complete_configuration(&mut self, port_id: usize, slot_id: usize) -> (r: Result<(), ControllerError>)
        requires
            old(self).wf(),
            1 <= port_id <= old(self).num_ports_spec(),
            1 <= slot_id <= MAX_DEVICE_SLOTS,
            old(self).devices().slots()[slot_id - 1].is_some(),
        ensures
            final(self).wf(),
            final(self).phases() == old(self).phases().update(port_id - 1, PortConfigPhase::Configured),
            final(self).addressing() == old(self).addressing(),
            final(self).ports_spec() == old(self).ports_spec(),
            final(self).portsc_spec() == old(self).portsc_spec(),
            final(self).portsc_writes_spec() == old(self).portsc_writes_spec(),
            final(self).ev_ring_spec() == old(self).ev_ring_spec(),
            final(self).cmd_ring_spec() == old(self).cmd_ring_spec(),
            final(self).resets() == old(self).resets(),
            final(self).cmd_doorbell_count() == old(self).cmd_doorbell_count(),
            final(self).reports_spec() == old(self).reports_spec(),
            final(self).running_spec() == old(self).running_spec(),
            other_slots_same(*old(self), *final(self), slot_id as int),
            configured_outcome(old(self).devices().slots()[slot_id - 1].unwrap(), final(self).devices().slots()[slot_id - 1].unwrap(), r),
    {
        let mut e = match self.dev_mgr.take_entry(slot_id) {
            Some(e) => e,
            None => {
                return Err(ControllerError::NoDevice);
            },
        };
        let res = e.device.on_endpoints_configured(&mut e.bus, &mut e.class_drivers);
        self.dev_mgr.put_entry(slot_id, e);
        self.port_cfg_phase.set(port_id - 1, PortConfigPhase::Configured);
        match res {
            Ok(()) => Ok(()),
            Err(d) => Err(ControllerError::Device(d)),
        }
    }

    /// A command completed. Enable Slot: the addressing port's device gets slot `slot_id` and is
    /// addressed. Address Device: the addressing slot is released and enumeration starts.
    /// Configure Endpoint: the configuration is complete. The port must be in the phase that
    /// awaits that command.
    pub fn on_cmd_complete(&mut self, slot_id: u8, command: TrbPos) -> (r: Result<(), ControllerError>)
        requires
            old(self).wf(),
        ensures
            final(self).wf(),
            phases_step(old(self).phases(), final(self).phases()),
            final(self).ev_ring_spec() == old(self).ev_ring_spec(),
            cmd_complete_outcome(*old(self), *final(self), slot_id, command, r),
    {
        let issuer = match self.cmd_ring.block_at(command) {
            Some(b) => b.trb,
            None => {
                return Err(ControllerError::Unsupported);
            },
        };
        let s = slot_id as usize;
        match issuer {
            Trb::EnableSlot => {
                let a = self.addressing_port;
                if a == 0 || self.port_cfg_phase[a - 1] != PortConfigPhase::EnablingSlot {
                    return Err(ControllerError::PhaseMismatch);
                }
                let res = self.address_device(a, s);
                proof {
                    assert forall|i: int| 0 <= i < old(self).phases().len() implies #[trigger] phase_step(old(self).phases()[i], self.phases()[i]) by {
                        if i == a - 1 {
                        }
                    }
                }
                res
            },
            Trb::AddressDevice { .. } => {
                if s < 1 || s > MAX_DEVICE_SLOTS || !self.dev_mgr.has_entry(s) {
                    return Err(ControllerError::NoDevice);
                }
                let p = self.entry_port(s);
                if p != self.addressing_port || p < 1 || p > self.ports.len() || self.port_cfg_phase[p - 1] != PortConfigPhase::AddressingDevice {
                    return Err(ControllerError::PhaseMismatch);
                }
                let res = self.on_address_device_complete(p, s);
                proof {
                    let w = old(self).first_waiting();
                    assert forall|i: int| 0 <= i < old(self).phases().len() implies #[trigger] phase_step(old(self).phases()[i], self.phases()[i]) by {
                        if i == p - 1 {
                        } else if w != 0 && i == w - 1 {
                        }
                    }
                }
                res
            },
            Trb::ConfigureEndpoint { .. } => {
                if s < 1 || s > MAX_DEVICE_SLOTS || !self.dev_mgr.has_entry(s) {
                    return Err(ControllerError::NoDevice);
                }
                let p = self.entry_port(s);
                if p < 1 || p > self.ports.len() || self.port_cfg_phase[p - 1] != PortConfigPhase::ConfiguringEndpoints {
                    return Err(ControllerError::PhaseMismatch);
                }
                let res = self.complete_configuration(p, s);
                proof {
                    assert forall|i: int| 0 <= i < old(self).phases().len() implies #[trigger] phase_step(old(self).phases()[i], self.phases()[i]) by {
                        if i == p - 1 {
                        }
                    }
                }
                res
            },
            _ => Err(ControllerError::Unsupported),
        }
    }

    /// The port of the device in slot `slot_id`.
    fn entry_port(&self, slot_id: usize) -> (r: usize)
        requires
            self.wf(),
            1 <= slot_id <= MAX_DEVICE_SLOTS,
            self.devices().slots()[slot_id - 1].is_some(),
        ensures
            r == self.devices().slots()[slot_id - 1].unwrap().port_id,
    {
        match &self.dev_mgr.entries[slot_id - 1] {
            Some(e) => e.port_id,
            None => 0,
        }
    }

    /// Marks every endpoint of `e` for configuration: the output slot context is copied into
    /// the input one with all 31 endpoint contexts in use, and each endpoint whose address gives
    /// a valid DCI gets a Transfer ring and an endpoint context (type and direction, max packet
    /// size, interval for the port speed).
    fn prepare_configure_endpoints(e: &mut DeviceEntry, speed: u8)
        requires
            old(e).bus.wf(),
        ensures
            configure_outcome(*old(e), *final(e), speed),
            final(e).bus.wf(),
            final(e).device == old(e).device,
            final(e).port_id == old(e).port_id,
            final(e).class_drivers@ == old(e).class_drivers@,
            final(e).ep_configs@ == old(e).ep_configs@,
            final(e).bus.input_slot() == (SlotContext { context_entries: 31, ..old(e).bus.output_slot() }),
    {
        let ghost ec = e.ep_configs@;
        e.bus.reset_input_ctx();
        e.bus.copy_slot_ctx();
        let out_slot = e.bus.input_slot_ctx();
        proof {
            assert forall|j: u32| j < 32 implies !(#[trigger] flag_is_set(0u32, j)) by {
                assert(j < 32 ==> (0u32 >> j) & 1 == 0) by (bit_vector);
            }
        }
        e.bus.use_input_slot_ctx(SlotContext { context_entries: 31, ..out_slot });
        let mut i: usize = 0;
        while i < e.ep_configs.len()
            invariant
                e.bus.wf(),
                i <= e.ep_configs@.len(),
                ec == old(e).ep_configs@,
                e.device == old(e).device,
                e.port_id == old(e).port_id,
                e.class_drivers@ == old(e).class_drivers@,
                e.ep_configs@ == ec,
                e.bus.input_slot() == (SlotContext { context_entries: 31, ..old(e).bus.output_slot() }),
                e.bus.map() == old(e).bus.map(),
                e.bus.doorbells() == old(e).bus.doorbells(),
                e.bus.output_slot() == old(e).bus.output_slot(),
                e.bus.output_endpoints() == old(e).bus.output_endpoints(),
                forall|j: u32| j < 32 ==> #[trigger] flag_is_set(e.bus.input_flags(), j)
                    == (j == 0 || exists|k: int| 0 <= k < i && cfg_valid(ec[k]) && cfg_dci(ec[k]) == j),
                forall|k: int| 0 <= k < i && cfg_valid(ec[k]) ==> (#[trigger] e.bus.rings()[cfg_dci(ec[k]) - 1]).is_init_spec(),
                forall|k: int| 0 <= k < i && cfg_valid(ec[k]) && last_with_dci(ec, k, i as int)
                    ==> #[trigger] e.bus.input_endpoints()[cfg_dci(ec[k]) - 1] == ep_ctx_for(ec[k], speed),
            decreases e.ep_configs@.len() - i,
        {
            let cfg = e.ep_configs[i];
            let ghost before = e.bus;
            match e.bus.alloc_tr(cfg.addr, RING_SIZE) {
                Ok(tr) => {
                    let ctx = EndpointContext {
                        endpoint_type: cfg.ep_type_with_dir(),
                        max_packet_size: cfg.max_packet_size,
                        max_burst_size: 0,
                        interval: convert_interval(speed, cfg.ep_type(), cfg.interval),
                        average_trb_length: 1,
                        tr_dequeue_pointer: tr,
                        dequeue_cycle_state: true,
                        max_primary_streams: 0,
                        mult: 0,
                        error_count: 3,
                    };
                    let ghost mid = e.bus;
                    let _ = e.bus.use_input_ep_ctx(cfg.addr, ctx);
                    proof {
                        let d = cfg_dci(cfg);
                        assert(ec[i as int] == cfg);
                        assert forall|j: u32| j < 32 implies #[trigger] flag_is_set(e.bus.input_flags(), j)
                            == (j == 0 || exists|k: int| 0 <= k < i + 1 && cfg_valid(ec[k]) && cfg_dci(ec[k]) == j) by {
                            if j as int == d {
                                assert(cfg_valid(ec[i as int]) && cfg_dci(ec[i as int]) == j);
                            } else {
                                if exists|k: int| 0 <= k < i + 1 && cfg_valid(ec[k]) && cfg_dci(ec[k]) == j {
                                    let k = choose|k: int| 0 <= k < i + 1 && cfg_valid(ec[k]) && cfg_dci(ec[k]) == j;
                                    assert(k < i);
                                }
                            }
                        }
                        assert forall|k: int| 0 <= k < i + 1 && cfg_valid(ec[k]) implies (#[trigger] e.bus.rings()[cfg_dci(ec[k]) - 1]).is_init_spec() by {
                            if k < i {
                                assert(before.rings()[cfg_dci(ec[k]) - 1].is_init_spec());
                            }
                        }
                        assert forall|k: int| 0 <= k < i + 1 && cfg_valid(ec[k]) && last_with_dci(ec, k, i + 1)
                            implies #[trigger] e.bus.input_endpoints()[cfg_dci(ec[k]) - 1] == ep_ctx_for(ec[k], speed) by {
                            if k < i {
                                assert(cfg_dci(ec[i as int]) != cfg_dci(ec[k]));
                                assert(last_with_dci(ec, k, i as int));
                            }
                        }
                    }
                },
                Err(_) => {
                    proof {
                        assert(ec[i as int] == cfg);
                        assert forall|j: u32| j < 32 implies #[trigger] flag_is_set(e.bus.input_flags(), j)
                            == (j == 0 || exists|k: int| 0 <= k < i + 1 && cfg_valid(ec[k]) && cfg_dci(ec[k]) == j) by {
                            if exists|k: int| 0 <= k < i + 1 && cfg_valid(ec[k]) && cfg_dci(ec[k]) == j {
                                let k = choose|k: int| 0 <= k < i + 1 && cfg_valid(ec[k]) && cfg_dci(ec[k]) == j;
                                assert(k < i);
                            }
                        }
                        assert forall|k: int| 0 <= k < i + 1 && cfg_valid(ec[k]) && last_with_dci(ec, k, i + 1)
                            implies #[trigger] e.bus.input_endpoints()[cfg_dci(ec[k]) - 1] == ep_ctx_for(ec[k], speed) by {
                            assert(k < i);
                            assert(last_with_dci(ec, k, i as int));
                        }
                    }
                },
            }
            i = i + 1;
        }
    }

    /// A transfer completed on endpoint `dci` of slot `slot_id`, against the record at `trb`,
    /// and the hardware wrote `data`. A Normal record goes to the class drivers; a control
    /// transfer goes, with its Setup Stage request, to the device's enumeration. When the device
    /// has just become configured while its port is `InitializingDevice`, its endpoints are
    /// configured: the port goes to `ConfiguringEndpoints` and Configure Endpoint is sent.
    pub fn on_transfer(&mut self, slot_id: u8, dci: u8, trb: TrbPos, completion_code: u8, data: &[u8]) -> (r: Result<(), ControllerError>)
        requires
            old(self).wf(),
        ensures
            final(self).wf(),
            phases_step(old(self).phases(), final(self).phases()),
            final(self).ev_ring_spec() == old(self).ev_ring_spec(),
            transfer_outcome(*old(self), *final(self), slot_id, dci, trb, completion_code, data@, r),
    {
        if completion_code != COMPLETION_SUCCESS && completion_code != COMPLETION_SHORT_PACKET {
            return Err(ControllerError::TransferFailed);
        }
        let s = slot_id as usize;
        if s < 1 || s > MAX_DEVICE_SLOTS || !self.dev_mgr.has_entry(s) {
            return Err(ControllerError::NoDevice);
        }
        let mut e = match self.dev_mgr.take_entry(s) {
            Some(e) => e,
            None => {
                return Err(ControllerError::NoDevice);
            },
        };
        let ghost e0 = e;
        let ghost mut bm = e.bus;
        let issuer = e.bus.trb_at(dci, trb);
        let res: Result<(), ControllerError> = match issuer {
            Some(Trb::Normal { .. }) => {
                let addr = EndpointAddress::from_dci(dci);
                match e.device.on_normal_completed(&mut e.bus, &mut e.class_drivers, addr, data, &mut self.reports) {
                    Ok(()) => Ok(()),
                    Err(d) => Err(ControllerError::Device(d)),
                }
            },
            _ => {
                let found = e.bus.associated_setup_stage(dci, trb);
                proof {
                    bm = e.bus;
                }
                match found {
                    Some(setup) => {
                        let req = SetupRequest::from_setup_stage_trb(setup);
                        let empty: Vec<u8> = Vec::new();
                        let buf: &[u8] = match issuer {
                            Some(Trb::Data { .. }) => data,
                            _ => empty.as_slice(),
                        };
                        match e.device.on_control_completed(&mut e.bus, &mut e.class_drivers, &mut e.ep_configs, req, buf) {
                            Ok(()) => Ok(()),
                            Err(d) => Err(ControllerError::Device(d)),
                        }
                    },
                    None => Err(ControllerError::NoSetupStage),
                }
            },
        };
        let ghost e1 = e;
        proof {
            assert(transfer_device_step(old(self).reports_spec(), self.reports_spec(), e0, bm, e1, dci, trb, data@, res));
        }
        match res {
            Ok(()) => {},
            Err(err) => {
                self.dev_mgr.put_entry(s, e);
                proof {
                    assert(e0 == old(self).devices().slots()[s - 1].unwrap());
                    assert(self.devices().slots()[s - 1].unwrap() == e1);
                    assert(other_slots_same(*old(self), *self, s as int));
                    assert(transfer_device_step(old(self).reports_spec(), self.reports_spec(), e0, bm, e1, dci, trb, data@, res));
                    assert(self.phases() == old(self).phases());
                    assert(self.ports_spec() == old(self).ports_spec());
                    assert(self.running_spec() == old(self).running_spec());
                }
                return Err(err);
            },
        }
        let ghost rep1 = self.reports_spec();
        let p = e.port_id;
        if e.device.is_configured() && 1 <= p && p <= self.ports.len() && self.port_cfg_phase[p - 1] == PortConfigPhase::InitializingDevice {
            let speed = self.portsc_at(p).speed;
            Self::prepare_configure_endpoints(&mut e, speed);
            let ghost e2 = e;
            self.dev_mgr.put_entry(s, e);
            self.port_cfg_phase.set(p - 1, PortConfigPhase::ConfiguringEndpoints);
            let _ = self.push_cmd(Trb::ConfigureEndpoint { slot_id });
            proof {
                assert(e0 == old(self).devices().slots()[s - 1].unwrap());
                assert(self.devices().slots()[s - 1].unwrap() == e2);
                assert(configure_outcome(e1, e2, old(self).ports_spec()[p - 1].speed));
                assert(self.reports_spec() == rep1);
                assert(other_slots_same(*old(self), *self, s as int));
                assert(transfer_device_step(old(self).reports_spec(), self.reports_spec(), e0, bm, e1, dci, trb, data@, res));
            }
        } else {
            self.dev_mgr.put_entry(s, e);
            proof {
                assert(e0 == old(self).devices().slots()[s - 1].unwrap());
                assert(self.devices().slots()[s - 1].unwrap() == e1);
                assert(other_slots_same(*old(self), *self, s as int));
                assert(transfer_device_step(old(self).reports_spec(), self.reports_spec(), e0, bm, e1, dci, trb, data@, res));
            }
        }
        Ok(())
    }

    /// Takes one event from the Event ring, if there is one, and hands it to its handler;
    /// `data` is what the hardware wrote for a completed transfer. The result says whether an
    /// event was taken.
    pub fn process_events(&mut self, data: &[u8]) -> (r: Result<bool, ControllerError>)
        requires
            old(self).wf(),
        ensures
            final(self).wf(),
            phases_step(old(self).phases(), final(self).phases()),
            ({
                let m = old(self).ev_ring_spec()@;
                let front = m.segs[m.deq_seg][m.deq_slot];
                if front.cycle == m.cycle {
                    &&& final(self).ev_ring_spec()@ == crate::ring::event_advance(m)
                    &&& (r.is_ok() ==> r == Ok::<bool, ControllerError>(true))
                    &&& match front.trb {
                        EventTrb::PortStatusChange { port_id } => port_status_change_outcome(*old(self), *final(self), port_id as int, unit_of(r)),
                        EventTrb::Transfer { slot_id, endpoint_id, trb, completion_code, .. } =>
                            transfer_outcome(*old(self), *final(self), slot_id, endpoint_id, trb, completion_code, data@, unit_of(r)),
                        EventTrb::CommandCompletion { slot_id, command, .. } => cmd_complete_outcome(*old(self), *final(self), slot_id, command, unit_of(r)),
                        EventTrb::Empty => r == Err::<bool, ControllerError>(ControllerError::Unsupported) && same_state(*old(self), *final(self)),
                    }
                } else {
                    r == Ok::<bool, ControllerError>(false) && final(self).ev_ring_spec()@ == m && same_state(*old(self), *final(self))
                }
            }),
    {
        let ev = match self.ev_ring.pop() {
            None => {
                return Ok(false);
            },
            Some(ev) => ev,
        };
        let ghost mid = *self;
        assert(same_state(*old(self), mid));
        let res = match ev {
            EventTrb::PortStatusChange { port_id } => {
                let r = self.on_port_status_change(port_id as usize);
                assert(port_status_change_outcome(mid, *self, port_id as int, r));
                assert(port_status_change_outcome(*old(self), *self, port_id as int, r));
                r
            },
            EventTrb::Transfer { slot_id, endpoint_id, trb, completion_code, residual } => {
                let r = self.on_transfer(slot_id, endpoint_id, trb, completion_code, data);
                assert(transfer_outcome(*old(self), *self, slot_id, endpoint_id, trb, completion_code, data@, r));
                r
            },
            EventTrb::CommandCompletion { slot_id, command, completion_code } => {
                let r = self.on_cmd_complete(slot_id, command);
                assert(cmd_complete_outcome(*old(self), *self, slot_id, command, r));
                r
            },
            EventTrb::Empty => Err(ControllerError::Unsupported),
        };
        match res {
            Ok(()) => Ok(true),
            Err(e) => Err(e),
        }
    }

    /// Resets every connected port that is not connected yet in the controller's view, in port
    /// order: the first becomes the addressing port unless one is already set, and the others
    /// wait in `WaitingAddressed`.
    pub fn reconfigure_port(&mut self) -> (r: Result<(), ControllerError>)
        requires
            old(self).wf(),
        ensures
            final(self).wf(),
            r.is_ok(),
            final(self).cmd_ring_spec() == old(self).cmd_ring_spec(),
            final(self).ev_ring_spec() == old(self).ev_ring_spec(),
            final(self).devices() == old(self).devices(),
            final(self).ports_spec() == old(self).ports_spec(),
            final(self).portsc_spec() == old(self).portsc_spec(),
            final(self).phases() == reconfigured(old(self).phases(), old(self).ports_spec(), old(self).addressing(), 1).0,
            phases_step(old(self).phases(), final(self).phases()),
            final(self).addressing() == reconfigured(old(self).phases(), old(self).ports_spec(), old(self).addressing(), 1).1,
    {
        let n = self.ports.len();
        let mut i: usize = 1;
        while i <= n
            invariant
                self.wf(),
                n == self.num_ports_spec(),
                1 <= i <= n + 1,
                self.cmd_ring_spec() == old(self).cmd_ring_spec(),
                self.ev_ring_spec() == old(self).ev_ring_spec(),
                self.devices() == old(self).devices(),
                self.ports_spec() == old(self).ports_spec(),
                self.portsc_spec() == old(self).portsc_spec(),
                reconfigured(self.phases(), self.ports_spec(), self.addressing(), i as int)
                    == reconfigured(old(self).phases(), old(self).ports_spec(), old(self).addressing(), 1),
                phases_step(old(self).phases(), self.phases()),
                forall|j: int| i - 1 <= j < MAX_PORTS ==> #[trigger] self.phases()[j] == old(self).phases()[j],
            decreases n + 1 - i,
        {
            if self.portsc_at(i).connected && self.port_cfg_phase[i - 1] == PortConfigPhase::NotConnected {
                let ghost before = self.phases();
                let _ = self.reset_port(i);
                proof {
                    assert forall|j: int| 0 <= j < old(self).phases().len() implies #[trigger] phase_step(old(self).phases()[j], self.phases()[j]) by {
                        if j == i - 1 {
                        } else {
                            assert(self.phases()[j] == before[j]);
                        }
                    }
                }
            }
            i = i + 1;
        }
        Ok(())
    }
}

/// The phases and addressing port after resetting, from port `i` on, each connected port
/// still `NotConnected`: it becomes the addressing port in `ResettingPort` when none is set,
/// else it goes to `WaitingAddressed`.
pub open spec fn reconfigured(phases: Seq<PortConfigPhase>, ports: Seq<PortStatus>, addressing: int, i: int) -> (Seq<PortConfigPhase>, int)
    decreases ports.len() + 1 - i,
{
    if i < 1 || i > ports.len() {
        (phases, addressing)
    } else if ports[i - 1].connected && phases[i - 1] == PortConfigPhase::NotConnected {
        if addressing != 0 {
            reconfigured(phases.update(i - 1, PortConfigPhase::WaitingAddressed), ports, addressing, i + 1)
        } else {
            reconfigured(phases.update(i - 1, PortConfigPhase::ResettingPort), ports, i, i + 1)
        }
    } else {
        reconfigured(phases, ports, addressing, i + 1)
    }
}

/// The first port id in `i..=n` whose phase is `WaitingAddressed`, or 0.
pub open spec fn first_waiting_from(phases: Seq<PortConfigPhase>, n: int, i: int) -> int
    decreases n + 1 - i,
{
    if i < 1 || i > n {
        0
    } else if phases[i - 1] == PortConfigPhase::WaitingAddressed {
        i
    } else {
        first_waiting_from(phases, n, i + 1)
    }
}

/// What `address_device` does: for a free, valid slot the device is created and registered in
/// the device context array, its input context is built (slot context with the port and its
/// speed, default control endpoint with the max packet size for that speed and the start of
/// its new Transfer ring, add flags 0 and 1), the port goes to `AddressingDevice`, and Address
/// Device is pushed and the command doorbell rung. Otherwise nothing changes.
pub open spec fn address_device_outcome(o: Controller, n: Controller, port_id: int, slot_id: int, r: Result<(), ControllerError>) -> bool {
    &&& n.running_spec() == o.running_spec()
    &&& n.portsc_spec() == o.portsc_spec()
    &&& n.portsc_writes_spec() == o.portsc_writes_spec()
    &&& (n.ports_spec() == o.ports_spec())
    &&& (n.addressing() == o.addressing())
    &&& (n.resets() == o.resets())
    &&& (n.reports_spec() == o.reports_spec())
    &&& (!(1 <= slot_id <= MAX_DEVICE_SLOTS) ==> r == Err::<(), ControllerError>(ControllerError::InvalidSlot) && same_state(o, n))
    &&& (1 <= slot_id <= MAX_DEVICE_SLOTS && o.devices().slots()[slot_id - 1].is_some() ==> r == Err::<(), ControllerError>(ControllerError::SlotInUse) && same_state(o, n))
    &&& (1 <= slot_id <= MAX_DEVICE_SLOTS && o.devices().slots()[slot_id - 1].is_none() ==> {
        let e = n.devices().slots()[slot_id - 1].unwrap();
        let speed = o.ports_spec()[port_id - 1].speed;
        &&& r.is_ok()
        &&& n.cmd_doorbell_count() == o.cmd_doorbell_count() + 1
        &&& n.devices().dcbaa_spec()[slot_id - 1]
        &&& forall|i: int| 0 <= i < MAX_DEVICE_SLOTS && i != slot_id - 1 ==> #[trigger] n.devices().slots()[i] == o.devices().slots()[i]
        &&& n.phases() == o.phases().update(port_id - 1, PortConfigPhase::AddressingDevice)
        &&& n.cmd_ring_spec()@ == push_model(o.cmd_ring_spec()@, Trb::AddressDevice { slot_id: slot_id as u8 })
        &&& n.devices().slots()[slot_id - 1].is_some()
        &&& e.port_id == port_id
        &&& e.class_drivers@.len() == 0
        &&& e.bus.input_slot() == (SlotContext { route_string: 0, root_hub_port_number: port_id as u8, context_entries: 1, speed })
        &&& e.bus.input_endpoints()[0] == (EndpointContext {
            endpoint_type: EndpointDirectedType::Control,
            max_packet_size: ep0_max_packet_size(speed),
            max_burst_size: 0,
            interval: 0,
            average_trb_length: 0,
            tr_dequeue_pointer: TrbPos { seg: 0, slot: 0 },
            dequeue_cycle_state: true,
            max_primary_streams: 0,
            mult: 0,
            error_count: 3,
        })
        &&& forall|j: u32| j < 32 ==> #[trigger] crate::context::flag_is_set(e.bus.input_flags(), j) == (j == 0 || j == 1)
        &&& e.bus.rings()[0].is_init_spec()
    })
}

/// The submission result a controller result carries.
pub open spec fn bus_part(r: Result<(), ControllerError>) -> Result<(), BusError> {
    match r {
        Err(ControllerError::Device(DeviceError::Bus(e))) => Err(e),
        _ => Ok(()),
    }
}

/// The device result a controller result carries.
pub open spec fn device_part(r: Result<(), ControllerError>) -> Result<(), DeviceError> {
    match r {
        Err(ControllerError::Device(d)) => Err(d),
        _ => Ok(()),
    }
}

/// The device of an entry starts enumeration: it is in the Default state and reads its device
/// descriptor (`GET_DESCRIPTOR(Device)`) on the control endpoint; the result reports a refused
/// submission.
pub open spec fn start_init_outcome(e0: DeviceEntry, e1: DeviceEntry, r: Result<(), ControllerError>) -> bool {
    &&& e1.device.state == DeviceState::Default
    &&& e1.device.device_desc == e0.device.device_desc
    &&& e1.class_drivers@ == e0.class_drivers@
    &&& e1.ep_configs@ == e0.ep_configs@
    &&& e1.port_id == e0.port_id
    &&& e1.bus.wf()
    &&& e1.bus.same_contexts(&e0.bus)
    &&& (r.is_ok() || r matches Err(ControllerError::Device(DeviceError::Bus(_))))
    &&& control_outcome(&e0.bus, &e1.bus, EndpointAddress(0x80), get_descriptor_spec(1, 0, DEVICE_DESC_LEN), true, DEVICE_DESC_LEN as u32, bus_part(r))
}

/// The class drivers of an entry are told, in order, that the endpoints are configured.
pub open spec fn configured_outcome(e0: DeviceEntry, e1: DeviceEntry, r: Result<(), ControllerError>) -> bool {
    &&& e1.device == e0.device
    &&& e1.ep_configs@ == e0.ep_configs@
    &&& e1.port_id == e0.port_id
    &&& e1.bus.wf()
    &&& (r.is_ok() || r matches Err(ControllerError::Device(_)))
    &&& endpoints_configured_outcome(e0.bus, e0.class_drivers@, e1.bus, e1.class_drivers@, device_part(r))
}

/// Only the entry of slot `s` may differ between the two managers.
pub open spec fn other_slots_same(o: Controller, n: Controller, s: int) -> bool {
    &&& n.devices().dcbaa_spec() == o.devices().dcbaa_spec()
    &&& n.devices().slots()[s - 1].is_some()
    &&& forall|i: int| 0 <= i < MAX_DEVICE_SLOTS && i != s - 1 ==> #[trigger] n.devices().slots()[i] == o.devices().slots()[i]
}

/// What a Command Completion for `command` and slot `slot_id` does, as `on_cmd_complete`
/// describes it.
pub open spec fn cmd_complete_outcome(o: Controller, n: Controller, slot_id: u8, command: TrbPos, r: Result<(), ControllerError>) -> bool {
    let s = slot_id as int;
    let issuer = o.cmd_ring_spec().block_at_spec(command);
    let a = o.addressing();
    &&& n.reports_spec() == o.reports_spec()
    &&& n.running_spec() == o.running_spec()
    &&& match issuer {
        Some(b) => match b.trb {
            Trb::EnableSlot => if a == 0 || o.phases()[a - 1] != PortConfigPhase::EnablingSlot {
                r == Err::<(), ControllerError>(ControllerError::PhaseMismatch) && same_state(o, n)
            } else {
                address_device_outcome(o, n, a, s, r)
            },
            Trb::AddressDevice { .. } => if !(1 <= s <= MAX_DEVICE_SLOTS) || o.devices().slots()[s - 1].is_none() {
                r == Err::<(), ControllerError>(ControllerError::NoDevice) && same_state(o, n)
            } else {
                let p = o.devices().slots()[s - 1].unwrap().port_id as int;
                if p != a || !(1 <= p <= o.num_ports_spec()) || o.phases()[p - 1] != PortConfigPhase::AddressingDevice {
                    r == Err::<(), ControllerError>(ControllerError::PhaseMismatch) && same_state(o, n)
                } else {
                    let w = o.first_waiting();
                    &&& n.ports_spec() == o.ports_spec()
                    &&& n.cmd_ring_spec() == o.cmd_ring_spec()
                    &&& n.cmd_doorbell_count() == o.cmd_doorbell_count()
                    &&& other_slots_same(o, n, s)
                    &&& start_init_outcome(o.devices().slots()[s - 1].unwrap(), n.devices().slots()[s - 1].unwrap(), r)
                    &&& n.portsc_spec() == o.portsc_spec()
                    &&& if w != 0 && o.ports_spec()[w - 1].connected {
                        &&& n.addressing() == w
                        &&& n.phases() == o.phases().update(w - 1, PortConfigPhase::ResettingPort).update(p - 1, PortConfigPhase::InitializingDevice)
                        &&& n.resets() == o.resets().push(w as usize)
                        &&& n.portsc_writes_spec() == o.portsc_writes_spec().push((w as usize, port_reset_value(o.portsc_spec()[w - 1])))
                    } else {
                        &&& n.addressing() == 0
                        &&& n.phases() == o.phases().update(p - 1, PortConfigPhase::InitializingDevice)
                        &&& n.resets() == o.resets()
                        &&& n.portsc_writes_spec() == o.portsc_writes_spec()
                    }
                }
            },
            Trb::ConfigureEndpoint { .. } => if !(1 <= s <= MAX_DEVICE_SLOTS) || o.devices().slots()[s - 1].is_none() {
                r == Err::<(), ControllerError>(ControllerError::NoDevice) && same_state(o, n)
            } else {
                let p = o.devices().slots()[s - 1].unwrap().port_id as int;
                if !(1 <= p <= o.num_ports_spec()) || o.phases()[p - 1] != PortConfigPhase::ConfiguringEndpoints {
                    r == Err::<(), ControllerError>(ControllerError::PhaseMismatch) && same_state(o, n)
                } else {
                    &&& n.phases() == o.phases().update(p - 1, PortConfigPhase::Configured)
                    &&& n.addressing() == a
                    &&& n.ports_spec() == o.ports_spec()
                    &&& n.portsc_spec() == o.portsc_spec()
                    &&& n.portsc_writes_spec() == o.portsc_writes_spec()
                    &&& n.cmd_ring_spec() == o.cmd_ring_spec()
                    &&& n.cmd_doorbell_count() == o.cmd_doorbell_count()
                    &&& n.resets() == o.resets()
                    &&& other_slots_same(o, n, s)
                    &&& configured_outcome(o.devices().slots()[s - 1].unwrap(), n.devices().slots()[s - 1].unwrap(), r)
                }
            },
            _ => r == Err::<(), ControllerError>(ControllerError::Unsupported) && same_state(o, n),
        },
        None => r == Err::<(), ControllerError>(ControllerError::Unsupported) && same_state(o, n),
    }
}

/// What a Port Status Change for `port_id` does, as `on_port_status_change` describes it.
pub open spec fn port_status_change_outcome(o: Controller, n: Controller, port_id: int, r: Result<(), ControllerError>) -> bool {
    &&& (n.devices() == o.devices())
    &&& (n.reports_spec() == o.reports_spec())
    &&& (!(1 <= port_id <= o.num_ports_spec()) ==> r == Err::<(), ControllerError>(ControllerError::InvalidPort) && same_state(o, n))
    &&& (1 <= port_id <= o.num_ports_spec() ==> {
        let ph = o.phases()[port_id - 1];
        if ph == PortConfigPhase::NotConnected {
            &&& reset_port_outcome(o, n, port_id, r)
            &&& n.cmd_ring_spec() == o.cmd_ring_spec()
            &&& n.ports_spec() == o.ports_spec()
        } else if ph == PortConfigPhase::ResettingPort {
            &&& r.is_ok()
            &&& enable_slot_outcome(o, n, port_id)
            &&& n.addressing() == o.addressing()
            &&& n.resets() == o.resets()
        } else {
            r == Err::<(), ControllerError>(ControllerError::PhaseMismatch) && same_state(o, n)
        }
    })
}

/// The Device Context Index an endpoint configuration names.
pub open spec fn cfg_dci(c: EndpointConfig) -> int {
    dci_of(c.addr.0) as int
}

/// Whether an endpoint configuration names a usable Device Context Index (`1..=31`).
pub open spec fn cfg_valid(c: EndpointConfig) -> bool {
    1 <= cfg_dci(c) <= 31
}

/// No later configuration in `ec` (before `end`) names the same context as the one at `i`.
pub open spec fn last_with_dci(ec: Seq<EndpointConfig>, i: int, end: int) -> bool {
    forall|k: int| i < k < end ==> #[trigger] cfg_dci(ec[k]) != cfg_dci(ec[i])
}

/// The endpoint context of a configuration for a port speed.
pub open spec fn ep_ctx_for(c: EndpointConfig, speed: u8) -> EndpointContext {
    EndpointContext {
        endpoint_type: c.ep_type.with_dir_spec(c.addr.is_in_spec()),
        max_packet_size: c.max_packet_size,
        max_burst_size: 0,
        interval: interval_for(speed, c.ep_type, c.interval),
        average_trb_length: 1,
        tr_dequeue_pointer: TrbPos { seg: 0, slot: 0 },
        dequeue_cycle_state: true,
        max_primary_streams: 0,
        mult: 0,
        error_count: 3,
    }
}

/// The input context of `e2` is ready for Configure Endpoint: the slot context is the output
/// slot context with all 31 endpoint contexts in use, and each endpoint configuration with a
/// usable context index has its add flag set, a Transfer ring, and (the last one for each
/// index) the context `ep_ctx_for`; no other add flag but the slot's is set.
pub open spec fn configure_outcome(e1: DeviceEntry, e2: DeviceEntry, speed: u8) -> bool {
    let ec = e1.ep_configs@;
    &&& e2.bus.wf()
    &&& e2.device == e1.device
    &&& e2.port_id == e1.port_id
    &&& e2.class_drivers@ == e1.class_drivers@
    &&& e2.ep_configs@ == ec
    &&& e2.bus.map() == e1.bus.map()
    &&& e2.bus.doorbells() == e1.bus.doorbells()
    &&& e2.bus.output_slot() == e1.bus.output_slot()
    &&& e2.bus.output_endpoints() == e1.bus.output_endpoints()
    &&& e2.bus.input_slot() == (SlotContext { context_entries: 31, ..e1.bus.output_slot() })
    &&& forall|j: u32| j < 32 ==> #[trigger] flag_is_set(e2.bus.input_flags(), j)
        == (j == 0 || exists|i: int| 0 <= i < ec.len() && cfg_valid(ec[i]) && cfg_dci(ec[i]) == j)
    &&& forall|i: int| 0 <= i < ec.len() && cfg_valid(ec[i]) ==> (#[trigger] e2.bus.rings()[cfg_dci(ec[i]) - 1]).is_init_spec()
    &&& forall|i: int| 0 <= i < ec.len() && cfg_valid(ec[i]) && last_with_dci(ec, i, ec.len() as int)
        ==> #[trigger] e2.bus.input_endpoints()[cfg_dci(ec[i]) - 1] == ep_ctx_for(ec[i], speed)
}

/// The record at `trb` on the ring of `dci` of an entry.
pub open spec fn transfer_issuer(e: DeviceEntry, dci: u8, trb: TrbPos) -> Option<Trb> {
    if 1 <= dci <= 31 {
        match e.bus.rings()[dci - 1].block_at_spec(trb) {
            Some(b) => Some(b.trb),
            None => None,
        }
    } else {
        None
    }
}

/// The request a Setup Stage record carries.
pub open spec fn request_of(st: SetupStage) -> SetupRequest {
    SetupRequest { request_type: st.request_type, request: st.request, value: st.value, index: st.index, length: st.length }
}

/// The device's part of a transfer completion, from entry `e0` to entry `e1`. A Normal record
/// goes to the class drivers. For any other record the Setup Stage is taken from the table
/// (`bm` is the bus afterwards); without one the completion is refused, with one the device
/// takes the control completion, with `data` when the record is a Data Stage and no bytes
/// otherwise.
pub open spec fn transfer_device_step(rep0: Seq<Report>, rep1: Seq<Report>, e0: DeviceEntry, bm: XHCIBus, e1: DeviceEntry, dci: u8, trb: TrbPos, data: Seq<u8>, r: Result<(), ControllerError>) -> bool {
    let issuer = transfer_issuer(e0, dci, trb);
    &&& e1.port_id == e0.port_id
    &&& match issuer {
        Some(Trb::Normal { .. }) => {
            &&& e1.device == e0.device
            &&& e1.ep_configs@ == e0.ep_configs@
            &&& (r.is_ok() || r matches Err(ControllerError::Device(_)))
            &&& normal_completed_outcome(e0.bus, e0.class_drivers@, rep0, e1.bus, e1.class_drivers@, rep1, EndpointAddress(addr_of_dci(dci)), data, device_part(r))
        },
        _ => {
            &&& rep1 == rep0
            &&& setup_taken(e0.bus, bm, dci, trb)
            &&& match setup_of(e0.bus, dci, trb) {
                None => {
                    &&& r == Err::<(), ControllerError>(ControllerError::NoSetupStage)
                    &&& e1.device == e0.device
                    &&& e1.bus == bm
                    &&& e1.class_drivers@ == e0.class_drivers@
                    &&& e1.ep_configs@ == e0.ep_configs@
                },
                Some(st) => {
                    &&& (r.is_ok() || r matches Err(ControllerError::Device(_)))
                    &&& control_completed_outcome(e0.device, bm, e0.class_drivers@, e0.ep_configs@, e1.device, e1.bus, e1.class_drivers@, e1.ep_configs@,
                        request_of(st), if issuer matches Some(Trb::Data { .. }) { data } else { Seq::empty() }, device_part(r))
                },
            }
        },
    }
}

/// What a Transfer event does, as `on_transfer` describes it.
pub open spec fn transfer_outcome(o: Controller, n: Controller, slot_id: u8, dci: u8, trb: TrbPos, completion_code: u8, data: Seq<u8>, r: Result<(), ControllerError>) -> bool {
    let s = slot_id as int;
    if completion_code != COMPLETION_SUCCESS && completion_code != COMPLETION_SHORT_PACKET {
        r == Err::<(), ControllerError>(ControllerError::TransferFailed) && same_state(o, n)
    } else if !(1 <= s <= MAX_DEVICE_SLOTS) || o.devices().slots()[s - 1].is_none() {
        r == Err::<(), ControllerError>(ControllerError::NoDevice) && same_state(o, n)
    } else {
        let e0 = o.devices().slots()[s - 1].unwrap();
        let e2 = n.devices().slots()[s - 1].unwrap();
        &&& n.ports_spec() == o.ports_spec()
        &&& n.portsc_spec() == o.portsc_spec()
        &&& n.portsc_writes_spec() == o.portsc_writes_spec()
        &&& n.addressing() == o.addressing()
        &&& n.resets() == o.resets()
        &&& n.running_spec() == o.running_spec()
        &&& other_slots_same(o, n, s)
        &&& exists|bm: XHCIBus, e1: DeviceEntry, rd: Result<(), ControllerError>|
            #[trigger] transfer_device_step(o.reports_spec(), n.reports_spec(), e0, bm, e1, dci, trb, data, rd) && {
            let p = e1.port_id as int;
            if rd.is_err() {
                r == rd && e2 == e1 && n.phases() == o.phases() && n.cmd_ring_spec() == o.cmd_ring_spec()
                    && n.cmd_doorbell_count() == o.cmd_doorbell_count()
            } else if e1.device.state == DeviceState::Configured && 1 <= p <= o.num_ports_spec()
                && o.phases()[p - 1] == PortConfigPhase::InitializingDevice {
                &&& r.is_ok()
                &&& configure_outcome(e1, e2, o.ports_spec()[p - 1].speed)
                &&& n.phases() == o.phases().update(p - 1, PortConfigPhase::ConfiguringEndpoints)
                &&& n.cmd_ring_spec()@ == push_model(o.cmd_ring_spec()@, Trb::ConfigureEndpoint { slot_id })
                &&& n.cmd_doorbell_count() == o.cmd_doorbell_count() + 1
            } else {
                r.is_ok() && e2 == e1 && n.phases() == o.phases() && n.cmd_ring_spec() == o.cmd_ring_spec()
                    && n.cmd_doorbell_count() == o.cmd_doorbell_count()
            }
        }
    }
}

/// The result of a handler, from the result of `process_events`.
pub open spec fn unit_of(r: Result<bool, ControllerError>) -> Result<(), ControllerError> {
    match r {
        Ok(_) => Ok(()),
        Err(e) => Err(e),
    }
}

/// Nothing but the Event ring differs between `o` and `n`.
pub open spec fn same_state(o: Controller, n: Controller) -> bool {
    &&& n.ports_spec() == o.ports_spec()
    &&& n.portsc_spec() == o.portsc_spec()
    &&& n.portsc_writes_spec() == o.portsc_writes_spec()
    &&& n.phases() == o.phases()
    &&& n.addressing() == o.addressing()
    &&& n.cmd_ring_spec() == o.cmd_ring_spec()
    &&& n.devices() == o.devices()
    &&& n.resets() == o.resets()
    &&& n.cmd_doorbell_count() == o.cmd_doorbell_count()
    &&& n.reports_spec() == o.reports_spec()
    &&& n.running_spec() == o.running_spec()
}

/// What `reset_port` does: nothing for a port that is not connected; `WaitingAddressed` while
/// another port is being addressed; otherwise, from `NotConnected` or `WaitingAddressed`, the
/// port becomes the addressing port, goes to `ResettingPort` and has its reset bit set.
pub open spec fn reset_port_outcome(o: Controller, n: Controller, p: int, r: Result<(), ControllerError>) -> bool {
    &&& n.ports_spec() == o.ports_spec()
    &&& n.portsc_spec() == o.portsc_spec()
    &&& n.cmd_ring_spec() == o.cmd_ring_spec()
    &&& n.devices() == o.devices()
    &&& n.cmd_doorbell_count() == o.cmd_doorbell_count()
    &&& n.reports_spec() == o.reports_spec()
    &&& n.running_spec() == o.running_spec()
    &&& if !o.ports_spec()[p - 1].connected {
        r.is_ok() && n.phases() == o.phases() && n.addressing() == o.addressing() && n.resets() == o.resets()
            && n.portsc_writes_spec() == o.portsc_writes_spec()
    } else if o.addressing() != 0 {
        &&& r.is_ok()
        &&& n.phases() == o.phases().update(p - 1, PortConfigPhase::WaitingAddressed)
        &&& n.addressing() == o.addressing()
        &&& n.resets() == o.resets()
        &&& n.portsc_writes_spec() == o.portsc_writes_spec()
    } else if o.phases()[p - 1] != PortConfigPhase::NotConnected && o.phases()[p - 1] != PortConfigPhase::WaitingAddressed {
        r == Err::<(), ControllerError>(ControllerError::PhaseMismatch) && n.phases() == o.phases() && n.addressing() == o.addressing() && n.resets() == o.resets()
            && n.portsc_writes_spec() == o.portsc_writes_spec()
    } else {
        &&& r.is_ok()
        &&& n.phases() == o.phases().update(p - 1, PortConfigPhase::ResettingPort)
        &&& n.addressing() == p
        &&& n.resets() == o.resets().push(p as usize)
        &&& n.portsc_writes_spec() == o.portsc_writes_spec().push((p as usize, port_reset_value(o.portsc_spec()[p - 1])))
    }
}

/// Whether one event may take a port from phase `a` to phase `b`: it stays, or moves to the
/// next phase of the bring-up order. A port that connects while another is being addressed
/// first waits in `WaitingAddressed`, and goes on to `ResettingPort` from there; `Configured`
/// is final.
pub open spec fn phase_step(a: PortConfigPhase, b: PortConfigPhase) -> bool {
    a == b || match a {
        PortConfigPhase::NotConnected => b == PortConfigPhase::WaitingAddressed || b == PortConfigPhase::ResettingPort,
        PortConfigPhase::WaitingAddressed => b == PortConfigPhase::ResettingPort,
        PortConfigPhase::ResettingPort => b == PortConfigPhase::EnablingSlot,
        PortConfigPhase::EnablingSlot => b == PortConfigPhase::AddressingDevice,
        PortConfigPhase::AddressingDevice => b == PortConfigPhase::InitializingDevice,
        PortConfigPhase::InitializingDevice => b == PortConfigPhase::ConfiguringEndpoints,
        PortConfigPhase::ConfiguringEndpoints => b == PortConfigPhase::Configured,
        PortConfigPhase::Configured => false,
    }
}

/// The position of a phase in the bring-up order.
pub open spec fn phase_rank(a: PortConfigPhase) -> int {
    match a {
        PortConfigPhase::NotConnected => 0,
        PortConfigPhase::WaitingAddressed => 1,
        PortConfigPhase::ResettingPort => 2,
        PortConfigPhase::EnablingSlot => 3,
        PortConfigPhase::AddressingDevice => 4,
        PortConfigPhase::InitializingDevice => 5,
        PortConfigPhase::ConfiguringEndpoints => 6,
        PortConfigPhase::Configured => 7,
    }
}

/// A step never goes back, so no phase is visited twice; it moves to the next phase, except
/// that a port that is not waiting may go from `NotConnected` straight to `ResettingPort`.
pub proof fn lemma_phase_step_forward(a: PortConfigPhase, b: PortConfigPhase)
    requires
        phase_step(a, b),
    ensures
        a == b || phase_rank(b) == phase_rank(a) + 1
            || (a == PortConfigPhase::NotConnected && b == PortConfigPhase::ResettingPort),
        phase_rank(a) <= phase_rank(b),
{
}

/// Every port took at most one step forward.
pub open spec fn phases_step(o: Seq<PortConfigPhase>, n: Seq<PortConfigPhase>) -> bool {
    &&& o.len() == n.len()
    &&& forall|i: int| 0 <= i < o.len() ==> #[trigger] phase_step(o[i], n[i])
}

/// While one port is being addressed, a second port that connects waits in
/// `WaitingAddressed`, has no reset started, and the addressing port stays the same.
pub proof fn lemma_second_port_waits(o: Controller, n: Controller, p: int, r: Result<(), ControllerError>)
    requires
        o.wf(),
        1 <= p <= o.num_ports_spec(),
        reset_port_outcome(o, n, p, r),
        o.addressing() != 0,
        o.ports_spec()[p - 1].connected,
    ensures
        r.is_ok(),
        n.phases()[p - 1] == PortConfigPhase::WaitingAddressed,
        n.addressing() == o.addressing(),
        n.resets() == o.resets(),
{
}

/// What `enable_slot` does: once the port is enabled with a reset change, the change is
/// acknowledged, the port goes to `EnablingSlot` and an Enable Slot command is pushed;
/// before that nothing changes.
pub open spec fn enable_slot_outcome(o: Controller, n: Controller, p: int) -> bool {
    let st = o.ports_spec()[p - 1];
    &&& n.addressing() == o.addressing()
    &&& n.devices() == o.devices()
    &&& n.resets() == o.resets()
    &&& n.reports_spec() == o.reports_spec()
    &&& n.running_spec() == o.running_spec()
    &&& if st.enabled && st.reset_changed {
        &&& n.cmd_doorbell_count() == o.cmd_doorbell_count() + 1
        &&& n.portsc_writes_spec() == o.portsc_writes_spec().push((p as usize, clear_reset_change_value(o.portsc_spec()[p - 1])))
        &&& n.portsc_spec() == o.portsc_spec().update(p - 1, o.portsc_spec()[p - 1] & !PORTSC_PRC)
        &&& n.ports_spec() == o.ports_spec().update(p - 1, PortStatus { reset_changed: false, ..st })
        &&& n.phases() == o.phases().update(p - 1, PortConfigPhase::EnablingSlot)
        &&& n.cmd_ring_spec()@ == push_model(o.cmd_ring_spec()@, Trb::EnableSlot)
    } else {
        n.ports_spec() == o.ports_spec() && n.phases() == o.phases() && n.cmd_ring_spec() == o.cmd_ring_spec()
            && n.cmd_doorbell_count() == o.cmd_doorbell_count()
            && n.portsc_spec() == o.portsc_spec() && n.portsc_writes_spec() == o.portsc_writes_spec()
    }
}

} // verus!
