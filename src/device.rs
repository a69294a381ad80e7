use vstd::prelude::*;

use crate::bus::{control_outcome, BusError, XHCIBus};
use crate::class::{
    class_for, hid_control_completed, hid_endpoints_configured, hid_new_spec, hid_normal_completed,
    new_class_from_interface, Report, USBHIDClass,
};
use crate::descriptor::{
    parse_step, Descriptor, DescriptorIterator, DescriptorType, DeviceDescriptorBody,
    EndpointDescriptorBody,
};
use crate::endpoint::{EndpointAddress, EndpointConfig, EndpointType};
use crate::setup::{get_descriptor, get_descriptor_spec, set_configuration, set_configuration_spec, SetupRequest};

verus! {

/// The size of the buffer a device reads its descriptors into.
pub const DEVICE_BUF_LEN: u16 = 256;

/// The length of a device descriptor, which is how much the first request reads.
pub const DEVICE_DESC_LEN: u16 = 18;

/// The USB device state.
#[derive(Clone, Copy, Debug, PartialEq, Eq, Structural)]
pub enum DeviceState {
    Attached,
    Default,
    Addressed,
    Configured,
    Suspend,
}

/// Why a completion could not be taken in.
#[derive(Clone, Copy, Debug, PartialEq, Eq, Structural)]
pub enum DeviceError {
    /// The first read did not start with a device descriptor.
    NotDeviceDescriptor,
    /// The device descriptor read was all zero.
    TrivialDeviceDescriptor,
    /// The second read did not start with a configuration descriptor.
    NotConfigurationDescriptor,
    /// The next request could not be submitted.
    Bus(BusError),
}

/// Whether a result is a success or a refused submission.
pub open spec fn from_bus(r: Result<(), DeviceError>) -> bool {
    match r {
        Ok(_) => true,
        Err(DeviceError::Bus(_)) => true,
        Err(_) => false,
    }
}

/// The submission result that a result carries.
pub open spec fn bus_result(r: Result<(), DeviceError>) -> Result<(), BusError> {
    match r {
        Err(DeviceError::Bus(e)) => Err(e),
        _ => Ok(()),
    }
}

/// The endpoint configuration an endpoint descriptor gives.
pub open spec fn config_of(ed: EndpointDescriptorBody) -> EndpointConfig {
    EndpointConfig {
        addr: EndpointAddress(ed.b_endpoint_address),
        ep_type: EndpointType::from_bits_spec(ed.bm_attributes % 4),
        max_packet_size: ed.w_max_packet_size,
        interval: ed.b_interval,
    }
}

/// The class drivers and endpoint configurations read from the descriptors from position `i`
/// on: a driver for each interface whose class triple is supported, and the configuration of
/// each of the next `b_num_endpoints` endpoint descriptors after such an interface. `pending`
/// counts the endpoint descriptors still owed to the last supported interface; other
/// descriptors are passed over.
pub open spec fn config_walk(b: Seq<u8>, i: int, pending: int) -> (Seq<USBHIDClass>, Seq<EndpointConfig>)
    decreases b.len() - i,
{
    if i < 0 || i >= b.len() {
        (Seq::empty(), Seq::empty())
    } else {
        match parse_step(b, i) {
            None => (Seq::empty(), Seq::empty()),
            Some((d, n)) => {
                if n <= i {
                    (Seq::empty(), Seq::empty())
                } else {
                    match d {
                        Descriptor::Interface(ifd) => match class_for(ifd.b_interface_class, ifd.b_interface_sub_class, ifd.b_interface_protocol) {
                            Some(kind) => {
                                let rest = config_walk(b, n, ifd.b_num_endpoints as int);
                                (seq![hid_new_spec(kind, ifd.b_interface_number as u16)] + rest.0, rest.1)
                            },
                            None => config_walk(b, n, 0),
                        },
                        Descriptor::Endpoint(ed) => {
                            if pending > 0 {
                                let rest = config_walk(b, n, pending - 1);
                                (rest.0, seq![config_of(ed)] + rest.1)
                            } else {
                                config_walk(b, n, pending)
                            }
                        },
                        _ => config_walk(b, n, pending),
                    }
                }
            },
        }
    }
}

/// Every step of `buses` is one driver passing a control completion on, in order.
pub open spec fn control_forward_chain(cd0: Seq<USBHIDClass>, cd1: Seq<USBHIDClass>, buses: Seq<XHCIBus>, rs: Seq<Result<(), BusError>>, req: SetupRequest) -> bool {
    &&& cd1.len() == cd0.len()
    &&& buses.len() == cd0.len() + 1
    &&& rs.len() == cd0.len()
    &&& forall|i: int| 0 <= i < cd0.len() ==> #[trigger] hid_control_completed(cd0[i], buses[i], cd1[i], buses[i + 1], req, rs[i])
}

/// Every step of `buses` is one driver taking a Normal completion, in order; `reps` are the
/// report queues between the steps.
pub open spec fn normal_chain(cd0: Seq<USBHIDClass>, cd1: Seq<USBHIDClass>, buses: Seq<XHCIBus>, reps: Seq<Seq<Report>>, rs: Seq<Result<(), BusError>>, addr: EndpointAddress, buf: Seq<u8>) -> bool {
    &&& cd1.len() == cd0.len()
    &&& buses.len() == cd0.len() + 1
    &&& reps.len() == cd0.len() + 1
    &&& rs.len() == cd0.len()
    &&& forall|i: int| 0 <= i < cd0.len() ==> #[trigger] hid_normal_completed(cd0[i], buses[i], reps[i], cd1[i], buses[i + 1], reps[i + 1], addr, buf, rs[i])
}

/// Every step of `buses` is one driver sending its `SET_PROTOCOL`, in order.
pub open spec fn endpoints_configured_chain(cd0: Seq<USBHIDClass>, cd1: Seq<USBHIDClass>, buses: Seq<XHCIBus>, rs: Seq<Result<(), BusError>>) -> bool {
    &&& cd1.len() == cd0.len()
    &&& buses.len() == cd0.len() + 1
    &&& rs.len() == cd0.len()
    &&& forall|i: int| 0 <= i < cd0.len() ==> #[trigger] hid_endpoints_configured(cd0[i], buses[i], cd1[i], buses[i + 1], rs[i])
}

/// Every submission succeeded.
pub open spec fn all_ok(rs: Seq<Result<(), BusError>>) -> bool {
    forall|i: int| 0 <= i < rs.len() ==> (#[trigger] rs[i]).is_ok()
}

/// What the class drivers do when a Normal transfer on `addr` completes with `buf`: each, in
/// order, as `hid_normal_completed` says; the result fails when a re-arm was refused.
pub open spec fn normal_completed_outcome(b0: XHCIBus, cd0: Seq<USBHIDClass>, rep0: Seq<Report>, b1: XHCIBus, cd1: Seq<USBHIDClass>, rep1: Seq<Report>, addr: EndpointAddress, buf: Seq<u8>, r: Result<(), DeviceError>) -> bool {
    &&& from_bus(r)
    &&& exists|buses: Seq<XHCIBus>, reps: Seq<Seq<Report>>, rs: Seq<Result<(), BusError>>| #[trigger] normal_chain(cd0, cd1, buses, reps, rs, addr, buf)
        && buses[0] == b0 && buses.last() == b1 && reps[0] == rep0 && reps.last() == rep1 && (r.is_ok() <==> all_ok(rs))
}

/// What the class drivers do once the endpoints are configured: each, in order, sends its
/// `SET_PROTOCOL`; the result fails when a submission was refused.
pub open spec fn endpoints_configured_outcome(b0: XHCIBus, cd0: Seq<USBHIDClass>, b1: XHCIBus, cd1: Seq<USBHIDClass>, r: Result<(), DeviceError>) -> bool {
    &&& from_bus(r)
    &&& exists|buses: Seq<XHCIBus>, rs: Seq<Result<(), BusError>>| #[trigger] endpoints_configured_chain(cd0, cd1, buses, rs)
        && buses[0] == b0 && buses.last() == b1 && (r.is_ok() <==> all_ok(rs))
}

/// What a device does on a control completion with the bytes `buf`, as `Device::on_control_completed` describes it.
pub open spec fn control_completed_outcome(d0: Device, b0: XHCIBus, cd0: Seq<USBHIDClass>, ec0: Seq<EndpointConfig>, d1: Device, b1: XHCIBus, cd1: Seq<USBHIDClass>, ec1: Seq<EndpointConfig>, req: SetupRequest, buf: Seq<u8>, r: Result<(), DeviceError>) -> bool {
    &&& b1.wf()
    &&& b1.same_contexts(&b0)
    &&& (!d0.has_device_desc_spec() ==> {
            &&& cd1 == cd0
            &&& ec1 == ec0
            &&& d1.state == d0.state
            &&& match parse_step(buf, 0) {
                Some((Descriptor::Device(d), _)) => if d == DeviceDescriptorBody::zero_spec() {
                    r == Err::<(), DeviceError>(DeviceError::TrivialDeviceDescriptor) && b1 == b0 && d1 == d0
                } else {
                    &&& d1.device_desc == d
                    &&& from_bus(r)
                    &&& control_outcome(&b0, &b1, EndpointAddress(0x80),
                        get_descriptor_spec(2, 0, DEVICE_BUF_LEN), true, DEVICE_BUF_LEN as u32, bus_result(r))
                },
                _ => r == Err::<(), DeviceError>(DeviceError::NotDeviceDescriptor) && b1 == b0 && d1 == d0,
            }
        })
    &&& (d0.has_device_desc_spec() && cd0.len() == 0 ==> {
            &&& d1 == d0
            &&& match parse_step(buf, 0) {
                Some((Descriptor::Configuration(cfg), n)) => {
                    &&& cd1 == config_walk(buf, n, 0).0
                    &&& ec1 == ec0 + config_walk(buf, n, 0).1
                    &&& from_bus(r)
                    &&& control_outcome(&b0, &b1, EndpointAddress(0x80),
                        set_configuration_spec(cfg.b_configuration_value as u16), false, 0, bus_result(r))
                },
                _ => {
                    &&& r == Err::<(), DeviceError>(DeviceError::NotConfigurationDescriptor)
                    &&& cd1 == cd0
                    &&& ec1 == ec0
                    &&& b1 == b0
                },
            }
        })
    &&& (d0.has_device_desc_spec() && cd0.len() > 0 && d0.state != DeviceState::Configured ==> {
            &&& r.is_ok()
            &&& d1.state == DeviceState::Configured
            &&& d1.device_desc == d0.device_desc
            &&& b1 == b0
            &&& ec1 == ec0
            &&& cd1.len() == cd0.len()
            &&& forall|i: int| 0 <= i < cd0.len() ==> #[trigger] cd1[i] == (USBHIDClass {
                ep_interrupt_in: crate::class::last_addr_with(ec0, crate::endpoint::EndpointDirectedType::InterruptIn, cd0[i].ep_interrupt_in),
                ep_interrupt_out: crate::class::last_addr_with(ec0, crate::endpoint::EndpointDirectedType::InterruptOut, cd0[i].ep_interrupt_out),
                ..cd0[i]
            })
        })
    &&& (d0.has_device_desc_spec() && cd0.len() > 0 && d0.state == DeviceState::Configured ==> {
            &&& d1 == d0
            &&& ec1 == ec0
            &&& from_bus(r)
            &&& exists|buses: Seq<XHCIBus>, rs: Seq<Result<(), BusError>>| #[trigger] control_forward_chain(cd0, cd1, buses, rs, req)
                && buses[0] == b0 && buses.last() == b1 && (r.is_ok() <==> all_ok(rs))
        })
}

/// The enumeration of one attached device: the device descriptor received so far and the
/// device state. Its class drivers and endpoint configurations live beside it.
pub struct Device {
    pub device_desc: DeviceDescriptorBody,
    pub state: DeviceState,
}

impl Device {
    /// A device with no descriptor received, in the Default state.
    pub fn new() -> (r: Self)
        ensures
            r.device_desc == DeviceDescriptorBody::zero_spec(),
            r.state == DeviceState::Default,
    {
        Device { device_desc: DeviceDescriptorBody::zero(), state: DeviceState::Default }
    }

    pub open spec fn has_device_desc_spec(&self) -> bool {
        self.device_desc != DeviceDescriptorBody::zero_spec()
    }

    /// Whether the device descriptor has been received (it is never all zero).
    pub fn has_device_desc_received(&self) -> (r: bool)
        ensures
            r == self.has_device_desc_spec(),
    {
        self.device_desc != DeviceDescriptorBody::zero()
    }

    pub fn is_configured(&self) -> (r: bool)
        ensures
            r == (self.state == DeviceState::Configured),
    {
        self.state == DeviceState::Configured
    }

    /// Starts enumeration: reads the device descriptor through the control endpoint.
    pub fn start_init(&mut self, bus: &mut XHCIBus) -> (r: Result<(), BusError>)
        requires
            old(bus).wf(),
        ensures
            final(bus).wf(),
            final(bus).same_contexts(old(bus)),
            final(self).state == DeviceState::Default,
            final(self).device_desc == old(self).device_desc,
            control_outcome(old(bus), final(bus), EndpointAddress(0x80), get_descriptor_spec(1, 0, DEVICE_DESC_LEN), true, DEVICE_DESC_LEN as u32, r),
    {
        self.state = DeviceState::Default;
        let req = get_descriptor(DescriptorType::Device, 0, DEVICE_DESC_LEN);
        bus.control_in(EndpointAddress::control(), req, DEVICE_DESC_LEN as u32)
    }

    /// Takes in the device descriptor at the start of `buf`.
    fn on_device_desc_received(&mut self, buf: &[u8]) -> (r: Result<(), DeviceError>)
        ensures
            match parse_step(buf@, 0) {
                Some((Descriptor::Device(d), _)) => if d == DeviceDescriptorBody::zero_spec() {
                    r == Err::<(), DeviceError>(DeviceError::TrivialDeviceDescriptor) && *final(self) == *old(self)
                } else {
                    r.is_ok() && final(self).device_desc == d && final(self).state == old(self).state
                },
                _ => r == Err::<(), DeviceError>(DeviceError::NotDeviceDescriptor) && *final(self) == *old(self),
            },
    {
        let mut reader = DescriptorIterator::from_buf(buf);
        match reader.next() {
            Some(Descriptor::Device(d)) => {
                if d == DeviceDescriptorBody::zero() {
                    Err(DeviceError::TrivialDeviceDescriptor)
                } else {
                    self.device_desc = d;
                    Ok(())
                }
            },
            _ => Err(DeviceError::NotDeviceDescriptor),
        }
    }

    /// Reads a configuration descriptor and the descriptors that follow it, adds a class
    /// driver for each supported interface and the configurations of their endpoints, and
    /// returns the configuration value.
    pub fn on_config_desc_received(&mut self, buf: &[u8], class_drivers: &mut Vec<USBHIDClass>, ep_configs: &mut Vec<EndpointConfig>) -> (r: Result<u8, DeviceError>)
        ensures
            *final(self) == *old(self),
            match parse_step(buf@, 0) {
                Some((Descriptor::Configuration(cfg), n)) => {
                    &&& r == Ok::<u8, DeviceError>(cfg.b_configuration_value)
                    &&& final(class_drivers)@ == old(class_drivers)@ + config_walk(buf@, n, 0).0
                    &&& final(ep_configs)@ == old(ep_configs)@ + config_walk(buf@, n, 0).1
                },
                _ => {
                    &&& r == Err::<u8, DeviceError>(DeviceError::NotConfigurationDescriptor)
                    &&& final(class_drivers)@ == old(class_drivers)@
                    &&& final(ep_configs)@ == old(ep_configs)@
                },
            },
    {
        let mut reader = DescriptorIterator::from_buf(buf);
        let cfg = match reader.next() {
            Some(Descriptor::Configuration(c)) => c,
            _ => {
                return Err(DeviceError::NotConfigurationDescriptor);
            },
        };
        let ghost n0 = reader.idx as int;
        let mut pending: u8 = 0;
        loop
            invariant
                reader.buf@ == buf@,
                reader.idx <= buf@.len(),
                class_drivers@ + config_walk(buf@, reader.idx as int, pending as int).0 == old(class_drivers)@ + config_walk(buf@, n0, 0).0,
                ep_configs@ + config_walk(buf@, reader.idx as int, pending as int).1 == old(ep_configs)@ + config_walk(buf@, n0, 0).1,
            ensures
                class_drivers@ == old(class_drivers)@ + config_walk(buf@, n0, 0).0,
                ep_configs@ == old(ep_configs)@ + config_walk(buf@, n0, 0).1,
            decreases buf@.len() - reader.idx,
        {
            let ghost i = reader.idx as int;
            let ghost cd = class_drivers@;
            let ghost ec = ep_configs@;
            let ghost w = config_walk(buf@, i, pending as int);
            match reader.next() {
                None => {
                    assert(w.0 =~= Seq::<USBHIDClass>::empty());
                    assert(w.1 =~= Seq::<EndpointConfig>::empty());
                    assert(class_drivers@ + w.0 =~= class_drivers@);
                    assert(ep_configs@ + w.1 =~= ep_configs@);
                    break;
                },
                Some(d) => {
                    let ghost n = reader.idx as int;
                    assert(n > i);
                    match d {
                        Descriptor::Interface(ifd) => {
                            match new_class_from_interface(ifd.b_interface_class, ifd.b_interface_sub_class, ifd.b_interface_protocol, ifd.b_interface_number) {
                                Some(c) => {
                                    class_drivers.push(c);
                                    pending = ifd.b_num_endpoints;
                                    assert(cd.push(c) + config_walk(buf@, n, pending as int).0 =~= cd + w.0);
                                },
                                None => {
                                    pending = 0;
                                },
                            }
                        },
                        Descriptor::Endpoint(ed) => {
                            if pending > 0 {
                                ep_configs.push(EndpointConfig::from_ep_desc(ed));
                                pending = pending - 1;
                                assert(ec.push(config_of(ed)) + config_walk(buf@, n, pending as int).1 =~= ec + w.1);
                            }
                        },
                        _ => {},
                    }
                },
            }
        }
        Ok(cfg.b_configuration_value)
    }

    /// Steps the enumeration on a control completion. Without a device descriptor yet, takes
    /// it from `buf` and reads the configuration descriptor. Without class drivers yet, takes
    /// in the configuration from `buf` and sets it. Before the device is configured, hands the
    /// endpoint configurations to every class driver and the device becomes configured. After
    /// that, passes the completion on to every class driver.
    pub fn on_control_completed(
        &mut self,
        bus: &mut XHCIBus,
        class_drivers: &mut Vec<USBHIDClass>,
        ep_configs: &mut Vec<EndpointConfig>,
        req: SetupRequest,
        buf: &[u8],
    ) -> (r: Result<(), DeviceError>)
        requires
            old(bus).wf(),
        ensures
            final(bus).wf(),
            final(bus).same_contexts(old(bus)),
            control_completed_outcome(*old(self), *old(bus), old(class_drivers)@, old(ep_configs)@, *final(self), *final(bus), final(class_drivers)@, final(ep_configs)@, req, buf@, r),
    {
        if !self.has_device_desc_received() {
            match self.on_device_desc_received(buf) {
                Ok(()) => {},
                Err(e) => {
                    return Err(e);
                },
            }
            let req2 = get_descriptor(DescriptorType::Configuration, 0, DEVICE_BUF_LEN);
            let br = bus.control_in(EndpointAddress::control(), req2, DEVICE_BUF_LEN as u32);
            match br {
                Ok(_) => Ok(()),
                Err(e) => Err(DeviceError::Bus(e)),
            }
        } else if class_drivers.len() == 0 {
            let cfg_value = match self.on_config_desc_received(buf, class_drivers, ep_configs) {
                Ok(v) => v,
                Err(e) => {
                    return Err(e);
                },
            };
            assert(old(class_drivers)@ + config_walk(buf@, parse_step(buf@, 0).unwrap().1, 0).0 =~= config_walk(buf@, parse_step(buf@, 0).unwrap().1, 0).0);
            let req2 = set_configuration(cfg_value as u16);
            let br = bus.control_out(EndpointAddress::control(), req2, 0);
            match br {
                Ok(_) => Ok(()),
                Err(e) => Err(DeviceError::Bus(e)),
            }
        } else if !self.is_configured() {
            let mut i: usize = 0;
            while i < class_drivers.len()
                invariant
                    i <= class_drivers@.len(),
                    class_drivers@.len() == old(class_drivers)@.len(),
                    forall|j: int| i <= j < class_drivers@.len() ==> #[trigger] class_drivers@[j] == old(class_drivers)@[j],
                    forall|j: int| 0 <= j < i ==> #[trigger] class_drivers@[j] == (USBHIDClass {
                        ep_interrupt_in: crate::class::last_addr_with(ep_configs@, crate::endpoint::EndpointDirectedType::InterruptIn, old(class_drivers)@[j].ep_interrupt_in),
                        ep_interrupt_out: crate::class::last_addr_with(ep_configs@, crate::endpoint::EndpointDirectedType::InterruptOut, old(class_drivers)@[j].ep_interrupt_out),
                        ..old(class_drivers)@[j]
                    }),
                decreases class_drivers@.len() - i,
            {
                class_drivers[i].set_endpoint(ep_configs.as_slice());
                i = i + 1;
            }
            self.state = DeviceState::Configured;
            Ok(())
        } else {
            let ghost mut buses: Seq<XHCIBus> = seq![*bus];
            let ghost mut rs: Seq<Result<(), BusError>> = Seq::empty();
            let mut res: Result<(), BusError> = Ok(());
            let mut i: usize = 0;
            while i < class_drivers.len()
                invariant
                    bus.wf(),
                    bus.same_contexts(old(bus)),
                    i <= class_drivers@.len(),
                    class_drivers@.len() == old(class_drivers)@.len(),
                    forall|j: int| i <= j < class_drivers@.len() ==> #[trigger] class_drivers@[j] == old(class_drivers)@[j],
                    buses.len() == i + 1,
                    rs.len() == i,
                    buses[0] == *old(bus),
                    buses.last() == *bus,
                    forall|j: int| 0 <= j < i ==> #[trigger] hid_control_completed(old(class_drivers)@[j], buses[j], class_drivers@[j], buses[j + 1], req, rs[j]),
                    res.is_ok() <==> all_ok(rs),
                decreases class_drivers@.len() - i,
            {
                let ri = class_drivers[i].on_control_completed(bus, req);
                proof {
                    lemma_all_ok_push(rs, ri);
                    buses = buses.push(*bus);
                    rs = rs.push(ri);
                }
                if ri.is_err() && res.is_ok() {
                    res = ri;
                }
                i = i + 1;
            }
            proof {
                assert(control_forward_chain(old(class_drivers)@, class_drivers@, buses, rs, req));
            }
            match res {
                Ok(()) => Ok(()),
                Err(e) => Err(DeviceError::Bus(e)),
            }
        }
    }

    /// Passes a completed Normal transfer on `addr` to every class driver, in order.
    pub fn on_normal_completed(
        &mut self,
        bus: &mut XHCIBus,
        class_drivers: &mut Vec<USBHIDClass>,
        addr: EndpointAddress,
        buf: &[u8],
        reports: &mut Vec<Report>,
    ) -> (r: Result<(), DeviceError>)
        requires
            old(bus).wf(),
        ensures
            final(bus).wf(),
            final(bus).same_contexts(old(bus)),
            *final(self) == *old(self),
            normal_completed_outcome(*old(bus), old(class_drivers)@, old(reports)@, *final(bus), final(class_drivers)@, final(reports)@, addr, buf@, r),
    {
        let ghost mut buses: Seq<XHCIBus> = seq![*bus];
        let ghost mut reps: Seq<Seq<Report>> = seq![reports@];
        let ghost mut rs: Seq<Result<(), BusError>> = Seq::empty();
        let mut res: Result<(), BusError> = Ok(());
        let mut i: usize = 0;
        while i < class_drivers.len()
            invariant
                bus.wf(),
                bus.same_contexts(old(bus)),
                i <= class_drivers@.len(),
                class_drivers@.len() == old(class_drivers)@.len(),
                forall|j: int| i <= j < class_drivers@.len() ==> #[trigger] class_drivers@[j] == old(class_drivers)@[j],
                buses.len() == i + 1,
                reps.len() == i + 1,
                rs.len() == i,
                buses[0] == *old(bus),
                buses.last() == *bus,
                reps[0] == old(reports)@,
                reps.last() == reports@,
                forall|j: int| 0 <= j < i ==> #[trigger] hid_normal_completed(old(class_drivers)@[j], buses[j], reps[j], class_drivers@[j], buses[j + 1], reps[j + 1], addr, buf@, rs[j]),
                res.is_ok() <==> all_ok(rs),
            decreases class_drivers@.len() - i,
        {
            let ri = class_drivers[i].on_normal_completed(bus, addr, buf, reports);
            proof {
                lemma_all_ok_push(rs, ri);
                buses = buses.push(*bus);
                reps = reps.push(reports@);
                rs = rs.push(ri);
            }
            if ri.is_err() && res.is_ok() {
                res = ri;
            }
            i = i + 1;
        }
        proof {
            assert(normal_chain(old(class_drivers)@, class_drivers@, buses, reps, rs, addr, buf@));
        }
        match res {
            Ok(()) => Ok(()),
            Err(e) => Err(DeviceError::Bus(e)),
        }
    }

    /// Tells every class driver, in order, that the endpoints are configured; each sends its
    /// `SET_PROTOCOL` and waits on it.
    pub fn on_endpoints_configured(&self, bus: &mut XHCIBus, class_drivers: &mut Vec<USBHIDClass>) -> (r: Result<(), DeviceError>)
        requires
            old(bus).wf(),
        ensures
            final(bus).wf(),
            final(bus).same_contexts(old(bus)),
            endpoints_configured_outcome(*old(bus), old(class_drivers)@, *final(bus), final(class_drivers)@, r),
    {
        let ghost mut buses: Seq<XHCIBus> = seq![*bus];
        let ghost mut rs: Seq<Result<(), BusError>> = Seq::empty();
        let mut res: Result<(), BusError> = Ok(());
        let mut i: usize = 0;
        while i < class_drivers.len()
            invariant
                bus.wf(),
                bus.same_contexts(old(bus)),
                i <= class_drivers@.len(),
                class_drivers@.len() == old(class_drivers)@.len(),
                forall|j: int| i <= j < class_drivers@.len() ==> #[trigger] class_drivers@[j] == old(class_drivers)@[j],
                buses.len() == i + 1,
                rs.len() == i,
                buses[0] == *old(bus),
                buses.last() == *bus,
                forall|j: int| 0 <= j < i ==> #[trigger] hid_endpoints_configured(old(class_drivers)@[j], buses[j], class_drivers@[j], buses[j + 1], rs[j]),
                res.is_ok() <==> all_ok(rs),
            decreases class_drivers@.len() - i,
        {
            let ri = class_drivers[i].on_endpoints_configured(bus);
            proof {
                lemma_all_ok_push(rs, ri);
                buses = buses.push(*bus);
                rs = rs.push(ri);
            }
            if ri.is_err() && res.is_ok() {
                res = ri;
            }
            i = i + 1;
        }
        proof {
            assert(endpoints_configured_chain(old(class_drivers)@, class_drivers@, buses, rs));
        }
        match res {
            Ok(()) => Ok(()),
            Err(e) => Err(DeviceError::Bus(e)),
        }
    }
}

proof fn lemma_all_ok_push(rs: Seq<Result<(), BusError>>, x: Result<(), BusError>)
    ensures
        all_ok(rs.push(x)) == (all_ok(rs) && x.is_ok()),
{
    if all_ok(rs) && x.is_ok() {
        assert forall|i: int| 0 <= i < rs.push(x).len() implies (#[trigger] rs.push(x)[i]).is_ok() by {
            if i < rs.len() {
                assert(rs.push(x)[i] == rs[i]);
            }
        }
    }
    if all_ok(rs.push(x)) {
        assert(rs.push(x)[rs.len() as int] == x);
        assert forall|i: int| 0 <= i < rs.len() implies (#[trigger] rs[i]).is_ok() by {
            assert(rs.push(x)[i] == rs[i]);
        }
    }
}

} // verus!
