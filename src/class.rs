use vstd::prelude::*;

use crate::bus::{control_outcome, normal_outcome, BusError, XHCIBus};
use crate::endpoint::{EndpointAddress, EndpointConfig, EndpointDirectedType};
use crate::setup::{set_protocol, set_protocol_spec, SetupRequest};

verus! {

/// Whether bit `b` of a word is set.
pub open spec fn word_bit(w: u64, b: u64) -> bool {
    (w >> b) & 1 == 1
}

/// The set of currently pressed keys: bit `k` stands for key code `k`.
#[derive(Clone, Copy, Debug, PartialEq, Eq, Structural)]
pub struct KeyboardBitSet {
    pub w0: u64,
    pub w1: u64,
    pub w2: u64,
    pub w3: u64,
}

impl KeyboardBitSet {
    pub open spec fn word_spec(&self, i: int) -> u64 {
        if i == 0 {
            self.w0
        } else if i == 1 {
            self.w1
        } else if i == 2 {
            self.w2
        } else {
            self.w3
        }
    }

    /// Whether key `k` is in the set.
    pub open spec fn has(&self, k: u8) -> bool {
        word_bit(self.word_spec(k as int / 64), (k % 64) as u64)
    }

    pub open spec fn empty_spec() -> Self {
        KeyboardBitSet { w0: 0, w1: 0, w2: 0, w3: 0 }
    }

    /// The empty set.
    pub fn empty() -> (r: Self)
        ensures
            r == Self::empty_spec(),
            forall|k: u8| !(#[trigger] r.has(k)),
    {
        let r = KeyboardBitSet { w0: 0, w1: 0, w2: 0, w3: 0 };
        assert forall|k: u8| !(#[trigger] r.has(k)) by {
            let b = (k % 64) as u64;
            assert(((0u64 >> b) & 1) == 0) by (bit_vector);
        }
        r
    }

    /// Whether key `k` is in the set.
    pub fn get(&self, k: u8) -> (r: bool)
        ensures
            r == self.has(k),
    {
        let b = (k % 64) as u64;
        let w = if k < 64 {
            self.w0
        } else if k < 128 {
            self.w1
        } else if k < 192 {
            self.w2
        } else {
            self.w3
        };
        (w >> b) & 1 == 1
    }

    /// Puts key `k` in the set (`v`) or takes it out (`!v`); every other key stays as it was.
    pub fn set(&mut self, k: u8, v: bool)
        ensures
            final(self).has(k) == v,
            forall|j: u8| j != k ==> #[trigger] final(self).has(j) == old(self).has(j),
    {
        let b = (k % 64) as u64;
        let w = if k < 64 {
            self.w0
        } else if k < 128 {
            self.w1
        } else if k < 192 {
            self.w2
        } else {
            self.w3
        };
        let nw = if v { w | (1u64 << b) } else { w & !(1u64 << b) };
        assert(b < 64 ==> (((w | (1u64 << b)) >> b) & 1 == 1) && (((w & !(1u64 << b)) >> b) & 1 == 0)) by (bit_vector);
        assert forall|c: u64| c < 64 && c != b implies #[trigger] word_bit(nw, c) == word_bit(w, c) by {
            assert(b < 64 && c < 64 && c != b ==> ((((w | (1u64 << b)) >> c) & 1) == ((w >> c) & 1))
                && ((((w & !(1u64 << b)) >> c) & 1) == ((w >> c) & 1))) by (bit_vector);
        }
        if k < 64 {
            self.w0 = nw;
        } else if k < 128 {
            self.w1 = nw;
        } else if k < 192 {
            self.w2 = nw;
        } else {
            self.w3 = nw;
        }
        assert forall|j: u8| j != k implies #[trigger] final(self).has(j) == old(self).has(j) by {
            if j as int / 64 == k as int / 64 {
                assert((j % 64) as u64 != b);
            }
        }
    }
}

/// A boot-protocol mouse packet: a button bitfield and signed x/y moves.
#[derive(Clone, Copy, Debug, PartialEq, Eq, Structural)]
pub struct MousePacket {
    pub buttons: u8,
    pub x: i8,
    pub y: i8,
}

/// What a mouse listener receives: the packet as it came.
pub type MouseReport = MousePacket;

/// A boot-protocol keyboard packet: a modifier byte, a reserved byte, up to six key codes.
#[derive(Clone, Copy, Debug)]
pub struct KeyboardPacket {
    pub modifier: u8,
    pub reserved: u8,
    pub keys: [u8; 6],
}

/// What a keyboard listener receives: the modifier byte and the pressed keys now and at the
/// previous packet, so that a listener can tell presses from releases.
#[derive(Clone, Copy, Debug, PartialEq, Eq, Structural)]
pub struct KeyboardReport {
    pub modifier: u8,
    pub cur_keys: KeyboardBitSet,
    pub prev_keys: KeyboardBitSet,
}

/// The keys that a packet reports pressed: its key codes, except the code 0 that means none.
pub open spec fn pressed_in(keys: Seq<u8>, k: u8) -> bool {
    k != 0 && exists|i: int| 0 <= i < keys.len() && keys[i] == k
}

impl MousePacket {
    /// The packet in its first three bytes; bytes missing from `buf` read as 0.
    pub fn from_bytes(buf: &[u8]) -> (r: Self)
        ensures
            r.buttons == (if buf@.len() > 0 { buf@[0] } else { 0 }),
            r.x == (if buf@.len() > 1 { buf@[1] as i8 } else { 0 }),
            r.y == (if buf@.len() > 2 { buf@[2] as i8 } else { 0 }),
    {
        MousePacket {
            buttons: if buf.len() > 0 { buf[0] } else { 0 },
            x: if buf.len() > 1 { buf[1] as i8 } else { 0 },
            y: if buf.len() > 2 { buf[2] as i8 } else { 0 },
        }
    }

    /// A mouse report carries the packet unchanged.
    pub fn create_report(&self) -> (r: MouseReport)
        ensures
            r == *self,
    {
        *self
    }
}

impl KeyboardPacket {
    /// The packet in its first eight bytes; bytes missing from `buf` read as 0.
    pub fn from_bytes(buf: &[u8]) -> (r: Self)
        ensures
            r.modifier == (if buf@.len() > 0 { buf@[0] } else { 0 }),
            r.reserved == (if buf@.len() > 1 { buf@[1] } else { 0 }),
            forall|i: int| 0 <= i < 6 ==> #[trigger] r.keys@[i] == (if buf@.len() > i + 2 { buf@[i + 2] } else { 0 }),
    {
        let mut keys: [u8; 6] = [0u8; 6];
        let mut i: usize = 0;
        while i < 6
            invariant
                i <= 6,
                keys@.len() == 6,
                forall|j: int| 0 <= j < i ==> #[trigger] keys@[j] == (if buf@.len() > j + 2 { buf@[j + 2] } else { 0 }),
            decreases 6 - i,
        {
            let v = if buf.len() > i + 2 { buf[i + 2] } else { 0 };
            keys[i] = v;
            i = i + 1;
        }
        KeyboardPacket {
            modifier: if buf.len() > 0 { buf[0] } else { 0 },
            reserved: if buf.len() > 1 { buf[1] } else { 0 },
            keys,
        }
    }

    /// The report for this packet given the keys pressed at the previous one, and the keys
    /// pressed now, to be handed to the next call.
    pub fn create_report(&self, prev_keys: KeyboardBitSet) -> (r: (KeyboardReport, KeyboardBitSet))
        ensures
            r.0.modifier == self.modifier,
            r.0.prev_keys == prev_keys,
            r.1 == r.0.cur_keys,
            forall|k: u8| #[trigger] r.0.cur_keys.has(k) == pressed_in(self.keys@, k),
    {
        let mut cur = KeyboardBitSet::empty();
        let mut i: usize = 0;
        while i < 6
            invariant
                i <= 6,
                self.keys@.len() == 6,
                forall|k: u8| #[trigger] cur.has(k) == (exists|j: int| 0 <= j < i && self.keys@[j] == k),
            decreases 6 - i,
        {
            let key = self.keys[i];
            let ghost before = cur;
            cur.set(key, true);
            assert forall|k: u8| #[trigger] cur.has(k) == (exists|j: int| 0 <= j < i + 1 && self.keys@[j] == k) by {
                if k == key {
                    assert(self.keys@[i as int] == k);
                } else {
                    assert(cur.has(k) == before.has(k));
                    if exists|j: int| 0 <= j < i + 1 && self.keys@[j] == k {
                        let j = choose|j: int| 0 <= j < i + 1 && self.keys@[j] == k;
                        assert(j < i);
                    }
                }
            }
            i = i + 1;
        }
        cur.set(0, false);
        (KeyboardReport { modifier: self.modifier, cur_keys: cur, prev_keys }, cur)
    }
}

/// A report handed to a listener.
#[derive(Clone, Copy, Debug, PartialEq, Eq, Structural)]
pub enum Report {
    Keyboard(KeyboardReport),
    Mouse(MouseReport),
}

/// The boot-protocol HID device kinds a driver exists for.
#[derive(Clone, Copy, Debug, PartialEq, Eq, Structural)]
pub enum HidKind {
    Keyboard,
    Mouse,
}

impl HidKind {
    pub open spec fn packet_len_spec(&self) -> u32 {
        match *self {
            HidKind::Keyboard => 8,
            HidKind::Mouse => 3,
        }
    }

    /// The size of the packet a device of this kind sends.
    pub fn packet_len(&self) -> (r: u32)
        ensures
            r == self.packet_len_spec(),
    {
        match *self {
            HidKind::Keyboard => 8,
            HidKind::Mouse => 3,
        }
    }
}

/// The address of the last configuration in `configs` whose type is `ty`, or `default`.
pub open spec fn last_addr_with(configs: Seq<EndpointConfig>, ty: EndpointDirectedType, default: EndpointAddress) -> EndpointAddress
    decreases configs.len(),
{
    if configs.len() == 0 {
        default
    } else if configs.last().ep_type.with_dir_spec(configs.last().addr.is_in_spec()) == ty {
        configs.last().addr
    } else {
        last_addr_with(configs.drop_last(), ty, default)
    }
}

/// A boot-protocol HID class driver for one interface.
#[derive(Clone, Copy, Debug)]
pub struct USBHIDClass {
    pub kind: HidKind,
    pub ep_interrupt_in: EndpointAddress,
    pub ep_interrupt_out: EndpointAddress,
    pub if_index: u16,
    /// The class request this driver waits on, if any.
    pub last_req: Option<SetupRequest>,
    /// The keys pressed at the previous keyboard packet.
    pub prev: KeyboardBitSet,
}

/// What a driver does when a control transfer completes: only the completion of the request it
/// waits on counts; it then stops waiting and arms the first read of its interrupt-IN endpoint.
pub open spec fn hid_control_completed(c: USBHIDClass, b0: XHCIBus, c1: USBHIDClass, b1: XHCIBus, req: SetupRequest, r: Result<(), BusError>) -> bool {
    &&& b1.wf()
    &&& if c.last_req == Some(req) {
        &&& c1 == USBHIDClass { last_req: None, ..c }
        &&& normal_outcome(&b0, &b1, c.ep_interrupt_in, c.kind.packet_len_spec(), r)
        &&& b1.same_contexts(&b0)
    } else {
        c1 == c && b1 == b0 && r.is_ok()
    }
}

/// What a driver does with a completed Normal transfer on `addr` whose buffer holds `buf`: a
/// packet on its interrupt-IN endpoint becomes a report appended to `rep0`, and the next read is
/// armed; a packet on any other endpoint is not its concern.
pub open spec fn hid_normal_completed(c0: USBHIDClass, b0: XHCIBus, rep0: Seq<Report>, c1: USBHIDClass, b1: XHCIBus, rep1: Seq<Report>, addr: EndpointAddress, buf: Seq<u8>, r: Result<(), BusError>) -> bool {
    &&& b1.wf()
    &&& (addr != c0.ep_interrupt_in ==> c1 == c0 && b1 == b0 && rep1 == rep0 && r.is_ok())
    &&& (addr == c0.ep_interrupt_in ==> {
            &&& normal_outcome(&b0, &b1, addr, c0.kind.packet_len_spec(), r)
            &&& b1.same_contexts(&b0)
            &&& rep1.len() == rep0.len() + 1
            &&& rep1.take(rep0.len() as int) == rep0
            &&& c1.kind == c0.kind
            &&& c1.ep_interrupt_in == c0.ep_interrupt_in
            &&& c1.ep_interrupt_out == c0.ep_interrupt_out
            &&& c1.if_index == c0.if_index
            &&& c1.last_req == c0.last_req
            &&& match c0.kind {
                HidKind::Mouse => rep1.last() == Report::Mouse(MousePacket {
                    buttons: if buf.len() > 0 { buf[0] } else { 0 },
                    x: if buf.len() > 1 { buf[1] as i8 } else { 0 },
                    y: if buf.len() > 2 { buf[2] as i8 } else { 0 },
                }) && c1.prev == c0.prev,
                HidKind::Keyboard => match rep1.last() {
                    Report::Keyboard(kr) => {
                        &&& kr.modifier == (if buf.len() > 0 { buf[0] } else { 0 })
                        &&& kr.prev_keys == c0.prev
                        &&& c1.prev == kr.cur_keys
                        &&& forall|k: u8| #[trigger] kr.cur_keys.has(k) == (k != 0 && exists|i: int| 2 <= i < 8 && i < buf.len() && buf[i] == k)
                    },
                    Report::Mouse(_) => false,
                },
            }
        })
}

/// What a driver does once the endpoints are configured: it sends `SET_PROTOCOL` for its
/// interface on the control endpoint and waits on that request.
pub open spec fn hid_endpoints_configured(c0: USBHIDClass, b0: XHCIBus, c1: USBHIDClass, b1: XHCIBus, r: Result<(), BusError>) -> bool {
    &&& b1.wf()
    &&& b1.same_contexts(&b0)
    &&& control_outcome(&b0, &b1, EndpointAddress(0x80), set_protocol_spec(c0.if_index), false, 0, r)
    &&& c1 == (USBHIDClass { last_req: Some(set_protocol_spec(c0.if_index)), ..c0 })
}

/// A fresh driver of the given kind for interface `if_index`.
pub open spec fn hid_new_spec(kind: HidKind, if_index: u16) -> USBHIDClass {
    USBHIDClass {
        kind,
        ep_interrupt_in: EndpointAddress(0),
        ep_interrupt_out: EndpointAddress(0),
        if_index,
        last_req: None,
        prev: KeyboardBitSet::empty_spec(),
    }
}

impl USBHIDClass {
    /// A driver of the given kind for interface `if_index`, with no endpoint known yet.
    pub fn new(kind: HidKind, if_index: u16) -> (r: Self)
        ensures
            r == hid_new_spec(kind, if_index),
            r.kind == kind,
            r.if_index == if_index,
            r.ep_interrupt_in.0 == 0,
            r.ep_interrupt_out.0 == 0,
            r.last_req.is_none(),
            forall|k: u8| !(#[trigger] r.prev.has(k)),
    {
        USBHIDClass {
            kind,
            ep_interrupt_in: EndpointAddress::from_byte(0),
            ep_interrupt_out: EndpointAddress::from_byte(0),
            if_index,
            last_req: None,
            prev: KeyboardBitSet::empty(),
        }
    }

    /// Takes the interrupt IN and OUT endpoints from the configurations (the last of each wins).
    pub fn set_endpoint(&mut self, configs: &[EndpointConfig])
        ensures
            final(self).ep_interrupt_in == last_addr_with(configs@, EndpointDirectedType::InterruptIn, old(self).ep_interrupt_in),
            final(self).ep_interrupt_out == last_addr_with(configs@, EndpointDirectedType::InterruptOut, old(self).ep_interrupt_out),
            final(self).kind == old(self).kind,
            final(self).if_index == old(self).if_index,
            final(self).last_req == old(self).last_req,
            final(self).prev == old(self).prev,
    {
        let mut i: usize = 0;
        while i < configs.len()
            invariant
                i <= configs@.len(),
                self.ep_interrupt_in == last_addr_with(configs@.take(i as int), EndpointDirectedType::InterruptIn, old(self).ep_interrupt_in),
                self.ep_interrupt_out == last_addr_with(configs@.take(i as int), EndpointDirectedType::InterruptOut, old(self).ep_interrupt_out),
                self.kind == old(self).kind,
                self.if_index == old(self).if_index,
                self.last_req == old(self).last_req,
                self.prev == old(self).prev,
            decreases configs@.len() - i,
        {
            let cfg = configs[i];
            let ty = cfg.ep_type_with_dir();
            assert(configs@.take(i + 1).drop_last() =~= configs@.take(i as int));
            match ty {
                EndpointDirectedType::InterruptIn => {
                    self.ep_interrupt_in = cfg.addr;
                },
                EndpointDirectedType::InterruptOut => {
                    self.ep_interrupt_out = cfg.addr;
                },
                _ => {},
            }
            i = i + 1;
        }
        assert(configs@.take(configs@.len() as int) =~= configs@);
    }

    /// Sends `SET_PROTOCOL` (boot protocol) for the interface and waits on its completion.
    pub fn on_endpoints_configured(&mut self, bus: &mut XHCIBus) -> (r: Result<(), BusError>)
        requires
            old(bus).wf(),
        ensures
            final(bus).wf(),
            hid_endpoints_configured(*old(self), *old(bus), *final(self), *final(bus), r),
    {
        let req = set_protocol(self.if_index);
        let ctl = EndpointAddress::control();
        let r = bus.control_out(ctl, req, 0);
        self.last_req = Some(req);
        r
    }

    /// Once the request it waits on completes, arms the first read of the interrupt-IN endpoint.
    pub fn on_control_completed(&mut self, bus: &mut XHCIBus, req: SetupRequest) -> (r: Result<(), BusError>)
        requires
            old(bus).wf(),
        ensures
            final(bus).wf(),
            hid_control_completed(*old(self), *old(bus), *final(self), *final(bus), req, r),
    {
        match self.last_req {
            Some(q) => {
                if q == req {
                    self.last_req = None;
                    let len = self.kind.packet_len();
                    return bus.normal_in(self.ep_interrupt_in, len);
                }
            },
            None => {},
        }
        Ok(())
    }

    /// A packet arrived on `addr`: if it is this driver's interrupt-IN endpoint, turns the bytes
    /// into a report, queues it for the listener, and arms the next read.
    pub fn on_normal_completed(&mut self, bus: &mut XHCIBus, addr: EndpointAddress, buf: &[u8], reports: &mut Vec<Report>) -> (r: Result<(), BusError>)
        requires
            old(bus).wf(),
        ensures
            final(bus).wf(),
            hid_normal_completed(*old(self), *old(bus), old(reports)@, *final(self), *final(bus), final(reports)@, addr, buf@, r),
    {
        if addr != self.ep_interrupt_in {
            return Ok(());
        }
        match self.kind {
            HidKind::Mouse => {
                let p = MousePacket::from_bytes(buf);
                reports.push(Report::Mouse(p.create_report()));
            },
            HidKind::Keyboard => {
                let p = KeyboardPacket::from_bytes(buf);
                let (report, info) = p.create_report(self.prev);
                proof {
                    assert forall|k: u8| #[trigger] report.cur_keys.has(k) == (k != 0 && exists|i: int| 2 <= i < 8 && i < buf@.len() && buf@[i] == k) by {
                        if k != 0 {
                            if exists|i: int| 2 <= i < 8 && i < buf@.len() && buf@[i] == k {
                                let i = choose|i: int| 2 <= i < 8 && i < buf@.len() && buf@[i] == k;
                                assert(p.keys@[i - 2] == k);
                            }
                            if pressed_in(p.keys@, k) {
                                let j = choose|j: int| 0 <= j < p.keys@.len() && p.keys@[j] == k;
                                assert(p.keys@[j] == (if buf@.len() > j + 2 { buf@[j + 2] } else { 0 }));
                            }
                        }
                    }
                }
                reports.push(Report::Keyboard(report));
                self.prev = info;
            },
        }
        assert(reports@.take(old(reports)@.len() as int) =~= old(reports)@);
        let len = self.kind.packet_len();
        bus.normal_in(self.ep_interrupt_in, len)
    }
}

/// The driver for an interface with the given class, subclass and protocol: boot keyboard
/// `(3, 1, 1)` or boot mouse `(3, 1, 2)`; any other interface gets none.
pub open spec fn class_for(base: u8, sub: u8, protocol: u8) -> Option<HidKind> {
    if base == 3 && sub == 1 && protocol == 1 {
        Some(HidKind::Keyboard)
    } else if base == 3 && sub == 1 && protocol == 2 {
        Some(HidKind::Mouse)
    } else {
        None
    }
}

/// A driver for the interface numbered `index`, when its class triple is supported.
pub fn new_class_from_interface(base: u8, sub: u8, protocol: u8, index: u8) -> (r: Option<USBHIDClass>)
    ensures
        match class_for(base, sub, protocol) {
            None => r.is_none(),
            Some(kind) => r == Some(hid_new_spec(kind, index as u16)) && r.unwrap().kind == kind && r.unwrap().if_index == index
                && r.unwrap().ep_interrupt_in.0 == 0 && r.unwrap().ep_interrupt_out.0 == 0
                && r.unwrap().last_req.is_none() && (forall|k: u8| !(#[trigger] r.unwrap().prev.has(k))),
        },
{
    if base == 3 && sub == 1 && protocol == 1 {
        Some(USBHIDClass::new(HidKind::Keyboard, index as u16))
    } else if base == 3 && sub == 1 && protocol == 2 {
        Some(USBHIDClass::new(HidKind::Mouse, index as u16))
    } else {
        None
    }
}

} // verus!
