use vstd::prelude::*;

use crate::arraymap::{first_empty_from, lookup, ArrayMap, Entry};
use crate::context::{
    flag_is_set, lemma_set_flag, zero_endpoints, DeviceContext, EndpointContext, InputContext,
    SlotContext, NUM_EP_CONTEXTS,
};
use crate::endpoint::{dci_of, EndpointAddress};
use crate::ring::{push_all, push_model, Ring, RingModel};
use crate::setup::SetupRequest;
use crate::trb::{SetupStage, TransferType, Trb, TrbKey, TrbPos};

verus! {

/// How many control transfers a bus can have in flight at once.
pub const SETUP_STAGE_MAP_CAPACITY: usize = 16;

/// Why a submission to a bus was refused. A refused submission changes nothing.
#[derive(Clone, Copy, Debug, PartialEq, Eq, Structural)]
pub enum BusError {
    /// The endpoint address does not give a Device Context Index in `1..=31`.
    InvalidEndpoint,
    /// The endpoint's Transfer ring has no segment yet.
    RingNotInitialized,
    /// Every slot of the in-flight control transfer table is taken.
    CorrelationTableFull,
}

/// The records of a control transfer: a Setup Stage, then a Data Stage and a Status Stage
/// when there is data, else a Status Stage alone. The status direction is the reverse of the
/// data direction, and IN when there is no data stage. The record the hardware reports
/// completion against comes second.
pub open spec fn control_trbs(req: SetupRequest, is_in: bool, len: u32) -> Seq<Trb> {
    if len > 0 {
        seq![
            Trb::Setup(SetupStage { transfer_type: if is_in { TransferType::In } else { TransferType::Out }, ..req.into_setup_stage_spec() }),
            Trb::Data { length: len, dir_in: is_in, interrupt_on_completion: true, chain: false },
            Trb::Status { dir_in: !is_in, interrupt_on_completion: false },
        ]
    } else {
        seq![
            Trb::Setup(SetupStage { transfer_type: TransferType::No, ..req.into_setup_stage_spec() }),
            Trb::Status { dir_in: true, interrupt_on_completion: true },
        ]
    }
}

/// The record a Normal transfer of `len` bytes pushes.
pub open spec fn normal_trb(len: u32) -> Trb {
    Trb::Normal { length: len, interrupt_on_short_packet: true, interrupt_on_completion: true, chain: false }
}

pub open spec fn cursor(m: RingModel) -> TrbPos {
    TrbPos { seg: m.seg as usize, slot: m.slot as usize }
}

/// What a control submission does: refused with the bus unchanged when the endpoint is
/// invalid, its ring has no segment, or the table is full; otherwise the records pushed,
/// the table entry added and the doorbell rung.
pub open spec fn control_outcome(o: &XHCIBus, n: &XHCIBus, addr: EndpointAddress, req: SetupRequest, is_in: bool, len: u32, r: Result<(), BusError>) -> bool {
    let d = dci_of(addr.0) as int;
    if !(1 <= d <= 31) {
        r == Err::<(), BusError>(BusError::InvalidEndpoint) && n.rings() == o.rings() && n.map() == o.map() && n.doorbells() == o.doorbells()
    } else if !o.rings()[d - 1].is_init_spec() {
        r == Err::<(), BusError>(BusError::RingNotInitialized) && n.rings() == o.rings() && n.map() == o.map() && n.doorbells() == o.doorbells()
    } else if first_empty_from(o.map(), 0) >= o.map().len() {
        r == Err::<(), BusError>(BusError::CorrelationTableFull) && n.rings() == o.rings() && n.map() == o.map() && n.doorbells() == o.doorbells()
    } else {
        let m0 = o.rings()[d - 1]@;
        let t = control_trbs(req, is_in, len);
        &&& r.is_ok()
        &&& n.rings()[d - 1]@ == push_all(m0, t)
        &&& n.rings()[d - 1].is_init_spec()
        &&& forall|i: int| 0 <= i < NUM_EP_CONTEXTS && i != d - 1 ==> #[trigger] n.rings()[i] == o.rings()[i]
        &&& n.map() == o.map().update(
            first_empty_from(o.map(), 0),
            Some((TrbKey { dci: d as u8, pos: cursor(push_model(m0, t[0])) }, cursor(m0))),
        )
        &&& n.doorbells() == o.doorbells().push(d as u8)
    }
}

/// What a Normal submission does: refused with the bus unchanged when the endpoint is
/// invalid or its ring has no segment; otherwise one Normal record pushed and the doorbell
/// rung.
pub open spec fn normal_outcome(o: &XHCIBus, n: &XHCIBus, addr: EndpointAddress, len: u32, r: Result<(), BusError>) -> bool {
    let d = dci_of(addr.0) as int;
    &&& n.map() == o.map()
    &&& if !(1 <= d <= 31) {
        r == Err::<(), BusError>(BusError::InvalidEndpoint) && n.rings() == o.rings() && n.doorbells() == o.doorbells()
    } else if !o.rings()[d - 1].is_init_spec() {
        r == Err::<(), BusError>(BusError::RingNotInitialized) && n.rings() == o.rings() && n.doorbells() == o.doorbells()
    } else {
        &&& r.is_ok()
        &&& n.rings()[d - 1]@ == push_model(o.rings()[d - 1]@, normal_trb(len))
        &&& n.rings()[d - 1].is_init_spec()
        &&& forall|i: int| 0 <= i < NUM_EP_CONTEXTS && i != d - 1 ==> #[trigger] n.rings()[i] == o.rings()[i]
        &&& n.doorbells() == o.doorbells().push(d as u8)
    }
}

/// The Setup Stage that the table maps the record at `issuer` on the ring of `dci` to.
pub open spec fn setup_of(b: XHCIBus, dci: u8, issuer: TrbPos) -> Option<SetupStage> {
    match lookup(b.map(), TrbKey { dci, pos: issuer }) {
        None => None,
        Some(p) => if 1 <= dci <= 31 {
            match b.rings()[dci - 1].block_at_spec(p) {
                Some(blk) => match blk.trb {
                    Trb::Setup(s) => Some(s),
                    _ => None,
                },
                None => None,
            }
        } else {
            None
        },
    }
}

/// `b1` is `b0` with the table entry of the record at `issuer` on the ring of `dci` taken out.
pub open spec fn setup_taken(b0: XHCIBus, b1: XHCIBus, dci: u8, issuer: TrbPos) -> bool {
    let k = TrbKey { dci, pos: issuer };
    &&& b1.wf()
    &&& b1.rings() == b0.rings()
    &&& b1.doorbells() == b0.doorbells()
    &&& b1.same_contexts(&b0)
    &&& match lookup(b0.map(), k) {
        None => b1.map() == b0.map(),
        Some(_) => b1.map() == b0.map().update(crate::arraymap::first_key_from(b0.map(), k, 0), None),
    }
}

/// The per-device façade over the hardware: a Transfer ring per endpoint, the table that
/// correlates in-flight control transfers with their Setup Stage, the input and output
/// contexts, and the doorbell.
pub struct XHCIBus {
    trs: Vec<Ring>,
    setup_stage_map: ArrayMap,
    doorbells: Vec<u8>,
    output_ctx: DeviceContext,
    input_ctx: InputContext,
    use_64byte: bool,
}

impl XHCIBus {
    /// The Transfer rings, by DCI - 1.
    pub closed spec fn rings(&self) -> Seq<Ring> {
        self.trs@
    }

    /// The in-flight control transfer table.
    pub closed spec fn map(&self) -> Seq<Entry> {
        self.setup_stage_map@
    }

    /// The doorbell targets rung so far, oldest first.
    pub closed spec fn doorbells(&self) -> Seq<u8> {
        self.doorbells@
    }

    pub closed spec fn input_flags(&self) -> u32 {
        self.input_ctx.add_flags
    }

    pub closed spec fn input_slot(&self) -> SlotContext {
        self.input_ctx.slot
    }

    pub closed spec fn input_endpoints(&self) -> Seq<EndpointContext> {
        self.input_ctx.endpoints@
    }

    pub closed spec fn output_slot(&self) -> SlotContext {
        self.output_ctx.slot
    }

    pub closed spec fn output_endpoints(&self) -> Seq<EndpointContext> {
        self.output_ctx.endpoints@
    }

    pub closed spec fn uses_64byte(&self) -> bool {
        self.use_64byte
    }

    pub open spec fn wf(&self) -> bool {
        &&& self.rings().len() == NUM_EP_CONTEXTS
        &&& forall|i: int| 0 <= i < NUM_EP_CONTEXTS ==> (#[trigger] self.rings()[i]).wf()
        &&& self.map().len() == SETUP_STAGE_MAP_CAPACITY
        &&& self.input_endpoints().len() == NUM_EP_CONTEXTS
        &&& self.output_endpoints().len() == NUM_EP_CONTEXTS
    }

    /// Everything but the rings, the table and the doorbell log is as in `o`.
    pub open spec fn same_contexts(&self, o: &Self) -> bool {
        &&& self.input_flags() == o.input_flags()
        &&& self.input_slot() == o.input_slot()
        &&& self.input_endpoints() == o.input_endpoints()
        &&& self.output_slot() == o.output_slot()
        &&& self.output_endpoints() == o.output_endpoints()
        &&& self.uses_64byte() == o.uses_64byte()
    }

    /// A bus whose Transfer rings have no segment, with an empty table and zeroed contexts.
    pub fn new(use_64byte: bool) -> (r: Self)
        ensures
            r.wf(),
            forall|i: int| 0 <= i < NUM_EP_CONTEXTS ==> !(#[trigger] r.rings()[i]).is_init_spec(),
            forall|i: int| 0 <= i < SETUP_STAGE_MAP_CAPACITY ==> (#[trigger] r.map()[i]).is_none(),
            r.doorbells().len() == 0,
            r.input_flags() == 0,
            r.input_slot() == SlotContext::zero_spec(),
            r.output_slot() == SlotContext::zero_spec(),
            forall|i: int| 0 <= i < NUM_EP_CONTEXTS ==> #[trigger] r.input_endpoints()[i] == EndpointContext::zero_spec(),
            forall|i: int| 0 <= i < NUM_EP_CONTEXTS ==> #[trigger] r.output_endpoints()[i] == EndpointContext::zero_spec(),
            r.uses_64byte() == use_64byte,
    {
        let mut trs: Vec<Ring> = Vec::new();
        let mut i: usize = 0;
        while i < NUM_EP_CONTEXTS
            invariant
                i <= NUM_EP_CONTEXTS,
                trs@.len() == i,
                forall|j: int| 0 <= j < i ==> (#[trigger] trs@[j]).wf() && !trs@[j].is_init_spec(),
            decreases NUM_EP_CONTEXTS - i,
        {
            trs.push(Ring::new_uninit());
            i = i + 1;
        }
        XHCIBus {
            trs,
            setup_stage_map: ArrayMap::new(SETUP_STAGE_MAP_CAPACITY),
            doorbells: Vec::new(),
            output_ctx: DeviceContext { slot: SlotContext::zero(), endpoints: zero_endpoints() },
            input_ctx: InputContext { add_flags: 0, slot: SlotContext::zero(), endpoints: zero_endpoints() },
            use_64byte,
        }
    }

    /// The root hub port the device hangs on, as the output slot context records it.
    pub fn port_id(&self) -> (r: usize)
        ensures
            r == self.output_slot().root_hub_port_number,
    {
        self.output_ctx.slot.root_hub_port_number as usize
    }

    /// Stands for the hardware writing the output slot context.
    pub fn set_output_slot_ctx(&mut self, slot: SlotContext)
        ensures
            final(self).output_slot() == slot,
            final(self).rings() == old(self).rings(),
            final(self).map() == old(self).map(),
            final(self).doorbells() == old(self).doorbells(),
            final(self).input_flags() == old(self).input_flags(),
            final(self).input_slot() == old(self).input_slot(),
            final(self).input_endpoints() == old(self).input_endpoints(),
            final(self).output_endpoints() == old(self).output_endpoints(),
            final(self).uses_64byte() == old(self).uses_64byte(),
    {
        self.output_ctx.slot = slot;
    }

    /// The input slot context.
    pub fn input_slot_ctx(&self) -> (r: SlotContext)
        ensures
            r == self.input_slot(),
    {
        self.input_ctx.slot
    }

    /// Copies the output slot context into the input slot context.
    pub fn copy_slot_ctx(&mut self)
        ensures
            final(self).input_slot() == old(self).output_slot(),
            final(self).rings() == old(self).rings(),
            final(self).map() == old(self).map(),
            final(self).doorbells() == old(self).doorbells(),
            final(self).input_flags() == old(self).input_flags(),
            final(self).input_endpoints() == old(self).input_endpoints(),
            final(self).output_slot() == old(self).output_slot(),
            final(self).output_endpoints() == old(self).output_endpoints(),
            final(self).uses_64byte() == old(self).uses_64byte(),
    {
        self.input_ctx.slot = self.output_ctx.slot;
    }

    /// Clears the Add Context bitmap.
    pub fn reset_input_ctx(&mut self)
        ensures
            final(self).input_flags() == 0,
            final(self).rings() == old(self).rings(),
            final(self).map() == old(self).map(),
            final(self).doorbells() == old(self).doorbells(),
            final(self).input_slot() == old(self).input_slot(),
            final(self).input_endpoints() == old(self).input_endpoints(),
            final(self).output_slot() == old(self).output_slot(),
            final(self).output_endpoints() == old(self).output_endpoints(),
            final(self).uses_64byte() == old(self).uses_64byte(),
    {
        self.input_ctx.add_flags = 0;
    }

    /// Marks the input slot context for use (bit 0) and gives it the value `slot`.
    pub fn use_input_slot_ctx(&mut self, slot: SlotContext)
        ensures
            final(self).input_flags() == old(self).input_flags() | 1u32,
            forall|j: u32| j < 32 ==> #[trigger] flag_is_set(final(self).input_flags(), j) == (j == 0 || flag_is_set(old(self).input_flags(), j)),
            final(self).input_slot() == slot,
            final(self).rings() == old(self).rings(),
            final(self).map() == old(self).map(),
            final(self).doorbells() == old(self).doorbells(),
            final(self).input_endpoints() == old(self).input_endpoints(),
            final(self).output_slot() == old(self).output_slot(),
            final(self).output_endpoints() == old(self).output_endpoints(),
            final(self).uses_64byte() == old(self).uses_64byte(),
    {
        proof {
            lemma_set_flag(self.input_ctx.add_flags, 0);
            assert(1u32 << 0u32 == 1u32) by (bit_vector);
        }
        self.input_ctx.add_flags = self.input_ctx.add_flags | 1u32;
        self.input_ctx.slot = slot;
    }

    /// Marks the input endpoint context of `addr` for use (bit DCI) and gives it the value `ctx`.
    pub fn use_input_ep_ctx(&mut self, addr: EndpointAddress, ctx: EndpointContext) -> (r: Result<(), BusError>)
        requires
            old(self).wf(),
        ensures
            final(self).wf(),
            final(self).rings() == old(self).rings(),
            final(self).map() == old(self).map(),
            final(self).doorbells() == old(self).doorbells(),
            final(self).output_slot() == old(self).output_slot(),
            final(self).output_endpoints() == old(self).output_endpoints(),
            final(self).input_slot() == old(self).input_slot(),
            final(self).uses_64byte() == old(self).uses_64byte(),
            ({
                let d = dci_of(addr.0) as int;
                if 1 <= d <= 31 {
                    &&& r.is_ok()
                    &&& forall|j: u32| j < 32 ==> #[trigger] flag_is_set(final(self).input_flags(), j) == (j == d || flag_is_set(old(self).input_flags(), j))
                    &&& final(self).input_endpoints() == old(self).input_endpoints().update(d - 1, ctx)
                } else {
                    r == Err::<(), BusError>(BusError::InvalidEndpoint) && final(self).input_flags() == old(self).input_flags()
                        && final(self).input_endpoints() == old(self).input_endpoints()
                }
            }),
    {
        let dci = addr.dci();
        if dci < 1 || dci > 31 {
            return Err(BusError::InvalidEndpoint);
        }
        let d = dci as u32;
        proof {
            lemma_set_flag(self.input_ctx.add_flags, d);
        }
        self.input_ctx.add_flags = self.input_ctx.add_flags | (1u32 << d);
        self.input_ctx.endpoints.set(dci - 1, ctx);
        Ok(())
    }

    /// Gives the Transfer ring of `addr` a first segment of `size` slots if it has none, and
    /// returns the start of the ring.
    pub fn alloc_tr(&mut self, addr: EndpointAddress, size: usize) -> (r: Result<TrbPos, BusError>)
        requires
            old(self).wf(),
            size >= 2,
        ensures
            final(self).wf(),
            final(self).map() == old(self).map(),
            final(self).doorbells() == old(self).doorbells(),
            final(self).same_contexts(old(self)),
            ({
                let d = dci_of(addr.0) as int;
                if 1 <= d <= 31 {
                    &&& r == Ok::<TrbPos, BusError>(TrbPos { seg: 0, slot: 0 })
                    &&& final(self).rings()[d - 1].is_init_spec()
                    &&& (old(self).rings()[d - 1].is_init_spec() ==> final(self).rings() == old(self).rings())
                    &&& (!old(self).rings()[d - 1].is_init_spec() ==> {
                        &&& final(self).rings()[d - 1]@.segs.len() == 1
                        &&& final(self).rings()[d - 1]@.segs[0].len() == size
                        &&& final(self).rings()[d - 1]@.seg == 0
                        &&& final(self).rings()[d - 1]@.slot == 0
                        &&& final(self).rings()[d - 1]@.cycle == old(self).rings()[d - 1]@.cycle
                    })
                    &&& forall|i: int| 0 <= i < NUM_EP_CONTEXTS && i != d - 1 ==> #[trigger] final(self).rings()[i] == old(self).rings()[i]
                } else {
                    r == Err::<TrbPos, BusError>(BusError::InvalidEndpoint) && final(self).rings() == old(self).rings()
                }
            }),
    {
        let dci = addr.dci();
        if dci < 1 || dci > 31 {
            return Err(BusError::InvalidEndpoint);
        }
        if !self.trs[dci - 1].is_init() {
            self.trs[dci - 1].add_segment(size);
        }
        proof {
            assert forall|i: int| 0 <= i < NUM_EP_CONTEXTS implies (#[trigger] self.rings()[i]).wf() by {
                if i != dci - 1 {
                    assert(self.rings()[i] == old(self).rings()[i]);
                }
            }
        }
        Ok(TrbPos { seg: 0, slot: 0 })
    }

    /// Checks that a submission on `addr` can go ahead; the value is `addr`'s DCI.
    fn check_endpoint(&self, addr: EndpointAddress) -> (r: Result<usize, BusError>)
        requires
            self.wf(),
        ensures
            ({
                let d = dci_of(addr.0) as int;
                if !(1 <= d <= 31) {
                    r == Err::<usize, BusError>(BusError::InvalidEndpoint)
                } else if !self.rings()[d - 1].is_init_spec() {
                    r == Err::<usize, BusError>(BusError::RingNotInitialized)
                } else {
                    r == Ok::<usize, BusError>(d as usize)
                }
            }),
    {
        let dci = addr.dci();
        if dci < 1 || dci > 31 {
            return Err(BusError::InvalidEndpoint);
        }
        if !self.trs[dci - 1].is_init() {
            return Err(BusError::RingNotInitialized);
        }
        Ok(dci)
    }

    /// Pushes one record on the ring of `dci`.
    fn push_on(&mut self, dci: usize, trb: Trb) -> (r: TrbPos)
        requires
            old(self).wf(),
            1 <= dci <= 31,
            old(self).rings()[dci - 1].is_init_spec(),
        ensures
            final(self).wf(),
            final(self).rings()[dci - 1].is_init_spec(),
            final(self).rings()[dci - 1]@ == push_model(old(self).rings()[dci - 1]@, trb),
            forall|i: int| 0 <= i < NUM_EP_CONTEXTS && i != dci - 1 ==> #[trigger] final(self).rings()[i] == old(self).rings()[i],
            r == cursor(old(self).rings()[dci - 1]@),
            final(self).map() == old(self).map(),
            final(self).doorbells() == old(self).doorbells(),
            final(self).same_contexts(old(self)),
    {
        let r = self.trs[dci - 1].push(trb);
        proof {
            assert forall|i: int| 0 <= i < NUM_EP_CONTEXTS implies (#[trigger] self.rings()[i]).wf() by {
                if i != dci - 1 {
                    assert(self.rings()[i] == old(self).rings()[i]);
                }
            }
        }
        r
    }

    /// Submits a control transfer on `addr`: the records of `control_trbs`, one table entry
    /// that maps the second record to the Setup Stage, and then, last, the doorbell of the
    /// endpoint.
    fn control_common(&mut self, addr: EndpointAddress, req: SetupRequest, is_in: bool, len: u32) -> (r: Result<(), BusError>)
        requires
            old(self).wf(),
        ensures
            final(self).wf(),
            final(self).same_contexts(old(self)),
            control_outcome(old(self), final(self), addr, req, is_in, len, r),
    {
        let dci = match self.check_endpoint(addr) {
            Ok(d) => d,
            Err(e) => {
                return Err(e);
            },
        };
        if !self.setup_stage_map.has_room() {
            return Err(BusError::CorrelationTableFull);
        }
        let ghost m0 = self.rings()[dci - 1]@;
        let ghost t = control_trbs(req, is_in, len);
        let mut setup = req.into_setup_stage_trb();
        setup.transfer_type = if len > 0 {
            if is_in { TransferType::In } else { TransferType::Out }
        } else {
            TransferType::No
        };
        let setup_pos = self.push_on(dci, Trb::Setup(setup));
        let issuer_pos = if len > 0 {
            let data_pos = self.push_on(dci, Trb::Data { length: len, dir_in: is_in, interrupt_on_completion: true, chain: false });
            let _status_pos = self.push_on(dci, Trb::Status { dir_in: !is_in, interrupt_on_completion: false });
            proof {
                assert(seq![t[0]].drop_last() =~= Seq::<Trb>::empty());
                assert(push_all(m0, Seq::<Trb>::empty()) == m0);
                assert(seq![t[0], t[1]].drop_last() =~= seq![t[0]]);
                assert(t.drop_last() =~= seq![t[0], t[1]]);
                assert(push_all(m0, seq![t[0]]) == push_model(m0, t[0]));
                assert(push_all(m0, seq![t[0], t[1]]) == push_model(push_model(m0, t[0]), t[1]));
            }
            data_pos
        } else {
            let status_pos = self.push_on(dci, Trb::Status { dir_in: true, interrupt_on_completion: true });
            proof {
                assert(seq![t[0]].drop_last() =~= Seq::<Trb>::empty());
                assert(push_all(m0, Seq::<Trb>::empty()) == m0);
                assert(t.drop_last() =~= seq![t[0]]);
                assert(push_all(m0, seq![t[0]]) == push_model(m0, t[0]));
            }
            status_pos
        };
        let ok = self.setup_stage_map.set(TrbKey { dci: dci as u8, pos: issuer_pos }, setup_pos);
        self.doorbells.push(dci as u8);
        Ok(())
    }

    /// A control transfer that reads `len` bytes from the device (none when `len` is 0).
    pub fn control_in(&mut self, addr: EndpointAddress, req: SetupRequest, len: u32) -> (r: Result<(), BusError>)
        requires
            old(self).wf(),
        ensures
            final(self).wf(),
            final(self).same_contexts(old(self)),
            control_outcome(old(self), final(self), addr, req, true, len, r),
    {
        self.control_common(addr, req, true, len)
    }

    /// A control transfer that writes `len` bytes to the device (none when `len` is 0).
    pub fn control_out(&mut self, addr: EndpointAddress, req: SetupRequest, len: u32) -> (r: Result<(), BusError>)
        requires
            old(self).wf(),
        ensures
            final(self).wf(),
            final(self).same_contexts(old(self)),
            control_outcome(old(self), final(self), addr, req, false, len, r),
    {
        self.control_common(addr, req, false, len)
    }

    fn normal_common(&mut self, addr: EndpointAddress, len: u32) -> (r: Result<(), BusError>)
        requires
            old(self).wf(),
        ensures
            final(self).wf(),
            final(self).same_contexts(old(self)),
            normal_outcome(old(self), final(self), addr, len, r),
    {
        let dci = match self.check_endpoint(addr) {
            Ok(d) => d,
            Err(e) => {
                return Err(e);
            },
        };
        let _pos = self.push_on(dci, Trb::Normal { length: len, interrupt_on_short_packet: true, interrupt_on_completion: true, chain: false });
        self.doorbells.push(dci as u8);
        Ok(())
    }

    /// A Normal transfer that reads up to `len` bytes from `addr`.
    pub fn normal_in(&mut self, addr: EndpointAddress, len: u32) -> (r: Result<(), BusError>)
        requires
            old(self).wf(),
        ensures
            final(self).wf(),
            final(self).same_contexts(old(self)),
            normal_outcome(old(self), final(self), addr, len, r),
    {
        self.normal_common(addr, len)
    }

    /// A Normal transfer that writes `len` bytes to `addr`.
    pub fn normal_out(&mut self, addr: EndpointAddress, len: u32) -> (r: Result<(), BusError>)
        requires
            old(self).wf(),
        ensures
            final(self).wf(),
            final(self).same_contexts(old(self)),
            normal_outcome(old(self), final(self), addr, len, r),
    {
        self.normal_common(addr, len)
    }

    /// The record at `pos` of the ring of `dci`.
    pub fn trb_at(&self, dci: u8, pos: TrbPos) -> (r: Option<Trb>)
        requires
            self.wf(),
        ensures
            1 <= dci <= 31 ==> r == (match self.rings()[dci - 1].block_at_spec(pos) {
                Some(b) => Some(b.trb),
                None => None,
            }),
            !(1 <= dci <= 31) ==> r.is_none(),
    {
        if dci < 1 || dci > 31 {
            return None;
        }
        match self.trs[dci as usize - 1].block_at(pos) {
            Some(b) => Some(b.trb),
            None => None,
        }
    }

    /// Takes the table entry of the record at `issuer` on the ring of `dci` and returns the
    /// Setup Stage it maps to.
    pub fn associated_setup_stage(&mut self, dci: u8, issuer: TrbPos) -> (r: Option<SetupStage>)
        requires
            old(self).wf(),
        ensures
            setup_taken(*old(self), *final(self), dci, issuer),
            r == setup_of(*old(self), dci, issuer),
    {
        let k = TrbKey { dci, pos: issuer };
        let taken = self.setup_stage_map.take(k);
        assert(self.map().len() == old(self).map().len());
        assert(self.rings() == old(self).rings());
        match taken {
            None => None,
            Some(p) => {
                match self.trb_at(dci, p) {
                    Some(Trb::Setup(s)) => Some(s),
                    _ => None,
                }
            },
        }
    }
}

} // verus!
