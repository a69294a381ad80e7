use vstd::prelude::*;

use crate::endpoint::EndpointDirectedType;
use crate::trb::TrbPos;

verus! {

/// The Slot sub-context of a device context.
#[derive(Clone, Copy, Debug, PartialEq, Eq, Structural)]
pub struct SlotContext {
    pub route_string: u32,
    pub root_hub_port_number: u8,
    pub context_entries: u8,
    pub speed: u8,
}

/// An Endpoint sub-context of a device context.
#[derive(Clone, Copy, Debug, PartialEq, Eq, Structural)]
pub struct EndpointContext {
    pub endpoint_type: EndpointDirectedType,
    pub max_packet_size: u16,
    pub max_burst_size: u8,
    pub interval: u8,
    pub average_trb_length: u16,
    /// The start of the endpoint's Transfer ring.
    pub tr_dequeue_pointer: TrbPos,
    pub dequeue_cycle_state: bool,
    pub max_primary_streams: u8,
    pub mult: u8,
    pub error_count: u8,
}

/// The number of Endpoint sub-contexts in a device context.
pub const NUM_EP_CONTEXTS: usize = 31;

impl SlotContext {
    pub open spec fn zero_spec() -> Self {
        SlotContext { route_string: 0, root_hub_port_number: 0, context_entries: 0, speed: 0 }
    }

    pub fn zero() -> (r: Self)
        ensures
            r == Self::zero_spec(),
    {
        SlotContext { route_string: 0, root_hub_port_number: 0, context_entries: 0, speed: 0 }
    }
}

impl EndpointContext {
    pub open spec fn zero_spec() -> Self {
        EndpointContext {
            endpoint_type: EndpointDirectedType::NotValid,
            max_packet_size: 0,
            max_burst_size: 0,
            interval: 0,
            average_trb_length: 0,
            tr_dequeue_pointer: TrbPos { seg: 0, slot: 0 },
            dequeue_cycle_state: false,
            max_primary_streams: 0,
            mult: 0,
            error_count: 0,
        }
    }

    pub fn zero() -> (r: Self)
        ensures
            r == Self::zero_spec(),
    {
        EndpointContext {
            endpoint_type: EndpointDirectedType::NotValid,
            max_packet_size: 0,
            max_burst_size: 0,
            interval: 0,
            average_trb_length: 0,
            tr_dequeue_pointer: TrbPos { seg: 0, slot: 0 },
            dequeue_cycle_state: false,
            max_primary_streams: 0,
            mult: 0,
            error_count: 0,
        }
    }
}

/// Whether bit `i` of an Add Context bitmap is set.
pub open spec fn flag_is_set(flags: u32, i: u32) -> bool {
    (flags >> i) & 1 == 1
}

/// Setting one bit of a bitmap sets that bit and keeps every other.
pub proof fn lemma_set_flag(flags: u32, i: u32)
    requires
        i < 32,
    ensures
        forall|j: u32| j < 32 ==> #[trigger] flag_is_set(flags | (1u32 << i), j) == (j == i || flag_is_set(flags, j)),
{
    assert forall|j: u32| j < 32 implies #[trigger] flag_is_set(flags | (1u32 << i), j) == (j == i || flag_is_set(flags, j)) by {
        assert(i < 32 && j < 32 ==> ((((flags | (1u32 << i)) >> j) & 1 == 1) == (j == i || (flags >> j) & 1 == 1))) by (bit_vector);
    }
}

/// A device context: the Slot sub-context and the Endpoint sub-contexts by DCI - 1.
pub struct DeviceContext {
    pub slot: SlotContext,
    pub endpoints: Vec<EndpointContext>,
}

/// An input context: the Add Context bitmap (bit 0 for the slot, bit `dci` for an endpoint)
/// and the sub-contexts the hardware reads on Address Device and Configure Endpoint.
pub struct InputContext {
    pub add_flags: u32,
    pub slot: SlotContext,
    pub endpoints: Vec<EndpointContext>,
}

/// `NUM_EP_CONTEXTS` zeroed endpoint sub-contexts.
pub fn zero_endpoints() -> (r: Vec<EndpointContext>)
    ensures
        r@.len() == NUM_EP_CONTEXTS,
        forall|i: int| 0 <= i < NUM_EP_CONTEXTS ==> #[trigger] r@[i] == EndpointContext::zero_spec(),
{
    let mut v: Vec<EndpointContext> = Vec::new();
    let mut i: usize = 0;
    while i < NUM_EP_CONTEXTS
        invariant
            i <= NUM_EP_CONTEXTS,
            v@.len() == i,
            forall|j: int| 0 <= j < i ==> #[trigger] v@[j] == EndpointContext::zero_spec(),
        decreases NUM_EP_CONTEXTS - i,
    {
        v.push(EndpointContext::zero());
        i = i + 1;
    }
    v
}

} // verus!
