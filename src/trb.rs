use vstd::prelude::*;


verus! {

/// The position of a record in a ring: segment index and slot index within the segment.
/// It stands where the hardware reports the address of a record.
#[derive(Clone, Copy, Debug, PartialEq, Eq, Structural)]
pub struct TrbPos {
    pub seg: usize,
    pub slot: usize,
}

/// Names a record of a device's Transfer ring: the endpoint's Device Context Index and the
/// record's position in that endpoint's ring.
#[derive(Clone, Copy, Debug, PartialEq, Eq, Structural)]
pub struct TrbKey {
    pub dci: u8,
    pub pos: TrbPos,
}

/// The Transfer Type field of a Setup Stage record.
#[derive(Clone, Copy, Debug, PartialEq, Eq, Structural)]
pub enum TransferType {
    /// No data stage.
    No,
    /// An OUT data stage.
    Out,
    /// An IN data stage.
    In,
}

/// The fields of a Setup Stage record.
#[derive(Clone, Copy, Debug, PartialEq, Eq, Structural)]
pub struct SetupStage {
    pub request_type: u8,
    pub request: u8,
    pub value: u16,
    pub index: u16,
    pub length: u16,
    pub transfer_type: TransferType,
}

/// A record of a Command or Transfer ring, without its cycle bit.
#[derive(Clone, Copy, Debug, PartialEq, Eq, Structural)]
pub enum Trb {
    /// A slot that holds nothing yet.
    Empty,
    /// A Normal transfer of `length` bytes on an interrupt or bulk endpoint.
    Normal { length: u32, interrupt_on_short_packet: bool, interrupt_on_completion: bool, chain: bool },
    /// The Setup Stage of a control transfer.
    Setup(SetupStage),
    /// The Data Stage of a control transfer, of `length` bytes.
    Data { length: u32, dir_in: bool, interrupt_on_completion: bool, chain: bool },
    /// The Status Stage of a control transfer.
    Status { dir_in: bool, interrupt_on_completion: bool },
    /// A Link record that sends the consumer on to the start of segment `target_seg`.
    Link { target_seg: usize, toggle_cycle: bool, chain: bool },
    /// The Enable Slot command.
    EnableSlot,
    /// The Address Device command, for a slot and its input context.
    AddressDevice { slot_id: u8 },
    /// The Configure Endpoint command, for a slot and its input context.
    ConfigureEndpoint { slot_id: u8 },
}

impl Trb {
    /// The chain flag of a transfer record; records without one report `false`.
    pub open spec fn chain_spec(&self) -> bool {
        match *self {
            Trb::Normal { chain, .. } => chain,
            Trb::Data { chain, .. } => chain,
            Trb::Link { chain, .. } => chain,
            _ => false,
        }
    }

    pub fn chain_bit(&self) -> (r: bool)
        ensures
            r == self.chain_spec(),
    {
        match *self {
            Trb::Normal { chain, .. } => chain,
            Trb::Data { chain, .. } => chain,
            Trb::Link { chain, .. } => chain,
            _ => false,
        }
    }
}

/// A ring slot: a record together with the cycle bit it was written with.
#[derive(Clone, Copy, Debug, PartialEq, Eq, Structural)]
pub struct Block {
    pub trb: Trb,
    pub cycle: bool,
}

/// Completion codes that the driver tells apart.
pub const COMPLETION_SUCCESS: u8 = 1;
pub const COMPLETION_SHORT_PACKET: u8 = 13;

/// A record of the Event ring, without its cycle bit.
#[derive(Clone, Copy, Debug, PartialEq, Eq, Structural)]
pub enum EventTrb {
    /// A slot that holds nothing yet.
    Empty,
    /// A port's status changed.
    PortStatusChange { port_id: u8 },
    /// A transfer record completed; `residual` is the part of its length left untransferred.
    Transfer { slot_id: u8, endpoint_id: u8, trb: TrbPos, completion_code: u8, residual: u32 },
    /// A command record completed.
    CommandCompletion { slot_id: u8, command: TrbPos, completion_code: u8 },
}

/// An Event ring slot: a record together with the cycle bit the producer wrote.
#[derive(Clone, Copy, Debug, PartialEq, Eq, Structural)]
pub struct EventBlock {
    pub trb: EventTrb,
    pub cycle: bool,
}

} // verus!
