use vstd::prelude::*;
use vstd::arithmetic::div_mod::lemma_fundamental_div_mod_converse;

use crate::trb::{Block, EventBlock, EventTrb, Trb, TrbPos};

verus! {

/// The alignment, in bytes, that the hardware asks of each ring segment.
pub const RING_BUF_BASE_ALIGN: usize = 64;

/// The most segments an Event Ring Segment Table can register.
pub const MAX_ERST_ENTRIES: usize = 255;

/// What a push-only ring holds, as mathematical values.
pub struct RingModel {
    pub segs: Seq<Seq<Block>>,
    pub seg: int,
    pub slot: int,
    pub cycle: bool,
}

/// A well-formed ring: at least one segment, each with room for a record and a Link, and the
/// enqueue cursor on a slot before the last one of its segment.
pub open spec fn ring_wf(m: RingModel) -> bool {
    &&& m.segs.len() > 0
    &&& 0 <= m.seg < m.segs.len()
    &&& 0 <= m.slot < m.segs[m.seg].len() - 1
    &&& forall|i: int| 0 <= i < m.segs.len() ==> #[trigger] m.segs[i].len() >= 2
}

/// The segment that follows `s`, wrapping from the last back to the first.
pub open spec fn next_seg(m: RingModel, s: int) -> int {
    if s == m.segs.len() - 1 { 0 } else { s + 1 }
}

/// The ring after pushing `trb`: the record goes to the cursor with the current cycle bit. When
/// the cursor then reaches the last slot of its segment, a Link to the next segment is written
/// there with the same cycle bit (toggle flag set exactly when wrapping to the first segment,
/// chain flag copied from the record), the cursor moves to slot 0 of the next segment, and on a
/// wrap the cycle bit flips.
pub open spec fn push_model(m: RingModel, trb: Trb) -> RingModel {
    let s = m.seg;
    let b = m.slot;
    let written = m.segs[s].update(b, Block { trb, cycle: m.cycle });
    if b + 1 < m.segs[s].len() - 1 {
        RingModel { segs: m.segs.update(s, written), seg: s, slot: b + 1, cycle: m.cycle }
    } else {
        let n = next_seg(m, s);
        let link = Block {
            trb: Trb::Link { target_seg: n as usize, toggle_cycle: n == 0, chain: trb.chain_spec() },
            cycle: m.cycle,
        };
        RingModel {
            segs: m.segs.update(s, written.update(b + 1, link)),
            seg: n,
            slot: 0,
            cycle: if n == 0 { !m.cycle } else { m.cycle },
        }
    }
}

/// The ring after pushing each record of `t` in turn.
pub open spec fn push_all(m: RingModel, t: Seq<Trb>) -> RingModel
    decreases t.len(),
{
    if t.len() == 0 {
        m
    } else {
        push_model(push_all(m, t.drop_last()), t.last())
    }
}

/// A segment of `size` slots that hold nothing.
fn empty_segment(size: usize) -> (r: Vec<Block>)
    ensures
        r@.len() == size,
        forall|i: int| 0 <= i < size ==> #[trigger] r@[i] == (Block { trb: Trb::Empty, cycle: false }),
{
    let mut v: Vec<Block> = Vec::new();
    let mut i: usize = 0;
    while i < size
        invariant
            i <= size,
            v@.len() == i,
            forall|j: int| 0 <= j < i ==> #[trigger] v@[j] == (Block { trb: Trb::Empty, cycle: false }),
        decreases size - i,
    {
        v.push(Block { trb: Trb::Empty, cycle: false });
        i = i + 1;
    }
    v
}

/// A push-only ring of records (a Command ring or a Transfer ring), made of segments chained
/// by Link records. The hardware consumes it; software only pushes.
pub struct Ring {
    segs: Vec<Vec<Block>>,
    seg_cur: usize,
    block_cur: usize,
    cycle_bit: bool,
}

impl Ring {
    pub closed spec fn view(&self) -> RingModel {
        RingModel {
            segs: self.segs@.map_values(|v: Vec<Block>| v@),
            seg: self.seg_cur as int,
            slot: self.block_cur as int,
            cycle: self.cycle_bit,
        }
    }

    /// A ring with no segment yet, or a well-formed one.
    pub open spec fn wf(&self) -> bool {
        &&& (self@.segs.len() == 0 ==> self@.seg == 0 && self@.slot == 0)
        &&& (self@.segs.len() > 0 ==> ring_wf(self@))
    }

    pub open spec fn is_init_spec(&self) -> bool {
        self@.segs.len() > 0
    }

    /// A ring with no segment allocated, cycle bit set.
    pub fn new_uninit() -> (r: Self)
        ensures
            r.wf(),
            !r.is_init_spec(),
            r@.cycle,
            r@.seg == 0 && r@.slot == 0,
    {
        Ring { segs: Vec::new(), seg_cur: 0, block_cur: 0, cycle_bit: true }
    }

    /// A ring with one segment of `size` empty slots, cursor at its start, cycle bit set.
    pub fn new(size: usize) -> (r: Self)
        requires
            size >= 2,
        ensures
            r.wf(),
            r.is_init_spec(),
            r@.segs.len() == 1,
            r@.segs[0].len() == size,
            forall|i: int| 0 <= i < size ==> #[trigger] r@.segs[0][i] == (Block { trb: Trb::Empty, cycle: false }),
            r@.seg == 0 && r@.slot == 0 && r@.cycle,
    {
        let mut r = Self::new_uninit();
        r.add_segment(size);
        r
    }

    /// Whether the ring has a segment.
    pub fn is_init(&self) -> (r: bool)
        ensures
            r == self.is_init_spec(),
    {
        self.segs.len() > 0
    }

    /// The number of segments.
    pub fn num_segments(&self) -> (r: usize)
        ensures
            r == self@.segs.len(),
    {
        self.segs.len()
    }

    /// Appends a segment of `size` empty slots; the cursor and cycle bit stay as they were.
    pub fn add_segment(&mut self, size: usize)
        requires
            old(self).wf(),
            size >= 2,
        ensures
            final(self).wf(),
            final(self)@.segs.len() == old(self)@.segs.len() + 1,
            final(self)@.segs.take(old(self)@.segs.len() as int) == old(self)@.segs,
            final(self)@.segs.last().len() == size,
            forall|i: int| 0 <= i < size ==> #[trigger] final(self)@.segs.last()[i] == (Block { trb: Trb::Empty, cycle: false }),
            final(self)@.seg == old(self)@.seg,
            final(self)@.slot == old(self)@.slot,
            final(self)@.cycle == old(self)@.cycle,
    {
        let seg = empty_segment(size);
        self.segs.push(seg);
        let ghost m = self@;
        assert(m.segs.take(m.segs.len() - 1) =~= old(self)@.segs);
        assert forall|i: int| 0 <= i < m.segs.len() implies #[trigger] m.segs[i].len() >= 2 by {
            if i < m.segs.len() - 1 {
                assert(m.segs[i] == old(self)@.segs[i]);
            }
        }
    }

    pub open spec fn block_at_spec(&self, pos: TrbPos) -> Option<Block> {
        if pos.seg < self@.segs.len() && pos.slot < self@.segs[pos.seg as int].len() {
            Some(self@.segs[pos.seg as int][pos.slot as int])
        } else {
            None
        }
    }

    /// The record at a position, with its cycle bit.
    pub fn block_at(&self, pos: TrbPos) -> (r: Option<Block>)
        ensures
            r == self.block_at_spec(pos),
    {
        if pos.seg < self.segs.len() && pos.slot < self.segs[pos.seg].len() {
            Some(self.segs[pos.seg][pos.slot])
        } else {
            None
        }
    }

    /// The position the next push writes to.
    pub fn enqueue_pos(&self) -> (r: TrbPos)
        ensures
            r.seg == self@.seg && r.slot == self@.slot,
    {
        TrbPos { seg: self.seg_cur, slot: self.block_cur }
    }

    /// Writes `trb` at the cursor with the current cycle bit, then advances the cursor as
    /// `push_model` says. Returns the position the record was written to.
    pub fn push(&mut self, trb: Trb) -> (r: TrbPos)
        requires
            old(self).wf(),
            old(self).is_init_spec(),
        ensures
            final(self).wf(),
            final(self).is_init_spec(),
            final(self)@ == push_model(old(self)@, trb),
            r.seg == old(self)@.seg && r.slot == old(self)@.slot,
    {
        let ghost m = self@;
        let s = self.seg_cur;
        let b = self.block_cur;
        let c = self.cycle_bit;
        let pos = TrbPos { seg: s, slot: b };
        assert(m.segs[s as int].len() >= 2);
        self.segs[s].set(b, Block { trb, cycle: c });
        let seg_len = self.segs[s].len();
        if b + 1 < seg_len - 1 {
            self.block_cur = b + 1;
            assert(self@.segs =~= push_model(m, trb).segs);
        } else {
            let nseg = if s == self.segs.len() - 1 { 0 } else { s + 1 };
            let link = Trb::Link { target_seg: nseg, toggle_cycle: nseg == 0, chain: trb.chain_bit() };
            self.segs[s].set(b + 1, Block { trb: link, cycle: c });
            self.seg_cur = nseg;
            self.block_cur = 0;
            if nseg == 0 {
                self.cycle_bit = !c;
            }
            assert(self@.segs =~= push_model(m, trb).segs);
        }
        assert forall|i: int| 0 <= i < self@.segs.len() implies #[trigger] self@.segs[i].len() >= 2 by {
            assert(self@.segs[i].len() == m.segs[i].len());
        }
        pos
    }
}

/// In a ring of one segment with `M` slots whose cursor starts at slot 0, the record pushed
/// `j`-th (counting from 0) goes to slot `j mod (M-1)`, and its cycle bit is the starting one
/// flipped once for each full pass over the segment before it; once a pass is complete, the last
/// slot holds a Link back to slot 0 with the toggle flag.
pub proof fn lemma_single_segment_wraparound(m: RingModel, t: Seq<Trb>)
    requires
        ring_wf(m),
        m.segs.len() == 1,
        m.slot == 0,
    ensures
        ({
            let d = m.segs[0].len() - 1;
            let k = t.len() as int;
            let after = push_all(m, t);
            &&& ring_wf(after)
            &&& after.segs.len() == 1
            &&& after.segs[0].len() == m.segs[0].len()
            &&& after.seg == 0
            &&& after.slot == k % d
            &&& after.cycle == (if (k / d) % 2 == 0 { m.cycle } else { !m.cycle })
            &&& (k >= d ==> after.segs[0][d].trb == Trb::Link { target_seg: 0, toggle_cycle: true, chain: after.segs[0][d].trb.chain_spec() })
            &&& (k >= d ==> after.segs[0][d].cycle == (if ((k - d) / d) % 2 == 0 { m.cycle } else { !m.cycle }))
            &&& forall|j: int| 0 <= j < k && j / d == (k - 1) / d ==> #[trigger] after.segs[0][j % d] == (Block {
                trb: t[j],
                cycle: if (j / d) % 2 == 0 { m.cycle } else { !m.cycle },
            })
        }),
    decreases t.len(),
{
    let d = m.segs[0].len() - 1;
    let k = t.len() as int;
    if k == 0 {
        lemma_fundamental_div_mod_converse(0, d, 0, 0);
    } else {
        let t0 = t.drop_last();
        lemma_single_segment_wraparound(m, t0);
        let p = push_all(m, t0);
        let km = k - 1;
        let q = km / d;
        let r = km % d;
        assert(km == q * d + r) by {
            vstd::arithmetic::div_mod::lemma_fundamental_div_mod(km, d);
            vstd::arithmetic::mul::lemma_mul_is_commutative(q, d);
        }
        assert(p.slot == r);
        let a = push_all(m, t);
        assert(a == push_model(p, t.last()));
        assert(t.last() == t[km]);
        if r + 1 < d {
            lemma_fundamental_div_mod_converse(k, d, q, r + 1);
            assert forall|j: int| 0 <= j < k && j / d == (k - 1) / d implies #[trigger] a.segs[0][j % d] == (Block {
                trb: t[j],
                cycle: if (j / d) % 2 == 0 { m.cycle } else { !m.cycle },
            }) by {
                if j < km {
                    assert(t0[j] == t[j]);
                    vstd::arithmetic::div_mod::lemma_fundamental_div_mod(j, d);
                    vstd::arithmetic::mul::lemma_mul_is_commutative(q, d);
                    if r >= 1 {
                        lemma_fundamental_div_mod_converse(km - 1, d, q, r - 1);
                    }
                    assert(j % d != r);
                }
            }
            if k >= d {
                assert(q >= 1) by (nonlinear_arith)
                    requires
                        km == q * d + r,
                        0 <= r,
                        r + 1 < d,
                        km + 1 >= d,
                        d >= 1,
                ;
                assert((q - 1) * d == q * d - d) by (nonlinear_arith);
                assert(q * d >= d) by (nonlinear_arith)
                    requires
                        q >= 1,
                        d >= 1,
                ;
                assert(a.segs[0][d] == p.segs[0][d]);
                lemma_fundamental_div_mod_converse(k - d, d, q - 1, r + 1);
                lemma_fundamental_div_mod_converse(km - d, d, q - 1, r);
            }
        } else {
            assert(r + 1 == d);
            assert((q + 1) * d == q * d + d) by (nonlinear_arith);
            lemma_fundamental_div_mod_converse(k, d, q + 1, 0);
            lemma_fundamental_div_mod_converse(k - d, d, q, 0);
            assert forall|j: int| 0 <= j < k && j / d == (k - 1) / d implies #[trigger] a.segs[0][j % d] == (Block {
                trb: t[j],
                cycle: if (j / d) % 2 == 0 { m.cycle } else { !m.cycle },
            }) by {
                if j < km {
                    assert(t0[j] == t[j]);
                    vstd::arithmetic::div_mod::lemma_fundamental_div_mod(j, d);
                    vstd::arithmetic::mul::lemma_mul_is_commutative(q, d);
                    if r >= 1 {
                        lemma_fundamental_div_mod_converse(km - 1, d, q, r - 1);
                    }
                }
            }
        }
    }
}

/// What the Event ring holds, as mathematical values: the segments, the dequeue pointer
/// register (segment index and slot), and the cycle bit that marks records not yet consumed.
pub struct EventRingModel {
    pub segs: Seq<Seq<EventBlock>>,
    pub deq_seg: int,
    pub deq_slot: int,
    pub cycle: bool,
}

/// The Event ring after a pop whose front record carries the expected cycle bit: the dequeue
/// pointer moves one slot on, to the start of the next segment when the segment ends, and on
/// leaving the last segment it wraps to the first and the expected cycle bit flips.
pub open spec fn event_advance(m: EventRingModel) -> EventRingModel {
    if m.deq_slot + 1 < m.segs[m.deq_seg].len() {
        EventRingModel { deq_slot: m.deq_slot + 1, ..m }
    } else if m.deq_seg + 1 < m.segs.len() {
        EventRingModel { deq_seg: m.deq_seg + 1, deq_slot: 0, ..m }
    } else {
        EventRingModel { deq_seg: 0, deq_slot: 0, cycle: !m.cycle, ..m }
    }
}

/// Why a segment could not be added to the Event ring.
#[derive(Clone, Copy, Debug, PartialEq, Eq, Structural)]
pub enum EventRingError {
    /// The segment table already holds its largest number of entries.
    SegmentTableFull,
}

/// The Event ring of the primary interrupter: filled by the hardware, drained by software.
pub struct EventRing {
    segs: Vec<Vec<EventBlock>>,
    deq_seg: usize,
    deq_slot: usize,
    cycle_bit: bool,
    interrupt_enabled: bool,
}

/// An Event ring segment of `size` slots that hold nothing.
fn empty_event_segment(size: usize) -> (r: Vec<EventBlock>)
    ensures
        r@.len() == size,
        forall|i: int| 0 <= i < size ==> #[trigger] r@[i] == (EventBlock { trb: EventTrb::Empty, cycle: false }),
{
    let mut v: Vec<EventBlock> = Vec::new();
    let mut i: usize = 0;
    while i < size
        invariant
            i <= size,
            v@.len() == i,
            forall|j: int| 0 <= j < i ==> #[trigger] v@[j] == (EventBlock { trb: EventTrb::Empty, cycle: false }),
        decreases size - i,
    {
        v.push(EventBlock { trb: EventTrb::Empty, cycle: false });
        i = i + 1;
    }
    v
}

impl EventRing {
    pub closed spec fn view(&self) -> EventRingModel {
        EventRingModel {
            segs: self.segs@.map_values(|v: Vec<EventBlock>| v@),
            deq_seg: self.deq_seg as int,
            deq_slot: self.deq_slot as int,
            cycle: self.cycle_bit,
        }
    }

    /// Every segment has a slot, the table holds at most its largest number of entries, and the
    /// dequeue pointer names a slot (or stands at zero while there is no segment).
    pub open spec fn wf(&self) -> bool {
        &&& self@.segs.len() <= MAX_ERST_ENTRIES
        &&& forall|i: int| 0 <= i < self@.segs.len() ==> #[trigger] self@.segs[i].len() >= 1
        &&& (self@.segs.len() == 0 ==> self@.deq_seg == 0 && self@.deq_slot == 0)
        &&& (self@.segs.len() > 0 ==> 0 <= self@.deq_seg < self@.segs.len() && 0 <= self@.deq_slot < self@.segs[self@.deq_seg].len())
    }

    pub closed spec fn interrupt_enabled_spec(&self) -> bool {
        self.interrupt_enabled
    }

    /// An Event ring with no segment; the expected cycle bit is set.
    pub fn new_uninit() -> (r: Self)
        ensures
            r.wf(),
            r@.segs.len() == 0,
            r@.cycle,
            !r.interrupt_enabled_spec(),
    {
        EventRing { segs: Vec::new(), deq_seg: 0, deq_slot: 0, cycle_bit: true, interrupt_enabled: false }
    }

    /// An Event ring with one segment of `size` slots, dequeue pointer at its start.
    pub fn new(size: usize) -> (r: Self)
        requires
            size >= 1,
        ensures
            r.wf(),
            r@.segs.len() == 1,
            r@.segs[0].len() == size,
            forall|i: int| 0 <= i < size ==> #[trigger] r@.segs[0][i] == (EventBlock { trb: EventTrb::Empty, cycle: false }),
            r@.deq_seg == 0 && r@.deq_slot == 0 && r@.cycle,
            !r.interrupt_enabled_spec(),
    {
        let mut r = Self::new_uninit();
        let res = r.add_segment(size);
        r
    }

    pub fn is_init(&self) -> (r: bool)
        ensures
            r == (self@.segs.len() > 0),
    {
        self.segs.len() > 0
    }

    /// The number of entries in the segment table.
    pub fn erst_len(&self) -> (r: usize)
        ensures
            r == self@.segs.len(),
    {
        self.segs.len()
    }

    /// The size of the segment table entry `i`.
    pub fn erst_entry_size(&self, i: usize) -> (r: usize)
        requires
            i < self@.segs.len(),
        ensures
            r == self@.segs[i as int].len(),
    {
        self.segs[i].len()
    }

    /// The dequeue pointer register: segment index and slot.
    pub fn dequeue_pointer(&self) -> (r: (usize, usize))
        ensures
            r.0 == self@.deq_seg && r.1 == self@.deq_slot,
    {
        (self.deq_seg, self.deq_slot)
    }

    /// The cycle bit that marks records not yet consumed.
    pub fn expected_cycle(&self) -> (r: bool)
        ensures
            r == self@.cycle,
    {
        self.cycle_bit
    }

    pub fn interrupt_enabled(&self) -> (r: bool)
        ensures
            r == self.interrupt_enabled_spec(),
    {
        self.interrupt_enabled
    }

    /// Enables the interrupter (and acknowledges a pending interrupt).
    pub fn enable_interrupt(&mut self)
        ensures
            final(self)@ == old(self)@,
            final(self).interrupt_enabled_spec(),
            final(self).wf() == old(self).wf(),
    {
        self.interrupt_enabled = true;
    }

    /// Appends a segment of `size` empty slots to the ring and to the segment table. The first
    /// segment also sets the dequeue pointer to its start. A table that is already full is left
    /// as it was, and the call fails.
    pub fn add_segment(&mut self, size: usize) -> (r: Result<(), EventRingError>)
        requires
            old(self).wf(),
            size >= 1,
        ensures
            final(self).wf(),
            final(self).interrupt_enabled_spec() == old(self).interrupt_enabled_spec(),
            old(self)@.segs.len() == MAX_ERST_ENTRIES <==> r.is_err(),
            r.is_err() ==> final(self)@ == old(self)@,
            r.is_ok() ==> {
                &&& final(self)@.segs.len() == old(self)@.segs.len() + 1
                &&& final(self)@.segs.take(old(self)@.segs.len() as int) == old(self)@.segs
                &&& final(self)@.segs.last().len() == size
                &&& (forall|i: int| 0 <= i < size ==> #[trigger] final(self)@.segs.last()[i] == (EventBlock { trb: EventTrb::Empty, cycle: false }))
                &&& final(self)@.deq_seg == old(self)@.deq_seg
                &&& final(self)@.deq_slot == old(self)@.deq_slot
                &&& final(self)@.cycle == old(self)@.cycle
            },
    {
        if self.segs.len() >= MAX_ERST_ENTRIES {
            return Err(EventRingError::SegmentTableFull);
        }
        let seg = empty_event_segment(size);
        self.segs.push(seg);
        let ghost m = self@;
        assert(m.segs.take(m.segs.len() - 1) =~= old(self)@.segs);
        assert forall|i: int| 0 <= i < m.segs.len() implies #[trigger] m.segs[i].len() >= 1 by {
            if i < m.segs.len() - 1 {
                assert(m.segs[i] == old(self)@.segs[i]);
            }
        }
        if self.segs.len() == 1 {
            self.deq_seg = 0;
            self.deq_slot = 0;
        }
        Ok(())
    }

    /// Stands for the hardware producer: writes an event record into a slot of a segment.
    pub fn write_slot(&mut self, seg: usize, slot: usize, blk: EventBlock)
        requires
            old(self).wf(),
            seg < old(self)@.segs.len(),
            slot < old(self)@.segs[seg as int].len(),
        ensures
            final(self).wf(),
            final(self)@ == (EventRingModel {
                segs: old(self)@.segs.update(seg as int, old(self)@.segs[seg as int].update(slot as int, blk)),
                ..old(self)@
            }),
            final(self).interrupt_enabled_spec() == old(self).interrupt_enabled_spec(),
    {
        self.segs[seg].set(slot, blk);
        assert(self@.segs =~= old(self)@.segs.update(seg as int, old(self)@.segs[seg as int].update(slot as int, blk)));
        assert forall|i: int| 0 <= i < self@.segs.len() implies #[trigger] self@.segs[i].len() >= 1 by {
            assert(self@.segs[i].len() == old(self)@.segs[i].len());
        }
    }

    /// Takes the record at the dequeue pointer if its cycle bit is the expected one, and
    /// advances the dequeue pointer as `event_advance` says; otherwise the ring is empty and
    /// nothing changes.
    pub fn pop(&mut self) -> (r: Option<EventTrb>)
        requires
            old(self).wf(),
            old(self)@.segs.len() > 0,
        ensures
            final(self).wf(),
            final(self).interrupt_enabled_spec() == old(self).interrupt_enabled_spec(),
            ({
                let m = old(self)@;
                let front = m.segs[m.deq_seg][m.deq_slot];
                if front.cycle == m.cycle {
                    r == Some(front.trb) && final(self)@ == event_advance(m)
                } else {
                    r.is_none() && final(self)@ == m
                }
            }),
    {
        let s = self.deq_seg;
        let i = self.deq_slot;
        let front = self.segs[s][i];
        assert(self.segs@[s as int]@.len() == self@.segs[s as int].len());
        let n = self.segs[s].len();
        assert(i < n);
        if front.cycle == self.cycle_bit {
            if i + 1 < n {
                self.deq_slot = i + 1;
            } else if s + 1 < self.segs.len() {
                self.deq_seg = s + 1;
                self.deq_slot = 0;
            } else {
                self.cycle_bit = !self.cycle_bit;
                self.deq_seg = 0;
                self.deq_slot = 0;
            }
            Some(front.trb)
        } else {
            None
        }
    }
}

} // verus!
