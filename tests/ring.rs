use mikanos::ring::{EventRing, EventRingError, Ring, MAX_ERST_ENTRIES};
use mikanos::trb::{Block, EventBlock, EventTrb, Trb, TrbPos};

fn normal(len: u32) -> Trb {
    Trb::Normal { length: len, interrupt_on_short_packet: true, interrupt_on_completion: true, chain: false }
}

#[test]
fn ring_wraparound_single_segment() {
    // One segment of 4 slots: 3 records per pass, slot 3 holds the Link.
    let mut r = Ring::new(4);
    let mut positions = Vec::new();
    for k in 0..9u32 {
        positions.push(r.push(normal(k)));
        let slot = (k % 3) as usize;
        let flipped = (k / 3) % 2 == 1;
        let b = r.block_at(TrbPos { seg: 0, slot }).unwrap();
        assert_eq!(b.trb, normal(k));
        assert_eq!(b.cycle, !flipped);
    }
    for (k, p) in positions.iter().enumerate() {
        assert_eq!(*p, TrbPos { seg: 0, slot: k % 3 });
    }
    let link = r.block_at(TrbPos { seg: 0, slot: 3 }).unwrap();
    assert_eq!(link.trb, Trb::Link { target_seg: 0, toggle_cycle: true, chain: false });
    // The third pass wrote the link with the starting bit again.
    assert_eq!(link.cycle, true);
    // After three passes the ring expects the flipped bit for the next push.
    let p = r.push(normal(99));
    assert_eq!(p, TrbPos { seg: 0, slot: 0 });
    assert_eq!(r.block_at(p).unwrap(), Block { trb: normal(99), cycle: false });
}

#[test]
fn ring_two_segments_link_between() {
    let mut r = Ring::new(3);
    r.add_segment(3);
    assert_eq!(r.num_segments(), 2);
    assert_eq!(r.push(normal(1)), TrbPos { seg: 0, slot: 0 });
    assert_eq!(r.push(normal(2)), TrbPos { seg: 0, slot: 1 });
    // Segment 0 ends: its Link goes to segment 1 without toggling.
    assert_eq!(r.block_at(TrbPos { seg: 0, slot: 2 }).unwrap().trb, Trb::Link { target_seg: 1, toggle_cycle: false, chain: false });
    assert_eq!(r.push(normal(3)), TrbPos { seg: 1, slot: 0 });
    assert_eq!(r.block_at(TrbPos { seg: 1, slot: 0 }).unwrap().cycle, true);
    let chained = Trb::Normal { length: 4, interrupt_on_short_packet: false, interrupt_on_completion: false, chain: true };
    assert_eq!(r.push(chained), TrbPos { seg: 1, slot: 1 });
    // The last segment wraps to the first, toggles, and carries the chain flag on.
    assert_eq!(r.block_at(TrbPos { seg: 1, slot: 2 }).unwrap().trb, Trb::Link { target_seg: 0, toggle_cycle: true, chain: true });
    assert_eq!(r.enqueue_pos(), TrbPos { seg: 0, slot: 0 });
    r.push(normal(5));
    assert_eq!(r.block_at(TrbPos { seg: 0, slot: 0 }).unwrap().cycle, false);
}

#[test]
fn uninit_ring_has_no_segment() {
    let r = Ring::new_uninit();
    assert!(!r.is_init());
    assert_eq!(r.block_at(TrbPos { seg: 0, slot: 0 }), None);
}

#[test]
fn event_ring_pop_follows_cycle_bit() {
    let mut er = EventRing::new(2);
    assert_eq!(er.pop(), None);
    er.write_slot(0, 0, EventBlock { trb: EventTrb::PortStatusChange { port_id: 3 }, cycle: true });
    assert_eq!(er.pop(), Some(EventTrb::PortStatusChange { port_id: 3 }));
    assert_eq!(er.dequeue_pointer(), (0, 1));
    assert_eq!(er.pop(), None);
    er.write_slot(0, 1, EventBlock { trb: EventTrb::PortStatusChange { port_id: 4 }, cycle: true });
    assert_eq!(er.pop(), Some(EventTrb::PortStatusChange { port_id: 4 }));
    // Past the last slot of the only segment: back to the start, expecting the other bit.
    assert_eq!(er.dequeue_pointer(), (0, 0));
    assert_eq!(er.pop(), None);
    er.write_slot(0, 0, EventBlock { trb: EventTrb::PortStatusChange { port_id: 5 }, cycle: false });
    assert_eq!(er.pop(), Some(EventTrb::PortStatusChange { port_id: 5 }));
}

#[test]
fn event_ring_moves_across_segments() {
    let mut er = EventRing::new(1);
    assert_eq!(er.add_segment(1), Ok(()));
    assert_eq!(er.erst_len(), 2);
    er.write_slot(0, 0, EventBlock { trb: EventTrb::PortStatusChange { port_id: 1 }, cycle: true });
    er.write_slot(1, 0, EventBlock { trb: EventTrb::PortStatusChange { port_id: 2 }, cycle: true });
    assert_eq!(er.pop(), Some(EventTrb::PortStatusChange { port_id: 1 }));
    assert_eq!(er.dequeue_pointer(), (1, 0));
    assert_eq!(er.pop(), Some(EventTrb::PortStatusChange { port_id: 2 }));
    assert_eq!(er.dequeue_pointer(), (0, 0));
}

#[test]
fn event_ring_segment_table_is_bounded() {
    let mut er = EventRing::new(1);
    for _ in 1..MAX_ERST_ENTRIES {
        assert_eq!(er.add_segment(1), Ok(()));
    }
    assert_eq!(er.erst_len(), 255);
    assert_eq!(er.add_segment(1), Err(EventRingError::SegmentTableFull));
    assert_eq!(er.erst_len(), 255);
}

#[test]
fn event_ring_interrupt_enable() {
    let mut er = EventRing::new(4);
    assert!(!er.interrupt_enabled());
    er.enable_interrupt();
    assert!(er.interrupt_enabled());
    assert_eq!(er.erst_entry_size(0), 4);
}
