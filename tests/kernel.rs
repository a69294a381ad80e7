use mikanos::array_writer::ArrayWriter;
use mikanos::canvas::ColorCode;
use mikanos::geometry::{Disp2D, Pos2D, Rect2D};
use mikanos::pgmgr::{FrameID, PageAllocationError, PageManager, PageStat, KERNEL_PAGE_SIZE};

#[test]
fn rect_from_points_orders_corners() {
    let r = Rect2D::from_points(Pos2D { x: 5, y: 1 }, Pos2D { x: 2, y: 7 });
    assert_eq!(r.ltop, Pos2D { x: 2, y: 1 });
    assert_eq!(r.rbot, Pos2D { x: 5, y: 7 });
    assert_eq!(r.size(), Disp2D { dx: 3, dy: 6 });
    assert_eq!((r.width(), r.height()), (3, 6));
    assert_eq!(Rect2D::from_ranges(0..4, 2..3), Rect2D::from_points(Pos2D { x: 0, y: 2 }, Pos2D { x: 4, y: 3 }));
}

#[test]
fn rect_bound_and_walks() {
    let r = Rect2D::from_points(Pos2D { x: -2, y: -1 }, Pos2D { x: 3, y: 2 });
    let screen = Rect2D::from_points(Pos2D::origin(), Pos2D { x: 10, y: 10 });
    let b = r.bound(screen);
    assert_eq!(b, Rect2D::from_points(Pos2D { x: 0, y: 0 }, Pos2D { x: 3, y: 2 }));
    let all = Rect2D::from_points(Pos2D { x: 0, y: 0 }, Pos2D { x: 2, y: 3 }).iterate_disp();
    assert_eq!(all.len(), 6);
    assert_eq!(all[0], Disp2D { dx: 0, dy: 0 });
    assert_eq!(all[4], Disp2D { dx: 1, dy: 1 });
    let inside = r.iterate_disp_bounded(screen);
    assert_eq!(inside.len(), 6);
    assert_eq!(inside[0], Disp2D { dx: 2, dy: 1 });
    assert_eq!(inside[5], Disp2D { dx: 4, dy: 2 });
}

#[test]
fn positions_and_displacements() {
    let p = Pos2D { x: 3, y: 4 }.add(Disp2D { dx: -5, dy: 1 });
    assert_eq!(p, Pos2D { x: -2, y: 5 });
    assert_eq!(p.sub(Pos2D { x: 1, y: 1 }), Disp2D { dx: -3, dy: 4 });
    assert_eq!(Disp2D { dx: -3, dy: 4 }.width(), 3);
    assert_eq!(Disp2D { dx: -3, dy: -4 }.height(), 4);
    assert_eq!(Disp2D { dx: 1, dy: 2 }.add(Disp2D { dx: 3, dy: 4 }), Disp2D { dx: 4, dy: 6 });
    assert_eq!(ColorCode::rgb(1, 2, 3), ColorCode { r: 1, g: 2, b: 3 });
}

#[test]
fn page_manager_first_fit() {
    let mut m = PageManager::new();
    m.set_range(FrameID(10), FrameID(30));
    assert_eq!(m.total_frame_count(), 20);
    assert_eq!(m.available_frame_count(), 20);
    m.mark_reserved(FrameID(12), 2);
    assert_eq!(m.get_stat(FrameID(12)), PageStat::Using);
    assert_eq!(m.allocate(3), Ok(FrameID(14)));
    assert_eq!(m.allocate(2), Ok(FrameID(10)));
    assert_eq!(m.available_frame_count(), 13);
    assert_eq!(m.allocate(14), Err(PageAllocationError::NotEnoughMemory));
    assert_eq!(m.allocate(13), Ok(FrameID(17)));
    assert_eq!(m.free(FrameID(14), 3), Ok(()));
    assert_eq!(m.get_stat(FrameID(15)), PageStat::Vacant);
    assert_eq!(m.available_frame_count(), 3);
    m.set_stat(FrameID(15), PageStat::Reserved);
    assert_eq!(m.get_stat(FrameID(15)), PageStat::Using);
    assert_eq!(FrameID(3).addr(), 3 * KERNEL_PAGE_SIZE);
}

#[test]
fn array_writer_truncates() {
    let mut w = ArrayWriter::new(5);
    assert!(w.empty());
    assert_eq!(w.capacity(), 5);
    assert_eq!(w.write_str("abc"), Ok(()));
    assert_eq!(w.write_str("defg"), Ok(()));
    assert_eq!(w.len(), 5);
    assert_eq!(w.as_slice(), b"abcde".to_vec());
    w.clear();
    assert!(w.empty());
    assert_eq!(w.write_str("xy"), Ok(()));
    assert_eq!(w.as_slice(), b"xy".to_vec());
}
