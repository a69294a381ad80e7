use vstd::prelude::*;

verus! {

pub const KB: usize = 0x400;
pub const MB: usize = KB * KB;
pub const GB: usize = MB * KB;

pub const KERNEL_PAGE_SIZE: usize = 4 * KB;

/// The largest memory address the page manager covers (exclusive): 128 GiB.
pub const MAX_MEMORY: u64 = 0x20_0000_0000;
/// The number of page frames the page manager covers: `MAX_MEMORY / KERNEL_PAGE_SIZE`.
pub const MAX_PAGES: usize = 0x200_0000;

const PGMGR_LINE_BITS: usize = 32;
const PGMGR_LINES: usize = MAX_PAGES / PGMGR_LINE_BITS;

/// A page frame number.
#[derive(Clone, Copy, Debug, PartialEq, Eq, Structural)]
pub struct FrameID(pub usize);

impl FrameID {
    /// The physical address of the frame.
    pub fn addr(&self) -> (r: usize)
        requires
            self.0 * KERNEL_PAGE_SIZE <= usize::MAX,
        ensures
            r == self.0 * KERNEL_PAGE_SIZE,
    {
        self.0 * KERNEL_PAGE_SIZE
    }
}

/// The status of a page frame.
#[derive(Clone, Copy, Debug, PartialEq, Eq, Structural)]
pub enum PageStat {
    Vacant,
    /// Allocated by this page manager.
    Using,
    /// In use, but not allocated by this page manager.
    Reserved,
}

#[derive(Clone, Copy, Debug, PartialEq, Eq, Structural)]
pub enum PageAllocationError {
    NotEnoughMemory,
}

pub open spec fn line_bit(w: u32, b: u32) -> bool {
    (w >> b) & 1 == 1
}

proof fn lemma_line_in_range(id: usize)
    requires
        id < MAX_PAGES,
    ensures
        id / PGMGR_LINE_BITS < PGMGR_LINES,
{
    assert(MAX_PAGES == 33554432usize);
    assert(PGMGR_LINES == 1048576usize);
    assert(id / 32 < 1048576) by (nonlinear_arith)
        requires
            id < 33554432,
    ;
}

/// Sets or clears bit `b` of a line; the other bits stay.
fn set_line_bit(w: u32, b: u32, v: bool) -> (r: u32)
    requires
        b < 32,
    ensures
        line_bit(r, b) == v,
        forall|c: u32| c < 32 && c != b ==> #[trigger] line_bit(r, c) == line_bit(w, c),
{
    let r = if v { w | (1u32 << b) } else { w & !(1u32 << b) };
    assert(b < 32 ==> (((w | (1u32 << b)) >> b) & 1 == 1) && (((w & !(1u32 << b)) >> b) & 1 == 0)) by (bit_vector);
    assert forall|c: u32| c < 32 && c != b implies #[trigger] line_bit(r, c) == line_bit(w, c) by {
        assert(b < 32 && c < 32 && c != b ==> ((((w | (1u32 << b)) >> c) & 1) == ((w >> c) & 1))
            && ((((w & !(1u32 << b)) >> c) & 1) == ((w >> c) & 1))) by (bit_vector);
    }
    r
}

/// A bitmap of page frames, one bit per frame (set when in use), responsible for the frames
/// in `[begin, end)`.
pub struct PageManager {
    bitmap: Vec<u32>,
    begin: FrameID,
    end: FrameID,
}

impl PageManager {
    pub closed spec fn begin_spec(&self) -> int {
        self.begin.0 as int
    }

    pub closed spec fn end_spec(&self) -> int {
        self.end.0 as int
    }

    /// Whether frame `i` is marked in use.
    pub closed spec fn used(&self, i: int) -> bool {
        line_bit(self.bitmap@[i / 32], (i % 32) as u32)
    }

    pub closed spec fn wf(&self) -> bool {
        &&& self.bitmap@.len() == PGMGR_LINES
        &&& self.begin.0 <= self.end.0 <= MAX_PAGES
    }

    /// The frames in `[s, s + cnt)` lie in the managed range and are all vacant.
    pub open spec fn fits(&self, s: int, cnt: int) -> bool {
        &&& self.begin_spec() <= s
        &&& s + cnt <= self.end_spec()
        &&& forall|j: int| s <= j < s + cnt ==> !#[trigger] self.used(j)
    }

    /// The number of vacant frames in `[lo, hi)`.
    pub open spec fn vacant_count(&self, lo: int, hi: int) -> int
        decreases hi - lo,
    {
        if hi <= lo {
            0
        } else {
            self.vacant_count(lo, hi - 1) + if self.used(hi - 1) { 0int } else { 1int }
        }
    }

    /// A manager for every frame, all vacant.
    pub fn new() -> (r: Self)
        ensures
            r.wf(),
            r.begin_spec() == 0,
            r.end_spec() == MAX_PAGES,
            forall|i: int| 0 <= i < MAX_PAGES ==> !#[trigger] r.used(i),
    {
        let mut bitmap: Vec<u32> = Vec::new();
        let mut i: usize = 0;
        while i < PGMGR_LINES
            invariant
                i <= PGMGR_LINES,
                bitmap@.len() == i,
                forall|j: int| 0 <= j < i ==> #[trigger] bitmap@[j] == 0,
            decreases PGMGR_LINES - i,
        {
            bitmap.push(0);
            i = i + 1;
        }
        let r = PageManager { bitmap, begin: FrameID(0), end: FrameID(MAX_PAGES) };
        assert forall|i: int| 0 <= i < MAX_PAGES implies !#[trigger] r.used(i) by {
            let b = (i % 32) as u32;
            assert((0u32 >> b) & 1 == 0) by (bit_vector);
        }
        r
    }

    /// Makes the manager responsible for the frames in `[begin, end)`.
    pub fn set_range(&mut self, begin: FrameID, end: FrameID)
        requires
            old(self).wf(),
            begin.0 <= end.0 <= MAX_PAGES,
        ensures
            final(self).wf(),
            final(self).begin_spec() == begin.0,
            final(self).end_spec() == end.0,
            forall|i: int| #[trigger] final(self).used(i) == old(self).used(i),
    {
        self.begin = begin;
        self.end = end;
    }

    /// The status of frame `id`: `Using` when marked, else `Vacant`.
    pub fn get_stat(&self, id: FrameID) -> (r: PageStat)
        requires
            self.wf(),
            self.begin_spec() <= id.0 < self.end_spec(),
        ensures
            r == (if self.used(id.0 as int) { PageStat::Using } else { PageStat::Vacant }),
    {
        let line_no = id.0 / PGMGR_LINE_BITS;
        let bit_no = (id.0 % PGMGR_LINE_BITS) as u32;
        proof {
            lemma_line_in_range(id.0);
        }
        let w = self.bitmap[line_no];
        if (w >> bit_no) & 1 == 1 {
            PageStat::Using
        } else {
            PageStat::Vacant
        }
    }

    /// Marks frame `id` in use for any status but `Vacant`.
    pub fn set_stat(&mut self, id: FrameID, stat: PageStat)
        requires
            old(self).wf(),
            old(self).begin_spec() <= id.0 < old(self).end_spec(),
        ensures
            final(self).wf(),
            final(self).begin_spec() == old(self).begin_spec(),
            final(self).end_spec() == old(self).end_spec(),
            final(self).used(id.0 as int) == (stat != PageStat::Vacant),
            forall|j: int| 0 <= j < MAX_PAGES && j != id.0 ==> #[trigger] final(self).used(j) == old(self).used(j),
    {
        let line_no = id.0 / PGMGR_LINE_BITS;
        let bit_no = (id.0 % PGMGR_LINE_BITS) as u32;
        proof {
            lemma_line_in_range(id.0);
        }
        let w = self.bitmap[line_no];
        let nw = set_line_bit(w, bit_no, stat != PageStat::Vacant);
        self.bitmap.set(line_no, nw);
        assert forall|j: int| 0 <= j < MAX_PAGES && j != id.0 implies #[trigger] self.used(j) == old(self).used(j) by {
            if j / 32 == line_no as int {
                assert((j % 32) as u32 != bit_no);
            }
        }
    }

    /// Gives the frames in `[begin, begin + page_cnt)` the status `stat`.
    fn set_range_stat(&mut self, begin: FrameID, page_cnt: usize, stat: PageStat)
        requires
            old(self).wf(),
            old(self).begin_spec() <= begin.0,
            begin.0 + page_cnt <= old(self).end_spec(),
        ensures
            final(self).wf(),
            final(self).begin_spec() == old(self).begin_spec(),
            final(self).end_spec() == old(self).end_spec(),
            forall|j: int| 0 <= j < MAX_PAGES ==> #[trigger] final(self).used(j) == if begin.0 <= j < begin.0 + page_cnt {
                stat != PageStat::Vacant
            } else {
                old(self).used(j)
            },
    {
        let mut id = begin.0;
        while id < begin.0 + page_cnt
            invariant
                self.wf(),
                begin.0 <= id <= begin.0 + page_cnt,
                begin.0 + page_cnt <= self.end_spec(),
                self.begin_spec() == old(self).begin_spec(),
                self.end_spec() == old(self).end_spec(),
                self.begin_spec() <= begin.0,
                forall|j: int| 0 <= j < MAX_PAGES ==> #[trigger] self.used(j) == if begin.0 <= j < id {
                    stat != PageStat::Vacant
                } else {
                    old(self).used(j)
                },
            decreases begin.0 + page_cnt - id,
        {
            self.set_stat(FrameID(id), stat);
            id = id + 1;
        }
    }

    /// Marks the frames in `[begin, begin + page_cnt)` reserved.
    pub fn mark_reserved(&mut self, begin: FrameID, page_cnt: usize)
        requires
            old(self).wf(),
            old(self).begin_spec() <= begin.0,
            begin.0 + page_cnt <= old(self).end_spec(),
        ensures
            final(self).wf(),
            final(self).begin_spec() == old(self).begin_spec(),
            final(self).end_spec() == old(self).end_spec(),
            forall|j: int| 0 <= j < MAX_PAGES ==> #[trigger] final(self).used(j) == (begin.0 <= j < begin.0 + page_cnt || old(self).used(j)),
    {
        self.set_range_stat(begin, page_cnt, PageStat::Reserved);
    }

    /// First fit: the lowest frame from which `page_cnt` vacant frames follow in the managed
    /// range; those frames are marked in use. Fails when there is no such run.
    pub fn allocate(&mut self, page_cnt: usize) -> (r: Result<FrameID, PageAllocationError>)
        requires
            old(self).wf(),
            page_cnt >= 1,
        ensures
            final(self).wf(),
            final(self).begin_spec() == old(self).begin_spec(),
            final(self).end_spec() == old(self).end_spec(),
            match r {
                Ok(f) => {
                    &&& old(self).fits(f.0 as int, page_cnt as int)
                    &&& forall|s: int| old(self).begin_spec() <= s < f.0 ==> !#[trigger] old(self).fits(s, page_cnt as int)
                    &&& forall|j: int| 0 <= j < MAX_PAGES ==> #[trigger] final(self).used(j) == (f.0 <= j < f.0 + page_cnt || old(self).used(j))
                },
                Err(e) => {
                    &&& e == PageAllocationError::NotEnoughMemory
                    &&& forall|s: int| #![trigger old(self).fits(s, page_cnt as int)] !old(self).fits(s, page_cnt as int)
                    &&& forall|j: int| #[trigger] final(self).used(j) == old(self).used(j)
                },
            },
    {
        let b = self.begin.0;
        let e = self.end.0;
        let ghost cnt = page_cnt as int;
        let mut acc: usize = 0;
        let mut i = b;
        while i < e
            invariant
                self.wf(),
                *self == *old(self),
                b == self.begin_spec(),
                e == self.end_spec(),
                b <= i <= e,
                cnt == page_cnt,
                acc < page_cnt,
                acc <= i - b,
                forall|j: int| i - acc <= j < i ==> !#[trigger] self.used(j),
                i - acc == b || self.used(i - acc - 1),
                forall|s: int| b <= s && s + cnt <= i ==> !#[trigger] self.fits(s, cnt),
            decreases e - i,
        {
            let st = self.get_stat(FrameID(i));
            let ghost acc0 = acc as int;
            if st == PageStat::Vacant {
                acc = acc + 1;
            } else {
                acc = 0;
            }
            proof {
                assert forall|j: int| i + 1 - acc <= j < i + 1 implies !#[trigger] self.used(j) by {
                    if j < i {
                        assert(i - acc0 <= j);
                    }
                }
                if acc > 0 && i + 1 - acc != b {
                    assert(i - acc == i - acc0 - 1);
                    assert(self.used(i - acc0 - 1));
                }
            }
            if acc == page_cnt {
                let f = i + 1 - page_cnt;
                assert(self.fits(f as int, cnt));
                self.set_range_stat(FrameID(f), page_cnt, PageStat::Using);
                return Ok(FrameID(f));
            }
            assert forall|s: int| b <= s && s + cnt <= i + 1 implies !#[trigger] self.fits(s, cnt) by {
                if s + cnt == i + 1 && self.fits(s, cnt) {
                    assert(!self.used(i as int));
                    if i + 1 - acc == b {
                    } else {
                        assert(self.used(i - acc));
                        assert(s <= i - acc < s + cnt);
                    }
                }
            }
            i = i + 1;
        }
        assert forall|s: int| #![trigger self.fits(s, cnt)] !self.fits(s, cnt) by {
            if self.fits(s, cnt) {
                assert(b <= s && s + cnt <= i);
            }
        }
        Err(PageAllocationError::NotEnoughMemory)
    }

    /// Marks the frames in `[begin, begin + page_cnt)` vacant.
    pub fn free(&mut self, begin: FrameID, page_cnt: usize) -> (r: Result<(), PageAllocationError>)
        requires
            old(self).wf(),
            old(self).begin_spec() <= begin.0,
            begin.0 + page_cnt <= old(self).end_spec(),
        ensures
            final(self).wf(),
            r.is_ok(),
            final(self).begin_spec() == old(self).begin_spec(),
            final(self).end_spec() == old(self).end_spec(),
            forall|j: int| 0 <= j < MAX_PAGES ==> #[trigger] final(self).used(j) == (!(begin.0 <= j < begin.0 + page_cnt) && old(self).used(j)),
    {
        self.set_range_stat(begin, page_cnt, PageStat::Vacant);
        Ok(())
    }

    /// The number of frames the manager is responsible for.
    pub fn total_frame_count(&self) -> (r: usize)
        requires
            self.wf(),
        ensures
            r == self.end_spec() - self.begin_spec(),
    {
        self.end.0 - self.begin.0
    }

    /// The number of vacant frames the manager is responsible for.
    pub fn available_frame_count(&self) -> (r: usize)
        requires
            self.wf(),
        ensures
            r == self.vacant_count(self.begin_spec(), self.end_spec()),
    {
        let mut cnt: usize = 0;
        let mut i = self.begin.0;
        while i < self.end.0
            invariant
                self.wf(),
                self.begin_spec() <= i <= self.end_spec(),
                cnt == self.vacant_count(self.begin_spec(), i as int),
                cnt <= i - self.begin_spec(),
            decreases self.end_spec() - i,
        {
            if self.get_stat(FrameID(i)) == PageStat::Vacant {
                cnt = cnt + 1;
            }
            i = i + 1;
        }
        cnt
    }
}

} // verus!
