use vstd::prelude::*;

verus! {

/// A screen position; the origin is the top-left corner of the screen.
#[derive(Clone, Copy, Debug, PartialEq, Eq, Structural)]
pub struct Pos2D {
    pub x: isize,
    pub y: isize,
}

/// A displacement between two screen positions.
#[derive(Clone, Copy, Debug, PartialEq, Eq, Structural)]
pub struct Disp2D {
    pub dx: isize,
    pub dy: isize,
}

pub open spec fn clamp_spec(v: isize, lo: isize, hi: isize) -> isize {
    if v < lo { lo } else if v > hi { hi } else { v }
}

pub open spec fn min_spec(a: isize, b: isize) -> isize {
    if a <= b { a } else { b }
}

pub open spec fn max_spec(a: isize, b: isize) -> isize {
    if a >= b { a } else { b }
}

impl Pos2D {
    /// The top-left corner of the screen.
    pub fn origin() -> (r: Pos2D)
        ensures
            r.x == 0 && r.y == 0,
    {
        Pos2D { x: 0, y: 0 }
    }

    /// The position with each coordinate brought into `[ltop, rbot]`.
    fn clamp(&self, ltop: Pos2D, rbot: Pos2D) -> (r: Pos2D)
        requires
            ltop.x <= rbot.x,
            ltop.y <= rbot.y,
        ensures
            r.x == clamp_spec(self.x, ltop.x, rbot.x),
            r.y == clamp_spec(self.y, ltop.y, rbot.y),
    {
        Pos2D {
            x: if self.x < ltop.x { ltop.x } else if self.x > rbot.x { rbot.x } else { self.x },
            y: if self.y < ltop.y { ltop.y } else if self.y > rbot.y { rbot.y } else { self.y },
        }
    }

    /// The position moved by `rhs`.
    pub fn add(self, rhs: Disp2D) -> (r: Pos2D)
        requires
            isize::MIN <= self.x + rhs.dx <= isize::MAX,
            isize::MIN <= self.y + rhs.dy <= isize::MAX,
        ensures
            r.x == self.x + rhs.dx,
            r.y == self.y + rhs.dy,
    {
        Pos2D { x: self.x + rhs.dx, y: self.y + rhs.dy }
    }

    /// The displacement from `rhs` to this position.
    pub fn sub(self, rhs: Pos2D) -> (r: Disp2D)
        requires
            isize::MIN <= self.x - rhs.x <= isize::MAX,
            isize::MIN <= self.y - rhs.y <= isize::MAX,
        ensures
            r.dx == self.x - rhs.x,
            r.dy == self.y - rhs.y,
    {
        Disp2D { dx: self.x - rhs.x, dy: self.y - rhs.y }
    }
}

impl Disp2D {
    /// The sum of two displacements.
    pub fn add(self, rhs: Disp2D) -> (r: Disp2D)
        requires
            isize::MIN <= self.dx + rhs.dx <= isize::MAX,
            isize::MIN <= self.dy + rhs.dy <= isize::MAX,
        ensures
            r.dx == self.dx + rhs.dx,
            r.dy == self.dy + rhs.dy,
    {
        Disp2D { dx: self.dx + rhs.dx, dy: self.dy + rhs.dy }
    }

    /// The width of the displacement, `|dx|`.
    pub fn width(&self) -> (r: isize)
        requires
            self.dx > isize::MIN,
        ensures
            r == (if self.dx < 0 { -self.dx } else { self.dx as int }),
    {
        if self.dx < 0 { -self.dx } else { self.dx }
    }

    /// The height of the displacement, `|dy|`.
    pub fn height(&self) -> (r: isize)
        requires
            self.dy > isize::MIN,
        ensures
            r == (if self.dy < 0 { -self.dy } else { self.dy as int }),
    {
        if self.dy < 0 { -self.dy } else { self.dy }
    }
}

/// A rectangle given by its top-left and bottom-right corners; the bottom-right is exclusive
/// when the rectangle is walked.
#[derive(Clone, Copy, Debug, PartialEq, Eq, Structural)]
pub struct Rect2D {
    pub ltop: Pos2D,
    pub rbot: Pos2D,
}

impl Rect2D {
    /// The top-left corner is above and left of the bottom-right one, and the size fits.
    pub open spec fn wf(&self) -> bool {
        &&& self.ltop.x <= self.rbot.x
        &&& self.ltop.y <= self.rbot.y
        &&& self.rbot.x - self.ltop.x <= isize::MAX
        &&& self.rbot.y - self.ltop.y <= isize::MAX
    }

    /// The size, as the displacement along the major diagonal.
    pub fn size(&self) -> (r: Disp2D)
        requires
            self.wf(),
        ensures
            r.dx == self.rbot.x - self.ltop.x,
            r.dy == self.rbot.y - self.ltop.y,
    {
        self.rbot.sub(self.ltop)
    }

    pub fn width(&self) -> (r: isize)
        requires
            self.wf(),
        ensures
            r == self.rbot.x - self.ltop.x,
    {
        self.size().dx
    }

    pub fn height(&self) -> (r: isize)
        requires
            self.wf(),
        ensures
            r == self.rbot.y - self.ltop.y,
    {
        self.size().dy
    }

    /// The rectangle with corners `p1` and `p2`, in whichever order.
    pub fn from_points(p1: Pos2D, p2: Pos2D) -> (r: Self)
        ensures
            r.ltop == (Pos2D { x: min_spec(p1.x, p2.x), y: min_spec(p1.y, p2.y) }),
            r.rbot == (Pos2D { x: max_spec(p1.x, p2.x), y: max_spec(p1.y, p2.y) }),
    {
        Rect2D {
            ltop: Pos2D { x: if p1.x <= p2.x { p1.x } else { p2.x }, y: if p1.y <= p2.y { p1.y } else { p2.y } },
            rbot: Pos2D { x: if p1.x >= p2.x { p1.x } else { p2.x }, y: if p1.y >= p2.y { p1.y } else { p2.y } },
        }
    }

    /// The rectangle `x_range × y_range`, each range given by its start and end.
    pub fn from_ranges(x_range: std::ops::Range<isize>, y_range: std::ops::Range<isize>) -> (r: Self)
        ensures
            r.ltop == (Pos2D { x: min_spec(x_range.start, x_range.end), y: min_spec(y_range.start, y_range.end) }),
            r.rbot == (Pos2D { x: max_spec(x_range.start, x_range.end), y: max_spec(y_range.start, y_range.end) }),
    {
        Self::from_points(Pos2D { x: x_range.start, y: y_range.start }, Pos2D { x: x_range.end, y: y_range.end })
    }

    pub open spec fn bound_spec(&self, boundary: Self) -> Self {
        let a = Pos2D { x: clamp_spec(self.ltop.x, boundary.ltop.x, boundary.rbot.x), y: clamp_spec(self.ltop.y, boundary.ltop.y, boundary.rbot.y) };
        let c = Pos2D { x: clamp_spec(self.rbot.x, boundary.ltop.x, boundary.rbot.x), y: clamp_spec(self.rbot.y, boundary.ltop.y, boundary.rbot.y) };
        Rect2D {
            ltop: Pos2D { x: min_spec(a.x, c.x), y: min_spec(a.y, c.y) },
            rbot: Pos2D { x: max_spec(a.x, c.x), y: max_spec(a.y, c.y) },
        }
    }

    /// This rectangle with both corners clamped into `boundary`.
    pub fn bound(&self, boundary: Self) -> (r: Self)
        requires
            boundary.wf(),
        ensures
            r == self.bound_spec(boundary),
            r.wf(),
            r.ltop.x == min_spec(clamp_spec(self.ltop.x, boundary.ltop.x, boundary.rbot.x), clamp_spec(self.rbot.x, boundary.ltop.x, boundary.rbot.x)),
            r.ltop.y == min_spec(clamp_spec(self.ltop.y, boundary.ltop.y, boundary.rbot.y), clamp_spec(self.rbot.y, boundary.ltop.y, boundary.rbot.y)),
            r.rbot.x == max_spec(clamp_spec(self.ltop.x, boundary.ltop.x, boundary.rbot.x), clamp_spec(self.rbot.x, boundary.ltop.x, boundary.rbot.x)),
            r.rbot.y == max_spec(clamp_spec(self.ltop.y, boundary.ltop.y, boundary.rbot.y), clamp_spec(self.rbot.y, boundary.ltop.y, boundary.rbot.y)),
            boundary.ltop.x <= r.ltop.x && r.rbot.x <= boundary.rbot.x,
            boundary.ltop.y <= r.ltop.y && r.rbot.y <= boundary.rbot.y,
    {
        Self::from_points(self.ltop.clamp(boundary.ltop, boundary.rbot), self.rbot.clamp(boundary.ltop, boundary.rbot))
    }

    /// Every displacement `(dx, dy)` with `0 <= dx < width` and `0 <= dy < height`, by columns.
    pub fn iterate_disp(&self) -> (r: Vec<Disp2D>)
        requires
            self.wf(),
            (self.rbot.x - self.ltop.x) * (self.rbot.y - self.ltop.y) <= usize::MAX,
        ensures
            ({
                let w = self.rbot.x - self.ltop.x;
                let h = self.rbot.y - self.ltop.y;
                &&& r@.len() == w * h
                &&& forall|k: int| 0 <= k < r@.len() ==> #[trigger] r@[k].dx == k / h && r@[k].dy == k % h
            }),
    {
        let diag = self.size();
        walk_disps(0, diag.dx, 0, diag.dy)
    }

    /// The displacements of `iterate_disp` that fall inside `boundary` once added to the
    /// top-left corner: `dx` in `[bx0, bx1)` and `dy` in `[by0, by1)`, where the bounds are those
    /// of `bound(boundary)` taken relative to the top-left corner.
    pub fn iterate_disp_bounded(&self, boundary: Rect2D) -> (r: Vec<Disp2D>)
        requires
            self.wf(),
            boundary.wf(),
            ({
                let b = self.bound_spec(boundary);
                &&& isize::MIN <= b.ltop.x - self.ltop.x && b.rbot.x - self.ltop.x <= isize::MAX
                &&& isize::MIN <= b.ltop.y - self.ltop.y && b.rbot.y - self.ltop.y <= isize::MAX
                &&& (b.rbot.x - b.ltop.x) * (b.rbot.y - b.ltop.y) <= usize::MAX
            }),
        ensures
            ({
                let b = self.bound_spec(boundary);
                let x0 = b.ltop.x - self.ltop.x;
                let x1 = b.rbot.x - self.ltop.x;
                let y0 = b.ltop.y - self.ltop.y;
                let y1 = b.rbot.y - self.ltop.y;
                let h = y1 - y0;
                &&& r@.len() == (x1 - x0) * h
                &&& forall|k: int| 0 <= k < r@.len() ==> #[trigger] r@[k].dx == x0 + k / h && r@[k].dy == y0 + k % h
            }),
    {
        let bounded = self.bound(boundary);
        let lt = bounded.ltop.sub(self.ltop);
        let rb = bounded.rbot.sub(self.ltop);
        walk_disps(lt.dx, rb.dx, lt.dy, rb.dy)
    }
}

/// Every `(dx, dy)` with `x0 <= dx < x1` and `y0 <= dy < y1`, `dx` in the outer loop.
fn walk_disps(x0: isize, x1: isize, y0: isize, y1: isize) -> (r: Vec<Disp2D>)
    requires
        x0 <= x1,
        y0 <= y1,
        y1 - y0 <= isize::MAX,
        (x1 - x0) * (y1 - y0) <= usize::MAX,
    ensures
        r@.len() == (x1 - x0) * (y1 - y0),
        forall|k: int| 0 <= k < r@.len() ==> #[trigger] r@[k].dx == x0 + k / (y1 - y0) && r@[k].dy == y0 + k % (y1 - y0),
{
    let ghost h = y1 - y0;
    let mut v: Vec<Disp2D> = Vec::new();
    let mut dx = x0;
    while dx < x1
        invariant
            x0 <= dx <= x1,
            y0 <= y1,
            h == y1 - y0,
            v@.len() == (dx - x0) * h,
            (x1 - x0) * h <= usize::MAX,
            forall|k: int| 0 <= k < v@.len() ==> #[trigger] v@[k].dx == x0 + k / h && v@[k].dy == y0 + k % h,
        decreases x1 - dx,
    {
        let mut dy = y0;
        while dy < y1
            invariant
                x0 <= dx < x1,
                y0 <= dy <= y1,
                h == y1 - y0,
                v@.len() == (dx - x0) * h + (dy - y0),
                (x1 - x0) * h <= usize::MAX,
                forall|k: int| 0 <= k < v@.len() ==> #[trigger] v@[k].dx == x0 + k / h && v@[k].dy == y0 + k % h,
            decreases y1 - dy,
        {
            proof {
                let k = (dx - x0) * h + (dy - y0);
                vstd::arithmetic::div_mod::lemma_fundamental_div_mod_converse(k, h, dx - x0, dy - y0);
                assert(k + 1 <= (x1 - x0) * h) by (nonlinear_arith)
                    requires
                        k == (dx - x0) * h + (dy - y0),
                        0 <= dy - y0 < h,
                        0 <= dx - x0 < x1 - x0,
                ;
            }
            v.push(Disp2D { dx, dy });
            dy = dy + 1;
        }
        proof {
            assert((dx - x0) * h + h == (dx + 1 - x0) * h) by (nonlinear_arith);
        }
        dx = dx + 1;
    }
    v
}

} // verus!
