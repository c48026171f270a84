use vstd::prelude::*;

verus! {

/// An axis-aligned rectangle in signed desktop pixel coordinates.
#[derive(Clone, Copy, Debug, PartialEq, Eq, Structural)]
pub struct RectDebug {
    pub x: i32,
    pub y: i32,
    pub w: i32,
    pub h: i32,
}

impl RectDebug {
    /// Sizes are non-negative and both far edges are representable.
    pub open spec fn wf(&self) -> bool {
        &&& self.w >= 0
        &&& self.h >= 0
        &&& self.x + self.w <= i32::MAX
        &&& self.y + self.h <= i32::MAX
    }

    pub open spec fn right(&self) -> int {
        self.x + self.w
    }

    pub open spec fn bottom(&self) -> int {
        self.y + self.h
    }

    /// `other` lies entirely inside `self`.
    pub open spec fn covers(&self, other: RectDebug) -> bool {
        &&& self.x <= other.x
        &&& self.y <= other.y
        &&& other.right() <= self.right()
        &&& other.bottom() <= self.bottom()
    }

    pub open spec fn empty_at_origin() -> RectDebug {
        RectDebug { x: 0, y: 0, w: 0, h: 0 }
    }

    pub fn is_well_formed(&self) -> (r: bool)
        ensures
            r == self.wf(),
    {
        self.w >= 0 && self.h >= 0 && self.x as i64 + self.w as i64 <= i32::MAX as i64 && self.y as i64
            + self.h as i64 <= i32::MAX as i64
    }

    pub fn zero() -> (r: RectDebug)
        ensures
            r == RectDebug::empty_at_origin(),
    {
        RectDebug { x: 0, y: 0, w: 0, h: 0 }
    }
}

impl Default for RectDebug {
    fn default() -> (r: RectDebug)
        ensures
            r == RectDebug::empty_at_origin(),
    {
        RectDebug::zero()
    }
}

/// `n / d` rounded to the nearest integer, halves rounded up (for `n >= 0`, `d > 0`).
pub open spec fn round_half_up(n: int, d: int) -> int {
    (2 * n + d) / (2 * d)
}

/// The container is strictly wider than the target ratio `rw:rh`.
pub open spec fn wider_than(c: RectDebug, rw: int, rh: int) -> bool {
    c.w * rh > rw * c.h
}

/// Width of the fitted rectangle when the container is wider than the ratio.
pub open spec fn fitted_width(c: RectDebug, rw: int, rh: int) -> int {
    round_half_up(c.h * rw, rh)
}

/// Height of the fitted rectangle when the container is not wider than the ratio.
pub open spec fn fitted_height(c: RectDebug, rw: int, rh: int) -> int {
    round_half_up(c.w * rh, rw)
}

/// The largest rectangle of ratio `rw:rh` centred in `c`.  A zero height or a
/// zero ratio term is degenerate and leaves the container as it is.
pub open spec fn fit_aspect_spec(c: RectDebug, rw: int, rh: int) -> RectDebug {
    if c.h == 0 || rw == 0 || rh == 0 {
        c
    } else if wider_than(c, rw, rh) {
        let tw = fitted_width(c, rw, rh);
        RectDebug { x: (c.x + round_half_up(c.w - tw, 2)) as i32, y: c.y, w: tw as i32, h: c.h }
    } else {
        let th = fitted_height(c, rw, rh);
        RectDebug { x: c.x, y: (c.y + round_half_up(c.h - th, 2)) as i32, w: c.w, h: th as i32 }
    }
}

proof fn lemma_round_half_up_bounds(n: int, d: int)
    requires
        n >= 0,
        d > 0,
    ensures
        0 <= round_half_up(n, d),
        d * round_half_up(n, d) <= n + d / 2 + 1,
        2 * d * round_half_up(n, d) <= 2 * n + d,
        2 * n + d < 2 * d * (round_half_up(n, d) + 1),
{
    let q = round_half_up(n, d);
    assert(0 <= q) by (nonlinear_arith)
        requires
            n >= 0,
            d > 0,
            q == (2 * n + d) / (2 * d),
    ;
    assert(2 * d * q <= 2 * n + d && 2 * n + d < 2 * d * (q + 1)) by (nonlinear_arith)
        requires
            n >= 0,
            d > 0,
            q == (2 * n + d) / (2 * d),
    ;
    assert(d * q <= n + d / 2 + 1) by (nonlinear_arith)
        requires
            d > 0,
            2 * d * q <= 2 * n + d,
    ;
}

/// The fitted dimension never exceeds the container's, so the result stays inside it.
pub proof fn lemma_fit_aspect_inside(c: RectDebug, rw: int, rh: int)
    requires
        c.wf(),
        rw >= 0,
        rh >= 0,
    ensures
        fit_aspect_spec(c, rw, rh).wf(),
        c.covers(fit_aspect_spec(c, rw, rh)),
        !(c.h == 0 || rw == 0 || rh == 0) && wider_than(c, rw, rh) ==> {
            &&& 0 <= fitted_width(c, rw, rh) <= c.w
            &&& 0 <= round_half_up(c.w - fitted_width(c, rw, rh), 2) <= c.w - fitted_width(
                c,
                rw,
                rh,
            )
        },
        !(c.h == 0 || rw == 0 || rh == 0) && !wider_than(c, rw, rh) ==> {
            &&& 0 <= fitted_height(c, rw, rh) <= c.h
            &&& 0 <= round_half_up(c.h - fitted_height(c, rw, rh), 2) <= c.h - fitted_height(
                c,
                rw,
                rh,
            )
        },
{
    if c.h == 0 || rw == 0 || rh == 0 {
    } else if wider_than(c, rw, rh) {
        let tw = fitted_width(c, rw, rh);
        let n = c.h * rw;
        assert(n >= 0) by (nonlinear_arith)
            requires
                c.h >= 0,
                rw >= 0,
                n == c.h * rw,
        ;
        lemma_round_half_up_bounds(n, rh);
        assert(tw <= c.w) by (nonlinear_arith)
            requires
                c.w * rh > rw * c.h,
                n == c.h * rw,
                2 * n + rh < 2 * rh * (tw + 1),
                2 * rh * tw <= 2 * n + rh,
                rh > 0,
        ;
        lemma_round_half_up_bounds(c.w - tw, 2);
    } else {
        let th = fitted_height(c, rw, rh);
        let n = c.w * rh;
        assert(n >= 0) by (nonlinear_arith)
            requires
                c.w >= 0,
                rh >= 0,
                n == c.w * rh,
        ;
        lemma_round_half_up_bounds(n, rw);
        assert(th <= c.h) by (nonlinear_arith)
            requires
                c.w * rh <= rw * c.h,
                n == c.w * rh,
                2 * rw * th <= 2 * n + rw,
                rw > 0,
        ;
        lemma_round_half_up_bounds(c.h - th, 2);
    }
}

/// `round_half_up(n, d)` computed without overflow.
fn round_div(n: u128, d: u128) -> (r: u128)
    requires
        d > 0,
        n < 0x1_0000_0000_0000_0000_0000,
        d < 0x1_0000_0000_0000,
    ensures
        r as int == round_half_up(n as int, d as int),
{
    (2 * n + d) / (2 * d)
}

/// Centres the largest rectangle of ratio `ratio_w:ratio_h` inside `container`.
/// When the container is wider than the ratio the full height is kept and the
/// width derived from it, else the full width is kept; the shorter dimension is
/// centred by a rounded offset.  A container of zero height, or a zero ratio
/// term, is returned unchanged, as in fill mode.
pub fn fit_aspect(container: RectDebug, ratio_w: u32, ratio_h: u32) -> (r: RectDebug)
    requires
        container.wf(),
    ensures
        r == fit_aspect_spec(container, ratio_w as int, ratio_h as int),
        r.wf(),
        container.covers(r),
{
    proof {
        lemma_fit_aspect_inside(container, ratio_w as int, ratio_h as int);
    }
    if container.h == 0 || ratio_w == 0 || ratio_h == 0 {
        return container;
    }
    let w = container.w as u128;
    let h = container.h as u128;
    let rw = ratio_w as u128;
    let rh = ratio_h as u128;
    assert(w * rh < 0x1_0000_0000_0000_0000) by (nonlinear_arith)
        requires
            w < 0x1_0000_0000,
            rh < 0x1_0000_0000,
    ;
    assert(h * rw < 0x1_0000_0000_0000_0000) by (nonlinear_arith)
        requires
            h < 0x1_0000_0000,
            rw < 0x1_0000_0000,
    ;
    if w * rh > h * rw {
        let tw = round_div(h * rw, rh);
        let off = round_div(w - tw, 2);
        RectDebug {
            x: (container.x as i64 + off as i64) as i32,
            y: container.y,
            w: tw as i32,
            h: container.h,
        }
    } else {
        let th = round_div(w * rh, rw);
        let off = round_div(h - th, 2);
        RectDebug {
            x: container.x,
            y: (container.y as i64 + off as i64) as i32,
            w: container.w,
            h: th as i32,
        }
    }
}


/// The fitted rectangle, measured again against the same ratio, either lands on
/// the same side of the ratio as its container did, or its derived dimension
/// converts back through the ratio to the dimension that was kept.
pub open spec fn fit_is_stable(c: RectDebug, rw: int, rh: int) -> bool {
    let r = fit_aspect_spec(c, rw, rh);
    if c.h == 0 || rw == 0 || rh == 0 || r.h == 0 {
        true
    } else if wider_than(c, rw, rh) {
        wider_than(r, rw, rh) || fitted_height(r, rw, rh) == r.h
    } else {
        !wider_than(r, rw, rh) || fitted_width(r, rw, rh) == r.w
    }
}

/// Fitting is idempotent: fitting the fitted rectangle again with the same ratio
/// gives it back, exactly on the containers for which the rounded derived
/// dimension converts back to the kept one (`fit_is_stable`).  Rounding to whole
/// pixels makes a few small containers fail, e.g. a 13 pixel high container at
/// ratio 9:16 fits to width 7, which fits back to height 12.
pub proof fn lemma_fit_aspect_idempotent(c: RectDebug, ratio_w: u32, ratio_h: u32)
    requires
        c.wf(),
    ensures
        fit_is_stable(c, ratio_w as int, ratio_h as int) <==> fit_aspect_spec(
            fit_aspect_spec(c, ratio_w as int, ratio_h as int),
            ratio_w as int,
            ratio_h as int,
        ) == fit_aspect_spec(c, ratio_w as int, ratio_h as int),
{
    let rw = ratio_w as int;
    let rh = ratio_h as int;
    lemma_fit_aspect_inside(c, rw, rh);
    let r = fit_aspect_spec(c, rw, rh);
    lemma_fit_aspect_inside(r, rw, rh);
    assert(2int / 4int == 0);
    assert(round_half_up(0, 2) == 0);
    let r2 = fit_aspect_spec(r, rw, rh);
    if c.h == 0 || rw == 0 || rh == 0 {
    } else if wider_than(c, rw, rh) {
        assert(r.h == c.h);
        assert(r.w == fitted_width(c, rw, rh));
        if wider_than(r, rw, rh) {
            assert(fitted_width(r, rw, rh) == fitted_width(c, rw, rh));
            assert(r2 == r);
        } else {
            assert(r2.h == fitted_height(r, rw, rh));
            if fitted_height(r, rw, rh) == r.h {
                assert(r2 == r);
            }
        }
    } else {
        assert(r.w == c.w);
        if r.h == 0 {
        } else if wider_than(r, rw, rh) {
            assert(r2.w == fitted_width(r, rw, rh));
            if fitted_width(r, rw, rh) == r.w {
                assert(r2 == r);
            }
        } else {
            assert(fitted_height(r, rw, rh) == fitted_height(c, rw, rh));
            assert(r2 == r);
        }
    }
}

/// A container that already has the ratio is returned unchanged: no
/// letterboxing is added.
pub proof fn lemma_fit_exact_ratio(c: RectDebug, ratio_w: u32, ratio_h: u32)
    requires
        c.wf(),
        c.w * ratio_h == ratio_w * c.h,
    ensures
        fit_aspect_spec(c, ratio_w as int, ratio_h as int) == c,
{
    let rw = ratio_w as int;
    let rh = ratio_h as int;
    if c.h == 0 || rw == 0 || rh == 0 {
    } else {
        let th = fitted_height(c, rw, rh);
        assert(th == c.h) by (nonlinear_arith)
            requires
                th == (2 * (c.w * rh) + rw) / (2 * rw),
                c.w * rh == rw * c.h,
                rw > 0,
        ;
        assert(2int / 4int == 0);
        assert(round_half_up(0, 2) == 0);
    }
}

/// The aspect modes a wallpaper can be laid out in.
#[derive(Clone, Copy, Debug, PartialEq, Eq, Structural)]
pub enum Aspect {
    /// Stretch over the whole target rectangle.
    Fill,
    /// Largest centred 16:9 rectangle.
    Landscape,
    /// Largest centred 9:16 rectangle.
    Portrait,
}

/// `s` is the word `fill` in any mix of ASCII letter case.
pub open spec fn is_fill_word(s: Seq<char>) -> bool {
    &&& s.len() == 4
    &&& (s[0] == 'f' || s[0] == 'F')
    &&& (s[1] == 'i' || s[1] == 'I')
    &&& (s[2] == 'l' || s[2] == 'L')
    &&& (s[3] == 'l' || s[3] == 'L')
}

pub open spec fn is_portrait_word(s: Seq<char>) -> bool {
    s == seq!['9', ':', '1', '6']
}

impl Aspect {
    /// `fill` (any case) and `9:16` name their modes; every other text means 16:9.
    pub open spec fn from_text(s: Seq<char>) -> Aspect {
        if is_fill_word(s) {
            Aspect::Fill
        } else if is_portrait_word(s) {
            Aspect::Portrait
        } else {
            Aspect::Landscape
        }
    }

    pub fn parse(s: &str) -> (r: Aspect)
        ensures
            r == Aspect::from_text(s@),
    {
        let n = s.unicode_len();
        if n != 4 {
            return Aspect::Landscape;
        }
        let c0 = s.get_char(0);
        let c1 = s.get_char(1);
        let c2 = s.get_char(2);
        let c3 = s.get_char(3);
        if (c0 == 'f' || c0 == 'F') && (c1 == 'i' || c1 == 'I') && (c2 == 'l' || c2 == 'L') && (c3
            == 'l' || c3 == 'L') {
            Aspect::Fill
        } else if c0 == '9' && c1 == ':' && c2 == '1' && c3 == '6' {
            assert(s@ =~= seq!['9', ':', '1', '6']);
            Aspect::Portrait
        } else {
            Aspect::Landscape
        }
    }

    /// The target ratio `(w, h)`, none for fill mode.
    pub open spec fn ratio_spec(&self) -> Option<(u32, u32)> {
        match self {
            Aspect::Fill => None,
            Aspect::Landscape => Some((16u32, 9u32)),
            Aspect::Portrait => Some((9u32, 16u32)),
        }
    }

    /// The rectangle that this mode lays out inside `container`.
    pub open spec fn layout_spec(&self, container: RectDebug) -> RectDebug {
        match self.ratio_spec() {
            None => container,
            Some((w, h)) => fit_aspect_spec(container, w as int, h as int),
        }
    }

    pub fn layout(&self, container: RectDebug) -> (r: RectDebug)
        requires
            container.wf(),
        ensures
            r == self.layout_spec(container),
            r.wf(),
            container.covers(r),
    {
        match self {
            Aspect::Fill => container,
            Aspect::Landscape => fit_aspect(container, 16, 9),
            Aspect::Portrait => fit_aspect(container, 9, 16),
        }
    }
}

/// The rectangle `(x, y, w, h)` laid out in the aspect mode that `aspect` names.
pub fn compute_aspect_rect(x: i32, y: i32, w: i32, h: i32, aspect: &str) -> (r: RectDebug)
    requires
        (RectDebug { x, y, w, h }).wf(),
    ensures
        r == Aspect::from_text(aspect@).layout_spec(RectDebug { x, y, w, h }),
{
    Aspect::parse(aspect).layout(RectDebug { x, y, w, h })
}

/// Every rectangle of `rs` is well formed.
pub open spec fn all_wf(rs: Seq<RectDebug>) -> bool {
    forall|i: int| 0 <= i < rs.len() ==> (#[trigger] rs[i]).wf()
}

/// The span from the leftmost (topmost) edge to the rightmost (bottommost)
/// edge of `rs` is representable as a width (height).
pub open spec fn spans_fit(rs: Seq<RectDebug>) -> bool {
    &&& forall|i: int, j: int|
        0 <= i < rs.len() && 0 <= j < rs.len() ==> #[trigger] rs[i].right() - #[trigger] rs[j].x
            <= i32::MAX
    &&& forall|i: int, j: int|
        0 <= i < rs.len() && 0 <= j < rs.len() ==> #[trigger] rs[i].bottom() - #[trigger] rs[j].y
            <= i32::MAX
}

/// `u` is the smallest rectangle covering every rectangle of `rs`: it covers
/// each of them, and each of its four edges is an edge of one of them.
pub open spec fn is_union_of(u: RectDebug, rs: Seq<RectDebug>) -> bool {
    &&& forall|i: int| 0 <= i < rs.len() ==> u.covers(#[trigger] rs[i])
    &&& exists|i: int| 0 <= i < rs.len() && #[trigger] rs[i].x == u.x
    &&& exists|i: int| 0 <= i < rs.len() && #[trigger] rs[i].y == u.y
    &&& exists|i: int| 0 <= i < rs.len() && #[trigger] rs[i].right() == u.right()
    &&& exists|i: int| 0 <= i < rs.len() && #[trigger] rs[i].bottom() == u.bottom()
}

/// The virtual desktop: the union of all display rectangles, which may start at
/// negative coordinates.  None when there is no display, or when the union is
/// too large to be represented.
pub fn virtual_bounds(rects: &Vec<RectDebug>) -> (r: Option<RectDebug>)
    requires
        all_wf(rects@),
    ensures
        r is None <==> rects@.len() == 0 || !spans_fit(rects@),
        r matches Some(u) ==> is_union_of(u, rects@) && u.wf(),
{
    if rects.len() == 0 {
        return None;
    }
    let ghost rs = rects@;
    let mut left: i32 = rects[0].x;
    let mut top: i32 = rects[0].y;
    let mut right: i64 = rects[0].x as i64 + rects[0].w as i64;
    let mut bottom: i64 = rects[0].y as i64 + rects[0].h as i64;
    let ghost mut il: int = 0;
    let ghost mut it: int = 0;
    let ghost mut ir: int = 0;
    let ghost mut ib: int = 0;
    assert(rs[0].wf());
    let mut i: usize = 1;
    while i < rects.len()
        invariant
            rs == rects@,
            all_wf(rs),
            1 <= i <= rs.len(),
            0 <= il < i,
            0 <= it < i,
            0 <= ir < i,
            0 <= ib < i,
            rs[il].x == left,
            rs[it].y == top,
            rs[ir].right() == right,
            rs[ib].bottom() == bottom,
            right <= i32::MAX,
            bottom <= i32::MAX,
            forall|k: int|
                0 <= k < i ==> {
                    &&& left <= (#[trigger] rs[k]).x
                    &&& top <= rs[k].y
                    &&& rs[k].right() <= right
                    &&& rs[k].bottom() <= bottom
                },
        decreases rs.len() - i,
    {
        let r = rects[i];
        assert(rs[i as int].wf());
        if r.x < left {
            left = r.x;
            proof {
                il = i as int;
            }
        }
        if r.y < top {
            top = r.y;
            proof {
                it = i as int;
            }
        }
        let rr = r.x as i64 + r.w as i64;
        if rr > right {
            right = rr;
            proof {
                ir = i as int;
            }
        }
        let rb = r.y as i64 + r.h as i64;
        if rb > bottom {
            bottom = rb;
            proof {
                ib = i as int;
            }
        }
        i = i + 1;
    }
    if right - (left as i64) > i32::MAX as i64 || bottom - (top as i64) > i32::MAX as i64 {
        assert(!spans_fit(rs)) by {
            if right - left > i32::MAX {
                assert(rs[ir].right() - rs[il].x > i32::MAX);
            } else {
                assert(rs[ib].bottom() - rs[it].y > i32::MAX);
            }
        }
        return None;
    }
    assert(rs[il].wf());
    let u = RectDebug {
        x: left,
        y: top,
        w: (right - left as i64) as i32,
        h: (bottom - top as i64) as i32,
    };
    assert(u.right() == right);
    assert(u.bottom() == bottom);
    assert(is_union_of(u, rs));
    Some(u)
}

} // verus!
