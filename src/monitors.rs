use vstd::prelude::*;
use vstd::multiset::Multiset;

use crate::geometry::{all_wf, is_union_of, spans_fit, virtual_bounds, RectDebug};
use crate::text::{decimal, decimal_text};

verus! {

broadcast use vstd::seq_lib::group_to_multiset_ensures;

/// A snapshot of one display, taken when the displays were enumerated.
#[derive(Clone, Debug)]
pub struct MonitorDesc {
    /// Identity built from name, position and the primary flag.
    pub id: String,
    pub name: String,
    pub x: i32,
    pub y: i32,
    pub width: i32,
    pub height: i32,
    pub primary: bool,
}

impl MonitorDesc {
    pub open spec fn rect_spec(&self) -> RectDebug {
        RectDebug { x: self.x, y: self.y, w: self.width, h: self.height }
    }

    pub fn rect(&self) -> (r: RectDebug)
        ensures
            r == self.rect_spec(),
    {
        RectDebug { x: self.x, y: self.y, w: self.width, h: self.height }
    }
}

pub open spec fn monitor_rects(ms: Seq<MonitorDesc>) -> Seq<RectDebug> {
    ms.map_values(|m: MonitorDesc| m.rect_spec())
}

/// The identity of a display: `name:x:y:p`, with `p` 1 for the primary display
/// and 0 for the others.
pub open spec fn monitor_id_text(name: Seq<char>, x: int, y: int, primary: bool) -> Seq<char> {
    name + seq![':'] + decimal_text(x) + seq![':'] + decimal_text(y) + seq![':'] + if primary {
        seq!['1']
    } else {
        seq!['0']
    }
}

pub fn monitor_id(name: &String, x: i32, y: i32, primary: bool) -> (r: String)
    ensures
        r@ == monitor_id_text(name@, x as int, y as int, primary),
{
    proof {
        reveal_strlit(":");
        reveal_strlit("1");
        reveal_strlit("0");
    }
    let mut s = name.clone();
    s.append(":");
    let dx = decimal(x as i64);
    s.append(dx.as_str());
    s.append(":");
    let dy = decimal(y as i64);
    s.append(dy.as_str());
    s.append(":");
    if primary {
        s.append("1");
    } else {
        s.append("0");
    }
    s
}

/// The extent from `lo` to `hi`: never negative, and at most `i32::MAX`.
pub open spec fn extent(lo: int, hi: int) -> int {
    if hi <= lo {
        0
    } else if hi - lo > i32::MAX {
        i32::MAX as int
    } else {
        hi - lo
    }
}

/// Flag bit of a display's information record that marks the primary display.
pub const MONITOR_PRIMARY_FLAG: u32 = 1;

/// The descriptor of a display named `name` whose bounds run from
/// `(left, top)` to `(right, bottom)`, with the information flags `flags`.
pub fn monitor_desc(name: String, left: i32, top: i32, right: i32, bottom: i32, flags: u32) -> (r:
    MonitorDesc)
    ensures
        r.name@ == name@,
        r.x == left,
        r.y == top,
        r.width == extent(left as int, right as int),
        r.height == extent(top as int, bottom as int),
        r.primary == (flags & MONITOR_PRIMARY_FLAG != 0),
        r.id@ == monitor_id_text(name@, left as int, top as int, r.primary),
        r.rect_spec().wf(),
{
    let width = extent_of(left, right);
    let height = extent_of(top, bottom);
    let primary = flags & MONITOR_PRIMARY_FLAG != 0;
    let id = monitor_id(&name, left, top, primary);
    MonitorDesc { id, name, x: left, y: top, width, height, primary }
}

fn extent_of(lo: i32, hi: i32) -> (r: i32)
    ensures
        r == extent(lo as int, hi as int),
        lo + r <= i32::MAX,
{
    let d = hi as i64 - lo as i64;
    if d <= 0 {
        0
    } else if d > i32::MAX as i64 {
        i32::MAX
    } else {
        d as i32
    }
}

/// Index `i` holds the first display of `ms` whose identity is `id`.
pub open spec fn first_with_id(ms: Seq<MonitorDesc>, id: Seq<char>, i: int) -> bool {
    &&& 0 <= i < ms.len()
    &&& ms[i].id@ == id
    &&& forall|j: int| 0 <= j < i ==> (#[trigger] ms[j]).id@ != id
}

/// A selector is given and some display of `ms` has that identity.
pub open spec fn selects_some(ms: Seq<MonitorDesc>, selector: Option<&String>) -> bool {
    &&& selector is Some
    &&& exists|i: int| 0 <= i < ms.len() && (#[trigger] ms[i]).id@ == selector.unwrap()@
}

/// What `String::from_utf16_lossy` makes of `units`.
pub uninterp spec fn utf16_lossy(units: Seq<u16>) -> Seq<char>;

/// Relies on `String::from_utf16_lossy`: decodes UTF-16, putting U+FFFD in
/// place of invalid units; the text depends on the units alone, and no units
/// give the empty text.
#[verifier::external_body]
fn decode_utf16_lossy(units: &[u16]) -> (r: String)
    ensures
        r@ == utf16_lossy(units@),
        units@.len() == 0 ==> r@.len() == 0,
{
    String::from_utf16_lossy(units)
}

/// `n` is where the NUL-terminated text in `units` ends: the first NUL, or the
/// end of the buffer when it holds none.
pub open spec fn is_text_end(units: Seq<u16>, n: int) -> bool {
    &&& 0 <= n <= units.len()
    &&& forall|k: int| 0 <= k < n ==> #[trigger] units[k] != 0
    &&& (n == units.len() || units[n] == 0)
}

fn text_end(units: &[u16]) -> (n: usize)
    ensures
        is_text_end(units@, n as int),
{
    let mut n: usize = 0;
    while n < units.len() && units[n] != 0
        invariant
            0 <= n <= units@.len(),
            forall|k: int| 0 <= k < n ==> #[trigger] units@[k] != 0,
        decreases units@.len() - n,
    {
        n = n + 1;
    }
    n
}

/// The descriptor of a display from its raw information record: the device
/// name as a NUL-terminated UTF-16 buffer, its bounds and its flags.
pub fn monitor_from_device(
    device: &[u16],
    left: i32,
    top: i32,
    right: i32,
    bottom: i32,
    flags: u32,
) -> (r: MonitorDesc)
    ensures
        exists|n: int| is_text_end(device@, n) && r.name@ == utf16_lossy(device@.subrange(0, n)),
        r.x == left,
        r.y == top,
        r.width == extent(left as int, right as int),
        r.height == extent(top as int, bottom as int),
        r.primary == (flags & MONITOR_PRIMARY_FLAG != 0),
        r.id@ == monitor_id_text(r.name@, left as int, top as int, r.primary),
        r.rect_spec().wf(),
{
    let n = text_end(device);
    let name = decode_utf16_lossy(&device[0..n]);
    assert(is_text_end(device@, n as int));
    monitor_desc(name, left, top, right, bottom, flags)
}

/// The bounds of the display whose identity is `selector`; the union of all
/// displays when no selector is given or none matches.  None only where that
/// union is needed and does not exist (no display, or too large).
pub fn monitor_bounds(list: &Vec<MonitorDesc>, selector: Option<&String>) -> (r: Option<RectDebug>)
    requires
        all_wf(monitor_rects(list@)),
    ensures
        selects_some(list@, selector) ==> exists|i: int|
            first_with_id(list@, selector.unwrap()@, i) && r == Some(
                (#[trigger] list@[i]).rect_spec(),
            ),
        !selects_some(list@, selector) ==> {
            &&& r is None <==> list@.len() == 0 || !spans_fit(monitor_rects(list@))
            &&& r matches Some(u) ==> is_union_of(u, monitor_rects(list@))
        },
        r matches Some(u) ==> u.wf(),
{
    if let Some(sel) = selector {
        let mut i: usize = 0;
        while i < list.len()
            invariant
                selector == Some(sel),
                all_wf(monitor_rects(list@)),
                0 <= i <= list@.len(),
                forall|j: int| 0 <= j < i ==> (#[trigger] list@[j]).id@ != sel@,
            decreases list@.len() - i,
        {
            if list[i].id == *sel {
                assert(first_with_id(list@, sel@, i as int));
                assert(monitor_rects(list@)[i as int] == list@[i as int].rect_spec());
                assert(monitor_rects(list@)[i as int].wf());
                return Some(list[i].rect());
            }
            i = i + 1;
        }
    }
    assert(selector matches Some(sel) ==> forall|j: int|
        0 <= j < list@.len() ==> (#[trigger] list@[j]).id@ != sel@);
    let mut rects: Vec<RectDebug> = Vec::new();
    let mut k: usize = 0;
    while k < list.len()
        invariant
            0 <= k <= list@.len(),
            rects@ == monitor_rects(list@).subrange(0, k as int),
        decreases list@.len() - k,
    {
        rects.push(list[k].rect());
        k = k + 1;
    }
    assert(rects@ =~= monitor_rects(list@));
    virtual_bounds(&rects)
}

/// `a` is listed no later than `b`: the primary display first, then by
/// position left to right, then top to bottom.
pub open spec fn listed_before(a: MonitorDesc, b: MonitorDesc) -> bool {
    if a.primary != b.primary {
        a.primary
    } else if a.x != b.x {
        a.x < b.x
    } else {
        a.y <= b.y
    }
}

pub open spec fn in_listing_order(ms: Seq<MonitorDesc>) -> bool {
    forall|i: int, j: int| 0 <= i < j < ms.len() ==> listed_before(#[trigger] ms[i], #[trigger] ms[j])
}

fn goes_before(a: &MonitorDesc, b: &MonitorDesc) -> (r: bool)
    ensures
        r == listed_before(*a, *b),
{
    if a.primary != b.primary {
        a.primary
    } else if a.x != b.x {
        a.x < b.x
    } else {
        a.y <= b.y
    }
}

proof fn lemma_insert_to_multiset<A>(s: Seq<A>, p: int, a: A)
    requires
        0 <= p <= s.len(),
    ensures
        s.insert(p, a).to_multiset() =~= s.to_multiset().insert(a),
{
    let t = s.insert(p, a);
    assert(t.remove(p) =~= s);
    assert(t[p] == a);
    assert(t.to_multiset().count(a) > 0) by {
        assert(t.contains(a));
    }
    assert(t.remove(p).to_multiset() =~= t.to_multiset().remove(a));
}

/// The displays in listing order: the primary display first, then left to
/// right, then top to bottom.
pub fn order_monitors(list: Vec<MonitorDesc>) -> (r: Vec<MonitorDesc>)
    ensures
        r@.to_multiset() == list@.to_multiset(),
        in_listing_order(r@),
{
    let mut rest = list;
    let mut out: Vec<MonitorDesc> = Vec::new();
    while rest.len() > 0
        invariant
            out@.to_multiset().add(rest@.to_multiset()) == list@.to_multiset(),
            in_listing_order(out@),
        decreases rest@.len(),
    {
        let ghost before = rest@;
        let m = rest.pop().unwrap();
        proof {
            assert(before =~= rest@.push(m));
        }
        let mut p: usize = 0;
        while p < out.len() && !goes_before(&m, &out[p])
            invariant
                0 <= p <= out@.len(),
                forall|k: int| 0 <= k < p ==> listed_before(#[trigger] out@[k], m),
            decreases out@.len() - p,
        {
            p = p + 1;
        }
        let ghost old_out = out@;
        out.insert(p, m);
        proof {
            lemma_insert_to_multiset(old_out, p as int, m);
            assert(out@.to_multiset().add(rest@.to_multiset()) =~= list@.to_multiset());
            assert forall|i: int, j: int| 0 <= i < j < out@.len() implies listed_before(
                #[trigger] out@[i],
                #[trigger] out@[j],
            ) by {
                if j < p {
                    assert(listed_before(old_out[i], old_out[j]));
                } else if j == p {
                    assert(listed_before(old_out[i], m));
                } else if i < p {
                    assert(listed_before(old_out[i], m));
                    assert(listed_before(m, old_out[p as int]));
                    assert(listed_before(old_out[p as int], old_out[j - 1]));
                } else if i == p {
                    assert(listed_before(m, old_out[p as int]));
                    if j - 1 > p {
                        assert(listed_before(old_out[p as int], old_out[j - 1]));
                    }
                } else {
                    assert(listed_before(old_out[i - 1], old_out[j - 1]));
                }
            }
        }
    }
    proof {
        assert(rest@.to_multiset() =~= Multiset::empty());
        assert(out@.to_multiset().add(Multiset::empty()) =~= out@.to_multiset());
    }
    out
}

} // verus!
