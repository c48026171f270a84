use vstd::prelude::*;

use crate::error::WallpaperError;
use crate::geometry::{all_wf, is_union_of, spans_fit, Aspect, RectDebug};
use crate::monitors::{first_with_id, monitor_bounds, monitor_rects, selects_some, MonitorDesc};

verus! {

/// Extended window style: a tool window, kept off the taskbar and the task switcher.
pub const WS_EX_TOOLWINDOW: u32 = 0x80;

/// Extended window style: forced onto the taskbar.
pub const WS_EX_APPWINDOW: u32 = 0x40000;

/// Extended window style: a layered window.
pub const WS_EX_LAYERED: u32 = 0x80000;

/// Extended window style: transparent to mouse input.
pub const WS_EX_TRANSPARENT: u32 = 0x20;

/// The outcome of reparenting, from the previous parent it returned (0 when
/// none) and the platform's last error read right after it.  A null previous
/// parent is a failure only when an error code was also set: a window that
/// had no parent before also gives a null previous parent.
pub fn reparent_outcome(previous_parent: isize, last_error: u32) -> (r: Result<(), WallpaperError>)
    ensures
        r == if previous_parent == 0 && last_error != 0 {
            Err(WallpaperError::ReparentFailed { code: last_error })
        } else {
            Ok(())
        },
{
    if previous_parent == 0 && last_error != 0 {
        Err(WallpaperError::ReparentFailed { code: last_error })
    } else {
        Ok(())
    }
}

pub open spec fn tool_window_bits(ex: u32) -> u32 {
    (ex | WS_EX_TOOLWINDOW) & !WS_EX_APPWINDOW
}

pub open spec fn click_through_bits(ex: u32, enabled: bool) -> u32 {
    if enabled {
        tool_window_bits(ex) | WS_EX_TRANSPARENT | WS_EX_LAYERED
    } else {
        tool_window_bits(ex) & !WS_EX_TRANSPARENT
    }
}

/// The extended style `ex` marked as a tool window and never as an app window.
pub fn tool_window_style(ex: u32) -> (r: u32)
    ensures
        r == tool_window_bits(ex),
        r & WS_EX_TOOLWINDOW != 0,
        r & WS_EX_APPWINDOW == 0,
{
    let r = (ex | WS_EX_TOOLWINDOW) & !WS_EX_APPWINDOW;
    assert(r & 0x80 != 0 && r & 0x40000 == 0) by (bit_vector)
        requires
            r == (ex | 0x80u32) & !0x40000u32,
    ;
    r
}

/// The extended style `ex` for a host that lets clicks through (`enabled`)
/// or not.  It is always a tool window.  Letting clicks through sets the
/// transparent and layered bits together; not letting them through clears the
/// transparent bit only, as a layered window that is not transparent is
/// harmless and toggling the layered bit makes the window flicker.
pub fn click_through_style(ex: u32, enabled: bool) -> (r: u32)
    ensures
        r == click_through_bits(ex, enabled),
        r & WS_EX_TOOLWINDOW != 0,
        r & WS_EX_APPWINDOW == 0,
        enabled ==> r & WS_EX_TRANSPARENT != 0 && r & WS_EX_LAYERED != 0,
        !enabled ==> r & WS_EX_TRANSPARENT == 0 && r & WS_EX_LAYERED == ex & WS_EX_LAYERED,
{
    let base = tool_window_style(ex);
    if enabled {
        let r = base | WS_EX_TRANSPARENT | WS_EX_LAYERED;
        assert(r & 0x80 != 0 && r & 0x40000 == 0 && r & 0x20 != 0 && r & 0x80000 != 0)
            by (bit_vector)
            requires
                base == (ex | 0x80u32) & !0x40000u32,
                r == base | 0x20u32 | 0x80000u32,
        ;
        r
    } else {
        let r = base & !WS_EX_TRANSPARENT;
        assert(r & 0x80 != 0 && r & 0x40000 == 0 && r & 0x20 == 0 && r & 0x80000 == ex & 0x80000)
            by (bit_vector)
            requires
                base == (ex | 0x80u32) & !0x40000u32,
                r == base & !0x20u32,
        ;
        r
    }
}

/// Applying a style a second time changes nothing.
pub proof fn lemma_styles_idempotent(ex: u32, enabled: bool)
    ensures
        tool_window_bits(tool_window_bits(ex)) == tool_window_bits(ex),
        click_through_bits(click_through_bits(ex, enabled), enabled) == click_through_bits(
            ex,
            enabled,
        ),
{
    assert(((((ex | 0x80u32) & !0x40000u32) | 0x80u32) & !0x40000u32) == ((ex | 0x80u32)
        & !0x40000u32)) by (bit_vector);
    assert((((((((ex | 0x80u32) & !0x40000u32) | 0x20u32 | 0x80000u32) | 0x80u32) & !0x40000u32)
        | 0x20u32 | 0x80000u32) == (((ex | 0x80u32) & !0x40000u32) | 0x20u32 | 0x80000u32)))
        by (bit_vector);
    assert((((((((ex | 0x80u32) & !0x40000u32) & !0x20u32) | 0x80u32) & !0x40000u32) & !0x20u32)
        == (((ex | 0x80u32) & !0x40000u32) & !0x20u32))) by (bit_vector);
}

/// `base` is the rectangle an apply lays its aspect out in: the selected
/// display; else the union of all displays; else, where no union exists or
/// the displays are malformed, the virtual screen `fallback`.
pub open spec fn layout_base(
    list: Seq<MonitorDesc>,
    selector: Option<&String>,
    fallback: RectDebug,
    base: RectDebug,
) -> bool {
    if !all_wf(monitor_rects(list)) {
        base == fallback
    } else if selects_some(list, selector) {
        exists|i: int| first_with_id(list, selector.unwrap()@, i) && base == (#[trigger] list[i]).rect_spec()
    } else if list.len() == 0 || !spans_fit(monitor_rects(list)) {
        base == fallback
    } else {
        is_union_of(base, monitor_rects(list))
    }
}

fn rects_wf(list: &Vec<MonitorDesc>) -> (r: bool)
    ensures
        r == all_wf(monitor_rects(list@)),
{
    let mut i: usize = 0;
    while i < list.len()
        invariant
            0 <= i <= list@.len(),
            forall|k: int| 0 <= k < i ==> (#[trigger] monitor_rects(list@)[k]).wf(),
        decreases list@.len() - i,
    {
        let m = &list[i];
        if m.width < 0 || m.height < 0 || m.x as i64 + m.width as i64 > i32::MAX as i64 || m.y as i64
            + m.height as i64 > i32::MAX as i64 {
            assert(!monitor_rects(list@)[i as int].wf());
            return false;
        }
        i = i + 1;
    }
    true
}

/// The rectangle an apply shows the host in: the aspect mode laid out in the
/// selected display, or in the union of all displays.
pub fn target_rect(
    list: &Vec<MonitorDesc>,
    selector: Option<&String>,
    aspect: Aspect,
    fallback: RectDebug,
) -> (r: RectDebug)
    requires
        fallback.wf(),
    ensures
        exists|base: RectDebug|
            layout_base(list@, selector, fallback, base) && base.wf() && r == aspect.layout_spec(
                base,
            ),
{
    if !rects_wf(list) {
        let r = aspect.layout(fallback);
        assert(layout_base(list@, selector, fallback, fallback));
        return r;
    }
    let bounds = monitor_bounds(list, selector);
    let base = match bounds {
        Some(b) => b,
        None => fallback,
    };
    assert(layout_base(list@, selector, fallback, base) && base.wf()) by {
        if selects_some(list@, selector) {
            let i = choose|i: int|
                first_with_id(list@, selector.unwrap()@, i) && bounds == Some(
                    (#[trigger] list@[i]).rect_spec(),
                );
            assert(monitor_rects(list@)[i].wf());
        }
    }
    let r = aspect.layout(base);
    assert(layout_base(list@, selector, fallback, base) && base.wf() && r == aspect.layout_spec(
        base,
    ));
    r
}

} // verus!
