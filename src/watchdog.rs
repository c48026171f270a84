use vstd::prelude::*;

use crate::error::WallpaperError;
use crate::geometry::RectDebug;
use crate::state::MotionWallpaperState;

verus! {

/// Pause between two watchdog ticks.
pub const WATCHDOG_INTERVAL_MS: u64 = 2000;

/// After an attachment the watchdog leaves the host alone this long, so that
/// it does not fight an apply in progress.
pub const ATTACH_DWELL_MS: i64 = 5000;

/// The least time between two repairs.
pub const REPAIR_COOLDOWN_MS: i64 = 1500;

/// Milliseconds from `then` to `now`, none when `now` is not later.
pub open spec fn elapsed(now: int, then: int) -> int {
    if now > then {
        now - then
    } else {
        0
    }
}

fn waited_at_least(now: i64, then: i64, span: i64) -> (r: bool)
    ensures
        r == (elapsed(now as int, then as int) >= span),
{
    let d: i128 = if now > then {
        now as i128 - then as i128
    } else {
        0
    };
    d >= span as i128
}

/// What a watchdog tick does after reading the state.
#[derive(Clone, Copy, Debug, PartialEq, Eq, Structural)]
pub enum WatchdogPlan {
    /// Nothing to watch, or the attachment is too recent.
    Skip,
    /// Check that `parent` is still a live window; `host` is what a repair reattaches.
    CheckParent { parent: isize, host: isize },
}

/// What a watchdog tick does once it knows whether the parent is alive.
#[derive(Clone, Copy, Debug, PartialEq, Eq, Structural)]
pub enum RepairDecision {
    /// The parent is alive.
    Healthy,
    /// The parent is gone, but a repair started too recently.
    CoolingDown,
    /// Reattach `host`.
    Repair { host: isize },
}

impl MotionWallpaperState {
    pub open spec fn watchdog_plan_spec(self, now: i64) -> WatchdogPlan {
        if self.attached && self.host_ready && self.parent_hwnd is Some && self.host_hwnd is Some
            && elapsed(now as int, self.last_attach_at as int) >= ATTACH_DWELL_MS {
            WatchdogPlan::CheckParent {
                parent: self.parent_hwnd.unwrap(),
                host: self.host_hwnd.unwrap(),
            }
        } else {
            WatchdogPlan::Skip
        }
    }

    /// The first decision of a tick at time `now`: watch only an attached,
    /// ready host whose attachment has settled.
    pub fn watchdog_plan(&self, now: i64) -> (r: WatchdogPlan)
        ensures
            r == self.watchdog_plan_spec(now),
    {
        if self.attached && self.host_ready && waited_at_least(now, self.last_attach_at, ATTACH_DWELL_MS) {
            match (self.parent_hwnd, self.host_hwnd) {
                (Some(parent), Some(host)) => WatchdogPlan::CheckParent { parent, host },
                _ => WatchdogPlan::Skip,
            }
        } else {
            WatchdogPlan::Skip
        }
    }

    pub open spec fn parent_checked_spec(self, now: i64, parent_live: bool, host: isize) -> (
        MotionWallpaperState,
        RepairDecision,
    ) {
        if parent_live {
            (self, RepairDecision::Healthy)
        } else if elapsed(now as int, self.last_repair_at as int) < REPAIR_COOLDOWN_MS {
            (self, RepairDecision::CoolingDown)
        } else {
            (MotionWallpaperState { last_repair_at: now, ..self }, RepairDecision::Repair { host })
        }
    }

    /// The second decision of a tick at time `now`: a dead parent is
    /// repaired, unless a repair started less than the cooldown ago.  A
    /// repair that starts is stamped.
    pub fn parent_checked(&mut self, now: i64, parent_live: bool, host: isize) -> (r: RepairDecision)
        requires
            old(self).wf(),
        ensures
            (*final(self), r) == old(self).parent_checked_spec(now, parent_live, host),
            final(self).wf(),
    {
        if parent_live {
            RepairDecision::Healthy
        } else if !waited_at_least(now, self.last_repair_at, REPAIR_COOLDOWN_MS) {
            RepairDecision::CoolingDown
        } else {
            self.last_repair_at = now;
            RepairDecision::Repair { host }
        }
    }

    pub open spec fn repair_recorded(
        self,
        host: isize,
        outcome: Result<(isize, RectDebug), WallpaperError>,
        now: i64,
    ) -> MotionWallpaperState {
        match outcome {
            Ok((parent, rect)) => self.attach_recorded(host, parent, rect, now),
            Err(e) => self.with_error(e),
        }
    }

    /// Records how the repair of `host` ended: a new attachment, or the error.
    pub fn record_repair(
        &mut self,
        host: isize,
        outcome: Result<(isize, RectDebug), WallpaperError>,
        now: i64,
    )
        requires
            old(self).wf(),
        ensures
            *final(self) == old(self).repair_recorded(host, outcome, now),
            final(self).wf(),
    {
        match outcome {
            Ok((parent, rect)) => self.record_attach(host, parent, rect, now),
            Err(e) => self.record_error(e),
        }
    }
}

/// Two dead-parent detections less than the cooldown apart start at most one
/// repair, whatever the first repair's outcome.
pub proof fn lemma_repair_cooldown(
    s: MotionWallpaperState,
    t1: i64,
    t2: i64,
    host1: isize,
    host2: isize,
    outcome: Result<(isize, RectDebug), WallpaperError>,
    now: i64,
)
    requires
        t1 <= t2 < t1 + REPAIR_COOLDOWN_MS,
    ensures
        ({
            let (s1, first) = s.parent_checked_spec(t1, false, host1);
            let s2 = if first is Repair {
                s1.repair_recorded(host1, outcome, now)
            } else {
                s1
            };
            let (s3, second) = s2.parent_checked_spec(t2, false, host2);
            !(first is Repair && second is Repair)
        }),
{
}

} // verus!
