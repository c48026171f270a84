use vstd::prelude::*;

use crate::commands::{clamp_percent, HostCommand};
use crate::error::WallpaperError;
use crate::geometry::RectDebug;
use crate::lifecycle::{apply_step, ApplyAction, ApplyEvent, ApplyFlow, ApplyStage, ReadyPoll, HOST_LABEL};
use crate::state::{clone_text, MotionWallpaperState};

verus! {

/// A snapshot of the shared state for callers.
#[derive(Debug)]
pub struct MotionWallpaperStatus {
    pub host_exists: bool,
    pub host_ready: bool,
    pub host_ready_at: Option<i64>,
    pub attached: bool,
    pub parent_hwnd: Option<isize>,
    pub host_hwnd: Option<isize>,
    pub rect: RectDebug,
    pub applied: bool,
    pub click_through: bool,
    pub volume: u8,
    pub video_path: Option<String>,
    pub last_error: Option<String>,
}

/// The status with diagnostics: the labels of the host process's windows and
/// the last playback notification.
#[derive(Debug)]
pub struct MotionWallpaperDebugState {
    pub host_ready: bool,
    pub host_ready_at: Option<i64>,
    pub last_video_event: Option<String>,
    pub attached: bool,
    pub parent_hwnd: Option<isize>,
    pub host_rect: RectDebug,
    pub last_error: Option<String>,
    pub current_video_path: Option<String>,
    pub host_exists: bool,
    pub windows: Vec<String>,
}

/// The shared state and the flag that keeps the watchdog to one per process.
#[derive(Debug)]
pub struct MotionWallpaperRuntime {
    pub state: MotionWallpaperState,
    pub watcher_running: bool,
}

impl MotionWallpaperRuntime {
    pub fn new() -> (r: MotionWallpaperRuntime)
        ensures
            r.state == MotionWallpaperState::initial(),
            !r.watcher_running,
            r.state.wf(),
    {
        MotionWallpaperRuntime { state: MotionWallpaperState::new(), watcher_running: false }
    }

    /// Claims the right to start the watchdog: true exactly once.
    pub fn claim_watcher(&mut self) -> (r: bool)
        ensures
            r == !old(self).watcher_running,
            final(self).watcher_running,
            final(self).state == old(self).state,
    {
        let first = !self.watcher_running;
        self.watcher_running = true;
        first
    }
}

impl Default for MotionWallpaperRuntime {
    fn default() -> (r: MotionWallpaperRuntime)
        ensures
            r.state == MotionWallpaperState::initial(),
            !r.watcher_running,
    {
        MotionWallpaperRuntime::new()
    }
}

/// The text of an optional error.
pub open spec fn error_text(e: Option<WallpaperError>) -> Option<Seq<char>> {
    match e {
        Some(e) => Some(e.text()),
        None => None,
    }
}

pub open spec fn text_view(t: Option<String>) -> Option<Seq<char>> {
    match t {
        Some(t) => Some(t@),
        None => None,
    }
}

fn error_message(e: &Option<WallpaperError>) -> (r: Option<String>)
    ensures
        text_view(r) == error_text(*e),
{
    match e {
        Some(e) => Some(e.message()),
        None => None,
    }
}

/// `st` reports the state `s`, with `host_exists` also set when the host
/// process still shows the host surface.
pub open spec fn reports(st: MotionWallpaperStatus, s: MotionWallpaperState, host_window_present: bool) -> bool {
    &&& st.host_exists == (host_window_present || s.host_exists)
    &&& st.host_ready == s.host_ready
    &&& st.host_ready_at == s.host_ready_at
    &&& st.attached == s.attached
    &&& st.parent_hwnd == s.parent_hwnd
    &&& st.host_hwnd == s.host_hwnd
    &&& st.rect == s.last_rect
    &&& st.applied == s.applied
    &&& st.click_through == s.click_through
    &&& st.volume == s.volume
    &&& st.video_path == s.video_path
    &&& text_view(st.last_error) == error_text(s.last_error)
}

impl MotionWallpaperState {
    /// The snapshot reported to callers.
    pub fn status(&self, host_window_present: bool) -> (r: MotionWallpaperStatus)
        ensures
            reports(r, *self, host_window_present),
    {
        MotionWallpaperStatus {
            host_exists: host_window_present || self.host_exists,
            host_ready: self.host_ready,
            host_ready_at: self.host_ready_at,
            attached: self.attached,
            parent_hwnd: self.parent_hwnd,
            host_hwnd: self.host_hwnd,
            rect: self.last_rect,
            applied: self.applied,
            click_through: self.click_through,
            volume: self.volume,
            video_path: clone_text(&self.video_path),
            last_error: error_message(&self.last_error),
        }
    }

    /// The diagnostic snapshot, given the labels of the host process's windows.
    pub fn debug_state(&self, windows: Vec<String>) -> (r: MotionWallpaperDebugState)
        ensures
            r.host_exists == (self.host_exists || exists|i: int|
                0 <= i < windows@.len() && (#[trigger] windows@[i])@ == HOST_LABEL@),
            r.windows == windows,
            r.host_ready == self.host_ready,
            r.host_ready_at == self.host_ready_at,
            r.last_video_event == self.last_video_event,
            r.attached == self.attached,
            r.parent_hwnd == self.parent_hwnd,
            r.host_rect == self.last_rect,
            text_view(r.last_error) == error_text(self.last_error),
            r.current_video_path == self.video_path,
    {
        let label = String::from_str(HOST_LABEL);
        let mut listed = false;
        let mut i: usize = 0;
        while i < windows.len()
            invariant
                0 <= i <= windows@.len(),
                label@ == HOST_LABEL@,
                listed == exists|k: int| 0 <= k < i && (#[trigger] windows@[k])@ == HOST_LABEL@,
            decreases windows@.len() - i,
        {
            if windows[i] == label {
                listed = true;
            }
            i = i + 1;
        }
        MotionWallpaperDebugState {
            host_ready: self.host_ready,
            host_ready_at: self.host_ready_at,
            last_video_event: clone_text(&self.last_video_event),
            attached: self.attached,
            parent_hwnd: self.parent_hwnd,
            host_rect: self.last_rect,
            last_error: error_message(&self.last_error),
            current_video_path: clone_text(&self.video_path),
            host_exists: self.host_exists || listed,
            windows,
        }
    }
}

/// The volume of an apply is clamped to `0..=100` percent alike in the command
/// sent to the embedded content and in the recorded state.
pub proof fn lemma_apply_volume_clamped(
    flow: ApplyFlow,
    s: MotionWallpaperState,
    rect: RectDebug,
)
    ensures
        flow.stage == ApplyStage::SendVideo ==> apply_step(flow, s, ApplyEvent::Sent(Ok(()))).2
            == ApplyAction::Send(
            HostCommand::SetVolume { percent: clamp_percent(flow.request.volume as int) as u8 },
        ),
        apply_step(flow, s, ApplyEvent::Presented { rect }).1.volume == clamp_percent(
            flow.request.volume as int,
        ),
        0 <= clamp_percent(flow.request.volume as int) <= 100,
{
}

/// After an apply that attached and presented the host, the status reports
/// it attached, with both handles and no error.  After an apply whose wait
/// for readiness timed out, it reports the host unattached, with an error.
pub proof fn lemma_status_after_apply(
    flow: ApplyFlow,
    s: MotionWallpaperState,
    parent: isize,
    attached_rect: RectDebug,
    now: i64,
    shown_rect: RectDebug,
    waited_ms: u64,
    st1: MotionWallpaperStatus,
    st2: MotionWallpaperStatus,
    host_window_present: bool,
)
    requires
        s.wf(),
    ensures
        ({
            let (f1, s1, a1) = apply_step(
                flow,
                s,
                ApplyEvent::Attached { outcome: Ok((parent, attached_rect)), now },
            );
            let (f2, s2, a2) = apply_step(f1, s1, ApplyEvent::Presented { rect: shown_rect });
            a1 == (ApplyAction::Present { host: flow.host }) && a2 == ApplyAction::Finish(Ok(()))
                && reports(st1, s2, host_window_present) ==> {
                &&& st1.attached
                &&& st1.parent_hwnd == Some(parent)
                &&& st1.host_hwnd == Some(flow.host)
                &&& st1.last_error is None
            }
        }),
        ({
            let (f1, s1, a1) = apply_step(flow, s, ApplyEvent::ReadyChecked { waited_ms });
            s.ready_poll_spec(waited_ms) == ReadyPoll::TimedOut && reports(
                st2,
                s1,
                host_window_present,
            ) ==> {
                &&& a1 == ApplyAction::Finish(Err(WallpaperError::HostNotReady))
                &&& !st2.attached
                &&& st2.last_error is Some
            }
        }),
{
}

} // verus!
