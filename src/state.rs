use vstd::prelude::*;

use crate::commands::clamp_percent;
use crate::error::WallpaperError;
use crate::geometry::RectDebug;
use crate::text::{contains_text, decimal, decimal_text};

verus! {

/// The shared record of the wallpaper host and its attachment.  One value lives
/// for the whole process, behind a single lock.
#[derive(Debug)]
pub struct MotionWallpaperState {
    /// A host surface has been built.
    pub host_exists: bool,
    /// A build of the host surface is in flight.
    pub creating_host: bool,
    /// The embedded content reported ready.
    pub host_ready: bool,
    /// When it did, in milliseconds since the Unix epoch.
    pub host_ready_at: Option<i64>,
    pub host_visible: bool,
    /// The last apply went through to the end.
    pub applied: bool,
    /// The host is reparented under the shell's worker window.
    pub attached: bool,
    pub parent_hwnd: Option<isize>,
    pub host_hwnd: Option<isize>,
    /// The last rectangle applied to the host surface.
    pub last_rect: RectDebug,
    pub click_through: bool,
    /// Volume in percent, `0..=100`.
    pub volume: u8,
    pub video_path: Option<String>,
    pub last_video_event: Option<String>,
    pub last_error: Option<WallpaperError>,
    /// When the host was last attached, in milliseconds since the Unix epoch.
    pub last_attach_at: i64,
    /// When the watchdog last started a repair.
    pub last_repair_at: i64,
}

pub fn clone_text(o: &Option<String>) -> (r: Option<String>)
    ensures
        r == *o,
{
    match o {
        Some(s) => Some(s.clone()),
        None => None,
    }
}

impl MotionWallpaperState {
    pub open spec fn wf(&self) -> bool {
        &&& self.host_ready == self.host_ready_at is Some
        &&& self.attached ==> self.parent_hwnd is Some && self.host_hwnd is Some
        &&& self.attached ==> self.host_ready
        &&& self.volume <= 100
    }

    pub open spec fn initial() -> MotionWallpaperState {
        MotionWallpaperState {
            host_exists: false,
            creating_host: false,
            host_ready: false,
            host_ready_at: None,
            host_visible: false,
            applied: false,
            attached: false,
            parent_hwnd: None,
            host_hwnd: None,
            last_rect: RectDebug::empty_at_origin(),
            click_through: false,
            volume: 0,
            video_path: None,
            last_video_event: None,
            last_error: None,
            last_attach_at: 0,
            last_repair_at: 0,
        }
    }

    pub fn new() -> (r: MotionWallpaperState)
        ensures
            r == MotionWallpaperState::initial(),
            r.wf(),
    {
        MotionWallpaperState {
            host_exists: false,
            creating_host: false,
            host_ready: false,
            host_ready_at: None,
            host_visible: false,
            applied: false,
            attached: false,
            parent_hwnd: None,
            host_hwnd: None,
            last_rect: RectDebug::zero(),
            click_through: false,
            volume: 0,
            video_path: None,
            last_video_event: None,
            last_error: None,
            last_attach_at: 0,
            last_repair_at: 0,
        }
    }

    /// Starts a top-level operation: the previous error is cleared.
    pub fn begin_operation(&mut self)
        requires
            old(self).wf(),
        ensures
            *final(self) == (MotionWallpaperState { last_error: None, ..*old(self) }),
            final(self).wf(),
    {
        self.last_error = None;
    }

    pub open spec fn with_error(self, e: WallpaperError) -> MotionWallpaperState {
        MotionWallpaperState { last_error: Some(e), ..self }
    }

    /// Records a failure of the current operation.
    pub fn record_error(&mut self, e: WallpaperError)
        requires
            old(self).wf(),
        ensures
            *final(self) == old(self).with_error(e),
            final(self).wf(),
    {
        self.last_error = Some(e);
    }

    /// The embedded content signalled that it is ready, at time `now`.
    pub fn host_ready_signal(&mut self, now: i64)
        requires
            old(self).wf(),
        ensures
            *final(self) == (MotionWallpaperState {
                host_ready: true,
                host_ready_at: Some(now),
                ..*old(self)
            }),
            final(self).wf(),
    {
        self.host_ready = true;
        self.host_ready_at = Some(now);
    }

    pub open spec fn attach_recorded(
        self,
        host: isize,
        parent: isize,
        rect: RectDebug,
        now: i64,
    ) -> MotionWallpaperState {
        if self.host_ready {
            MotionWallpaperState {
                attached: true,
                parent_hwnd: Some(parent),
                host_hwnd: Some(host),
                last_rect: rect,
                last_error: None,
                last_attach_at: now,
                ..self
            }
        } else {
            self.with_error(WallpaperError::HostNotReady)
        }
    }

    /// Records that `host` was reparented under `parent` and laid out over
    /// `rect` at time `now`.  Readiness gates every attachment: where the
    /// content is no longer ready (the host was rebuilt meanwhile), nothing is
    /// recorded but the error.
    pub fn record_attach(&mut self, host: isize, parent: isize, rect: RectDebug, now: i64)
        requires
            old(self).wf(),
        ensures
            *final(self) == old(self).attach_recorded(host, parent, rect, now),
            final(self).wf(),
    {
        if self.host_ready {
            self.attached = true;
            self.parent_hwnd = Some(parent);
            self.host_hwnd = Some(host);
            self.last_rect = rect;
            self.last_error = None;
            self.last_attach_at = now;
        } else {
            self.last_error = Some(WallpaperError::HostNotReady);
        }
    }

    pub open spec fn apply_recorded(
        self,
        path: String,
        volume: i64,
        click_through: bool,
        rect: RectDebug,
        host: isize,
    ) -> MotionWallpaperState {
        MotionWallpaperState {
            applied: true,
            video_path: Some(path),
            volume: clamp_percent(volume as int) as u8,
            click_through,
            last_rect: rect,
            host_hwnd: Some(host),
            host_visible: true,
            ..self
        }
    }

    /// Records a completed apply: the media source, the volume (clamped to
    /// `0..=100` percent), the interaction mode and the rectangle now shown.
    pub fn record_applied(
        &mut self,
        path: String,
        volume: i64,
        click_through: bool,
        rect: RectDebug,
        host: isize,
    )
        requires
            old(self).wf(),
        ensures
            *final(self) == old(self).apply_recorded(path, volume, click_through, rect, host),
            final(self).wf(),
    {
        self.applied = true;
        self.video_path = Some(path);
        self.volume = crate::commands::volume_percent(volume);
        self.click_through = click_through;
        self.last_rect = rect;
        self.host_hwnd = Some(host);
        self.host_visible = true;
    }

    /// The wallpaper was paused and hidden; the host stays attached.
    pub fn record_stopped(&mut self)
        requires
            old(self).wf(),
        ensures
            *final(self) == (MotionWallpaperState {
                applied: false,
                host_visible: false,
                ..*old(self)
            }),
            final(self).wf(),
    {
        self.applied = false;
        self.host_visible = false;
    }

    pub fn set_click_through(&mut self, enabled: bool)
        requires
            old(self).wf(),
        ensures
            *final(self) == (MotionWallpaperState { click_through: enabled, ..*old(self) }),
            final(self).wf(),
    {
        self.click_through = enabled;
    }

    /// Records a requested volume, clamped to `0..=100` percent.
    pub fn record_volume(&mut self, requested: i64)
        requires
            old(self).wf(),
        ensures
            *final(self) == (MotionWallpaperState {
                volume: clamp_percent(requested as int) as u8,
                ..*old(self)
            }),
            final(self).wf(),
    {
        self.volume = crate::commands::volume_percent(requested);
    }

    pub open spec fn reloaded(self) -> MotionWallpaperState {
        MotionWallpaperState {
            host_exists: false,
            host_ready: false,
            host_ready_at: None,
            host_visible: false,
            attached: false,
            parent_hwnd: None,
            host_hwnd: None,
            last_rect: RectDebug::empty_at_origin(),
            last_video_event: None,
            last_error: None,
            ..self
        }
    }

    /// The host surface is being closed to be rebuilt: readiness and
    /// attachment are forgotten.
    pub fn reset_for_reload(&mut self)
        requires
            old(self).wf(),
        ensures
            *final(self) == old(self).reloaded(),
            final(self).wf(),
    {
        self.host_exists = false;
        self.host_ready = false;
        self.host_ready_at = None;
        self.host_visible = false;
        self.attached = false;
        self.parent_hwnd = None;
        self.host_hwnd = None;
        self.last_rect = RectDebug::zero();
        self.last_video_event = None;
        self.last_error = None;
    }

    /// Records a playback notification of the embedded content, already
    /// rendered as `text`.  Text that mentions an error becomes the last error.
    pub fn record_playback_event(&mut self, text: String)
        requires
            old(self).wf(),
        ensures
            final(self).last_video_event == Some(text),
            contains_text(text@, "error"@) ==> final(self).last_error == Some(
                WallpaperError::Playback(text),
            ),
            !contains_text(text@, "error"@) ==> final(self).last_error == old(self).last_error,
            *final(self) == (MotionWallpaperState {
                last_video_event: final(self).last_video_event,
                last_error: final(self).last_error,
                ..*old(self)
            }),
            final(self).wf(),
    {
        let is_error = crate::text::contains(text.as_str(), "error");
        if is_error {
            self.last_error = Some(WallpaperError::Playback(text.clone()));
        }
        self.last_video_event = Some(text);
    }
}

/// The text of a playback notification: its kind, then ` code=<code>` and
/// ` msg=<message>` for the parts that are present.
pub open spec fn playback_text(kind: Seq<char>, code: Option<i32>, message: Option<Seq<char>>) -> Seq<
    char,
> {
    kind + match code {
        Some(c) => " code="@ + decimal_text(c as int),
        None => Seq::empty(),
    } + match message {
        Some(m) => " msg="@ + m,
        None => Seq::empty(),
    }
}

pub fn playback_event_text(kind: &String, code: Option<i32>, message: Option<&String>) -> (r: String)
    ensures
        r@ == playback_text(
            kind@,
            code,
            match message {
                Some(m) => Some(m@),
                None => None,
            },
        ),
{
    let mut s = kind.clone();
    if let Some(c) = code {
        s.append(" code=");
        let d = decimal(c as i64);
        s.append(d.as_str());
    }
    if let Some(m) = message {
        s.append(" msg=");
        s.append(m.as_str());
    }
    assert(s@ =~= playback_text(
        kind@,
        code,
        match message {
            Some(m) => Some(m@),
            None => None,
        },
    ));
    s
}

impl Default for MotionWallpaperState {
    fn default() -> (r: MotionWallpaperState)
        ensures
            r == MotionWallpaperState::initial(),
    {
        MotionWallpaperState::new()
    }
}

} // verus!
