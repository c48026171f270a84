use vstd::prelude::*;

use crate::commands::CommandKind;
use crate::text::{decimal, decimal_text};

verus! {

/// Why an operation on the wallpaper host failed.
#[derive(Debug, PartialEq, Eq)]
pub enum WallpaperError {
    /// A stored window handle no longer names a live window.
    InvalidHandle,
    /// The desktop shell's root window is missing.
    ShellRootNotFound,
    /// The worker window behind the desktop icons could not be found.
    WorkerWindowNotFound,
    /// Reparenting the host reported the platform error `code`.
    ReparentFailed { code: u32 },
    /// Positioning the host surface failed.
    PositionFailed,
    /// The host surface could not be built.
    HostCreateFailed(String),
    /// The host surface exists but its platform handle could not be obtained.
    HostHandleUnavailable(String),
    /// The embedded content did not report ready in time.
    HostNotReady,
    /// A command could not be delivered to the embedded content.
    SendFailed { command: CommandKind, detail: String },
    /// The shared state could not be locked.
    StateLockFailed,
    /// The embedded content reported a playback error.
    Playback(String),
}

impl WallpaperError {
    /// A copy of `self`.
    pub fn duplicate(&self) -> (r: WallpaperError)
        ensures
            r == *self,
    {
        match self {
            WallpaperError::InvalidHandle => WallpaperError::InvalidHandle,
            WallpaperError::ShellRootNotFound => WallpaperError::ShellRootNotFound,
            WallpaperError::WorkerWindowNotFound => WallpaperError::WorkerWindowNotFound,
            WallpaperError::ReparentFailed { code } => WallpaperError::ReparentFailed { code: *code },
            WallpaperError::PositionFailed => WallpaperError::PositionFailed,
            WallpaperError::HostCreateFailed(d) => WallpaperError::HostCreateFailed(d.clone()),
            WallpaperError::HostHandleUnavailable(d) => WallpaperError::HostHandleUnavailable(
                d.clone(),
            ),
            WallpaperError::HostNotReady => WallpaperError::HostNotReady,
            WallpaperError::SendFailed { command, detail } => WallpaperError::SendFailed {
                command: *command,
                detail: detail.clone(),
            },
            WallpaperError::StateLockFailed => WallpaperError::StateLockFailed,
            WallpaperError::Playback(d) => WallpaperError::Playback(d.clone()),
        }
    }

    /// The description reported to callers and kept as the last error.
    pub open spec fn text(&self) -> Seq<char> {
        match self {
            WallpaperError::InvalidHandle => "host window handle is not a live window"@,
            WallpaperError::ShellRootNotFound => "shell root not found"@,
            WallpaperError::WorkerWindowNotFound => "worker window not found"@,
            WallpaperError::ReparentFailed { code } => "reparent failed, error "@ + decimal_text(
                *code as int,
            ),
            WallpaperError::PositionFailed => "positioning the host window failed"@,
            WallpaperError::HostCreateFailed(d) => "create host failed: "@ + d@,
            WallpaperError::HostHandleUnavailable(d) => "host window handle unavailable: "@ + d@,
            WallpaperError::HostNotReady => "host did not report ready in time"@,
            WallpaperError::SendFailed { command, detail } => "sending "@ + command.name() + " failed: "@
                + detail@,
            WallpaperError::StateLockFailed => "state lock failed"@,
            WallpaperError::Playback(d) => d@,
        }
    }

    pub fn message(&self) -> (r: String)
        ensures
            r@ == self.text(),
    {
        match self {
            WallpaperError::InvalidHandle => String::from_str(
                "host window handle is not a live window",
            ),
            WallpaperError::ShellRootNotFound => String::from_str("shell root not found"),
            WallpaperError::WorkerWindowNotFound => String::from_str("worker window not found"),
            WallpaperError::ReparentFailed { code } => {
                let mut s = String::from_str("reparent failed, error ");
                let d = decimal(*code as i64);
                s.append(d.as_str());
                s
            },
            WallpaperError::PositionFailed => String::from_str(
                "positioning the host window failed",
            ),
            WallpaperError::HostCreateFailed(d) => {
                let mut s = String::from_str("create host failed: ");
                s.append(d.as_str());
                s
            },
            WallpaperError::HostHandleUnavailable(d) => {
                let mut s = String::from_str("host window handle unavailable: ");
                s.append(d.as_str());
                s
            },
            WallpaperError::HostNotReady => String::from_str("host did not report ready in time"),
            WallpaperError::SendFailed { command, detail } => {
                let mut s = String::from_str("sending ");
                s.append(command.name_str());
                s.append(" failed: ");
                s.append(detail.as_str());
                s
            },
            WallpaperError::StateLockFailed => String::from_str("state lock failed"),
            WallpaperError::Playback(d) => d.clone(),
        }
    }
}

} // verus!
