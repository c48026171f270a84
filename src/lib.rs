//! Decision logic for hosting a renderer surface behind the desktop icon
//! layer: geometry, shell-window location, attachment bookkeeping, the host
//! lifecycle and the watchdog that repairs a broken attachment.  The platform
//! and the host process perform the actions these decisions ask for.

pub mod attach;
pub mod clock;
pub mod commands;
pub mod error;
pub mod geometry;
pub mod lifecycle;
pub mod monitors;
pub mod shell;
pub mod state;
pub mod status;
pub mod text;
pub mod watchdog;

pub use clock::now_ms;
pub use geometry::{compute_aspect_rect, RectDebug};
pub use monitors::MonitorDesc;
pub use state::MotionWallpaperState;
pub use status::{MotionWallpaperDebugState, MotionWallpaperRuntime, MotionWallpaperStatus};
