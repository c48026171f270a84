use motion_wallpaper::attach::{
    click_through_style, reparent_outcome, tool_window_style, WS_EX_APPWINDOW, WS_EX_LAYERED,
    WS_EX_TOOLWINDOW, WS_EX_TRANSPARENT,
};
use motion_wallpaper::commands::CommandKind;
use motion_wallpaper::error::WallpaperError;
use motion_wallpaper::state::playback_event_text;
use motion_wallpaper::{now_ms, MotionWallpaperRuntime, MotionWallpaperState, RectDebug};

#[test]
fn new_state_is_all_default() {
    let s = MotionWallpaperState::new();
    assert!(!s.host_exists && !s.host_ready && !s.attached && !s.creating_host);
    assert_eq!(s.last_rect, RectDebug { x: 0, y: 0, w: 0, h: 0 });
    assert_eq!(s.volume, 0);
    assert!(s.last_error.is_none());
}

#[test]
fn watcher_is_claimed_once() {
    let mut rt = MotionWallpaperRuntime::new();
    assert!(rt.claim_watcher());
    assert!(!rt.claim_watcher());
    assert!(!rt.claim_watcher());
}

#[test]
fn reparent_with_null_previous_parent_and_no_error_succeeds() {
    assert_eq!(reparent_outcome(0, 0), Ok(()));
    assert_eq!(reparent_outcome(1234, 5), Ok(()));
    assert_eq!(reparent_outcome(0, 1400), Err(WallpaperError::ReparentFailed { code: 1400 }));
    assert_eq!(
        WallpaperError::ReparentFailed { code: 1400 }.message(),
        "reparent failed, error 1400"
    );
}

#[test]
fn tool_window_style_bits() {
    let r = tool_window_style(WS_EX_APPWINDOW | 0x1);
    assert_eq!(r, WS_EX_TOOLWINDOW | 0x1);
    assert_eq!(tool_window_style(r), r);
}

#[test]
fn click_through_sets_and_clears_bits() {
    let on = click_through_style(WS_EX_APPWINDOW, true);
    assert_eq!(on, WS_EX_TOOLWINDOW | WS_EX_TRANSPARENT | WS_EX_LAYERED);
    let off = click_through_style(on, false);
    assert_eq!(off, WS_EX_TOOLWINDOW | WS_EX_LAYERED);
    assert_eq!(click_through_style(off, false), off);
    assert_eq!(click_through_style(on, true), on);
    assert_eq!(click_through_style(0, false), WS_EX_TOOLWINDOW);
}

#[test]
fn playback_error_becomes_last_error() {
    let mut s = MotionWallpaperState::new();
    let text = playback_event_text(&"error".to_string(), Some(4), Some(&"decode failed".to_string()));
    assert_eq!(text, "error code=4 msg=decode failed");
    s.record_playback_event(text.clone());
    assert_eq!(s.last_video_event, Some(text.clone()));
    assert_eq!(s.last_error, Some(WallpaperError::Playback(text.clone())));
    assert_eq!(s.status(false).last_error, Some(text));
}

#[test]
fn playback_notice_without_error_keeps_last_error() {
    let mut s = MotionWallpaperState::new();
    s.record_error(WallpaperError::HostNotReady);
    let text = playback_event_text(&"playing".to_string(), None, None);
    assert_eq!(text, "playing");
    s.record_playback_event(text);
    assert_eq!(s.last_error, Some(WallpaperError::HostNotReady));
    let t = playback_event_text(&"stalled".to_string(), Some(-3), None);
    assert_eq!(t, "stalled code=-3");
}

#[test]
fn error_messages() {
    assert_eq!(WallpaperError::InvalidHandle.message(), "host window handle is not a live window");
    assert_eq!(WallpaperError::ShellRootNotFound.message(), "shell root not found");
    assert_eq!(WallpaperError::WorkerWindowNotFound.message(), "worker window not found");
    assert_eq!(WallpaperError::PositionFailed.message(), "positioning the host window failed");
    assert_eq!(WallpaperError::HostNotReady.message(), "host did not report ready in time");
    assert_eq!(WallpaperError::StateLockFailed.message(), "state lock failed");
    assert_eq!(
        WallpaperError::HostHandleUnavailable("gone".to_string()).message(),
        "host window handle unavailable: gone"
    );
    assert_eq!(
        WallpaperError::SendFailed { command: CommandKind::SetVolume, detail: "d".to_string() }.message(),
        "sending set_volume failed: d"
    );
    assert_eq!(CommandKind::Pause.event_name(), "mw:pause");
}

#[test]
fn debug_state_sees_the_host_window_label() {
    let s = MotionWallpaperState::new();
    let d = s.debug_state(vec!["main".to_string(), "wallpaper_host".to_string()]);
    assert!(d.host_exists);
    assert_eq!(d.windows.len(), 2);
    let d = s.debug_state(vec!["main".to_string()]);
    assert!(!d.host_exists);
}

#[test]
fn status_reports_host_window_presence() {
    let s = MotionWallpaperState::new();
    assert!(s.status(true).host_exists);
    assert!(!s.status(false).host_exists);
}

#[test]
fn clock_is_not_negative() {
    assert!(now_ms() > 0);
}
