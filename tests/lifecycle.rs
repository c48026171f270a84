use motion_wallpaper::commands::{volume_command, CommandKind, HostCommand};
use motion_wallpaper::error::WallpaperError;
use motion_wallpaper::geometry::Aspect;
use motion_wallpaper::lifecycle::{
    ApplyAction, ApplyEvent, ApplyFlow, ApplyRequest, ApplyStage, CreationWait, HostClaim,
    ReadyPoll, READY_POLL_MS, READY_TIMEOUT_MS,
};
use motion_wallpaper::{MotionWallpaperState, RectDebug};

fn request(volume: i64) -> ApplyRequest {
    ApplyRequest {
        path: "C:\\videos\\rain.mp4".to_string(),
        volume,
        click_through: true,
        aspect: Aspect::Fill,
        monitor: None,
    }
}

fn built_state() -> MotionWallpaperState {
    let mut s = MotionWallpaperState::new();
    assert_eq!(s.claim_host(false), HostClaim::Create);
    s.finish_host_creation(Ok(()));
    s
}

#[test]
fn concurrent_starts_build_once() {
    let mut s = MotionWallpaperState::new();
    assert_eq!(s.claim_host(false), HostClaim::Create);
    assert!(s.creating_host);
    assert_eq!(s.claim_host(false), HostClaim::AwaitOther);
    assert_eq!(s.creation_wait(false, 0), CreationWait::Sleep);
    assert_eq!(s.creation_wait(false, 29), CreationWait::GiveUp);
    s.finish_host_creation(Ok(()));
    assert!(s.host_exists);
    assert!(!s.creating_host);
    assert_eq!(s.creation_wait(true, 3), CreationWait::Appeared);
    assert_eq!(s.claim_host(true), HostClaim::Present);
}

#[test]
fn failed_build_releases_the_guard() {
    let mut s = MotionWallpaperState::new();
    assert_eq!(s.claim_host(false), HostClaim::Create);
    s.finish_host_creation(Err(WallpaperError::HostCreateFailed("no webview".to_string())));
    assert!(!s.creating_host);
    assert!(!s.host_exists);
    assert_eq!(s.last_error, Some(WallpaperError::HostCreateFailed("no webview".to_string())));
    assert_eq!(s.creation_wait(false, 0), CreationWait::ClaimAgain);
    assert_eq!(s.claim_host(false), HostClaim::Create);
}

#[test]
fn readiness_wait_times_out() {
    let mut s = built_state();
    assert_eq!(s.ready_poll(0), ReadyPoll::Wait);
    assert_eq!(s.ready_poll(READY_TIMEOUT_MS - 1), ReadyPoll::Wait);
    assert_eq!(s.ready_poll(READY_TIMEOUT_MS), ReadyPoll::TimedOut);
    s.host_ready_signal(42);
    assert_eq!(s.ready_poll(READY_TIMEOUT_MS), ReadyPoll::Ready);
    assert_eq!(s.host_ready_at, Some(42));
}

fn drive_to_present(s: &mut MotionWallpaperState, volume: i64) -> (ApplyFlow, Vec<HostCommand>) {
    let (mut flow, action) = ApplyFlow::start(request(volume), s);
    assert!(matches!(action, ApplyAction::EnsureHost));
    let mut sent = Vec::new();
    let a = flow.advance(s, ApplyEvent::HostEnsured(Ok(())));
    assert!(matches!(a, ApplyAction::PollReady { after_ms: 0 }));
    let a = flow.advance(s, ApplyEvent::ReadyChecked { waited_ms: 0 });
    assert!(matches!(a, ApplyAction::ResolveHost));
    let a = flow.advance(s, ApplyEvent::HostResolved(Ok(77)));
    match a {
        ApplyAction::Send(c) => sent.push(c),
        other => panic!("unexpected {:?}", other),
    }
    let a = flow.advance(s, ApplyEvent::Sent(Ok(())));
    match a {
        ApplyAction::Send(c) => sent.push(c),
        other => panic!("unexpected {:?}", other),
    }
    let a = flow.advance(s, ApplyEvent::Sent(Ok(())));
    assert!(matches!(a, ApplyAction::Attach { host: 77 }));
    let rect = RectDebug { x: 0, y: 0, w: 1920, h: 1080 };
    let a = flow.advance(s, ApplyEvent::Attached { outcome: Ok((500, rect)), now: 9000 });
    assert!(matches!(a, ApplyAction::Present { host: 77 }));
    (flow, sent)
}

#[test]
fn successful_apply_reports_attached_without_error() {
    let mut s = built_state();
    s.host_ready_signal(1);
    s.last_error = Some(WallpaperError::InvalidHandle);
    let (mut flow, sent) = drive_to_present(&mut s, 40);
    assert_eq!(sent[0], HostCommand::SetVideo { path: "C:\\videos\\rain.mp4".to_string() });
    assert_eq!(sent[1], HostCommand::SetVolume { percent: 40 });
    let shown = RectDebug { x: 656, y: 0, w: 608, h: 1080 };
    let a = flow.advance(&mut s, ApplyEvent::Presented { rect: shown });
    assert!(matches!(a, ApplyAction::Finish(Ok(()))));
    assert_eq!(flow.stage, ApplyStage::Done);
    let st = s.status(false);
    assert!(st.attached);
    assert_eq!(st.parent_hwnd, Some(500));
    assert_eq!(st.host_hwnd, Some(77));
    assert_eq!(st.last_error, None);
    assert_eq!(st.rect, shown);
    assert!(st.applied);
    assert!(st.click_through);
    assert_eq!(st.video_path, Some("C:\\videos\\rain.mp4".to_string()));
    assert_eq!(s.last_attach_at, 9000);
}

#[test]
fn out_of_range_volume_is_clamped_in_command_and_state() {
    let mut s = built_state();
    s.host_ready_signal(1);
    let (mut flow, sent) = drive_to_present(&mut s, 150);
    assert_eq!(sent[1], HostCommand::SetVolume { percent: 100 });
    flow.advance(&mut s, ApplyEvent::Presented { rect: RectDebug { x: 0, y: 0, w: 1, h: 1 } });
    assert_eq!(s.volume, 100);
    assert_eq!(volume_command(-5), HostCommand::SetVolume { percent: 0 });
    assert_eq!(volume_command(55), HostCommand::SetVolume { percent: 55 });
}

#[test]
fn readiness_timeout_fails_the_apply() {
    let mut s = built_state();
    let (mut flow, _) = ApplyFlow::start(request(50), &mut s);
    flow.advance(&mut s, ApplyEvent::HostEnsured(Ok(())));
    let a = flow.advance(&mut s, ApplyEvent::ReadyChecked { waited_ms: 200 });
    assert!(matches!(a, ApplyAction::PollReady { after_ms: READY_POLL_MS }));
    let a = flow.advance(&mut s, ApplyEvent::ReadyChecked { waited_ms: READY_TIMEOUT_MS });
    assert!(matches!(a, ApplyAction::Finish(Err(WallpaperError::HostNotReady))));
    let st = s.status(true);
    assert!(!st.attached);
    assert!(st.host_exists);
    assert_eq!(st.last_error, Some("host did not report ready in time".to_string()));
}

#[test]
fn failed_send_ends_the_apply() {
    let mut s = built_state();
    s.host_ready_signal(1);
    let (mut flow, _) = ApplyFlow::start(request(50), &mut s);
    flow.advance(&mut s, ApplyEvent::HostEnsured(Ok(())));
    flow.advance(&mut s, ApplyEvent::ReadyChecked { waited_ms: 0 });
    flow.advance(&mut s, ApplyEvent::HostResolved(Ok(3)));
    let e = WallpaperError::SendFailed { command: CommandKind::SetVideo, detail: "closed".to_string() };
    let a = flow.advance(&mut s, ApplyEvent::Sent(Err(e.duplicate())));
    assert!(matches!(a, ApplyAction::Finish(Err(_))));
    assert_eq!(s.last_error, Some(e));
    assert_eq!(s.status(false).last_error, Some("sending set_video failed: closed".to_string()));
    assert!(!s.attached);
}

#[test]
fn failed_attach_ends_the_apply() {
    let mut s = built_state();
    s.host_ready_signal(1);
    let (mut flow, _) = ApplyFlow::start(request(50), &mut s);
    for ev in [
        ApplyEvent::HostEnsured(Ok(())),
        ApplyEvent::ReadyChecked { waited_ms: 0 },
        ApplyEvent::HostResolved(Ok(3)),
        ApplyEvent::Sent(Ok(())),
        ApplyEvent::Sent(Ok(())),
    ] {
        assert!(flow.accepts(&ev));
        flow.advance(&mut s, ev);
    }
    let ev = ApplyEvent::Attached { outcome: Err(WallpaperError::WorkerWindowNotFound), now: 1 };
    assert!(!flow.accepts(&ApplyEvent::Sent(Ok(()))));
    let a = flow.advance(&mut s, ev);
    assert!(matches!(a, ApplyAction::Finish(Err(WallpaperError::WorkerWindowNotFound))));
    assert_eq!(s.status(false).last_error, Some("worker window not found".to_string()));
}

#[test]
fn host_creation_failure_ends_the_apply() {
    let mut s = MotionWallpaperState::new();
    let (mut flow, _) = ApplyFlow::start(request(50), &mut s);
    let a = flow.advance(&mut s, ApplyEvent::HostEnsured(Err(WallpaperError::HostCreateFailed("x".to_string()))));
    assert!(matches!(a, ApplyAction::Finish(Err(WallpaperError::HostCreateFailed(_)))));
    assert_eq!(s.status(false).last_error, Some("create host failed: x".to_string()));
}

#[test]
fn reload_forgets_readiness_and_attachment() {
    let mut s = built_state();
    s.host_ready_signal(1);
    s.record_attach(7, 8, RectDebug { x: 0, y: 0, w: 10, h: 10 }, 100);
    s.video_path = Some("v.mp4".to_string());
    s.reset_for_reload();
    assert!(!s.host_ready && s.host_ready_at.is_none());
    assert!(!s.attached && s.parent_hwnd.is_none() && s.host_hwnd.is_none());
    assert!(!s.host_exists);
    assert_eq!(s.video_path, Some("v.mp4".to_string()));
}

#[test]
fn stop_hides_without_detaching() {
    let mut s = built_state();
    s.host_ready_signal(1);
    s.record_attach(7, 8, RectDebug { x: 0, y: 0, w: 10, h: 10 }, 100);
    s.record_stopped();
    assert!(s.attached);
    assert!(!s.applied && !s.host_visible);
}
