use vstd::prelude::*;

use crate::commands::{clamp_percent, volume_command, HostCommand};
use crate::error::WallpaperError;
use crate::geometry::{Aspect, RectDebug};
use crate::state::MotionWallpaperState;

verus! {

/// Label of the host surface among the host process's windows.
pub const HOST_LABEL: &'static str = "wallpaper_host";

/// Route of the embedded content that renders the wallpaper.
pub const HOST_ROUTE: &'static str = "#/wallpaper-host";

/// Pause between two looks at a host build that another caller runs.
pub const CREATION_POLL_MS: u64 = 100;

/// How many looks a caller takes before giving up on another caller's build.
pub const CREATION_POLL_ATTEMPTS: u32 = 30;

/// Pause between two looks at the readiness of the embedded content.
pub const READY_POLL_MS: u64 = 100;

/// How long an apply waits for the embedded content to report ready.
pub const READY_TIMEOUT_MS: u64 = 15000;

/// What a caller that needs the host surface does next.
#[derive(Clone, Copy, Debug, PartialEq, Eq, Structural)]
pub enum HostClaim {
    /// The surface exists: use it.
    Present,
    /// Another caller is building it: wait for that build.
    AwaitOther,
    /// This caller builds it, and must report the outcome.
    Create,
}

/// What a caller waiting for another caller's build does next.
#[derive(Clone, Copy, Debug, PartialEq, Eq, Structural)]
pub enum CreationWait {
    /// The surface appeared.
    Appeared,
    /// The other build ended without a surface: claim again.
    ClaimAgain,
    /// Look again after `CREATION_POLL_MS`.
    Sleep,
    /// The other build takes too long.
    GiveUp,
}

/// The readiness of the embedded content, seen by a waiting caller.
#[derive(Clone, Copy, Debug, PartialEq, Eq, Structural)]
pub enum ReadyPoll {
    Ready,
    Wait,
    TimedOut,
}

impl MotionWallpaperState {
    pub open spec fn claim_spec(self, host_present: bool) -> (MotionWallpaperState, HostClaim) {
        if host_present {
            (self, HostClaim::Present)
        } else if self.creating_host {
            (self, HostClaim::AwaitOther)
        } else {
            (MotionWallpaperState { creating_host: true, ..self }, HostClaim::Create)
        }
    }

    /// Decides who builds the host surface.  Only one build is in flight at a
    /// time: a caller that finds one running waits for it instead.
    pub fn claim_host(&mut self, host_present: bool) -> (r: HostClaim)
        requires
            old(self).wf(),
        ensures
            (*final(self), r) == old(self).claim_spec(host_present),
            final(self).wf(),
    {
        if host_present {
            HostClaim::Present
        } else if self.creating_host {
            HostClaim::AwaitOther
        } else {
            self.creating_host = true;
            HostClaim::Create
        }
    }

    pub open spec fn creation_wait_spec(self, host_present: bool, attempt: u32) -> CreationWait {
        if host_present {
            CreationWait::Appeared
        } else if !self.creating_host {
            CreationWait::ClaimAgain
        } else if attempt as int + 1 >= CREATION_POLL_ATTEMPTS {
            CreationWait::GiveUp
        } else {
            CreationWait::Sleep
        }
    }

    /// The next step of a caller that waits for another caller's build, at
    /// its look number `attempt` (from 0).
    pub fn creation_wait(&self, host_present: bool, attempt: u32) -> (r: CreationWait)
        ensures
            r == self.creation_wait_spec(host_present, attempt),
    {
        if host_present {
            CreationWait::Appeared
        } else if !self.creating_host {
            CreationWait::ClaimAgain
        } else if attempt >= CREATION_POLL_ATTEMPTS - 1 {
            CreationWait::GiveUp
        } else {
            CreationWait::Sleep
        }
    }

    pub open spec fn creation_finished(self, built: Result<(), WallpaperError>) -> MotionWallpaperState {
        match built {
            Ok(()) => MotionWallpaperState {
                creating_host: false,
                host_exists: true,
                host_ready: false,
                host_ready_at: None,
                host_visible: false,
                attached: false,
                parent_hwnd: None,
                host_hwnd: None,
                last_rect: RectDebug::empty_at_origin(),
                ..self
            },
            Err(e) => MotionWallpaperState { creating_host: false, last_error: Some(e), ..self },
        }
    }

    /// The build this caller claimed has ended.  The guard is released on
    /// every outcome; a new surface starts unready and unattached.
    pub fn finish_host_creation(&mut self, built: Result<(), WallpaperError>)
        requires
            old(self).wf(),
        ensures
            *final(self) == old(self).creation_finished(built),
            final(self).wf(),
    {
        self.creating_host = false;
        match built {
            Ok(()) => {
                self.host_exists = true;
                self.host_ready = false;
                self.host_ready_at = None;
                self.host_visible = false;
                self.attached = false;
                self.parent_hwnd = None;
                self.host_hwnd = None;
                self.last_rect = RectDebug::zero();
            },
            Err(e) => {
                self.last_error = Some(e);
            },
        }
    }

    pub open spec fn ready_poll_spec(self, waited_ms: u64) -> ReadyPoll {
        if self.host_ready {
            ReadyPoll::Ready
        } else if waited_ms >= READY_TIMEOUT_MS {
            ReadyPoll::TimedOut
        } else {
            ReadyPoll::Wait
        }
    }

    /// Readiness after waiting `waited_ms` for it.
    pub fn ready_poll(&self, waited_ms: u64) -> (r: ReadyPoll)
        ensures
            r == self.ready_poll_spec(waited_ms),
    {
        if self.host_ready {
            ReadyPoll::Ready
        } else if waited_ms >= READY_TIMEOUT_MS {
            ReadyPoll::TimedOut
        } else {
            ReadyPoll::Wait
        }
    }
}

/// Two callers that need the host surface while none exists and no build is
/// in flight cause exactly one build: the first builds, the second waits and
/// never claims while that build runs, and once it succeeded both see the
/// surface and no further build is started.
pub proof fn lemma_single_creation(s: MotionWallpaperState, attempt: u32)
    requires
        s.wf(),
        !s.creating_host,
    ensures
        ({
            let (s1, first) = s.claim_spec(false);
            let (s2, second) = s1.claim_spec(false);
            let done = s2.creation_finished(Ok(()));
            &&& first == HostClaim::Create
            &&& second == HostClaim::AwaitOther
            &&& s2.creation_wait_spec(false, attempt) != CreationWait::ClaimAgain
            &&& done.host_exists
            &&& !done.creating_host
            &&& done.creation_wait_spec(true, attempt) == CreationWait::Appeared
            &&& done.claim_spec(true).1 == HostClaim::Present
        }),
{
}

/// What an apply asks for: the media source, the volume in percent (clamped
/// to `0..=100`), the interaction mode, the aspect mode and the display.
#[derive(Debug)]
pub struct ApplyRequest {
    pub path: String,
    pub volume: i64,
    pub click_through: bool,
    pub aspect: Aspect,
    pub monitor: Option<String>,
}

/// Where an apply stands.
#[derive(Clone, Copy, Debug, PartialEq, Eq, Structural)]
pub enum ApplyStage {
    EnsureHost,
    AwaitReady,
    ResolveHost,
    SendVideo,
    SendVolume,
    Attach,
    Present,
    Done,
}

/// The outside work an apply asks its driver to do next.
#[derive(Debug)]
pub enum ApplyAction {
    /// Make sure the host surface exists (see `claim_host`); answer `HostEnsured`.
    EnsureHost,
    /// Look at readiness after waiting `after_ms`; answer `ReadyChecked`.
    PollReady { after_ms: u64 },
    /// Obtain the host surface's platform handle; answer `HostResolved`.
    ResolveHost,
    /// Deliver a command to the embedded content; answer `Sent`.
    Send(HostCommand),
    /// Attach the host under the shell's worker window; answer `Attached`.
    Attach { host: isize },
    /// Style, place and show the host as the request says; answer `Presented`.
    Present { host: isize },
    /// The apply is over, with this result.
    Finish(Result<(), WallpaperError>),
}

/// The driver's answer to an `ApplyAction`.
#[derive(Debug)]
pub enum ApplyEvent {
    HostEnsured(Result<(), WallpaperError>),
    ReadyChecked { waited_ms: u64 },
    HostResolved(Result<isize, WallpaperError>),
    Sent(Result<(), WallpaperError>),
    /// The attachment's outcome (worker window and rectangle), at time `now`.
    Attached { outcome: Result<(isize, RectDebug), WallpaperError>, now: i64 },
    /// The rectangle the host now covers.
    Presented { rect: RectDebug },
}

/// The decisions of one apply: ensure the host, wait for ready, send the
/// media and volume commands, attach, then present and record.  The driver
/// performs each action and hands back its outcome; any failure ends the
/// apply and is recorded as the last error.
#[derive(Debug)]
pub struct ApplyFlow {
    pub request: ApplyRequest,
    pub stage: ApplyStage,
    pub host: isize,
}

pub open spec fn event_fits(stage: ApplyStage, ev: ApplyEvent) -> bool {
    match (stage, ev) {
        (ApplyStage::EnsureHost, ApplyEvent::HostEnsured(_)) => true,
        (ApplyStage::AwaitReady, ApplyEvent::ReadyChecked { .. }) => true,
        (ApplyStage::ResolveHost, ApplyEvent::HostResolved(_)) => true,
        (ApplyStage::SendVideo, ApplyEvent::Sent(_)) => true,
        (ApplyStage::SendVolume, ApplyEvent::Sent(_)) => true,
        (ApplyStage::Attach, ApplyEvent::Attached { .. }) => true,
        (ApplyStage::Present, ApplyEvent::Presented { .. }) => true,
        _ => false,
    }
}

/// An apply that ends with error `e`.
pub open spec fn failed(
    flow: ApplyFlow,
    s: MotionWallpaperState,
    e: WallpaperError,
) -> (ApplyFlow, MotionWallpaperState, ApplyAction) {
    (
        ApplyFlow { stage: ApplyStage::Done, ..flow },
        s.with_error(e),
        ApplyAction::Finish(Err(e)),
    )
}

/// One step of an apply: the flow, the shared state and the next action after
/// event `ev`.
pub open spec fn apply_step(flow: ApplyFlow, s: MotionWallpaperState, ev: ApplyEvent) -> (
    ApplyFlow,
    MotionWallpaperState,
    ApplyAction,
) {
    let req = flow.request;
    match ev {
        ApplyEvent::HostEnsured(Err(e)) => failed(flow, s, e),
        ApplyEvent::HostEnsured(Ok(())) => (
            ApplyFlow { stage: ApplyStage::AwaitReady, ..flow },
            s,
            ApplyAction::PollReady { after_ms: 0 },
        ),
        ApplyEvent::ReadyChecked { waited_ms } => match s.ready_poll_spec(waited_ms) {
            ReadyPoll::Ready => (
                ApplyFlow { stage: ApplyStage::ResolveHost, ..flow },
                s,
                ApplyAction::ResolveHost,
            ),
            ReadyPoll::Wait => (flow, s, ApplyAction::PollReady { after_ms: READY_POLL_MS }),
            ReadyPoll::TimedOut => failed(flow, s, WallpaperError::HostNotReady),
        },
        ApplyEvent::HostResolved(Err(e)) => failed(flow, s, e),
        ApplyEvent::HostResolved(Ok(h)) => (
            ApplyFlow { stage: ApplyStage::SendVideo, host: h, ..flow },
            s,
            ApplyAction::Send(HostCommand::SetVideo { path: req.path }),
        ),
        ApplyEvent::Sent(Err(e)) => failed(flow, s, e),
        ApplyEvent::Sent(Ok(())) => if flow.stage == ApplyStage::SendVideo {
            (
                ApplyFlow { stage: ApplyStage::SendVolume, ..flow },
                s,
                ApplyAction::Send(
                    HostCommand::SetVolume { percent: clamp_percent(req.volume as int) as u8 },
                ),
            )
        } else {
            (
                ApplyFlow { stage: ApplyStage::Attach, ..flow },
                s,
                ApplyAction::Attach { host: flow.host },
            )
        },
        ApplyEvent::Attached { outcome: Err(e), .. } => failed(flow, s, e),
        ApplyEvent::Attached { outcome: Ok((parent, rect)), now } => if s.host_ready {
            (
                ApplyFlow { stage: ApplyStage::Present, ..flow },
                s.attach_recorded(flow.host, parent, rect, now),
                ApplyAction::Present { host: flow.host },
            )
        } else {
            failed(flow, s, WallpaperError::HostNotReady)
        },
        ApplyEvent::Presented { rect } => (
            ApplyFlow { stage: ApplyStage::Done, ..flow },
            s.apply_recorded(req.path, req.volume, req.click_through, rect, flow.host),
            ApplyAction::Finish(Ok(())),
        ),
    }
}

impl ApplyFlow {
    /// Starts an apply: the previous error is cleared and the host surface is
    /// asked for.
    pub fn start(request: ApplyRequest, state: &mut MotionWallpaperState) -> (r: (
        ApplyFlow,
        ApplyAction,
    ))
        requires
            old(state).wf(),
        ensures
            r.0 == (ApplyFlow { request, stage: ApplyStage::EnsureHost, host: 0 }),
            r.1 == ApplyAction::EnsureHost,
            *final(state) == (MotionWallpaperState { last_error: None, ..*old(state) }),
            final(state).wf(),
    {
        state.begin_operation();
        (ApplyFlow { request, stage: ApplyStage::EnsureHost, host: 0 }, ApplyAction::EnsureHost)
    }

    /// `ev` answers the action this flow asked for last.
    pub fn accepts(&self, ev: &ApplyEvent) -> (r: bool)
        ensures
            r == event_fits(self.stage, *ev),
    {
        match (self.stage, ev) {
            (ApplyStage::EnsureHost, ApplyEvent::HostEnsured(_)) => true,
            (ApplyStage::AwaitReady, ApplyEvent::ReadyChecked { .. }) => true,
            (ApplyStage::ResolveHost, ApplyEvent::HostResolved(_)) => true,
            (ApplyStage::SendVideo, ApplyEvent::Sent(_)) => true,
            (ApplyStage::SendVolume, ApplyEvent::Sent(_)) => true,
            (ApplyStage::Attach, ApplyEvent::Attached { .. }) => true,
            (ApplyStage::Present, ApplyEvent::Presented { .. }) => true,
            _ => false,
        }
    }

    fn fail(&mut self, state: &mut MotionWallpaperState, e: WallpaperError) -> (r: ApplyAction)
        requires
            old(state).wf(),
        ensures
            (*final(self), *final(state), r) == failed(*old(self), *old(state), e),
            final(state).wf(),
    {
        self.stage = ApplyStage::Done;
        let kept = e.duplicate();
        state.record_error(kept);
        ApplyAction::Finish(Err(e))
    }

    /// Advances the apply by the driver's answer `ev`.
    pub fn advance(&mut self, state: &mut MotionWallpaperState, ev: ApplyEvent) -> (r: ApplyAction)
        requires
            old(state).wf(),
            event_fits(old(self).stage, ev),
        ensures
            (*final(self), *final(state), r) == apply_step(*old(self), *old(state), ev),
            final(state).wf(),
    {
        match ev {
            ApplyEvent::HostEnsured(Err(e)) => self.fail(state, e),
            ApplyEvent::HostEnsured(Ok(())) => {
                self.stage = ApplyStage::AwaitReady;
                ApplyAction::PollReady { after_ms: 0 }
            },
            ApplyEvent::ReadyChecked { waited_ms } => match state.ready_poll(waited_ms) {
                ReadyPoll::Ready => {
                    self.stage = ApplyStage::ResolveHost;
                    ApplyAction::ResolveHost
                },
                ReadyPoll::Wait => ApplyAction::PollReady { after_ms: READY_POLL_MS },
                ReadyPoll::TimedOut => self.fail(state, WallpaperError::HostNotReady),
            },
            ApplyEvent::HostResolved(Err(e)) => self.fail(state, e),
            ApplyEvent::HostResolved(Ok(h)) => {
                self.stage = ApplyStage::SendVideo;
                self.host = h;
                ApplyAction::Send(HostCommand::SetVideo { path: self.request.path.clone() })
            },
            ApplyEvent::Sent(Err(e)) => self.fail(state, e),
            ApplyEvent::Sent(Ok(())) => {
                if self.stage == ApplyStage::SendVideo {
                    self.stage = ApplyStage::SendVolume;
                    ApplyAction::Send(volume_command(self.request.volume))
                } else {
                    self.stage = ApplyStage::Attach;
                    ApplyAction::Attach { host: self.host }
                }
            },
            ApplyEvent::Attached { outcome: Err(e), .. } => self.fail(state, e),
            ApplyEvent::Attached { outcome: Ok((parent, rect)), now } => {
                if state.host_ready {
                    state.record_attach(self.host, parent, rect, now);
                    self.stage = ApplyStage::Present;
                    ApplyAction::Present { host: self.host }
                } else {
                    self.fail(state, WallpaperError::HostNotReady)
                }
            },
            ApplyEvent::Presented { rect } => {
                state.record_applied(
                    self.request.path.clone(),
                    self.request.volume,
                    self.request.click_through,
                    rect,
                    self.host,
                );
                self.stage = ApplyStage::Done;
                ApplyAction::Finish(Ok(()))
            },
        }
    }
}

} // verus!
