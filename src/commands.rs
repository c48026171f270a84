use vstd::prelude::*;

verus! {

/// The named messages of the event channel to the embedded content.
#[derive(Clone, Copy, Debug, PartialEq, Eq, Structural)]
pub enum CommandKind {
    SetVideo,
    SetVolume,
    Play,
    Pause,
    Stop,
}

impl CommandKind {
    pub open spec fn name(&self) -> Seq<char> {
        match self {
            CommandKind::SetVideo => "set_video"@,
            CommandKind::SetVolume => "set_volume"@,
            CommandKind::Play => "play"@,
            CommandKind::Pause => "pause"@,
            CommandKind::Stop => "stop"@,
        }
    }

    pub fn name_str(&self) -> (r: &'static str)
        ensures
            r@ == self.name(),
    {
        match self {
            CommandKind::SetVideo => "set_video",
            CommandKind::SetVolume => "set_volume",
            CommandKind::Play => "play",
            CommandKind::Pause => "pause",
            CommandKind::Stop => "stop",
        }
    }

    /// The event under which the command travels to the embedded content.
    pub open spec fn event(&self) -> Seq<char> {
        match self {
            CommandKind::SetVideo => "mw:set_video"@,
            CommandKind::SetVolume => "mw:set_volume"@,
            CommandKind::Play => "mw:play"@,
            CommandKind::Pause => "mw:pause"@,
            CommandKind::Stop => "mw:stop"@,
        }
    }

    pub fn event_name(&self) -> (r: &'static str)
        ensures
            r@ == self.event(),
    {
        match self {
            CommandKind::SetVideo => "mw:set_video",
            CommandKind::SetVolume => "mw:set_volume",
            CommandKind::Play => "mw:play",
            CommandKind::Pause => "mw:pause",
            CommandKind::Stop => "mw:stop",
        }
    }
}

/// A command for the embedded content, with its payload.
#[derive(Debug, PartialEq, Eq)]
pub enum HostCommand {
    SetVideo { path: String },
    /// Volume in percent, `0..=100`.
    SetVolume { percent: u8 },
    Play,
    Pause,
    Stop,
}

impl HostCommand {
    pub open spec fn kind_spec(&self) -> CommandKind {
        match self {
            HostCommand::SetVideo { .. } => CommandKind::SetVideo,
            HostCommand::SetVolume { .. } => CommandKind::SetVolume,
            HostCommand::Play => CommandKind::Play,
            HostCommand::Pause => CommandKind::Pause,
            HostCommand::Stop => CommandKind::Stop,
        }
    }

    pub fn kind(&self) -> (r: CommandKind)
        ensures
            r == self.kind_spec(),
    {
        match self {
            HostCommand::SetVideo { .. } => CommandKind::SetVideo,
            HostCommand::SetVolume { .. } => CommandKind::SetVolume,
            HostCommand::Play => CommandKind::Play,
            HostCommand::Pause => CommandKind::Pause,
            HostCommand::Stop => CommandKind::Stop,
        }
    }
}

/// A requested volume in percent, clamped to `0..=100`.
pub open spec fn clamp_percent(v: int) -> int {
    if v < 0 {
        0
    } else if v > 100 {
        100
    } else {
        v
    }
}

pub fn volume_percent(requested: i64) -> (r: u8)
    ensures
        r == clamp_percent(requested as int),
{
    if requested < 0 {
        0
    } else if requested > 100 {
        100
    } else {
        requested as u8
    }
}

/// The volume command for a requested volume, clamped into range.
pub fn volume_command(requested: i64) -> (r: HostCommand)
    ensures
        r == (HostCommand::SetVolume { percent: clamp_percent(requested as int) as u8 }),
{
    HostCommand::SetVolume { percent: volume_percent(requested) }
}

} // verus!
