//! Playback over HTTP: commands, and what is reported.

use vstd::prelude::*;

use crate::api::parameters::{bad_request, not_found, ApiError};
use crate::playback::plex::RepeatMode;
use crate::text::same;

verus! {

/// The body of a command, as far as commands look at it.
pub struct CommandBody {
    pub position_ms: Option<u64>,
    /// Whether a volume is given as a number.
    pub has_volume: bool,
    pub persist: Option<bool>,
    pub muted: Option<bool>,
    pub enabled: Option<bool>,
    pub mode: Option<String>,
}

/// What a command tells the player.
#[derive(Clone, Copy, Debug, PartialEq, Eq, Structural)]
pub enum TransportCommand {
    Play,
    Pause,
    Stop,
    Next,
    Previous,
    ToggleAutoDj,
    Seek(u64),
    /// The volume of the body is set, and kept for later sessions or not.
    Volume { persist: bool },
    Muted(bool),
    Shuffle(bool),
    Repeat(RepeatMode),
}

/// A command that needs no body.
pub open spec fn is_plain(action: Seq<char>) -> bool {
    action == "play"@ || action == "pause"@ || action == "stop"@ || action == "next"@ || action
        == "previous"@
}

pub fn needs_body(action: &str) -> (result: bool)
    ensures
        result == !is_plain(action@),
{
    !(same(action, "play") || same(action, "pause") || same(action, "stop") || same(action, "next")
        || same(action, "previous"))
}

pub open spec fn repeat_named(mode: Seq<char>) -> Option<RepeatMode> {
    if mode == "off"@ {
        Some(RepeatMode::Off)
    } else if mode == "one"@ {
        Some(RepeatMode::One)
    } else if mode == "all"@ {
        Some(RepeatMode::All)
    } else {
        None
    }
}

/// What an action means, or how it is refused.
pub open spec fn command_of(action: Seq<char>, body: CommandBody) -> Result<
    TransportCommand,
    (u16, Seq<char>),
> {
    if action == "play"@ {
        Ok(TransportCommand::Play)
    } else if action == "pause"@ {
        Ok(TransportCommand::Pause)
    } else if action == "stop"@ {
        Ok(TransportCommand::Stop)
    } else if action == "next"@ {
        Ok(TransportCommand::Next)
    } else if action == "previous"@ {
        Ok(TransportCommand::Previous)
    } else if action == "auto-dj"@ {
        Ok(TransportCommand::ToggleAutoDj)
    } else if action == "seek"@ {
        match body.position_ms {
            Some(position) => Ok(TransportCommand::Seek(position)),
            None => Err((400, "position_ms must be a nonnegative integer"@)),
        }
    } else if action == "volume"@ {
        if body.has_volume {
            Ok(TransportCommand::Volume { persist: body.persist != Some(false) })
        } else {
            Err((400, "volume must be a number"@))
        }
    } else if action == "mute"@ {
        match body.muted {
            Some(muted) => Ok(TransportCommand::Muted(muted)),
            None => Err((400, "muted must be true or false"@)),
        }
    } else if action == "shuffle"@ {
        match body.enabled {
            Some(enabled) => Ok(TransportCommand::Shuffle(enabled)),
            None => Err((400, "enabled must be true or false"@)),
        }
    } else if action == "repeat"@ {
        match body.mode {
            Some(mode) => match repeat_named(mode@) {
                Some(mode) => Ok(TransportCommand::Repeat(mode)),
                None => Err((400, "Repeat mode must be off, one or all"@)),
            },
            None => Err((400, "Repeat mode must be off, one or all"@)),
        }
    } else {
        Err((404, "Route not found"@))
    }
}

pub fn playback_command(action: &str, body: &CommandBody) -> (result: Result<
    TransportCommand,
    ApiError,
>)
    ensures
        match command_of(action@, *body) {
            Ok(command) => result == Ok::<TransportCommand, ApiError>(command),
            Err((status, message)) => result matches Err(error) && error.status == status
                && error.message@ == message,
        },
{
    if same(action, "play") {
        Ok(TransportCommand::Play)
    } else if same(action, "pause") {
        Ok(TransportCommand::Pause)
    } else if same(action, "stop") {
        Ok(TransportCommand::Stop)
    } else if same(action, "next") {
        Ok(TransportCommand::Next)
    } else if same(action, "previous") {
        Ok(TransportCommand::Previous)
    } else if same(action, "auto-dj") {
        Ok(TransportCommand::ToggleAutoDj)
    } else if same(action, "seek") {
        match body.position_ms {
            Some(position) => Ok(TransportCommand::Seek(position)),
            None => Err(bad_request("position_ms must be a nonnegative integer")),
        }
    } else if same(action, "volume") {
        if body.has_volume {
            let persist: bool = match body.persist {
                Some(persist) => persist,
                None => true,
            };
            Ok(TransportCommand::Volume { persist })
        } else {
            Err(bad_request("volume must be a number"))
        }
    } else if same(action, "mute") {
        match body.muted {
            Some(muted) => Ok(TransportCommand::Muted(muted)),
            None => Err(bad_request("muted must be true or false")),
        }
    } else if same(action, "shuffle") {
        match body.enabled {
            Some(enabled) => Ok(TransportCommand::Shuffle(enabled)),
            None => Err(bad_request("enabled must be true or false")),
        }
    } else if same(action, "repeat") {
        let mode: Option<RepeatMode> = match &body.mode {
            Some(mode) => if same(mode.as_str(), "off") {
                Some(RepeatMode::Off)
            } else if same(mode.as_str(), "one") {
                Some(RepeatMode::One)
            } else if same(mode.as_str(), "all") {
                Some(RepeatMode::All)
            } else {
                None
            },
            None => None,
        };
        match mode {
            Some(mode) => Ok(TransportCommand::Repeat(mode)),
            None => Err(bad_request("Repeat mode must be off, one or all")),
        }
    } else {
        Err(not_found("Route not found"))
    }
}

/// The states of playback that clients are told.
#[derive(Clone, Copy, Debug, PartialEq, Eq, Structural)]
pub enum PlaybackState {
    Stopped,
    Resolving,
    Buffering,
    Playing,
    Paused,
    Failed,
}

impl PlaybackState {
    pub open spec fn label(self) -> Seq<char> {
        match self {
            PlaybackState::Stopped => "stopped"@,
            PlaybackState::Resolving => "resolving"@,
            PlaybackState::Buffering => "buffering"@,
            PlaybackState::Playing => "playing"@,
            PlaybackState::Paused => "paused"@,
            PlaybackState::Failed => "failed"@,
        }
    }

    pub fn name(self) -> (result: &'static str)
        ensures
            result@ == self.label(),
    {
        match self {
            PlaybackState::Stopped => "stopped",
            PlaybackState::Resolving => "resolving",
            PlaybackState::Buffering => "buffering",
            PlaybackState::Playing => "playing",
            PlaybackState::Paused => "paused",
            PlaybackState::Failed => "failed",
        }
    }
}

/// The name of a repeat mode, by which it can also be asked for.
pub fn repeat_name(mode: RepeatMode) -> (result: &'static str)
    ensures
        result@ == match mode {
            RepeatMode::Off => "off"@,
            RepeatMode::One => "one"@,
            RepeatMode::All => "all"@,
        },
{
    match mode {
        RepeatMode::Off => "off",
        RepeatMode::One => "one",
        RepeatMode::All => "all",
    }
}

/// A repeat mode can be asked for by the name under which it is reported.
pub proof fn repeat_names_read_back(mode: RepeatMode)
    ensures
        repeat_named(
            match mode {
                RepeatMode::Off => "off"@,
                RepeatMode::One => "one"@,
                RepeatMode::All => "all"@,
            },
        ) == Some(mode),
{
    reveal_strlit("off");
    reveal_strlit("one");
    reveal_strlit("all");
    assert("off"@[0] == 'o' && "off"@[1] == 'f');
    assert("one"@[0] == 'o' && "one"@[1] == 'n');
    assert("all"@[0] == 'a');
}

/// Whether an event repeats the queue: the first one does, and each that changes it.
pub fn event_shows_queue(
    first: bool,
    had_playback: bool,
    has_playback: bool,
    queue_differs: bool,
) -> (result: bool)
    ensures
        result == (first || if had_playback && has_playback {
            queue_differs
        } else {
            had_playback != has_playback
        }),
{
    first || if had_playback && has_playback {
        queue_differs
    } else {
        had_playback != has_playback
    }
}

} // verus!
