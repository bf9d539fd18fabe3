//! What commands over HTTP mean: each is asked for by its own name, with its own values.

use vstd::prelude::*;
use vstd::string::*;

use crate::api::browser::Switches;
use crate::api::commands::{form_action, FormAction, SelectionMode};
use crate::api::parameters::{filled, number_in};
use crate::api::playlists::{file_action_of, FileAction};
use crate::api::queue::{kind_named, MediaKind};
use crate::api::transport::{command_of, CommandBody, TransportCommand};
use crate::playback::plex::RepeatMode;

verus! {

/// The name by which a command is asked for.
pub open spec fn command_name(command: TransportCommand) -> Seq<char> {
    match command {
        TransportCommand::Play => "play"@,
        TransportCommand::Pause => "pause"@,
        TransportCommand::Stop => "stop"@,
        TransportCommand::Next => "next"@,
        TransportCommand::Previous => "previous"@,
        TransportCommand::ToggleAutoDj => "auto-dj"@,
        TransportCommand::Seek(_) => "seek"@,
        TransportCommand::Volume { .. } => "volume"@,
        TransportCommand::Muted(_) => "mute"@,
        TransportCommand::Shuffle(_) => "shuffle"@,
        TransportCommand::Repeat(_) => "repeat"@,
    }
}

/// The name of a repeat mode.
pub open spec fn mode_name(mode: RepeatMode) -> Seq<char> {
    match mode {
        RepeatMode::Off => "off"@,
        RepeatMode::One => "one"@,
        RepeatMode::All => "all"@,
    }
}

/// The body holds the value that a command needs.
pub open spec fn body_gives(body: CommandBody, command: TransportCommand) -> bool {
    match command {
        TransportCommand::Seek(position) => body.position_ms == Some(position),
        TransportCommand::Volume { persist } => body.has_volume && persist == !(body.persist
            == Some(false)),
        TransportCommand::Muted(muted) => body.muted == Some(muted),
        TransportCommand::Shuffle(enabled) => body.enabled == Some(enabled),
        TransportCommand::Repeat(mode) => body.mode matches Some(name) && name@ == mode_name(mode),
        _ => true,
    }
}

proof fn command_names_differ()
    ensures
        "play"@ != "pause"@ && "play"@ != "stop"@ && "play"@ != "next"@ && "play"@ != "previous"@,
        "pause"@ != "previous"@,
        "seek"@ != "stop"@ && "seek"@ != "shuffle"@ && "stop"@ != "shuffle"@,
        "off"@ != "one"@ && "off"@ != "all"@ && "one"@ != "all"@,
{
    reveal_strlit("play");
    reveal_strlit("pause");
    reveal_strlit("stop");
    reveal_strlit("next");
    reveal_strlit("previous");
    reveal_strlit("seek");
    reveal_strlit("shuffle");
    reveal_strlit("off");
    reveal_strlit("one");
    reveal_strlit("all");
    assert("play"@[1] == 'l' && "pause"@[1] == 'a' && "previous"@[1] == 'r');
    assert("stop"@[0] == 's' && "stop"@[1] == 't' && "seek"@[1] == 'e' && "shuffle"@[1] == 'h');
    assert("next"@[0] == 'n');
    assert("off"@[1] == 'f' && "one"@[1] == 'n' && "all"@[1] == 'l');
}

/// A command that is carried out is the one whose name was asked for, with the value that the body
/// gives; so no two names stand for the same command.
pub proof fn commands_are_those_that_were_asked_for(action: Seq<char>, body: CommandBody)
    ensures
        command_of(action, body) matches Ok(command) ==> action == command_name(command)
            && body_gives(body, command),
{
}

/// A command that is asked for by its name, with the value that it needs, is carried out.
pub proof fn commands_with_their_values_are_carried_out(body: CommandBody, command: TransportCommand)
    requires
        body_gives(body, command),
    ensures
        command_of(command_name(command), body) == Ok::<TransportCommand, (u16, Seq<char>)>(command),
{
    reveal_strlit("play");
    reveal_strlit("pause");
    reveal_strlit("stop");
    reveal_strlit("next");
    reveal_strlit("previous");
    reveal_strlit("auto-dj");
    reveal_strlit("seek");
    reveal_strlit("volume");
    reveal_strlit("mute");
    reveal_strlit("shuffle");
    reveal_strlit("repeat");
    command_names_differ();
    assert("play"@[0] == 'p' && "pause"@[0] == 'p' && "previous"@[0] == 'p');
    assert("stop"@[0] == 's' && "seek"@[0] == 's' && "shuffle"@[0] == 's');
    assert("next"@[0] == 'n' && "auto-dj"@[0] == 'a' && "volume"@[0] == 'v' && "mute"@[0] == 'm'
        && "repeat"@[0] == 'r');
}

/// A refusal tells an unknown command, which is not found, from a known one without its value.
pub proof fn unknown_commands_are_not_found(action: Seq<char>, body: CommandBody)
    ensures
        command_of(action, body) matches Err((status, message)) ==> status == if action == "seek"@
            || action == "volume"@ || action == "mute"@ || action == "shuffle"@ || action
            == "repeat"@ {
            400u16
        } else {
            404u16
        },
{
}

/// The name by which a form asks for an action.
pub open spec fn form_name(action: FormAction) -> Seq<char> {
    match action {
        FormAction::Refresh(_) => "refresh"@,
        FormAction::Favorite(_) => "favorite"@,
        FormAction::Activate(_) => "activate"@,
        FormAction::PlayNext(_) => "queue-next"@,
        FormAction::PlayLater(_) => "queue-later"@,
        FormAction::Remove(_) => "queue-remove"@,
        FormAction::ClearQueue => "clear-queue"@,
        FormAction::SelectSource(_) => "source"@,
        FormAction::SelectFolder { .. } => "folder"@,
        FormAction::Queue { mode, .. } => match mode {
            SelectionMode::Replace => "replace"@,
            SelectionMode::Append => "append"@,
            SelectionMode::Next => "next"@,
        },
        FormAction::Play => "play"@,
        FormAction::Pause => "pause"@,
        FormAction::Stop => "stop"@,
        FormAction::Next => "next"@,
        FormAction::Previous => "previous"@,
        FormAction::ToggleAutoDj => "auto-dj"@,
        FormAction::Volume(_) => "volume"@,
        FormAction::Seek(_) => "seek"@,
        FormAction::Shuffle(_) => "shuffle"@,
        FormAction::Mute(_) => "mute"@,
        FormAction::Repeat(_) => "repeat"@,
    }
}

/// The form gives the text under the name.
pub open spec fn form_gives(form: Map<Seq<char>, String>, key: Seq<char>, text: String) -> bool {
    filled(form, key) && form[key] == text
}

/// The values of an action are those of the form, and switches are turned over.
pub open spec fn form_values(
    form: Map<Seq<char>, String>,
    switches: Switches,
    repeat: Option<RepeatMode>,
    action: FormAction,
) -> bool {
    match action {
        FormAction::Refresh(source) => match source {
            Some(text) => form_gives(form, "source"@, text),
            None => !filled(form, "source"@),
        },
        FormAction::Favorite(text) => form_gives(form, "selection"@, text),
        FormAction::Activate(text) | FormAction::PlayNext(text) | FormAction::PlayLater(text)
        | FormAction::Remove(text) => form_gives(form, "id"@, text),
        FormAction::SelectSource(text) => form_gives(form, "source"@, text),
        FormAction::SelectFolder { source, folder } => form_gives(form, "source"@, source)
            && match folder {
            Some(text) => form_gives(form, "folder"@, text),
            None => !filled(form, "folder"@),
        },
        FormAction::Queue { selection, .. } => form_gives(form, "selection"@, selection),
        FormAction::Volume(text) => form_gives(form, "volume"@, text),
        FormAction::Seek(position) => filled(form, "position_ms"@) && (number_in(
            form["position_ms"@]@,
            u64::MAX as nat,
        ) matches Ok(number) && position == number),
        FormAction::Shuffle(shuffle) => shuffle != switches.shuffle,
        FormAction::Mute(muted) => muted != switches.muted,
        FormAction::Repeat(mode) => match repeat {
            Some(RepeatMode::Off) => mode == RepeatMode::All,
            Some(RepeatMode::All) => mode == RepeatMode::One,
            Some(RepeatMode::One) | None => mode == RepeatMode::Off,
        },
        FormAction::Next => !form.dom().contains("selection"@),
        _ => true,
    }
}

/// What a form does is what it names, with the values that it gives.
pub proof fn forms_do_what_they_name(
    form: Map<Seq<char>, String>,
    switches: Switches,
    repeat: Option<RepeatMode>,
)
    ensures
        form_action(form, switches, repeat) matches Ok(action) ==> form["action"@]@ == form_name(
            action,
        ) && form_values(form, switches, repeat, action),
{
}

/// A form that names an action and gives the values that it needs gets it.
pub proof fn forms_with_their_values_are_carried_out(
    form: Map<Seq<char>, String>,
    switches: Switches,
    repeat: Option<RepeatMode>,
    action: FormAction,
)
    requires
        filled(form, "action"@),
        form["action"@]@ == form_name(action),
        form_values(form, switches, repeat, action),
    ensures
        form_action(form, switches, repeat) == Ok::<FormAction, Seq<char>>(action),
{
    reveal_strlit("refresh");
    reveal_strlit("favorite");
    reveal_strlit("activate");
    reveal_strlit("queue-next");
    reveal_strlit("queue-later");
    reveal_strlit("queue-remove");
    reveal_strlit("clear-queue");
    reveal_strlit("source");
    reveal_strlit("folder");
    reveal_strlit("replace");
    reveal_strlit("append");
    reveal_strlit("next");
    reveal_strlit("play");
    reveal_strlit("pause");
    reveal_strlit("stop");
    reveal_strlit("previous");
    reveal_strlit("auto-dj");
    reveal_strlit("volume");
    reveal_strlit("seek");
    reveal_strlit("shuffle");
    reveal_strlit("mute");
    reveal_strlit("repeat");
    assert("refresh"@.len() == 7 && "refresh"@[0] == 'r');
    assert("favorite"@.len() == 8 && "favorite"@[0] == 'f');
    assert("activate"@.len() == 8 && "activate"@[0] == 'a');
    assert("queue-next"@.len() == 10 && "queue-next"@[0] == 'q');
    assert("queue-later"@.len() == 11 && "queue-later"@[0] == 'q');
    assert("queue-remove"@.len() == 12 && "queue-remove"@[0] == 'q');
    assert("clear-queue"@.len() == 11 && "clear-queue"@[0] == 'c');
    assert("source"@.len() == 6 && "source"@[0] == 's');
    assert("folder"@.len() == 6 && "folder"@[0] == 'f');
    assert("replace"@.len() == 7 && "replace"@[0] == 'r');
    assert("append"@.len() == 6 && "append"@[0] == 'a');
    assert("next"@.len() == 4 && "next"@[0] == 'n');
    assert("play"@.len() == 4 && "play"@[0] == 'p');
    assert("pause"@.len() == 5 && "pause"@[0] == 'p');
    assert("stop"@.len() == 4 && "stop"@[0] == 's');
    assert("previous"@.len() == 8 && "previous"@[0] == 'p');
    assert("auto-dj"@.len() == 7 && "auto-dj"@[0] == 'a');
    assert("volume"@.len() == 6 && "volume"@[0] == 'v');
    assert("seek"@.len() == 4 && "seek"@[0] == 's');
    assert("shuffle"@.len() == 7 && "shuffle"@[0] == 's');
    assert("mute"@.len() == 4 && "mute"@[0] == 'm');
    assert("repeat"@.len() == 6 && "repeat"@[0] == 'r');
    assert("stop"@[1] == 't' && "seek"@[1] == 'e');
    assert("refresh"@[2] == 'f' && "replace"@[2] == 'p');
}

/// The name by which something is done to a playlist's file.
pub open spec fn file_action_name(action: FileAction) -> Seq<char> {
    match action {
        FileAction::Save { .. } => "save"@,
        FileAction::Reload { .. } => "reload"@,
        FileAction::Unlink => "unlink"@,
        FileAction::Delete => "delete"@,
        FileAction::Rename { .. } => "rename"@,
        FileAction::Link { .. } => "link"@,
    }
}

/// What is done to a playlist's file is what was named, with the name, the place and the force that
/// were given.
pub proof fn file_actions_are_those_that_were_named(
    action: Seq<char>,
    path: Option<String>,
    source: Option<String>,
    force: bool,
)
    ensures
        file_action_of(action, path, source, force) matches Ok(done) ==> action == file_action_name(
            done,
        ) && match done {
            FileAction::Save { force: forced } | FileAction::Reload { force: forced } => forced
                == force,
            FileAction::Rename { name } => path == Some(name),
            FileAction::Link { source: from, path: place, force: forced } => path == Some(place)
                && from == source && forced == force,
            _ => true,
        },
        file_action_of(action, path, source, force) is Err ==> path is None || (action != "save"@
            && action != "reload"@ && action != "unlink"@ && action != "delete"@ && action
            != "rename"@ && action != "link"@),
{
}

/// The name of a kind of media.
pub open spec fn kind_name(kind: MediaKind) -> Seq<char> {
    match kind {
        MediaKind::Track => "track"@,
        MediaKind::Album => "album"@,
        MediaKind::Playlist => "playlist"@,
        MediaKind::Artist => "artist"@,
        MediaKind::Genre => "genre"@,
        MediaKind::SmartPlaylist => "smart-playlist"@,
        MediaKind::Source => "source"@,
        MediaKind::Unknown => ""@,
    }
}

/// A kind of media is the one that is named, and a name that is no kind's is unknown.
pub proof fn kinds_are_those_that_were_named(name: Seq<char>, kind: MediaKind)
    ensures
        kind_named(name) != MediaKind::Unknown ==> name == kind_name(kind_named(name)),
        kind != MediaKind::Unknown && name == kind_name(kind) ==> kind_named(name)
            != MediaKind::Unknown,
{
}

} // verus!
