//! What the forms of the player's pages do.

use vstd::prelude::*;

use crate::api::browser::Switches;
use crate::api::parameters::{
    bad_request, filled, number_in, parse_limited, required, ApiError, Parameters,
};
use crate::playback::plex::RepeatMode;
use crate::text::same;

verus! {

/// How a selection enters the queue.
#[derive(Clone, Copy, Debug, PartialEq, Eq, Structural)]
pub enum SelectionMode {
    Replace,
    Append,
    Next,
}

/// What a form asks for.
pub enum FormAction {
    /// The source is read again, where one is given.
    Refresh(Option<String>),
    /// The favorite mark of a selection.
    Favorite(String),
    Activate(String),
    PlayNext(String),
    PlayLater(String),
    Remove(String),
    ClearQueue,
    SelectSource(String),
    /// The folder of a source, or all of it.
    SelectFolder { source: String, folder: Option<String> },
    Queue { mode: SelectionMode, selection: String },
    Play,
    Pause,
    Stop,
    Next,
    Previous,
    ToggleAutoDj,
    /// The volume, as it was written.
    Volume(String),
    Seek(u64),
    Shuffle(bool),
    Mute(bool),
    Repeat(RepeatMode),
}

/// The repeat mode that follows another: all, then one, then none.
pub open spec fn next_repeat(mode: Option<RepeatMode>) -> RepeatMode {
    match mode {
        Some(RepeatMode::Off) => RepeatMode::All,
        Some(RepeatMode::All) => RepeatMode::One,
        _ => RepeatMode::Off,
    }
}

/// A parameter that is not empty.
pub open spec fn optional(form: Map<Seq<char>, String>, key: Seq<char>) -> Option<String> {
    if filled(form, key) {
        Some(form[key])
    } else {
        None
    }
}

/// The result of an action that needs one text of the form.
pub open spec fn with_text(
    form: Map<Seq<char>, String>,
    key: Seq<char>,
    action: spec_fn(String) -> FormAction,
) -> Result<FormAction, Seq<char>> {
    if filled(form, key) {
        Ok(action(form[key]))
    } else {
        Err(key + " is required"@)
    }
}

/// What a playback command of a form does.
pub open spec fn playback_action(
    command: Seq<char>,
    form: Map<Seq<char>, String>,
    switches: Switches,
    repeat: Option<RepeatMode>,
) -> Result<FormAction, Seq<char>> {
    if command == "play"@ {
        Ok(FormAction::Play)
    } else if command == "pause"@ {
        Ok(FormAction::Pause)
    } else if command == "stop"@ {
        Ok(FormAction::Stop)
    } else if command == "next"@ {
        Ok(FormAction::Next)
    } else if command == "previous"@ {
        Ok(FormAction::Previous)
    } else if command == "auto-dj"@ {
        Ok(FormAction::ToggleAutoDj)
    } else if command == "volume"@ {
        with_text(form, "volume"@, |text: String| FormAction::Volume(text))
    } else if command == "seek"@ {
        if !filled(form, "position_ms"@) {
            Err("position_ms is required"@)
        } else {
            match number_in(form["position_ms"@]@, u64::MAX as nat) {
                Ok(position) => Ok(FormAction::Seek(position as u64)),
                Err(error) => Err(error.message()),
            }
        }
    } else if command == "shuffle"@ {
        Ok(FormAction::Shuffle(!switches.shuffle))
    } else if command == "mute"@ {
        Ok(FormAction::Mute(!switches.muted))
    } else if command == "repeat"@ {
        Ok(FormAction::Repeat(next_repeat(repeat)))
    } else {
        Err("Unknown playback action"@)
    }
}

/// What a form asks for, or the message with which it is refused.
pub open spec fn form_action(
    form: Map<Seq<char>, String>,
    switches: Switches,
    repeat: Option<RepeatMode>,
) -> Result<FormAction, Seq<char>> {
    let command = form["action"@]@;
    if !filled(form, "action"@) {
        Err("action is required"@)
    } else if command == "refresh"@ {
        Ok(FormAction::Refresh(optional(form, "source"@)))
    } else if command == "favorite"@ {
        with_text(form, "selection"@, |text: String| FormAction::Favorite(text))
    } else if command == "activate"@ {
        with_text(form, "id"@, |text: String| FormAction::Activate(text))
    } else if command == "queue-next"@ {
        with_text(form, "id"@, |text: String| FormAction::PlayNext(text))
    } else if command == "queue-later"@ {
        with_text(form, "id"@, |text: String| FormAction::PlayLater(text))
    } else if command == "queue-remove"@ {
        with_text(form, "id"@, |text: String| FormAction::Remove(text))
    } else if command == "clear-queue"@ {
        Ok(FormAction::ClearQueue)
    } else if command == "source"@ {
        with_text(form, "source"@, |text: String| FormAction::SelectSource(text))
    } else if command == "folder"@ {
        with_text(
            form,
            "source"@,
            |text: String|
                FormAction::SelectFolder { source: text, folder: optional(form, "folder"@) },
        )
    } else if (command == "replace"@ || command == "append"@ || command == "next"@)
        && form.dom().contains("selection"@) {
        with_text(
            form,
            "selection"@,
            |text: String|
                FormAction::Queue {
                    mode: if command == "replace"@ {
                        SelectionMode::Replace
                    } else if command == "append"@ {
                        SelectionMode::Append
                    } else {
                        SelectionMode::Next
                    },
                    selection: text,
                },
        )
    } else {
        playback_action(command, form, switches, repeat)
    }
}

/// The result says what the form asks for.
pub open spec fn answers(
    result: Result<FormAction, ApiError>,
    expected: Result<FormAction, Seq<char>>,
) -> bool {
    match expected {
        Ok(action) => result == Ok::<FormAction, ApiError>(action),
        Err(message) => result matches Err(error) && error.status == 400 && error.message@
            == message,
    }
}

fn take(form: &Parameters, key: &str) -> (result: Result<String, ApiError>)
    requires
        form.wf(),
    ensures
        match result {
            Ok(text) => filled(form@, key@) && text == form@[key@],
            Err(error) => !filled(form@, key@) && error.status == 400 && error.message@ == key@
                + " is required"@,
        },
{
    if let Some(text) = form.get(key) {
        if !text.as_str().is_empty() {
            return Ok(text.clone());
        }
    }
    match required(form, key) {
        Ok(text) => Ok(text.to_owned()),
        Err(error) => Err(error),
    }
}

fn take_optional(form: &Parameters, key: &str) -> (result: Option<String>)
    requires
        form.wf(),
    ensures
        result == optional(form@, key@),
{
    match take(form, key) {
        Ok(text) => Some(text),
        Err(_) => None,
    }
}

fn playback_command_of(
    command: &str,
    form: &Parameters,
    switches: Switches,
    repeat: Option<RepeatMode>,
) -> (result: Result<FormAction, ApiError>)
    requires
        form.wf(),
    ensures
        answers(result, playback_action(command@, form@, switches, repeat)),
{
    if same(command, "play") {
        Ok(FormAction::Play)
    } else if same(command, "pause") {
        Ok(FormAction::Pause)
    } else if same(command, "stop") {
        Ok(FormAction::Stop)
    } else if same(command, "next") {
        Ok(FormAction::Next)
    } else if same(command, "previous") {
        Ok(FormAction::Previous)
    } else if same(command, "auto-dj") {
        Ok(FormAction::ToggleAutoDj)
    } else if same(command, "volume") {
        match take(form, "volume") {
            Ok(text) => Ok(FormAction::Volume(text)),
            Err(error) => Err(error),
        }
    } else if same(command, "seek") {
        match take(form, "position_ms") {
            Ok(text) => match parse_limited(text.as_str(), u64::MAX) {
                Ok(position) => Ok(FormAction::Seek(position)),
                Err(error) => Err(bad_request(error.text())),
            },
            Err(_) => {
                proof {
                    reveal_strlit("position_ms");
                    reveal_strlit(" is required");
                    reveal_strlit("position_ms is required");
                    assert("position_ms"@ + " is required"@ =~= "position_ms is required"@);
                }
                Err(bad_request("position_ms is required"))
            },
        }
    } else if same(command, "shuffle") {
        Ok(FormAction::Shuffle(!switches.shuffle))
    } else if same(command, "mute") {
        Ok(FormAction::Mute(!switches.muted))
    } else if same(command, "repeat") {
        let next: RepeatMode = match repeat {
            Some(RepeatMode::Off) => RepeatMode::All,
            Some(RepeatMode::All) => RepeatMode::One,
            _ => RepeatMode::Off,
        };
        Ok(FormAction::Repeat(next))
    } else {
        Err(bad_request("Unknown playback action"))
    }
}

/// Decides what a form asks for.
pub fn action(form: &Parameters, switches: Switches, repeat: Option<RepeatMode>) -> (result: Result<
    FormAction,
    ApiError,
>)
    requires
        form.wf(),
    ensures
        answers(result, form_action(form@, switches, repeat)),
{
    let command = match take(form, "action") {
        Ok(command) => command,
        Err(_) => {
            proof {
                reveal_strlit("action");
                reveal_strlit(" is required");
                reveal_strlit("action is required");
                assert("action"@ + " is required"@ =~= "action is required"@);
            }
            return Err(bad_request("action is required"));
        },
    };
    let command = command.as_str();
    if same(command, "refresh") {
        return Ok(FormAction::Refresh(take_optional(form, "source")));
    }
    if same(command, "favorite") {
        return match take(form, "selection") {
            Ok(text) => Ok(FormAction::Favorite(text)),
            Err(error) => Err(error),
        };
    }
    if same(command, "activate") {
        return match take(form, "id") {
            Ok(text) => Ok(FormAction::Activate(text)),
            Err(error) => Err(error),
        };
    }
    if same(command, "queue-next") {
        return match take(form, "id") {
            Ok(text) => Ok(FormAction::PlayNext(text)),
            Err(error) => Err(error),
        };
    }
    if same(command, "queue-later") {
        return match take(form, "id") {
            Ok(text) => Ok(FormAction::PlayLater(text)),
            Err(error) => Err(error),
        };
    }
    if same(command, "queue-remove") {
        return match take(form, "id") {
            Ok(text) => Ok(FormAction::Remove(text)),
            Err(error) => Err(error),
        };
    }
    if same(command, "clear-queue") {
        return Ok(FormAction::ClearQueue);
    }
    if same(command, "source") {
        return match take(form, "source") {
            Ok(text) => Ok(FormAction::SelectSource(text)),
            Err(error) => Err(error),
        };
    }
    if same(command, "folder") {
        return match take(form, "source") {
            Ok(source) => Ok(
                FormAction::SelectFolder { source, folder: take_optional(form, "folder") },
            ),
            Err(error) => Err(error),
        };
    }
    let replaces: bool = same(command, "replace");
    let appends: bool = same(command, "append");
    let follows: bool = same(command, "next");
    if (replaces || appends || follows) && form.contains("selection") {
        return match take(form, "selection") {
            Ok(selection) => Ok(
                FormAction::Queue {
                    mode: if replaces {
                        SelectionMode::Replace
                    } else if appends {
                        SelectionMode::Append
                    } else {
                        SelectionMode::Next
                    },
                    selection,
                },
            ),
            Err(error) => Err(error),
        };
    }
    playback_command_of(command, form, switches, repeat)
}

/// The repeat button goes through all three modes and comes back.
pub proof fn repeat_comes_back(mode: RepeatMode)
    ensures
        next_repeat(Some(next_repeat(Some(next_repeat(Some(mode)))))) == mode,
{
}

} // verus!
