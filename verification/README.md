# rufin_core

The core of the Rufin music player, as a library whose rules are stated in contracts and proved with
Verus, and the code around it that talks to files, networks and players.

## Layout

- `src/` holds the rules. A function states what it returns or changes for every input; what holds
  of several functions together stands beside them as a public proof function. Where a result rests
  on chance or on the system, a function states what holds of every outcome: so do those that draw
  keys, names and secrets, the encryption of a file, and `file_uri`. Results of other crates that
  take long to state have a name, and are the same for the same values.
  - `text`, `textmap`, `sorted`, `digest`, `paths`: texts, maps and lists with text keys, digests,
    and the places of files.
  - `redaction`, `redaction_laws`, `secret_laws`, `diagnostics`: what a log may show, and how logs
    are bounded and rotated.
  - `connect`: the devices of a profile: settings and their edits, what each action and each report
    of the network leads to, how profiles are opened, taken over and exchanged as encrypted files,
    and where the media of a track comes from.
  - `playback`: queues on Plex players, handing playback over and taking it back, and what a target
    plays.
  - `api`: the player over HTTP: tokens, sessions and failed attempts, parameters and forms, the
    lists of the library, the queue, the pages of a browser.
  - `artwork`, `metadata`, `radio`, `scrobbling`, `playlists`, `playlist_files`, `release_update`,
    `runtime`: the smaller parts of the player.
- `app/` does what the rules decide: it reads and writes files, opens connections, serves HTTP, and
  reaches the rest of the player through the traits in `services.rs` and beside their users.
- `tests/` runs the rules on concrete values.

## How rules and effects meet

A rule never waits for anything. Where an action needs the outside world, the rules give a list of
steps, or the next question and the state in which its answer is awaited; `app/` makes the steps in
order and hands the answers back. Times come in as numbers, and values that depend on chance come
from the few functions that say so.

Calls into other crates stand behind small functions marked `external_body`. Their doc comments say
which function of which crate they call and what is believed of it.
