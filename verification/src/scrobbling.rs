//! Scrobbling: preferences, credentials and accounts.

use vstd::prelude::*;

use crate::text::{same, trim, trimmed};

verus! {

pub struct LastFmPreferences {
    pub enabled: bool,
    pub api_key: String,
    pub api_secret: String,
    pub username: String,
    pub connected: bool,
    pub now_playing_enabled: bool,
}

impl Default for LastFmPreferences {
    fn default() -> (result: Self)
        ensures
            !result.enabled && !result.connected && result.now_playing_enabled,
            result.api_key@.len() == 0 && result.api_secret@.len() == 0,
            result.username@.len() == 0,
    {
        LastFmPreferences {
            enabled: false,
            api_key: String::new(),
            api_secret: String::new(),
            username: String::new(),
            connected: false,
            now_playing_enabled: true,
        }
    }
}

pub struct LibreFmPreferences {
    pub enabled: bool,
    pub username: String,
    pub connected: bool,
    pub now_playing_enabled: bool,
}

impl Default for LibreFmPreferences {
    fn default() -> (result: Self)
        ensures
            !result.enabled && !result.connected && result.now_playing_enabled,
            result.username@.len() == 0,
    {
        LibreFmPreferences {
            enabled: false,
            username: String::new(),
            connected: false,
            now_playing_enabled: true,
        }
    }
}

pub struct ListenBrainzPreferences {
    pub enabled: bool,
    pub user_token: String,
    pub now_playing_enabled: bool,
}

impl Default for ListenBrainzPreferences {
    fn default() -> (result: Self)
        ensures
            !result.enabled && result.now_playing_enabled,
            result.user_token@.len() == 0,
    {
        ListenBrainzPreferences {
            enabled: false,
            user_token: String::new(),
            now_playing_enabled: true,
        }
    }
}

/// What the user sees and edits.
pub struct ScrobblingPreferences {
    pub lastfm: LastFmPreferences,
    pub librefm: LibreFmPreferences,
    pub listenbrainz: ListenBrainzPreferences,
}

impl Default for ScrobblingPreferences {
    fn default() -> (result: Self)
        ensures
            !result.lastfm.enabled && !result.librefm.enabled && !result.listenbrainz.enabled,
            result.lastfm.now_playing_enabled && result.librefm.now_playing_enabled,
            result.listenbrainz.now_playing_enabled,
            !result.lastfm.connected && !result.librefm.connected,
            result.lastfm.api_key@.len() == 0 && result.lastfm.api_secret@.len() == 0,
            result.lastfm.username@.len() == 0 && result.librefm.username@.len() == 0,
            result.listenbrainz.user_token@.len() == 0,
    {
        ScrobblingPreferences {
            lastfm: LastFmPreferences::default(),
            librefm: LibreFmPreferences::default(),
            listenbrainz: ListenBrainzPreferences::default(),
        }
    }
}

/// An account that is to be connected.
pub enum ScrobblingConnection {
    LastFm { api_key: String, api_secret: String },
    LibreFm,
}

pub struct LastFmSettings {
    pub enabled: bool,
    pub api_key: String,
    pub api_secret: String,
    pub username: String,
    pub session_key: String,
    pub now_playing_enabled: bool,
}

pub struct LibreFmSettings {
    pub enabled: bool,
    pub username: String,
    pub session_key: String,
    pub now_playing_enabled: bool,
}

pub struct ListenBrainzSettings {
    pub enabled: bool,
    pub user_token: String,
    pub now_playing_enabled: bool,
}

/// What is stored, credentials among it.
pub struct ScrobblingSettings {
    pub lastfm: LastFmSettings,
    pub librefm: LibreFmSettings,
    pub listenbrainz: ListenBrainzSettings,
}

/// The preferences that settings give: session keys are not shown, only whether there is one.
pub open spec fn preferences_of(settings: ScrobblingSettings) -> ScrobblingPreferences {
    ScrobblingPreferences {
        lastfm: LastFmPreferences {
            enabled: settings.lastfm.enabled,
            api_key: settings.lastfm.api_key,
            api_secret: settings.lastfm.api_secret,
            username: settings.lastfm.username,
            connected: settings.lastfm.session_key@.len() > 0,
            now_playing_enabled: settings.lastfm.now_playing_enabled,
        },
        librefm: LibreFmPreferences {
            enabled: settings.librefm.enabled,
            username: settings.librefm.username,
            connected: settings.librefm.session_key@.len() > 0,
            now_playing_enabled: settings.librefm.now_playing_enabled,
        },
        listenbrainz: ListenBrainzPreferences {
            enabled: settings.listenbrainz.enabled,
            user_token: settings.listenbrainz.user_token,
            now_playing_enabled: settings.listenbrainz.now_playing_enabled,
        },
    }
}

pub fn preferences(settings: &ScrobblingSettings) -> (result: ScrobblingPreferences)
    ensures
        result == preferences_of(*settings),
{
    ScrobblingPreferences {
        lastfm: LastFmPreferences {
            enabled: settings.lastfm.enabled,
            api_key: settings.lastfm.api_key.clone(),
            api_secret: settings.lastfm.api_secret.clone(),
            username: settings.lastfm.username.clone(),
            connected: !settings.lastfm.session_key.as_str().is_empty(),
            now_playing_enabled: settings.lastfm.now_playing_enabled,
        },
        librefm: LibreFmPreferences {
            enabled: settings.librefm.enabled,
            username: settings.librefm.username.clone(),
            connected: !settings.librefm.session_key.as_str().is_empty(),
            now_playing_enabled: settings.librefm.now_playing_enabled,
        },
        listenbrainz: ListenBrainzPreferences {
            enabled: settings.listenbrainz.enabled,
            user_token: settings.listenbrainz.user_token.clone(),
            now_playing_enabled: settings.listenbrainz.now_playing_enabled,
        },
    }
}

/// The settings with the switches of the preferences.
pub open spec fn switched(before: ScrobblingSettings, preferences: ScrobblingPreferences) -> (
    ScrobblingSettings
) {
    ScrobblingSettings {
        lastfm: LastFmSettings {
            enabled: preferences.lastfm.enabled,
            now_playing_enabled: preferences.lastfm.now_playing_enabled,
            ..before.lastfm
        },
        librefm: LibreFmSettings {
            enabled: preferences.librefm.enabled,
            now_playing_enabled: preferences.librefm.now_playing_enabled,
            ..before.librefm
        },
        listenbrainz: ListenBrainzSettings {
            enabled: preferences.listenbrainz.enabled,
            now_playing_enabled: preferences.listenbrainz.now_playing_enabled,
            ..before.listenbrainz
        },
    }
}

/// The settings `after` have the credentials of the preferences.
pub open spec fn credentials_saved(
    before: ScrobblingSettings,
    preferences: ScrobblingPreferences,
    after: ScrobblingSettings,
) -> bool {
    let changed = before.lastfm.api_key@ != preferences.lastfm.api_key@ || before.lastfm.api_secret@
        != preferences.lastfm.api_secret@;
    &&& changed ==> after.lastfm.username@.len() == 0 && after.lastfm.session_key@.len() == 0
    &&& !changed ==> after.lastfm.username == before.lastfm.username && after.lastfm.session_key
        == before.lastfm.session_key
    &&& after.lastfm.api_key@ == trimmed(preferences.lastfm.api_key@)
    &&& after.lastfm.api_secret@ == trimmed(preferences.lastfm.api_secret@)
    &&& after.listenbrainz.user_token@ == trimmed(preferences.listenbrainz.user_token@)
    &&& after.lastfm.enabled == before.lastfm.enabled
    &&& after.lastfm.now_playing_enabled == before.lastfm.now_playing_enabled
    &&& after.listenbrainz.enabled == before.listenbrainz.enabled
    &&& after.listenbrainz.now_playing_enabled == before.listenbrainz.now_playing_enabled
    &&& after.librefm == before.librefm
}

/// The settings `after` have the session of an account that was connected.
pub open spec fn session_saved(
    before: ScrobblingSettings,
    request: ScrobblingConnection,
    username: String,
    session_key: String,
    after: ScrobblingSettings,
) -> bool {
    &&& after.listenbrainz == before.listenbrainz
    &&& match request {
        ScrobblingConnection::LastFm { api_key, api_secret } => {
            &&& after.librefm == before.librefm
            &&& after.lastfm.api_key@ == trimmed(api_key@)
            &&& after.lastfm.api_secret@ == trimmed(api_secret@)
            &&& after.lastfm == (LastFmSettings {
                api_key: after.lastfm.api_key,
                api_secret: after.lastfm.api_secret,
                username,
                session_key,
                ..before.lastfm
            })
        },
        ScrobblingConnection::LibreFm => {
            &&& after.lastfm == before.lastfm
            &&& after.librefm == (LibreFmSettings { username, session_key, ..before.librefm })
        },
    }
}

impl ScrobblingSettings {
    /// Takes over the switches of the preferences. Credentials stay as they are.
    pub fn save(&mut self, preferences: &ScrobblingPreferences)
        ensures
            *final(self) == switched(*old(self), *preferences),
    {
        self.lastfm.enabled = preferences.lastfm.enabled;
        self.lastfm.now_playing_enabled = preferences.lastfm.now_playing_enabled;
        self.librefm.enabled = preferences.librefm.enabled;
        self.librefm.now_playing_enabled = preferences.librefm.now_playing_enabled;
        self.listenbrainz.enabled = preferences.listenbrainz.enabled;
        self.listenbrainz.now_playing_enabled = preferences.listenbrainz.now_playing_enabled;
    }

    /// Takes over the credentials of the preferences. With other keys the session that was made
    /// with the old ones is given up.
    pub fn save_credential(&mut self, preferences: &ScrobblingPreferences)
        ensures
            credentials_saved(*old(self), *preferences, *final(self)),
    {
        if !same(self.lastfm.api_key.as_str(), preferences.lastfm.api_key.as_str()) || !same(
            self.lastfm.api_secret.as_str(),
            preferences.lastfm.api_secret.as_str(),
        ) {
            self.lastfm.username = String::new();
            self.lastfm.session_key = String::new();
        }
        self.lastfm.api_key = trim(preferences.lastfm.api_key.as_str());
        self.lastfm.api_secret = trim(preferences.lastfm.api_secret.as_str());
        self.listenbrainz.user_token = trim(preferences.listenbrainz.user_token.as_str());
    }

    /// Takes over the session of an account that was connected.
    pub fn save_session(
        &mut self,
        request: &ScrobblingConnection,
        username: String,
        session_key: String,
    )
        ensures
            session_saved(*old(self), *request, username, session_key, *final(self)),
    {
        match request {
            ScrobblingConnection::LastFm { api_key, api_secret } => {
                self.lastfm.api_key = trim(api_key.as_str());
                self.lastfm.api_secret = trim(api_secret.as_str());
                self.lastfm.username = username;
                self.lastfm.session_key = session_key;
            },
            ScrobblingConnection::LibreFm => {
                self.librefm.username = username;
                self.librefm.session_key = session_key;
            },
        }
    }
}

/// Whether stored credentials must be read: a service is switched on whose credentials are not at
/// hand, and there are stored ones.
pub fn needs_credentials(
    secrets_present: bool,
    preferences: &ScrobblingPreferences,
    loaded: &ScrobblingSettings,
) -> (result: bool)
    ensures
        result == (secrets_present && ((preferences.lastfm.enabled
            && loaded.lastfm.session_key@.len() == 0) || (preferences.librefm.enabled
            && loaded.librefm.session_key@.len() == 0) || (preferences.listenbrainz.enabled
            && loaded.listenbrainz.user_token@.len() == 0))),
{
    secrets_present && ((preferences.lastfm.enabled && loaded.lastfm.session_key.as_str().is_empty())
        || (preferences.librefm.enabled && loaded.librefm.session_key.as_str().is_empty()) || (
    preferences.listenbrainz.enabled && loaded.listenbrainz.user_token.as_str().is_empty()))
}

/// Switching a service on or off never loses its account: the preferences then show the new
/// switches and the old accounts.
pub proof fn switches_keep_accounts(before: ScrobblingSettings, edited: ScrobblingPreferences)
    ensures
        ({
            let shown = preferences_of(switched(before, edited));
            let old_shown = preferences_of(before);
            &&& shown.lastfm.enabled == edited.lastfm.enabled
            &&& shown.librefm.enabled == edited.librefm.enabled
            &&& shown.listenbrainz.enabled == edited.listenbrainz.enabled
            &&& shown.lastfm.connected == old_shown.lastfm.connected
            &&& shown.lastfm.username == old_shown.lastfm.username
            &&& shown.lastfm.api_key == old_shown.lastfm.api_key
            &&& shown.librefm.connected == old_shown.librefm.connected
            &&& shown.librefm.username == old_shown.librefm.username
            &&& shown.listenbrainz.user_token == old_shown.listenbrainz.user_token
        }),
{
}

/// An account that was connected is shown as connected, under its name, and no other account and no
/// switch changes for it.
pub proof fn connected_accounts_are_shown(
    before: ScrobblingSettings,
    request: ScrobblingConnection,
    username: String,
    session_key: String,
    after: ScrobblingSettings,
)
    requires
        session_saved(before, request, username, session_key, after),
        session_key@.len() > 0,
    ensures
        ({
            let shown = preferences_of(after);
            let earlier = preferences_of(before);
            &&& request is LastFm ==> shown.lastfm.connected && shown.lastfm.username == username
                && shown.librefm == earlier.librefm
            &&& request is LibreFm ==> shown.librefm.connected && shown.librefm.username == username
                && shown.lastfm == earlier.lastfm
            &&& shown.listenbrainz == earlier.listenbrainz
            &&& shown.lastfm.enabled == earlier.lastfm.enabled && shown.librefm.enabled
                == earlier.librefm.enabled
        }),
{
}

/// Other keys end the session that was made with the old ones; the same keys keep it. What the user
/// types is kept without the space around it.
pub proof fn other_keys_end_the_session(
    before: ScrobblingSettings,
    preferences: ScrobblingPreferences,
    after: ScrobblingSettings,
)
    requires
        credentials_saved(before, preferences, after),
    ensures
        before.lastfm.api_key@ != preferences.lastfm.api_key@ || before.lastfm.api_secret@
            != preferences.lastfm.api_secret@ ==> !preferences_of(after).lastfm.connected,
        before.lastfm.api_key@ == preferences.lastfm.api_key@ && before.lastfm.api_secret@
            == preferences.lastfm.api_secret@ ==> preferences_of(after).lastfm.connected
            == preferences_of(before).lastfm.connected,
        preferences_of(after).lastfm.api_key@ == trimmed(preferences.lastfm.api_key@),
        preferences_of(after).listenbrainz.user_token@ == trimmed(
            preferences.listenbrainz.user_token@,
        ),
        preferences_of(after).librefm == preferences_of(before).librefm,
        preferences_of(after).lastfm.enabled == preferences_of(before).lastfm.enabled,
{
}

} // verus!
