//! What the player and its clients tell each other.

use vstd::prelude::*;

verus! {

/// How backups are made.
pub struct BackupSettings {
    pub enabled: bool,
    /// How many backups are kept.
    pub retention_count: u32,
    /// The schedule and the contents as they are written in the settings, where they are not the
    /// usual ones.
    pub schedule: Option<String>,
    pub destination_uri: Option<String>,
    pub contents: Option<String>,
    pub encrypt: bool,
}

impl Default for BackupSettings {
    fn default() -> (result: Self)
        ensures
            result == (BackupSettings {
                enabled: false,
                retention_count: 2,
                schedule: None,
                destination_uri: None,
                contents: None,
                encrypt: false,
            }),
    {
        BackupSettings {
            enabled: false,
            retention_count: 2,
            schedule: None,
            destination_uri: None,
            contents: None,
            encrypt: false,
        }
    }
}

/// The settings of backups as a file holds them: what an older version did not know is missing.
pub struct StoredBackupSettings {
    pub enabled: Option<bool>,
    pub retention_count: Option<u32>,
    pub schedule: Option<String>,
    pub destination_uri: Option<String>,
    pub contents: Option<String>,
    pub encrypt: Option<bool>,
}

impl BackupSettings {
    /// The settings that a file holds; what is missing is as usual.
    pub fn from_stored(stored: StoredBackupSettings) -> (result: Self)
        ensures
            result == (BackupSettings {
                enabled: stored.enabled == Some(true),
                retention_count: match stored.retention_count {
                    Some(count) => count,
                    None => 2,
                },
                schedule: stored.schedule,
                destination_uri: stored.destination_uri,
                contents: stored.contents,
                encrypt: stored.encrypt == Some(true),
            }),
    {
        let usual = BackupSettings::default();
        BackupSettings {
            enabled: match stored.enabled {
                Some(enabled) => enabled,
                None => usual.enabled,
            },
            retention_count: match stored.retention_count {
                Some(count) => count,
                None => usual.retention_count,
            },
            schedule: stored.schedule,
            destination_uri: stored.destination_uri,
            contents: stored.contents,
            encrypt: match stored.encrypt {
                Some(encrypt) => encrypt,
                None => usual.encrypt,
            },
        }
    }
}

/// What restoring a backup would do.
pub struct BackupPreview {
    pub removed_sources: Vec<String>,
}

pub struct ReleaseNote {
    pub version: String,
    pub date: String,
    pub url: String,
    pub body: String,
}

pub struct ReleaseHistory {
    pub notes: Vec<ReleaseNote>,
    pub installed_version: String,
    pub available_version: Option<String>,
    pub automatic_updates_supported: bool,
}

pub enum ReleaseUpdate {
    Refreshed { history: ReleaseHistory, notification_version: Option<String> },
    Updating { version: String },
    Updated { version: String, restart_required: bool },
    Failed { version: String, error: String },
    Restarting { version: String },
}

/// How much of a source's media can be read from this device's own files.
pub struct LocalAccessStatus {
    pub total_track_count: usize,
    pub matched_track_count: usize,
    pub sample_source_path: Option<String>,
}

impl Default for LocalAccessStatus {
    fn default() -> (result: Self)
        ensures
            result.total_track_count == 0,
            result.matched_track_count == 0,
            result.sample_source_path is None,
    {
        LocalAccessStatus { total_track_count: 0, matched_track_count: 0, sample_source_path: None }
    }
}

pub struct SourceSummary {
    pub id: String,
    pub kind: String,
    pub name: String,
    pub transcoded_download_bitrate_limit_kbps: Option<u32>,
    pub half_stars_enabled: bool,
}

pub struct LocalFolder {
    pub path: String,
}

#[derive(Clone, Copy, Debug, PartialEq, Eq, Structural)]
pub enum OpenSubsonicKind {
    Navidrome,
    OpenSubsonic,
}

pub struct CredentialInput {
    pub source_name: Option<String>,
    pub server_url: String,
    pub username: String,
    pub secret: String,
    pub trust_invalid_cert: bool,
}

#[derive(Clone, Copy, Debug, PartialEq, Eq, Structural)]
pub enum SourceProgressStage {
    Connecting,
    Albums,
    Tracks,
    Artists,
    Genres,
    Playlists,
    Home,
    Artwork,
    Files,
    Finalizing,
}

#[derive(Clone, Copy, Debug, PartialEq, Eq, Structural)]
pub struct SourceProgress {
    pub stage: SourceProgressStage,
    pub completed: usize,
    pub total: Option<usize>,
}

/// What is being done to the sources.
#[allow(inconsistent_fields)]
pub enum SourceOperation {
    Idle,
    Adding { progress: SourceProgress },
    Switching { target: String, progress: SourceProgress },
    Refreshing { source_id: String, progress: SourceProgress },
    Failed { source_id: Option<String>, message: String, add_form: bool },
}

impl SourceOperation {
    /// Whether the library cannot be used meanwhile.
    pub fn blocks_library(&self) -> (result: bool)
        ensures
            result == (self is Adding || self is Switching),
    {
        match self {
            SourceOperation::Adding { .. } => true,
            SourceOperation::Switching { .. } => true,
            _ => false,
        }
    }
}

#[derive(Clone, Copy, Debug, PartialEq, Eq, Structural)]
pub enum LibraryRefreshTrigger {
    GlobalAction,
    NewlyAdded,
}

pub enum DiscoveryStatus {
    Idle,
    Searching,
    Empty,
    Found(u64),
    Failed(String),
}

pub enum EmbyConnectLoginMethod {
    Password { username: String, password: String },
    Pin,
}

pub enum PlexLoginMethod {
    Browser,
    Password { username: String, password: String, verification_code: Option<String> },
}

/// A playlist of the library, or one that is made by rules, to be written to a file.
#[derive(Clone, Copy, Debug, PartialEq, Eq, Structural)]
pub enum PlaylistExport {
    Playlist(i64),
    Smart(i64),
}

} // verus!
