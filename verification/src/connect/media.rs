//! Shared track identity with device-owned files and encoding choices.

use vstd::prelude::*;
use vstd::string::*;
use vstd::utf8::*;

use crate::connect::settings::{folder_key, Encoding};
use crate::digest::{blake3_hash, hash, hex, hex_text};
use crate::paths::{hex_is_plain, is_no_dot, plain_names_go_below, verbatim_mark, PathStyle};
use crate::text::{
    chars_of, joined, joined_by, part, pieces, same, shown, string_of, CharClass,
};
use crate::textmap::TextMap;

verus! {

/// Why media cannot be had.
#[derive(Clone, Copy, Debug, PartialEq, Eq, Structural)]
pub enum MediaError {
    InvalidPath,
    NotInProfile,
    NotCaptured,
    NotLocal,
    OriginalUnavailable,
    OnlySmaller,
    Cancelled,
    OtherRepresentation,
    NoTransfer,
    FileMissing,
    NotAbsolute,
}

impl MediaError {
    pub open spec fn message(self) -> Seq<char> {
        match self {
            MediaError::InvalidPath => "The shared track has an invalid source-relative path"@,
            MediaError::NotInProfile => "The track is not in this profile"@,
            MediaError::NotCaptured => "The requested track is not the captured playback"@,
            MediaError::NotLocal => "The current item is not a local file"@,
            MediaError::OriginalUnavailable => "The original media is unavailable on this device"@,
            MediaError::OnlySmaller => "This device has only the smaller representation. Request it from a device with the original."@,
            MediaError::Cancelled => "Transfer cancelled"@,
            MediaError::OtherRepresentation => "The provider returned a different media representation"@,
            MediaError::NoTransfer => "The device did not provide a media transfer"@,
            MediaError::FileMissing => "The completed media file is missing"@,
            MediaError::NotAbsolute => "Media path must be absolute"@,
        }
    }

    pub fn text(self) -> (result: &'static str)
        ensures
            result@ == self.message(),
    {
        match self {
            MediaError::InvalidPath => "The shared track has an invalid source-relative path",
            MediaError::NotInProfile => "The track is not in this profile",
            MediaError::NotCaptured => "The requested track is not the captured playback",
            MediaError::NotLocal => "The current item is not a local file",
            MediaError::OriginalUnavailable => "The original media is unavailable on this device",
            MediaError::OnlySmaller => "This device has only the smaller representation. Request it from a device with the original.",
            MediaError::Cancelled => "Transfer cancelled",
            MediaError::OtherRepresentation => "The provider returned a different media representation",
            MediaError::NoTransfer => "The device did not provide a media transfer",
            MediaError::FileMissing => "The completed media file is missing",
            MediaError::NotAbsolute => "Media path must be absolute",
        }
    }
}

/// The text of the URL that `url::Url::from_file_path` makes of a path, on Windows and on every
/// other system, where there is one.
pub uninterp spec fn file_url_on(windows: bool, path: Seq<char>) -> Option<Seq<char>>;

/// What is known of the URL of a file: it starts with its scheme. Beside Windows, there is one
/// exactly for a path that starts at the root; no system has one for an empty path.
pub open spec fn is_file_url(windows: bool, path: Seq<char>, url: Option<Seq<char>>) -> bool {
    &&& !windows ==> (url is Some <==> path.len() > 0 && path[0] == '/')
    &&& path.len() == 0 ==> url is None
    &&& url matches Some(text) ==> text.len() >= 7 && text.take(7) == "file://"@
}

/// The URL is the one of the path, on the system that this is.
pub open spec fn file_url_of(path: Seq<char>, url: Option<Seq<char>>) -> bool {
    exists|windows: bool|
        url == #[trigger] file_url_on(windows, path) && is_file_url(windows, path, url)
}

/// `url::Url::from_file_path`: the URL of a file, where the path is absolute. On one system it
/// depends on the path alone; which system this is, and on Windows which paths are absolute, is not
/// stated, nor how the parts of a path are written.
#[verifier::external_body]
fn file_url(path: &str) -> (result: Option<String>)
    ensures
        exists|windows: bool|
            shown(result) == #[trigger] file_url_on(windows, path@) && is_file_url(
                windows,
                path@,
                shown(result),
            ),
{
    url::Url::from_file_path(path).ok().map(|url| url.to_string())
}

/// The URI of a local file. `file_uri_of` says what becomes of each URL.
pub fn file_uri(path: &str) -> (result: Result<String, MediaError>)
    ensures
        match result {
            Ok(uri) => file_url_of(path@, Some(uri@)),
            Err(error) => error == MediaError::NotAbsolute && file_url_of(path@, None),
        },
{
    file_uri_of(file_url(path))
}

/// The URI of a local file, from the URL of its path.
pub fn file_uri_of(url: Option<String>) -> (result: Result<String, MediaError>)
    ensures
        result == match url {
            Some(uri) => Ok::<String, MediaError>(uri),
            None => Err(MediaError::NotAbsolute),
        },
{
    match url {
        Some(uri) => Ok(uri),
        None => Err(MediaError::NotAbsolute),
    }
}

impl Encoding {
    pub open spec fn label(self) -> Seq<char> {
        match self {
            Encoding::Original => "original"@,
            Encoding::Mp3 => "mp3"@,
        }
    }

    pub fn name(self) -> (result: &'static str)
        ensures
            result@ == self.label(),
    {
        match self {
            Encoding::Original => "original",
            Encoding::Mp3 => "mp3",
        }
    }

    /// The encoding of a stored name; every other name means the original.
    pub fn named(name: &str) -> (result: Self)
        ensures
            result == if name@ == "mp3"@ {
                Encoding::Mp3
            } else {
                Encoding::Original
            },
    {
        if same(name, "mp3") {
            Encoding::Mp3
        } else {
            Encoding::Original
        }
    }
}

/// The place of a shared path below a root. A shared path is source-relative; it cannot select a
/// file outside the root.
pub fn corresponding_path(style: PathStyle, root: &str, relative: &str) -> (result: Result<
    String,
    MediaError,
>)
    ensures
        match result {
            Ok(path) => style.is_relative(relative@) && path@ == style.joined(root@, relative@),
            Err(error) => !style.is_relative(relative@) && error == MediaError::InvalidPath,
        },
{
    if !style.accepts(relative) {
        return Err(MediaError::InvalidPath);
    }
    Ok(style.join(root, relative))
}

/// How far a path leads down from where it starts: parts add one, `..` takes one away, and empty
/// parts and `.` count for nothing.
pub open spec fn depth(style: PathStyle, s: Seq<char>, upto: int) -> int
    decreases upto,
{
    if upto <= style.root(s) || upto > s.len() {
        0
    } else if style.separates(s[upto - 1]) {
        depth(style, s, upto - 1)
    } else {
        let from = style.part_start(s, upto);
        proof {
            parts_start_behind_separators(style, s, upto);
        }
        let before = depth(style, s, from);
        if upto - from == 2 && s[from] == '.' && s[from + 1] == '.' {
            before - 1
        } else if upto - from == 1 && s[from] == '.' {
            before
        } else {
            before + 1
        }
    }
}

/// A part starts behind a separator or where the path starts, and holds no separator.
pub proof fn parts_start_behind_separators(style: PathStyle, s: Seq<char>, upto: int)
    requires
        style.root(s) <= upto <= s.len(),
    ensures
        style.root(s) <= style.part_start(s, upto) <= upto,
        style.part_start(s, upto) == style.root(s) || style.separates(
            s[style.part_start(s, upto) - 1],
        ),
        forall|i: int| style.part_start(s, upto) <= i < upto ==> !style.separates(s[i]),
        upto > style.root(s) && !style.separates(s[upto - 1]) ==> style.part_start(s, upto) < upto,
    decreases upto,
{
    if upto > style.root(s) && !style.separates(s[upto - 1]) {
        parts_start_behind_separators(style, s, upto - 1);
    }
}

/// A shared path that is accepted never leaves its root, not even on the way: wherever a part ends,
/// the path is below the root or at it. The root itself is kept in front of it, unless it is one
/// that the system takes as it is written, whose parts are kept instead.
pub proof fn shared_paths_stay_below_the_root(
    style: PathStyle,
    root: Seq<char>,
    relative: Seq<char>,
    upto: int,
)
    requires
        style.is_relative(relative),
        0 <= upto <= relative.len(),
        upto == relative.len() || style.separates(relative[upto]),
    ensures
        depth(style, relative, upto) >= 0,
        !style.is_verbatim(root) ==> style.joined(root, relative).take(root.len() as int) == root,
        style.is_verbatim(root) ==> exists|below: Seq<Seq<char>>|
            style.joined(root, relative) == verbatim_mark() + #[trigger] joined_by(
                pieces(root, 4, CharClass::Only('\\')) + below,
                "\\"@,
            ),
    decreases upto,
{
    if !style.is_verbatim(root) {
        crate::paths::joined_stays_below(style, root, relative);
    }
    if style.is_verbatim(root) {
        let below = pieces(relative, 0, CharClass::Separator).filter(
            |part: Seq<char>| is_no_dot(part),
        );
        assert(style.joined(root, relative) == verbatim_mark() + joined_by(
            pieces(root, 4, CharClass::Only('\\')) + below,
            "\\"@,
        ));
    }
    assert(style.root(relative) == 0);
    if upto > 0 {
        if style.separates(relative[upto - 1]) {
            shared_paths_stay_below_the_root(style, root, relative, upto - 1);
        } else {
            let from = style.part_start(relative, upto);
            parts_start_behind_separators(style, relative, upto);
            if from > 0 {
                shared_paths_stay_below_the_root(style, root, relative, from - 1);
                assert(depth(style, relative, from) == depth(style, relative, from - 1));
            }
            if upto - from == 2 && relative[from] == '.' && relative[from + 1] == '.' {
                assert(style.up_at(relative, from));
                assert(style.leads_up(relative));
            }
            assert(depth(style, relative, 0) == 0);
            assert(depth(style, relative, from) >= 0);
        }
    }
}

/// The last dot of a name, where what stands before it is not empty.
pub open spec fn last_dot(s: Seq<char>, from: int, to: int) -> Option<int>
    decreases to - from,
{
    if to - 1 <= from {
        None
    } else if s[to - 1] == '.' {
        Some(to - 1)
    } else {
        last_dot(s, from, to - 1)
    }
}

/// The extension of a path, or nothing.
pub open spec fn extension_of(style: PathStyle, s: Seq<char>) -> Seq<char> {
    match style.file_name(s) {
        Some((from, end)) => match last_dot(s, from, end) {
            Some(dot) => s.subrange(dot + 1, end),
            None => seq![],
        },
        None => seq![],
    }
}

/// The path with another extension; without one where the extension is empty.
pub open spec fn with_extension(style: PathStyle, s: Seq<char>, extension: Seq<char>) -> Seq<
    char,
> {
    match style.file_name(s) {
        Some((from, end)) => {
            let stem = match last_dot(s, from, end) {
                Some(dot) => s.take(dot),
                None => s.take(end),
            };
            if extension.len() == 0 {
                stem
            } else {
                stem + "."@ + extension
            }
        },
        None => s,
    }
}

/// The name of the file at the end of a path, and the last dot in it.
struct NamePlace {
    from: usize,
    end: usize,
    dot: Option<usize>,
}

fn place_name(style: PathStyle, chars: &[char]) -> (result: Option<NamePlace>)
    ensures
        match result {
            Some(place) => style.file_name(chars@) == Some((place.from as int, place.end as int))
                && place.from < place.end <= chars@.len() && match place.dot {
                Some(dot) => last_dot(chars@, place.from as int, place.end as int) == Some(
                    dot as int,
                ) && place.from < dot < place.end,
                None => last_dot(chars@, place.from as int, place.end as int) is None,
            },
            None => style.file_name(chars@) is None,
        },
{
    let (from, end): (usize, usize) = match style.name_place(chars) {
        Some(place) => place,
        None => {
            return None;
        },
    };
    let mut at: usize = end;
    while at - 1 > from && chars[at - 1] != '.'
        invariant
            from < at <= end <= chars@.len(),
            last_dot(chars@, from as int, end as int) == last_dot(chars@, from as int, at as int),
        decreases at,
    {
        at -= 1;
    }
    let dot: Option<usize> = if at - 1 > from {
        Some(at - 1)
    } else {
        None
    };
    Some(NamePlace { from, end, dot })
}

pub fn path_extension(style: PathStyle, path: &str) -> (result: String)
    ensures
        result@ == extension_of(style, path@),
{
    let chars = chars_of(path);
    match place_name(style, &chars) {
        Some(place) => match place.dot {
            Some(dot) => string_of(&part(&chars, dot + 1, place.end)),
            None => String::new(),
        },
        None => String::new(),
    }
}

pub fn set_extension(style: PathStyle, path: &str, extension: &str) -> (result: String)
    ensures
        result@ == with_extension(style, path@, extension@),
{
    let chars = chars_of(path);
    match place_name(style, &chars) {
        Some(place) => {
            let stem_end: usize = match place.dot {
                Some(dot) => dot,
                None => place.end,
            };
            let stem = part(&chars, 0, stem_end);
            assert(stem@ =~= chars@.take(stem_end as int));
            let mut result = string_of(&stem);
            if !extension.is_empty() {
                result.append(".");
                result.append(extension);
            }
            result
        },
        None => path.to_owned(),
    }
}

/// The identity of one representation of a track's media.
pub open spec fn key_of(uri: Seq<char>, revision: Seq<char>, encoding: Encoding) -> Seq<char> {
    hex(blake3_hash(encode_utf8(uri + "\0"@ + revision + "\0"@ + encoding.label())))
}

pub fn media_key(uri: &str, revision: &str, encoding: Encoding) -> (result: String)
    ensures
        result@ == key_of(uri@, revision@, encoding),
        result@.len() == 64,
{
    let mut text = joined(uri, "\0");
    text.append(revision);
    text.append("\0");
    text.append(encoding.name());
    let digest = hash(text.as_str().as_bytes());
    hex_text(&digest)
}

/// The extension that tells a representation apart: the start of its key, and the format.
pub open spec fn versioned_extension(key: Seq<char>, format: Seq<char>) -> Seq<char> {
    key.take(12) + "."@ + format
}

fn key_extension(uri: &str, revision: &str, encoding: Encoding, format: &str) -> (result: String)
    ensures
        result@ == versioned_extension(key_of(uri@, revision@, encoding), format@),
{
    let key = chars_of(media_key(uri, revision, encoding).as_str());
    let start = part(&key, 0, 12);
    assert(start@ =~= key@.take(12));
    let mut extension = string_of(&start);
    extension.append(".");
    extension.append(format);
    extension
}

/// The place beside a path for a file that must not overwrite it.
pub open spec fn versioned(
    style: PathStyle,
    path: Seq<char>,
    uri: Seq<char>,
    revision: Seq<char>,
    encoding: Encoding,
) -> Seq<char> {
    with_extension(
        style,
        path,
        versioned_extension(key_of(uri, revision, encoding), extension_of(style, path)),
    )
}

pub fn versioned_path(
    style: PathStyle,
    path: &str,
    uri: &str,
    revision: &str,
    encoding: Encoding,
) -> (result: String)
    ensures
        result@ == versioned(style, path@, uri@, revision@, encoding),
{
    let format = path_extension(style, path);
    let extension = key_extension(uri, revision, encoding, format.as_str());
    set_extension(style, path, extension.as_str())
}

/// The name of a running transfer to a peer.
pub fn serving_key(peer: &str, id: &str) -> (result: String)
    ensures
        result@ == "serve/"@ + peer@ + "/"@ + id@,
{
    let mut key = joined("serve/", peer);
    key.append("/");
    key.append(id);
    key
}

/// The name of a running download.
pub fn download_key(uri: &str) -> (result: String)
    ensures
        result@ == "download/"@ + uri@,
{
    joined("download/", uri)
}

/// The name under which a representation is offered to other devices.
pub fn published_name(key: &str) -> (result: String)
    ensures
        result@ == "media/"@ + key@,
{
    joined("media/", key)
}

/// The place below the Connect directory for a smaller representation that this device prepares.
pub open spec fn prepared_place(
    style: PathStyle,
    directory: Seq<char>,
    uri: Seq<char>,
    revision: Seq<char>,
) -> Seq<char> {
    style.joined(
        style.joined(directory, "representations"@),
        key_of(uri, revision, Encoding::Mp3) + ".mp3"@,
    )
}

pub fn prepared_path(style: PathStyle, directory: &str, uri: &str, revision: &str) -> (result:
    String)
    ensures
        result@ == prepared_place(style, directory@, uri@, revision@),
{
    let name = joined(media_key(uri, revision, Encoding::Mp3).as_str(), ".mp3");
    proof {
        reveal_strlit("..");
        reveal_strlit("representations");
        reveal_strlit(".mp3");
        assert("representations"@.len() == 15 && ".."@.len() == 2);
        plain_names_go_below(style, "representations"@);
        let bytes = blake3_hash(
            encode_utf8(uri@ + "\0"@ + revision@ + "\0"@ + Encoding::Mp3.label()),
        );
        hex_is_plain(bytes);
        assert forall|i: int| 0 <= i < name@.len() implies !CharClass::Separator.has(
            #[trigger] name@[i],
        ) by {
            if i < hex(bytes).len() {
                assert(name@[i] == hex(bytes)[i]);
            } else {
                assert(name@[i] == ".mp3"@[i - hex(bytes).len()]);
            }
        }
        assert(name@.len() > 2);
        plain_names_go_below(style, name@);
    }
    let folder = style.join(directory, "representations");
    style.join(folder.as_str(), name.as_str())
}

/// What a profile tells of a track.
pub struct TrackReference {
    pub source_id: Option<String>,
    pub root_id: Option<String>,
    pub root_count: Option<u64>,
    pub relative_path: Option<String>,
    pub source_format: Option<String>,
    /// The revision of the media, as it is written in the profile.
    pub revision: String,
}

/// The folder of this device that stands for a track's source: that of its root, or that of a
/// source with one root at most.
pub open spec fn root_of(folders: Map<Seq<char>, String>, reference: TrackReference) -> Option<
    Seq<char>,
> {
    match reference.source_id {
        None => None,
        Some(source) => if reference.root_id matches Some(root) && folders.dom().contains(
            folder_key(source@, reference.root_id),
        ) {
            Some(folders[folder_key(source@, reference.root_id)]@)
        } else if (reference.root_count is None || reference.root_count->0 <= 1)
            && folders.dom().contains(source@) {
            Some(folders[source@]@)
        } else {
            None
        },
    }
}

pub fn mapped_root<'a>(folders: &'a TextMap<String>, reference: &TrackReference) -> (result: Option<
    &'a String,
>)
    requires
        folders.wf(),
    ensures
        match result {
            Some(root) => root_of(folders@, *reference) == Some(root@),
            None => root_of(folders@, *reference) is None,
        },
{
    let source = match &reference.source_id {
        Some(source) => source,
        None => {
            return None;
        },
    };
    if let Some(root) = &reference.root_id {
        let mut key = joined(source.as_str(), "/");
        key.append(root.as_str());
        if let Some(path) = folders.get(key.as_str()) {
            return Some(path);
        }
    }
    let single: bool = match reference.root_count {
        Some(count) => count <= 1,
        None => true,
    };
    if single {
        folders.get(source.as_str())
    } else {
        None
    }
}

/// The place that a user chose for a track's media: below the folder of its source, or nowhere.
pub open spec fn selected_place(
    style: PathStyle,
    folders: Map<Seq<char>, String>,
    uri: Seq<char>,
    encoding: Encoding,
    is_cue: bool,
    reference: TrackReference,
) -> Result<Option<Seq<char>>, MediaError> {
    match (root_of(folders, reference), reference.relative_path) {
        (Some(root), Some(relative)) => if !style.is_relative(relative@) {
            Err(MediaError::InvalidPath)
        } else {
            let path = style.joined(root, relative@);
            if encoding == Encoding::Original && !is_cue {
                Ok(Some(path))
            } else {
                let format = if encoding == Encoding::Mp3 {
                    "mp3"@
                } else {
                    match reference.source_format {
                        Some(format) => format@,
                        None => "audio"@,
                    }
                };
                Ok(
                    Some(
                        with_extension(
                            style,
                            path,
                            versioned_extension(
                                key_of(uri, reference.revision@, encoding),
                                format,
                            ),
                        ),
                    ),
                )
            }
        },
        _ => Ok(None),
    }
}

pub open spec fn place_shown(place: Result<Option<String>, MediaError>) -> Result<
    Option<Seq<char>>,
    MediaError,
> {
    match place {
        Ok(path) => Ok(shown(path)),
        Err(error) => Err(error),
    }
}

/// The place for a track's media. A track of a cue sheet, or one that is not the original, gets a
/// name of its own.
pub fn selected_media_path(
    style: PathStyle,
    folders: &TextMap<String>,
    uri: &str,
    encoding: Encoding,
    is_cue: bool,
    reference: &TrackReference,
) -> (result: Result<Option<String>, MediaError>)
    requires
        folders.wf(),
    ensures
        place_shown(result) == selected_place(
            style,
            folders@,
            uri@,
            encoding,
            is_cue,
            *reference,
        ),
{
    let root = match mapped_root(folders, reference) {
        Some(root) => root,
        None => {
            return Ok(None);
        },
    };
    let relative = match &reference.relative_path {
        Some(relative) => relative,
        None => {
            return Ok(None);
        },
    };
    let path = match corresponding_path(style, root.as_str(), relative.as_str()) {
        Ok(path) => path,
        Err(error) => {
            return Err(error);
        },
    };
    if encoding == Encoding::Original && !is_cue {
        return Ok(Some(path));
    }
    let format: &str = if encoding == Encoding::Mp3 {
        "mp3"
    } else {
        match &reference.source_format {
            Some(format) => format.as_str(),
            None => "audio",
        }
    };
    let extension = key_extension(uri, reference.revision.as_str(), encoding, format);
    Ok(Some(set_extension(style, path.as_str(), extension.as_str())))
}

/// A media file that this device has.
pub struct MediaFile {
    pub media_uri: String,
    pub encoding: Encoding,
    pub revision: String,
    /// The URI under which the file is kept.
    pub place: String,
    /// The file on this device, where it is still there.
    pub path: Option<String>,
    /// The file was put there by Rufin, not by the user.
    pub managed: bool,
    pub hash: Option<String>,
}

impl MediaFile {
    /// A file that is there, to be kept under the URI of its path.
    pub fn kept(
        media_uri: &str,
        encoding: Encoding,
        revision: &str,
        path: &str,
        managed: bool,
        hash: Option<String>,
    ) -> (result: Result<Self, MediaError>)
        ensures
            match result {
                Ok(file) => {
                    &&& file_url_of(path@, Some(file.place@))
                    &&& file.media_uri@ == media_uri@ && file.encoding == encoding
                    &&& file.revision@ == revision@ && shown(file.path) == Some(path@)
                    &&& file.managed == managed && file.hash == hash
                },
                Err(error) => error == MediaError::NotAbsolute && file_url_of(path@, None),
            },
    {
        let place = match file_uri(path) {
            Ok(place) => place,
            Err(error) => {
                return Err(error);
            },
        };
        Ok(
            MediaFile {
                media_uri: media_uri.to_owned(),
                encoding,
                revision: revision.to_owned(),
                place,
                path: Some(path.to_owned()),
                managed,
                hash,
            },
        )
    }

    /// The file stands at the path.
    pub open spec fn at(&self, style: PathStyle, path: Seq<char>) -> bool {
        self.path matches Some(own) && style.same_path(own@, path)
    }

    pub fn is_at(&self, style: PathStyle, path: &str) -> (result: bool)
        ensures
            result == self.at(style, path@),
    {
        match &self.path {
            Some(own) => style.is_same(own.as_str(), path),
            None => false,
        }
    }
}

/// Where media that was received is put.
pub struct StoreTarget {
    pub path: String,
    /// The place holds the earlier file of the same representation, which Rufin may overwrite.
    pub owned: bool,
}

/// The chosen place, or the given one.
pub open spec fn first_target(selected: Option<String>, destination: Seq<char>) -> Seq<char> {
    match selected {
        Some(path) => path@,
        None => destination,
    }
}

/// The earlier file makes the new one go beside it: it is the user's and of another revision, or
/// it is Rufin's and stands there already.
pub open spec fn goes_beside(
    style: PathStyle,
    previous: MediaFile,
    revision: Seq<char>,
    target: Seq<char>,
    beside: Seq<char>,
) -> bool {
    (!previous.managed && previous.revision@ != revision && previous.at(style, target)) || (
    previous.managed && previous.at(style, beside))
}

pub open spec fn target_of(
    style: PathStyle,
    file: MediaFile,
    selected: Option<String>,
    destination: Seq<char>,
    previous: Option<MediaFile>,
) -> Seq<char> {
    let target = first_target(selected, destination);
    let beside = versioned(style, target, file.media_uri@, file.revision@, file.encoding);
    if previous matches Some(old) && goes_beside(style, old, file.revision@, target, beside) {
        beside
    } else {
        target
    }
}

pub fn store_target(
    style: PathStyle,
    file: &MediaFile,
    selected: &Option<String>,
    destination: &str,
    previous: &Option<MediaFile>,
) -> (result: StoreTarget)
    ensures
        result.path@ == target_of(style, *file, *selected, destination@, *previous),
        result.owned == (previous matches Some(old) && old.managed && old.at(style, result.path@)),
{
    let mut target = match selected {
        Some(path) => path.clone(),
        None => destination.to_owned(),
    };
    let beside = versioned_path(
        style,
        target.as_str(),
        file.media_uri.as_str(),
        file.revision.as_str(),
        file.encoding,
    );
    let mut owned: bool = false;
    if let Some(old) = previous {
        let aside: bool = (!old.managed && !same(old.revision.as_str(), file.revision.as_str())
            && old.is_at(style, target.as_str())) || (old.managed && old.is_at(style, beside.as_str()));
        if aside {
            target = beside;
        }
        owned = old.managed && old.is_at(style, target.as_str());
    }
    StoreTarget { path: target, owned }
}

/// What is done to put received media in its place.
pub enum StoreAction {
    /// The file is where it belongs.
    Keep,
    /// A file of the user stands there and is taken as it is.
    Reuse,
    /// The file is copied; only Rufin's own file is overwritten.
    Copy { to: String, overwrite: bool },
}

/// How received media is stored.
pub struct Store {
    pub action: StoreAction,
    /// Whether Rufin owns the file in the end.
    pub managed: bool,
    /// The hash of the transfer no longer describes the file.
    pub forget_hash: bool,
    /// The received file is removed afterwards.
    pub remove_source: bool,
}

/// A file of the user at the chosen place stands in for the original.
pub open spec fn reuses(
    style: PathStyle,
    file: MediaFile,
    selected: bool,
    source: Seq<char>,
    target: StoreTarget,
    target_is_file: bool,
) -> bool {
    file.encoding == Encoding::Original && selected && !style.same_path(
        target.path@,
        source,
    ) && target_is_file
        && !target.owned
}

/// The last place of the file: beside the target where that is taken by a file of the user.
pub open spec fn copied_to(
    style: PathStyle,
    file: MediaFile,
    target: StoreTarget,
    target_exists: bool,
) -> Seq<char> {
    if target_exists && !target.owned {
        versioned(style, target.path@, file.media_uri@, file.revision@, file.encoding)
    } else {
        target.path@
    }
}

/// Decides how received media is stored. A revised original does not overwrite a file that the
/// user supplied.
pub fn store_media(
    style: PathStyle,
    file: &MediaFile,
    selected: bool,
    source: &str,
    target: &StoreTarget,
    target_is_file: bool,
    target_exists: bool,
) -> (result: Store)
    ensures
        match result.action {
            StoreAction::Reuse => reuses(style, *file, selected, source@, *target, target_is_file)
                && !result.managed && result.forget_hash && result.remove_source == file.managed,
            StoreAction::Keep => style.same_path(target.path@, source@) && result.managed == file.managed
                && !result.forget_hash && !result.remove_source,
            StoreAction::Copy { to, overwrite } => {
                &&& !style.same_path(target.path@, source@) && !reuses(
                    style,
                    *file,
                    selected,
                    source@,
                    *target,
                    target_is_file,
                )
                &&& to@ == copied_to(style, *file, *target, target_exists)
                &&& overwrite == target.owned
                &&& result.managed && !result.forget_hash
                &&& result.remove_source == (!style.same_path(to@, source@) && file.managed)
            },
        },
{
    let moved: bool = !style.is_same(target.path.as_str(), source);
    if file.encoding == Encoding::Original && selected && moved && target_is_file && !target.owned {
        return Store {
            action: StoreAction::Reuse,
            managed: false,
            forget_hash: true,
            remove_source: file.managed,
        };
    }
    if !moved {
        return Store {
            action: StoreAction::Keep,
            managed: file.managed,
            forget_hash: false,
            remove_source: false,
        };
    }
    let to = if target_exists && !target.owned {
        versioned_path(
            style,
            target.path.as_str(),
            file.media_uri.as_str(),
            file.revision.as_str(),
            file.encoding,
        )
    } else {
        target.path.clone()
    };
    let remove_source: bool = !style.is_same(to.as_str(), source) && file.managed;
    Store {
        action: StoreAction::Copy { to, overwrite: target.owned },
        managed: true,
        forget_hash: false,
        remove_source,
    }
}

/// A file is overwritten only where it is the earlier one that Rufin itself put there.
pub proof fn files_of_the_user_are_kept(
    style: PathStyle,
    target: StoreTarget,
    previous: Option<MediaFile>,
    overwrite: bool,
)
    requires
        target.owned == (previous matches Some(old) && old.managed && old.at(style, target.path@)),
        overwrite == target.owned,
    ensures
        overwrite ==> previous is Some && previous->0.managed && previous->0.at(style, target.path@),
{
}

/// Whether the earlier file of the same representation is removed and forgotten once another one is
/// stored: where Rufin put it, and not at the same place.
pub fn removes_previous(previous: &MediaFile, place: &str) -> (result: bool)
    ensures
        result == (previous.managed && previous.place@ != place@),
{
    previous.managed && !same(previous.place.as_str(), place)
}

/// Whether another representation of the same track is removed once this one is stored, and
/// whether its file goes too.
pub fn removes_other(other: &MediaFile, encoding: Encoding, place: &str) -> (result: Option<
    bool,
>)
    ensures
        result == if other.managed && other.encoding != encoding {
            Some(other.place@ != place@)
        } else {
            None
        },
{
    if other.managed && other.encoding != encoding {
        Some(!same(other.place.as_str(), place))
    } else {
        None
    }
}

/// The captured playback that lets a peer have a file outside the collection: the one it names, or
/// the one that was offered to it in the last five minutes. Times count milliseconds.
pub fn captured_occurrence(
    named: Option<String>,
    offered: Option<(u64, String)>,
) -> (result: Result<String, MediaError>)
    ensures
        result == match (named, offered) {
            (Some(occurrence), _) => Ok::<String, MediaError>(occurrence),
            (None, Some((age, current))) => if age < 300000 {
                Ok(current)
            } else {
                Err(MediaError::NotInProfile)
            },
            (None, None) => Err(MediaError::NotInProfile),
        },
{
    match named {
        Some(occurrence) => Ok(occurrence),
        None => match offered {
            Some((age, current)) => if age < 300000 {
                Ok(current)
            } else {
                Err(MediaError::NotInProfile)
            },
            None => Err(MediaError::NotInProfile),
        },
    }
}

/// What is known of a file that is played but not in the collection.
pub struct DirectFile {
    /// The media of the captured playback, where it is still in the queue.
    pub item_uri: Option<String>,
    /// The playback was received from another device.
    pub received: bool,
    /// The file behind the URI, where it is one on this device.
    pub file: Option<String>,
}

/// What is known when a peer asks for media.
pub struct ServeFacts {
    pub uri: String,
    pub encoding: Encoding,
    /// The revision of a track of the profile, or of the file that is played.
    pub revision: Option<String>,
    /// Set for a file that is not in the collection.
    pub direct: Option<DirectFile>,
    /// The file of the wanted representation.
    pub saved: Option<MediaFile>,
    /// The file of the original representation.
    pub original_receipt: Option<MediaFile>,
    /// The file of the smaller representation.
    pub smaller: Option<MediaFile>,
    /// The original in the collection, and any local file of the track.
    pub original_file: Option<String>,
    pub local_file: Option<String>,
}

/// How a request for media is served.
pub enum Serve {
    /// A file that was offered before, by its hash.
    Offer { hash: String, revision: String, path: String },
    /// The original is offered; for a smaller representation it is prepared first.
    Produce { original: String, managed: bool },
}

/// A file that can be offered again, of whatever revision it is.
pub open spec fn offered_before(saved: Option<MediaFile>) -> bool {
    saved matches Some(file) && file.path is Some && file.hash is Some
}

/// A file of the wanted revision that can be offered again.
pub open spec fn offers_again(saved: Option<MediaFile>, revision: Option<Seq<char>>) -> bool {
    offered_before(saved) && revision == Some(saved->0.revision@)
}

/// The file that is served for one outside the collection.
pub open spec fn direct_path(direct: DirectFile, local_file: Option<String>) -> Option<String> {
    if !direct.received && direct.file is Some {
        direct.file
    } else {
        local_file
    }
}

/// The original that is served.
pub open spec fn original_of(facts: ServeFacts) -> Option<String> {
    match facts.direct {
        Some(direct) => direct_path(direct, facts.local_file),
        None => if facts.original_file is Some {
            facts.original_file
        } else if facts.original_receipt matches Some(receipt) && receipt.path is Some
            && shown(facts.revision) == Some(receipt.revision@) {
            facts.original_receipt->0.path
        } else {
            facts.local_file
        },
    }
}

pub open spec fn serve_error(style: PathStyle, facts: ServeFacts) -> Option<MediaError> {
    match facts.direct {
        Some(direct) => if shown(direct.item_uri) != Some(facts.uri@) {
            Some(MediaError::NotCaptured)
        } else if direct.received && offered_before(facts.saved) {
            None
        } else if direct_path(direct, facts.local_file) is None {
            Some(MediaError::NotLocal)
        } else {
            later_error(style, facts)
        },
        None => if facts.revision is None {
            Some(MediaError::NotInProfile)
        } else {
            later_error(style, facts)
        },
    }
}

pub open spec fn later_error(style: PathStyle, facts: ServeFacts) -> Option<MediaError> {
    if offers_again(facts.saved, shown(facts.revision)) {
        None
    } else if original_of(facts) is None {
        Some(MediaError::OriginalUnavailable)
    } else if facts.smaller matches Some(smaller) && smaller.at(style, original_of(facts)->0@) {
        Some(MediaError::OnlySmaller)
    } else {
        None
    }
}

/// The request is served from a file that was offered before.
pub open spec fn serves_saved(facts: ServeFacts) -> bool {
    (facts.direct matches Some(direct) && direct.received && offered_before(facts.saved))
        || offers_again(facts.saved, shown(facts.revision))
}

/// Decides how a peer's request for media is served. Files outside the collection are served only
/// to a peer that continues their playback, never by a path that it names, and a smaller
/// representation never stands in for an original.
pub fn serve_media(style: PathStyle, facts: &ServeFacts) -> (result: Result<Serve, MediaError>)
    ensures
        match result {
            Ok(Serve::Offer { hash, revision, path }) => serve_error(style, *facts) is None
                && serves_saved(*facts) && facts.saved->0.hash == Some(hash) && facts.saved->0.path
                == Some(path) && revision == facts.saved->0.revision,
            Ok(Serve::Produce { original, managed }) => serve_error(style, *facts) is None
                && !serves_saved(*facts) && original_of(*facts) == Some(original) && managed == (
            facts.encoding != Encoding::Original || (facts.original_receipt matches Some(receipt)
                && receipt.managed && receipt.at(style, original@))),
            Err(error) => serve_error(style, *facts) == Some(error),
        },
{
    if let Some(direct) = &facts.direct {
        let captured: bool = match &direct.item_uri {
            Some(uri) => same(uri.as_str(), facts.uri.as_str()),
            None => false,
        };
        if !captured {
            return Err(MediaError::NotCaptured);
        }
        if direct.received {
            if let Some(offer) = offer_saved(&facts.saved) {
                return Ok(offer);
            }
        }
        let found: bool = (!direct.received && direct.file.is_some()) || facts.local_file.is_some();
        if !found {
            return Err(MediaError::NotLocal);
        }
    } else if facts.revision.is_none() {
        return Err(MediaError::NotInProfile);
    }
    if is_of_revision(&facts.saved, &facts.revision) {
        if let Some(offer) = offer_saved(&facts.saved) {
            return Ok(offer);
        }
    }
    let original = match find_original(facts) {
        Some(original) => original,
        None => {
            return Err(MediaError::OriginalUnavailable);
        },
    };
    if let Some(smaller) = &facts.smaller {
        if smaller.is_at(style, original.as_str()) {
            return Err(MediaError::OnlySmaller);
        }
    }
    let own: bool = match &facts.original_receipt {
        Some(receipt) => receipt.managed && receipt.is_at(style, original.as_str()),
        None => false,
    };
    Ok(Serve::Produce { original, managed: facts.encoding != Encoding::Original || own })
}

fn is_of_revision(saved: &Option<MediaFile>, revision: &Option<String>) -> (result: bool)
    ensures
        result == (saved matches Some(file) && shown(*revision) == Some(file.revision@)),
{
    match (saved, revision) {
        (Some(file), Some(revision)) => same(file.revision.as_str(), revision.as_str()),
        _ => false,
    }
}

fn offer_saved(saved: &Option<MediaFile>) -> (result: Option<Serve>)
    ensures
        match result {
            Some(Serve::Offer { hash, revision, path }) => offered_before(*saved) && saved->0.hash
                == Some(hash) && saved->0.path == Some(path) && revision == saved->0.revision,
            Some(_) => false,
            None => !offered_before(*saved),
        },
{
    let file = match saved {
        Some(file) => file,
        None => {
            return None;
        },
    };
    match (&file.path, &file.hash) {
        (Some(path), Some(hash)) => Some(
            Serve::Offer {
                hash: hash.clone(),
                revision: file.revision.clone(),
                path: path.clone(),
            },
        ),
        _ => None,
    }
}

fn copy_path(path: &Option<String>) -> (result: Option<String>)
    ensures
        result == *path,
{
    match path {
        Some(path) => Some(path.clone()),
        None => None,
    }
}

/// The file that is served for one outside the collection: the one behind the URI where it is
/// played here, else a local file of the track.
pub fn direct_source(direct: &DirectFile, local_file: &Option<String>) -> (result: Option<String>)
    ensures
        result == direct_path(*direct, *local_file),
{
    if !direct.received && direct.file.is_some() {
        copy_path(&direct.file)
    } else {
        copy_path(local_file)
    }
}

fn find_original(facts: &ServeFacts) -> (result: Option<String>)
    ensures
        result == original_of(*facts),
{
    if let Some(direct) = &facts.direct {
        return direct_source(direct, &facts.local_file);
    }
    if facts.original_file.is_some() {
        return copy_path(&facts.original_file);
    }
    if let Some(receipt) = &facts.original_receipt {
        let current: bool = match &facts.revision {
            Some(revision) => same(revision.as_str(), receipt.revision.as_str()),
            None => false,
        };
        if current && receipt.path.is_some() {
            return copy_path(&receipt.path);
        }
    }
    copy_path(&facts.local_file)
}

/// A smaller file is never offered as an original.
pub proof fn smaller_files_are_no_originals(style: PathStyle, facts: ServeFacts, original: String)
    requires
        serve_error(style, facts) is None,
        !serves_saved(facts),
        original_of(facts) == Some(original),
    ensures
        !(facts.smaller matches Some(smaller) && smaller.at(style, original@)),
{
}

/// A file that is not in the collection goes only to a peer whose captured playback it is.
pub proof fn only_captured_files_are_served(style: PathStyle, facts: ServeFacts)
    requires
        facts.direct is Some,
        serve_error(style, facts) is None,
    ensures
        shown(facts.direct->0.item_uri) == Some(facts.uri@),
{
}

/// Received media goes to the place that the user chose, or else to the one that was planned; where
/// that would take the place of a file of the user's, or is beside the chosen place already, it goes
/// beside it, under a name of its own.
pub proof fn received_media_goes_to_its_place(
    style: PathStyle,
    file: MediaFile,
    selected: Option<String>,
    destination: Seq<char>,
    previous: Option<MediaFile>,
)
    ensures
        ({
            let wanted = match selected {
                Some(path) => path@,
                None => destination,
            };
            let place = target_of(style, file, selected, destination, previous);
            &&& place == wanted || place == versioned(
                style,
                wanted,
                file.media_uri@,
                file.revision@,
                file.encoding,
            )
            &&& previous is None ==> place == wanted
            &&& previous matches Some(old) ==> (!old.managed && old.revision@ == file.revision@
                ==> place == wanted)
            &&& previous matches Some(old) ==> (!old.managed && old.revision@ != file.revision@
                && old.at(style, wanted) ==> place != wanted || versioned(
                style,
                wanted,
                file.media_uri@,
                file.revision@,
                file.encoding,
            ) == wanted)
        }),
{
}

/// A file that is there already and is not Rufin's own is never written to: the media is copied
/// beside it, or the file of the user is taken instead.
pub proof fn copies_spare_other_files(
    style: PathStyle,
    file: MediaFile,
    target: StoreTarget,
    target_exists: bool,
)
    ensures
        target_exists && !target.owned ==> copied_to(style, file, target, target_exists) == versioned(
            style,
            target.path@,
            file.media_uri@,
            file.revision@,
            file.encoding,
        ),
        !target_exists || target.owned ==> copied_to(style, file, target, target_exists)
            == target.path@,
{
}

/// A file of the user stands in for received media only as the original, at the place that the user
/// chose, where it is another file than the received one, and not one of Rufin's.
pub proof fn only_originals_are_replaced_by_files_of_the_user(
    style: PathStyle,
    file: MediaFile,
    selected: bool,
    source: Seq<char>,
    target: StoreTarget,
    target_is_file: bool,
)
    ensures
        reuses(style, file, selected, source, target, target_is_file) <==> {
            &&& file.encoding != Encoding::Mp3
            &&& selected
            &&& target_is_file
            &&& !target.owned
            &&& !style.same_path(target.path@, source)
        },
{
}

/// What is served is, of a track of the collection, the original there, or the one that was received
/// of the wanted revision, or any local file, in this order; of any other, the file behind the
/// captured playback, or a local file of it.
pub proof fn originals_are_served_before_copies(facts: ServeFacts)
    ensures
        facts.direct is None ==> {
            &&& facts.original_file is Some ==> original_of(facts) == facts.original_file
            &&& facts.original_file is None && (facts.original_receipt matches Some(receipt)
                && receipt.path is Some && (facts.revision matches Some(revision)
                && receipt.revision@ == revision@)) ==> original_of(facts) == facts.original_receipt->0.path
            &&& facts.original_file is None && facts.original_receipt is None ==> original_of(facts)
                == facts.local_file
            &&& facts.original_file is None && (facts.original_receipt matches Some(receipt) && (
            facts.revision matches Some(revision) && receipt.revision@ != revision@))
                ==> original_of(facts) == facts.local_file
        },
        facts.direct matches Some(direct) ==> {
            &&& !direct.received && direct.file is Some ==> original_of(facts) == direct.file
            &&& direct.received || direct.file is None ==> original_of(facts) == facts.local_file
        },
{
}

/// A request is refused exactly where there is nothing to be served to that peer: the media is not in
/// the profile and not what it continues, or not on this device, or only in its smaller form.
pub proof fn requests_are_refused_where_nothing_can_be_served(style: PathStyle, facts: ServeFacts)
    ensures
        ({
            let ready = facts.saved matches Some(saved) && saved.path is Some && saved.hash is Some
                && (facts.revision matches Some(revision) && saved.revision@ == revision@);
            let smaller = original_of(facts) is Some && (facts.smaller matches Some(smaller)
                && smaller.at(style, original_of(facts)->0@));
            &&& facts.direct is None ==> (serve_error(style, facts) is None <==> facts.revision is Some
                && (ready || (original_of(facts) is Some && !smaller)))
            &&& facts.direct is None && facts.revision is None ==> serve_error(style, facts) == Some(
                MediaError::NotInProfile,
            )
            &&& facts.direct matches Some(direct) ==> (serve_error(style, facts) is None ==> (
            direct.item_uri matches Some(uri) && uri@ == facts.uri@))
            &&& serve_error(style, facts) == Some(MediaError::OnlySmaller) ==> smaller
            &&& serve_error(style, facts) == Some(MediaError::OriginalUnavailable) ==> original_of(
                facts,
            ) is None
        }),
{
}

/// The folder for a track is that of its own root where one was chosen, and else that of the whole
/// source, which stands for a root only where the source has no other.
pub proof fn roots_come_before_sources(folders: Map<Seq<char>, String>, reference: TrackReference)
    ensures
        reference.source_id is None ==> root_of(folders, reference) is None,
        reference.source_id matches Some(source) ==> {
            &&& reference.root_id matches Some(root) ==> (folders.dom().contains(
                source@ + "/"@ + root@,
            ) ==> root_of(folders, reference) == Some(folders[source@ + "/"@ + root@]@))
            &&& reference.root_id is None && folders.dom().contains(source@) && (
            reference.root_count is None || reference.root_count->0 <= 1) ==> root_of(
                folders,
                reference,
            ) == Some(folders[source@]@)
            &&& reference.root_id is None && (reference.root_count matches Some(count) && count > 1)
                ==> root_of(folders, reference) is None
        },
{
}

} // verus!
