//! The file in which a profile travels. It contains shared state only: device identity and playback
//! stay on the device.

use age::secrecy::ExposeSecret;
use vstd::prelude::*;
use vstd::utf8::*;

use crate::text::{lowered, text_of_bytes, texts};

verus! {

/// What the age crate says of a text that is not a file key, or nothing of one that is.
pub uninterp spec fn age_key_error(key: Seq<char>) -> Option<Seq<char>>;

/// Whether a key is one that an age file was encrypted for, as far as the file's head tells.
pub uninterp spec fn age_unwraps(bytes: Seq<u8>, key: Seq<char>) -> bool;

/// What an age file holds for one who has the given keys, where they open it: the bytes up to where
/// it was changed or cut off, and whether they are all of it.
pub uninterp spec fn age_opened(bytes: Seq<u8>, keys: Seq<Seq<char>>) -> Option<(Seq<u8>, bool)>;

/// What a gzip stream holds, where it is sound; else whether all that is wrong is that it ends too
/// early.
pub uninterp spec fn gunzipped(bytes: Seq<u8>) -> Result<Seq<u8>, bool>;

/// `age::x25519::Identity::generate`: a new file key, which is accepted as one. Which key it is
/// depends on chance.
#[verifier::external_body]
pub fn new_key() -> (result: String)
    ensures
        age_key_error(result@) is None,
{
    age::x25519::Identity::generate().to_string().expose_secret().to_owned()
}

/// `str::parse` to `age::x25519::Identity`: whether a text is a file key, and if not, why.
#[verifier::external_body]
pub(crate) fn key_error(key: &str) -> (result: Option<String>)
    ensures
        match result {
            Some(message) => age_key_error(key@) == Some(message@),
            None => age_key_error(key@) is None,
        },
{
    key.parse::<age::x25519::Identity>().err().map(|message| message.to_owned())
}

/// `age::Decryptor::decrypt` with one identity: whether a key fits a file is a function of both. It
/// does not where the text is no file key, where the head of the file cannot be read, and where
/// age finds no matching key.
#[verifier::external_body]
fn unwraps(bytes: &[u8], key: &str) -> (result: bool)
    ensures
        result == age_unwraps(bytes@, key@),
{
    let identity: Result<age::x25519::Identity, &'static str> = key.parse();
    match (identity, age::Decryptor::new(bytes)) {
        (Ok(identity), Ok(file)) => !matches!(
            file.decrypt(std::iter::once(&identity as &dyn age::Identity)),
            Err(age::DecryptError::NoMatchingKeys)
        ),
        _ => false,
    }
}

/// The first of some keys that fits a file.
pub open spec fn first_fitting(bytes: Seq<u8>, keys: Seq<Seq<char>>) -> Option<Seq<char>>
    decreases keys.len(),
{
    if keys.len() == 0 {
        None
    } else if age_unwraps(bytes, keys[0]) {
        Some(keys[0])
    } else {
        first_fitting(bytes, keys.drop_first())
    }
}

/// Two texts of one key: it can be written in either case.
pub open spec fn same_key(a: Seq<char>, b: Seq<char>) -> bool {
    lowered(a) == lowered(b)
}

/// The key fits the file, however it is written.
pub open spec fn fits(bytes: Seq<u8>, key: Seq<char>) -> bool {
    forall|text: Seq<char>|
        same_key(text, key) && age_key_error(text) is None ==> #[trigger] age_unwraps(bytes, text)
}

/// The first of some file keys that fits the file is the given one.
pub open spec fn opens_with(bytes: Seq<u8>, keys: Seq<Seq<char>>, key: Seq<char>) -> bool {
    first_key_error(keys) is None && (first_fitting(bytes, keys) matches Some(text) && same_key(
        text,
        key,
    ))
}

/// Whoever has some file keys, of which the given one is the first that fits, opens the file and
/// finds all of the contents.
pub open spec fn sealed_for(bytes: Seq<u8>, key: Seq<char>, plain: Seq<u8>) -> bool {
    &&& fits(bytes, key)
    &&& forall|keys: Seq<Seq<char>>|
        opens_with(bytes, keys, key) ==> #[trigger] age_opened(bytes, keys) == Some((plain, true))
}

/// A file that none of some file keys fits is not opened with them.
pub open spec fn stays_sealed(bytes: Seq<u8>, keys: Seq<Seq<char>>) -> bool {
    first_key_error(keys) is None && first_fitting(bytes, keys) is None ==> age_opened(bytes, keys)
        is None
}

/// `age::encrypt` to the recipient of a file key: it succeeds exactly for a file key. The bytes
/// depend on chance, but the key fits them, in whichever case it is written, and among some file
/// keys it opens them unless another one before it fits too; age takes the first that does. How an
/// error is worded is not stated.
#[verifier::external_body]
fn age_encrypt(key: &str, plain: &[u8]) -> (result: Result<Vec<u8>, String>)
    ensures
        result is Ok <==> age_key_error(key@) is None,
        result matches Ok(bytes) ==> sealed_for(bytes@, key@, plain@),
{
    let identity: age::x25519::Identity = key.parse().map_err(|message: &str| message.to_owned())?;
    age::encrypt(&identity.to_public(), plain).map_err(|error| error.to_string())
}

/// What was read of an age file, and why no more of it.
pub struct OpenedFile {
    pub plain: Vec<u8>,
    pub fault: Option<String>,
}

/// `age::Decryptor`: decrypts and authenticates an age file up to its end or to where it was
/// changed. What comes out is a function of the file and the keys; with keys of which none fits,
/// nothing does. That a file which was cut or changed fails there is a matter of cryptography, and
/// is not stated; nor is how an error is worded.
#[verifier::external_body]
fn age_decrypt(bytes: &[u8], keys: &[String]) -> (result: Result<OpenedFile, String>)
    ensures
        match result {
            Ok(file) => age_opened(bytes@, texts(keys@)) == Some((file.plain@, file.fault is None)),
            Err(_) => age_opened(bytes@, texts(keys@)) is None,
        },
        first_fitting(bytes@, texts(keys@)) is None ==> result is Err,
{
    let identities: Result<Vec<age::x25519::Identity>, &'static str> =
        keys.iter().map(|key| key.parse()).collect();
    let identities = identities.map_err(|message| message.to_owned())?;
    let decryptor = age::Decryptor::new(bytes).map_err(|error| error.to_string())?;
    let mut reader = decryptor.decrypt(
        identities.iter().map(|identity| identity as &dyn age::Identity),
    ).map_err(|error| error.to_string())?;
    let mut plain = Vec::new();
    let read = std::io::Read::read_to_end(&mut reader, &mut plain);
    Ok(OpenedFile { plain, fault: read.err().map(|error| error.to_string()) })
}

/// `flate2::write::GzEncoder` at its default level, into memory: a gzip stream that holds the
/// input. Writing into memory does not fail.
#[verifier::external_body]
fn gzip(plain: &[u8]) -> (result: Result<Vec<u8>, String>)
    ensures
        match result {
            Ok(bytes) => gunzipped(bytes@) == Ok::<Seq<u8>, bool>(plain@),
            Err(_) => false,
        },
{
    let mut encoder = flate2::write::GzEncoder::new(Vec::new(), flate2::Compression::default());
    std::io::Write::write_all(&mut encoder, plain).map_err(|error| error.to_string())?;
    encoder.finish().map_err(|error| error.to_string())
}

/// Why a gzip stream could not be read.
pub struct GzipFault {
    /// The stream ends too early.
    pub ends: bool,
    pub message: String,
}

/// `flate2::read::MultiGzDecoder`: what a gzip stream holds, or whether it only ends too early, is a
/// function of the stream; how an error is worded is not stated.
#[verifier::external_body]
fn gunzip(bytes: &[u8]) -> (result: Result<Vec<u8>, GzipFault>)
    ensures
        match result {
            Ok(plain) => (gunzipped(bytes@) matches Ok(held) && held == plain@),
            Err(fault) => (gunzipped(bytes@) matches Err(ends) && ends == fault.ends),
        },
{
    let mut plain = Vec::new();
    let mut decoder = flate2::read::MultiGzDecoder::new(bytes);
    match std::io::Read::read_to_end(&mut decoder, &mut plain) {
        Ok(_) => Ok(plain),
        Err(error) => Err(
            GzipFault {
                ends: error.kind() == std::io::ErrorKind::UnexpectedEof,
                message: error.to_string(),
            },
        ),
    }
}

/// The mark of a file with a compressed snapshot: `RUFINCX2`.
pub open spec fn magic() -> Seq<u8> {
    seq![82, 85, 70, 73, 78, 67, 88, 50]
}

/// The mark of a file with a plain snapshot: `RUFINCX1`.
pub open spec fn plain_magic() -> Seq<u8> {
    seq![82, 85, 70, 73, 78, 67, 88, 49]
}

/// What stands inside a profile file.
pub enum Frame {
    /// The file ends too early.
    Truncated,
    /// The file is of a version that this one cannot read.
    Incompatible,
    /// The name of the profile is not text.
    NotText,
    Content { profile: Seq<char>, compressed: bool, body: Seq<u8> },
}

/// The frame of a profile: a mark, the length of the profile's name, the name, and the snapshot.
pub open spec fn framed(name: Seq<u8>, body: Seq<u8>) -> Seq<u8> {
    magic() + seq![(name.len() % 256) as u8, (name.len() / 256) as u8] + name + body
}

/// Reads a frame.
pub open spec fn frame_of(bytes: Seq<u8>) -> Frame {
    let mark = bytes.take(8);
    let length = bytes[8] as int + 256 * bytes[9] as int;
    let name = bytes.subrange(10, 10 + length);
    if bytes.len() < 8 {
        Frame::Truncated
    } else if mark != magic() && mark != plain_magic() {
        Frame::Incompatible
    } else if bytes.len() < 10 || bytes.len() < 10 + length {
        Frame::Truncated
    } else if !valid_utf8(name) {
        Frame::NotText
    } else {
        Frame::Content {
            profile: decode_utf8(name),
            compressed: mark == magic(),
            body: bytes.skip(10 + length),
        }
    }
}

/// Why a profile file could not be written or read.
pub enum FileError {
    /// A key is not a file key.
    Key(String),
    /// The profile's name takes more bytes than a frame can hold.
    ProfileTooLong,
    /// The contents could not be compressed or encrypted.
    Unwritten(String),
    /// No key opens the file, or it was changed.
    Sealed(String),
    Truncated,
    Incompatible,
    NotText(String),
    /// The compressed snapshot is not sound.
    Damaged(String),
}

impl FileError {
    /// The message for the user.
    pub fn text(&self) -> (result: String)
        ensures
            result@ == match self {
                FileError::Key(message) => message@,
                FileError::ProfileTooLong => "out of range integral type conversion attempted"@,
                FileError::Unwritten(message) => message@,
                FileError::Sealed(message) => message@,
                FileError::Truncated => "failed to fill whole buffer"@,
                FileError::Incompatible => "Devices using Rufin Connect are no longer compatible. Please update Rufin."@,
                FileError::NotText(message) => message@,
                FileError::Damaged(message) => message@,
            },
    {
        match self {
            FileError::Key(message) => message.clone(),
            FileError::ProfileTooLong => "out of range integral type conversion attempted".to_owned(),
            FileError::Unwritten(message) => message.clone(),
            FileError::Sealed(message) => message.clone(),
            FileError::Truncated => "failed to fill whole buffer".to_owned(),
            FileError::Incompatible => "Devices using Rufin Connect are no longer compatible. Please update Rufin.".to_owned(),
            FileError::NotText(message) => message.clone(),
            FileError::Damaged(message) => message.clone(),
        }
    }
}

fn part_of(bytes: &[u8], from: usize, to: usize) -> (result: Vec<u8>)
    requires
        from <= to <= bytes@.len(),
    ensures
        result@ == bytes@.subrange(from as int, to as int),
{
    let mut result: Vec<u8> = Vec::new();
    let mut i: usize = from;
    while i < to
        invariant
            from <= i <= to <= bytes@.len(),
            result@ =~= bytes@.subrange(from as int, i as int),
        decreases to - i,
    {
        result.push(bytes[i]);
        i += 1;
    }
    result
}

fn push_all(output: &mut Vec<u8>, bytes: &[u8])
    ensures
        final(output)@ == old(output)@ + bytes@,
{
    let ghost before = output@;
    let mut i: usize = 0;
    while i < bytes.len()
        invariant
            i <= bytes@.len(),
            output@ =~= before + bytes@.take(i as int),
        decreases bytes@.len() - i,
    {
        output.push(bytes[i]);
        i += 1;
    }
    assert(bytes@.take(i as int) =~= bytes@);
}

/// Puts a snapshot into a frame. The name of the profile must fit.
pub fn frame(profile: &str, body: &[u8]) -> (result: Result<Vec<u8>, FileError>)
    ensures
        match result {
            Ok(bytes) => encode_utf8(profile@).len() <= 65535 && bytes@ == framed(
                encode_utf8(profile@),
                body@,
            ),
            Err(error) => encode_utf8(profile@).len() > 65535 && error is ProfileTooLong,
        },
{
    let name = profile.as_bytes();
    let length: usize = name.len();
    if length > 65535 {
        return Err(FileError::ProfileTooLong);
    }
    let mut bytes: Vec<u8> = Vec::new();
    bytes.push(82);
    bytes.push(85);
    bytes.push(70);
    bytes.push(73);
    bytes.push(78);
    bytes.push(67);
    bytes.push(88);
    bytes.push(50);
    bytes.push((length % 256) as u8);
    bytes.push((length / 256) as u8);
    push_all(&mut bytes, name);
    push_all(&mut bytes, body);
    assert(bytes@ =~= framed(encode_utf8(profile@), body@));
    Ok(bytes)
}

/// A frame that was read.
pub struct FrameContent {
    pub profile: String,
    pub compressed: bool,
    pub body: Vec<u8>,
}

/// Reads a frame.
pub fn unframe(bytes: &[u8]) -> (result: Result<FrameContent, FileError>)
    ensures
        match result {
            Ok(content) => frame_of(bytes@) == (Frame::Content {
                profile: content.profile@,
                compressed: content.compressed,
                body: content.body@,
            }),
            Err(FileError::Truncated) => frame_of(bytes@) == Frame::Truncated,
            Err(FileError::Incompatible) => frame_of(bytes@) == Frame::Incompatible,
            Err(FileError::NotText(_)) => frame_of(bytes@) == Frame::NotText,
            Err(_) => false,
        },
{
    let total: usize = bytes.len();
    if total < 8 {
        return Err(FileError::Truncated);
    }
    let start: bool = bytes[0] == 82 && bytes[1] == 85 && bytes[2] == 70 && bytes[3] == 73
        && bytes[4] == 78 && bytes[5] == 67 && bytes[6] == 88;
    let compressed: bool = start && bytes[7] == 50;
    let plain: bool = start && bytes[7] == 49;
    proof {
        let mark = bytes@.take(8);
        if compressed {
            assert(mark =~= magic());
        } else if plain {
            assert(mark =~= plain_magic());
        }
        assert(mark == magic() ==> mark[0] == 82 && mark[1] == 85 && mark[2] == 70 && mark[3] == 73
            && mark[4] == 78 && mark[5] == 67 && mark[6] == 88 && mark[7] == 50);
        assert(mark == plain_magic() ==> mark[0] == 82 && mark[1] == 85 && mark[2] == 70 && mark[3]
            == 73 && mark[4] == 78 && mark[5] == 67 && mark[6] == 88 && mark[7] == 49);
    }
    if !compressed && !plain {
        return Err(FileError::Incompatible);
    }
    if total < 10 {
        return Err(FileError::Truncated);
    }
    let length: usize = bytes[8] as usize + 256 * bytes[9] as usize;
    if total - 10 < length {
        return Err(FileError::Truncated);
    }
    let name = part_of(bytes, 10, 10 + length);
    match text_of_bytes(name) {
        Ok(profile) => {
            let body = part_of(bytes, 10 + length, total);
            assert(body@ =~= bytes@.skip(10 + length));
            Ok(FrameContent { profile, compressed, body })
        },
        Err(message) => Err(FileError::NotText(message)),
    }
}

/// A frame gives back the name and the snapshot that were put into it.
pub proof fn frames_read_back(profile: Seq<char>, body: Seq<u8>)
    requires
        encode_utf8(profile).len() <= 65535,
    ensures
        frame_of(framed(encode_utf8(profile), body)) == (Frame::Content {
            profile,
            compressed: true,
            body,
        }),
{
    let name = encode_utf8(profile);
    let bytes = framed(name, body);
    let length = name.len() as int;
    assert(bytes.take(8) =~= magic());
    assert(bytes[8] as int + 256 * bytes[9] as int == length);
    assert(bytes.subrange(10, 10 + length) =~= name);
    assert(bytes.skip(10 + length) =~= body);
    encode_utf8_valid_utf8(profile);
    encode_utf8_decode_utf8(profile);
}

/// What a profile file is to one who has some keys.
pub enum FileContent {
    BadKey(Seq<char>),
    Sealed,
    Truncated,
    Incompatible,
    NotText,
    Damaged,
    Snapshot { profile: Seq<char>, snapshot: Seq<u8> },
}

/// The first of the texts that is not a file key: what is wrong with it.
pub open spec fn first_key_error(keys: Seq<Seq<char>>) -> Option<Seq<char>>
    decreases keys.len(),
{
    if keys.len() == 0 {
        None
    } else {
        match age_key_error(keys[0]) {
            Some(message) => Some(message),
            None => first_key_error(keys.drop_first()),
        }
    }
}

/// What decrypted contents hold. Where they are not `whole`, the file was changed or cut off behind
/// them: what their start says counts all the same, but there is no snapshot.
pub open spec fn content_of(plain: Seq<u8>, whole: bool) -> FileContent {
    match frame_of(plain) {
        Frame::Truncated => if whole {
            FileContent::Truncated
        } else {
            FileContent::Sealed
        },
        Frame::Incompatible => FileContent::Incompatible,
        Frame::NotText => FileContent::NotText,
        Frame::Content { profile, compressed, body } => if !compressed {
            if whole {
                FileContent::Snapshot { profile, snapshot: body }
            } else {
                FileContent::Sealed
            }
        } else {
            match gunzipped(body) {
                Ok(snapshot) => if whole {
                    FileContent::Snapshot { profile, snapshot }
                } else {
                    FileContent::Sealed
                },
                Err(ends) => if ends && !whole {
                    FileContent::Sealed
                } else {
                    FileContent::Damaged
                },
            }
        },
    }
}

pub open spec fn file_content(bytes: Seq<u8>, keys: Seq<Seq<char>>) -> FileContent {
    match first_key_error(keys) {
        Some(message) => FileContent::BadKey(message),
        None => match age_opened(bytes, keys) {
            Some((plain, whole)) => content_of(plain, whole),
            None => FileContent::Sealed,
        },
    }
}

/// Whoever has some file keys, of which the given one is the first that fits the file, reads the
/// profile and the snapshot.
pub open spec fn holds_for(
    bytes: Seq<u8>,
    key: Seq<char>,
    profile: Seq<char>,
    snapshot: Seq<u8>,
) -> bool {
    &&& fits(bytes, key)
    &&& forall|keys: Seq<Seq<char>>|
        opens_with(bytes, keys, key) ==> #[trigger] file_content(bytes, keys) == (
        FileContent::Snapshot { profile, snapshot })
}

/// The result says what the content is.
pub open spec fn says(result: Result<(String, Vec<u8>), FileError>, content: FileContent) -> bool {
    match result {
        Ok((profile, snapshot)) => content == (FileContent::Snapshot {
            profile: profile@,
            snapshot: snapshot@,
        }),
        Err(FileError::Key(message)) => content == FileContent::BadKey(message@),
        Err(FileError::Sealed(_)) => content == FileContent::Sealed,
        Err(FileError::Truncated) => content == FileContent::Truncated,
        Err(FileError::Incompatible) => content == FileContent::Incompatible,
        Err(FileError::NotText(_)) => content == FileContent::NotText,
        Err(FileError::Damaged(_)) => content == FileContent::Damaged,
        Err(_) => false,
    }
}

/// Encrypts a snapshot of a profile for those who have the key: for every file key and every name
/// that fits. Whatever the encryption made of it, the key reads back the profile and the snapshot,
/// alone and among others.
pub fn encrypt(snapshot: &[u8], profile: &str, key: &str) -> (result: Result<Vec<u8>, FileError>)
    ensures
        match result {
            Ok(bytes) => age_key_error(key@) is None && encode_utf8(profile@).len() <= 65535
                && holds_for(bytes@, key@, profile@, snapshot@) && file_content(
                bytes@,
                seq![key@],
            ) == (FileContent::Snapshot { profile: profile@, snapshot: snapshot@ }),
            Err(FileError::Key(message)) => age_key_error(key@) == Some(message@),
            Err(FileError::ProfileTooLong) => age_key_error(key@) is None && encode_utf8(
                profile@,
            ).len() > 65535,
            Err(_) => false,
        },
{
    if let Some(message) = key_error(key) {
        return Err(FileError::Key(message));
    }
    if profile.as_bytes().len() > 65535 {
        return Err(FileError::ProfileTooLong);
    }
    let body = match gzip(snapshot) {
        Ok(body) => body,
        Err(message) => {
            return Err(FileError::Unwritten(message));
        },
    };
    let plain = match frame(profile, &body) {
        Ok(plain) => plain,
        Err(error) => {
            return Err(error);
        },
    };
    match age_encrypt(key, &plain) {
        Ok(bytes) => {
            proof {
                frames_read_back(profile@, body@);
                let whole = FileContent::Snapshot { profile: profile@, snapshot: snapshot@ };
                assert(content_of(plain@, true) == whole);
                let only = seq![key@];
                assert(only.drop_first() =~= Seq::<Seq<char>>::empty());
                reveal_with_fuel(first_key_error, 2);
                assert(first_key_error(only) is None);
                assert(age_unwraps(bytes@, key@));
                assert(first_fitting(bytes@, only) == Some(key@));
                assert(file_content(bytes@, only) == whole);
            }
            Ok(bytes)
        },
        Err(message) => Err(FileError::Unwritten(message)),
    }
}

/// The place of the first key that fits a file. Any file written for that key is read with the
/// whole list.
pub fn fitting_key(input: &[u8], keys: &[String]) -> (result: Option<usize>)
    ensures
        match result {
            Some(at) => at < keys@.len() && first_fitting(input@, texts(keys@)) == Some(
                keys@[at as int]@,
            ) && forall|i: int| 0 <= i < at ==> !age_unwraps(input@, #[trigger] keys@[i]@),
            None => first_fitting(input@, texts(keys@)) is None && forall|i: int|
                0 <= i < keys@.len() ==> !age_unwraps(input@, #[trigger] keys@[i]@),
        },
{
    let ghost list = texts(keys@);
    let mut i: usize = 0;
    assert(list.skip(0) =~= list);
    while i < keys.len()
        invariant
            i <= keys@.len(),
            list == texts(keys@),
            first_fitting(input@, list) == first_fitting(input@, list.skip(i as int)),
            forall|j: int| 0 <= j < i ==> !age_unwraps(input@, #[trigger] keys@[j]@),
        decreases keys@.len() - i,
    {
        proof {
            assert(list.skip(i as int)[0] == keys@[i as int]@);
            assert(list.skip(i as int).drop_first() =~= list.skip(i + 1));
        }
        if unwraps(input, keys[i].as_str()) {
            return Some(i);
        }
        i += 1;
    }
    None
}

/// Reads what a profile file holds, from what was decrypted and found authentic of it.
pub fn open_content(file: OpenedFile) -> (result: Result<(String, Vec<u8>), FileError>)
    ensures
        says(result, content_of(file.plain@, file.fault is None)),
{
    let content = match unframe(&file.plain) {
        Ok(content) => content,
        Err(FileError::Truncated) => {
            return match file.fault {
                Some(fault) => Err(FileError::Sealed(fault)),
                None => Err(FileError::Truncated),
            };
        },
        Err(error) => {
            return Err(error);
        },
    };
    let snapshot: Vec<u8> = if content.compressed {
        match gunzip(&content.body) {
            Ok(snapshot) => snapshot,
            Err(damage) => {
                return match file.fault {
                    Some(fault) if damage.ends => Err(FileError::Sealed(fault)),
                    _ => Err(FileError::Damaged(damage.message)),
                };
            },
        }
    } else {
        content.body
    };
    match file.fault {
        Some(fault) => Err(FileError::Sealed(fault)),
        None => Ok((content.profile, snapshot)),
    }
}

/// Opens a profile file with any of the keys. The complete input is authenticated before a snapshot
/// is returned.
pub fn decrypt(input: &[u8], keys: &[String]) -> (result: Result<(String, Vec<u8>), FileError>)
    ensures
        says(result, file_content(input@, texts(keys@))),
        stays_sealed(input@, texts(keys@)),
{
    let ghost list = texts(keys@);
    let mut i: usize = 0;
    assert(list.skip(0) =~= list);
    while i < keys.len()
        invariant
            i <= keys@.len(),
            list == texts(keys@),
            first_key_error(list) == first_key_error(list.skip(i as int)),
        decreases keys@.len() - i,
    {
        proof {
            assert(list.skip(i as int)[0] == keys@[i as int]@);
            assert(list.skip(i as int).drop_first() =~= list.skip(i + 1));
        }
        if let Some(message) = key_error(keys[i].as_str()) {
            return Err(FileError::Key(message));
        }
        i += 1;
    }
    match age_decrypt(input, keys) {
        Ok(file) => open_content(file),
        Err(message) => Err(FileError::Sealed(message)),
    }
}

/// A key that fits at some place of a list, behind keys that do not or that are the same, is the
/// first that fits.
pub proof fn fitting_keys_count(
    bytes: Seq<u8>,
    keys: Seq<Seq<char>>,
    at: int,
    key: Seq<char>,
)
    requires
        0 <= at < keys.len(),
        same_key(keys[at], key),
        age_unwraps(bytes, keys[at]),
        forall|i: int|
            0 <= i < at ==> !age_unwraps(bytes, #[trigger] keys[i]) || same_key(keys[i], key),
    ensures
        first_fitting(bytes, keys) matches Some(text) && same_key(text, key),
    decreases at,
{
    if at > 0 && !age_unwraps(bytes, keys[0]) {
        let rest = keys.drop_first();
        assert forall|i: int| 0 <= i < at - 1 implies !age_unwraps(bytes, #[trigger] rest[i])
            || same_key(rest[i], key) by {
            assert(rest[i] == keys[i + 1]);
        }
        assert(rest[at - 1] == keys[at]);
        fitting_keys_count(bytes, rest, at - 1, key);
    } else if at > 0 {
        assert(same_key(keys[0], key));
    }
}

proof fn file_keys_have_no_error(keys: Seq<Seq<char>>, at: int)
    requires
        first_key_error(keys) is None,
        0 <= at < keys.len(),
    ensures
        age_key_error(keys[at]) is None,
    decreases keys.len(),
{
    if at > 0 {
        assert(keys.drop_first()[at - 1] == keys[at]);
        file_keys_have_no_error(keys.drop_first(), at - 1);
    }
}

/// What was encrypted for a key is read back with every list of file keys that holds it, wherever
/// it stands and in whichever case it is written, unless another key before it fits the file as
/// well: the profile and the snapshot, and nothing else.
pub proof fn encrypted_files_read_back(
    bytes: Seq<u8>,
    profile: Seq<char>,
    snapshot: Seq<u8>,
    key: Seq<char>,
    keys: Seq<Seq<char>>,
    at: int,
    result: Result<(String, Vec<u8>), FileError>,
)
    requires
        holds_for(bytes, key, profile, snapshot),
        0 <= at < keys.len(),
        same_key(keys[at], key),
        first_key_error(keys) is None,
        forall|i: int|
            0 <= i < at ==> !age_unwraps(bytes, #[trigger] keys[i]) || same_key(keys[i], key),
        says(result, file_content(bytes, keys)),
    ensures
        result matches Ok(read) && read.0@ == profile && read.1@ == snapshot,
{
    file_keys_have_no_error(keys, at);
    assert(age_unwraps(bytes, keys[at]));
    fitting_keys_count(bytes, keys, at, key);
    assert(opens_with(bytes, keys, key));
}

proof fn none_fits(bytes: Seq<u8>, keys: Seq<Seq<char>>)
    requires
        forall|i: int| 0 <= i < keys.len() ==> !age_unwraps(bytes, #[trigger] keys[i]),
    ensures
        first_fitting(bytes, keys) is None,
    decreases keys.len(),
{
    if keys.len() > 0 {
        let rest = keys.drop_first();
        assert(!age_unwraps(bytes, keys[0]));
        assert forall|i: int| 0 <= i < rest.len() implies !age_unwraps(
            bytes,
            #[trigger] rest[i],
        ) by {
            assert(rest[i] == keys[i + 1]);
        }
        none_fits(bytes, rest);
    }
}

/// A file stays sealed for those whose keys do not fit it, such as the key from before it was
/// written anew for another. `decrypt` has found what is asked of the keys.
pub proof fn files_stay_sealed_for_others(
    bytes: Seq<u8>,
    keys: Seq<Seq<char>>,
    result: Result<(String, Vec<u8>), FileError>,
)
    requires
        stays_sealed(bytes, keys),
        first_key_error(keys) is None,
        forall|i: int| 0 <= i < keys.len() ==> !age_unwraps(bytes, #[trigger] keys[i]),
        says(result, file_content(bytes, keys)),
    ensures
        result matches Err(FileError::Sealed(_)),
{
    none_fits(bytes, keys);
}

/// No snapshot comes out of a file that was not authentic to its end.
pub proof fn snapshots_are_authentic(
    bytes: Seq<u8>,
    keys: Seq<Seq<char>>,
    result: Result<(String, Vec<u8>), FileError>,
)
    requires
        says(result, file_content(bytes, keys)),
        result is Ok,
    ensures
        age_opened(bytes, keys) matches Some((_, whole)) && whole,
{
}

} // verus!
