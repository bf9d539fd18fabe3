//! The names under which Connect keeps its secrets and files.

use vstd::prelude::*;
use vstd::string::*;
use vstd::utf8::*;

use crate::digest::{
    blake3_hash, drawn_text, first_number, first_u64, hash, hex, hex_text, random_bytes,
};
use crate::text::{joined, joined_by, json_of_text, same, shown, texts};

verus! {

/// The name of a secret in the secret store.
pub struct SecretKey {
    pub namespace: &'static str,
    pub name: String,
    pub label: &'static str,
}

pub fn identity_key(identity_ref: &str) -> (result: SecretKey)
    ensures
        result.namespace@ == "connect"@,
        result.name@ == identity_ref@,
        result.label@ == "Rufin Connect device identity"@,
{
    SecretKey {
        namespace: "connect",
        name: identity_ref.to_owned(),
        label: "Rufin Connect device identity",
    }
}

/// The secrets of a profile are kept apart for each identity of a device.
pub open spec fn profile_secret(identity_ref: Seq<char>, profile: Seq<char>) -> Seq<char> {
    identity_ref + ":"@ + profile
}

fn profile_secret_name(identity_ref: &str, profile: &str) -> (result: String)
    ensures
        result@ == profile_secret(identity_ref@, profile@),
{
    let mut name = joined(identity_ref, ":");
    name.append(profile);
    name
}

pub fn previous_file_keys(identity_ref: &str, profile: &str) -> (result: SecretKey)
    ensures
        result.namespace@ == "connect-file-previous"@,
        result.name@ == profile_secret(identity_ref@, profile@),
        result.label@ == "Rufin Connect previous profile file keys"@,
{
    SecretKey {
        namespace: "connect-file-previous",
        name: profile_secret_name(identity_ref, profile),
        label: "Rufin Connect previous profile file keys",
    }
}

pub fn file_key(identity_ref: &str, profile: &str) -> (result: SecretKey)
    ensures
        result.namespace@ == "connect-file"@,
        result.name@ == profile_secret(identity_ref@, profile@),
        result.label@ == "Rufin Connect profile file"@,
{
    SecretKey {
        namespace: "connect-file",
        name: profile_secret_name(identity_ref, profile),
        label: "Rufin Connect profile file",
    }
}

/// The reference to a device's identity: the one that is stored, or else a new one, of 32
/// hexadecimal digits that depend on chance. `drawn_text` says what becomes of each draw.
pub fn identity_reference(stored: Option<String>) -> (result: Result<String, String>)
    ensures
        match stored {
            Some(reference) => result == Ok::<String, String>(reference),
            None => result matches Ok(reference) ==> exists|bytes: Seq<u8>|
                bytes.len() == 16 && reference@ == #[trigger] hex(bytes),
        },
{
    match stored {
        Some(reference) => Ok(reference),
        None => drawn_text(random_bytes(16)),
    }
}

/// The name of a request, from bytes that were drawn: the hexadecimal form of their hash, or the
/// error of the draw.
pub fn request_name(drawn: Result<Vec<u8>, String>) -> (result: Result<String, String>)
    ensures
        match drawn {
            Ok(bytes) => result matches Ok(id) && id@ == hex(blake3_hash(bytes@)),
            Err(error) => result == Err::<String, String>(error),
        },
{
    match drawn {
        Ok(bytes) => Ok(hex_text(&hash(&bytes))),
        Err(error) => Err(error),
    }
}

/// A new name for a request: a hash of bytes that depend on chance. `request_name` says what
/// becomes of each draw.
pub fn request_id() -> (result: Result<String, String>)
    ensures
        result matches Ok(id) ==> exists|bytes: Seq<u8>| bytes.len() == 16 && id@ == hex(
            #[trigger] blake3_hash(bytes),
        ),
{
    request_name(random_bytes(16))
}

/// The number by which a device writes its records: the start of a hash of its identity.
pub open spec fn device_number(identity: Seq<char>) -> nat {
    first_number(blake3_hash(encode_utf8(identity)))
}

pub fn peer_number(identity: &str) -> (result: u64)
    ensures
        result == device_number(identity@),
{
    let digest = hash(identity.as_bytes());
    first_u64(&digest)
}

/// The file of a profile's documents.
pub fn documents_file(profile: &str) -> (result: String)
    ensures
        result@ == hex(blake3_hash(encode_utf8(profile@))) + ".sqlite"@,
{
    let digest = hash(profile.as_bytes());
    joined(hex_text(&digest).as_str(), ".sqlite")
}

/// The name of the queue that is taken over from a peer.
pub fn transfer_name(peer: &str) -> (result: String)
    ensures
        result@ == "connect-"@ + hex(blake3_hash(encode_utf8(peer@))),
{
    let digest = hash(peer.as_bytes());
    joined("connect-", hex_text(&digest).as_str())
}

/// The message of a failure; that of devices which do not understand each other any more, given as
/// `incompatible`, is put in words for the user.
pub fn error(message: String, incompatible: &str) -> (result: String)
    ensures
        result@ == if message@ == incompatible@ {
            "Devices using Rufin Connect are no longer compatible. Please update Rufin."@
        } else {
            message@
        },
{
    if same(message.as_str(), incompatible) {
        "Devices using Rufin Connect are no longer compatible. Please update Rufin.".to_owned()
    } else {
        message
    }
}

/// A list of texts in JSON.
pub open spec fn json_of_list(list: Seq<Seq<char>>) -> Seq<char> {
    "["@ + joined_by(list.map_values(|text: Seq<char>| json_of_text(text)), ","@) + "]"@
}

/// The list of texts that `serde_json::from_str` reads from a JSON text, or why it cannot.
pub uninterp spec fn list_of_json(text: Seq<char>) -> Result<Seq<Seq<char>>, Seq<char>>;

/// What was read, as texts.
pub open spec fn list_read(read: Result<Vec<String>, String>) -> Result<Seq<Seq<char>>, Seq<char>> {
    match read {
        Ok(list) => Ok(texts(list@)),
        Err(message) => Err(message@),
    }
}

/// `serde_json::from_str` for a list of texts: a function of the text alone. A list that was
/// written as JSON comes back as it was.
#[verifier::external_body]
fn read_list(text: &str) -> (result: Result<Vec<String>, String>)
    ensures
        list_read(result) == list_of_json(text@),
        forall|list: Seq<Seq<char>>|
            text@ == #[trigger] json_of_list(list) ==> result is Ok && texts(result->Ok_0@) == list,
{
    serde_json::from_str(text).map_err(|error| error.to_string())
}

/// `to_string` of a `serde_json::Value` that holds a list of texts: its JSON form, without white
/// space.
#[verifier::external_body]
fn write_list(list: &Vec<String>) -> (result: String)
    ensures
        result@ == json_of_list(texts(list@)),
{
    serde_json::Value::from(list.clone()).to_string()
}

/// The keys that a profile's files were sealed with before, as they are kept; where nothing is kept
/// there are none. What `keys_to_keep` wrote comes back.
pub fn kept_keys(stored: &Option<String>) -> (result: Result<Vec<String>, String>)
    ensures
        match *stored {
            Some(text) => list_read(result) == list_of_json(text@),
            None => result matches Ok(list) && list@.len() == 0,
        },
        forall|list: Seq<Seq<char>>|
            shown(*stored) == Some(#[trigger] json_of_list(list)) ==> result is Ok && texts(
                result->Ok_0@,
            ) == list,
{
    match stored {
        Some(text) => read_list(text.as_str()),
        None => Ok(Vec::new()),
    }
}

/// The keys that a profile's files were sealed with before, to be kept.
pub fn keys_to_keep(list: &Vec<String>) -> (result: String)
    ensures
        result@ == json_of_list(texts(list@)),
{
    write_list(list)
}

/// The text under a name in a JSON object, as `serde_json` reads it: none where there is no such
/// text, or an error where the whole is not JSON.
pub uninterp spec fn json_member(text: Seq<char>, name: Seq<char>) -> Result<
    Option<Seq<char>>,
    Seq<char>,
>;

/// `serde_json::from_str` for a `serde_json::Value`, and the text under a name in it: a function of
/// the text and the name alone.
#[verifier::external_body]
fn member_text(text: &str, name: &str) -> (result: Result<Option<String>, String>)
    ensures
        match result {
            Ok(member) => json_member(text@, name@) == Ok::<Option<Seq<char>>, Seq<char>>(
                shown(member),
            ),
            Err(message) => json_member(text@, name@) == Err::<Option<Seq<char>>, Seq<char>>(
                message@,
            ),
        },
{
    let value: serde_json::Value = serde_json::from_str(text).map_err(|error| error.to_string())?;
    Ok(value.get(name).and_then(|member| member.as_str()).map(|member| member.to_owned()))
}

/// The signing key of an older bundle of credentials, where one is kept.
pub fn kept_signing_key(stored: &Option<String>) -> (result: Result<Option<String>, String>)
    ensures
        match *stored {
            Some(text) => match result {
                Ok(key) => json_member(text@, "signing_key"@) == Ok::<
                    Option<Seq<char>>,
                    Seq<char>,
                >(shown(key)),
                Err(message) => json_member(text@, "signing_key"@) == Err::<
                    Option<Seq<char>>,
                    Seq<char>,
                >(message@),
            },
            None => result matches Ok(key) && key is None,
        },
{
    match stored {
        Some(text) => member_text(text.as_str(), "signing_key"),
        None => Ok(None),
    }
}

/// What is done with the stored credentials of a device.
#[derive(Clone, Copy, Debug, PartialEq, Eq, Structural)]
pub enum CredentialStep {
    Use,
    /// The signing key of an older bundle is kept as the credentials: the identity stays the same.
    Convert,
    Generate,
}

pub fn credentials(stored: bool, has_signing_key: bool) -> (result: CredentialStep)
    ensures
        result == if !stored {
            CredentialStep::Generate
        } else if has_signing_key {
            CredentialStep::Convert
        } else {
            CredentialStep::Use
        },
{
    if !stored {
        CredentialStep::Generate
    } else if has_signing_key {
        CredentialStep::Convert
    } else {
        CredentialStep::Use
    }
}

} // verus!
