//! Sources over HTTP.

use vstd::prelude::*;

use crate::api::parameters::{bad_request, ApiError};
use crate::text::{ends_with, matches_at};

verus! {

/// What is done with a source.
pub enum SourceAction {
    Refresh(String),
    Select(String),
}

/// The path ends in a name.
pub open spec fn path_ends(path: Seq<char>, end: Seq<char>) -> bool {
    matches_at(path, path.len() - end.len(), end)
}

/// Selects a source or reads it again, by the path of the request.
pub fn select(path: &str, id: String) -> (result: Result<SourceAction, ApiError>)
    ensures
        if id@.len() == 0 {
            result matches Err(error) && error.status == 400 && error.message@ == "id is required"@
        } else if path_ends(path@, "/refresh"@) {
            result == Ok::<SourceAction, ApiError>(SourceAction::Refresh(id))
        } else {
            result == Ok::<SourceAction, ApiError>(SourceAction::Select(id))
        },
{
    if id.as_str().is_empty() {
        return Err(bad_request("id is required"));
    }
    if ends_with(path, "/refresh") {
        Ok(SourceAction::Refresh(id))
    } else {
        Ok(SourceAction::Select(id))
    }
}

/// Whether a source that is added is a local folder, by the path of the request.
pub fn adds_local(path: &str) -> (result: bool)
    ensures
        result == path_ends(path@, "/local"@),
{
    ends_with(path, "/local")
}

/// An entry of the queue that is asked for must be named.
pub fn queue_entry(id: String) -> (result: Result<String, ApiError>)
    ensures
        if id@.len() == 0 {
            result matches Err(error) && error.status == 400 && error.message@ == "id is required"@
        } else {
            result == Ok::<String, ApiError>(id)
        },
{
    if id.as_str().is_empty() {
        Err(bad_request("id is required"))
    } else {
        Ok(id)
    }
}

} // verus!
