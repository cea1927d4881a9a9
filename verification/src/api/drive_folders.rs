//! Drive folders as the client sees them.
use vstd::prelude::*;
use crate::ids::{ulid_text, ulid_to_string};
use crate::time::{Timestamp, rfc3339_text, to_rfc3339};

verus! {

/// A folder of a user's drive.
#[derive(Clone, Debug)]
pub struct DriveFolder {
    pub id: String,
    pub created_at: Timestamp,
    pub updated_at: Option<Timestamp>,
    pub name: String,
    pub owner_id: u128,
    pub parent_id: Option<String>,
}

/// A folder as the client sees it.
#[derive(Clone, Debug)]
pub struct DriveFolderResponse {
    pub id: String,
    pub created_at: String,
    pub updated_at: Option<String>,
    pub name: String,
    pub owner_id: String,
    pub parent_id: Option<String>,
}

/// Creation of a folder.
#[derive(Clone, Debug)]
pub struct CreateFolderRequest {
    pub name: Option<String>,
    pub parent_id: Option<String>,
}

/// Changes to a folder; `parent_id: Some(None)` moves it to the root.
#[derive(Clone, Debug)]
pub struct UpdateFolderRequest {
    pub name: Option<String>,
    pub parent_id: Option<Option<String>>,
}

/// The client's view of a folder, with RFC 3339 instants.
pub fn folder_response(folder: DriveFolder) -> (r: DriveFolderResponse)
    requires
        folder.created_at.wf(),
        folder.updated_at matches Some(t) ==> t.wf(),
    ensures
        r.id == folder.id,
        r.created_at@ == rfc3339_text(folder.created_at.secs as int, folder.created_at.nanos as int),
        match folder.updated_at {
            Some(t) => r.updated_at matches Some(u) && u@ == rfc3339_text(t.secs as int, t.nanos as int),
            None => r.updated_at is None,
        },
        r.name == folder.name,
        r.owner_id@ == ulid_text(folder.owner_id),
        r.parent_id == folder.parent_id,
{
    let updated_at = match folder.updated_at {
        Some(t) => Some(to_rfc3339(t)),
        None => None,
    };
    DriveFolderResponse {
        id: folder.id,
        created_at: to_rfc3339(folder.created_at),
        updated_at,
        name: folder.name,
        owner_id: ulid_to_string(folder.owner_id),
        parent_id: folder.parent_id,
    }
}

} // verus!
