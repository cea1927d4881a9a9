//! Exports of a user's data.
use vstd::prelude::*;
use crate::db::{DragonflyClient, SurrealClient};
use crate::encoding::{base64_encode, base64_standard};

verus! {

/// Export operations.
#[derive(Clone, Debug)]
pub struct ExportService {
    pub surreal: SurrealClient,
    pub dragonfly: DragonflyClient,
}

impl ExportService {
    /// A service over the given stores.
    pub fn new(surreal: SurrealClient, dragonfly: DragonflyClient) -> (s: Self)
        ensures
            s.surreal == surreal,
            s.dragonfly == dragonfly,
    {
        ExportService { surreal, dragonfly }
    }
}

/// The link an export is kept under: a `data:` URL of the JSON text, in
/// standard Base64 of its UTF-8 bytes.
pub open spec fn export_data_url(json: Seq<char>) -> Seq<char> {
    "data:application/json;base64,"@ + base64_standard(vstd::utf8::encode_utf8(json))
}

/// The link of a finished export.
pub fn export_file_url(json: &str) -> (r: String)
    ensures
        r@ == export_data_url(json@),
{
    let mut r = String::from_str("data:application/json;base64,");
    let b = base64_encode(json.as_bytes());
    r.append(b.as_str());
    r
}

} // verus!
