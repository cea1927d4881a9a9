//! The drive: uploaded files, their names, hashes and sizes.
use vstd::prelude::*;
use crate::encoding::{sha256, sha256_digest};
use crate::error::{AppError, ErrorKind, err};
use crate::ids::{ulid_text, ulid_to_string};
use crate::json::Json;
use crate::text::{has_prefix, starts_with_str, split_on, str_chars, split_chars, chars_to_string, views,
    lemma_split_on_nonempty};
use crate::time::Timestamp;

verus! {

/// Search of the drive.
#[derive(Clone, Debug)]
pub struct FindFilesQuery {
    pub name: Option<String>,
    pub folder_id: Option<String>,
    pub mime_type: Option<String>,
    pub limit: Option<usize>,
    pub offset: Option<usize>,
}

/// Upload of a file fetched from a URL.
#[derive(Clone, Debug)]
pub struct UploadFromUrlRequest {
    pub url: String,
    pub folder_id: Option<String>,
    pub name: Option<String>,
    pub is_sensitive: Option<bool>,
    pub comment: Option<String>,
    pub marker: Option<String>,
    pub force: Option<bool>,
}

/// Changes to a drive file.
#[derive(Clone, Debug)]
pub struct UpdateDriveFileRequest {
    pub name: Option<String>,
    pub folder_id: Option<String>,
}

/// A stored file.
#[derive(Clone, Debug)]
pub struct DriveFile {
    pub id: u128,
    pub created_at: Timestamp,
    pub name: String,
    pub mime_type: String,
    pub size: i64,
    pub owner_id: u128,
    pub path: String,
    pub hash: String,
    pub url: Option<String>,
    pub thumbnail_url: Option<String>,
    pub width: Option<i32>,
    pub height: Option<i32>,
    pub folder_id: Option<String>,
}

/// A drive file as the client sees it.
#[derive(Clone, Debug)]
pub struct FileResponse {
    pub id: String,
    pub name: String,
    pub mime_type: String,
    pub size: i64,
    pub url: Option<String>,
    pub thumbnail_url: Option<String>,
    pub width: Option<i32>,
    pub height: Option<i32>,
}

/// The client's view of a file.
pub fn file_response(file: &DriveFile) -> (r: FileResponse)
    ensures
        r.id@ == ulid_text(file.id),
        r.name == file.name,
        r.mime_type == file.mime_type,
        r.size == file.size,
        r.url == file.url,
        r.thumbnail_url == file.thumbnail_url,
        r.width == file.width,
        r.height == file.height,
{
    FileResponse {
        id: ulid_to_string(file.id),
        name: file.name.clone(),
        mime_type: file.mime_type.clone(),
        size: file.size,
        url: file.url.clone(),
        thumbnail_url: file.thumbnail_url.clone(),
        width: file.width,
        height: file.height,
    }
}

/// The largest file the drive takes: 100 MiB.
pub const MAX_UPLOAD_BYTES: usize = 104857600;

/// Refuses files over 100 MiB.
pub fn check_upload_size(size: usize) -> (r: Result<(), AppError>)
    ensures
        r is Ok <==> size <= MAX_UPLOAD_BYTES,
        r matches Err(e) ==> e.is(ErrorKind::Validation, "File too large (max 100MB)"@),
{
    if size > MAX_UPLOAD_BYTES {
        return Err(err(ErrorKind::Validation, "File too large (max 100MB)"));
    }
    Ok(())
}

/// The lowercase hexadecimal digit of a value below 16.
pub open spec fn hex_digit(d: int) -> char {
    if d < 10 {
        ((48 + d) as u8) as char
    } else {
        ((87 + d) as u8) as char
    }
}

/// Lowercase hexadecimal text of bytes, two digits each.
pub open spec fn hex(b: Seq<u8>) -> Seq<char>
    decreases b.len(),
{
    if b.len() == 0 {
        Seq::empty()
    } else {
        hex(b.drop_last()) + seq![hex_digit(b.last() as int / 16), hex_digit(b.last() as int % 16)]
    }
}

fn hex_char(d: u8) -> (c: char)
    requires
        d < 16,
    ensures
        c == hex_digit(d as int),
{
    if d < 10 {
        (48u8 + d) as char
    } else {
        (87u8 + d) as char
    }
}

/// The lowercase hexadecimal text of bytes.
pub fn to_hex(b: &[u8]) -> (r: String)
    ensures
        r@ == hex(b@),
{
    let mut r = String::new();
    let mut i: usize = 0;
    while i < b.len()
        invariant
            i <= b@.len(),
            r@ == hex(b@.take(i as int)),
        decreases b@.len() - i,
    {
        let x = b[i];
        let ghost before = b@.take(i as int);
        let ghost next = b@.take(i + 1);
        assert(next.drop_last() =~= before);
        crate::text::push_char(&mut r, hex_char(x / 16));
        crate::text::push_char(&mut r, hex_char(x % 16));
        i = i + 1;
        assert(r@ =~= hex(next));
    }
    assert(b@.take(b@.len() as int) =~= b@);
    r
}

/// Hex text has two digits per byte.
pub proof fn lemma_hex_len(b: Seq<u8>)
    ensures
        hex(b).len() == 2 * b.len(),
    decreases b.len(),
{
    if b.len() > 0 {
        lemma_hex_len(b.drop_last());
    }
}

/// The content hash a file is deduplicated by: the hex SHA-256 of its
/// bytes, 64 digits long.
pub fn content_hash(data: &[u8]) -> (r: String)
    ensures
        r@ == hex(sha256_digest(data@)),
        r@.len() == 64,
{
    proof {
        lemma_hex_len(sha256_digest(data@));
    }
    let d = sha256(data);
    to_hex(d.as_slice())
}

/// The extension `std::path::Path` finds in a file name, if any.
pub uninterp spec fn path_extension(name: Seq<char>) -> Option<Seq<char>>;

/// `std::path::Path::extension`, as text. As its documentation says, there
/// is none without a `.` in the name, and an extension is the part of the
/// last path component after its last `.`, so it holds no `.` and no `/`.
/// How the last component is found is the standard library's and is not
/// restated here.
#[verifier::external_body]
fn extension_of(name: &str) -> (r: Option<String>)
    ensures
        match r {
            Some(e) => path_extension(name@) == Some(e@),
            None => path_extension(name@) is None,
        },
        !name@.contains('.') ==> r is None,
        r matches Some(e) ==> !e@.contains('.') && !e@.contains('/'),
{
    match std::path::Path::new(name).extension() {
        Some(e) => Some(e.to_string_lossy().into_owned()),
        None => None,
    }
}

/// The extension of a file name, or empty when it has none.
pub open spec fn extension_or_empty(name: Seq<char>) -> Seq<char> {
    match path_extension(name) {
        Some(e) => e,
        None => Seq::empty(),
    }
}

/// The name a direct upload is saved under: `{id}.{extension}` (the dot is
/// kept when there is no extension).
pub fn upload_save_name(id: u128, file_name: &str) -> (r: String)
    ensures
        r@ == ulid_text(id) + "."@ + extension_or_empty(file_name@),
        !file_name@.contains('.') ==> r@ == ulid_text(id) + "."@,
{
    let mut r = ulid_to_string(id);
    r.append(".");
    match extension_of(file_name) {
        Some(e) => r.append(e.as_str()),
        None => {},
    }
    r
}

/// The name a fetched file is saved under: `{id}.{extension}`, or `{id}`
/// when there is no extension.
pub fn fetched_save_name(id: u128, file_name: &str) -> (r: String)
    ensures
        r@ == if extension_or_empty(file_name@).len() == 0 {
            ulid_text(id)
        } else {
            ulid_text(id) + "."@ + extension_or_empty(file_name@)
        },
        !file_name@.contains('.') ==> r@ == ulid_text(id),
{
    let mut r = ulid_to_string(id);
    match extension_of(file_name) {
        Some(e) => {
            if e.unicode_len() > 0 {
                r.append(".");
                r.append(e.as_str());
            }
        },
        None => {},
    }
    r
}

/// The width and height `image` reads from encoded image bytes, or `None`
/// when it cannot decode them.
pub uninterp spec fn image_size(data: Seq<u8>) -> Option<(u32, u32)>;

/// `image::load_from_memory` followed by `dimensions`: the size of an
/// encoded image, or `None` when the bytes are no image the crate decodes.
/// Decoding is not restated here.
#[verifier::external_body]
fn decode_image_size(data: &[u8]) -> (r: Option<(u32, u32)>)
    ensures
        r == image_size(data@),
{
    match image::load_from_memory(data) {
        Ok(img) => Some(<image::DynamicImage as image::GenericImageView>::dimensions(&img)),
        Err(_) => None,
    }
}

/// The dimensions recorded for a file: those of the decoded image, for
/// `image/` types only, each cast to `i32` as the record stores it.
pub open spec fn recorded_dimensions(content_type: Seq<char>, data: Seq<u8>) -> (Option<i32>, Option<i32>) {
    if has_prefix(content_type, "image/"@) {
        match image_size(data) {
            Some((w, h)) => (Some(w as i32), Some(h as i32)),
            None => (None, None),
        }
    } else {
        (None, None)
    }
}

/// The dimensions to record for an uploaded file.
pub fn image_dimensions(content_type: &str, data: &[u8]) -> (r: (Option<i32>, Option<i32>))
    ensures
        r == recorded_dimensions(content_type@, data@),
{
    if starts_with_str(content_type, "image/") {
        match decode_image_size(data) {
            Some((w, h)) => (Some(w as i32), Some(h as i32)),
            None => (None, None),
        }
    } else {
        (None, None)
    }
}

/// The media type of a fetched file: the `content-type` header up to its
/// first `;` (parameters dropped), or `application/octet-stream`.
pub open spec fn fetched_content_type(header: Option<Seq<char>>) -> Seq<char> {
    split_on(
        match header {
            Some(h) => h,
            None => "application/octet-stream"@,
        },
        ';',
    )[0]
}

/// The media type of a fetched file.
pub fn remote_content_type(header: Option<&str>) -> (r: String)
    ensures
        r@ == fetched_content_type(match header {
            Some(h) => Some(h@),
            None => None,
        }),
{
    let h = match header {
        Some(h) => h,
        None => "application/octet-stream",
    };
    let chars = str_chars(h);
    let parts = split_chars(&chars, ';');
    proof {
        lemma_split_on_nonempty(h@, ';');
    }
    assert(views(parts@)[0] == parts@[0]@);
    chars_to_string(&parts[0])
}

/// The name of a fetched file: the requested one, else the URL's last
/// `/`-separated piece.
pub open spec fn fetched_file_name(name: Option<Seq<char>>, url: Seq<char>) -> Seq<char> {
    match name {
        Some(n) => n,
        None => split_on(url, '/').last(),
    }
}

/// The name of a fetched file.
pub fn remote_file_name(name: &Option<String>, url: &str) -> (r: String)
    ensures
        r@ == fetched_file_name(match name {
            Some(n) => Some(n@),
            None => None,
        }, url@),
{
    match name {
        Some(n) => n.clone(),
        None => {
            let chars = str_chars(url);
            let parts = split_chars(&chars, '/');
            proof {
                lemma_split_on_nonempty(url@, '/');
            }
            let k = parts.len() - 1;
            assert(views(parts@)[k as int] == parts@[k as int]@);
            chars_to_string(&parts[k])
        },
    }
}

/// The update statement of a drive file: the fields given, bound as
/// parameters; `None` when nothing changes.
pub open spec fn drive_update_text(id: u128, has_name: bool, has_folder: bool) -> Option<Seq<char>> {
    if !has_name && !has_folder {
        None
    } else {
        Some(
            "UPDATE drive_file:"@ + ulid_text(id) + " SET "@ + if has_name && has_folder {
                "name = $name, folder_id = $folder_id"@
            } else if has_name {
                "name = $name"@
            } else {
                "folder_id = $folder_id"@
            },
        )
    }
}

/// Builds the update statement of a drive file.
pub fn drive_update_query(id: u128, req: &UpdateDriveFileRequest) -> (r: Option<String>)
    ensures
        match r {
            Some(q) => drive_update_text(id, req.name is Some, req.folder_id is Some) == Some(q@),
            None => drive_update_text(id, req.name is Some, req.folder_id is Some) is None,
        },
{
    let has_name = req.name.is_some();
    let has_folder = req.folder_id.is_some();
    if !has_name && !has_folder {
        return None;
    }
    let mut q = String::from_str("UPDATE drive_file:");
    let t = ulid_to_string(id);
    q.append(t.as_str());
    q.append(" SET ");
    if has_name && has_folder {
        q.append("name = $name, folder_id = $folder_id");
    } else if has_name {
        q.append("name = $name");
    } else {
        q.append("folder_id = $folder_id");
    }
    Some(q)
}

/// The most files a search lists.
pub const MAX_FIND_FILES: usize = 100;

/// The query text of a file search: the owner's files, with the given name,
/// folder and type, newest first, `$limit` from `$offset`.
pub open spec fn find_files_text(q: FindFilesQuery) -> Seq<char> {
    "SELECT * FROM drive_file WHERE owner_id = $owner_id"@
        + (if q.name is Some { " AND name = $name"@ } else { Seq::empty() })
        + (if q.folder_id is Some { " AND folder_id = $folder_id"@ } else { Seq::empty() })
        + (if q.mime_type is Some { " AND mime_type = $mime_type"@ } else { Seq::empty() })
        + " ORDER BY created_at DESC LIMIT $limit START $offset"@
}

/// A file search as it goes to the store: its text, limit (10 unless asked,
/// at most 100) and offset (0 unless asked).
pub fn find_files_query(q: &FindFilesQuery) -> (r: (String, usize, usize))
    ensures
        r.0@ == find_files_text(*q),
        r.1 == (if (match q.limit { Some(l) => l, None => 10 }) < MAX_FIND_FILES {
            match q.limit { Some(l) => l, None => 10 }
        } else {
            MAX_FIND_FILES
        }),
        r.2 == (match q.offset { Some(o) => o, None => 0 }),
{
    let asked = match q.limit {
        Some(l) => l,
        None => 10,
    };
    let limit = if asked < MAX_FIND_FILES { asked } else { MAX_FIND_FILES };
    let offset = match q.offset {
        Some(o) => o,
        None => 0,
    };
    let mut t = String::from_str("SELECT * FROM drive_file WHERE owner_id = $owner_id");
    if q.name.is_some() {
        t.append(" AND name = $name");
    }
    if q.folder_id.is_some() {
        t.append(" AND folder_id = $folder_id");
    }
    if q.mime_type.is_some() {
        t.append(" AND mime_type = $mime_type");
    }
    t.append(" ORDER BY created_at DESC LIMIT $limit START $offset");
    assert(t@ =~= find_files_text(*q));
    (t, limit, offset)
}

/// The space each user's drive offers: 10 GiB.
pub const DRIVE_CAPACITY: i64 = 10737418240;

/// A user's drive usage.
#[derive(Clone, Copy, Debug, PartialEq, Eq, Structural)]
pub struct DriveUsage {
    pub usage: i64,
    pub capacity: i64,
    pub file_count: i64,
}

/// The usage answer from the sum row (`total_size`, 0 without one) and the
/// file count (0 without one).
pub fn drive_usage(size_row: &Option<Json>, count: Option<i64>) -> (r: DriveUsage)
    ensures
        r.usage == match *size_row {
            Some(j) => match crate::json::field(j, "total_size"@) {
                Some(c) => match crate::json::as_i64_spec(c) {
                    Some(n) => n,
                    None => 0,
                },
                None => 0,
            },
            None => 0,
        },
        r.capacity == DRIVE_CAPACITY,
        r.file_count == match count {
            Some(c) => c,
            None => 0,
        },
{
    DriveUsage {
        usage: crate::api::admin::row_int(size_row, "total_size"),
        capacity: DRIVE_CAPACITY,
        file_count: match count {
            Some(c) => c,
            None => 0,
        },
    }
}

/// The hash a lookup by hash requires.
pub fn required_md5(md5: Option<String>) -> (r: Result<String, AppError>)
    ensures
        match md5 {
            Some(v) => r matches Ok(w) && w == v,
            None => r matches Err(e) && e.is(ErrorKind::Validation, "md5 parameter required"@),
        },
{
    crate::api::checks::require_param(md5, "md5 parameter required")
}

} // verus!
