//! Custom emoji.
use vstd::prelude::*;
use crate::db::{DragonflyClient, SurrealClient};
use crate::error::{err, AppError, ErrorKind};
use crate::text::str_eq;
use crate::time::Timestamp;

verus! {

/// Custom emoji: the service over the two stores.
#[derive(Clone, Debug)]
pub struct EmojiService {
    pub surreal: SurrealClient,
    pub dragonfly: DragonflyClient,
}

impl EmojiService {
    /// A service over the given stores.
    pub fn new(surreal: SurrealClient, dragonfly: DragonflyClient) -> (s: Self)
        ensures
            s.surreal == surreal,
            s.dragonfly == dragonfly,
    {
        EmojiService { surreal, dragonfly }
    }
}

/// The category an emoji is listed under.
#[derive(Clone, Copy, Debug, PartialEq, Eq, Structural)]
pub enum EmojiCategory {
    General,
    Activities,
    Animals,
    Flags,
    Food,
    Objects,
    People,
    Nature,
    Symbols,
    Uncategorized,
}

/// The name a category is stored and requested under.
pub open spec fn category_name(c: EmojiCategory) -> Seq<char> {
    match c {
        EmojiCategory::General => "general"@,
        EmojiCategory::Activities => "activities"@,
        EmojiCategory::Animals => "animals"@,
        EmojiCategory::Flags => "flags"@,
        EmojiCategory::Food => "food"@,
        EmojiCategory::Objects => "objects"@,
        EmojiCategory::People => "people"@,
        EmojiCategory::Nature => "nature"@,
        EmojiCategory::Symbols => "symbols"@,
        EmojiCategory::Uncategorized => "uncategorized"@,
    }
}

/// The category a requested name selects: the one of that name, and
/// `Uncategorized` for any other name.
pub open spec fn category_of_name(s: Seq<char>) -> EmojiCategory {
    if s == "general"@ {
        EmojiCategory::General
    } else if s == "activities"@ {
        EmojiCategory::Activities
    } else if s == "animals"@ {
        EmojiCategory::Animals
    } else if s == "flags"@ {
        EmojiCategory::Flags
    } else if s == "food"@ {
        EmojiCategory::Food
    } else if s == "objects"@ {
        EmojiCategory::Objects
    } else if s == "people"@ {
        EmojiCategory::People
    } else if s == "nature"@ {
        EmojiCategory::Nature
    } else if s == "symbols"@ {
        EmojiCategory::Symbols
    } else {
        EmojiCategory::Uncategorized
    }
}

/// The stored name of a category.
pub fn emoji_category_name(c: EmojiCategory) -> (r: String)
    ensures
        r@ == category_name(c),
{
    match c {
        EmojiCategory::General => String::from_str("general"),
        EmojiCategory::Activities => String::from_str("activities"),
        EmojiCategory::Animals => String::from_str("animals"),
        EmojiCategory::Flags => String::from_str("flags"),
        EmojiCategory::Food => String::from_str("food"),
        EmojiCategory::Objects => String::from_str("objects"),
        EmojiCategory::People => String::from_str("people"),
        EmojiCategory::Nature => String::from_str("nature"),
        EmojiCategory::Symbols => String::from_str("symbols"),
        EmojiCategory::Uncategorized => String::from_str("uncategorized"),
    }
}

/// The category a request names; unknown names select `Uncategorized`.
pub fn parse_emoji_category(name: &str) -> (c: EmojiCategory)
    ensures
        c == category_of_name(name@),
{
    if str_eq(name, "general") {
        EmojiCategory::General
    } else if str_eq(name, "activities") {
        EmojiCategory::Activities
    } else if str_eq(name, "animals") {
        EmojiCategory::Animals
    } else if str_eq(name, "flags") {
        EmojiCategory::Flags
    } else if str_eq(name, "food") {
        EmojiCategory::Food
    } else if str_eq(name, "objects") {
        EmojiCategory::Objects
    } else if str_eq(name, "people") {
        EmojiCategory::People
    } else if str_eq(name, "nature") {
        EmojiCategory::Nature
    } else if str_eq(name, "symbols") {
        EmojiCategory::Symbols
    } else {
        EmojiCategory::Uncategorized
    }
}

/// Every category is found again under its stored name.
pub proof fn lemma_category_name_roundtrip(c: EmojiCategory)
    ensures
        category_of_name(category_name(c)) == c,
{
    reveal_strlit("general");
    reveal_strlit("activities");
    reveal_strlit("animals");
    reveal_strlit("flags");
    reveal_strlit("food");
    reveal_strlit("objects");
    reveal_strlit("people");
    reveal_strlit("nature");
    reveal_strlit("symbols");
    reveal_strlit("uncategorized");
    let n = category_name(c);
    if c != EmojiCategory::General {
        assert(n[0] != 'g' || n.len() != 7);
    }
    if c != EmojiCategory::General && c != EmojiCategory::Activities {
        assert(n[0] != 'a' || n.len() != 10);
    }
    if c != EmojiCategory::Animals && c != EmojiCategory::Activities {
        assert(n[0] != 'a' || n.len() != 7);
    }
    if c != EmojiCategory::Flags && c != EmojiCategory::Food {
        assert(n[0] != 'f');
    }
    if c == EmojiCategory::Food {
        assert(n.len() != 5);
    }
    if c != EmojiCategory::Objects {
        assert(n[0] != 'o');
    }
    if c != EmojiCategory::People {
        assert(n[0] != 'p');
    }
    if c != EmojiCategory::Nature {
        assert(n[0] != 'n');
    }
    if c != EmojiCategory::Symbols {
        assert(n[0] != 's');
    }
}

/// A custom emoji.
#[derive(Clone, Debug)]
pub struct Emoji {
    pub id: u128,
    pub name: String,
    pub category: EmojiCategory,
    pub aliases: Vec<String>,
    pub url: String,
    /// The drive file the image is.
    pub file_id: u128,
    pub width: Option<i32>,
    pub height: Option<i32>,
    pub is_public: bool,
    pub created_at: Timestamp,
    pub updated_at: Option<Timestamp>,
}

/// Creation of an emoji from a drive file.
#[derive(Clone, Debug)]
pub struct CreateEmojiRequest {
    pub name: String,
    pub category: EmojiCategory,
    pub aliases: Vec<String>,
    pub file_id: u128,
    pub is_public: bool,
}

/// A change to an emoji: each field given replaces the stored one.
#[derive(Clone, Debug)]
pub struct UpdateEmojiRequest {
    pub name: Option<String>,
    pub category: Option<EmojiCategory>,
    pub aliases: Option<Vec<String>>,
    pub is_public: Option<bool>,
}

/// What an emoji is made from: the drive file's link and size.
#[derive(Clone, Debug)]
pub struct EmojiSource {
    pub url: Option<String>,
    pub width: Option<i32>,
    pub height: Option<i32>,
}

/// A new emoji with id `id`, made at `now` from the request and the drive file
/// it names: `NotFound` when there is no such file, `BadRequest` when the file
/// has no link.
pub fn new_emoji(id: u128, now: Timestamp, req: CreateEmojiRequest, file: Option<EmojiSource>) -> (r: Result<Emoji, AppError>)
    ensures
        match file {
            None => r matches Err(e) && e.is(ErrorKind::NotFound, "File not found"@),
            Some(f) => match f.url {
                None => r matches Err(e) && e.is(ErrorKind::BadRequest, "File has no URL"@),
                Some(u) => r matches Ok(e) && {
                    &&& e.id == id
                    &&& e.name == req.name
                    &&& e.category == req.category
                    &&& e.aliases == req.aliases
                    &&& e.url == u
                    &&& e.file_id == req.file_id
                    &&& e.width == f.width
                    &&& e.height == f.height
                    &&& e.is_public == req.is_public
                    &&& e.created_at == now
                    &&& e.updated_at is None
                },
            },
        },
{
    let f = match file {
        None => return Err(err(ErrorKind::NotFound, "File not found")),
        Some(f) => f,
    };
    let url = match f.url {
        None => return Err(err(ErrorKind::BadRequest, "File has no URL")),
        Some(u) => u,
    };
    Ok(Emoji {
        id,
        name: req.name,
        category: req.category,
        aliases: req.aliases,
        url,
        file_id: req.file_id,
        width: f.width,
        height: f.height,
        is_public: req.is_public,
        created_at: now,
        updated_at: None,
    })
}

/// The emoji that a lookup found, or `NotFound`.
pub fn found_emoji(found: Option<Emoji>) -> (r: Result<Emoji, AppError>)
    ensures
        match found {
            Some(e) => r == Ok::<Emoji, AppError>(e),
            None => r matches Err(e) && e.is(ErrorKind::NotFound, "Emoji not found"@),
        },
{
    match found {
        Some(e) => Ok(e),
        None => Err(err(ErrorKind::NotFound, "Emoji not found")),
    }
}

/// The emoji after a change made at `now`: each given field replaces the
/// stored one, the others stay, and the change time becomes `now`.
pub fn apply_emoji_update(emoji: Emoji, req: UpdateEmojiRequest, now: Timestamp) -> (e: Emoji)
    ensures
        e.id == emoji.id,
        e.name == (match req.name { Some(n) => n, None => emoji.name }),
        e.category == (match req.category { Some(c) => c, None => emoji.category }),
        e.aliases == (match req.aliases { Some(a) => a, None => emoji.aliases }),
        e.url == emoji.url,
        e.file_id == emoji.file_id,
        e.width == emoji.width,
        e.height == emoji.height,
        e.is_public == (match req.is_public { Some(p) => p, None => emoji.is_public }),
        e.created_at == emoji.created_at,
        e.updated_at == Some(now),
{
    let mut e = emoji;
    if let Some(name) = req.name {
        e.name = name;
    }
    if let Some(category) = req.category {
        e.category = category;
    }
    if let Some(aliases) = req.aliases {
        e.aliases = aliases;
    }
    if let Some(is_public) = req.is_public {
        e.is_public = is_public;
    }
    e.updated_at = Some(now);
    e
}

/// A local copy, with id `id` and made at `now`, of an emoji: the same name,
/// category, image and size, no aliases, and public.
pub fn copy_of_emoji(source: &Emoji, id: u128, now: Timestamp) -> (e: Emoji)
    ensures
        e.id == id,
        e.name@ == source.name@,
        e.category == source.category,
        e.aliases@.len() == 0,
        e.url@ == source.url@,
        e.file_id == source.file_id,
        e.width == source.width,
        e.height == source.height,
        e.is_public,
        e.created_at == now,
        e.updated_at is None,
{
    Emoji {
        id,
        name: source.name.clone(),
        category: source.category,
        aliases: Vec::new(),
        url: source.url.clone(),
        file_id: source.file_id,
        width: source.width,
        height: source.height,
        is_public: true,
        created_at: now,
        updated_at: None,
    }
}

/// The query for remote emojis: of one host when a host is given, else of
/// every remote host; both by name and up to `$limit`.
pub fn remote_emojis_query(host: &Option<String>) -> (q: &'static str)
    ensures
        q@ == (if host is Some {
            "SELECT * FROM emoji WHERE host = $host ORDER BY name ASC LIMIT $limit"@
        } else {
            "SELECT * FROM emoji WHERE host IS NOT NULL ORDER BY name ASC LIMIT $limit"@
        }),
{
    if host.is_some() {
        "SELECT * FROM emoji WHERE host = $host ORDER BY name ASC LIMIT $limit"
    } else {
        "SELECT * FROM emoji WHERE host IS NOT NULL ORDER BY name ASC LIMIT $limit"
    }
}

} // verus!
