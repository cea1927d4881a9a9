//! OAuth: application credentials and the tokens issued to them.
use vstd::prelude::*;
use crate::activitypub::inbox::get_str_field;
use crate::api::checks::found;
use crate::error::{err, AppError, ErrorKind};
use crate::ids::{ulid_text, ulid_to_string};
use crate::json::{str_field, Json};
use crate::text::{join, join_strings, str_chars, string_views};
use crate::time::Timestamp;

verus! {

/// A registered application.
#[derive(Clone, Debug)]
pub struct OAuthApp {
    pub id: u128,
    pub name: String,
    pub client_id: String,
    pub client_secret: String,
}

/// A token as the client receives it.
#[derive(Clone, Debug)]
pub struct OAuthTokenResponse {
    pub access_token: String,
    pub token_type: String,
    pub scope: String,
    pub created_at: i64,
}

/// A character with Unicode's `White_Space` property, as `char::is_whitespace`
/// tests it.
pub open spec fn is_white_space(c: char) -> bool {
    let n = c as u32;
    (0x09 <= n <= 0x0D) || n == 0x20 || n == 0x85 || n == 0xA0 || n == 0x1680 || (0x2000 <= n <= 0x200A)
        || n == 0x2028 || n == 0x2029 || n == 0x202F || n == 0x205F || n == 0x3000
}

fn white_space(c: char) -> (r: bool)
    ensures
        r == is_white_space(c),
{
    let n = c as u32;
    (0x09 <= n && n <= 0x0D) || n == 0x20 || n == 0x85 || n == 0xA0 || n == 0x1680 || (0x2000 <= n && n <= 0x200A)
        || n == 0x2028 || n == 0x2029 || n == 0x202F || n == 0x205F || n == 0x3000
}

/// The length of the run of non-space characters a text starts with.
pub open spec fn word_len(s: Seq<char>) -> nat
    decreases s.len(),
{
    if s.len() == 0 || is_white_space(s[0]) {
        0
    } else {
        1 + word_len(s.drop_first())
    }
}

/// A word is no longer than the text, and a text that starts with a
/// non-space character starts with a word.
pub proof fn lemma_word_len_bounds(s: Seq<char>)
    ensures
        word_len(s) <= s.len(),
        s.len() > 0 && !is_white_space(s[0]) ==> word_len(s) >= 1,
    decreases s.len(),
{
    if s.len() > 0 && !is_white_space(s[0]) {
        lemma_word_len_bounds(s.drop_first());
    }
}

/// The words of a text: its maximal runs of non-space characters, in order
/// (`str::split_whitespace`).
pub open spec fn words(s: Seq<char>) -> Seq<Seq<char>>
    decreases s.len(),
{
    if s.len() == 0 {
        Seq::empty()
    } else if is_white_space(s[0]) {
        words(s.drop_first())
    } else {
        proof {
            lemma_word_len_bounds(s);
        }
        seq![s.take(word_len(s) as int)] + words(s.skip(word_len(s) as int))
    }
}

proof fn lemma_word_len_step(s: Seq<char>, i: int)
    requires
        0 <= i < s.len(),
        !is_white_space(s[i]),
    ensures
        word_len(s.skip(i)) == 1 + word_len(s.skip(i + 1)),
{
    assert(s.skip(i).drop_first() =~= s.skip(i + 1));
}

/// Splits a text at white space, dropping empty pieces.
pub fn split_whitespace(text: &str) -> (r: Vec<String>)
    ensures
        string_views(r@) == words(text@),
{
    let s = str_chars(text);
    let n = s.len();
    let mut out: Vec<String> = Vec::new();
    let mut i: usize = 0;
    assert(s@.skip(0) =~= s@);
    while i < n
        invariant
            n == s@.len(),
            s@ == text@,
            i <= n,
            string_views(out@) + words(s@.skip(i as int)) == words(text@),
        decreases n - i,
    {
        if white_space(s[i]) {
            assert(s@.skip(i as int).drop_first() =~= s@.skip(i as int + 1));
            i = i + 1;
        } else {
            let start = i;
            let mut w = String::new();
            while i < n && !white_space(s[i])
                invariant
                    n == s@.len(),
                    start <= i <= n,
                    w@ == s@.subrange(start as int, i as int),
                    word_len(s@.skip(start as int)) == (i - start) + word_len(s@.skip(i as int)),
                decreases n - i,
            {
                proof {
                    lemma_word_len_step(s@, i as int);
                }
                crate::text::push_char(&mut w, s[i]);
                assert(w@ =~= s@.subrange(start as int, i as int + 1));
                i = i + 1;
            }
            assert(word_len(s@.skip(i as int)) == 0);
            let ghost rest = s@.skip(start as int);
            assert(rest.take(word_len(rest) as int) =~= s@.subrange(start as int, i as int));
            assert(rest.skip(word_len(rest) as int) =~= s@.skip(i as int));
            let ghost before = string_views(out@);
            out.push(w);
            assert(string_views(out@) =~= before.push(s@.subrange(start as int, i as int)));
            assert(string_views(out@) + words(s@.skip(i as int)) =~= before + words(s@.skip(start as int)));
        }
    }
    assert(words(s@.skip(n as int)) =~= Seq::<Seq<char>>::empty());
    assert(string_views(out@) =~= string_views(out@) + words(s@.skip(n as int)));
    out
}

/// The client id and secret a request gives, or `BadRequest` naming the
/// first that is missing.
pub fn client_credentials(req: &Json) -> (r: Result<(String, String), AppError>)
    ensures
        match (str_field(*req, "client_id"@), str_field(*req, "client_secret"@)) {
            (None, _) => r matches Err(e) && e.is(ErrorKind::BadRequest, "Missing client_id"@),
            (Some(_), None) => r matches Err(e) && e.is(ErrorKind::BadRequest, "Missing client_secret"@),
            (Some(i), Some(s)) => r matches Ok(p) && p.0@ == i && p.1@ == s,
        },
{
    let id = match get_str_field(req, "client_id") {
        Some(i) => i,
        None => return Err(err(ErrorKind::BadRequest, "Missing client_id")),
    };
    let secret = match get_str_field(req, "client_secret") {
        Some(s) => s,
        None => return Err(err(ErrorKind::BadRequest, "Missing client_secret")),
    };
    Ok((id, secret))
}

/// The application a lookup found, when the secret is its own: `NotFound`
/// without one, `Unauthorized` for another secret.
pub fn check_app_secret(app: Option<OAuthApp>, secret: &str) -> (r: Result<OAuthApp, AppError>)
    ensures
        match app {
            None => r matches Err(e) && e.is(ErrorKind::NotFound, "App not found"@),
            Some(a) => if a.client_secret@ == secret@ {
                r matches Ok(b) && b == a
            } else {
                r matches Err(e) && e.is(ErrorKind::Unauthorized, "Invalid credentials"@)
            },
        },
{
    let a = found(app, "App not found")?;
    if !crate::text::str_eq(a.client_secret.as_str(), secret) {
        return Err(err(ErrorKind::Unauthorized, "Invalid credentials"));
    }
    Ok(a)
}

/// The scopes a token request asks for: the words of its `scope`, or `read`
/// and `write` without one.
pub open spec fn requested_scopes(req: Json) -> Seq<Seq<char>> {
    match str_field(req, "scope"@) {
        Some(s) => words(s),
        None => seq!["read"@, "write"@],
    }
}

/// Reads the scopes of a token request.
pub fn token_scopes(req: &Json) -> (r: Vec<String>)
    ensures
        string_views(r@) == requested_scopes(*req),
{
    match get_str_field(req, "scope") {
        Some(s) => split_whitespace(s.as_str()),
        None => {
            let r = vec![String::from_str("read"), String::from_str("write")];
            assert(string_views(r@) =~= seq!["read"@, "write"@]);
            r
        },
    }
}

/// A fresh access token from two fresh ULIDs: their texts joined by `_`.
pub fn access_token_text(a: u128, b: u128) -> (r: String)
    ensures
        r@ == ulid_text(a) + "_"@ + ulid_text(b),
{
    let mut r = ulid_to_string(a);
    r.append("_");
    let t = ulid_to_string(b);
    r.append(t.as_str());
    r
}

/// The client's view of an issued token: a bearer token with its scopes
/// joined by spaces and its creation time in seconds.
pub fn token_response(access_token: String, scopes: &Vec<String>, created_at: Timestamp) -> (r: OAuthTokenResponse)
    ensures
        r.access_token == access_token,
        r.token_type@ == "Bearer"@,
        r.scope@ == join(string_views(scopes@), " "@),
        r.created_at == created_at.secs,
{
    OAuthTokenResponse {
        access_token,
        token_type: String::from_str("Bearer"),
        scope: join_strings(scopes, " "),
        created_at: created_at.secs,
    }
}

} // verus!
