//! WebFinger: finding a local actor from an `acct:` address.
use vstd::prelude::*;
use crate::error::{AppError, ErrorKind, err};
use crate::models::{user_url, make_user_url};
use crate::text::{has_prefix, trim_start_all, split_on, starts_with_str, trim_start_matches, str_chars,
    split_chars, chars_to_string, views, lemma_split_on_nonempty, lemma_split_on_pair};

verus! {

/// Query of the WebFinger endpoint.
#[derive(Clone, Debug)]
pub struct WebfingerQuery {
    pub resource: String,
}

/// One link of a WebFinger answer.
#[derive(Clone, Debug)]
pub struct WebfingerLink {
    pub rel: String,
    pub link_type: Option<String>,
    pub href: Option<String>,
    pub template: Option<String>,
}

/// A WebFinger answer.
#[derive(Clone, Debug)]
pub struct WebfingerResponse {
    pub subject: String,
    pub aliases: Vec<String>,
    pub links: Vec<WebfingerLink>,
}

/// The host of the instance URL: the URL without a leading `http://`, then
/// without a leading `https://` (each removed as often as it repeats).
pub open spec fn instance_host(instance_url: Seq<char>) -> Seq<char> {
    trim_start_all(trim_start_all(instance_url, "http://"@), "https://"@)
}

/// The parts of the address in a resource: what follows `acct:`, split at
/// every `@`.
pub open spec fn acct_parts(resource: Seq<char>) -> Seq<Seq<char>> {
    split_on(trim_start_all(resource, "acct:"@), '@')
}

/// Reads a WebFinger resource: it must start with `acct:`, hold exactly one
/// `@`, and name this instance's host. Gives the username and host.
pub fn parse_webfinger_resource(resource: &str, instance_url: &str) -> (r: Result<(String, String), AppError>)
    ensures
        !has_prefix(resource@, "acct:"@) <==> (r matches Err(e) && e.is(
            ErrorKind::Validation,
            "Invalid resource format"@,
        )),
        (has_prefix(resource@, "acct:"@) && acct_parts(resource@).len() != 2) <==> (r matches Err(e) && e.is(
            ErrorKind::Validation,
            "Invalid acct format"@,
        )),
        (has_prefix(resource@, "acct:"@) && acct_parts(resource@).len() == 2 && acct_parts(resource@)[1]
            != instance_host(instance_url@)) <==> (r matches Err(e) && e.is(
            ErrorKind::NotFound,
            "Actor not found on this instance"@,
        )),
        r matches Ok(p) ==> acct_parts(resource@).len() == 2 && p.0@ == acct_parts(resource@)[0] && p.1@
            == acct_parts(resource@)[1] && p.1@ == instance_host(instance_url@),
{
    proof {
        reveal_strlit("Invalid resource format");
        reveal_strlit("Invalid acct format");
    }
    if !starts_with_str(resource, "acct:") {
        let e = err(ErrorKind::Validation, "Invalid resource format");
        assert("Invalid acct format"@.len() == 19);
        assert("Invalid resource format"@.len() == 23);
        assert(e.message() != "Invalid acct format"@);
        return Err(e);
    }
    let acct = trim_start_matches(resource, "acct:");
    let chars = str_chars(acct.as_str());
    let parts = split_chars(&chars, '@');
    if parts.len() != 2 {
        let e = err(ErrorKind::Validation, "Invalid acct format");
        assert("Invalid acct format"@.len() == 19);
        assert("Invalid resource format"@.len() == 23);
        assert(e.message() != "Invalid resource format"@);
        return Err(e);
    }
    assert(views(parts@)[0] == parts@[0]@);
    assert(views(parts@)[1] == parts@[1]@);
    let username = chars_to_string(&parts[0]);
    let host = chars_to_string(&parts[1]);
    let no_http = trim_start_matches(instance_url, "http://");
    let ihost = trim_start_matches(no_http.as_str(), "https://");
    if !crate::text::str_eq(host.as_str(), ihost.as_str()) {
        return Err(err(ErrorKind::NotFound, "Actor not found on this instance"));
    }
    Ok((username, host))
}

/// The WebFinger answer for a local user: subject `acct:{username}@{host}`,
/// the actor URL as alias, and links to the actor document and profile page.
pub fn webfinger_response(instance_url: &str, username: &str, host: &str) -> (r: WebfingerResponse)
    ensures
        r.subject@ == "acct:"@ + username@ + "@"@ + host@,
        r.aliases@.len() == 1,
        r.aliases@[0]@ == user_url(instance_url@, username@),
        r.links@.len() == 2,
        r.links@[0].rel@ == "self"@,
        r.links@[0].link_type matches Some(t) && t@ == "application/activity+json"@,
        r.links@[0].href matches Some(h) && h@ == user_url(instance_url@, username@),
        r.links@[0].template is None,
        r.links@[1].rel@ == "http://webfinger.net/rel/profile-page"@,
        r.links@[1].link_type matches Some(t) && t@ == "text/html"@,
        r.links@[1].href matches Some(h) && h@ == user_url(instance_url@, username@),
        r.links@[1].template is None,
{
    let url = make_user_url(instance_url, username);
    let mut subject = String::from_str("acct:");
    subject.append(username);
    subject.append("@");
    subject.append(host);
    WebfingerResponse {
        subject,
        aliases: vec![url.clone()],
        links: vec![
            WebfingerLink {
                rel: String::from_str("self"),
                link_type: Some(String::from_str("application/activity+json")),
                href: Some(url.clone()),
                template: None,
            },
            WebfingerLink {
                rel: String::from_str("http://webfinger.net/rel/profile-page"),
                link_type: Some(String::from_str("text/html")),
                href: Some(url),
                template: None,
            },
        ],
    }
}


/// The subject a WebFinger answer gives a user: `acct:{username}@{host}`.
pub open spec fn subject_of(username: Seq<char>, host: Seq<char>) -> Seq<char> {
    "acct:"@ + username + "@"@ + host
}

/// What WebFinger answers for a local user can be looked up again: the
/// subject of the answer for a username and this instance's host is a
/// resource that names exactly that username on this instance. This holds
/// when neither part holds an `@` and the address does not itself begin
/// with `acct:` (a leading `acct:` is removed as often as it repeats).
pub proof fn lemma_webfinger_subject_resolves(instance_url: Seq<char>, username: Seq<char>, host: Seq<char>)
    requires
        !username.contains('@'),
        !host.contains('@'),
        !has_prefix(username + "@"@ + host, "acct:"@),
        host == instance_host(instance_url),
    ensures
        has_prefix(subject_of(username, host), "acct:"@),
        acct_parts(subject_of(username, host)) == seq![username, host],
        acct_parts(subject_of(username, host))[1] == instance_host(instance_url),
{
    reveal_strlit("acct:");
    reveal_strlit("@");
    let rest = username + "@"@ + host;
    let subject = subject_of(username, host);
    assert(subject =~= "acct:"@ + rest);
    assert(subject.subrange(0, 5) =~= "acct:"@);
    assert(has_prefix(subject, "acct:"@));
    assert(subject.skip(5) =~= rest);
    assert(trim_start_all(rest, "acct:"@) == rest);
    assert(trim_start_all(subject, "acct:"@) == rest);
    assert(rest =~= username + seq!['@'] + host);
    lemma_split_on_pair(username, host, '@');
}

} // verus!
