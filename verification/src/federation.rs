//! Federation delivery: which inboxes an activity goes to, how a delivery is
//! signed (HTTP Signatures, rsa-sha256), what a queued delivery holds, and
//! when a failed one is retried.
use vstd::prelude::*;
use crate::json::{Json, JsonV, json_view, field, str_field, as_str_spec, as_i64_spec, jstr, clone_json,
    lemma_json_view_compound, entries_view};
use crate::text::{string_views, contains_string};
use crate::models::Actor;
use crate::time::{Timestamp, to_rfc2822, rfc2822_text, to_rfc3339_z, rfc3339_z_text};
use crate::encoding::{sha256, sha256_digest, base64_encode, base64_standard};

verus! {

/// The inbox a follower is reached at: its shared inbox when it has one, else
/// its own inbox.
pub open spec fn target_inbox(f: (Option<String>, Option<String>)) -> Option<Seq<char>> {
    match f.1 {
        Some(s) => Some(s@),
        None => match f.0 {
            Some(i) => Some(i@),
            None => None,
        },
    }
}

/// Some follower is reached at inbox `x`.
pub open spec fn is_target(followers: Seq<(Option<String>, Option<String>)>, x: Seq<char>) -> bool {
    exists|k: int| 0 <= k < followers.len() && target_inbox(#[trigger] followers[k]) == Some(x)
}

/// The inboxes to deliver to, given each remote follower's (inbox, shared
/// inbox): every follower's target inbox, each once, in the order first met.
/// Followers sharing an inbox get one delivery.
pub fn unique_inboxes(followers: &Vec<(Option<String>, Option<String>)>) -> (r: Vec<String>)
    ensures
        string_views(r@).no_duplicates(),
        forall|x: Seq<char>| string_views(r@).contains(x) <==> is_target(followers@, x),
{
    let mut r: Vec<String> = Vec::new();
    let mut i: usize = 0;
    while i < followers.len()
        invariant
            i <= followers@.len(),
            string_views(r@).no_duplicates(),
            forall|x: Seq<char>|
                string_views(r@).contains(x) <==> is_target(followers@.take(i as int), x),
        decreases followers@.len() - i,
    {
        let ghost before = followers@.take(i as int);
        let ghost after = followers@.take(i + 1);
        assert(after == before.push(followers@[i as int]));
        let target: Option<&String> = match &followers[i].1 {
            Some(s) => Some(s),
            None => match &followers[i].0 {
                Some(inbox) => Some(inbox),
                None => None,
            },
        };
        let ghost old_r = r@;
        match target {
            Some(t) => {
                if !contains_string(&r, t.as_str()) {
                    r.push(t.clone());
                    assert(string_views(r@) =~= string_views(old_r).push(t@));
                    assert forall|a: int, b: int|
                        0 <= a < string_views(r@).len() && 0 <= b < string_views(r@).len() && a != b implies
                        string_views(r@)[a] != string_views(r@)[b] by {
                        if a == old_r.len() {
                            assert(string_views(old_r).contains(string_views(old_r)[b]) || b == old_r.len());
                        } else if b == old_r.len() {
                            assert(string_views(old_r).contains(string_views(old_r)[a]));
                        }
                    }
                }
                assert forall|x: Seq<char>| string_views(r@).contains(x) <==> is_target(after, x) by {
                    if string_views(r@).contains(x) {
                        let m = choose|m: int| 0 <= m < string_views(r@).len() && string_views(r@)[m] == x;
                        if x != t@ {
                            assert(m < old_r.len());
                            assert(string_views(old_r)[m] == x);
                            assert(string_views(old_r).contains(x));
                            let k = choose|k: int| 0 <= k < before.len() && target_inbox(#[trigger] before[k]) == Some(x);
                            assert(after[k] == before[k]);
                        } else {
                            assert(target_inbox(after[i as int]) == Some(x));
                        }
                    }
                    if is_target(after, x) {
                        let k = choose|k: int| 0 <= k < after.len() && target_inbox(#[trigger] after[k]) == Some(x);
                        if k < i {
                            assert(before[k] == after[k]);
                            assert(is_target(before, x));
                            assert(string_views(old_r).contains(x));
                            let m = choose|m: int| 0 <= m < string_views(old_r).len() && string_views(old_r)[m] == x;
                            assert(string_views(r@)[m] == x);
                        } else {
                            assert(x == t@);
                            if string_views(old_r).contains(x) {
                                let m = choose|m: int| 0 <= m < string_views(old_r).len() && string_views(old_r)[m] == x;
                                assert(string_views(r@)[m] == x);
                            } else {
                                assert(string_views(r@)[old_r.len() as int] == x);
                            }
                        }
                    }
                }
            },
            None => {
                assert forall|x: Seq<char>| string_views(r@).contains(x) <==> is_target(after, x) by {
                    if is_target(before, x) {
                        let k = choose|k: int| 0 <= k < before.len() && target_inbox(#[trigger] before[k]) == Some(x);
                        assert(after[k] == before[k]);
                    }
                    if is_target(after, x) {
                        let k = choose|k: int| 0 <= k < after.len() && target_inbox(#[trigger] after[k]) == Some(x);
                        assert(k < i);
                        assert(before[k] == after[k]);
                    }
                }
            },
        }
        i = i + 1;
    }
    assert(followers@.take(followers@.len() as int) =~= followers@);
    r
}

/// What to do after a failed delivery: retry it, or give up.
#[derive(Clone, Copy, Debug, PartialEq, Eq, Structural)]
pub enum RetryDecision {
    /// Queue it again, as attempt number `attempts`, after `delay_secs`.
    Retry { attempts: i64, delay_secs: u64 },
    GiveUp,
}

/// The retry schedule: a delivery that failed after `attempts` earlier
/// attempts is retried while fewer than five were made, after one more
/// minute for each attempt; after five it is given up.
pub open spec fn retry_after_failure(attempts: i64) -> RetryDecision {
    if attempts < 5 {
        RetryDecision::Retry { attempts: (attempts + 1) as i64, delay_secs: (60 * (attempts + 1)) as u64 }
    } else {
        RetryDecision::GiveUp
    }
}

/// A failed delivery is retried as the next attempt, one more minute later
/// each time, and given up once five were made: a delivery is tried at most
/// six times.
pub proof fn lemma_retry_schedule(attempts: i64)
    requires
        attempts >= 0,
    ensures
        retry_after_failure(attempts) matches RetryDecision::Retry { attempts: n, delay_secs: d } ==> n
            == attempts + 1 && 1 <= n <= 5 && d == 60 * n,
        attempts >= 5 <==> retry_after_failure(attempts) is GiveUp,
{
}

/// Decides what happens to a delivery that failed after `attempts` earlier
/// attempts (a recorded count is never below -1).
pub fn decide_retry(attempts: i64) -> (r: RetryDecision)
    requires
        attempts >= -1,
    ensures
        r == retry_after_failure(attempts),
{
    if attempts < 5 {
        let next: i64 = attempts + 1;
        RetryDecision::Retry { attempts: next, delay_secs: 60 * (next as u64) }
    } else {
        RetryDecision::GiveUp
    }
}

/// A queued delivery, read from the queue's JSON record.
pub struct DeliveryTask<'a> {
    pub inbox_url: &'a str,
    pub activity: &'a Json,
    /// Attempts made so far; 0 when the record has no count.
    pub attempts: i64,
    /// The id of the local actor whose key signs the delivery.
    pub actor_id: &'a str,
}

/// Why a queued delivery record cannot be processed.
#[derive(Clone, Copy, Debug, PartialEq, Eq, Structural)]
pub enum TaskError {
    MissingInboxUrl,
    MissingActivity,
    MissingActor,
}

/// Reads a queued delivery record: `inbox_url` (a string), `activity`, the
/// optional integer `attempts`, and the activity's `actor` (a string), in
/// that order of checking.
pub fn parse_delivery_task(delivery: &Json) -> (r: Result<DeliveryTask<'_>, TaskError>)
    ensures
        str_field(*delivery, "inbox_url"@) is None <==> r == Err::<DeliveryTask<'_>, TaskError>(
            TaskError::MissingInboxUrl,
        ),
        (str_field(*delivery, "inbox_url"@) is Some && field(*delivery, "activity"@) is None) <==> r
            == Err::<DeliveryTask<'_>, TaskError>(TaskError::MissingActivity),
        (str_field(*delivery, "inbox_url"@) is Some && field(*delivery, "activity"@) is Some && str_field(
            field(*delivery, "activity"@).unwrap(),
            "actor"@,
        ) is None) <==> r == Err::<DeliveryTask<'_>, TaskError>(TaskError::MissingActor),
        r matches Ok(t) ==> {
            &&& str_field(*delivery, "inbox_url"@) == Some(t.inbox_url@)
            &&& field(*delivery, "activity"@) == Some(*t.activity)
            &&& t.attempts == match field(*delivery, "attempts"@) {
                Some(v) => match as_i64_spec(v) {
                    Some(n) => n,
                    None => 0,
                },
                None => 0,
            }
            &&& str_field(*t.activity, "actor"@) == Some(t.actor_id@)
        },
{
    let inbox_url = match delivery.get("inbox_url") {
        Some(v) => match v.as_str() {
            Some(s) => s,
            None => {
                return Err(TaskError::MissingInboxUrl);
            },
        },
        None => {
            return Err(TaskError::MissingInboxUrl);
        },
    };
    let activity = match delivery.get("activity") {
        Some(a) => a,
        None => {
            return Err(TaskError::MissingActivity);
        },
    };
    let attempts: i64 = match delivery.get("attempts") {
        Some(v) => match v.as_i64() {
            Some(n) => n,
            None => 0,
        },
        None => 0,
    };
    let actor_id = match activity.get("actor") {
        Some(v) => match v.as_str() {
            Some(s) => s,
            None => {
                return Err(TaskError::MissingActor);
            },
        },
        None => {
            return Err(TaskError::MissingActor);
        },
    };
    Ok(DeliveryTask { inbox_url, activity, attempts, actor_id })
}


/// The path and host that the `url` crate finds in a URL text, or `None`
/// when it rejects the text.
pub uninterp spec fn url_parts(s: Seq<char>) -> Option<(Seq<char>, Option<Seq<char>>)>;

/// `url::Url::parse` followed by `path` and `host_str`: the path and the
/// host of a URL, or `None` when the text is no URL. The parsing rules are
/// not restated here.
#[verifier::external_body]
fn parse_url(s: &str) -> (r: Option<(String, Option<String>)>)
    ensures
        r matches Some(p) ==> url_parts(s@) == Some(
            (
                p.0@,
                match p.1 {
                    Some(h) => Some(h@),
                    None => None,
                },
            ),
        ),
        r is None ==> url_parts(s@) is None,
{
    match url::Url::parse(s) {
        Ok(u) => {
            let host = match u.host_str() {
                Some(h) => Some(h.to_string()),
                None => None,
            };
            Some((u.path().to_string(), host))
        },
        Err(_) => None,
    }
}

/// The rsa-sha256 signature (PKCS#1 v1.5 over SHA-256) that a PEM private key
/// gives the UTF-8 bytes of a text, or `None` when the key cannot be read or
/// cannot sign.
pub uninterp spec fn rsa_sha256_signature(pem: Seq<char>, data: Seq<char>) -> Option<Seq<u8>>;

/// `sigh::PrivateKey::from_pem` followed by `RsaSha256::sign`: the signature
/// of `data` by the key in `pem`, or `None` when either step fails. PKCS#1
/// v1.5 signing is deterministic, so a signature, when one comes back, is
/// the one the two texts give; a key that cannot be read or cannot sign
/// always fails. Whether OpenSSL signs with a usable key also depends on the
/// machine (the random source its RSA blinding draws on, its crypto policy),
/// so a failure is not stated to follow from the texts; the algorithm itself
/// is not restated here.
#[verifier::external_body]
fn sign_rsa_sha256(pem: &str, data: &str) -> (r: Option<Vec<u8>>)
    ensures
        r matches Some(v) ==> rsa_sha256_signature(pem@, data@) == Some(v@),
        rsa_sha256_signature(pem@, data@) is None ==> r is None,
{
    let key = match <sigh::PrivateKey as sigh::Key>::from_pem(pem.as_bytes()) {
        Ok(k) => k,
        Err(_) => return None,
    };
    <sigh::alg::RsaSha256 as sigh::alg::Algorithm>::sign(&sigh::alg::RsaSha256, &key, data.as_bytes()).ok()
}

/// The headers of a signed delivery.
#[derive(Debug)]
pub struct SignedDelivery {
    pub host: String,
    pub date: String,
    pub digest: String,
    pub signature: String,
}

/// Why a delivery could not be signed.
#[derive(Clone, Copy, Debug, PartialEq, Eq, Structural)]
pub enum SignError {
    /// The actor has no private key.
    NoPrivateKey,
    /// The inbox is no URL.
    InvalidUrl,
    /// The inbox URL has no host.
    NoHost,
    /// The private key could not be read, or OpenSSL did not sign with it.
    SigningFailed,
}

/// The `Digest` header of a body: `SHA-256=` and the Base64 of its SHA-256.
pub open spec fn digest_header(body: Seq<u8>) -> Seq<char> {
    "SHA-256="@ + base64_standard(sha256_digest(body))
}

/// The `Digest` header a delivery of `body` carries.
pub fn delivery_digest(body: &[u8]) -> (r: String)
    ensures
        r@ == digest_header(body@),
{
    let hash = sha256(body);
    let mut digest = String::from_str("SHA-256=");
    let hash64 = base64_encode(hash.as_slice());
    digest.append(hash64.as_str());
    digest
}

/// The text that an HTTP Signature over `(request-target) host date digest`
/// signs, for a POST to `path`.
pub open spec fn signing_string(path: Seq<char>, host: Seq<char>, date: Seq<char>, digest: Seq<char>) -> Seq<char> {
    "(request-target): post "@ + path + "\nhost: "@ + host + "\ndate: "@ + date + "\ndigest: "@ + digest
}

/// The `Signature` header for a key id and a Base64 signature.
pub open spec fn signature_header(key_id: Seq<char>, sig: Seq<char>) -> Seq<char> {
    "keyId=\""@ + key_id + "\",algorithm=\"rsa-sha256\",headers=\"(request-target) host date digest\",signature=\""@
        + sig + "\""@
}

/// Signs the delivery of `body` (the activity's JSON bytes) to `inbox_url`
/// with the actor's key, dated `now`. Checks in order: the actor has a
/// private key, the inbox is a URL, it has a host, the key signs.
pub fn sign_delivery(inbox_url: &str, body: &Vec<u8>, actor: &Actor, instance_url: &str, now: Timestamp) -> (r: Result<SignedDelivery, SignError>)
    requires
        now.wf(),
        crate::time::in_rfc2822_range(now),
    ensures
        actor.private_key is None <==> r == Err::<SignedDelivery, SignError>(SignError::NoPrivateKey),
        (actor.private_key is Some && url_parts(inbox_url@) is None) <==> r == Err::<SignedDelivery, SignError>(
            SignError::InvalidUrl,
        ),
        (actor.private_key is Some && url_parts(inbox_url@) is Some && url_parts(inbox_url@).unwrap().1 is None) <==> r == Err::<
            SignedDelivery,
            SignError,
        >(SignError::NoHost),
        r == Err::<SignedDelivery, SignError>(SignError::SigningFailed) ==> actor.private_key is Some
            && url_parts(inbox_url@) is Some && url_parts(inbox_url@).unwrap().1 is Some,
        (actor.private_key is Some && url_parts(inbox_url@) is Some && url_parts(inbox_url@).unwrap().1 is Some
            && rsa_sha256_signature(
            actor.private_key.unwrap()@,
            signing_string(
                url_parts(inbox_url@).unwrap().0,
                url_parts(inbox_url@).unwrap().1.unwrap(),
                rfc2822_text(now.secs as int, now.nanos as int),
                digest_header(body@),
            ),
        ) is None) ==> r == Err::<SignedDelivery, SignError>(SignError::SigningFailed),
        r matches Ok(d) ==> {
            &&& actor.private_key matches Some(pem)
            &&& url_parts(inbox_url@) matches Some(u)
            &&& u.1 == Some(d.host@)
            &&& d.date@ == rfc2822_text(now.secs as int, now.nanos as int)
            &&& d.digest@ == digest_header(body@)
            &&& rsa_sha256_signature(pem@, signing_string(u.0, d.host@, d.date@, d.digest@)) matches Some(sig)
            &&& d.signature@ == signature_header(
                actor.spec_actor_uri(instance_url@) + "#main-key"@,
                base64_standard(sig),
            )
        },
{
    let pem = match &actor.private_key {
        Some(k) => k,
        None => {
            return Err(SignError::NoPrivateKey);
        },
    };
    let mut key_id = actor.actor_uri(instance_url);
    key_id.append("#main-key");
    let (path, host) = match parse_url(inbox_url) {
        Some((p, h)) => match h {
            Some(h) => (p, h),
            None => {
                return Err(SignError::NoHost);
            },
        },
        None => {
            return Err(SignError::InvalidUrl);
        },
    };
    let date = to_rfc2822(now);
    let digest = delivery_digest(body.as_slice());
    let mut input = String::from_str("(request-target): post ");
    input.append(path.as_str());
    input.append("\nhost: ");
    input.append(host.as_str());
    input.append("\ndate: ");
    input.append(date.as_str());
    input.append("\ndigest: ");
    input.append(digest.as_str());
    assert(input@ =~= signing_string(path@, host@, date@, digest@));
    let sig = match sign_rsa_sha256(pem.as_str(), input.as_str()) {
        Some(s) => s,
        None => {
            return Err(SignError::SigningFailed);
        },
    };
    let sig64 = base64_encode(sig.as_slice());
    let mut header = String::from_str("keyId=\"");
    header.append(key_id.as_str());
    header.append("\",algorithm=\"rsa-sha256\",headers=\"(request-target) host date digest\",signature=\"");
    header.append(sig64.as_str());
    header.append("\"");
    assert(header@ =~= signature_header(key_id@, sig64@));
    Ok(SignedDelivery { host, date, digest, signature: header })
}


/// Whether a follow request is answered by accepting or by rejecting it.
#[derive(Clone, Copy, Debug, PartialEq, Eq, Structural)]
pub enum FollowAnswer {
    Accept,
    Reject,
}

/// The activity type of an answer.
pub open spec fn answer_type(a: FollowAnswer) -> Seq<char> {
    match a {
        FollowAnswer::Accept => "Accept"@,
        FollowAnswer::Reject => "Reject"@,
    }
}

/// The fragment that names an answer inside its actor's URI.
pub open spec fn answer_fragment(a: FollowAnswer) -> Seq<char> {
    match a {
        FollowAnswer::Accept => "#accepts/"@,
        FollowAnswer::Reject => "#rejects/"@,
    }
}

/// The ActivityStreams context URI.
pub open spec fn as_context() -> Seq<char> {
    "https://www.w3.org/ns/activitystreams"@
}

/// The answer `a` of the local actor at `local_uri` to the follow request of
/// `follower`, with id suffix `uuid`.
pub open spec fn follow_answer_view(a: FollowAnswer, local_uri: Seq<char>, follower: Seq<char>, uuid: Seq<char>) -> JsonV {
    JsonV::Object(
        seq![
            ("@context"@, JsonV::Str(as_context())),
            ("id"@, JsonV::Str(local_uri + answer_fragment(a) + uuid)),
            ("type"@, JsonV::Str(answer_type(a))),
            ("actor"@, JsonV::Str(local_uri)),
            (
                "object"@,
                JsonV::Object(
                    seq![
                        ("type"@, JsonV::Str("Follow"@)),
                        ("actor"@, JsonV::Str(follower)),
                        ("object"@, JsonV::Str(local_uri)),
                    ],
                ),
            ),
        ],
    )
}

/// A string value holding `s`.
fn jstring(s: String) -> (j: Json)
    ensures
        json_view(j) == JsonV::Str(s@),
{
    Json::Str(s)
}

/// The answer to a follow request, with the given id suffix.
pub fn follow_answer_with_id(a: FollowAnswer, local_actor: &Actor, follower_actor_id: &str, instance_url: &str, uuid: &str) -> (j: Json)
    ensures
        json_view(j) == follow_answer_view(
            a,
            local_actor.spec_actor_uri(instance_url@),
            follower_actor_id@,
            uuid@,
        ),
{
    let uri = local_actor.actor_uri(instance_url);
    let mut id = uri.clone();
    match a {
        FollowAnswer::Accept => id.append("#accepts/"),
        FollowAnswer::Reject => id.append("#rejects/"),
    }
    id.append(uuid);
    let kind = match a {
        FollowAnswer::Accept => jstr("Accept"),
        FollowAnswer::Reject => jstr("Reject"),
    };
    let object = Json::Object(
        vec![
            (String::from_str("type"), jstr("Follow")),
            (String::from_str("actor"), jstr(follower_actor_id)),
            (String::from_str("object"), jstring(uri.clone())),
        ],
    );
    let ghost ov = JsonV::Object(
        seq![
            ("type"@, JsonV::Str("Follow"@)),
            ("actor"@, JsonV::Str(follower_actor_id@)),
            ("object"@, JsonV::Str(uri@)),
        ],
    );
    proof {
        lemma_json_view_compound(object);
        assert(entries_view(object->Object_0@) =~= ov->Object_0);
    }
    let j = Json::Object(
        vec![
            (String::from_str("@context"), jstr("https://www.w3.org/ns/activitystreams")),
            (String::from_str("id"), jstring(id)),
            (String::from_str("type"), kind),
            (String::from_str("actor"), jstring(uri)),
            (String::from_str("object"), object),
        ],
    );
    proof {
        lemma_json_view_compound(j);
        assert(entries_view(j->Object_0@) =~= follow_answer_view(
            a,
            local_actor.spec_actor_uri(instance_url@),
            follower_actor_id@,
            uuid@,
        )->Object_0);
    }
    j
}

/// The answer to a follow request, with a fresh random id
/// (`{uri}#accepts/{uuid}` or `{uri}#rejects/{uuid}`).
pub fn follow_answer(a: FollowAnswer, local_actor: &Actor, follower_actor_id: &str, instance_url: &str) -> (j: Json)
    ensures
        exists|u: Seq<char>|
            json_view(j) == follow_answer_view(
                a,
                local_actor.spec_actor_uri(instance_url@),
                follower_actor_id@,
                u,
            ),
{
    let uuid = crate::ids::new_uuid_v4();
    follow_answer_with_id(a, local_actor, follower_actor_id, instance_url, uuid.as_str())
}


/// A queued delivery record.
pub open spec fn queue_record_view(inbox: Seq<char>, activity: JsonV, attempts: int) -> JsonV {
    JsonV::Object(
        seq![("inbox_url"@, JsonV::Str(inbox)), ("activity"@, activity), ("attempts"@, JsonV::Int(attempts))],
    )
}

/// The record that queues `activity` for delivery to `inbox`, with no
/// attempt made yet.
pub fn queue_record(inbox: &str, activity: &Json) -> (j: Json)
    ensures
        json_view(j) == queue_record_view(inbox@, json_view(*activity), 0),
{
    let j = Json::Object(
        vec![
            (String::from_str("inbox_url"), jstr(inbox)),
            (String::from_str("activity"), clone_json(activity)),
            (String::from_str("attempts"), Json::Int(0)),
        ],
    );
    proof {
        lemma_json_view_compound(j);
        assert(entries_view(j->Object_0@) =~= queue_record_view(inbox@, json_view(*activity), 0)->Object_0);
    }
    j
}

/// One queue record per inbox, in order.
pub fn queue_records(inboxes: &Vec<String>, activity: &Json) -> (r: Vec<Json>)
    ensures
        r@.len() == inboxes@.len(),
        forall|k: int|
            0 <= k < inboxes@.len() ==> json_view(#[trigger] r@[k]) == queue_record_view(
                inboxes@[k]@,
                json_view(*activity),
                0,
            ),
{
    let mut r: Vec<Json> = Vec::new();
    let mut i: usize = 0;
    while i < inboxes.len()
        invariant
            i <= inboxes@.len(),
            r@.len() == i,
            forall|k: int|
                0 <= k < i ==> json_view(#[trigger] r@[k]) == queue_record_view(
                    inboxes@[k]@,
                    json_view(*activity),
                    0,
                ),
        decreases inboxes@.len() - i,
    {
        r.push(queue_record(inboxes[i].as_str(), activity));
        i = i + 1;
    }
    r
}

/// A retry record: the delivery again, with its new attempt count and the
/// instant before which it is not retried.
pub open spec fn retry_record_view(inbox: Seq<char>, activity: JsonV, attempts: int, after: Seq<char>) -> JsonV {
    JsonV::Object(
        seq![
            ("inbox_url"@, JsonV::Str(inbox)),
            ("activity"@, activity),
            ("attempts"@, JsonV::Int(attempts)),
            ("retry_after"@, JsonV::Str(after)),
        ],
    )
}

/// After a failed delivery at `now`: the record that queues its retry, or
/// `None` when it is given up (see `retry_after_failure`).
pub fn retry_record(inbox_url: &str, activity: &Json, attempts: i64, now: Timestamp) -> (r: Option<Json>)
    requires
        attempts >= -1,
        now.wf(),
        now.secs <= crate::time::MAX_SECS - 300,
    ensures
        r is None <==> retry_after_failure(attempts) is GiveUp,
        r matches Some(j) ==> retry_after_failure(attempts) matches RetryDecision::Retry { attempts: n, delay_secs: d }
            && json_view(j) == retry_record_view(
            inbox_url@,
            json_view(*activity),
            n as int,
            rfc3339_z_text(now.secs + d, now.nanos as int),
        ),
{
    match decide_retry(attempts) {
        RetryDecision::GiveUp => None,
        RetryDecision::Retry { attempts: n, delay_secs: d } => {
            let after = Timestamp { secs: now.secs + (d as i64), nanos: now.nanos };
            let j = Json::Object(
                vec![
                    (String::from_str("inbox_url"), jstr(inbox_url)),
                    (String::from_str("activity"), clone_json(activity)),
                    (String::from_str("attempts"), Json::Int(n)),
                    (String::from_str("retry_after"), jstring(to_rfc3339_z(after))),
                ],
            );
            proof {
                lemma_json_view_compound(j);
                assert(entries_view(j->Object_0@) =~= retry_record_view(
                    inbox_url@,
                    json_view(*activity),
                    n as int,
                    rfc3339_z_text(now.secs + d, now.nanos as int),
                )->Object_0);
            }
            Some(j)
        },
    }
}

/// Counts of the delivery queue.
#[derive(Clone, Copy, Debug, PartialEq, Eq, Structural)]
pub struct QueueStats {
    pub total: usize,
    pub processing: usize,
    pub pending: usize,
}

/// The queue's counts from its two list lengths: pending is what is queued
/// beyond what is being processed, never below zero.
pub fn queue_stats(queue_length: usize, processing: usize) -> (r: QueueStats)
    ensures
        r.total == queue_length,
        r.processing == processing,
        r.pending == if queue_length >= processing {
            (queue_length - processing) as usize
        } else {
            0usize
        },
{
    let pending: usize = if queue_length >= processing {
        queue_length - processing
    } else {
        0
    };
    QueueStats { total: queue_length, processing, pending }
}

/// A queued delivery as an administrator sees it.
#[derive(Debug)]
pub struct QueueJob {
    pub id: String,
    pub inbox_url: String,
    pub activity: Json,
    pub attempts: i64,
}

/// The job at position `index` of the queue, from its record: a missing
/// inbox reads as empty, a missing activity as `null`, a missing count as 0.
pub fn queue_job_from_json(index: u64, job: &Json) -> (r: QueueJob)
    ensures
        r.id@ == crate::text::decimal(index as nat),
        r.inbox_url@ == match str_field(*job, "inbox_url"@) {
            Some(s) => s,
            None => Seq::<char>::empty(),
        },
        json_view(r.activity) == match field(*job, "activity"@) {
            Some(a) => json_view(a),
            None => JsonV::Null,
        },
        r.attempts == match field(*job, "attempts"@) {
            Some(v) => match as_i64_spec(v) {
                Some(n) => n,
                None => 0,
            },
            None => 0,
        },
{
    let mut id = String::new();
    crate::text::push_decimal(&mut id, index);
    assert(id@ =~= crate::text::decimal(index as nat));
    let inbox_url = match job.get("inbox_url") {
        Some(v) => match v.as_str() {
            Some(s) => String::from_str(s),
            None => String::new(),
        },
        None => String::new(),
    };
    let activity = match job.get("activity") {
        Some(a) => clone_json(a),
        None => Json::Null,
    };
    let attempts: i64 = match job.get("attempts") {
        Some(v) => match v.as_i64() {
            Some(n) => n,
            None => 0,
        },
        None => 0,
    };
    QueueJob { id, inbox_url, activity, attempts }
}

} // verus!
