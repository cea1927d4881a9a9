//! Creating notes: the options a note is made from, and where it is
//! delivered and published.
use vstd::prelude::*;
use crate::ids::{ulid_text, ulid_to_string};
use crate::activitypub::notes::{audience, audience_view, make_actor_url, make_note_url, note_actor_url, note_url};
use crate::json::{entries_view, json_view, jstr, lemma_json_view_compound, Json, JsonV};
use crate::models::{Note, NoteVisibility};
use crate::time::{rfc3339_text, to_rfc3339, Timestamp};
use crate::polls::{Poll, CreatePollRequest};

verus! {

/// Options of a poll attached to a new note.
#[derive(Clone, Debug)]
pub struct CreatePollOptions {
    pub choices: Vec<String>,
    /// Minutes until it closes.
    pub expires_in: Option<i32>,
    pub multiple: bool,
}

/// Options of a new note.
#[derive(Clone, Debug)]
pub struct CreateNoteOptions {
    pub text: Option<String>,
    pub cw: Option<String>,
    pub reply_id: Option<u128>,
    pub renote_id: Option<u128>,
    pub visibility: NoteVisibility,
    pub visible_user_ids: Vec<u128>,
    pub file_ids: Vec<String>,
    pub poll: Option<CreatePollOptions>,
}

/// Public and home notes are delivered to remote followers.
pub open spec fn is_delivered(v: NoteVisibility) -> bool {
    v is Public || v is Home
}

/// Whether a new note is delivered to remote followers.
pub fn delivers_to_followers(v: NoteVisibility) -> (r: bool)
    ensures
        r == is_delivered(v),
{
    match v {
        NoteVisibility::Public | NoteVisibility::Home => true,
        _ => false,
    }
}

/// The timeline channel a new note is published on, besides its author's
/// own: the public timeline for public notes, the home timeline for home
/// notes, none otherwise.
pub open spec fn timeline_channel(v: NoteVisibility) -> Option<Seq<char>> {
    match v {
        NoteVisibility::Public => Some("timeline:public"@),
        NoteVisibility::Home => Some("timeline:home"@),
        _ => None,
    }
}

/// The timeline channel of a new note.
pub fn stream_channel(v: NoteVisibility) -> (r: Option<String>)
    ensures
        match r {
            Some(c) => timeline_channel(v) == Some(c@),
            None => timeline_channel(v) is None,
        },
{
    match v {
        NoteVisibility::Public => Some(String::from_str("timeline:public")),
        NoteVisibility::Home => Some(String::from_str("timeline:home")),
        _ => None,
    }
}

/// The channel of a user's own stream: `user:{id}`.
pub fn user_channel(user_id: u128) -> (r: String)
    ensures
        r@ == "user:"@ + ulid_text(user_id),
{
    let mut r = String::from_str("user:");
    let t = ulid_to_string(user_id);
    r.append(t.as_str());
    r
}

/// The URI of a new local note: `{instance}/notes/{id}`.
pub fn local_note_uri(instance_url: &str, id: u128) -> (r: String)
    ensures
        r@ == instance_url@ + "/notes/"@ + ulid_text(id),
{
    let mut r = String::from_str(instance_url);
    r.append("/notes/");
    let t = ulid_to_string(id);
    r.append(t.as_str());
    r
}

/// A mention notifies the mentioned user, but never the author.
pub fn notifies_mention(target: u128, author: u128) -> (r: bool)
    ensures
        r == (target != author),
{
    target != author
}

/// The poll request a note's poll options make.
pub fn poll_request(options: &CreatePollOptions) -> (r: CreatePollRequest)
    ensures
        r.choices@ == options.choices@,
        r.expires_in == options.expires_in,
        r.multiple == Some(options.multiple),
{
    let mut choices: Vec<String> = Vec::new();
    let mut k: usize = 0;
    while k < options.choices.len()
        invariant
            k <= options.choices@.len(),
            choices@ == options.choices@.take(k as int),
        decreases options.choices@.len() - k,
    {
        choices.push(options.choices[k].clone());
        k = k + 1;
        assert(choices@ =~= options.choices@.take(k as int));
    }
    assert(options.choices@.take(options.choices@.len() as int) =~= options.choices@);
    CreatePollRequest { choices, expires_in: options.expires_in, multiple: Some(options.multiple) }
}

/// `n` copies of `x`.
pub open spec fn copies(x: u128, n: nat) -> Seq<u128> {
    Seq::new(n, |i: int| x)
}

/// The note `create_note` stores: made by `actor_id` at `now` from the
/// options, with its URI under the instance, the tags and emojis found in its
/// text, one mention entry per mention found (each naming the author, as the
/// mentioned users are not resolved), no counts and no reactions.
pub fn created_note(
    id: u128,
    now: Timestamp,
    actor_id: u128,
    options: CreateNoteOptions,
    instance_url: &str,
    hashtags: Vec<String>,
    emojis: Vec<String>,
    mention_count: usize,
) -> (n: Note)
    ensures
        n.id == id,
        n.created_at == now,
        n.reply_id == options.reply_id,
        n.renote_id == options.renote_id,
        n.text == options.text,
        n.cw == options.cw,
        n.actor_id == actor_id,
        n.renote_count == 0,
        n.replies_count == 0,
        n.reactions@.len() == 0,
        n.visibility == options.visibility,
        n.uri matches Some(u) && u@ == note_url(instance_url@, id),
        n.renote_uri is None,
        n.file_ids == options.file_ids,
        n.visible_user_ids == options.visible_user_ids,
        n.mentions@ == copies(actor_id, mention_count as nat),
        n.emojis == emojis,
        n.tags == hashtags,
        n.has_poll == options.poll is Some,
        n.host is None,
        n.reply_actor_id is None,
        n.renote_actor_id is None,
{
    let mut mentions: Vec<u128> = Vec::new();
    let mut k: usize = 0;
    while k < mention_count
        invariant
            k <= mention_count,
            mentions@ == copies(actor_id, k as nat),
        decreases mention_count - k,
    {
        mentions.push(actor_id);
        k = k + 1;
        assert(mentions@ =~= copies(actor_id, k as nat));
    }
    let has_poll = options.poll.is_some();
    Note {
        id,
        created_at: now,
        reply_id: options.reply_id,
        renote_id: options.renote_id,
        text: options.text,
        cw: options.cw,
        actor_id,
        renote_count: 0,
        replies_count: 0,
        reactions: Vec::new(),
        visibility: options.visibility,
        uri: Some(make_note_url(instance_url, id)),
        renote_uri: None,
        file_ids: options.file_ids,
        visible_user_ids: options.visible_user_ids,
        mentions,
        emojis,
        tags: hashtags,
        has_poll,
        host: None,
        reply_actor_id: None,
        renote_actor_id: None,
    }
}

/// The `Create` activity a new note is delivered to followers with: by the
/// author's URL, around a `Note` with its text, addressed to the public.
pub open spec fn follower_activity_view(note: Note, instance_url: Seq<char>) -> JsonV {
    let id = note_url(instance_url, note.id);
    let actor = note_actor_url(instance_url, note.actor_id);
    let published = rfc3339_text(note.created_at.secs as int, note.created_at.nanos as int);
    JsonV::Object(
        seq![
            ("@context"@, JsonV::Str("https://www.w3.org/ns/activitystreams"@)),
            ("id"@, JsonV::Str(id + "/activity"@)),
            ("type"@, JsonV::Str("Create"@)),
            ("actor"@, JsonV::Str(actor)),
            ("published"@, JsonV::Str(published)),
            (
                "object"@,
                JsonV::Object(
                    seq![
                        ("id"@, JsonV::Str(id)),
                        ("type"@, JsonV::Str("Note"@)),
                        ("attributedTo"@, JsonV::Str(actor)),
                        ("content"@, JsonV::Str(match note.text {
                            Some(t) => t@,
                            None => Seq::empty(),
                        })),
                        ("published"@, JsonV::Str(published)),
                        ("to"@, audience_view(NoteVisibility::Public)),
                    ],
                ),
            ),
        ],
    )
}

/// Builds the activity a new note is delivered to followers with.
pub fn follower_create_activity(note: &Note, instance_url: &str) -> (j: Json)
    requires
        note.created_at.wf(),
    ensures
        json_view(j) == follower_activity_view(*note, instance_url@),
{
    let id = make_note_url(instance_url, note.id);
    let published = to_rfc3339(note.created_at);
    let content = match &note.text {
        Some(t) => t.clone(),
        None => String::new(),
    };
    let obj = Json::Object(
        vec![
            (String::from_str("id"), Json::Str(id.clone())),
            (String::from_str("type"), jstr("Note")),
            (String::from_str("attributedTo"), Json::Str(make_actor_url(instance_url, note.actor_id))),
            (String::from_str("content"), Json::Str(content)),
            (String::from_str("published"), Json::Str(published.clone())),
            (String::from_str("to"), audience(NoteVisibility::Public)),
        ],
    );
    proof {
        lemma_json_view_compound(obj);
    }
    let mut aid = id;
    aid.append("/activity");
    let j = Json::Object(
        vec![
            (String::from_str("@context"), jstr("https://www.w3.org/ns/activitystreams")),
            (String::from_str("id"), Json::Str(aid)),
            (String::from_str("type"), jstr("Create")),
            (String::from_str("actor"), Json::Str(make_actor_url(instance_url, note.actor_id))),
            (String::from_str("published"), Json::Str(published)),
            (String::from_str("object"), obj),
        ],
    );
    proof {
        lemma_json_view_compound(j);
        assert(entries_view(obj->Object_0@) =~= follower_activity_view(*note, instance_url@)->Object_0[5].1->Object_0);
        assert(entries_view(j->Object_0@) =~= follower_activity_view(*note, instance_url@)->Object_0);
    }
    j
}

/// The name a mention is looked up under: the lowercased username of a local
/// mention (one without a host); remote mentions are not looked up.
pub fn mention_lookup_name(username: &str, host: &str) -> (r: Option<String>)
    ensures
        match r {
            Some(n) => host@.len() == 0 && n@ == crate::text::lowercase(username@),
            None => host@.len() > 0,
        },
{
    if host.unicode_len() == 0 {
        Some(crate::text::to_lowercase(username))
    } else {
        None
    }
}

/// The notification a mention makes, with id `id` at `now`: unread, of kind
/// mention, from the author to the mentioned user about the note; none when
/// the author mentions themself.
pub fn mention_notification(id: u128, now: Timestamp, target: u128, author: u128, note_id: u128) -> (r: Option<crate::api::notifications::Notification>)
    ensures
        match r {
            None => target == author,
            Some(n) => target != author && n.id == id && n.created_at == now
                && n.notification_type == crate::api::notifications::NotificationType::Mention && n.recipient_id == target
                && n.sender_id == Some(author) && n.note_id == Some(note_id) && n.reaction is None && !n.is_read,
        },
{
    if !notifies_mention(target, author) {
        return None;
    }
    Some(crate::api::notifications::Notification {
        id,
        created_at: now,
        notification_type: crate::api::notifications::NotificationType::Mention,
        recipient_id: target,
        sender_id: Some(author),
        note_id: Some(note_id),
        reaction: None,
        is_read: false,
    })
}

} // verus!
