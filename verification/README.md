# mithic

The verified core of Mithic, an ActivityPub server: the rules, parsers and
builders behind its HTTP handlers, its federation and its services, written
in Verus with their contracts proved.

## Layout

- `src/` — the library, verified by Verus.
  - `text`, `json`, `ids`, `time`, `encoding`: strings, a JSON model with exact
    views, ULIDs, instants and byte encodings.
  - `models`, `error`, `db`: notes, actors, the error answers, the store
    handles.
  - `activitypub`: actor documents, WebFinger, inbox routing and reading,
    notes as objects and activities, collections and outbox pages.
  - `federation`: delivery targets, signing, the retry schedule, the queue
    records.
  - `api`: the client API's checks, queries and answers (accounts, statuses,
    drive, notifications, clips, lists, blocks and mutes, OAuth, push, …).
  - `services`: antennas, filters, emojis, charts, instance settings, notes,
    relays, timelines, Web Push and VAPID.
  - `polls`, `hashtags`: voting, and trending tags by distinct authors.
- `tests/` — tests of the library on concrete values.
- `app/` — what stays outside the proofs: serde copies of the library's
  types, the JSON bridge, file storage, environment reading and float
  percentages.

Calls into `chrono`, `ulid`, `uuid`, `url`, `regex`, `sha2`, `base64`, `argon2`,
`bcrypt`, `jsonwebtoken`, `image`, `sigh`, `http` and `web-push-native` go through
small functions whose contracts state what the crate computes where a few
lines can say it (Base64, ULID text), and otherwise give its result a name.
