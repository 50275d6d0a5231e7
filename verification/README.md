# feder

A portable ActivityPub protocol core, verified with Verus, and a small
single-user server around it.

- `src/` is the library. Each module states its behaviour in `requires` /
  `ensures` contracts over mathematical models (`Seq`, `Map`, views):
  - `vocab`, `iri`: the Activity Vocabulary types and absolute IRIs;
  - `follow`, `undo`, `note`: the protocol decisions for Follow, Accept,
    Undo and local Notes, with the laws that tie them together;
  - `http_signatures`, `signature_header`, `signature_law`, `crypto`:
    draft-Cavage signatures, digests, and the parser of `Signature`
    headers, with the proof that a signed header parses back;
  - `request`, `inbox`: the checks an inbox applies to a signed request and
    what it does with each activity;
  - `negotiation`: `Accept` header negotiation between ActivityPub and HTML;
  - `network`, `outbound`, `actor_fetch`, `delivery`: which addresses may be
    contacted, how a delivery is signed, how fetched actors are checked, and
    which inboxes a batch of activities goes to;
  - `resources`, `store`, `config`, `error`, `capabilities`, `status`: the
    published resources, stored records, configuration and errors.
- `app/` is the runtime: an axum server with SQLite storage and reqwest
  deliveries, which performs the I/O that the library's decisions ask for.
- `tests/` exercises the library on concrete values.
