# huawei-obs-client

A client library for **Huawei OBS** (Object Storage Service), which is S3-compatible
but asks for a `Content-MD5` header on CORS operations that generic S3 libraries do not send.

The crate is split in two:

- `src/` is the library, verified with Verus: client configuration, error classification
  and user messages, the conversion of lifecycle and CORS rules to and from the S3 API's
  shapes, the `Content-MD5` value, the Object Lock and retention request bodies and URLs,
  and what each operation makes of the replies it gets.
- `app/` holds the async operations (`ObsClientOps`), which send the requests through
  rust-s3, the AWS SDK and reqwest and hand the replies to the library; and copies of the
  error and data types with `thiserror` and `serde` derives.

Laws proved in `src/`:

- lifecycle rules read back as written, transitions included; an empty prefix or an empty
  tag list reads back as none (`lifecycle::lemma_rules_round_trip`);
- CORS rules read back as written, ids included; an empty header list reads back as none
  (`cors::lemma_rules_round_trip`);
- the retention date written for an object reads back from that body
  (`worm::lemma_retention_round_trip`);
- an Object Lock configuration reads back enabled exactly when it was set enabled
  (`worm::lemma_object_lock_enabled_round_trip`);
- error messages name the bucket, object or setting they are about
  (`error::lemma_message_names_subject`), and an error's display text ends with the text
  it carries (`error::lemma_display_ends_with_payload`);
- a disabled Object Lock configuration is written the same whatever default retention it
  holds, which is what removing the configuration writes
  (`worm::lemma_disabled_body_ignores_retention`);
- summarizing an error message a second time changes nothing, given what `to_lowercase`
  states of ASCII text for the summary it is applied to (`error::lemma_summary_idempotent`);
- Base64 output length, and a 24-character `Content-MD5` (`cors::lemma_base64_length`).
