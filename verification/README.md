# outbound_oauth2

Access tokens for SMTP relays that authenticate with OAuth2, verified with Verus.

- `src/` is the verified library. A provider (`provider.rs`) is a step function:
  it answers with a token, an error, a form to post to the token endpoint or a
  text to decode, and takes back what came of it. `cache.rs` holds the token
  between requests, `form.rs` and `percent.rs` write request bodies, `status.rs`
  turns refusals into errors, `debug.rs` writes debug texts without secrets, and
  `laws.rs` states what holds over several calls.
- `app/` drives a provider with `reqwest`, `serde_json` and `tokio`.
- `tests/` runs the library on concrete values.

Trusted without proof: `String::push`, the `Debug` text of a string, and the
`Display` text of `reqwest::StatusCode`.
