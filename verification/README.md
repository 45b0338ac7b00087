# pg_durable: the durable HTTP activities

`df.http()` and `df.http_multipart()` make workflow nodes that send an HTTP
request from inside PostgreSQL's background worker. This crate holds what those
nodes decide, verified with Verus, and the thin layer that does the sending.

- `src/activities/` — the activities. A job is taken up (`execute`), authorised
  (`Pending::authorize`), turned into a request (`Cleared::request`) and
  reported on (`Sent::send_failed`, `Sent::completed`). Each step takes what the
  outside world answered to the step before; `replay` takes all steps with the
  answers at hand.
- `src/ssrf.rs`, `src/address.rs` — where a request may go: schemes, the
  endpoint allow-list, the address blocklist.
- `src/redact.rs`, `src/url.rs` — URLs, and what of them may be logged.
- `src/encoding.rs` — base64 payloads.
- `src/settings.rs` — the settings that the extension defines.
- `src/text.rs`, `src/types.rs` — strings as sequences, and the plain data.
- `src/laws/` — what holds of all this together.
- `app/` — the catalog query, the HTTP client and its resolver, JSON
  configurations, and the server's start-up hook.
- `tests/` — the library on concrete values.

Which outbound HTTP a build allows is an `HttpPolicy`, fixed by whoever links
the crate.
