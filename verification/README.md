# sdkwork_rtc

The provider-facing and storage-facing logic of the SDKWork RTC service, written in
Verus. The functions in `src/` are verified against their `requires`/`ensures`
contracts; the few trusted items that call `sha2`, `hmac`, `base64`, `serde_json`
`String::push` and the system clock are marked `#[verifier::external_body]` and say in their doc
comments what they assume.

What the library covers:

- RTC provider plugins (Agora, Aliyun, LiveKit, Tencent, Volcengine): descriptors,
  session handles, participant credentials, health snapshots, provider query results.
- Webhook parsing for LiveKit and Volcengine, signature checks (HMAC-SHA256, SHA-256,
  base64 through `hmac`, `sha2` and `base64`), and the Volcengine OpenAPI request
  signing.
- JSON handling over `serde_json` values, modelled as a JSON view.
- The storage rules: enum codes and their round trips, id parsing, idempotency claims,
  sort columns, list windows, the write plan of a persistence change set, and the SQL
  text the repositories run.
- `src/laws.rs`: proof functions for the properties that span several functions
  (round trips of every stored code, idempotency, trimming, signing secrecy, the order
  of RFC 3339 timestamps).

`app/` holds what touches the process environment; `tests/` runs the library with the
real outside crates linked.
