# tigeropen

The logic of a client for the Tiger OpenAPI trading and market-data service,
written in Verus and proved against its contracts.

- `src/` is the verified library: configuration parsing and priority rules,
  token lifetime and token files, request parameters, response and error-code
  handling, retry and backoff, the wire enums, market-data conversions, the
  push protocol's framing, request ids, subscription bookkeeping, connection
  state and message routing. Calls into `base64`, `chrono`, `chrono-tz` and
  `serde_json` stand behind small trusted wrappers whose contracts say what
  the library relies on.
- `tests/` runs the library on concrete values.
- `app/` is the unverified shell: files, the environment, the HTTP client
  (posting, retrying and reading replies; the request signature scheme is
  supplied by its user) and the domain query, JSON (de)serialisation of the
  data models, logging, background token refresh, and the models that carry
  floating-point fields. The push connection's transport (TLS and the
  protobuf wire format) is not part of it; its state machine, framing and
  routing are in the library.
