# cyclonedds

The data-side logic of Rust bindings for the CycloneDDS publish/subscribe
middleware, written in Verus and proved against its contracts.

## Layout

- `src/` — the verified library.
  - Dynamic types and values: `dynamic_type`, `dynamic_value` (schemas,
    values, their models and validation), `defaults` (default values),
    `value_ops` (member access and updates), `dynamic_data`,
    `dynamic_builder` (type and member builders), `assignability`
    (XTypes assignability).
  - Topic descriptors: `topic` and `no_std_types` (op-stream helpers,
    rebasing, key sections), `type_discovery` (schemas from op streams,
    native layout checks), `native_layout` (what is stored to and loaded
    from a native sample), `content_filter`.
  - Settings and small services: `qos`, `qos_provider`, `security`,
    `sequence`, `serde_sample`, `serialization`, `sample`, `request_reply`,
    `participant_pool`, `entity_text` (reading an entity's name in two tries),
    `status`, `log`, `error`.
  - The browser gateway's portable parts: `bigint` (exact decimal forms of
    64-bit integers), `wasm` (errors, host-side participant),
    `wasm_connect` (the settlement rule of the connection handshake).
  - `text` holds the few calls into std's formatting and UTF-8 decoding
    that the library trusts.
- `tests/` — tests run against the compiled library.
- `app/` — code that cannot be verified: serde/postcard payloads of user
  types, raw pointer stores into and loads from native samples, and
  floating-point accessors over the library's bit-pattern values.

Laws of the library (properties that relate several operations) are the
`law_*` proof functions in `src/`.
