# ponoma

A multi-household book of record with paper trading, served over HTTP (servant-rs) and MCP,
with a verified core.

- `src/` is the library, written in Verus: every public function carries an `ensures`
  contract proved by the verifier, and the public `lemma_*` proof functions state the laws
  the library keeps (role ladder, service-request lifecycle, left-biased documentation merge,
  catalog dispatch, strategy policies only narrowing, streaming-buffer limits, schema
  statements never running into each other, and more). The trusted items are wrappers that
  make an outside call and only convert its result: std's Unicode case mappings and
  `char::to_string`, percent-encoding's byte escape, and serde_json's reading of a rules text
  (its kind, a field under a key) and insertion of a key into a JSON object. What to do with
  their results (defaults, the `null` case) is decided in verified code.
- `tests/` runs the library on concrete values.
- `app/` is the program around the library: the sqlx persistence, the floating-point
  analytics (valuation, rebalancing, billing, the risk check, harvesting, theses, ranking),
  the servant-rs HTTP router, client and documentation walk, the derive expansions, and the
  MCP server. It hands the library plain values and acts on the decisions it returns.

Run `ponoma http` for the HTTP API or `ponoma mcp` for the MCP server; both read `PONOMA_DB`.
