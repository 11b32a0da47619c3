# token_hub

The verified core of TokenHub, an LLM gateway: an OpenAI-compatible chat
API over pooled upstream providers, integer credit billing (hold, then
settle), four kinds of identity, an admin API, and an agent mode with a
remote-access tunnel.

- `src/` is the library, written and proved with Verus: identities and
  scopes, credential hashing, TOTP checks, credit arithmetic and metering,
  the caches, the rate limits, the tunnel and frpc supervision machines, the
  audit batching machine, and every decision of the HTTP handlers (model
  resolution, candidate filtering, the upstream fallback machine, holds and
  settlement, quota alerts, the admin endpoints' rules).
- `tests/` exercises the library on concrete values.
- `app/` is the runtime around it: axum routing and handlers, Redis, JWT
  signing, the audit worker task, the frpc process and the command line.
  It reads, writes and sends; every rule it applies comes from the library.
