# astinel_backend

The core of Astinel, a security scanning platform for Stellar Soroban smart
contracts, written in Verus. The functions in `src/` carry contracts that
Verus proves, except the small trusted wrappers around other crates described
at the end.

## Layout

- `src/analysis` — rule identifiers, severities, categories, findings and
  their listing order, security scores, scan results, rules and the rule
  registry.
- `src/config` — the TOML configuration model, its validation, where the
  configuration file is looked for, and how files and command-line overrides
  resolve into the settings of a run (`laws.rs` states the precedence rules).
- `src/cli` — the `sentinel` command: arguments, terminal capabilities,
  progress messages and dispatch.
- `src/auth` — roles and permissions, request contexts, token claims,
  password hashing, Stellar wallet sign-in and challenge nonces.
- `src/api`, `src/ai`, `src/contracts`, `src/cache` — the rules behind the HTTP
  API, the AI assistant, contract deployment and the Redis-backed stores.
- `src/text.rs`, `src/tokens.rs`, `src/digest.rs` — character, splitting,
  number and digest helpers.
- `app/` — the command-line program and the server side's input and output
  (files, environment, Redis, HTTP, token signing), which Verus does not see.
- `tests/` — tests of the library on concrete values.

Calls into other crates (TOML, glob patterns, Argon2, ed25519, Stellar
strkeys, SHA-256, base64, UUIDs, IndexMap) go through small trusted wrappers
whose contracts state what those crates document; each says in its doc
comment what is assumed.

Two maps keyed by strings are kept as vectors of pairs: the nonces of the
wallet challenges (`NonceStore`) and the per-rule severity overrides of a run.
Verus proves little about a standard `HashMap` with `String` keys, so each is a
`Vec` whose view is a map: the nonce store keeps the invariant that no key
occurs twice, and for the overrides a later pair for a rule replaces an
earlier one, as a map insertion does. What they hold is then proved exactly.
