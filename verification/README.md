# grand_casino

Rules of the Grand Casino slot-machine backend, written in Verus.

- `src/` — the library. Every function with a body is proved against its
  contract, except the few wrappers marked `#[verifier::external_body]` that
  call rand, chrono, serde_json, axum-oidc-client, http and std
  (`to_lowercase`); their contracts are trusted and their doc comments say what
  they claim.
  - `game` — reels, payout tiers and the multiplier table; laws on the tiers,
    on rarer symbols paying more and on reel order not mattering.
  - `validate` — username rules.
  - `config` — loan rules read from their configured values.
  - `rules` — the checks a stake, a loan or an admin update must pass (an
    admin update is refused to a non-admin whatever it holds), and the
    loan window's reset time.
  - `db` — user accounts and the settlement of a spin, a loan or an admin
    update on a locked row; the law that a settled spin never overdraws.
  - `identity` — token decoding, role gathering and the admin guard.
  - `error` — error statuses, codes, and what a client is shown.
  - `cors` — which configured origins are valid header values.
  - `kanidm` — self-registration settings (the registrar token from its
    variable or file), URLs and answer handling.
  - `oidc` — the OIDC client configuration: secrets given directly or through
    a `<NAME>_FILE`, the session lifetime in minutes, the login scopes, the
    optional CA certificate and the logout endpoint.
  - `models` — data exchanged with the frontend.
  - `text` — trimming, splitting, substring search and decimal numbers.
- `tests/` — tests run against the compiled library.
- `app/` — the HTTP server: configuration from the environment, PostgreSQL,
  the OIDC session layer, the Kanidm client and the request
  handlers.
