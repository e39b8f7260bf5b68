# stellar-registry (verified)

Registry names for the Stellar Registry — `name`, `channel/name` and
`name@version` — and the decisions that the registry's build-time tooling
makes around them, written in Verus with their contracts proved.

- `src/` — the verified library:
  - `prefixed`, `versioned`, `version`, `error`, `common`: parsing, printing
    and canonical forms of registry names;
  - `deployed`, `wasm`: cache and wasm paths, cache staleness, address
    resolution and the messages of every failure of `import_contract!` and
    `import_contract_client!`;
  - `asset`: reading `native`, `xlm` and `CODE:ISSUER`, and the offline
    Stellar Asset Contract id;
  - `registry`: reading fetched contract ids, picking a (sub)registry and the
    flagged-contract check;
  - `text`, `strkey`, `outside`: string helpers and the calls into `semver`,
    `stellar-strkey`, `stellar-xdr`, `sha2`, `syn` and `stellar-build`.
- `tests/` — tests run against the compiled library.
- `app/` — unverified glue: `Display` of the name error, macro input, the
  environment, files and the `stellar` processes.
