# registry_contracts

Two Soroban registries as verified state machines.

- `src/credential_registry.rs`: admin-approved issuers issue credentials
  (sequential ids, immutable metadata hash, optional expiry); the issuer or
  the admin revokes them; `verify_credential` gives Active / Expired /
  Revoked / NotFound at a ledger time.
- `src/receipt_registry.rs`: certified issuers issue warehouse receipts;
  owners transfer them; owner and issuer redeem them.
- `src/credential_laws.rs`, `src/receipt_laws.rs`: the properties every
  operation keeps (issuer control, immutable terms, revocation and
  redemption are final), over single operations and over runs.
- `src/address.rs`: addresses (by strkey) and the invocation context (ledger
  time, authorizations).

Each registry value holds what the contract stores; every operation records
the events it publishes and the storage slots it changes. `app/` is the
Soroban contract layer: it loads slots into a registry, demands the
authorizations, calls the verified operation, and writes back and publishes
what the registry reports.
