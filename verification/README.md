# indy_besu_vdr

Routing of `did:ethr` identifiers to the ledgers configured for their
networks, and validation of AnonCreds revocation registry entries against the
ledger, written in Verus with their contracts proved.

- `src/text.rs`: splitting text at a separator, with the split/join laws.
- `src/ledger_router.rs`: ledger configurations, the router, and the routing laws.
- `src/revocation_registry_entry.rs`: accumulators and revocation registry entries.
- `src/ffi/`: the interface for foreign-language bindings (router records, shared clients, JSON values).
- `src/types.rs`, `src/error.rs`: identifiers, status lists, contract parameters and errors.
- `app/`: JSON encoding of entries with serde, and the asynchronous ledger calls,
  whose transport the caller supplies.
