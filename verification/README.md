# VerdAnt backend

Server side of the VerdAnt agricultural platform on Stellar/Soroban: farmer
identity (AgriScout), SEP-40 wallet authentication and the indexer that
rebuilds read projections from Soroban contract events.

The decisions of the service are a library verified with Verus; the HTTP
server, the database and the chain connections are ordinary Rust around it.

## Layout

- `src/` — the verified library.
  - `text.rs`, `ids.rs`, `json.rs`, `header.rs`: character sequences, counter
    identifiers (`va:escrow:000000000011`), JSON values as plain data, header
    text.
  - `crypto.rs`, `strkey.rs`, `uuid_text.rs`: SHA-256, hex, base64, ed25519,
    strkeys and UUIDs through their crates, each behind a stated contract.
  - `auth/`: SEP-40 challenge and session decisions, bearer tokens.
  - `farmers/`: farmer records, canonical metadata hash, the in-memory identity
    chain and the checks of registration and metadata updates.
  - `indexer/`: events and cursors, the in-memory event source, the JSON form
    of Soroban contract values, the decoding of RPC events from their base64
    XDR (through `stellar-xdr`), projection planning and the projection rows (verification,
    escrow, financing, farmer identity) applied once per event, finality.
  - `routes/`: identifier normalisation and pagination of the read API.
  - `config.rs`: the indexer's contract list and numeric settings.
- `tests/`: tests of the library.
- `app/`: the server (`axum`, `sqlx`, Soroban RPC), which runs the library's
  decisions against PostgreSQL and the chain, and fetches the RPC's event
  pages.
