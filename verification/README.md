# frame_assets

A Verus library of asset-handling logic for a blockchain runtime: the
operation interfaces that assets are created, transferred, destroyed and
described through, a store of hash preimages with requests and deposits,
registries of derivative assets, the transactors that turn cross-consensus
asset movements into local operations, and the checks that an NFT pallet
makes before it acts.

Layout:

- `src/` — the verified library.
  - `dispatch.rs` — dispatch errors and the errors of each module.
  - `table.rs` — a verified key/value table, viewed as a `Map`.
  - `hashing.rs` — BLAKE2b-256, through `blake2b_simd`.
  - `preimage.rs` — the preimage store, its model (with a ledger of the
    deposit and ticket calls it makes) and its laws.
  - `traits/` — asset-operation traits and their strategies.
  - `derivatives.rs`, `xnft.rs` — registries of derivatives and their laws.
  - `xcm_types.rs`, `unique_instances.rs` — cross-consensus asset values and
    the unique-instance transactors.
  - `nfts.rs` — the NFT pallet's permission, setting and attribute decisions.
  - `insert_key.rs`, `construct.rs` — the key-insertion command and the block
    construction benchmark's description.
  - `call_expansion.rs` — what the pallet macro generates for a pallet's
    calls: the variants of its `Call` enum and their indices, fields,
    weights and storage layers, and the implicit-index warnings.
- `tests/` — tests of the library on concrete values.
- `app/` — the command-line front end of the key-insertion command, and the
  writing of a `Call` enum from its expansion plan.
