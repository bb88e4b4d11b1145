# reth_gnosis

The Gnosis execution-layer extensions of a reth node, with their logic
verified by Verus.

- `src/` — the verified library:
  - `u256` — the 256-bit word (balances, fees) and its saturating addition
    and wrapping multiplication;
  - `evm_config` — the post-execution reward: the mainnet beneficiary
    reward, then from London on the base fee minted to the collector;
  - `payload` — built payloads, the mapping of build outcomes, the blob
    bundles and the engine-API V2–V5 envelope conversions;
  - `primitives::block` — re-typing a block's header and ommer headers.
- `app/` — the node glue: the reth/revm trait impls, the EVM handler
  registration and the database access, which hand plain values to the
  library and write its results back.
- `tests/` — tests of the library on concrete values.
