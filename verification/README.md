# mi-reth-evm

The Mitosis execution layer is upstream reth with one addition: at block
786 000 on chain 124816 (the Mitosis devnet) the canonical Multicall3 bytecode
is written to `0xca11bde05977b3631167028862be2a173976ca11` before the block's
transactions run.  On every other chain or block the hook does nothing.

## Layout

- `src/` — the verified library (Verus):
  - `system_calls.rs` — when the hook fires, and the account it writes
    (balance kept, nonce 1, the bytecode and its Keccak-256 hash), with the
    laws of the hook as proof functions;
  - `primitives.rs` — 256-bit words, addresses and 32-byte hashes as plain
    values;
  - `hash.rs` — the Keccak-256 digest, through `alloy-primitives`;
  - `executor.rs` — the wrapper types that install the hook in a node;
  - `ress.rs` — the arguments of the optional `ress` subprotocol and what
    installing it sets up.
- `tests/` — tests of the library on concrete values.
- `app/` — the node binary: the upstream trait impls, the database reads and
  writes around the hook, and the command line.
