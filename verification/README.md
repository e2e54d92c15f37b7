# solana_ibc

The IBC host stores of two Solana programs, verified with Verus.

- `IbcStore` (`src/ibc_store/`) is read and written through the client,
  connection and channel reader and keeper interfaces, and knows Tendermint
  light clients.
- `SolanaIbcStore` (`src/solana_store.rs`) is read through the validation
  interface and written through the execution interface. It knows
  Tendermint and solo machine light clients and keeps the events and log
  messages of the handlers. `TransferModule` (`src/transfer.rs`) is the token
  transfer application on top of it.

Each store has an abstract state (`StoreState`, `src/store_state.rs`).
Every read is specified as a function of that state, and every write as an
update of it. Decoded light client states are named by the decoder's result
on the stored bytes (`src/outside.rs`, the items taken on trust from the
`ibc` and `sha2` crates). `src/laws.rs` proves what holds across
operations: a value written is the value read back, a write touches nothing
else, a deletion undoes a write, the height searches pick the nearest
height, and delivered batches keep the order of their messages.

`app/` holds what Verus does not check: the program entry points, the
module router, the conversions between `ibc` paths and plain identifiers,
and the decoding of solo machine states.
