# pallet_kitties

A kitties pallet written in Verus. Signed accounts create kitties whose sixteen DNA
bytes are the Blake2b-128 digest of the SCALE encoding of a random seed, the sender and
the current extrinsic index; they record new owners; and they breed two stored kitties
into a child whose DNA takes each bit from one parent or the other under a random
selector.

- `src/types.rs`: kitties, origins, errors, events.
- `src/hashing.rs`: the SCALE payload and the digest, behind two trusted calls
  (`parity-scale-codec`, `sp-io`).
- `src/system.rs`: the block number, extrinsic index, phase and events the pallet uses.
- `src/pallet.rs`: the storage, its abstract model, and the dispatchable calls, each
  specified by a transition of the model.
- `src/mock.rs`: the test runtime and `run_to_block`.
- `src/laws.rs`: proved properties of the calls.
- `app/`: SCALE encodings of the stored and announced values.
