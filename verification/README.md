# land_title

A ledger of land titles. Users register under their public keys; owners are
created; land objects (titled polygons) are created for an owner, modified,
transferred to another owner, removed and restored. Every change to an object
is appended to its history, and every change of hands to the ownership lists
of the owners concerned. Refused transactions are answered with a result code
recorded under the transaction's hash.

Layout:

- `src/` — the verified library (Verus).
  - `keys.rs`: 32-byte public keys and digests, compared byte by byte.
  - `assoc.rs`: association lists with distinct keys and the map they stand for.
  - `types.rs`: users, owners, objects, ownership records, history entries, result codes.
  - `txs.rs`: the transactions, and the clock.
  - `model.rs`: the state as transactions see it, and what each transaction does to it.
  - `ledger.rs`: `ObjectsBlockchain`, the in-memory ledger, proved to follow `model.rs`.
  - `laws.rs`: properties that hold of every transaction.
- `app/` — what the library leaves to others: polygon geometry on `f64`
  (the `geo` crate), and signatures, message hashes and Merkle root hashes
  (the `exonum` crate). Coordinates enter the library as `f64` bit patterns,
  and the crossing test of a new polygon against the stored ones enters it as
  one flag per stored object.
- `tests/` — scenario tests.
