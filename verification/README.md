# slot_cell

`SlotCell<T>` is a slot that is either filled with a value or empty, with
take/put semantics: a value can be taken out only when the slot is filled, put
in only when it is empty, and replaced or swapped only when filled.

The library is written in Verus and every function in `src/` is verified
against its contract. The view of a cell (`cell@`) is its contents as an
`Option<T>`.

## Design notes

- The operations that change a cell (`take`, `put`, `replace`, `swap`, `with`,
  `update`) take `&mut self` (and `swap` takes `&mut Self` for the other cell).
  Verus reasons about a value behind `&self` as unchanging, so a cell that
  changes through a shared reference (`Cell`) cannot be given exact contracts;
  with `&mut self` each operation states exactly what the cell holds afterwards.
  A cell is mutated only through `&mut`, so it needs no `!Sync` marker.
- The rules of use (take only when filled, put only when empty, replace and
  swap only when filled) are `requires` clauses that Verus checks at every
  verified call. Callers outside Verus still get a panic when they break them.
- `Debug`, `Eq`, `Ord` and `Hash` are derived. `Debug` prints the contents as an
  `Option`, and `Hash` hashes the contents as an `Option`; equal cells hash
  equally. The derived `cmp` compares two filled cells by the values' `cmp`,
  also when a cell is compared with itself. There is no tracking of the location of the last change.
- `PartialEq` and `PartialOrd` are written out and verified: two empty cells
  are equal, an empty cell orders before a filled one, and two filled cells
  compare as their values do.

## Layout

- `src/slot.rs`: the type, its operations, conversions and their laws.
- `src/order.rs`: equality and ordering of cells and their laws.
- `tests/`: the tests.
