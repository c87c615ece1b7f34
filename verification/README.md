# radishlex

The transaction, receipt and policy logic of the RadishLex input system, with
its behaviour stated in Verus contracts and proved.

- `src/` is the verified library: install and upgrade receipts and their state
  machines, the decisions of the receipt stores, the startup gates, the program
  bundle moves of an install, the database switch and rollback of an upgrade,
  the start and copy checks of the upgrade's data steps, install finalization,
  the personalization policy of the input runtime, the request, snapshot and
  error decisions of the sync qualification run, and the deleted-term checks
  of the ranker.
- `app/` is ordinary Rust around it: JSON encoding of receipts, the receipt
  stores on disk with their guard sockets, and the file moves that the library
  plans.
- `tests/` runs the library on concrete values.

Not here at all: the user-database snapshot, migration and validations and the
upgrade resume loop, the input session and the sync run with its remote setup,
because they call the project's own database, engine, sync and cryptography
crates, which are not part of this crate; and the ranker's scoring, which
computes in floating point.
