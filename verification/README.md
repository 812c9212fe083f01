# moq_media

Building blocks of a live media broadcast, verified with Verus.

- `src/kio`: a channel whose two sides lock and mutate one value. Senders enqueue, receivers
  drain, each side is counted, and waiting tasks are woken.
- `src/catalog`: the catalog of a broadcast. Tracks are reserved before their config is known, and
  the catalog is withheld until every reservation is resolved, so that the first snapshot is
  complete. Fields that a caller provides up front are validated and merged.
- `src/timeline`: the index from a media track's groups to their start times, throttled to a
  granularity, with a wall-clock anchor.
- `src/import`, `src/ffi`: what an importer starts from, and plain records for other languages.
- `app`: futures, scopes that end handles, wire types and foreign-language derives around the
  library. None of it is verified.

A handle that is shared between threads takes its steps under a lock. The step functions
(`kio::state::State`, `catalog::publisher::Publisher`, `timeline::Index`, ...) carry the exact
contracts, and the laws are proof functions beside them. A handle's own contract says which step
it took on what it found under the lock, and that the outcome was put back (`locks`).

Handles and guards end explicitly (`close`, `unlock`, `release`, `retire`); `app/scope.rs` ends
them with their scope.
