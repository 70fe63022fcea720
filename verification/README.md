# delta_kernel_ffi

The layer between the Delta kernel and engines written in other languages, verified with Verus.

- `src/` holds the library. Strings, slices and references that cross the boundary are in
  `strings`, `slices`, `optional_value`, `engine_iterator` and `reference_set`. Builders for
  engines and snapshots are in `engine`, `engine_options`, `tables` and `snapshot`; they end in a
  plan, which says what the kernel is to do. `transaction` stages changes. Committing to a table of
  Unity Catalog, and publishing its commits, are state machines in `uc_committer` and `publish`:
  each state waits for one piece of outside work and is told what came of it. `uc_catalog` and
  `committer` call back into an engine.
- `app/` is the C interface: handles, callbacks, and the work with the kernel's engines.
- `tests/` runs the library, in part with the kernel's default engine over a store in memory.

What is believed of other crates without proof stands in a few functions: `from_utf8` in
`strings`, `parse_url` and `try_parse_uri` in `tables`, `path_segments` in `uc_committer` and `share`
in `sharing`.
The kernel's types that are only carried along are declared in `kernel_types`.
