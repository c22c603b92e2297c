# blob_bench

The verified core of the persistence benchmark harness of an atomic blob
store, written in Verus.

- `src/` holds what the harness decides and computes, each function with a
  contract that Verus proves: latency statistics (`stats`), argument
  validation and file-store workload planning (`args`, `error`), payloads,
  envelope corruption and checksums (`workload`), key and run naming
  (`naming`, `decimal`), reading the peak resident set size out of
  `/proc/self/status` (`procfs`), the text of command output
  (`command_output`), allocation counting (`alloc_count`) and the
  coordinator's message types (`engine`).
- `app/` is the benchmark program: command-line parsing, the store itself,
  timing, threads, files and JSON output.
- `tests/` runs the library on concrete values.
