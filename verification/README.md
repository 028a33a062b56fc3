# cnbl

`cnbl` absorbs foreign repositories into a Rust ecosystem: `scan` classifies
every file of a repository (domain logic, port, adapter, entrypoint, test
harness, script, spec, config, glue, discard), `plan` routes each classified
file to an existing repo, a new crate, the archive or the bin, and `eat`
copies scaffolds and archives files accordingly.

## Layout

- `src/` — the library, verified with Verus.
  - `classifier.rs` — the rule chain and its laws (precedence; path rules
    look at the path lower-cased first, so paths that agree once lower-cased
    get the same kind; the blank-Rust glue gate).
  - `ecosystem.rs` — keyword scoring and routing, with its laws.
  - `cmd/plan.rs`, `cmd/scan.rs`, `cmd/eat.rs` — what each stage computes:
    plan tallies, the scan report, the copies `eat` makes and when it skips,
    reports, performs or fails.
  - `scanner/parser.rs` — top-level node kinds from tree-sitter;
    `scanner/walker.rs` — which files a walk visits and their languages.
  - `text.rs`, `paths.rs` — text helpers and the `std` string and path
    operations the library relies on, each with its stated contract.
- `tests/` — the test suite.
- `app/` — the command line: argument parsing, directory walking, file and
  stream I/O, JSON (de)serialisation.
