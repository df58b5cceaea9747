# formualizer_bench_core

Deterministic building blocks for spreadsheet-engine benchmarks, verified
with Verus.

- `src/plan.rs`: workbook plans, the cells a generator writes in order, as
  plain values (numbers as exact decimals, text, booleans, formulas), plus
  tables.
- `src/corpus_gen.rs`, `src/corpus_models.rs`, `src/corpus.rs`: the corpus
  generators chosen from a scenario's configuration, the finance and
  operations models, and the normalization of written parts
  (`styles.xml` completion, formula `=` stripping).
- `src/package.rs`: a written package read entry by entry, its parts
  normalized, and the archive written again with names, compression
  methods and order kept.
- `src/scenarios/`: the benchmark scenarios: fixture shapes, edit cycles
  and the values each phase must show.
- `src/scc.rs`, `src/edit_storm.rs`, `src/fp_probes.rs`,
  `src/family_ingest.rs`, `src/family_fixture.rs`, `src/load_envelope.rs`,
  `src/native_runner.rs`, `src/parity.rs`: the probes' argument checks,
  fixture plans, run plans and report bookkeeping.
- `src/a1.rs`, `src/reference.rs`, `src/text.rs`, `src/parse.rs`: A1
  references, range references and the text helpers underneath.

Every function in `src/` carries a contract that Verus proves, except a few
small trusted wrappers: the calls into `regex`, `sha2` and `zip`, and in
`src/text.rs` the two conversions between `str`/`String` and `Vec<char>`
and `String::from_utf8`. Their
contracts are stated in their doc comments and believed, not proved.

`app/` is the command-line program around the library: it reads the
scenario suite, writes plans to `.xlsx` with `umya-spreadsheet`, and reads
and writes the files that the library's package normalization rewrites.
