# orbok

orbok searches local documents without sending them anywhere. This crate
is its core, written in Verus: the library's logic in `src/` is verified
against contracts, and the properties the design relies on are stated
and proved as laws (`law_*` proof functions). The calls into outside
crates (lopdf, sha2, uuid) and a few std conversions sit behind small
`external_body` wrappers whose contracts are trusted, not proved; their
doc comments say what each one claims. A few small helpers carry no
contract of their own.

## Layout

- `src/text.rs`: character classes and string primitives over `Seq<char>`.
- `src/normalize.rs`: text normalization `norm-v1`; idempotence laws.
- `src/extract/`: Markdown, plain-text and PDF extraction into located
  segments, and the registry that picks an extractor by extension.
- `src/chunker.rs`: the document chunk and its section, paragraph and
  fallback children.
- `src/query.rs`: keyword MATCH expressions; user input reads back as
  data, never as query syntax.
- `src/search.rs`: search modes, candidate limits, result titles and
  short display paths.
- `src/sensitive.rs`, `src/hashing.rs`, `src/ids.rs`, `src/cache.rs`:
  location warnings, SHA-256 content hashes, typed identifiers, cache
  namespaces.
- `src/catalog.rs`, `src/workers.rs`: catalog records, storage
  accounting, and the pending-job run.
- `src/models.rs`, `src/model_verifier.rs`: model vocabulary, search
  capability, and startup verification of the embedding model files.
- `src/ui/`: localized messages, the view model and its transitions, the
  application shell, page texts and the setup wizard's check list.
- `src/bench.rs`: the synthetic benchmark corpus and labeled queries.
- `app/`: a command-line front end doing the file, network and clock
  work around the library.
- `tests/`: executable tests of the library.
