# nqrust-hvcollector

The installer of the NQRust HV Collector, split in two:

- `src/` — the verified library (Verus): the configuration and registry
  forms with their validation rules, the content of the setup screens, the
  list of Docker images of an offline installation with the decisions and
  messages of probing and loading them, and the rules that locate the project
  root and decide when a compose file is scaffolded. `src/text.rs` holds the
  character-level helpers (white space, trimming, substring search, decimal
  numbers, unsigned parsing) with exact specifications.
- `app/` — plain Rust around it: Docker commands, gzip streaming (flate2),
  files on disk and terminal rendering (ratatui).
- `tests/` — tests of the library.

`app/templates.rs` and `app/utils.rs` embed the bundle files
`fluentd/fluent.conf`, `fluentd/Dockerfile`, `env_template` and
`docker-compose.yaml`; they are expected at the root of this directory when
`app/` is built.
