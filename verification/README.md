# pact_cli

The decision logic of the `pact` command line tool, verified with Verus.

- `src/` is the verified library: platform targets and download locations
  (`platform`), the extension registry (`config`), where extensions live and how
  installing, running and uninstalling change the registry (`manager`), the
  plans of the `pact extension` subcommands (`commands`), the listing table
  (`table`), the Ruby and Docker Pact Broker helpers (`broker`), the steps of a
  `pact broker ruby` session (`ruby_session`), the logging and
  telemetry plan (`otel`), character-level string operations (`text`), and
  properties that span several functions (`laws`).
- `app/` is the unverified front end: clap argument definitions, file system,
  network and process work, JSON storage of the registry, and the OpenTelemetry
  and tracing set-up. It hands what it reads to the library and carries out the
  plans the library returns.
- `tests/` exercises the library on concrete values.
