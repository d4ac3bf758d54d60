# nbping

A ping tool with a live terminal interface and a metrics exporter mode.

- `src/` is the verified library: settings merged as command line > YAML file >
  default (`config`), order-preserving removal of repeated targets (`dedup`),
  the view and theme state (`view`, `theme`), key handling and the interactive
  loop's decisions (`control`), layout arithmetic (`layout`) and start-up
  checks (`startup`).
- `app/` is the unverified front end: command-line parsing, reading the YAML
  file, floating-point latency statistics and drawing with ratatui.
- `tests/` exercise the library on concrete values.
