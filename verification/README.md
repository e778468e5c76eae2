# cbzcal

A command-line client for the calendar of Cybozu Office, built around a
library whose behaviour is stated in Verus contracts and proved.

## Layout

- `src/` — the verified library.
  - `text`, `time`, `formats`, `datetime`, `window`: characters, instants in
    chrono's range, the text forms of dates and times, and the date and
    duration shorthands of the command line.
  - `model`, `id`, `view`: events, patches and clones; event identifiers and
    their short form; the terminal rendering and the JSON output shapes.
  - `config`, `loading`, `doctor`: the configuration, where it is looked
    for, how it is read step by step, its paths and credentials, and the
    readiness report.
  - `backend`, `lookup`: listing windows, the in-memory fixture store, the
    list cache's answer, and finding an event by identifier.
  - `cli`, `executor`, `prompt`: the `events` subcommands, their checks and
    the backend request each one becomes; the plans that a language model
    proposes, and their preview.
  - `urls`, `page`, `probe`, `browser`: URL handling, reading login pages,
    the decisions of the login probe, and which URLs may be opened.
- `app/` — the program: argument parsing, files, HTTP, the terminal, and
  the serde forms of the library's types.
- `tests/` — tests of the library through its public interface.
